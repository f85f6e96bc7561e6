//! Forwarding a job's output as a stream of chunks.
//!
//! The embedding program owns the reader. It reads into a buffer of
//! [`CHUNK_SIZE`] bytes, hands each result to [`LogStream::on_read`], and does
//! what the returned step says, until the stream is closed.

use vstd::prelude::*;
use vstd::slice::slice_to_vec;
use crate::error::{ErrorKind, ServiceError, ServiceErrorView};

verus! {

/// The size of the buffer that each read fills at most, in bytes.
pub const CHUNK_SIZE: usize = 4096;

/// One message of a job's output stream.
#[derive(Clone, Debug, PartialEq, Eq)]
pub struct StreamJobResponse {
    pub output: Vec<u8>,
}

/// What to do after a read.
#[derive(Clone, Debug, PartialEq, Eq)]
pub enum StreamStep {
    /// Send this chunk, then read again.
    Chunk(StreamJobResponse),
    /// End the stream normally; the reader is exhausted.
    End,
    /// Send this error as the last event, then end the stream.
    Abort(ServiceError),
    /// Nothing: the stream had ended before this read.
    Closed,
}

/// The mathematical content of a [`StreamStep`].
pub enum StreamStepView {
    Chunk(Seq<u8>),
    End,
    Abort(ServiceErrorView),
    Closed,
}

impl View for StreamStep {
    type V = StreamStepView;

    open spec fn view(&self) -> StreamStepView {
        match self {
            StreamStep::Chunk(response) => StreamStepView::Chunk(response.output@),
            StreamStep::End => StreamStepView::End,
            StreamStep::Abort(e) => StreamStepView::Abort(e@),
            StreamStep::Closed => StreamStepView::Closed,
        }
    }
}

/// The result of one read: the bytes read, none at the end of the data, or
/// the description of a failure.
pub type ReadView = Result<Seq<u8>, Seq<char>>;

/// The error that ends a stream whose reader failed.
pub open spec fn read_failure(detail: Seq<char>) -> ServiceErrorView {
    ServiceErrorView {
        kind: ErrorKind::StreamReadFailure,
        message: "failed to read job logs: "@ + detail,
    }
}

/// The step that follows a read, and whether the stream stays open.
pub open spec fn step_of(open: bool, read: ReadView) -> (bool, StreamStepView) {
    if !open {
        (false, StreamStepView::Closed)
    } else {
        match read {
            Ok(data) => if data.len() == 0 {
                (false, StreamStepView::End)
            } else {
                (true, StreamStepView::Chunk(data))
            },
            Err(detail) => (false, StreamStepView::Abort(read_failure(detail))),
        }
    }
}

/// The steps that a stream takes for a run of reads, in order.
pub open spec fn forwarded(open: bool, reads: Seq<ReadView>) -> Seq<StreamStepView>
    decreases reads.len(),
{
    if reads.len() == 0 {
        Seq::empty()
    } else {
        let (next, step) = step_of(open, reads.first());
        seq![step] + forwarded(next, reads.drop_first())
    }
}

/// The bytes that a run of steps sends to the caller, in order.
pub open spec fn delivered(steps: Seq<StreamStepView>) -> Seq<u8>
    decreases steps.len(),
{
    if steps.len() == 0 {
        Seq::empty()
    } else {
        match steps.first() {
            StreamStepView::Chunk(data) => data + delivered(steps.drop_first()),
            _ => delivered(steps.drop_first()),
        }
    }
}

/// The reads of a reader that yields `chunks` one by one and then reports
/// the end of its data.
pub open spec fn reads_of(chunks: Seq<Seq<u8>>) -> Seq<ReadView> {
    Seq::new(
        chunks.len() + 1,
        |i: int|
            if i < chunks.len() {
                Ok::<Seq<u8>, Seq<char>>(chunks[i])
            } else {
                Ok::<Seq<u8>, Seq<char>>(Seq::empty())
            },
    )
}

/// A job's output stream: open until the reader is exhausted or fails.
#[derive(Debug, PartialEq, Eq)]
pub struct LogStream {
    open: bool,
}

impl LogStream {
    /// Whether further reads are wanted.
    pub closed spec fn spec_is_open(&self) -> bool {
        self.open
    }

    /// An open stream that has delivered nothing yet.
    pub fn new() -> (stream: LogStream)
        ensures
            stream.is_open(),
    {
        LogStream { open: true }
    }

    /// Whether further reads are wanted.
    #[verifier::when_used_as_spec(spec_is_open)]
    pub fn is_open(&self) -> (open: bool)
        ensures
            open == self.is_open(),
    {
        self.open
    }

    /// Ends the stream because the caller has gone away. Nothing is sent
    /// any more, and the reader can be released.
    pub fn cancel(&mut self)
        ensures
            !final(self).is_open(),
    {
        self.open = false;
    }

    /// Decides what follows a read.
    ///
    /// `read` holds the bytes that the read placed in the buffer, or the
    /// description of its failure. Bytes are forwarded as one chunk, exactly
    /// as read. An empty read ends the stream normally. A failure is
    /// reported once and ends the stream. Once the stream has ended every
    /// further read yields `Closed`.
    pub fn on_read(&mut self, read: Result<&[u8], &str>) -> (step: StreamStep)
        ensures
            (final(self).is_open(), step@) == step_of(
                old(self).is_open(),
                match read {
                    Ok(data) => Ok(data@),
                    Err(detail) => Err(detail@),
                },
            ),
    {
        if !self.open {
            return StreamStep::Closed;
        }
        match read {
            Ok(data) => {
                if data.len() == 0 {
                    self.open = false;
                    StreamStep::End
                } else {
                    StreamStep::Chunk(StreamJobResponse { output: slice_to_vec(data) })
                }
            },
            Err(detail) => {
                self.open = false;
                StreamStep::Abort(
                    ServiceError::with_detail(
                        ErrorKind::StreamReadFailure,
                        "failed to read job logs: ",
                        detail,
                    ),
                )
            },
        }
    }
}

/// An open stream forwards everything its reader yields. If the reader hands
/// out `chunks`, none of them empty, and then reports the end of its data,
/// the stream sends one chunk per read with the same bytes, in the same
/// order, then ends normally. The bytes delivered are those of the reader
/// with nothing missing, repeated or out of place, and no chunk is larger
/// than the read it came from.
pub proof fn lemma_stream_forwards_all(chunks: Seq<Seq<u8>>)
    requires
        forall|i: int| 0 <= i < chunks.len() ==> 0 < #[trigger] chunks[i].len() <= CHUNK_SIZE,
    ensures
        forwarded(true, reads_of(chunks)).len() == chunks.len() + 1,
        forall|i: int|
            0 <= i < chunks.len() ==> #[trigger] forwarded(true, reads_of(chunks))[i]
                == StreamStepView::Chunk(chunks[i]),
        forwarded(true, reads_of(chunks)).last() == StreamStepView::End,
        delivered(forwarded(true, reads_of(chunks))) == chunks.flatten(),
    decreases chunks.len(),
{
    let reads = reads_of(chunks);
    let steps = forwarded(true, reads);
    if chunks.len() == 0 {
        assert(reads.drop_first() =~= Seq::<ReadView>::empty());
        assert(forwarded(false, reads.drop_first()) =~= Seq::<StreamStepView>::empty());
        assert(steps =~= seq![StreamStepView::End]);
        assert(steps.drop_first() =~= Seq::<StreamStepView>::empty());
        assert(delivered(steps.drop_first()) =~= Seq::<u8>::empty());
        assert(delivered(steps) =~= Seq::<u8>::empty());
        assert(chunks.flatten() =~= Seq::<u8>::empty());
    } else {
        let rest = chunks.drop_first();
        lemma_stream_forwards_all(rest);
        assert(reads.drop_first() =~= reads_of(rest));
        let tail = forwarded(true, reads_of(rest));
        assert(steps =~= seq![StreamStepView::Chunk(chunks[0])] + tail);
        assert(steps.drop_first() =~= tail);
        assert forall|i: int| 0 <= i < chunks.len() implies #[trigger] steps[i]
            == StreamStepView::Chunk(chunks[i]) by {
            if i > 0 {
                assert(steps[i] == tail[i - 1]);
                assert(rest[i - 1] == chunks[i]);
            }
        }
        assert(steps.last() == tail.last());
        assert(steps.first() == StreamStepView::Chunk(chunks[0]));
        assert(delivered(steps) =~= chunks[0] + delivered(tail));
        assert(chunks.flatten() =~= chunks[0] + rest.flatten());
    }
}

/// Once a stream has ended, by exhaustion or by failure, nothing more is
/// sent: every further read is answered `Closed`, so no chunk is delivered
/// twice and no second error follows the first.
pub proof fn lemma_closed_stream_stays_silent(reads: Seq<ReadView>)
    ensures
        forall|i: int|
            0 <= i < reads.len() ==> #[trigger] forwarded(false, reads)[i]
                == StreamStepView::Closed,
        forwarded(false, reads).len() == reads.len(),
        delivered(forwarded(false, reads)) == Seq::<u8>::empty(),
    decreases reads.len(),
{
    if reads.len() > 0 {
        lemma_closed_stream_stays_silent(reads.drop_first());
        let tail = forwarded(false, reads.drop_first());
        let steps = forwarded(false, reads);
        assert(steps =~= seq![StreamStepView::Closed] + tail);
        assert(steps.drop_first() =~= tail);
        assert forall|i: int| 0 <= i < reads.len() implies #[trigger] steps[i]
            == StreamStepView::Closed by {
            if i > 0 {
                assert(steps[i] == tail[i - 1]);
            }
        }
    }
}

} // verus!
