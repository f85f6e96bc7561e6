//! Job and owner identifiers: 128-bit UUIDs and their textual form.

use vstd::prelude::*;
use vstd::arithmetic::power::pow;
use crate::error::{ErrorKind, ServiceError, ServiceErrorView};

verus! {

/// What `uuid::Uuid::parse_str` returns for `text`: the identifier as a
/// big-endian 128-bit number, or the debug rendering of the parse error.
pub uninterp spec fn uuid_parse_str(text: Seq<char>) -> Result<u128, Seq<char>>;

/// Whether `text` is a well-formed identifier.
pub open spec fn well_formed(text: Seq<char>) -> bool {
    uuid_parse_str(text) is Ok
}

/// Whether `text` is a well-formed identifier that denotes `value`.
pub open spec fn denotes(text: Seq<char>, value: u128) -> bool {
    uuid_parse_str(text) == Ok::<u128, Seq<char>>(value)
}

/// The sixteen lower-case hexadecimal digits.
pub open spec fn hex_digits() -> Seq<char> {
    seq!['0', '1', '2', '3', '4', '5', '6', '7', '8', '9', 'a', 'b', 'c', 'd', 'e', 'f']
}

/// The `k`-th of the 32 hexadecimal digits of `value`, most significant first.
pub open spec fn nibble(value: u128, k: int) -> int {
    (value as int / pow(16, (31 - k) as nat)) % 16
}

/// How many hyphens stand before position `i` of the canonical text.
pub open spec fn hyphens_before(i: int) -> int {
    if i > 23 {
        4
    } else if i > 18 {
        3
    } else if i > 13 {
        2
    } else if i > 8 {
        1
    } else {
        0
    }
}

/// The canonical text of an identifier: 32 lower-case hexadecimal digits in
/// groups of 8, 4, 4, 4 and 12, separated by hyphens.
pub open spec fn canonical_text(value: u128) -> Seq<char> {
    Seq::new(
        36,
        |i: int|
            if i == 8 || i == 13 || i == 18 || i == 23 {
                '-'
            } else {
                hex_digits()[nibble(value, i - hyphens_before(i))]
            },
    )
}

/// Whether `value` carries the version and variant bits of a random
/// (version 4) UUID.
pub open spec fn is_random_uuid(value: u128) -> bool {
    (value >> 76) & 0xf == 4 && (value >> 62) & 0x3 == 2
}

/// Calls `uuid::Uuid::parse_str` on `text`. An accepted text is returned as the
/// UUID's big-endian 128-bit value (`Uuid::as_u128`), a rejected one as the
/// `Debug` rendering of the `uuid::Error`. The contract only gives that pair
/// the name [`uuid_parse_str`]; what the grammar accepts is not stated.
#[verifier::external_body]
fn parse_uuid(text: &str) -> (r: Result<u128, String>)
    ensures
        match r {
            Ok(value) => uuid_parse_str(text@) == Ok::<u128, Seq<char>>(value),
            Err(detail) => uuid_parse_str(text@) == Err::<u128, Seq<char>>(detail@),
        },
{
    match uuid::Uuid::parse_str(text) {
        Ok(id) => Ok(id.as_u128()),
        Err(e) => Err(format!("{:?}", e)),
    }
}

/// Calls `uuid::Uuid::new_v4`. The value is random; the contract states only
/// the version and variant bits that `new_v4` sets on every value. `new_v4`
/// panics if the operating system cannot supply random bytes.
#[verifier::external_body]
fn random_uuid() -> (value: u128)
    ensures
        is_random_uuid(value),
{
    uuid::Uuid::new_v4().as_u128()
}

/// Formats a UUID with its `Display` impl (`Uuid::from_u128(value).to_string()`),
/// which writes the hyphenated lower-case form, and which `Uuid::parse_str`
/// is documented to read back.
#[verifier::external_body]
fn uuid_to_string(value: u128) -> (r: String)
    ensures
        r@ == canonical_text(value),
        denotes(r@, value),
{
    uuid::Uuid::from_u128(value).to_string()
}

/// Identifies a job that the worker runs.
#[derive(Clone, Copy, Debug, PartialEq, Eq, Hash, Structural)]
pub struct JobId {
    pub value: u128,
}

/// Identifies the principal that may control a job.
#[derive(Clone, Copy, Debug, PartialEq, Eq, Hash, Structural)]
pub struct OwnerId {
    pub value: u128,
}

impl JobId {
    /// The canonical text of this identifier, which parses back to it.
    pub fn to_text(&self) -> (text: String)
        ensures
            text@ == canonical_text(self.value),
            denotes(text@, self.value),
    {
        uuid_to_string(self.value)
    }
}

impl OwnerId {
    /// A fresh random owner identifier.
    pub fn generate() -> (owner: OwnerId)
        ensures
            is_random_uuid(owner.value),
    {
        OwnerId { value: random_uuid() }
    }

    /// The canonical text of this identifier, which parses back to it.
    pub fn to_text(&self) -> (text: String)
        ensures
            text@ == canonical_text(self.value),
            denotes(text@, self.value),
    {
        uuid_to_string(self.value)
    }
}

/// The message that rejects a malformed job identifier.
pub open spec fn invalid_job_id(detail: Seq<char>) -> ServiceErrorView {
    ServiceErrorView {
        kind: ErrorKind::InvalidArgument,
        message: "invalid job_id provided, please provide valid UUID: "@ + detail,
    }
}

/// The message that rejects a malformed owner identifier.
pub open spec fn invalid_owner_id(detail: Seq<char>) -> ServiceErrorView {
    ServiceErrorView {
        kind: ErrorKind::InvalidArgument,
        message: "invalid owner_id provided, please provide valid UUID: "@ + detail,
    }
}

/// The identifiers that two parse results stand for. The job identifier is
/// examined first, so where both are malformed the failure names the job
/// identifier.
pub open spec fn identifiers_given(
    job: Result<u128, Seq<char>>,
    owner: Result<u128, Seq<char>>,
) -> Result<(JobId, OwnerId), ServiceErrorView> {
    match job {
        Err(detail) => Err(invalid_job_id(detail)),
        Ok(job) => match owner {
            Err(detail) => Err(invalid_owner_id(detail)),
            Ok(owner) => Ok((JobId { value: job }, OwnerId { value: owner })),
        },
    }
}

/// The identifiers that a pair of texts stands for.
pub open spec fn identifiers_of(job_id: Seq<char>, owner_id: Seq<char>) -> Result<
    (JobId, OwnerId),
    ServiceErrorView,
> {
    identifiers_given(uuid_parse_str(job_id), uuid_parse_str(owner_id))
}

/// The content of a parse result.
pub open spec fn parsed_of(parsed: Result<u128, String>) -> Result<u128, Seq<char>> {
    match parsed {
        Ok(value) => Ok(value),
        Err(detail) => Err(detail@),
    }
}

/// Settles the identifiers of a request, given what parsing its two texts
/// gave: the two identifiers if both were read, and otherwise an
/// `InvalidArgument` that names the first field that was not, with the
/// parser's description of what is wrong.
pub fn identifiers_from(job: Result<u128, String>, owner: Result<u128, String>) -> (r: Result<
    (JobId, OwnerId),
    ServiceError,
>)
    ensures
        match r {
            Ok(ids) => identifiers_given(parsed_of(job), parsed_of(owner)) == Ok::<
                (JobId, OwnerId),
                ServiceErrorView,
            >(ids),
            Err(e) => identifiers_given(parsed_of(job), parsed_of(owner)) == Err::<
                (JobId, OwnerId),
                ServiceErrorView,
            >(e@),
        },
{
    let job = match job {
        Ok(value) => JobId { value },
        Err(detail) => {
            return Err(
                ServiceError::with_detail(
                    ErrorKind::InvalidArgument,
                    "invalid job_id provided, please provide valid UUID: ",
                    detail.as_str(),
                ),
            );
        },
    };
    let owner = match owner {
        Ok(value) => OwnerId { value },
        Err(detail) => {
            return Err(
                ServiceError::with_detail(
                    ErrorKind::InvalidArgument,
                    "invalid owner_id provided, please provide valid UUID: ",
                    detail.as_str(),
                ),
            );
        },
    };
    Ok((job, owner))
}

/// Reads the job and owner identifiers of a request.
///
/// Succeeds exactly when both texts are well formed, and then returns the
/// identifiers they denote, unchanged. Otherwise the failure is an
/// `InvalidArgument` that names the first malformed field.
pub fn get_job_and_owner_uuids_from_str(job_id: &str, owner_id: &str) -> (r: Result<
    (JobId, OwnerId),
    ServiceError,
>)
    ensures
        match r {
            Ok(ids) => identifiers_of(job_id@, owner_id@) == Ok::<
                (JobId, OwnerId),
                ServiceErrorView,
            >(ids),
            Err(e) => identifiers_of(job_id@, owner_id@) == Err::<
                (JobId, OwnerId),
                ServiceErrorView,
            >(e@),
        },
        r is Ok <==> well_formed(job_id@) && well_formed(owner_id@),
{
    identifiers_from(parse_uuid(job_id), parse_uuid(owner_id))
}

} // verus!
