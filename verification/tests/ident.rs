use stevedore::error::ErrorKind;
use stevedore::ident::{get_job_and_owner_uuids_from_str, identifiers_from, JobId, OwnerId};

const JOB: &str = "550e8400-e29b-41d4-a716-446655440000";
const OWNER: &str = "67e55044-10b1-426f-9247-bb680e5fe0c8";

#[test]
fn hyphenated_identifiers_are_read() {
    let (job, owner) = get_job_and_owner_uuids_from_str(JOB, OWNER).unwrap();
    assert_eq!(job, JobId { value: 0x550e8400_e29b_41d4_a716_446655440000 });
    assert_eq!(owner, OwnerId { value: 0x67e55044_10b1_426f_9247_bb680e5fe0c8 });
}

#[test]
fn identifiers_agree_with_the_uuid_crate() {
    let (job, owner) = get_job_and_owner_uuids_from_str(JOB, OWNER).unwrap();
    assert_eq!(job.value, uuid::Uuid::parse_str(JOB).unwrap().as_u128());
    assert_eq!(owner.value, uuid::Uuid::parse_str(OWNER).unwrap().as_u128());
}

#[test]
fn other_textual_forms_are_read() {
    let simple = "550e8400e29b41d4a716446655440000";
    let braced = "{550e8400-e29b-41d4-a716-446655440000}";
    let urn = "urn:uuid:550e8400-e29b-41d4-a716-446655440000";
    let upper = "550E8400-E29B-41D4-A716-446655440000";
    for text in [simple, braced, urn, upper] {
        let (job, _) = get_job_and_owner_uuids_from_str(text, OWNER).unwrap();
        assert_eq!(job.value, 0x550e8400_e29b_41d4_a716_446655440000);
    }
}

#[test]
fn malformed_job_id_is_an_invalid_argument() {
    let e = get_job_and_owner_uuids_from_str("not-a-uuid", OWNER).unwrap_err();
    assert_eq!(e.kind(), ErrorKind::InvalidArgument);
    let detail = format!("{:?}", uuid::Uuid::parse_str("not-a-uuid").unwrap_err());
    assert_eq!(
        e.message(),
        format!("invalid job_id provided, please provide valid UUID: {}", detail)
    );
}

#[test]
fn malformed_job_id_message_is_exact() {
    let e = get_job_and_owner_uuids_from_str("zz", OWNER).unwrap_err();
    assert_eq!(
        e.message(),
        "invalid job_id provided, please provide valid UUID: Error(ParseChar { character: 'z', index: 0 })"
    );
}

#[test]
fn malformed_owner_id_is_an_invalid_argument() {
    let e = get_job_and_owner_uuids_from_str(JOB, "").unwrap_err();
    assert_eq!(e.kind(), ErrorKind::InvalidArgument);
    let detail = format!("{:?}", uuid::Uuid::parse_str("").unwrap_err());
    assert_eq!(
        e.message(),
        format!("invalid owner_id provided, please provide valid UUID: {}", detail)
    );
}

#[test]
fn job_id_is_examined_before_owner_id() {
    let e = get_job_and_owner_uuids_from_str("x", "y").unwrap_err();
    assert!(e.message().starts_with("invalid job_id provided"));
}

#[test]
fn identifier_one_digit_short_is_rejected() {
    let short = "550e8400-e29b-41d4-a716-44665544000";
    assert!(get_job_and_owner_uuids_from_str(short, OWNER).is_err());
    assert!(get_job_and_owner_uuids_from_str(JOB, short).is_err());
}

#[test]
fn identifier_with_non_ascii_text_is_rejected() {
    let text = "550e8400-e29b-41d4-a716-44665544000é";
    assert!(get_job_and_owner_uuids_from_str(text, OWNER).is_err());
}

#[test]
fn canonical_text_is_hyphenated_lower_case() {
    let job = JobId { value: 0x550E8400_E29B_41D4_A716_446655440000 };
    assert_eq!(job.to_text(), JOB);
    let owner = OwnerId { value: 0xa1a2a3a4_b1b2_c1c2_d1d2_d3d4d5d6d7d8 };
    assert_eq!(owner.to_text(), "a1a2a3a4-b1b2-c1c2-d1d2-d3d4d5d6d7d8");
    assert_eq!(JobId { value: 0 }.to_text(), "00000000-0000-0000-0000-000000000000");
    assert_eq!(JobId { value: u128::MAX }.to_text(), "ffffffff-ffff-ffff-ffff-ffffffffffff");
}

#[test]
fn canonical_text_reads_back() {
    for value in [0u128, 1, 0x0123456789abcdef_fedcba9876543210, u128::MAX] {
        let job = JobId { value };
        let owner = OwnerId { value };
        let (j, o) = get_job_and_owner_uuids_from_str(&job.to_text(), &owner.to_text()).unwrap();
        assert_eq!(j, job);
        assert_eq!(o, owner);
    }
}

#[test]
fn generated_owner_is_a_random_uuid() {
    let owner = OwnerId::generate();
    assert_eq!((owner.value >> 76) & 0xf, 4);
    assert_eq!((owner.value >> 62) & 0x3, 2);
    let parsed = uuid::Uuid::from_u128(owner.value);
    assert_eq!(parsed.get_version_num(), 4);
}

#[test]
fn generated_owners_differ() {
    let a = OwnerId::generate();
    let b = OwnerId::generate();
    assert_ne!(a, b);
}

#[test]
fn identifiers_from_parse_results() {
    let ids = identifiers_from(Ok(7), Ok(9)).unwrap();
    assert_eq!(ids, (JobId { value: 7 }, OwnerId { value: 9 }));
}

#[test]
fn identifiers_from_failed_parses() {
    let e = identifiers_from(Err(String::from("bad job")), Ok(9)).unwrap_err();
    assert_eq!(e.kind(), ErrorKind::InvalidArgument);
    assert_eq!(e.message(), "invalid job_id provided, please provide valid UUID: bad job");
    let e = identifiers_from(Ok(7), Err(String::from("bad owner"))).unwrap_err();
    assert_eq!(e.kind(), ErrorKind::InvalidArgument);
    assert_eq!(e.message(), "invalid owner_id provided, please provide valid UUID: bad owner");
    let e = identifiers_from(Err(String::from("a")), Err(String::from("b"))).unwrap_err();
    assert_eq!(e.message(), "invalid job_id provided, please provide valid UUID: a");
}
