use tempmail::api::{clamp_list_query, ListQuery};
use tempmail::generator::{generate_email_address, random_string, sanitize};
use tempmail::provision::{
    clamp_ttl, expiry_at, is_unique_violation, next_attempt, plan_request, validate_username,
    InsertOutcome, ProvisionStep, TempEmailRequest, ValidationError,
};
use tempmail::directory::TempEmailAddress;

const CHARSET: &str = "abcdefghjkmnpqrstuvwxyz23456789";

#[test]
fn sanitize_lowercases_and_filters() {
    assert_eq!(sanitize("AbC!dEf".to_string()), "abcdef");
    assert_eq!(sanitize("User_Name-123".to_string()), "username123");
    assert_eq!(sanitize("".to_string()), "");
    assert_eq!(sanitize("....".to_string()), "");
    assert_eq!(sanitize("MiXeD42".to_string()), "mixed42");
}

#[test]
fn random_string_draws_from_charset() {
    let s = random_string(8);
    assert_eq!(s.chars().count(), 8);
    for c in s.chars() {
        assert!(CHARSET.contains(c), "unexpected character {:?}", c);
    }
    assert_eq!(random_string(0), "");
}

#[test]
fn generated_address_joins_local_part_and_domain() {
    assert_eq!(
        generate_email_address(Some("John.Doe".to_string()), "fake-email.com"),
        "johndoe@fake-email.com"
    );
    let random = generate_email_address(None, "fake-email.com");
    let (local, rest) = random.split_once('@').expect("an @ separator");
    assert_eq!(rest, "fake-email.com");
    assert_eq!(local.chars().count(), 8);
    for c in local.chars() {
        assert!(CHARSET.contains(c), "unexpected character {:?}", c);
    }
}

#[test]
fn username_validation_rules() {
    assert_eq!(validate_username("ok_name1"), Ok(()));
    assert_eq!(validate_username("abc"), Ok(()));
    assert_eq!(validate_username("ab"), Err(ValidationError::BadLength));
    assert_eq!(
        validate_username("abcdefghijklmnopqrstu"),
        Err(ValidationError::BadLength)
    );
    assert_eq!(validate_username("ab$d"), Err(ValidationError::BadCharacter));
    assert_eq!(validate_username("with space"), Err(ValidationError::BadCharacter));
    assert_eq!(
        ValidationError::BadLength.message(),
        "Username must be between 3 and 20 characters."
    );
    assert_eq!(
        ValidationError::BadCharacter.message(),
        "Username can only contain alphanumeric characters and underscores."
    );
}

#[test]
fn ttl_is_defaulted_and_clamped() {
    assert_eq!(clamp_ttl(None), 1440);
    assert_eq!(clamp_ttl(Some(5)), 10);
    assert_eq!(clamp_ttl(Some(10)), 10);
    assert_eq!(clamp_ttl(Some(720)), 720);
    assert_eq!(clamp_ttl(Some(1440)), 1440);
    assert_eq!(clamp_ttl(Some(100_000)), 1440);
}

#[test]
fn request_planning() {
    let ok = TempEmailRequest { username: Some("good_name".to_string()), ttl_minutes: Some(5) };
    assert_eq!(plan_request(&ok), Ok(10));
    let anon = TempEmailRequest { username: None, ttl_minutes: None };
    assert_eq!(plan_request(&anon), Ok(1440));
    let bad = TempEmailRequest { username: Some("x".to_string()), ttl_minutes: None };
    assert_eq!(plan_request(&bad), Err(ValidationError::BadLength));
}

#[test]
fn expiry_arithmetic() {
    assert_eq!(expiry_at(1_000, 10), 1_600);
    assert_eq!(expiry_at(0, 1440), 86_400);
    assert_eq!(expiry_at(-50, 0), -50);
}

#[test]
fn unique_violation_code_detection() {
    assert!(is_unique_violation(&Some("23505".to_string())));
    assert!(!is_unique_violation(&Some("40001".to_string())));
    assert!(!is_unique_violation(&Some("".to_string())));
    assert!(!is_unique_violation(&None));
}

#[test]
fn retry_policy_after_insert() {
    let rec = TempEmailAddress {
        id: 3,
        address: "x@fake-email.com".to_string(),
        username: None,
        created_at: 0,
        expires_at: 600,
        is_active: Some(true),
    };
    match next_attempt(InsertOutcome::Inserted(rec), 1) {
        ProvisionStep::Done(r) => assert_eq!(r.id, 3),
        _ => panic!("an inserted record is passed through"),
    }
    assert!(matches!(
        next_attempt(InsertOutcome::DuplicateAddress, 1),
        ProvisionStep::Retry
    ));
    assert!(matches!(
        next_attempt(InsertOutcome::DuplicateAddress, 2),
        ProvisionStep::Retry
    ));
    assert!(matches!(
        next_attempt(InsertOutcome::DuplicateAddress, 3),
        ProvisionStep::FailCollision
    ));
    assert!(matches!(next_attempt(InsertOutcome::Failed, 0), ProvisionStep::FailDatabase));
}

#[test]
fn list_paging_is_clamped() {
    let q = ListQuery { limit: None, offset: None };
    assert_eq!(clamp_list_query(&q), (50, 0));
    let q = ListQuery { limit: Some(500), offset: Some(-5) };
    assert_eq!(clamp_list_query(&q), (200, 0));
    let q = ListQuery { limit: Some(0), offset: Some(30) };
    assert_eq!(clamp_list_query(&q), (1, 30));
    let q = ListQuery { limit: Some(200), offset: Some(0) };
    assert_eq!(clamp_list_query(&q), (200, 0));
}
