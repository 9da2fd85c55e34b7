use auth_endpoint::bearer::check_access;
use auth_endpoint::bearer::ok_validator;
use auth_endpoint::bearer::protect;
use auth_endpoint::bearer::Access;
use auth_endpoint::bearer::BearerCredential;
use auth_endpoint::bearer::Verdict;

#[test]
fn every_credential_is_observed_and_reaches_the_resource() {
    for token in ["mF_9.B5f-4.1JqM", "x", "", "with space", "\u{fc}ber"] {
        let credential = BearerCredential::new(token.to_string());
        let report = protect(&credential);
        assert_eq!(report.observed, token);
        assert_eq!(report.access, Access::Forward);
    }
}

#[test]
fn ok_validator_accepts_every_credential() {
    assert_eq!(ok_validator(&BearerCredential::new("abc".to_string())), Verdict::Accept);
    assert_eq!(ok_validator(&BearerCredential::new(String::new())), Verdict::Accept);
}

#[test]
fn rejected_credential_is_observed_and_turned_away() {
    let credential = BearerCredential::new("abc".to_string());
    let report = check_access(&credential, Verdict::Reject);
    assert_eq!(report.observed, "abc");
    assert_eq!(report.access, Access::Unauthenticated);
    let report = check_access(&credential, Verdict::Accept);
    assert_eq!(report.observed, "abc");
    assert_eq!(report.access, Access::Forward);
}

#[test]
fn credential_keeps_its_text() {
    let credential = BearerCredential::new("mF_9.B5f-4.1JqM".to_string());
    assert_eq!(credential.token(), "mF_9.B5f-4.1JqM");
}
