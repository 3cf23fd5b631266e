use geocache::auth::{basic_auth_accepted, credentials_match};

#[test]
fn accepts_the_one_credential_pair() {
    // "forecast:forecast", base64-encoded.
    assert!(basic_auth_accepted("Basic Zm9yZWNhc3Q6Zm9yZWNhc3Q="));
}

#[test]
fn accepts_encoded_credentials_round_trip() {
    let header = format!("Basic {}", base64::encode("forecast:forecast"));
    assert!(basic_auth_accepted(&header));
}

#[test]
fn rejects_wrong_credentials() {
    let header = format!("Basic {}", base64::encode("forecast:wrong"));
    assert!(!basic_auth_accepted(&header));
    let header = format!("Basic {}", base64::encode("admin:forecast"));
    assert!(!basic_auth_accepted(&header));
}

#[test]
fn rejects_missing_scheme_marker() {
    assert!(!basic_auth_accepted("Zm9yZWNhc3Q6Zm9yZWNhc3Q="));
    assert!(!basic_auth_accepted("Bearer Zm9yZWNhc3Q6Zm9yZWNhc3Q="));
    assert!(!basic_auth_accepted(""));
}

#[test]
fn rejects_malformed_payload() {
    assert!(!basic_auth_accepted("Basic !!!not-base64!!!"));
    assert!(!basic_auth_accepted("Basic "));
}

#[test]
fn repeated_scheme_markers_are_all_stripped() {
    // The payload is whatever remains after every leading "Basic ";
    // a doubled marker still reaches the credential check.
    assert!(basic_auth_accepted("Basic Basic Zm9yZWNhc3Q6Zm9yZWNhc3Q="));
}

#[test]
fn credential_bytes_must_match_exactly() {
    assert!(credentials_match(&b"forecast:forecast".to_vec()));
    assert!(!credentials_match(&b"forecast:forecasx".to_vec()));
    assert!(!credentials_match(&b"forecast:forecast ".to_vec()));
    assert!(!credentials_match(&Vec::new()));
}
