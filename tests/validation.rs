use ployer::error::PloyerError;
use ployer::validation::{application_fields, email, env_key, git_url, password, port, required};

fn message(r: Result<(), PloyerError>) -> String {
    match r {
        Err(PloyerError::BadRequest(m)) => m,
        other => panic!("expected a bad request, got {:?}", other),
    }
}

#[test]
fn port_zero_is_rejected() {
    assert_eq!(message(port(0)), "Port must be between 1 and 65535");
    assert!(port(1).is_ok());
    assert!(port(65535).is_ok());
}

#[test]
fn env_keys_are_ascii_words() {
    assert!(env_key("DATABASE_URL").is_ok());
    assert!(env_key("a1_B2").is_ok());
    assert!(env_key("HAS SPACE").is_err());
    assert!(env_key("DASH-ED").is_err());
    assert!(env_key("ÜBER").is_err());
    assert!(env_key("a.b").is_err());
    assert_eq!(message(env_key("   ")), "Environment variable key is required");
    assert!(env_key(&"A".repeat(256)).is_ok());
    assert!(env_key(&"A".repeat(257)).is_err());
}

#[test]
fn email_checks() {
    assert!(email("user@example.com").is_ok());
    assert_eq!(message(email("userexample.com")), "Invalid email address");
    assert_eq!(message(email("user@examplecom")), "Invalid email address");
    assert_eq!(message(email("")), "Email is required");
    let long = format!("{}@example.com", "a".repeat(242));
    assert_eq!(long.len(), 254);
    assert!(email(&long).is_ok());
    let longer = format!("{}@example.com", "a".repeat(243));
    assert_eq!(message(email(&longer)), "Email must be 254 characters or fewer");
}

#[test]
fn password_length_bounds() {
    assert!(password(&"x".repeat(7)).is_err());
    assert!(password(&"x".repeat(8)).is_ok());
    assert!(password(&"x".repeat(128)).is_ok());
    assert!(password(&"x".repeat(129)).is_err());
}

#[test]
fn git_url_schemes() {
    assert!(git_url("https://github.com/u/r.git").is_ok());
    assert!(git_url("http://h/r").is_ok());
    assert!(git_url("git@github.com:u/r.git").is_ok());
    assert!(git_url("ssh://git@h/r").is_ok());
    assert!(git_url("ftp://h/r").is_err());
    assert!(git_url(&format!("https://{}", "a".repeat(2041))).is_err());
}

#[test]
fn required_fields() {
    assert_eq!(message(required(" \t", "Name", 10)), "Name is required");
    assert_eq!(message(required("abcdefghijk", "Name", 10)), "Name must be 10 characters or fewer");
    assert!(required("abc", "Name", 10).is_ok());
}

#[test]
fn application_fields_are_checked_in_order() {
    assert!(application_fields("web", "srv-1", Some("https://github.com/u/r.git"), Some(8080)).is_ok());
    assert!(application_fields("web", "srv-1", None, None).is_ok());
    assert_eq!(message(application_fields("", "srv-1", None, None)), "Name is required");
    assert_eq!(message(application_fields("web", "", None, None)), "Server ID is required");
    assert!(application_fields("web", "srv", Some("ftp://x"), None).is_err());
    assert_eq!(message(application_fields("web", "srv", None, Some(0))), "Port must be between 1 and 65535");
}

#[test]
fn password_length_counts_bytes() {
    // four characters of two bytes each
    assert!(password("éééé").is_ok());
    assert!(password("ééé").is_err());
    assert!(password(&"é".repeat(65)).is_err());
}
