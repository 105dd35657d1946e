use pgp_expiration::directory::{credential_of, lookup_from, lookup_url, Reply};
use pgp_expiration::failure::{failure_message, FailedStep, Failure};

fn failure(step: FailedStep, cause: &str) -> Failure {
    Failure { step, cause: cause.to_string() }
}

#[test]
fn lookup_url_is_the_advanced_web_key_directory_url() {
    assert_eq!(
        lookup_url("Joe.Doe@Example.ORG"),
        Ok("https://openpgpkey.example.org/.well-known/openpgpkey/example.org/hu/\
            iy9q119eutrkn8s1mk4r39qejnbu3n5q?l=Joe.Doe"
            .to_string())
    );
    assert_eq!(
        lookup_url("foo.bar@example.com"),
        Ok("https://openpgpkey.example.com/.well-known/openpgpkey/example.com/hu/\
            gpstsxm1hbo5un4345d387ie5eozwhu4?l=foo.bar"
            .to_string())
    );
}

#[test]
fn lookup_url_rejects_an_address_without_exactly_one_at_sign() {
    for address in ["", "foo", "example.com", "a@b@c", "@@", "foo@bar@", "no at sign"] {
        let rejected = lookup_url(address).unwrap_err();
        assert_eq!(
            rejected,
            failure(
                FailedStep::AddressUnparseable,
                &format!("Malformed email address {}", address)
            )
        );
        assert_eq!(
            rejected.message(),
            format!(
                "Error: Failed to get certificate: Failed to parse email address: \
                 Malformed email address {}",
                address
            )
        );
    }
}

#[test]
fn lookup_url_takes_each_address_with_one_at_sign_as_parseable() {
    for address in ["a@b", "@", "foo@", "@example.org", "foo@exa mple.com", "\u{e9}@\u{fc}.example"]
    {
        match lookup_url(address) {
            Ok(url) => assert!(url.starts_with("https://openpgpkey."), "{}", url),
            Err(rejected) => assert_eq!(rejected.step, FailedStep::UrlUnbuildable),
        }
    }
}

#[test]
fn lookup_url_reports_an_address_from_which_no_url_can_be_built() {
    let rejected = lookup_url("foo@exa mple.com").unwrap_err();
    assert_eq!(rejected.step, FailedStep::UrlUnbuildable);
    assert!(!rejected.cause.is_empty());
    assert_eq!(
        rejected.message(),
        format!("Error: Failed to get certificate: Failed to build wkd url: {}", rejected.cause)
    );
}

#[test]
fn lookup_url_depends_on_the_address_alone() {
    for address in ["alice@example.org", "a@b", "@", "x@y@z", "foo@exa mple.com"] {
        assert_eq!(lookup_url(address), lookup_url(address));
    }
}

#[test]
fn lookup_from_names_the_step() {
    assert_eq!(lookup_from(Ok(Ok("https://x/".to_string()))), Ok("https://x/".to_string()));
    assert_eq!(
        lookup_from(Ok(Err("empty host".to_string()))),
        Err(failure(FailedStep::UrlUnbuildable, "empty host"))
    );
    assert_eq!(
        lookup_from(Err("Malformed email address x".to_string())),
        Err(failure(FailedStep::AddressUnparseable, "Malformed email address x"))
    );
}

#[test]
fn failure_message_for_each_step() {
    let steps = [
        (FailedStep::AddressUnparseable, "Failed to parse email address"),
        (FailedStep::UrlUnbuildable, "Failed to build wkd url"),
        (FailedStep::RequestFailed, "Failed to send GET request"),
        (FailedStep::ServerError, "WKD server returned error"),
        (FailedStep::BodyUnreadable, "Failed to get response"),
        (FailedStep::CredentialUnparseable, "Failed to parse certificate"),
    ];
    for (step, text) in steps {
        assert_eq!(step.text(), text);
        assert_eq!(
            failure_message(step, "cause"),
            format!("Error: Failed to get certificate: {}: cause", text)
        );
        assert_eq!(
            failure_message(step, ""),
            format!("Error: Failed to get certificate: {}: ", text)
        );
        assert_eq!(failure(step, "why").message(), failure_message(step, "why"));
    }
}

#[test]
fn credential_of_a_reply() {
    assert_eq!(
        credential_of(Reply::Answered { status: 200, body: Ok(vec![9, 8, 7]) }),
        Ok(vec![9, 8, 7])
    );
    assert_eq!(credential_of(Reply::Answered { status: 299, body: Ok(vec![]) }), Ok(vec![]));
    assert_eq!(
        credential_of(Reply::Unsent("dns error".to_string())),
        Err(failure(FailedStep::RequestFailed, "dns error"))
    );
    assert_eq!(
        credential_of(Reply::Answered { status: 199, body: Ok(vec![1]) }),
        Err(failure(FailedStep::ServerError, "HTTP status 199"))
    );
    assert_eq!(
        credential_of(Reply::Answered { status: 300, body: Ok(vec![1]) }),
        Err(failure(FailedStep::ServerError, "HTTP status 300"))
    );
    assert_eq!(
        credential_of(Reply::Answered { status: 503, body: Err("gone".to_string()) }),
        Err(failure(FailedStep::ServerError, "HTTP status 503"))
    );
    assert_eq!(
        credential_of(Reply::Answered { status: 200, body: Err("truncated".to_string()) }),
        Err(failure(FailedStep::BodyUnreadable, "truncated"))
    );
}
