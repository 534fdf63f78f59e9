use packed_semver::account::{Login, Service, UserSource};

#[test]
fn service_labels() {
    assert_eq!(Service::Local.as_str(), "Local");
    assert_eq!(Service::GitHub.as_str(), "GitHub");
}

#[test]
fn login_record_holds_its_fields() {
    let login = Login {
        service: Service::GitHub,
        service_user: "octocat",
        uid: ulid::Ulid::nil(),
    };
    assert_eq!(login.service.as_str(), "GitHub");
    assert_eq!(login.service_user, "octocat");
    assert!(login.uid.is_nil());
}

#[test]
fn user_source_holds_its_fields() {
    let source = UserSource { id: 7, domain: "example.org", authorised: true, banned: false };
    assert_eq!(source.id, 7);
    assert_eq!(source.domain, "example.org");
    assert!(source.authorised);
    assert!(!source.banned);
}
