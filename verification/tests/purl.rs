use cyclonedx_gentoo::purl::{package_url, parse_package_url};

#[test]
fn package_url_without_repository() {
    assert_eq!(
        package_url("app-misc", "mock-pkg", "1.2.3", None),
        "pkg:gentoo/app-misc/mock-pkg@1.2.3"
    );
    assert_eq!(
        package_url("dev-libs", "openssl", "3.0.12", None),
        "pkg:gentoo/dev-libs/openssl@3.0.12"
    );
}

#[test]
fn package_url_with_repository() {
    assert_eq!(
        package_url("dev-libs", "openssl", "3.0.12-r1", Some("gentoo")),
        "pkg:gentoo/dev-libs/openssl@3.0.12-r1?repository=gentoo"
    );
    assert_eq!(package_url("c", "n", "1", Some("")), "pkg:gentoo/c/n@1?repository=");
}

#[test]
fn package_url_writes_segments_as_they_are() {
    assert_eq!(package_url("", "", "", None), "pkg:gentoo//@");
    assert_eq!(package_url("a b", "n+m", "1_p2", None), "pkg:gentoo/a b/n+m@1_p2");
    assert_eq!(package_url("a/b", "n@m", "1?2", None), "pkg:gentoo/a/b/n@m@1?2");
}

#[test]
fn parse_reads_what_was_written() {
    let parsed = parse_package_url("pkg:gentoo/app-misc/mock-pkg@1.2.3").unwrap();
    assert_eq!(parsed.category, "app-misc");
    assert_eq!(parsed.name, "mock-pkg");
    assert_eq!(parsed.version, "1.2.3");
    assert_eq!(parsed.repository, None);

    let parsed = parse_package_url("pkg:gentoo/dev-libs/openssl@3.0.12?repository=gentoo").unwrap();
    assert_eq!(parsed.category, "dev-libs");
    assert_eq!(parsed.name, "openssl");
    assert_eq!(parsed.version, "3.0.12");
    assert_eq!(parsed.repository, Some("gentoo".to_string()));
}

#[test]
fn parse_refuses_other_texts() {
    assert!(parse_package_url("").is_none());
    assert!(parse_package_url("pkg:cargo/serde@1.0").is_none());
    assert!(parse_package_url("pkg:gentoo/").is_none());
    assert!(parse_package_url("pkg:gentoo/openssl@3").is_none());
    assert!(parse_package_url("pkg:gentoo/dev-libs/openssl").is_none());
    assert!(parse_package_url("pkg:gentoo/dev-libs/openssl@3?arch=x86").is_none());
    assert!(parse_package_url("pkg:gentoo/dev-libs/openssl@3?").is_none());
}

#[test]
fn parse_allows_empty_segments() {
    let parsed = parse_package_url("pkg:gentoo//@").unwrap();
    assert_eq!(parsed.category, "");
    assert_eq!(parsed.name, "");
    assert_eq!(parsed.version, "");
    assert_eq!(parsed.repository, None);

    let parsed = parse_package_url("pkg:gentoo/c/n@1?repository=").unwrap();
    assert_eq!(parsed.repository, Some(String::new()));
}

#[test]
fn round_trip_recovers_the_parts() {
    let cases = [
        ("app-misc", "mock-pkg", "1.2.3", None),
        ("dev-libs", "openssl", "3.0.12-r1", Some("gentoo")),
        ("", "n", "1", None),
        ("sys-apps", "name/with/slash", "2@x", Some("over?lay=1")),
        ("x11-libs", "gtk+", "3.24.41", Some("my overlay")),
    ];
    for (category, name, version, repository) in cases {
        let url = package_url(category, name, version, repository);
        let parsed = parse_package_url(&url).unwrap();
        assert_eq!(parsed.category, category);
        assert_eq!(parsed.name, name);
        assert_eq!(parsed.version, version);
        assert_eq!(parsed.repository.as_deref(), repository);
    }
}

#[test]
fn round_trip_needs_segments_without_their_end_mark() {
    let parsed = parse_package_url(&package_url("a/b", "n", "1", None)).unwrap();
    assert_eq!(parsed.category, "a");
    assert_eq!(parsed.name, "b/n");

    let parsed = parse_package_url(&package_url("c", "n@m", "1", None)).unwrap();
    assert_eq!(parsed.name, "n");
    assert_eq!(parsed.version, "m@1");

    assert!(parse_package_url(&package_url("c", "n", "1?2", None)).is_none());
}
