use cyclonedx_gentoo::cyclonedx::{Bom, Component, License, LicenseChoice, GENERATOR_VERSION};
use cyclonedx_gentoo::emit::serialize;

#[test]
fn test_bom_new() {
    let bom = Bom::new();
    assert_eq!(bom.bom_format, "CycloneDX");
    assert_eq!(bom.spec_version, "1.7");
    assert!(bom.serial_number.starts_with("urn:uuid:"));
    assert_eq!(bom.version, 1);
    assert_eq!(bom.metadata.tools.len(), 1);
    assert_eq!(bom.metadata.tools[0].name, "cyclonedx-gentoo");
    assert!(bom.components.is_empty());
}

#[test]
fn test_serialization() {
    let mut bom = Bom::new();
    bom.components.push(Component {
        component_type: "library".to_string(),
        group: "dev-libs".to_string(),
        name: "openssl".to_string(),
        version: "3.0.12".to_string(),
        description: "Toolkit for SSL/TLS".to_string(),
        licenses: vec![LicenseChoice {
            license: License {
                name: "Apache-2.0".to_string(),
            },
        }],
        purl: "pkg:gentoo/dev-libs/openssl@3.0.12".to_string(),
        external_references: Vec::new(),
    });

    let json = serialize(&bom);
    assert!(json.contains("\"bomFormat\":\"CycloneDX\""));
    assert!(json.contains("\"specVersion\":\"1.7\""));
    assert!(json.contains("\"type\":\"library\""));
    assert!(json.contains("\"name\":\"openssl\""));
    assert!(json.contains("\"name\":\"Apache-2.0\""));
}

#[test]
fn new_bom_lists_the_generator_version() {
    let bom = Bom::new();
    assert_eq!(GENERATOR_VERSION, "0.8.15");
    assert_eq!(bom.metadata.tools[0].vendor, "cyclonedx-gentoo");
    assert_eq!(bom.metadata.tools[0].version, "0.8.15");
    assert!(bom.metadata.component.is_none());
}

#[test]
fn with_tool_version_lists_the_given_version() {
    let bom = Bom::with_tool_version("9.9.9".to_string());
    assert_eq!(bom.bom_format, "CycloneDX");
    assert_eq!(bom.spec_version, "1.7");
    assert_eq!(bom.version, 1);
    assert_eq!(bom.metadata.tools.len(), 1);
    assert_eq!(bom.metadata.tools[0].vendor, "cyclonedx-gentoo");
    assert_eq!(bom.metadata.tools[0].name, "cyclonedx-gentoo");
    assert_eq!(bom.metadata.tools[0].version, "9.9.9");
    assert!(bom.metadata.component.is_none());
    assert!(bom.components.is_empty());
}

#[test]
fn with_identity_is_fixed_by_its_arguments() {
    let id = "123e4567-e89b-42d3-a456-426614174000";
    let bom = Bom::with_identity(id, "2024-05-06T07:08:09+00:00".to_string(), "1.0.0".to_string());
    assert_eq!(bom.bom_format, "CycloneDX");
    assert_eq!(bom.spec_version, "1.7");
    assert_eq!(bom.serial_number, "urn:uuid:123e4567-e89b-42d3-a456-426614174000");
    assert_eq!(bom.version, 1);
    assert_eq!(bom.metadata.timestamp, "2024-05-06T07:08:09+00:00");
    assert_eq!(bom.metadata.tools.len(), 1);
    assert_eq!(bom.metadata.tools[0].vendor, "cyclonedx-gentoo");
    assert_eq!(bom.metadata.tools[0].name, "cyclonedx-gentoo");
    assert_eq!(bom.metadata.tools[0].version, "1.0.0");
    assert!(bom.metadata.component.is_none());
    assert!(bom.components.is_empty());
}

#[test]
fn serial_number_is_a_version_4_uuid() {
    let bom = Bom::new();
    let serial = bom.serial_number.as_str();
    assert_eq!(serial.len(), 45);
    let id: Vec<char> = serial["urn:uuid:".len()..].chars().collect();
    assert_eq!(id.len(), 36);
    for (i, c) in id.iter().enumerate() {
        if i == 8 || i == 13 || i == 18 || i == 23 {
            assert_eq!(*c, '-');
        } else {
            assert!(c.is_ascii_digit() || ('a'..='f').contains(c));
        }
    }
    assert_eq!(id[14], '4');
    assert!(matches!(id[19], '8' | '9' | 'a' | 'b'));
    let parsed = uuid::Uuid::parse_str(&serial["urn:uuid:".len()..]).unwrap();
    assert_eq!(parsed.get_version_num(), 4);
}

#[test]
fn timestamp_names_the_utc_offset() {
    let bom = Bom::new();
    let timestamp = bom.metadata.timestamp.as_str();
    assert!(timestamp.chars().count() >= 25);
    assert!(timestamp.ends_with("+00:00"));
    let parsed = chrono::DateTime::parse_from_rfc3339(timestamp).unwrap();
    assert_eq!(parsed.offset().local_minus_utc(), 0);
    assert!(parsed.timestamp() > 1_600_000_000);
}

#[test]
fn successive_documents_differ_in_identity_only() {
    let first = Bom::new();
    let second = Bom::new();
    assert_ne!(first.serial_number, second.serial_number);
    assert_eq!(first.bom_format, second.bom_format);
    assert_eq!(first.spec_version, second.spec_version);
    assert_eq!(first.version, second.version);
}
