use tag_support::guid::{guid_to_string, parse_guid};

#[test]
fn formats_known_identities() {
    assert_eq!(
        guid_to_string(0xA38B883C_1682_497E_97B0_0A3A9E801682),
        "{A38B883C-1682-497E-97B0-0A3A9E801682}"
    );
    assert_eq!(
        guid_to_string(0x33C20ECF_3E11_42C6_9285_AF2DC3CB40D8),
        "{33C20ECF-3E11-42C6-9285-AF2DC3CB40D8}"
    );
    assert_eq!(
        guid_to_string(0),
        "{00000000-0000-0000-0000-000000000000}"
    );
    assert_eq!(
        guid_to_string(u128::MAX),
        "{FFFFFFFF-FFFF-FFFF-FFFF-FFFFFFFFFFFF}"
    );
}

#[test]
fn parses_what_it_formats() {
    for g in [
        0u128,
        1,
        u128::MAX,
        0xA38B883C_1682_497E_97B0_0A3A9E801682,
        0x95FFE0F8_AB15_4751_A2F3_CFAFDBF13664,
        0xEE305C51_C1DD_4121_466A_117D67574BBA,
    ] {
        assert_eq!(parse_guid(&guid_to_string(g)), Some(g));
    }
}

#[test]
fn parses_either_letter_case() {
    assert_eq!(
        parse_guid("{a38b883c-1682-497e-97b0-0a3a9e801682}"),
        Some(0xA38B883C_1682_497E_97B0_0A3A9E801682)
    );
    assert_eq!(
        parse_guid("{A38b883C-1682-497E-97b0-0A3a9E801682}"),
        Some(0xA38B883C_1682_497E_97B0_0A3A9E801682)
    );
}

#[test]
fn rejects_malformed_identity_text() {
    // wrong length
    assert_eq!(parse_guid(""), None);
    assert_eq!(parse_guid("{A38B883C-1682-497E-97B0-0A3A9E80168}"), None);
    assert_eq!(parse_guid("{A38B883C-1682-497E-97B0-0A3A9E8016822}"), None);
    // missing braces
    assert_eq!(parse_guid("A38B883C-1682-497E-97B0-0A3A9E801682  "), None);
    assert_eq!(parse_guid("(A38B883C-1682-497E-97B0-0A3A9E801682)"), None);
    // hyphen out of place
    assert_eq!(parse_guid("{A38B883C1682--497E-97B0-0A3A9E801682}"), None);
    // a character that is no hexadecimal digit
    assert_eq!(parse_guid("{G38B883C-1682-497E-97B0-0A3A9E801682}"), None);
    assert_eq!(parse_guid("{A38B883C-1682-497E-97B0-0A3A9E80168 }"), None);
}
