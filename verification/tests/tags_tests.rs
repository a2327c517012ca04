use tag_support::tags::{encode_utf16_z, normalize_extraction};

#[test]
fn extraction_failure_and_empty_results_collapse_to_absent() {
    assert!(normalize_extraction(None).is_none());
    assert!(normalize_extraction(Some(vec![])).is_none());
}

#[test]
fn a_tag_with_an_interior_null_is_unrepresentable() {
    let outcome = normalize_extraction(Some(vec![String::from("ok"), String::from("bad\0tag")]));
    assert!(outcome.is_none());
}

#[test]
fn tags_are_kept_as_extracted_in_order_with_duplicates() {
    let t = normalize_extraction(Some(vec![
        String::from("  cat "),
        String::from("CAT"),
        String::from("  cat "),
    ]))
    .expect("a usable tag set");
    assert_eq!(t.len(), 3);
    assert_eq!(
        t.items(),
        &vec![String::from("  cat "), String::from("CAT"), String::from("  cat ")]
    );
}

#[test]
fn encoding_is_null_terminated_native_text() {
    assert_eq!(encode_utf16_z("A"), vec![0x41, 0]);
    assert_eq!(encode_utf16_z(""), vec![0]);
    assert_eq!(
        encode_utf16_z("cat"),
        vec![0x63, 0x61, 0x74, 0]
    );
    // A character beyond the basic plane becomes a surrogate pair.
    assert_eq!(encode_utf16_z("\u{1D11E}"), vec![0xD834, 0xDD1E, 0]);
    assert_eq!(
        encode_utf16_z("naïve"),
        vec![0x6E, 0x61, 0xEF, 0x76, 0x65, 0]
    );
}

#[test]
fn encoded_tag_set_matches_each_tag() {
    let t = normalize_extraction(Some(vec![String::from("cat"), String::from("outdoors")]))
        .expect("a usable tag set");
    let bufs = t.encoded();
    assert_eq!(bufs.len(), 2);
    assert_eq!(bufs[0], encode_utf16_z("cat"));
    assert_eq!(bufs[1], encode_utf16_z("outdoors"));
    for buf in &bufs {
        assert_eq!(buf.last(), Some(&0));
        assert!(buf[..buf.len() - 1].iter().all(|&u| u != 0));
    }
}
