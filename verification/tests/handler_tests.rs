use tag_support::handler::{
    synthetic_key, AtStep, DelegateOutcome, PropertyHandler, PropertyKey, ValueSource,
    KEYWORDS_PID, SUMMARY_INFORMATION_FMTID,
};
use tag_support::resolver::{DelegateMapping, ResolverConfig, ResolveStep};
use tag_support::HandlerError;

fn png_config() -> ResolverConfig {
    ResolverConfig::Mapped(vec![
        DelegateMapping {
            extension: String::from(".png"),
            delegate: 0xA38B883C_1682_497E_97B0_0A3A9E801682,
        },
        DelegateMapping {
            extension: String::from(".gif"),
            delegate: 0xA38B883C_1682_497E_97B0_0A3A9E801682,
        },
    ])
}

fn initialized_with(tags: Option<Vec<String>>) -> PropertyHandler {
    let mut h = PropertyHandler::new(png_config());
    let r = h.complete_initialize(DelegateOutcome::Opened, tags);
    assert_eq!(r, Ok(()));
    h
}

#[test]
fn sample_png_with_two_tags_counts_eleven() {
    let h = initialized_with(Some(vec![String::from("cat"), String::from("outdoors")]));
    assert_eq!(h.get_count(Ok(10)), Ok(11));

    // The dedicated synthetic slot follows the ten delegate slots.
    assert_eq!(h.get_at_step(10, 10), Ok(AtStep::GiveSynthetic));
    for i in 0..10u32 {
        assert_eq!(h.get_at_step(i, 10), Ok(AtStep::AskDelegate(i)));
    }

    // The synthetic key answers a multi-string value of exactly the two
    // tags, in extraction order.
    match h.get_value_source(&synthetic_key()) {
        Ok(ValueSource::Synthetic(items)) => {
            assert_eq!(items, vec![String::from("cat"), String::from("outdoors")]);
        }
        other => panic!("expected the synthetic value, got {:?}", other.is_ok()),
    }
}

#[test]
fn notag_png_is_transparent() {
    let h = initialized_with(None);
    assert_eq!(h.get_count(Ok(10)), Ok(10));

    // No index of the delegate's space maps anywhere but the delegate, and
    // even a gap reported by the delegate stays a gap.
    for i in 0..10u32 {
        assert_eq!(h.get_at_step(i, 10), Ok(AtStep::AskDelegate(i)));
    }
    let gap = PropertyKey { fmtid: 0x1234, pid: 0 };
    assert_eq!(h.merge_key_reply(Ok(gap)), Ok(gap));

    // The synthetic key is not served: the delegate answers it.
    match h.get_value_source(&synthetic_key()) {
        Ok(ValueSource::Delegate) => {}
        _ => panic!("expected delegation"),
    }
}

#[test]
fn unregistered_extension_fails_resolution_and_leaves_view_unusable() {
    let h = PropertyHandler::new(png_config());
    let r = h.resolve_step("archive.xyz");
    assert_eq!(r, Err(HandlerError::ResolutionFailure));

    // Initialization never completed, so no query succeeds.
    assert!(!h.is_initialized());
    assert_eq!(h.get_count(Ok(10)), Err(HandlerError::NotInitialized));
    assert_eq!(h.get_at_step(0, 10), Err(HandlerError::NotInitialized));
    assert_eq!(
        h.merge_key_reply(Ok(synthetic_key())),
        Err(HandlerError::NotInitialized)
    );
    match h.get_value_source(&synthetic_key()) {
        Err(HandlerError::NotInitialized) => {}
        _ => panic!("expected a not-initialized error"),
    }
}

#[test]
fn resolution_succeeds_for_registered_extension() {
    let h = PropertyHandler::new(png_config());
    match h.resolve_step("photos/sample.png") {
        Ok(ResolveStep::OpenDelegate(d)) => {
            assert_eq!(d, 0xA38B883C_1682_497E_97B0_0A3A9E801682);
        }
        _ => panic!("expected the mapped delegate"),
    }
}

#[test]
fn activation_failure_leaves_view_uninitialized() {
    let mut h = PropertyHandler::new(png_config());
    let r = h.complete_initialize(DelegateOutcome::Failed(-2147467262), None);
    assert_eq!(r, Err(HandlerError::ActivationFailure(-2147467262)));
    assert!(!h.is_initialized());
    assert_eq!(h.get_count(Ok(3)), Err(HandlerError::NotInitialized));
}

#[test]
fn second_initialization_is_refused() {
    let mut h = initialized_with(None);
    let r = h.complete_initialize(DelegateOutcome::Opened, None);
    assert_eq!(r, Err(HandlerError::AlreadyInitialized));
    assert!(h.is_initialized());
    assert_eq!(h.get_count(Ok(4)), Ok(4));
}

#[test]
fn empty_extraction_means_no_synthetic_property() {
    let h = initialized_with(Some(vec![]));
    assert_eq!(h.get_count(Ok(7)), Ok(7));
    // The space is the delegate's own: even an out-of-range index is the
    // delegate's to answer.
    assert_eq!(h.get_at_step(7, 7), Ok(AtStep::AskDelegate(7)));
}

#[test]
fn delegate_count_failure_is_fatal_for_get_count() {
    let h = initialized_with(Some(vec![String::from("cat")]));
    assert_eq!(h.get_count(Err(-2147024891)), Err(HandlerError::DelegateCall(-2147024891)));
}

#[test]
fn delegate_errors_pass_through_enumeration() {
    let h = initialized_with(None);
    assert_eq!(
        h.merge_key_reply(Err(-2147024809)),
        Err(HandlerError::DelegateCall(-2147024809))
    );
}

#[test]
fn gap_slot_is_covered_when_tags_present() {
    let h = initialized_with(Some(vec![String::from("cat")]));
    let gap = PropertyKey { fmtid: 0x9999, pid: 0 };
    assert_eq!(h.merge_key_reply(Ok(gap)), Ok(synthetic_key()));

    let ordinary = PropertyKey { fmtid: 0x9999, pid: 4 };
    assert_eq!(h.merge_key_reply(Ok(ordinary)), Ok(ordinary));
}

#[test]
fn writes_always_fail_unsupported() {
    let uninit = PropertyHandler::new(png_config());
    let with_tags = initialized_with(Some(vec![String::from("cat")]));
    let without_tags = initialized_with(None);
    let keys = [
        synthetic_key(),
        PropertyKey { fmtid: 0, pid: 0 },
        PropertyKey { fmtid: 0xABCD, pid: 17 },
    ];
    for h in [&uninit, &with_tags, &without_tags] {
        for k in &keys {
            assert_eq!(h.set_value(k), Err(HandlerError::UnsupportedOperation));
            assert_eq!(h.is_property_writable(k), Err(HandlerError::UnsupportedOperation));
        }
        assert_eq!(h.commit(), Err(HandlerError::UnsupportedOperation));
    }
}

#[test]
fn repeated_queries_return_identical_results() {
    let h = initialized_with(Some(vec![String::from("a"), String::from("b")]));
    assert_eq!(h.get_count(Ok(5)), h.get_count(Ok(5)));
    assert_eq!(h.get_at_step(5, 5), h.get_at_step(5, 5));
    assert_eq!(h.get_at_step(2, 5), h.get_at_step(2, 5));
    let k = PropertyKey { fmtid: 7, pid: 3 };
    assert_eq!(h.merge_key_reply(Ok(k)), h.merge_key_reply(Ok(k)));
    let first = match h.get_value_source(&synthetic_key()) {
        Ok(ValueSource::Synthetic(items)) => items,
        _ => panic!("expected the synthetic value"),
    };
    let second = match h.get_value_source(&synthetic_key()) {
        Ok(ValueSource::Synthetic(items)) => items,
        _ => panic!("expected the synthetic value"),
    };
    assert_eq!(first, second);
}

#[test]
fn count_is_exact_even_at_the_largest_delegate_count() {
    let with_tags = initialized_with(Some(vec![String::from("cat")]));
    assert_eq!(with_tags.get_count(Ok(u32::MAX)), Ok(u32::MAX as u64 + 1));
    let without_tags = initialized_with(None);
    assert_eq!(without_tags.get_count(Ok(u32::MAX)), Ok(u32::MAX as u64));
}

#[test]
fn index_beyond_the_synthetic_slot_is_the_delegates_error_to_report() {
    let h = initialized_with(Some(vec![String::from("cat")]));
    // One past the dedicated slot maps one past the delegate's own end, so
    // the delegate's out-of-range error comes back verbatim.
    assert_eq!(h.get_at_step(11, 10), Ok(AtStep::AskDelegate(10)));
    assert_eq!(
        h.merge_key_reply(Err(-2147024809)),
        Err(HandlerError::DelegateCall(-2147024809))
    );
}

#[test]
fn synthetic_key_identity() {
    let k = synthetic_key();
    assert_eq!(k.fmtid, SUMMARY_INFORMATION_FMTID);
    assert_eq!(k.pid, KEYWORDS_PID);
    assert_eq!(k.fmtid, 0xF29F85E0_4FF9_1068_AB91_08002B27B3D9);
    assert_eq!(k.pid, 5);
}
