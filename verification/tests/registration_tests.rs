use tag_support::activation::{
    class_object_decision, create_instance_decision, delegate_for_class, ActivationDecision,
    CapabilityRequest, ClassObjectDecision, DEFAULT_CLASS_ID, DEFAULT_DELEGATE_ID, JXL_CLASS_ID,
    JXL_DELEGATE_ID,
};
use tag_support::registration::{
    fresh_full_details, fresh_preview_details, patched_full_details, patched_preview_details,
    stock_full_details, stock_preview_details,
};

#[test]
fn existing_full_details_gains_the_keyword_group_after_the_prefix() {
    let patched = patched_full_details("prop:System.ItemNameDisplay;System.Size");
    assert_eq!(
        patched,
        "prop:System.PropGroup.Description;System.Keywords;System.ItemNameDisplay;System.Size"
    );
}

#[test]
fn existing_preview_details_gains_the_keyword_property_at_the_end() {
    let patched = patched_preview_details("prop:*System.Size;*System.DateModified");
    assert_eq!(patched, "prop:*System.Size;*System.DateModified;System.Keywords");
}

#[test]
fn fresh_templates_carry_the_keyword_property() {
    assert!(fresh_full_details().contains("System.Keywords"));
    assert!(fresh_preview_details().ends_with("System.Keywords"));
    // The stock templates restored at uninstall do not.
    assert!(!stock_full_details().contains("System.Keywords"));
    assert!(!stock_preview_details().contains("System.Keywords"));
}

#[test]
fn each_class_identity_carries_its_delegate() {
    assert_eq!(delegate_for_class(DEFAULT_CLASS_ID), Some(DEFAULT_DELEGATE_ID));
    assert_eq!(delegate_for_class(JXL_CLASS_ID), Some(JXL_DELEGATE_ID));
    // An identity this component never registered resolves to nothing.
    assert_eq!(delegate_for_class(0xDEAD_BEEF), None);
    assert_eq!(delegate_for_class(0), None);
}

#[test]
fn factory_decisions() {
    assert_eq!(
        create_instance_decision(true, CapabilityRequest::PropertyStore),
        ActivationDecision::NoAggregation
    );
    assert_eq!(
        create_instance_decision(false, CapabilityRequest::PropertyStore),
        ActivationDecision::Create
    );
    assert_eq!(
        create_instance_decision(false, CapabilityRequest::InitializeWithStream),
        ActivationDecision::Create
    );
    assert_eq!(
        create_instance_decision(false, CapabilityRequest::InitializeWithFile),
        ActivationDecision::Create
    );
    assert_eq!(
        create_instance_decision(false, CapabilityRequest::Other),
        ActivationDecision::NotSupported
    );
}

#[test]
fn class_object_requests() {
    assert_eq!(
        class_object_decision(true, DEFAULT_CLASS_ID),
        ClassObjectDecision::Factory(DEFAULT_DELEGATE_ID)
    );
    assert_eq!(
        class_object_decision(true, JXL_CLASS_ID),
        ClassObjectDecision::Factory(JXL_DELEGATE_ID)
    );
    // An unknown class identity gets the not-available refusal, never a
    // factory for some other class.
    assert_eq!(
        class_object_decision(true, 0xDEAD_BEEF),
        ClassObjectDecision::ClassNotAvailable
    );
    assert_eq!(
        class_object_decision(false, DEFAULT_CLASS_ID),
        ClassObjectDecision::UnexpectedRequest
    );
}
