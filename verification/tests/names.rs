use emacs_mac_input_source::lisp_utils::{property_name_to_lisp, vec_into_lisp};
use emacs_mac_input_source::tis::{PropertyKey, ValueKind, PROPERTY_COUNT};

#[test]
fn is_prefix_becomes_predicate_suffix() {
    assert_eq!(property_name_to_lisp("is_selected"), ":selected-p");
    assert_eq!(property_name_to_lisp("is_ascii_capable"), ":ascii-capable-p");
}

#[test]
fn trailing_underscore_is_stripped_before_conversion() {
    assert_eq!(property_name_to_lisp("type_"), ":type");
    assert_eq!(property_name_to_lisp("type"), ":type");
    assert_eq!(property_name_to_lisp("type___"), ":type");
    assert_eq!(property_name_to_lisp("a_b_"), ":a-b");
}

#[test]
fn underscores_become_hyphens() {
    assert_eq!(property_name_to_lisp("bundle_id"), ":bundle-id");
    assert_eq!(property_name_to_lisp("input_mode_id"), ":input-mode-id");
    assert_eq!(property_name_to_lisp("_x"), ":-x");
    assert_eq!(property_name_to_lisp("a__b"), ":a--b");
}

#[test]
fn names_at_the_edges() {
    assert_eq!(property_name_to_lisp(""), ":");
    assert_eq!(property_name_to_lisp("_"), ":");
    assert_eq!(property_name_to_lisp("___"), ":");
    assert_eq!(property_name_to_lisp("is"), ":is");
    assert_eq!(property_name_to_lisp("is_"), ":is");
    assert_eq!(property_name_to_lisp("is_x"), ":x-p");
    assert_eq!(property_name_to_lisp("is__x"), ":-x-p");
    assert_eq!(property_name_to_lisp("is-"), ":-p");
    assert_eq!(property_name_to_lisp("is-x"), ":x-p");
    assert_eq!(property_name_to_lisp("island"), ":island");
    assert_eq!(property_name_to_lisp("this_is_it"), ":this-is-it");
    assert_eq!(property_name_to_lisp("id"), ":id");
}

#[test]
fn names_outside_ascii_keep_their_characters() {
    assert_eq!(property_name_to_lisp("is_\u{e9}t\u{e9}_"), ":\u{e9}t\u{e9}-p");
    assert_eq!(property_name_to_lisp("\u{540d}_\u{524d}"), ":\u{540d}-\u{524d}");
}

#[test]
fn external_names_of_all_fields() {
    let expected = [
        ":category",
        ":type",
        ":ascii-capable-p",
        ":enable-capable-p",
        ":select-capable-p",
        ":enabled-p",
        ":selected-p",
        ":id",
        ":bundle-id",
        ":input-mode-id",
        ":localized-name",
        ":languages",
    ];
    for (i, want) in expected.iter().enumerate() {
        let key = PropertyKey::at(i).unwrap();
        assert_eq!(property_name_to_lisp(key.field_name()), *want);
    }
}

#[test]
fn external_names_hold_no_underscore() {
    for name in ["is_selected", "type_", "a_b_c", "__", "is__", "x_"] {
        assert!(!property_name_to_lisp(name).contains('_'));
        assert!(property_name_to_lisp(name).starts_with(':'));
    }
}

#[test]
fn list_elements_keep_their_order() {
    assert_eq!(vec_into_lisp(Some(vec![1, 2, 3])), vec![1, 2, 3]);
    assert_eq!(
        vec_into_lisp(Some(vec!["en".to_string(), "fr".to_string()])),
        vec!["en".to_string(), "fr".to_string()]
    );
    assert_eq!(vec_into_lisp(Some(vec![7u8])), vec![7u8]);
}

#[test]
fn missing_and_empty_lists_give_nothing() {
    assert_eq!(vec_into_lisp::<String>(None), Vec::<String>::new());
    assert_eq!(vec_into_lisp::<String>(Some(Vec::new())), Vec::<String>::new());
}

#[test]
fn schema_has_twelve_entries_in_order() {
    assert_eq!(PROPERTY_COUNT, 12);
    let expected = [
        (PropertyKey::Category, ValueKind::Text, "category", "kTISPropertyInputSourceCategory"),
        (PropertyKey::Type, ValueKind::Text, "type_", "kTISPropertyInputSourceType"),
        (
            PropertyKey::IsAsciiCapable,
            ValueKind::Flag,
            "is_ascii_capable",
            "kTISPropertyInputSourceIsASCIICapable",
        ),
        (
            PropertyKey::IsEnableCapable,
            ValueKind::Flag,
            "is_enable_capable",
            "kTISPropertyInputSourceIsEnableCapable",
        ),
        (
            PropertyKey::IsSelectCapable,
            ValueKind::Flag,
            "is_select_capable",
            "kTISPropertyInputSourceIsSelectCapable",
        ),
        (PropertyKey::IsEnabled, ValueKind::Flag, "is_enabled", "kTISPropertyInputSourceIsEnabled"),
        (
            PropertyKey::IsSelected,
            ValueKind::Flag,
            "is_selected",
            "kTISPropertyInputSourceIsSelected",
        ),
        (PropertyKey::Id, ValueKind::Text, "id", "kTISPropertyInputSourceID"),
        (PropertyKey::BundleId, ValueKind::Text, "bundle_id", "kTISPropertyBundleID"),
        (PropertyKey::InputModeId, ValueKind::Text, "input_mode_id", "kTISPropertyInputModeID"),
        (
            PropertyKey::LocalizedName,
            ValueKind::Text,
            "localized_name",
            "kTISPropertyLocalizedName",
        ),
        (
            PropertyKey::Languages,
            ValueKind::TextList,
            "languages",
            "kTISPropertyInputSourceLanguages",
        ),
    ];
    for (i, (key, kind, field, native)) in expected.iter().enumerate() {
        assert_eq!(PropertyKey::at(i), Some(*key));
        assert_eq!(key.index(), i);
        assert_eq!(key.kind(), *kind);
        assert_eq!(key.field_name(), *field);
        assert_eq!(key.native_name(), *native);
    }
}

#[test]
fn schema_ends_after_its_last_entry() {
    assert_eq!(PropertyKey::at(11), Some(PropertyKey::Languages));
    assert_eq!(PropertyKey::at(12), None);
    assert_eq!(PropertyKey::at(usize::MAX), None);
}
