use logical_properties::{
    combine_value_elements, find_paired_property, get_logical_equivalent, get_pair_info,
    order_shorthand_values, ActionPlan, UseLogicalPropertiesState,
};

const TABLE: [(&str, &str); 38] = [
    ("margin-left", "margin-inline-start"),
    ("margin-right", "margin-inline-end"),
    ("margin-top", "margin-block-start"),
    ("margin-bottom", "margin-block-end"),
    ("padding-left", "padding-inline-start"),
    ("padding-right", "padding-inline-end"),
    ("padding-top", "padding-block-start"),
    ("padding-bottom", "padding-block-end"),
    ("left", "inset-inline-start"),
    ("right", "inset-inline-end"),
    ("top", "inset-block-start"),
    ("bottom", "inset-block-end"),
    ("width", "inline-size"),
    ("min-width", "min-inline-size"),
    ("max-width", "max-inline-size"),
    ("height", "block-size"),
    ("min-height", "min-block-size"),
    ("max-height", "max-block-size"),
    ("border-left", "border-inline-start"),
    ("border-right", "border-inline-end"),
    ("border-top", "border-block-start"),
    ("border-bottom", "border-block-end"),
    ("border-left-width", "border-inline-start-width"),
    ("border-right-width", "border-inline-end-width"),
    ("border-top-width", "border-block-start-width"),
    ("border-bottom-width", "border-block-end-width"),
    ("border-left-style", "border-inline-start-style"),
    ("border-right-style", "border-inline-end-style"),
    ("border-top-style", "border-block-start-style"),
    ("border-bottom-style", "border-block-end-style"),
    ("border-left-color", "border-inline-start-color"),
    ("border-right-color", "border-inline-end-color"),
    ("border-top-color", "border-block-start-color"),
    ("border-bottom-color", "border-block-end-color"),
    ("border-top-left-radius", "border-start-start-radius"),
    ("border-top-right-radius", "border-start-end-radius"),
    ("border-bottom-left-radius", "border-end-start-radius"),
    ("border-bottom-right-radius", "border-end-end-radius"),
];

const PAIRS: [(&str, &str, &str, bool); 12] = [
    ("margin-left", "margin-right", "margin-inline", true),
    ("margin-right", "margin-left", "margin-inline", true),
    ("margin-top", "margin-bottom", "margin-block", false),
    ("margin-bottom", "margin-top", "margin-block", false),
    ("padding-left", "padding-right", "padding-inline", true),
    ("padding-right", "padding-left", "padding-inline", true),
    ("padding-top", "padding-bottom", "padding-block", false),
    ("padding-bottom", "padding-top", "padding-block", false),
    ("left", "right", "inset-inline", true),
    ("right", "left", "inset-inline", true),
    ("top", "bottom", "inset-block", false),
    ("bottom", "top", "inset-block", false),
];

fn names(items: &[Option<&str>]) -> Vec<Option<String>> {
    items.iter().map(|item| item.map(|name| name.to_string())).collect()
}

#[test]
fn documented_invalid_examples_are_reported() {
    let cases = [
        ("margin-left", "margin-inline-start"),
        ("padding-right", "padding-inline-end"),
        ("top", "inset-block-start"),
        ("width", "inline-size"),
        ("border-left", "border-inline-start"),
        ("border-top-left-radius", "border-start-start-radius"),
    ];
    for (physical, logical) in cases {
        let state = UseLogicalPropertiesState::from_property_name(physical).unwrap();
        assert_eq!(state.property_name(), physical);
        assert_eq!(state.logical_equivalent(), logical);
    }
}

#[test]
fn documented_valid_examples_are_accepted() {
    for logical in [
        "margin-inline-start",
        "padding-inline-end",
        "inset-block-start",
        "inline-size",
        "border-inline-start",
        "border-start-start-radius",
        "margin-inline",
    ] {
        assert!(UseLogicalPropertiesState::from_property_name(logical).is_none());
    }
}

#[test]
fn unrelated_properties_are_accepted() {
    for name in ["color", "display", "", "margin", "border", "inline-start", "margin-left-x"] {
        assert!(UseLogicalPropertiesState::from_property_name(name).is_none());
        assert_eq!(get_logical_equivalent(name), None);
        assert!(get_pair_info(name).is_none());
    }
}

#[test]
fn logical_equivalent_table() {
    for (physical, logical) in TABLE {
        assert_eq!(get_logical_equivalent(physical), Some(logical));
    }
}

#[test]
fn lookup_is_case_sensitive_and_analysis_is_not() {
    assert_eq!(get_logical_equivalent("Margin-Left"), None);
    let state = UseLogicalPropertiesState::from_property_name("Margin-LEFT").unwrap();
    assert_eq!(state.property_name(), "margin-left");
    assert_eq!(state.logical_equivalent(), "margin-inline-start");
    let state = UseLogicalPropertiesState::from_property_name("WIDTH").unwrap();
    assert_eq!(state.property_name(), "width");
    assert_eq!(state.logical_equivalent(), "inline-size");
    assert!(state.paired_property().is_none());
}

#[test]
fn non_ascii_letters_are_not_folded() {
    // U+0130 (capital I with dot) is not an ASCII letter, so it stays as it is.
    assert!(UseLogicalPropertiesState::from_property_name("\u{130}nline-size").is_none());
    assert!(UseLogicalPropertiesState::from_property_name("wİdth").is_none());
}

#[test]
fn pair_table() {
    for (property, pair, shorthand, inline) in PAIRS {
        let info = get_pair_info(property).unwrap();
        assert_eq!(info.pair_name(), pair);
        assert_eq!(info.shorthand_name(), shorthand);
        assert_eq!(info.is_inline(), inline);
    }
    for (physical, _) in TABLE {
        if !PAIRS.iter().any(|(property, ..)| *property == physical) {
            assert!(get_pair_info(physical).is_none());
        }
    }
}

#[test]
fn pairs_are_symmetric() {
    for (property, ..) in PAIRS {
        let info = get_pair_info(property).unwrap();
        assert_ne!(info.pair_name(), property);
        let back = get_pair_info(info.pair_name()).unwrap();
        assert_eq!(back.pair_name(), property);
        assert_eq!(back.shorthand_name(), info.shorthand_name());
        assert_eq!(back.is_inline(), info.is_inline());
        assert!(get_logical_equivalent(property).is_some());
    }
}

#[test]
fn fixes_are_accepted() {
    for (physical, logical) in TABLE {
        assert_eq!(get_logical_equivalent(logical), None, "{physical}");
        assert!(get_pair_info(logical).is_none());
    }
    for (_, _, shorthand, _) in PAIRS {
        assert_eq!(get_logical_equivalent(shorthand), None);
    }
}

#[test]
fn equivalents_are_distinct() {
    for (i, (_, a)) in TABLE.iter().enumerate() {
        for (j, (_, b)) in TABLE.iter().enumerate() {
            assert_eq!(i == j, a == b);
        }
    }
}

#[test]
fn state_records_pairing() {
    let state = UseLogicalPropertiesState::from_property_name("padding-top").unwrap();
    let info = state.paired_property().unwrap();
    assert_eq!(info.pair_name(), "padding-bottom");
    assert_eq!(info.shorthand_name(), "padding-block");
    assert!(!info.is_inline());
}

#[test]
fn find_paired_property_takes_first_match_case_insensitively() {
    let items = names(&[Some("color"), None, Some("Margin-Right"), Some("margin-right")]);
    assert_eq!(find_paired_property(&items, "margin-right"), Some(2));
    assert_eq!(find_paired_property(&items, "margin-left"), None);
    assert_eq!(find_paired_property(&names(&[]), "margin-left"), None);
    let items = names(&[None, Some("TOP")]);
    assert_eq!(find_paired_property(&items, "top"), Some(1));
}

#[test]
fn plan_combines_when_partner_is_declared() {
    let state = UseLogicalPropertiesState::from_property_name("margin-left").unwrap();
    let items = names(&[Some("margin-left"), Some("color"), Some("margin-right")]);
    match state.plan_action(&items) {
        ActionPlan::CombineIntoShorthand { paired_index, shorthand_name, is_inline } => {
            assert_eq!(paired_index, 2);
            assert_eq!(shorthand_name, "margin-inline");
            assert!(is_inline);
        }
        other => panic!("unexpected plan {other:?}"),
    }
}

#[test]
fn plan_renames_without_partner() {
    let state = UseLogicalPropertiesState::from_property_name("margin-left").unwrap();
    let items = names(&[Some("margin-left"), Some("margin-top")]);
    match state.plan_action(&items) {
        ActionPlan::ReplaceName { new_name } => assert_eq!(new_name, "margin-inline-start"),
        other => panic!("unexpected plan {other:?}"),
    }
    let state = UseLogicalPropertiesState::from_property_name("width").unwrap();
    let items = names(&[Some("width"), Some("height")]);
    match state.plan_action(&items) {
        ActionPlan::ReplaceName { new_name } => assert_eq!(new_name, "inline-size"),
        other => panic!("unexpected plan {other:?}"),
    }
}

#[test]
fn plan_never_merges_with_itself() {
    let state = UseLogicalPropertiesState::from_property_name("Left").unwrap();
    let items = names(&[Some("LEFT"), Some("left")]);
    assert!(matches!(state.plan_action(&items), ActionPlan::ReplaceName { .. }));
}

#[test]
fn shorthand_order_inline_puts_right_first() {
    assert_eq!(order_shorthand_values("L", "R", "margin-left", true), ("R", "L"));
    assert_eq!(order_shorthand_values("R", "L", "margin-right", true), ("R", "L"));
    assert_eq!(order_shorthand_values("L", "R", "left", true), ("R", "L"));
    assert_eq!(order_shorthand_values("R", "L", "padding-right", true), ("R", "L"));
}

#[test]
fn shorthand_order_block_puts_top_first() {
    assert_eq!(order_shorthand_values("T", "B", "margin-top", false), ("T", "B"));
    assert_eq!(order_shorthand_values("B", "T", "margin-bottom", false), ("T", "B"));
    assert_eq!(order_shorthand_values("T", "B", "top", false), ("T", "B"));
    assert_eq!(order_shorthand_values("B", "T", "padding-bottom", false), ("T", "B"));
}

#[test]
fn shorthand_order_agrees_for_both_members() {
    for (property, pair, _, inline) in PAIRS {
        assert_eq!(
            order_shorthand_values(1, 2, property, inline),
            {
                let (a, b) = order_shorthand_values(2, 1, pair, inline);
                (a, b)
            }
        );
    }
}

#[test]
fn combined_value_list() {
    let combined = combine_value_elements(vec!["10px", "auto"], " ", vec!["20px"]);
    assert_eq!(combined, vec!["10px", "auto", " ", "20px"]);
    let combined: Vec<&str> = combine_value_elements(vec![], " ", vec![]);
    assert_eq!(combined, vec![" "]);
}
