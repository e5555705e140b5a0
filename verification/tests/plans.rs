use identifiers::plan::{
    find_mode_argument, parse_simple_mode, parse_string_mode, plan_simple_identifier,
    plan_string_identifier, require_newtype, require_private_field,
};
use identifiers::{
    AttributeArg, Conversion, DeriveError, ErrorType, FieldStyle, ItemKind, ItemShape, SimplePlan,
    StringMode, StringPlan,
};

fn newtype(public: bool) -> ItemShape {
    ItemShape {
        kind: ItemKind::Struct,
        fields: FieldStyle::Unnamed,
        field_count: 1,
        first_field_public: public,
    }
}

fn attr(path: &str, word: &str) -> AttributeArg {
    AttributeArg {
        path: path.to_string(),
        argument: Some(word.to_string()),
    }
}

#[test]
fn newtype_shapes_are_accepted_and_others_refused() {
    assert_eq!(require_newtype(&newtype(false)), Ok(()));
    let named = ItemShape {
        kind: ItemKind::Struct,
        fields: FieldStyle::Named,
        field_count: 1,
        first_field_public: false,
    };
    assert_eq!(require_newtype(&named), Err(DeriveError::NotANewtype));
    let pair = ItemShape {
        kind: ItemKind::Struct,
        fields: FieldStyle::Unnamed,
        field_count: 2,
        first_field_public: false,
    };
    assert_eq!(require_newtype(&pair), Err(DeriveError::NotANewtype));
    let unit = ItemShape {
        kind: ItemKind::Struct,
        fields: FieldStyle::Unit,
        field_count: 0,
        first_field_public: false,
    };
    assert_eq!(require_newtype(&unit), Err(DeriveError::NotANewtype));
    let an_enum = ItemShape {
        kind: ItemKind::Enum,
        fields: FieldStyle::Unit,
        field_count: 0,
        first_field_public: false,
    };
    assert_eq!(require_newtype(&an_enum), Err(DeriveError::NotAStruct));
    let a_union = ItemShape {
        kind: ItemKind::Union,
        fields: FieldStyle::Named,
        field_count: 2,
        first_field_public: false,
    };
    assert_eq!(require_newtype(&a_union), Err(DeriveError::NotAStruct));
}

#[test]
fn public_field_is_refused() {
    assert_eq!(require_private_field(&newtype(true)), Err(DeriveError::PublicField));
    assert_eq!(require_private_field(&newtype(false)), Ok(()));
}

#[test]
fn first_mode_attribute_wins() {
    let attrs = vec![
        attr("doc", "whatever"),
        attr("validate", "non_blank"),
        attr("allowed_values", "all"),
    ];
    assert_eq!(
        find_mode_argument(&attrs, true),
        Some((true, Some("non_blank".to_string())))
    );
    // Without `validate`, only `allowed_values` counts.
    assert_eq!(
        find_mode_argument(&attrs, false),
        Some((false, Some("all".to_string())))
    );
    assert_eq!(find_mode_argument(&vec![attr("doc", "x")], true), None);
    let malformed = vec![AttributeArg {
        path: "allowed_values".to_string(),
        argument: None,
    }];
    assert_eq!(find_mode_argument(&malformed, false), Some((false, None)));
}

#[test]
fn string_modes_parse() {
    let m = |w: &str| parse_string_mode(&Some((false, Some(w.to_string()))));
    assert_eq!(m("all"), Ok(StringMode::All));
    assert_eq!(m("non_empty"), Ok(StringMode::NonEmpty));
    assert_eq!(m("non_blank"), Ok(StringMode::NonBlank));
    assert_eq!(m("any"), Err(DeriveError::UnknownStringMode));
    assert_eq!(m("custom"), Err(DeriveError::UnknownStringMode));
    assert_eq!(m("typo"), Err(DeriveError::UnknownStringMode));
    let v = |w: &str| parse_string_mode(&Some((true, Some(w.to_string()))));
    assert_eq!(v("any"), Ok(StringMode::All));
    assert_eq!(v("non_empty"), Ok(StringMode::NonEmpty));
    assert_eq!(v("non_blank"), Ok(StringMode::NonBlank));
    assert_eq!(v("custom"), Ok(StringMode::Custom));
    assert_eq!(v("all"), Err(DeriveError::UnknownValidateMode));
    assert_eq!(parse_string_mode(&None), Ok(StringMode::Unspecified));
    assert_eq!(
        parse_string_mode(&Some((false, None))),
        Err(DeriveError::ExpectedIdentifier)
    );
}

#[test]
fn simple_modes_parse() {
    assert_eq!(parse_simple_mode(&Some((false, Some("all".to_string())))), Ok(true));
    assert_eq!(parse_simple_mode(&None), Ok(false));
    assert_eq!(
        parse_simple_mode(&Some((false, Some("typo".to_string())))),
        Err(DeriveError::UnknownMode)
    );
    assert_eq!(
        parse_simple_mode(&Some((false, Some("non_empty".to_string())))),
        Err(DeriveError::UnknownMode)
    );
}

#[test]
fn string_plan_for_each_mode() {
    let plan = |w: &str| plan_string_identifier(&newtype(false), &vec![attr("allowed_values", w)]);
    assert_eq!(
        plan("all"),
        Ok(StringPlan {
            mode: StringMode::All,
            error: ErrorType::Infallible,
            conversion: Conversion::From,
            implements_identifier: true,
        })
    );
    assert_eq!(
        plan("non_empty"),
        Ok(StringPlan {
            mode: StringMode::NonEmpty,
            error: ErrorType::Empty,
            conversion: Conversion::TryFrom,
            implements_identifier: true,
        })
    );
    assert_eq!(
        plan("non_blank"),
        Ok(StringPlan {
            mode: StringMode::NonBlank,
            error: ErrorType::Blank,
            conversion: Conversion::TryFrom,
            implements_identifier: true,
        })
    );
    assert_eq!(
        plan_string_identifier(&newtype(false), &vec![attr("validate", "any")]),
        Ok(StringPlan {
            mode: StringMode::All,
            error: ErrorType::Infallible,
            conversion: Conversion::From,
            implements_identifier: true,
        })
    );
    assert_eq!(plan("any"), Err(DeriveError::UnknownStringMode));
    assert_eq!(plan("custom"), Err(DeriveError::UnknownStringMode));
    assert_eq!(
        plan_string_identifier(&newtype(false), &vec![attr("validate", "custom")]),
        Ok(StringPlan {
            mode: StringMode::Custom,
            error: ErrorType::UserDefined,
            conversion: Conversion::TryFrom,
            implements_identifier: false,
        })
    );
    assert_eq!(
        plan_string_identifier(&newtype(false), &vec![]),
        Ok(StringPlan {
            mode: StringMode::Unspecified,
            error: ErrorType::Infallible,
            conversion: Conversion::Absent,
            implements_identifier: true,
        })
    );
}

#[test]
fn string_plan_refusals_in_order() {
    // The shape is checked before the mode.
    let an_enum = ItemShape {
        kind: ItemKind::Enum,
        fields: FieldStyle::Unit,
        field_count: 0,
        first_field_public: false,
    };
    assert_eq!(
        plan_string_identifier(&an_enum, &vec![attr("allowed_values", "typo")]),
        Err(DeriveError::NotAStruct)
    );
    // The mode is checked before the field's privacy.
    assert_eq!(
        plan_string_identifier(&newtype(true), &vec![attr("allowed_values", "typo")]),
        Err(DeriveError::UnknownStringMode)
    );
    // A public field is refused only where the mode restricts the strings.
    assert_eq!(
        plan_string_identifier(&newtype(true), &vec![attr("allowed_values", "non_empty")]),
        Err(DeriveError::PublicField)
    );
    assert_eq!(
        plan_string_identifier(&newtype(true), &vec![attr("validate", "non_blank")]),
        Err(DeriveError::PublicField)
    );
    assert!(plan_string_identifier(&newtype(true), &vec![attr("allowed_values", "all")]).is_ok());
}

#[test]
fn simple_plans() {
    assert_eq!(
        plan_simple_identifier(&newtype(false), &vec![attr("allowed_values", "all")]),
        Ok(SimplePlan {
            conversion: Conversion::From
        })
    );
    assert_eq!(
        plan_simple_identifier(&newtype(true), &vec![]),
        Ok(SimplePlan {
            conversion: Conversion::TryFrom
        })
    );
    assert_eq!(
        plan_simple_identifier(&newtype(false), &vec![attr("allowed_values", "typo")]),
        Err(DeriveError::UnknownMode)
    );
    // The integer, UUID and URI derives read only `allowed_values`.
    assert_eq!(
        plan_simple_identifier(&newtype(false), &vec![attr("validate", "all")]),
        Ok(SimplePlan {
            conversion: Conversion::TryFrom
        })
    );
    let named = ItemShape {
        kind: ItemKind::Struct,
        fields: FieldStyle::Named,
        field_count: 1,
        first_field_public: false,
    };
    assert_eq!(
        plan_simple_identifier(&named, &vec![attr("allowed_values", "all")]),
        Err(DeriveError::NotANewtype)
    );
}

#[test]
fn derive_error_messages() {
    assert_eq!(DeriveError::NotAStruct.message(), "expected a struct");
    assert_eq!(
        DeriveError::NotANewtype.message(),
        "expected a newtype struct with exactly one unnamed field"
    );
    assert_eq!(
        DeriveError::PublicField.message(),
        "field must be private to preserve the non-empty/non-blank invariant; remove `pub` from the field"
    );
    assert_eq!(DeriveError::ExpectedIdentifier.message(), "expected identifier");
    assert_eq!(
        DeriveError::UnknownStringMode.message(),
        "expected `all`, `non_empty`, or `non_blank`"
    );
    assert_eq!(
        DeriveError::UnknownValidateMode.message(),
        "expected `non_empty`, `non_blank`, `any`, or `custom`"
    );
    assert_eq!(DeriveError::UnknownMode.message(), "expected `all`");
}
