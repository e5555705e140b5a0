use vstd::prelude::*;

verus! {

/// What kind of item a derive is applied to.
#[derive(Debug, Clone, Copy, PartialEq, Eq, Structural)]
pub enum ItemKind {
    Struct,
    Enum,
    Union,
}

/// How the fields of a struct are written.
#[derive(Debug, Clone, Copy, PartialEq, Eq, Structural)]
pub enum FieldStyle {
    /// `struct S { a: A }`
    Named,
    /// `struct S(A);`
    Unnamed,
    /// `struct S;`
    Unit,
}

/// The shape of the item that an identifier derive is applied to: all that the
/// derive reads of it.
#[derive(Debug, Clone, Copy, PartialEq, Eq, Structural)]
pub struct ItemShape {
    pub kind: ItemKind,
    pub fields: FieldStyle,
    /// How many fields the struct has (zero for enums and unions).
    pub field_count: usize,
    /// Whether the struct's first field is declared `pub`.
    pub first_field_public: bool,
}

/// An attribute on the item, `#[path(argument)]`. `argument` holds the
/// argument when it is a single identifier, and is `None` otherwise.
#[derive(Debug, Clone, PartialEq, Eq)]
pub struct AttributeArg {
    pub path: String,
    pub argument: Option<String>,
}

/// Why a derive refuses an item.
#[derive(Debug, Clone, Copy, PartialEq, Eq, Structural)]
pub enum DeriveError {
    /// The item is an enum or a union.
    NotAStruct,
    /// The item is a struct, but not one with exactly one unnamed field.
    NotANewtype,
    /// The wrapped field is `pub`, so a value could skip validation.
    PublicField,
    /// The argument of the mode attribute is not a single identifier.
    ExpectedIdentifier,
    /// The string derive's `allowed_values` attribute names no known mode.
    UnknownStringMode,
    /// The string derive's `validate` attribute names no known mode.
    UnknownValidateMode,
    /// The mode attribute of the integer, UUID or URI derive is not `all`.
    UnknownMode,
}

/// Which strings a string identifier accepts, as its mode attribute says.
#[derive(Debug, Clone, Copy, PartialEq, Eq, Structural)]
pub enum StringMode {
    /// No mode attribute: every string, and no conversion is generated.
    Unspecified,
    /// `allowed_values(all)` or `validate(any)`: every string.
    All,
    /// `non_empty`: every string but the empty one.
    NonEmpty,
    /// `non_blank`: every string that is not empty or only whitespace.
    NonBlank,
    /// `validate(custom)`: whatever the type's own `validate` accepts.
    Custom,
}

/// The error type that a generated identifier's validation has.
#[derive(Debug, Clone, Copy, PartialEq, Eq, Structural)]
pub enum ErrorType {
    /// Validation never fails.
    Infallible,
    /// `EmptyError`.
    Empty,
    /// `BlankError`.
    Blank,
    /// The error type of the user's own `validate`.
    UserDefined,
}

/// The conversion from the wrapped value that a derive generates.
#[derive(Debug, Clone, Copy, PartialEq, Eq, Structural)]
pub enum Conversion {
    /// None at all.
    Absent,
    /// `From`, which wraps every value.
    From,
    /// `TryFrom`, which wraps a value once `validate` accepts it.
    TryFrom,
}

/// What the string identifier derive generates for an item.
#[derive(Debug, Clone, Copy, PartialEq, Eq, Structural)]
pub struct StringPlan {
    pub mode: StringMode,
    pub error: ErrorType,
    pub conversion: Conversion,
    /// Whether the derive implements `StringIdentifier` (with `as_str` and
    /// `validate`); in `custom` mode the user does.
    pub implements_identifier: bool,
}

/// What the integer, UUID or URI identifier derive generates for an item:
/// the identifier trait, with infallible validation, and one conversion.
#[derive(Debug, Clone, Copy, PartialEq, Eq, Structural)]
pub struct SimplePlan {
    /// `From` under `all`, `TryFrom` (through `validate`) without attribute.
    pub conversion: Conversion,
}

impl DeriveError {
    /// The text that the derive reports for this error.
    pub fn message(&self) -> (r: &'static str)
        ensures
            r@ == derive_error_message(*self),
    {
        match self {
            DeriveError::NotAStruct => "expected a struct",
            DeriveError::NotANewtype => "expected a newtype struct with exactly one unnamed field",
            DeriveError::PublicField =>
                "field must be private to preserve the non-empty/non-blank invariant; remove `pub` from the field",
            DeriveError::ExpectedIdentifier => "expected identifier",
            DeriveError::UnknownStringMode => "expected `all`, `non_empty`, or `non_blank`",
            DeriveError::UnknownValidateMode =>
                "expected `non_empty`, `non_blank`, `any`, or `custom`",
            DeriveError::UnknownMode => "expected `all`",
        }
    }
}

/// The text reported for each error.
pub open spec fn derive_error_message(e: DeriveError) -> Seq<char> {
    match e {
        DeriveError::NotAStruct => "expected a struct"@,
        DeriveError::NotANewtype => "expected a newtype struct with exactly one unnamed field"@,
        DeriveError::PublicField =>
            "field must be private to preserve the non-empty/non-blank invariant; remove `pub` from the field"@,
        DeriveError::ExpectedIdentifier => "expected identifier"@,
        DeriveError::UnknownStringMode => "expected `all`, `non_empty`, or `non_blank`"@,
        DeriveError::UnknownValidateMode =>
            "expected `non_empty`, `non_blank`, `any`, or `custom`"@,
        DeriveError::UnknownMode => "expected `all`"@,
    }
}

/// An identifier derive applies only to a struct with exactly one unnamed
/// field.
pub open spec fn newtype_check(shape: ItemShape) -> Result<(), DeriveError> {
    if shape.kind != ItemKind::Struct {
        Err(DeriveError::NotAStruct)
    } else if shape.fields == FieldStyle::Unnamed && shape.field_count == 1 {
        Ok(())
    } else {
        Err(DeriveError::NotANewtype)
    }
}

/// A struct whose first unnamed field is `pub` is refused.
pub open spec fn private_field_check(shape: ItemShape) -> Result<(), DeriveError> {
    if shape.kind == ItemKind::Struct && shape.fields == FieldStyle::Unnamed && shape.field_count
        >= 1 && shape.first_field_public {
        Err(DeriveError::PublicField)
    } else {
        Ok(())
    }
}

/// Refuses any item but a struct with exactly one unnamed field.
pub fn require_newtype(shape: &ItemShape) -> (r: Result<(), DeriveError>)
    ensures
        r == newtype_check(*shape),
{
    match shape.kind {
        ItemKind::Struct => {
            match shape.fields {
                FieldStyle::Unnamed => {
                    if shape.field_count == 1 {
                        Ok(())
                    } else {
                        Err(DeriveError::NotANewtype)
                    }
                },
                _ => Err(DeriveError::NotANewtype),
            }
        },
        _ => Err(DeriveError::NotAStruct),
    }
}

/// Refuses a struct whose wrapped field is `pub`: a public field would let a
/// caller build the type around a value that validation never saw.
pub fn require_private_field(shape: &ItemShape) -> (r: Result<(), DeriveError>)
    ensures
        r == private_field_check(*shape),
{
    match shape.kind {
        ItemKind::Struct => {
            match shape.fields {
                FieldStyle::Unnamed => {
                    if shape.field_count >= 1 && shape.first_field_public {
                        Err(DeriveError::PublicField)
                    } else {
                        Ok(())
                    }
                },
                _ => Ok(()),
            }
        },
        _ => Ok(()),
    }
}

/// The attribute paths that carry an identifier's mode: `allowed_values`
/// always, and `validate` where `with_validate` holds (the string derive).
pub open spec fn is_mode_path(path: Seq<char>, with_validate: bool) -> bool {
    path == "allowed_values"@ || (with_validate && path == "validate"@)
}

/// The argument of an attribute, by its view.
pub open spec fn argument_view(a: AttributeArg) -> Option<Seq<char>> {
    match a.argument {
        Some(w) => Some(w@),
        None => None,
    }
}

/// The first mode attribute: whether its path is `validate`, and its argument;
/// `None` when there is none.
pub open spec fn mode_argument(attrs: Seq<AttributeArg>, with_validate: bool) -> Option<
    (bool, Option<Seq<char>>),
>
    decreases attrs.len(),
{
    if attrs.len() == 0 {
        None
    } else if is_mode_path(attrs[0].path@, with_validate) {
        Some((attrs[0].path@ == "validate"@, argument_view(attrs[0])))
    } else {
        mode_argument(attrs.drop_first(), with_validate)
    }
}

/// A found mode attribute, by its view.
pub open spec fn found_view(arg: Option<(bool, Option<String>)>) -> Option<
    (bool, Option<Seq<char>>),
> {
    match arg {
        None => None,
        Some((v, None)) => Some((v, None)),
        Some((v, Some(w))) => Some((v, Some(w@))),
    }
}

/// The string mode that a mode attribute names. `allowed_values` takes `all`,
/// `non_empty` and `non_blank`; `validate` takes `non_empty`, `non_blank`,
/// `any` and `custom`.
pub open spec fn string_mode_of(arg: Option<(bool, Option<Seq<char>>)>) -> Result<
    StringMode,
    DeriveError,
> {
    match arg {
        None => Ok(StringMode::Unspecified),
        Some((_, None)) => Err(DeriveError::ExpectedIdentifier),
        Some((false, Some(w))) => if w == "all"@ {
            Ok(StringMode::All)
        } else if w == "non_empty"@ {
            Ok(StringMode::NonEmpty)
        } else if w == "non_blank"@ {
            Ok(StringMode::NonBlank)
        } else {
            Err(DeriveError::UnknownStringMode)
        },
        Some((true, Some(w))) => if w == "non_empty"@ {
            Ok(StringMode::NonEmpty)
        } else if w == "non_blank"@ {
            Ok(StringMode::NonBlank)
        } else if w == "any"@ {
            Ok(StringMode::All)
        } else if w == "custom"@ {
            Ok(StringMode::Custom)
        } else {
            Err(DeriveError::UnknownValidateMode)
        },
    }
}

/// Whether the `allowed_values` attribute of the integer, UUID or URI derive
/// says `all`; it is refused when it says anything else.
pub open spec fn simple_mode_of(arg: Option<(bool, Option<Seq<char>>)>) -> Result<
    bool,
    DeriveError,
> {
    match arg {
        None => Ok(false),
        Some((_, None)) => Err(DeriveError::ExpectedIdentifier),
        Some((_, Some(w))) => if w == "all"@ {
            Ok(true)
        } else {
            Err(DeriveError::UnknownMode)
        },
    }
}

/// What the string derive generates in each mode.
pub open spec fn string_plan_of(mode: StringMode) -> StringPlan {
    match mode {
        StringMode::Unspecified => StringPlan {
            mode,
            error: ErrorType::Infallible,
            conversion: Conversion::Absent,
            implements_identifier: true,
        },
        StringMode::All => StringPlan {
            mode,
            error: ErrorType::Infallible,
            conversion: Conversion::From,
            implements_identifier: true,
        },
        StringMode::NonEmpty => StringPlan {
            mode,
            error: ErrorType::Empty,
            conversion: Conversion::TryFrom,
            implements_identifier: true,
        },
        StringMode::NonBlank => StringPlan {
            mode,
            error: ErrorType::Blank,
            conversion: Conversion::TryFrom,
            implements_identifier: true,
        },
        StringMode::Custom => StringPlan {
            mode,
            error: ErrorType::UserDefined,
            conversion: Conversion::TryFrom,
            implements_identifier: false,
        },
    }
}

/// Whether a string mode restricts the accepted strings, so that the wrapped
/// field must stay private.
pub open spec fn is_validated(mode: StringMode) -> bool {
    mode == StringMode::NonEmpty || mode == StringMode::NonBlank
}

/// The outcome of the string identifier derive on an item: the shape is
/// checked first, then the mode, then, for a validated mode, the field's
/// privacy.
pub open spec fn string_plan(shape: ItemShape, attrs: Seq<AttributeArg>) -> Result<
    StringPlan,
    DeriveError,
> {
    match newtype_check(shape) {
        Err(e) => Err(e),
        Ok(()) => match string_mode_of(mode_argument(attrs, true)) {
            Err(e) => Err(e),
            Ok(mode) => if is_validated(mode) && private_field_check(shape) is Err {
                Err(DeriveError::PublicField)
            } else {
                Ok(string_plan_of(mode))
            },
        },
    }
}

/// The outcome of the integer, UUID or URI identifier derive on an item.
pub open spec fn simple_plan(shape: ItemShape, attrs: Seq<AttributeArg>) -> Result<
    SimplePlan,
    DeriveError,
> {
    match newtype_check(shape) {
        Err(e) => Err(e),
        Ok(()) => match simple_mode_of(mode_argument(attrs, false)) {
            Err(e) => Err(e),
            Ok(all) => Ok(
                SimplePlan { conversion: if all { Conversion::From } else { Conversion::TryFrom } },
            ),
        },
    }
}

/// Every identifier derive refuses an item that is not a struct with exactly
/// one unnamed field, whatever its attributes say.
pub proof fn law_only_newtypes(shape: ItemShape, attrs: Seq<AttributeArg>)
    requires
        newtype_check(shape) is Err,
    ensures
        string_plan(shape, attrs) is Err,
        simple_plan(shape, attrs) is Err,
{
}

/// A string identifier whose mode restricts its strings (`non_empty` or
/// `non_blank`) is only generated for a struct whose field is private, so no
/// value can bypass validation.
pub proof fn law_validated_field_is_private(shape: ItemShape, attrs: Seq<AttributeArg>)
    requires
        string_plan(shape, attrs) is Ok,
        is_validated(string_plan(shape, attrs)->Ok_0.mode),
    ensures
        !shape.first_field_public,
{
}

/// Neither `allowed_values` nor `validate`.
pub open spec fn is_other_attribute(a: AttributeArg) -> bool {
    a.path@ != "allowed_values"@ && a.path@ != "validate"@
}

proof fn lemma_mode_literals()
    ensures
        "allowed_values"@ != "validate"@,
        "all"@ != "non_empty"@,
        "all"@ != "non_blank"@,
        "non_empty"@ != "non_blank"@,
        "any"@ != "non_empty"@,
        "any"@ != "non_blank"@,
        "custom"@ != "non_empty"@,
        "custom"@ != "non_blank"@,
        "custom"@ != "any"@,
{
    reveal_strlit("allowed_values");
    reveal_strlit("validate");
    reveal_strlit("all");
    reveal_strlit("any");
    reveal_strlit("non_empty");
    reveal_strlit("non_blank");
    reveal_strlit("custom");
    assert("allowed_values"@.len() != "validate"@.len());
    assert("all"@.len() != "non_empty"@.len());
    assert("all"@.len() != "non_blank"@.len());
    assert("non_empty"@[4] != "non_blank"@[4]);
    assert("any"@.len() != "non_empty"@.len());
    assert("any"@.len() != "non_blank"@.len());
    assert("custom"@.len() != "non_empty"@.len());
    assert("custom"@.len() != "non_blank"@.len());
    assert("custom"@.len() != "any"@.len());
}

/// The first mode attribute, at `i`, is the one that `mode_argument` finds.
proof fn lemma_mode_argument_at(attrs: Seq<AttributeArg>, i: int, with_validate: bool)
    requires
        0 <= i < attrs.len(),
        is_mode_path(attrs[i].path@, with_validate),
        forall|j: int| 0 <= j < i ==> !is_mode_path(#[trigger] attrs[j].path@, with_validate),
    ensures
        mode_argument(attrs, with_validate) == Some(
            (attrs[i].path@ == "validate"@, argument_view(attrs[i])),
        ),
    decreases i,
{
    if i > 0 {
        let rest = attrs.drop_first();
        assert forall|j: int| 0 <= j < i - 1 implies !is_mode_path(
            #[trigger] rest[j].path@,
            with_validate,
        ) by {
            assert(rest[j] == attrs[j + 1]);
        }
        assert(!is_mode_path(attrs[0].path@, with_validate));
        lemma_mode_argument_at(rest, i - 1, with_validate);
    }
}

/// Without any mode attribute, `mode_argument` finds nothing.
proof fn lemma_mode_argument_none(attrs: Seq<AttributeArg>, with_validate: bool)
    requires
        forall|j: int| 0 <= j < attrs.len() ==> !is_mode_path(#[trigger] attrs[j].path@, with_validate),
    ensures
        mode_argument(attrs, with_validate) is None,
    decreases attrs.len(),
{
    if attrs.len() > 0 {
        let rest = attrs.drop_first();
        assert forall|j: int| 0 <= j < rest.len() implies !is_mode_path(
            #[trigger] rest[j].path@,
            with_validate,
        ) by {
            assert(rest[j] == attrs[j + 1]);
        }
        assert(!is_mode_path(attrs[0].path@, with_validate));
        lemma_mode_argument_none(rest, with_validate);
    }
}

/// An attribute that is neither `allowed_values` nor `validate` changes no
/// derive's outcome, wherever it stands: putting one in front of the others
/// leaves the plans as they were.
pub proof fn law_other_attributes_are_ignored(
    shape: ItemShape,
    x: AttributeArg,
    attrs: Seq<AttributeArg>,
)
    requires
        is_other_attribute(x),
    ensures
        string_plan(shape, seq![x] + attrs) == string_plan(shape, attrs),
        simple_plan(shape, seq![x] + attrs) == simple_plan(shape, attrs),
{
    assert((seq![x] + attrs).drop_first() =~= attrs);
    assert((seq![x] + attrs)[0] == x);
}

/// A struct with exactly one unnamed field, whether that field is `pub` or
/// not.
pub open spec fn is_newtype(shape: ItemShape) -> bool {
    shape.kind == ItemKind::Struct && shape.fields == FieldStyle::Unnamed && shape.field_count == 1
}

/// The string derive on a newtype whose first mode attribute, at `i`, is
/// `allowed_values(w)`: `all` wraps every string with `From`; `non_empty` and
/// `non_blank` validate through `TryFrom` with their errors, and refuse a
/// `pub` field; any other word is refused.
pub proof fn law_string_plan_allowed_values(
    shape: ItemShape,
    attrs: Seq<AttributeArg>,
    i: int,
    w: String,
)
    requires
        is_newtype(shape),
        0 <= i < attrs.len(),
        forall|j: int| 0 <= j < i ==> is_other_attribute(#[trigger] attrs[j]),
        attrs[i].path@ == "allowed_values"@,
        attrs[i].argument == Some(w),
    ensures
        w@ == "all"@ ==> string_plan(shape, attrs) == Ok::<StringPlan, DeriveError>(
            StringPlan {
                mode: StringMode::All,
                error: ErrorType::Infallible,
                conversion: Conversion::From,
                implements_identifier: true,
            },
        ),
        w@ == "non_empty"@ && !shape.first_field_public ==> string_plan(shape, attrs) == Ok::<
            StringPlan,
            DeriveError,
        >(
            StringPlan {
                mode: StringMode::NonEmpty,
                error: ErrorType::Empty,
                conversion: Conversion::TryFrom,
                implements_identifier: true,
            },
        ),
        w@ == "non_blank"@ && !shape.first_field_public ==> string_plan(shape, attrs) == Ok::<
            StringPlan,
            DeriveError,
        >(
            StringPlan {
                mode: StringMode::NonBlank,
                error: ErrorType::Blank,
                conversion: Conversion::TryFrom,
                implements_identifier: true,
            },
        ),
        (w@ == "non_empty"@ || w@ == "non_blank"@) && shape.first_field_public ==> string_plan(
            shape,
            attrs,
        ) == Err::<StringPlan, DeriveError>(DeriveError::PublicField),
        w@ != "all"@ && w@ != "non_empty"@ && w@ != "non_blank"@ ==> string_plan(shape, attrs)
            == Err::<StringPlan, DeriveError>(DeriveError::UnknownStringMode),
{
    lemma_mode_literals();
    assert forall|j: int| 0 <= j < i implies !is_mode_path(#[trigger] attrs[j].path@, true) by {
        assert(is_other_attribute(attrs[j]));
    }
    lemma_mode_argument_at(attrs, i, true);
}

/// The string derive on a newtype whose first mode attribute, at `i`, is
/// `validate(w)`: `any` wraps every string with `From`; `non_empty` and
/// `non_blank` validate through `TryFrom` (for a private field); `custom`
/// leaves validation to the type and generates `TryFrom`; any other word is
/// refused.
pub proof fn law_string_plan_validate(
    shape: ItemShape,
    attrs: Seq<AttributeArg>,
    i: int,
    w: String,
)
    requires
        is_newtype(shape),
        !shape.first_field_public,
        0 <= i < attrs.len(),
        forall|j: int| 0 <= j < i ==> is_other_attribute(#[trigger] attrs[j]),
        attrs[i].path@ == "validate"@,
        attrs[i].argument == Some(w),
    ensures
        w@ == "any"@ ==> string_plan(shape, attrs) == Ok::<StringPlan, DeriveError>(
            StringPlan {
                mode: StringMode::All,
                error: ErrorType::Infallible,
                conversion: Conversion::From,
                implements_identifier: true,
            },
        ),
        w@ == "non_empty"@ ==> string_plan(shape, attrs) == Ok::<StringPlan, DeriveError>(
            StringPlan {
                mode: StringMode::NonEmpty,
                error: ErrorType::Empty,
                conversion: Conversion::TryFrom,
                implements_identifier: true,
            },
        ),
        w@ == "non_blank"@ ==> string_plan(shape, attrs) == Ok::<StringPlan, DeriveError>(
            StringPlan {
                mode: StringMode::NonBlank,
                error: ErrorType::Blank,
                conversion: Conversion::TryFrom,
                implements_identifier: true,
            },
        ),
        w@ == "custom"@ ==> string_plan(shape, attrs) == Ok::<StringPlan, DeriveError>(
            StringPlan {
                mode: StringMode::Custom,
                error: ErrorType::UserDefined,
                conversion: Conversion::TryFrom,
                implements_identifier: false,
            },
        ),
        w@ != "any"@ && w@ != "non_empty"@ && w@ != "non_blank"@ && w@ != "custom"@
            ==> string_plan(shape, attrs) == Err::<StringPlan, DeriveError>(
            DeriveError::UnknownValidateMode,
        ),
{
    lemma_mode_literals();
    assert forall|j: int| 0 <= j < i implies !is_mode_path(#[trigger] attrs[j].path@, true) by {
        assert(is_other_attribute(attrs[j]));
    }
    lemma_mode_argument_at(attrs, i, true);
}

/// The string derive on a newtype with no mode attribute: every string, no
/// conversion, and the identifier trait with infallible validation.
pub proof fn law_string_plan_unspecified(shape: ItemShape, attrs: Seq<AttributeArg>)
    requires
        is_newtype(shape),
        forall|j: int| 0 <= j < attrs.len() ==> is_other_attribute(#[trigger] attrs[j]),
    ensures
        string_plan(shape, attrs) == Ok::<StringPlan, DeriveError>(
            StringPlan {
                mode: StringMode::Unspecified,
                error: ErrorType::Infallible,
                conversion: Conversion::Absent,
                implements_identifier: true,
            },
        ),
{
    assert forall|j: int| 0 <= j < attrs.len() implies !is_mode_path(
        #[trigger] attrs[j].path@,
        true,
    ) by {
        assert(is_other_attribute(attrs[j]));
    }
    lemma_mode_argument_none(attrs, true);
}

/// The integer, UUID and URI derives on a newtype, whatever the visibility of
/// its field: the first `allowed_values` attribute, at `i`, gives `From` when
/// it says `all` and is refused when it says anything else; a `validate`
/// attribute before it plays no part.
pub proof fn law_simple_plan_allowed_values(
    shape: ItemShape,
    attrs: Seq<AttributeArg>,
    i: int,
    w: String,
)
    requires
        is_newtype(shape),
        0 <= i < attrs.len(),
        forall|j: int| 0 <= j < i ==> (#[trigger] attrs[j]).path@ != "allowed_values"@,
        attrs[i].path@ == "allowed_values"@,
        attrs[i].argument == Some(w),
    ensures
        w@ == "all"@ ==> simple_plan(shape, attrs) == Ok::<SimplePlan, DeriveError>(
            SimplePlan { conversion: Conversion::From },
        ),
        w@ != "all"@ ==> simple_plan(shape, attrs) == Err::<SimplePlan, DeriveError>(
            DeriveError::UnknownMode,
        ),
{
    assert forall|j: int| 0 <= j < i implies !is_mode_path(#[trigger] attrs[j].path@, false) by {
        assert(attrs[j].path@ != "allowed_values"@);
    }
    lemma_mode_argument_at(attrs, i, false);
}

/// The integer, UUID and URI derives on a newtype without `allowed_values`,
/// whatever the visibility of its field: `TryFrom` through `validate`.
pub proof fn law_simple_plan_unspecified(shape: ItemShape, attrs: Seq<AttributeArg>)
    requires
        is_newtype(shape),
        forall|j: int| 0 <= j < attrs.len() ==> (#[trigger] attrs[j]).path@ != "allowed_values"@,
    ensures
        simple_plan(shape, attrs) == Ok::<SimplePlan, DeriveError>(
            SimplePlan { conversion: Conversion::TryFrom },
        ),
{
    assert forall|j: int| 0 <= j < attrs.len() implies !is_mode_path(
        #[trigger] attrs[j].path@,
        false,
    ) by {
        assert(attrs[j].path@ != "allowed_values"@);
    }
    lemma_mode_argument_none(attrs, false);
}

/// Whether `a` reads `b`.
fn same_text(a: &String, b: &str) -> (r: bool)
    ensures
        r == (a@ == b@),
{
    let t = String::from_str(b);
    a.eq(&t)
}

proof fn lemma_mode_argument_skip(attrs: Seq<AttributeArg>, i: int, with_validate: bool)
    requires
        0 <= i < attrs.len(),
        !is_mode_path(attrs[i].path@, with_validate),
    ensures
        mode_argument(attrs.subrange(i, attrs.len() as int), with_validate) == mode_argument(
            attrs.subrange(i + 1, attrs.len() as int),
            with_validate,
        ),
{
    assert(attrs.subrange(i, attrs.len() as int).drop_first() =~= attrs.subrange(
        i + 1,
        attrs.len() as int,
    ));
}

/// The first mode attribute: whether its path is `validate`, and its argument.
/// `allowed_values` is a mode attribute always, `validate` only where
/// `with_validate` holds.
pub fn find_mode_argument(attrs: &Vec<AttributeArg>, with_validate: bool) -> (r: Option<
    (bool, Option<String>),
>)
    ensures
        found_view(r) == mode_argument(attrs@, with_validate),
{
    let mut i: usize = 0;
    assert(attrs@.subrange(0, attrs@.len() as int) =~= attrs@);
    while i < attrs.len()
        invariant
            i <= attrs@.len(),
            mode_argument(attrs@, with_validate) == mode_argument(
                attrs@.subrange(i as int, attrs@.len() as int),
                with_validate,
            ),
        decreases attrs.len() - i,
    {
        let a = &attrs[i];
        let is_allowed = same_text(&a.path, "allowed_values");
        let is_validate = same_text(&a.path, "validate");
        if is_allowed || (with_validate && is_validate) {
            assert(attrs@.subrange(i as int, attrs@.len() as int)[0] == attrs@[i as int]);
            return match &a.argument {
                Some(w) => Some((is_validate, Some(w.clone()))),
                None => Some((is_validate, None)),
            };
        }
        proof {
            lemma_mode_argument_skip(attrs@, i as int, with_validate);
        }
        i = i + 1;
    }
    assert(attrs@.subrange(i as int, attrs@.len() as int).len() == 0);
    None
}

/// Reads the string derive's mode from its mode attribute.
pub fn parse_string_mode(arg: &Option<(bool, Option<String>)>) -> (r: Result<
    StringMode,
    DeriveError,
>)
    ensures
        r == string_mode_of(found_view(*arg)),
{
    match arg {
        None => Ok(StringMode::Unspecified),
        Some((_, None)) => Err(DeriveError::ExpectedIdentifier),
        Some((false, Some(w))) => {
            if same_text(w, "all") {
                Ok(StringMode::All)
            } else if same_text(w, "non_empty") {
                Ok(StringMode::NonEmpty)
            } else if same_text(w, "non_blank") {
                Ok(StringMode::NonBlank)
            } else {
                Err(DeriveError::UnknownStringMode)
            }
        },
        Some((true, Some(w))) => {
            if same_text(w, "non_empty") {
                Ok(StringMode::NonEmpty)
            } else if same_text(w, "non_blank") {
                Ok(StringMode::NonBlank)
            } else if same_text(w, "any") {
                Ok(StringMode::All)
            } else if same_text(w, "custom") {
                Ok(StringMode::Custom)
            } else {
                Err(DeriveError::UnknownValidateMode)
            }
        },
    }
}

/// Reads whether the `allowed_values` attribute of the integer, UUID or URI
/// derive says `all`.
pub fn parse_simple_mode(arg: &Option<(bool, Option<String>)>) -> (r: Result<bool, DeriveError>)
    ensures
        r == simple_mode_of(found_view(*arg)),
{
    match arg {
        None => Ok(false),
        Some((_, None)) => Err(DeriveError::ExpectedIdentifier),
        Some((_, Some(w))) => {
            if same_text(w, "all") {
                Ok(true)
            } else {
                Err(DeriveError::UnknownMode)
            }
        },
    }
}

/// Decides what the string identifier derive generates for an item, or why it
/// refuses it.
pub fn plan_string_identifier(shape: &ItemShape, attrs: &Vec<AttributeArg>) -> (r: Result<
    StringPlan,
    DeriveError,
>)
    ensures
        r == string_plan(*shape, attrs@),
{
    require_newtype(shape)?;
    let arg = find_mode_argument(attrs, true);
    let mode = parse_string_mode(&arg)?;
    let validated = match mode {
        StringMode::NonEmpty => true,
        StringMode::NonBlank => true,
        _ => false,
    };
    if validated {
        require_private_field(shape)?;
    }
    let plan = match mode {
        StringMode::Unspecified => StringPlan {
            mode,
            error: ErrorType::Infallible,
            conversion: Conversion::Absent,
            implements_identifier: true,
        },
        StringMode::All => StringPlan {
            mode,
            error: ErrorType::Infallible,
            conversion: Conversion::From,
            implements_identifier: true,
        },
        StringMode::NonEmpty => StringPlan {
            mode,
            error: ErrorType::Empty,
            conversion: Conversion::TryFrom,
            implements_identifier: true,
        },
        StringMode::NonBlank => StringPlan {
            mode,
            error: ErrorType::Blank,
            conversion: Conversion::TryFrom,
            implements_identifier: true,
        },
        StringMode::Custom => StringPlan {
            mode,
            error: ErrorType::UserDefined,
            conversion: Conversion::TryFrom,
            implements_identifier: false,
        },
    };
    Ok(plan)
}

/// Decides what the integer, UUID or URI identifier derive generates for an
/// item, or why it refuses it.
pub fn plan_simple_identifier(shape: &ItemShape, attrs: &Vec<AttributeArg>) -> (r: Result<
    SimplePlan,
    DeriveError,
>)
    ensures
        r == simple_plan(*shape, attrs@),
{
    require_newtype(shape)?;
    let arg = find_mode_argument(attrs, false);
    let all = parse_simple_mode(&arg)?;
    if all {
        Ok(SimplePlan { conversion: Conversion::From })
    } else {
        Ok(SimplePlan { conversion: Conversion::TryFrom })
    }
}

} // verus!
