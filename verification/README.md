# identifiers

Typed identifier wrappers: newtypes over `String`, `u64`, `Uuid` and URI that
are mutually incompatible at the type level, with their construction rules
stated as Verus contracts and proved.

Layout:

- `src/string_id.rs`: the string rules (`validate_non_empty`,
  `validate_non_blank`, `validate_any`), the `StringIdentifier` trait and the
  tagged types `NonEmptyId<T>`, `NonBlankId<T>`, `AnyId<T>`.
- `src/text.rs`: Unicode whitespace and blankness (what `str::trim` strips).
- `src/integer_id.rs`: `IntegerIdentifier` and `IntegerId<T>`, ordered as
  their numbers.
- `src/uuid_id.rs`: `UuidIdentifier` and `UuidId<T>`; new values are random
  version 4 UUIDs from the `uuid` crate.
- `src/uri_id.rs`: `UriIdentifier` and `UriId<T>`, parsed with `fluent-uri`.
- `src/plan.rs`: what each identifier derive generates for an item, or why it
  refuses it.
- `src/display.rs`, `src/error.rs`: `Debug` texts and the error types.
- `app/`: the derives' code generation with `syn` and `quote`, and error types
  with `Display`.

The tag type `T` only keeps kinds apart: `NonEmptyId<UserTag>` and
`NonEmptyId<PostTag>` are different types.
