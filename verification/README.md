# nutype_macros

The decisions behind the `#[nutype]` attribute macro, verified with Verus.

`#[nutype]` turns a tuple struct such as `struct Age(u8);` into a newtype whose
values can only be built through sanitizers and validators. This crate holds
what the macro decides on the way:

- `meta`: reading the annotated item (a tuple struct with one private field;
  doc comments, forwarded attributes, serde customizations; the kind of the
  inner type);
- `attributes`, `kinds`, `raw_validation`, `number`, `derive`: reading the
  arguments of `#[nutype(...)]` (attribute names, sanitizer and validator
  names in snake case, numeric bounds, traits to derive);
- `guard`, `bounds`, `validate`: checking sanitizers, validators and bounds;
- `integer`, `float`, `decimal`, `any`, `generatable`: which traits each kind
  of inner type can have, and how they are generated;
- `numeric`, `arbitrary`, `gen_plan`, `naming`, `closure`: the plans from which
  code is generated (validation checks and error variants, `Arbitrary`
  generation, generated tests, names of generated items, typed closures);
- `decimal_lit`: decimal literals compared by value, read with `rust_decimal`.

`app/` wraps the library with `syn` and `quote`: it reads tokens into the
library's plain models, reports the library's errors as `syn::Error`, and
emits the generated code.
