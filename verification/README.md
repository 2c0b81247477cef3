# logical_properties

The verified core of a CSS lint rule that asks for logical properties
(`margin-inline-start`, `inline-size`, `inset-block-end`, ...) in place of
physical ones (`margin-left`, `width`, `bottom`, ...), and that merges a pair
of physical declarations (`margin-left` and `margin-right`) into one logical
shorthand (`margin-inline`).

- `src/` is checked by Verus: the property tables, the finding on one
  declaration, the choice of fix, the order of the values in a shorthand,
  and the laws of the tables (pairs are symmetric, fixes are never reported
  again, different properties get different equivalents).
- `app/` connects the library to Biome's CSS syntax trees and analyzer types.
- `tests/` runs the library on the documented examples and on the whole tables.
