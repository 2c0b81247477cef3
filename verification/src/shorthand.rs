//! Merging a pair of physical declarations into one logical shorthand:
//! which of the two values comes first, and the value list of the shorthand.
use vstd::prelude::*;
use crate::text::{seq_contains, str_contains};

verus! {

/// In the shorthand, the value of the declaration that triggered the fix comes
/// first: for an inline pair unless that declaration is the left one (the
/// right value leads), for a block pair exactly when it is the top one (the top
/// value leads).
pub open spec fn first_value_leads(first_prop_name: Seq<char>, is_inline: bool) -> bool {
    if is_inline {
        !seq_contains(first_prop_name, "left"@)
    } else {
        seq_contains(first_prop_name, "top"@)
    }
}

/// The two values of a pair in the order in which the shorthand lists them.
pub open spec fn ordered_values<T>(
    first_value: T,
    second_value: T,
    first_prop_name: Seq<char>,
    is_inline: bool,
) -> (T, T) {
    if first_value_leads(first_prop_name, is_inline) {
        (first_value, second_value)
    } else {
        (second_value, first_value)
    }
}

/// Determine the order of the two values of a pair in their shorthand:
/// for inline pairs `<right> <left>`, for block pairs `<top> <bottom>`.
/// `first_value` belongs to the property named `first_prop_name`.
pub fn order_shorthand_values<T>(
    first_value: T,
    second_value: T,
    first_prop_name: &str,
    is_inline: bool,
) -> (r: (T, T))
    ensures
        r == ordered_values(first_value, second_value, first_prop_name@, is_inline),
{
    if is_inline {
        // Inline properties: right comes before left in the shorthand
        if str_contains(first_prop_name, "left") {
            (second_value, first_value)
        } else {
            (first_value, second_value)
        }
    } else {
        // Block properties: top comes before bottom in the shorthand
        if str_contains(first_prop_name, "top") {
            (first_value, second_value)
        } else {
            (second_value, first_value)
        }
    }
}

/// The value list of the shorthand: the elements of the leading value, one
/// separator, then the elements of the trailing value.
pub fn combine_value_elements<T>(leading: Vec<T>, separator: T, trailing: Vec<T>) -> (r: Vec<T>)
    ensures
        r@ == leading@.push(separator) + trailing@,
{
    let mut combined = leading;
    combined.push(separator);
    let mut rest = trailing;
    combined.append(&mut rest);
    combined
}

} // verus!
