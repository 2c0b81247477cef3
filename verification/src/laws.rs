//! Laws of the rule's tables, and the facts about the property names that
//! their proofs rest on.
use vstd::prelude::*;
use crate::properties::{pair_spec, spec_logical_equivalent, spec_pair_info};
use crate::shorthand::{first_value_leads, ordered_values};
use crate::state::{
    item_declares, lemma_first_declaring_characterized, spec_analyze, spec_first_declaring, spec_plan,
    ActionModel,
};
use crate::text::{ascii_lowercase_of, lemma_ascii_lowercase_idempotent, seq_contains};

verus! {

/// The character at position `i` of `s`, or a space outside of `s`.
pub open spec fn char_at(s: Seq<char>, i: int) -> char {
    if 0 <= i < s.len() {
        s[i]
    } else {
        ' '
    }
}

/// A few characters and the length of a name: enough to tell apart every
/// name that the tables mention.
pub open spec fn name_signature(s: Seq<char>) -> (int, char, char, char) {
    (s.len() as int, char_at(s, 1), char_at(s, 7), char_at(s, s.len() - 1))
}

/// The signatures of the physical, logical and shorthand names of the tables.
/// As they are pairwise different, so are the names.
pub proof fn lemma_name_signatures()
    ensures
        name_signature("margin-left"@) == (11int, 'a', 'l', 't'),
        name_signature("margin-right"@) == (12int, 'a', 'r', 't'),
        name_signature("margin-top"@) == (10int, 'a', 't', 'p'),
        name_signature("margin-bottom"@) == (13int, 'a', 'b', 'm'),
        name_signature("padding-left"@) == (12int, 'a', '-', 't'),
        name_signature("padding-right"@) == (13int, 'a', '-', 't'),
        name_signature("padding-top"@) == (11int, 'a', '-', 'p'),
        name_signature("padding-bottom"@) == (14int, 'a', '-', 'm'),
        name_signature("left"@) == (4int, 'e', ' ', 't'),
        name_signature("right"@) == (5int, 'i', ' ', 't'),
        name_signature("top"@) == (3int, 'o', ' ', 'p'),
        name_signature("bottom"@) == (6int, 'o', ' ', 'm'),
        name_signature("width"@) == (5int, 'i', ' ', 'h'),
        name_signature("min-width"@) == (9int, 'i', 't', 'h'),
        name_signature("max-width"@) == (9int, 'a', 't', 'h'),
        name_signature("height"@) == (6int, 'e', ' ', 't'),
        name_signature("min-height"@) == (10int, 'i', 'g', 't'),
        name_signature("max-height"@) == (10int, 'a', 'g', 't'),
        name_signature("border-left"@) == (11int, 'o', 'l', 't'),
        name_signature("border-right"@) == (12int, 'o', 'r', 't'),
        name_signature("border-top"@) == (10int, 'o', 't', 'p'),
        name_signature("border-bottom"@) == (13int, 'o', 'b', 'm'),
        name_signature("border-left-width"@) == (17int, 'o', 'l', 'h'),
        name_signature("border-right-width"@) == (18int, 'o', 'r', 'h'),
        name_signature("border-top-width"@) == (16int, 'o', 't', 'h'),
        name_signature("border-bottom-width"@) == (19int, 'o', 'b', 'h'),
        name_signature("border-left-style"@) == (17int, 'o', 'l', 'e'),
        name_signature("border-right-style"@) == (18int, 'o', 'r', 'e'),
        name_signature("border-top-style"@) == (16int, 'o', 't', 'e'),
        name_signature("border-bottom-style"@) == (19int, 'o', 'b', 'e'),
        name_signature("border-left-color"@) == (17int, 'o', 'l', 'r'),
        name_signature("border-right-color"@) == (18int, 'o', 'r', 'r'),
        name_signature("border-top-color"@) == (16int, 'o', 't', 'r'),
        name_signature("border-bottom-color"@) == (19int, 'o', 'b', 'r'),
        name_signature("border-top-left-radius"@) == (22int, 'o', 't', 's'),
        name_signature("border-top-right-radius"@) == (23int, 'o', 't', 's'),
        name_signature("border-bottom-left-radius"@) == (25int, 'o', 'b', 's'),
        name_signature("border-bottom-right-radius"@) == (26int, 'o', 'b', 's'),
        name_signature("margin-inline-start"@) == (19int, 'a', 'i', 't'),
        name_signature("margin-inline-end"@) == (17int, 'a', 'i', 'd'),
        name_signature("margin-block-start"@) == (18int, 'a', 'b', 't'),
        name_signature("margin-block-end"@) == (16int, 'a', 'b', 'd'),
        name_signature("padding-inline-start"@) == (20int, 'a', '-', 't'),
        name_signature("padding-inline-end"@) == (18int, 'a', '-', 'd'),
        name_signature("padding-block-start"@) == (19int, 'a', '-', 't'),
        name_signature("padding-block-end"@) == (17int, 'a', '-', 'd'),
        name_signature("inset-inline-start"@) == (18int, 'n', 'n', 't'),
        name_signature("inset-inline-end"@) == (16int, 'n', 'n', 'd'),
        name_signature("inset-block-start"@) == (17int, 'n', 'l', 't'),
        name_signature("inset-block-end"@) == (15int, 'n', 'l', 'd'),
        name_signature("inline-size"@) == (11int, 'n', 's', 'e'),
        name_signature("min-inline-size"@) == (15int, 'i', 'i', 'e'),
        name_signature("max-inline-size"@) == (15int, 'a', 'i', 'e'),
        name_signature("block-size"@) == (10int, 'l', 'i', 'e'),
        name_signature("min-block-size"@) == (14int, 'i', 'c', 'e'),
        name_signature("max-block-size"@) == (14int, 'a', 'c', 'e'),
        name_signature("border-inline-start"@) == (19int, 'o', 'i', 't'),
        name_signature("border-inline-end"@) == (17int, 'o', 'i', 'd'),
        name_signature("border-block-start"@) == (18int, 'o', 'b', 't'),
        name_signature("border-block-end"@) == (16int, 'o', 'b', 'd'),
        name_signature("border-inline-start-width"@) == (25int, 'o', 'i', 'h'),
        name_signature("border-inline-end-width"@) == (23int, 'o', 'i', 'h'),
        name_signature("border-block-start-width"@) == (24int, 'o', 'b', 'h'),
        name_signature("border-block-end-width"@) == (22int, 'o', 'b', 'h'),
        name_signature("border-inline-start-style"@) == (25int, 'o', 'i', 'e'),
        name_signature("border-inline-end-style"@) == (23int, 'o', 'i', 'e'),
        name_signature("border-block-start-style"@) == (24int, 'o', 'b', 'e'),
        name_signature("border-block-end-style"@) == (22int, 'o', 'b', 'e'),
        name_signature("border-inline-start-color"@) == (25int, 'o', 'i', 'r'),
        name_signature("border-inline-end-color"@) == (23int, 'o', 'i', 'r'),
        name_signature("border-block-start-color"@) == (24int, 'o', 'b', 'r'),
        name_signature("border-block-end-color"@) == (22int, 'o', 'b', 'r'),
        name_signature("border-start-start-radius"@) == (25int, 'o', 's', 's'),
        name_signature("border-start-end-radius"@) == (23int, 'o', 's', 's'),
        name_signature("border-end-start-radius"@) == (23int, 'o', 'e', 's'),
        name_signature("border-end-end-radius"@) == (21int, 'o', 'e', 's'),
        name_signature("margin-inline"@) == (13int, 'a', 'i', 'e'),
        name_signature("margin-block"@) == (12int, 'a', 'b', 'k'),
        name_signature("padding-inline"@) == (14int, 'a', '-', 'e'),
        name_signature("padding-block"@) == (13int, 'a', '-', 'k'),
        name_signature("inset-inline"@) == (12int, 'n', 'n', 'e'),
        name_signature("inset-block"@) == (11int, 'n', 'l', 'k'),
{
    reveal_strlit("margin-left");
    reveal_strlit("margin-right");
    reveal_strlit("margin-top");
    reveal_strlit("margin-bottom");
    reveal_strlit("padding-left");
    reveal_strlit("padding-right");
    reveal_strlit("padding-top");
    reveal_strlit("padding-bottom");
    reveal_strlit("left");
    reveal_strlit("right");
    reveal_strlit("top");
    reveal_strlit("bottom");
    reveal_strlit("width");
    reveal_strlit("min-width");
    reveal_strlit("max-width");
    reveal_strlit("height");
    reveal_strlit("min-height");
    reveal_strlit("max-height");
    reveal_strlit("border-left");
    reveal_strlit("border-right");
    reveal_strlit("border-top");
    reveal_strlit("border-bottom");
    reveal_strlit("border-left-width");
    reveal_strlit("border-right-width");
    reveal_strlit("border-top-width");
    reveal_strlit("border-bottom-width");
    reveal_strlit("border-left-style");
    reveal_strlit("border-right-style");
    reveal_strlit("border-top-style");
    reveal_strlit("border-bottom-style");
    reveal_strlit("border-left-color");
    reveal_strlit("border-right-color");
    reveal_strlit("border-top-color");
    reveal_strlit("border-bottom-color");
    reveal_strlit("border-top-left-radius");
    reveal_strlit("border-top-right-radius");
    reveal_strlit("border-bottom-left-radius");
    reveal_strlit("border-bottom-right-radius");
    reveal_strlit("margin-inline-start");
    reveal_strlit("margin-inline-end");
    reveal_strlit("margin-block-start");
    reveal_strlit("margin-block-end");
    reveal_strlit("padding-inline-start");
    reveal_strlit("padding-inline-end");
    reveal_strlit("padding-block-start");
    reveal_strlit("padding-block-end");
    reveal_strlit("inset-inline-start");
    reveal_strlit("inset-inline-end");
    reveal_strlit("inset-block-start");
    reveal_strlit("inset-block-end");
    reveal_strlit("inline-size");
    reveal_strlit("min-inline-size");
    reveal_strlit("max-inline-size");
    reveal_strlit("block-size");
    reveal_strlit("min-block-size");
    reveal_strlit("max-block-size");
    reveal_strlit("border-inline-start");
    reveal_strlit("border-inline-end");
    reveal_strlit("border-block-start");
    reveal_strlit("border-block-end");
    reveal_strlit("border-inline-start-width");
    reveal_strlit("border-inline-end-width");
    reveal_strlit("border-block-start-width");
    reveal_strlit("border-block-end-width");
    reveal_strlit("border-inline-start-style");
    reveal_strlit("border-inline-end-style");
    reveal_strlit("border-block-start-style");
    reveal_strlit("border-block-end-style");
    reveal_strlit("border-inline-start-color");
    reveal_strlit("border-inline-end-color");
    reveal_strlit("border-block-start-color");
    reveal_strlit("border-block-end-color");
    reveal_strlit("border-start-start-radius");
    reveal_strlit("border-start-end-radius");
    reveal_strlit("border-end-start-radius");
    reveal_strlit("border-end-end-radius");
    reveal_strlit("margin-inline");
    reveal_strlit("margin-block");
    reveal_strlit("padding-inline");
    reveal_strlit("padding-block");
    reveal_strlit("inset-inline");
    reveal_strlit("inset-block");
}

/// Every physical property that belongs to a pair has a logical equivalent
/// of its own.
pub proof fn lemma_paired_property_has_equivalent(p: Seq<char>)
    requires
        spec_pair_info(p) is Some,
    ensures
        spec_logical_equivalent(p) is Some,
{
}

/// Pairing is symmetric: the partner of a property is a different property
/// whose partner is the first one, with the same shorthand and the same axis.
pub proof fn lemma_pair_symmetric(p: Seq<char>)
    requires
        spec_pair_info(p) is Some,
    ensures
        ({
            let info = spec_pair_info(p).unwrap();
            &&& info.pair_name != p
            &&& spec_pair_info(info.pair_name) == Some(
                pair_spec(p, info.shorthand_name, info.is_inline),
            )
        }),
{
    lemma_name_signatures();
}

/// A logical equivalent is never itself reported: replacing a physical
/// property by its equivalent gives a property that the rule accepts, and that
/// pairs with nothing.
pub proof fn lemma_equivalent_is_accepted(p: Seq<char>)
    requires
        spec_logical_equivalent(p) is Some,
    ensures
        spec_logical_equivalent(spec_logical_equivalent(p).unwrap()) is None,
        spec_pair_info(spec_logical_equivalent(p).unwrap()) is None,
{
    lemma_name_signatures();
}

/// A logical shorthand is never itself reported: merging a pair gives a
/// declaration that the rule accepts.
pub proof fn lemma_shorthand_is_accepted(p: Seq<char>)
    requires
        spec_pair_info(p) is Some,
    ensures
        spec_logical_equivalent(spec_pair_info(p).unwrap().shorthand_name) is None,
        spec_pair_info(spec_pair_info(p).unwrap().shorthand_name) is None,
{
    lemma_name_signatures();
}

/// Different physical properties are replaced by different logical properties.
pub proof fn lemma_equivalents_distinct(p: Seq<char>, q: Seq<char>)
    requires
        spec_logical_equivalent(p) is Some,
        spec_logical_equivalent(p) == spec_logical_equivalent(q),
    ensures
        p == q,
{
    lemma_name_signatures();
}

/// Which of the paired properties name the words that decide the order of
/// the values in their shorthand.
proof fn lemma_side_words()
    ensures
        seq_contains("margin-left"@, "left"@),
        !seq_contains("margin-right"@, "left"@),
        seq_contains("padding-left"@, "left"@),
        !seq_contains("padding-right"@, "left"@),
        seq_contains("left"@, "left"@),
        !seq_contains("right"@, "left"@),
        seq_contains("margin-top"@, "top"@),
        !seq_contains("margin-bottom"@, "top"@),
        seq_contains("padding-top"@, "top"@),
        !seq_contains("padding-bottom"@, "top"@),
        seq_contains("top"@, "top"@),
        !seq_contains("bottom"@, "top"@),
{
    reveal(seq_contains);
    reveal_strlit("left");
    reveal_strlit("top");
    reveal_strlit("margin-left");
    reveal_strlit("margin-right");
    assert("margin-left"@.subrange(7, 7 + "left"@.len() as int) =~= "left"@);
    assert forall|i: int|
        0 <= i && i + 4 <= "margin-right"@.len() implies #[trigger] "margin-right"@.subrange(i, i + 4) != "left"@ by {
        let s = "margin-right"@;
        let window = s.subrange(i, i + 4);
        assert(window[0] == s[i + 0]);
        assert(window[1] == s[i + 1]);
        assert(window[2] == s[i + 2]);
        assert(window[3] == s[i + 3]);
    }
    reveal_strlit("padding-left");
    reveal_strlit("padding-right");
    assert("padding-left"@.subrange(8, 8 + "left"@.len() as int) =~= "left"@);
    assert forall|i: int|
        0 <= i && i + 4 <= "padding-right"@.len() implies #[trigger] "padding-right"@.subrange(i, i + 4) != "left"@ by {
        let s = "padding-right"@;
        let window = s.subrange(i, i + 4);
        assert(window[0] == s[i + 0]);
        assert(window[1] == s[i + 1]);
        assert(window[2] == s[i + 2]);
        assert(window[3] == s[i + 3]);
    }
    reveal_strlit("left");
    reveal_strlit("right");
    assert("left"@.subrange(0, 0 + "left"@.len() as int) =~= "left"@);
    assert forall|i: int|
        0 <= i && i + 4 <= "right"@.len() implies #[trigger] "right"@.subrange(i, i + 4) != "left"@ by {
        let s = "right"@;
        let window = s.subrange(i, i + 4);
        assert(window[0] == s[i + 0]);
        assert(window[1] == s[i + 1]);
        assert(window[2] == s[i + 2]);
        assert(window[3] == s[i + 3]);
    }
    reveal_strlit("margin-top");
    reveal_strlit("margin-bottom");
    assert("margin-top"@.subrange(7, 7 + "top"@.len() as int) =~= "top"@);
    assert forall|i: int|
        0 <= i && i + 3 <= "margin-bottom"@.len() implies #[trigger] "margin-bottom"@.subrange(i, i + 3) != "top"@ by {
        let s = "margin-bottom"@;
        let window = s.subrange(i, i + 3);
        assert(window[0] == s[i + 0]);
        assert(window[1] == s[i + 1]);
        assert(window[2] == s[i + 2]);
    }
    reveal_strlit("padding-top");
    reveal_strlit("padding-bottom");
    assert("padding-top"@.subrange(8, 8 + "top"@.len() as int) =~= "top"@);
    assert forall|i: int|
        0 <= i && i + 3 <= "padding-bottom"@.len() implies #[trigger] "padding-bottom"@.subrange(i, i + 3) != "top"@ by {
        let s = "padding-bottom"@;
        let window = s.subrange(i, i + 3);
        assert(window[0] == s[i + 0]);
        assert(window[1] == s[i + 1]);
        assert(window[2] == s[i + 2]);
    }
    reveal_strlit("top");
    reveal_strlit("bottom");
    assert("top"@.subrange(0, 0 + "top"@.len() as int) =~= "top"@);
    assert forall|i: int|
        0 <= i && i + 3 <= "bottom"@.len() implies #[trigger] "bottom"@.subrange(i, i + 3) != "top"@ by {
        let s = "bottom"@;
        let window = s.subrange(i, i + 3);
        assert(window[0] == s[i + 0]);
        assert(window[1] == s[i + 1]);
        assert(window[2] == s[i + 2]);
    }
}

/// Whichever declaration of a pair triggers the fix, the shorthand lists the
/// two values in the same order.
pub proof fn lemma_shorthand_order_agrees<T>(p: Seq<char>, value_of_p: T, value_of_pair: T)
    requires
        spec_pair_info(p) is Some,
    ensures
        ({
            let info = spec_pair_info(p).unwrap();
            ordered_values(value_of_p, value_of_pair, p, info.is_inline) == ordered_values(
                value_of_pair,
                value_of_p,
                info.pair_name,
                info.is_inline,
            )
        }),
{
    lemma_side_words();
}

/// The rule ignores ASCII case: two spellings of a property name that fold
/// to the same lower-case name give the same finding.
pub proof fn lemma_analysis_ignores_ascii_case(a: Seq<char>, b: Seq<char>)
    requires
        ascii_lowercase_of(a) == ascii_lowercase_of(b),
    ensures
        spec_analyze(a) == spec_analyze(b),
{
}

/// A finding records the lower-case name, and analysing that name again gives
/// the same finding.
pub proof fn lemma_analysis_of_recorded_name(name: Seq<char>)
    requires
        spec_analyze(name) is Some,
    ensures
        spec_analyze(name).unwrap().property_name == ascii_lowercase_of(name),
        spec_analyze(spec_analyze(name).unwrap().property_name) == spec_analyze(name),
{
    lemma_ascii_lowercase_idempotent(name);
}

/// The fix never merges a declaration with itself: the partner it merges
/// with is never an item that declares the property of the finding.
pub proof fn lemma_plan_never_merges_with_itself(
    name: Seq<char>,
    items: Seq<Option<Seq<char>>>,
    own_index: int,
)
    requires
        spec_analyze(name) is Some,
        0 <= own_index < items.len(),
        item_declares(items[own_index], spec_analyze(name).unwrap().property_name),
    ensures
        spec_plan(spec_analyze(name).unwrap(), items) matches ActionModel::CombineIntoShorthand {
            paired_index,
            ..
        } ==> paired_index != own_index,
{
    let state = spec_analyze(name).unwrap();
    if let Some(pair) = state.paired_property {
        lemma_pair_symmetric(state.property_name);
        lemma_first_declaring_characterized(items, pair.pair_name);
    }
}

/// When the fix merges a pair, it uses the shorthand and the axis of the pair
/// and keeps the partner's position; when the partner is declared nowhere in
/// the block, or the property has no partner, it renames the property to its
/// logical equivalent.
pub proof fn lemma_plan_outcomes(name: Seq<char>, items: Seq<Option<Seq<char>>>)
    requires
        spec_analyze(name) is Some,
    ensures
        ({
            let state = spec_analyze(name).unwrap();
            match spec_plan(state, items) {
                ActionModel::CombineIntoShorthand { paired_index, shorthand_name, is_inline } => {
                    &&& state.paired_property is Some
                    &&& 0 <= paired_index < items.len()
                    &&& item_declares(items[paired_index], state.paired_property.unwrap().pair_name)
                    &&& shorthand_name == state.paired_property.unwrap().shorthand_name
                    &&& is_inline == state.paired_property.unwrap().is_inline
                    &&& spec_logical_equivalent(shorthand_name) is None
                },
                ActionModel::ReplaceName { new_name } => {
                    &&& new_name == state.logical_equivalent
                    &&& spec_logical_equivalent(new_name) is None
                    &&& (state.paired_property matches Some(pair) ==> forall|j: int|
                        0 <= j < items.len() ==> !item_declares(#[trigger] items[j], pair.pair_name))
                },
            }
        }),
{
    let state = spec_analyze(name).unwrap();
    lemma_equivalent_is_accepted(state.property_name);
    if let Some(pair) = state.paired_property {
        lemma_shorthand_is_accepted(state.property_name);
        lemma_first_declaring_characterized(items, pair.pair_name);
    }
}

/// Exactly the 38 physical properties of the rule have a logical equivalent,
/// and each has the documented one.
pub proof fn lemma_logical_equivalent_table(p: Seq<char>, q: Seq<char>)
    ensures
        spec_logical_equivalent(p) == Some(q) <==> {
            ||| p == "margin-left"@ && q == "margin-inline-start"@
            ||| p == "margin-right"@ && q == "margin-inline-end"@
            ||| p == "margin-top"@ && q == "margin-block-start"@
            ||| p == "margin-bottom"@ && q == "margin-block-end"@
            ||| p == "padding-left"@ && q == "padding-inline-start"@
            ||| p == "padding-right"@ && q == "padding-inline-end"@
            ||| p == "padding-top"@ && q == "padding-block-start"@
            ||| p == "padding-bottom"@ && q == "padding-block-end"@
            ||| p == "left"@ && q == "inset-inline-start"@
            ||| p == "right"@ && q == "inset-inline-end"@
            ||| p == "top"@ && q == "inset-block-start"@
            ||| p == "bottom"@ && q == "inset-block-end"@
            ||| p == "width"@ && q == "inline-size"@
            ||| p == "min-width"@ && q == "min-inline-size"@
            ||| p == "max-width"@ && q == "max-inline-size"@
            ||| p == "height"@ && q == "block-size"@
            ||| p == "min-height"@ && q == "min-block-size"@
            ||| p == "max-height"@ && q == "max-block-size"@
            ||| p == "border-left"@ && q == "border-inline-start"@
            ||| p == "border-right"@ && q == "border-inline-end"@
            ||| p == "border-top"@ && q == "border-block-start"@
            ||| p == "border-bottom"@ && q == "border-block-end"@
            ||| p == "border-left-width"@ && q == "border-inline-start-width"@
            ||| p == "border-right-width"@ && q == "border-inline-end-width"@
            ||| p == "border-top-width"@ && q == "border-block-start-width"@
            ||| p == "border-bottom-width"@ && q == "border-block-end-width"@
            ||| p == "border-left-style"@ && q == "border-inline-start-style"@
            ||| p == "border-right-style"@ && q == "border-inline-end-style"@
            ||| p == "border-top-style"@ && q == "border-block-start-style"@
            ||| p == "border-bottom-style"@ && q == "border-block-end-style"@
            ||| p == "border-left-color"@ && q == "border-inline-start-color"@
            ||| p == "border-right-color"@ && q == "border-inline-end-color"@
            ||| p == "border-top-color"@ && q == "border-block-start-color"@
            ||| p == "border-bottom-color"@ && q == "border-block-end-color"@
            ||| p == "border-top-left-radius"@ && q == "border-start-start-radius"@
            ||| p == "border-top-right-radius"@ && q == "border-start-end-radius"@
            ||| p == "border-bottom-left-radius"@ && q == "border-end-start-radius"@
            ||| p == "border-bottom-right-radius"@ && q == "border-end-end-radius"@
        },
        spec_logical_equivalent(p) is Some <==> {
            ||| p == "margin-left"@
            ||| p == "margin-right"@
            ||| p == "margin-top"@
            ||| p == "margin-bottom"@
            ||| p == "padding-left"@
            ||| p == "padding-right"@
            ||| p == "padding-top"@
            ||| p == "padding-bottom"@
            ||| p == "left"@
            ||| p == "right"@
            ||| p == "top"@
            ||| p == "bottom"@
            ||| p == "width"@
            ||| p == "min-width"@
            ||| p == "max-width"@
            ||| p == "height"@
            ||| p == "min-height"@
            ||| p == "max-height"@
            ||| p == "border-left"@
            ||| p == "border-right"@
            ||| p == "border-top"@
            ||| p == "border-bottom"@
            ||| p == "border-left-width"@
            ||| p == "border-right-width"@
            ||| p == "border-top-width"@
            ||| p == "border-bottom-width"@
            ||| p == "border-left-style"@
            ||| p == "border-right-style"@
            ||| p == "border-top-style"@
            ||| p == "border-bottom-style"@
            ||| p == "border-left-color"@
            ||| p == "border-right-color"@
            ||| p == "border-top-color"@
            ||| p == "border-bottom-color"@
            ||| p == "border-top-left-radius"@
            ||| p == "border-top-right-radius"@
            ||| p == "border-bottom-left-radius"@
            ||| p == "border-bottom-right-radius"@
        },
{
    lemma_name_signatures();
}

/// Exactly the 12 margin, padding and inset sides pair up, each with the
/// opposite side, the documented shorthand and the axis of the pair.
pub proof fn lemma_pair_table(p: Seq<char>, pair_name: Seq<char>, shorthand_name: Seq<char>, is_inline: bool)
    ensures
        spec_pair_info(p) == Some(pair_spec(pair_name, shorthand_name, is_inline)) <==> {
            ||| p == "margin-left"@ && pair_name == "margin-right"@ && shorthand_name == "margin-inline"@ && is_inline == true
            ||| p == "margin-right"@ && pair_name == "margin-left"@ && shorthand_name == "margin-inline"@ && is_inline == true
            ||| p == "margin-top"@ && pair_name == "margin-bottom"@ && shorthand_name == "margin-block"@ && is_inline == false
            ||| p == "margin-bottom"@ && pair_name == "margin-top"@ && shorthand_name == "margin-block"@ && is_inline == false
            ||| p == "padding-left"@ && pair_name == "padding-right"@ && shorthand_name == "padding-inline"@ && is_inline == true
            ||| p == "padding-right"@ && pair_name == "padding-left"@ && shorthand_name == "padding-inline"@ && is_inline == true
            ||| p == "padding-top"@ && pair_name == "padding-bottom"@ && shorthand_name == "padding-block"@ && is_inline == false
            ||| p == "padding-bottom"@ && pair_name == "padding-top"@ && shorthand_name == "padding-block"@ && is_inline == false
            ||| p == "left"@ && pair_name == "right"@ && shorthand_name == "inset-inline"@ && is_inline == true
            ||| p == "right"@ && pair_name == "left"@ && shorthand_name == "inset-inline"@ && is_inline == true
            ||| p == "top"@ && pair_name == "bottom"@ && shorthand_name == "inset-block"@ && is_inline == false
            ||| p == "bottom"@ && pair_name == "top"@ && shorthand_name == "inset-block"@ && is_inline == false
        },
        spec_pair_info(p) is Some <==> {
            ||| p == "margin-left"@
            ||| p == "margin-right"@
            ||| p == "margin-top"@
            ||| p == "margin-bottom"@
            ||| p == "padding-left"@
            ||| p == "padding-right"@
            ||| p == "padding-top"@
            ||| p == "padding-bottom"@
            ||| p == "left"@
            ||| p == "right"@
            ||| p == "top"@
            ||| p == "bottom"@
        },
{
    lemma_name_signatures();
}

/// The signatures of the twelve paired property names.
proof fn lemma_pair_name_signatures()
    ensures
        name_signature("margin-left"@) == (11int, 'a', 'l', 't'),
        name_signature("margin-right"@) == (12int, 'a', 'r', 't'),
        name_signature("margin-top"@) == (10int, 'a', 't', 'p'),
        name_signature("margin-bottom"@) == (13int, 'a', 'b', 'm'),
        name_signature("padding-left"@) == (12int, 'a', '-', 't'),
        name_signature("padding-right"@) == (13int, 'a', '-', 't'),
        name_signature("padding-top"@) == (11int, 'a', '-', 'p'),
        name_signature("padding-bottom"@) == (14int, 'a', '-', 'm'),
        name_signature("left"@) == (4int, 'e', ' ', 't'),
        name_signature("right"@) == (5int, 'i', ' ', 't'),
        name_signature("top"@) == (3int, 'o', ' ', 'p'),
        name_signature("bottom"@) == (6int, 'o', ' ', 'm'),
{
    reveal_strlit("margin-left");
    reveal_strlit("margin-right");
    reveal_strlit("margin-top");
    reveal_strlit("margin-bottom");
    reveal_strlit("padding-left");
    reveal_strlit("padding-right");
    reveal_strlit("padding-top");
    reveal_strlit("padding-bottom");
    reveal_strlit("left");
    reveal_strlit("right");
    reveal_strlit("top");
    reveal_strlit("bottom");
}

/// In a shorthand the right value comes before the left one, and the top value
/// before the bottom one, whichever of the two triggered the fix.
pub proof fn lemma_shorthand_order_documented<T>(p: Seq<char>, value_of_p: T, value_of_pair: T)
    requires
        spec_pair_info(p) is Some,
    ensures
        ordered_values(value_of_p, value_of_pair, p, spec_pair_info(p).unwrap().is_inline) == if {
            ||| p == "margin-right"@
            ||| p == "padding-right"@
            ||| p == "right"@
            ||| p == "margin-top"@
            ||| p == "padding-top"@
            ||| p == "top"@
        } {
            (value_of_p, value_of_pair)
        } else {
            (value_of_pair, value_of_p)
        },
{
    lemma_pair_name_signatures();
    lemma_side_words();
}

/// A declaration is reported exactly when its lower-case name has a logical
/// equivalent, and the finding records that name, that equivalent and the
/// pairing of that name.
pub proof fn lemma_analysis_follows_tables(name: Seq<char>)
    ensures
        spec_analyze(name) is Some <==> spec_logical_equivalent(ascii_lowercase_of(name)) is Some,
        spec_analyze(name) matches Some(finding) ==> {
            &&& finding.property_name == ascii_lowercase_of(name)
            &&& Some(finding.logical_equivalent) == spec_logical_equivalent(ascii_lowercase_of(name))
            &&& finding.paired_property == spec_pair_info(ascii_lowercase_of(name))
        },
{
}

/// When the block declares the partner of a paired property, the fix merges
/// the two into their shorthand, with the partner found at or before any
/// given declaration of it.
pub proof fn lemma_declared_partner_is_merged(
    name: Seq<char>,
    items: Seq<Option<Seq<char>>>,
    partner_index: int,
)
    requires
        spec_logical_equivalent(ascii_lowercase_of(name)) is Some,
        spec_pair_info(ascii_lowercase_of(name)) is Some,
        0 <= partner_index < items.len(),
        items[partner_index] matches Some(partner) && ascii_lowercase_of(partner)
            == spec_pair_info(ascii_lowercase_of(name)).unwrap().pair_name,
    ensures
        spec_analyze(name) is Some,
        ({
            let pair = spec_pair_info(ascii_lowercase_of(name)).unwrap();
            match spec_plan(spec_analyze(name).unwrap(), items) {
                ActionModel::CombineIntoShorthand { paired_index, shorthand_name, is_inline } => {
                    &&& paired_index <= partner_index
                    &&& shorthand_name == pair.shorthand_name
                    &&& is_inline == pair.is_inline
                    &&& match items[paired_index] {
                        Some(found) => ascii_lowercase_of(found) == pair.pair_name,
                        None => false,
                    }
                },
                ActionModel::ReplaceName { .. } => false,
            }
        }),
{
    let pair = spec_pair_info(ascii_lowercase_of(name)).unwrap();
    lemma_first_declaring_characterized(items, pair.pair_name);
    assert(item_declares(items[partner_index], pair.pair_name));
}

/// When the property has no partner, or the block declares none, the fix
/// renames the property to its logical equivalent.
pub proof fn lemma_undeclared_partner_renames(name: Seq<char>, items: Seq<Option<Seq<char>>>)
    requires
        spec_logical_equivalent(ascii_lowercase_of(name)) is Some,
        spec_pair_info(ascii_lowercase_of(name)) matches Some(pair) ==> forall|j: int|
            0 <= j < items.len() ==> (#[trigger] items[j] matches Some(n) ==> ascii_lowercase_of(n)
                != pair.pair_name),
    ensures
        spec_analyze(name) is Some,
        spec_plan(spec_analyze(name).unwrap(), items) == (ActionModel::ReplaceName {
            new_name: spec_logical_equivalent(ascii_lowercase_of(name)).unwrap(),
        }),
{
    if let Some(pair) = spec_pair_info(ascii_lowercase_of(name)) {
        lemma_first_declaring_characterized(items, pair.pair_name);
        if let Some(i) = spec_first_declaring(items, pair.pair_name) {
            assert(items[i] matches Some(n) ==> ascii_lowercase_of(n) != pair.pair_name);
        }
    }
}

/// An item declares a property exactly when its name, with its ASCII case
/// folded, is that property.
pub proof fn lemma_item_declares_by_folded_name(item: Option<Seq<char>>, target: Seq<char>)
    ensures
        item_declares(item, target) <==> (item matches Some(name) && ascii_lowercase_of(name)
            == target),
{
}

/// ASCII case folding keeps the length, adds 32 to the code of each ASCII
/// upper-case letter and keeps every other character.
pub proof fn lemma_ascii_lowercase_characterized(s: Seq<char>)
    ensures
        ascii_lowercase_of(s).len() == s.len(),
        forall|i: int|
            0 <= i < s.len() ==> {
                &&& ('A' <= s[i] && s[i] <= 'Z') ==> #[trigger] ascii_lowercase_of(s)[i] as u32
                    == s[i] as u32 + 32
                &&& !('A' <= s[i] && s[i] <= 'Z') ==> ascii_lowercase_of(s)[i] == s[i]
            },
{
}

} // verus!
