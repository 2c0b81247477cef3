//! The two tables of the rule: which physical properties have a logical
//! equivalent, and which physical properties come in pairs that a logical
//! shorthand can replace together.
use vstd::prelude::*;
use crate::text::str_eq;

verus! {

/// The logical property that replaces the physical property `p` (a lower-case
/// name), or `None` when `p` is not one of the physical properties the rule
/// knows.
pub open spec fn spec_logical_equivalent(p: Seq<char>) -> Option<Seq<char>> {
    if p == "margin-left"@ {
        Some("margin-inline-start"@)
    } else if p == "margin-right"@ {
        Some("margin-inline-end"@)
    } else if p == "margin-top"@ {
        Some("margin-block-start"@)
    } else if p == "margin-bottom"@ {
        Some("margin-block-end"@)
    } else if p == "padding-left"@ {
        Some("padding-inline-start"@)
    } else if p == "padding-right"@ {
        Some("padding-inline-end"@)
    } else if p == "padding-top"@ {
        Some("padding-block-start"@)
    } else if p == "padding-bottom"@ {
        Some("padding-block-end"@)
    } else if p == "left"@ {
        Some("inset-inline-start"@)
    } else if p == "right"@ {
        Some("inset-inline-end"@)
    } else if p == "top"@ {
        Some("inset-block-start"@)
    } else if p == "bottom"@ {
        Some("inset-block-end"@)
    } else if p == "width"@ {
        Some("inline-size"@)
    } else if p == "min-width"@ {
        Some("min-inline-size"@)
    } else if p == "max-width"@ {
        Some("max-inline-size"@)
    } else if p == "height"@ {
        Some("block-size"@)
    } else if p == "min-height"@ {
        Some("min-block-size"@)
    } else if p == "max-height"@ {
        Some("max-block-size"@)
    } else if p == "border-left"@ {
        Some("border-inline-start"@)
    } else if p == "border-right"@ {
        Some("border-inline-end"@)
    } else if p == "border-top"@ {
        Some("border-block-start"@)
    } else if p == "border-bottom"@ {
        Some("border-block-end"@)
    } else if p == "border-left-width"@ {
        Some("border-inline-start-width"@)
    } else if p == "border-right-width"@ {
        Some("border-inline-end-width"@)
    } else if p == "border-top-width"@ {
        Some("border-block-start-width"@)
    } else if p == "border-bottom-width"@ {
        Some("border-block-end-width"@)
    } else if p == "border-left-style"@ {
        Some("border-inline-start-style"@)
    } else if p == "border-right-style"@ {
        Some("border-inline-end-style"@)
    } else if p == "border-top-style"@ {
        Some("border-block-start-style"@)
    } else if p == "border-bottom-style"@ {
        Some("border-block-end-style"@)
    } else if p == "border-left-color"@ {
        Some("border-inline-start-color"@)
    } else if p == "border-right-color"@ {
        Some("border-inline-end-color"@)
    } else if p == "border-top-color"@ {
        Some("border-block-start-color"@)
    } else if p == "border-bottom-color"@ {
        Some("border-block-end-color"@)
    } else if p == "border-top-left-radius"@ {
        Some("border-start-start-radius"@)
    } else if p == "border-top-right-radius"@ {
        Some("border-start-end-radius"@)
    } else if p == "border-bottom-left-radius"@ {
        Some("border-end-start-radius"@)
    } else if p == "border-bottom-right-radius"@ {
        Some("border-end-end-radius"@)
    } else {
        None
    }
}

/// What a pair of physical properties shares: the other member of the pair,
/// the logical shorthand that sets both, and whether the pair runs along the
/// inline axis (left/right) rather than the block axis (top/bottom).
pub struct PairSpec {
    pub pair_name: Seq<char>,
    pub shorthand_name: Seq<char>,
    pub is_inline: bool,
}

pub open spec fn pair_spec(pair_name: Seq<char>, shorthand_name: Seq<char>, is_inline: bool) -> PairSpec {
    PairSpec { pair_name, shorthand_name, is_inline }
}

/// The pairing of the physical property `p` (a lower-case name), or `None`
/// when `p` has no partner that a shorthand could merge it with.
pub open spec fn spec_pair_info(p: Seq<char>) -> Option<PairSpec> {
    if p == "margin-left"@ {
        Some(pair_spec("margin-right"@, "margin-inline"@, true))
    } else if p == "margin-right"@ {
        Some(pair_spec("margin-left"@, "margin-inline"@, true))
    } else if p == "margin-top"@ {
        Some(pair_spec("margin-bottom"@, "margin-block"@, false))
    } else if p == "margin-bottom"@ {
        Some(pair_spec("margin-top"@, "margin-block"@, false))
    } else if p == "padding-left"@ {
        Some(pair_spec("padding-right"@, "padding-inline"@, true))
    } else if p == "padding-right"@ {
        Some(pair_spec("padding-left"@, "padding-inline"@, true))
    } else if p == "padding-top"@ {
        Some(pair_spec("padding-bottom"@, "padding-block"@, false))
    } else if p == "padding-bottom"@ {
        Some(pair_spec("padding-top"@, "padding-block"@, false))
    } else if p == "left"@ {
        Some(pair_spec("right"@, "inset-inline"@, true))
    } else if p == "right"@ {
        Some(pair_spec("left"@, "inset-inline"@, true))
    } else if p == "top"@ {
        Some(pair_spec("bottom"@, "inset-block"@, false))
    } else if p == "bottom"@ {
        Some(pair_spec("top"@, "inset-block"@, false))
    } else {
        None
    }
}

/// The pairing of a physical property: the name of the other property of the
/// pair, the logical shorthand that replaces both, and the axis of the pair.
#[derive(Debug)]
pub struct PairedPropertyInfo {
    pair_name: String,
    shorthand_name: String,
    is_inline: bool,
}

impl View for PairedPropertyInfo {
    type V = PairSpec;

    closed spec fn view(&self) -> PairSpec {
        PairSpec {
            pair_name: self.pair_name@,
            shorthand_name: self.shorthand_name@,
            is_inline: self.is_inline,
        }
    }
}

impl PairedPropertyInfo {
    /// The other property of the pair.
    pub fn pair_name(&self) -> (r: &str)
        ensures
            r@ == self@.pair_name,
    {
        self.pair_name.as_str()
    }

    /// The logical shorthand that sets both properties of the pair.
    pub fn shorthand_name(&self) -> (r: &str)
        ensures
            r@ == self@.shorthand_name,
    {
        self.shorthand_name.as_str()
    }

    /// `true` for a left/right pair, `false` for a top/bottom pair.
    pub fn is_inline(&self) -> (r: bool)
        ensures
            r == self@.is_inline,
    {
        self.is_inline
    }
}

/// The view of an optional pairing.
pub open spec fn pair_option_view(o: Option<PairedPropertyInfo>) -> Option<PairSpec> {
    match o {
        Some(info) => Some(info@),
        None => None,
    }
}

/// The view of an optional string slice.
pub open spec fn str_option_view(o: Option<&str>) -> Option<Seq<char>> {
    match o {
        Some(s) => Some(s@),
        None => None,
    }
}

/// Get the logical equivalent for a physical property.
///
/// `property` is compared as it is; callers fold its case first.
pub fn get_logical_equivalent(property: &str) -> (r: Option<&'static str>)
    ensures
        str_option_view(r) == spec_logical_equivalent(property@),
{
    // Margin properties
    if str_eq(property, "margin-left") {
        return Some("margin-inline-start");
    }
    if str_eq(property, "margin-right") {
        return Some("margin-inline-end");
    }
    if str_eq(property, "margin-top") {
        return Some("margin-block-start");
    }
    if str_eq(property, "margin-bottom") {
        return Some("margin-block-end");
    }
    // Padding properties
    if str_eq(property, "padding-left") {
        return Some("padding-inline-start");
    }
    if str_eq(property, "padding-right") {
        return Some("padding-inline-end");
    }
    if str_eq(property, "padding-top") {
        return Some("padding-block-start");
    }
    if str_eq(property, "padding-bottom") {
        return Some("padding-block-end");
    }
    // Inset properties
    if str_eq(property, "left") {
        return Some("inset-inline-start");
    }
    if str_eq(property, "right") {
        return Some("inset-inline-end");
    }
    if str_eq(property, "top") {
        return Some("inset-block-start");
    }
    if str_eq(property, "bottom") {
        return Some("inset-block-end");
    }
    // Size properties
    if str_eq(property, "width") {
        return Some("inline-size");
    }
    if str_eq(property, "min-width") {
        return Some("min-inline-size");
    }
    if str_eq(property, "max-width") {
        return Some("max-inline-size");
    }
    if str_eq(property, "height") {
        return Some("block-size");
    }
    if str_eq(property, "min-height") {
        return Some("min-block-size");
    }
    if str_eq(property, "max-height") {
        return Some("max-block-size");
    }
    // Border properties
    if str_eq(property, "border-left") {
        return Some("border-inline-start");
    }
    if str_eq(property, "border-right") {
        return Some("border-inline-end");
    }
    if str_eq(property, "border-top") {
        return Some("border-block-start");
    }
    if str_eq(property, "border-bottom") {
        return Some("border-block-end");
    }
    // Border width
    if str_eq(property, "border-left-width") {
        return Some("border-inline-start-width");
    }
    if str_eq(property, "border-right-width") {
        return Some("border-inline-end-width");
    }
    if str_eq(property, "border-top-width") {
        return Some("border-block-start-width");
    }
    if str_eq(property, "border-bottom-width") {
        return Some("border-block-end-width");
    }
    // Border style
    if str_eq(property, "border-left-style") {
        return Some("border-inline-start-style");
    }
    if str_eq(property, "border-right-style") {
        return Some("border-inline-end-style");
    }
    if str_eq(property, "border-top-style") {
        return Some("border-block-start-style");
    }
    if str_eq(property, "border-bottom-style") {
        return Some("border-block-end-style");
    }
    // Border color
    if str_eq(property, "border-left-color") {
        return Some("border-inline-start-color");
    }
    if str_eq(property, "border-right-color") {
        return Some("border-inline-end-color");
    }
    if str_eq(property, "border-top-color") {
        return Some("border-block-start-color");
    }
    if str_eq(property, "border-bottom-color") {
        return Some("border-block-end-color");
    }
    // Border radius
    if str_eq(property, "border-top-left-radius") {
        return Some("border-start-start-radius");
    }
    if str_eq(property, "border-top-right-radius") {
        return Some("border-start-end-radius");
    }
    if str_eq(property, "border-bottom-left-radius") {
        return Some("border-end-start-radius");
    }
    if str_eq(property, "border-bottom-right-radius") {
        return Some("border-end-end-radius");
    }
    None
}

/// Get pairing information for properties that can be combined into shorthands.
pub fn get_pair_info(property: &str) -> (r: Option<PairedPropertyInfo>)
    ensures
        pair_option_view(r) == spec_pair_info(property@),
{
    // Margin inline pairs
    if str_eq(property, "margin-left") || str_eq(property, "margin-right") {
        let pair_name = if str_eq(property, "margin-left") {
            "margin-right"
        } else {
            "margin-left"
        };
        return Some(PairedPropertyInfo {
            pair_name: pair_name.to_owned(),
            shorthand_name: "margin-inline".to_owned(),
            is_inline: true,
        });
    }
    // Margin block pairs
    if str_eq(property, "margin-top") || str_eq(property, "margin-bottom") {
        let pair_name = if str_eq(property, "margin-top") {
            "margin-bottom"
        } else {
            "margin-top"
        };
        return Some(PairedPropertyInfo {
            pair_name: pair_name.to_owned(),
            shorthand_name: "margin-block".to_owned(),
            is_inline: false,
        });
    }
    // Padding inline pairs
    if str_eq(property, "padding-left") || str_eq(property, "padding-right") {
        let pair_name = if str_eq(property, "padding-left") {
            "padding-right"
        } else {
            "padding-left"
        };
        return Some(PairedPropertyInfo {
            pair_name: pair_name.to_owned(),
            shorthand_name: "padding-inline".to_owned(),
            is_inline: true,
        });
    }
    // Padding block pairs
    if str_eq(property, "padding-top") || str_eq(property, "padding-bottom") {
        let pair_name = if str_eq(property, "padding-top") {
            "padding-bottom"
        } else {
            "padding-top"
        };
        return Some(PairedPropertyInfo {
            pair_name: pair_name.to_owned(),
            shorthand_name: "padding-block".to_owned(),
            is_inline: false,
        });
    }
    // Inset inline pairs
    if str_eq(property, "left") || str_eq(property, "right") {
        let pair_name = if str_eq(property, "left") {
            "right"
        } else {
            "left"
        };
        return Some(PairedPropertyInfo {
            pair_name: pair_name.to_owned(),
            shorthand_name: "inset-inline".to_owned(),
            is_inline: true,
        });
    }
    // Inset block pairs
    if str_eq(property, "top") || str_eq(property, "bottom") {
        let pair_name = if str_eq(property, "top") {
            "bottom"
        } else {
            "top"
        };
        return Some(PairedPropertyInfo {
            pair_name: pair_name.to_owned(),
            shorthand_name: "inset-block".to_owned(),
            is_inline: false,
        });
    }
    None
}

} // verus!
