//! What the rule finds on one declaration, and what it proposes to do about it.
use vstd::prelude::*;
use crate::properties::{
    get_logical_equivalent, get_pair_info, pair_option_view, spec_logical_equivalent,
    spec_pair_info, PairSpec, PairedPropertyInfo,
};
use crate::text::{ascii_lowercase_of, lemma_ascii_lowercase_idempotent, str_eq, to_ascii_lowercase};

verus! {

/// The model of a finding: the lower-case name of the physical property, its
/// logical equivalent, and its pairing, if it has one.
pub struct StateModel {
    pub property_name: Seq<char>,
    pub logical_equivalent: Seq<char>,
    pub paired_property: Option<PairSpec>,
}

/// What the rule finds on a declaration whose property is written `name`:
/// nothing when the name, with its ASCII case folded, is not a physical
/// property the rule knows.
pub open spec fn spec_analyze(name: Seq<char>) -> Option<StateModel> {
    let property_name = ascii_lowercase_of(name);
    match spec_logical_equivalent(property_name) {
        Some(logical_equivalent) => Some(
            StateModel {
                property_name,
                logical_equivalent,
                paired_property: spec_pair_info(property_name),
            },
        ),
        None => None,
    }
}

/// A physical property found by the rule.
#[derive(Debug)]
pub struct UseLogicalPropertiesState {
    property_name: String,
    logical_equivalent: String,
    paired_property: Option<PairedPropertyInfo>,
}

impl UseLogicalPropertiesState {
    /// A finding is what the analysis of its own (lower-case) property name gives.
    #[verifier::type_invariant]
    spec fn consistent(self) -> bool {
        spec_analyze(self.property_name@) == Some(self@)
    }
}

impl View for UseLogicalPropertiesState {
    type V = StateModel;

    closed spec fn view(&self) -> StateModel {
        StateModel {
            property_name: self.property_name@,
            logical_equivalent: self.logical_equivalent@,
            paired_property: pair_option_view(self.paired_property),
        }
    }
}

/// The view of an optional finding.
pub open spec fn state_option_view(o: Option<UseLogicalPropertiesState>) -> Option<StateModel> {
    match o {
        Some(state) => Some(state@),
        None => None,
    }
}

/// The names of the declarations of a block, as the rule sees them: the
/// property name of each declaration, or `None` for an item that is not a
/// plain property declaration.
pub open spec fn item_names_view(items: Seq<Option<String>>) -> Seq<Option<Seq<char>>> {
    items.map_values(|item: Option<String>|
        match item {
            Some(name) => Some(name@),
            None => None,
        }
    )
}

/// The item declares the property `target` (its name compared with its ASCII
/// case folded).
pub open spec fn item_declares(item: Option<Seq<char>>, target: Seq<char>) -> bool {
    match item {
        Some(name) => ascii_lowercase_of(name) == target,
        None => false,
    }
}

/// The first position, from `start` on, of an item that declares `target`.
pub open spec fn spec_find_from(items: Seq<Option<Seq<char>>>, target: Seq<char>, start: int) -> Option<int>
    decreases items.len() - start,
{
    if start < 0 || start >= items.len() {
        None
    } else if item_declares(items[start], target) {
        Some(start)
    } else {
        spec_find_from(items, target, start + 1)
    }
}

/// The first position of an item that declares `target`.
pub open spec fn spec_first_declaring(items: Seq<Option<Seq<char>>>, target: Seq<char>) -> Option<int> {
    spec_find_from(items, target, 0)
}

/// The first declaring position is the first position whose item declares
/// `target`; there is none when no item declares it.
pub proof fn lemma_first_declaring_characterized(items: Seq<Option<Seq<char>>>, target: Seq<char>)
    ensures
        match spec_first_declaring(items, target) {
            Some(i) => {
                &&& 0 <= i < items.len()
                &&& item_declares(items[i], target)
                &&& forall|j: int| 0 <= j < i ==> !item_declares(#[trigger] items[j], target)
            },
            None => forall|j: int| 0 <= j < items.len() ==> !item_declares(#[trigger] items[j], target),
        },
{
    lemma_find_from_characterized(items, target, 0);
}

proof fn lemma_find_from_characterized(items: Seq<Option<Seq<char>>>, target: Seq<char>, start: int)
    requires
        0 <= start,
    ensures
        match spec_find_from(items, target, start) {
            Some(i) => {
                &&& start <= i < items.len()
                &&& item_declares(items[i], target)
                &&& forall|j: int| start <= j < i ==> !item_declares(#[trigger] items[j], target)
            },
            None => forall|j: int| start <= j < items.len() ==> !item_declares(#[trigger] items[j], target),
        },
    decreases items.len() - start,
{
    if start < items.len() && !item_declares(items[start], target) {
        lemma_find_from_characterized(items, target, start + 1);
    }
}

/// The first position whose item declares `paired_property_name`.
fn first_declaring_position(items: &Vec<Option<String>>, paired_property_name: &str) -> (r: Option<usize>)
    ensures
        match r {
            Some(i) => spec_first_declaring(item_names_view(items@), paired_property_name@) == Some(i as int),
            None => spec_first_declaring(item_names_view(items@), paired_property_name@) is None,
        },
{
    let ghost names = item_names_view(items@);
    let mut i: usize = 0;
    while i < items.len()
        invariant
            i <= items@.len(),
            names == item_names_view(items@),
            spec_first_declaring(names, paired_property_name@) == spec_find_from(names, paired_property_name@, i as int),
        decreases items@.len() - i,
    {
        if let Some(name) = &items[i] {
            let lower = to_ascii_lowercase(name.as_str());
            if str_eq(lower.as_str(), paired_property_name) {
                return Some(i);
            }
        }
        i += 1;
    }
    None
}

/// Find the paired property in the same declaration block: the position of
/// the first item whose property name, with its ASCII case folded, is
/// `paired_property_name`.
pub fn find_paired_property(items: &Vec<Option<String>>, paired_property_name: &str) -> (r: Option<usize>)
    ensures
        match r {
            Some(i) => spec_first_declaring(item_names_view(items@), paired_property_name@) == Some(i as int),
            None => spec_first_declaring(item_names_view(items@), paired_property_name@) is None,
        },
        match r {
            Some(i) => {
                &&& i < items@.len()
                &&& items@[i as int] matches Some(name) && ascii_lowercase_of(name@) == paired_property_name@
                &&& forall|j: int| 0 <= j < i ==> match #[trigger] items@[j] {
                    Some(name) => ascii_lowercase_of(name@) != paired_property_name@,
                    None => true,
                }
            },
            None => forall|j: int| 0 <= j < items@.len() ==> match #[trigger] items@[j] {
                Some(name) => ascii_lowercase_of(name@) != paired_property_name@,
                None => true,
            },
        },
{
    let r = first_declaring_position(items, paired_property_name);
    proof {
        lemma_first_declaring_characterized(item_names_view(items@), paired_property_name@);
        assert forall|j: int| 0 <= j < items@.len() implies (#[trigger] item_names_view(items@)[j]
            == match items@[j] {
                Some(name) => Some(name@),
                None => None::<Seq<char>>,
            }) by {}
        let names = item_names_view(items@);
        let target = paired_property_name@;
        assert forall|j: int| 0 <= j < items@.len() implies (match #[trigger] items@[j] {
            Some(name) => ascii_lowercase_of(name@) == target,
            None => false,
        }) == item_declares(names[j], target) by {}
    }
    r
}

/// What the fix does to the declaration.
#[derive(Debug)]
pub enum ActionPlan {
    /// Merge the declaration with its partner, the item at `paired_index`,
    /// into one declaration of `shorthand_name`.
    CombineIntoShorthand { paired_index: usize, shorthand_name: String, is_inline: bool },
    /// Rename the property of the declaration to `new_name`.
    ReplaceName { new_name: String },
}

/// The model of a fix.
pub enum ActionModel {
    CombineIntoShorthand { paired_index: int, shorthand_name: Seq<char>, is_inline: bool },
    ReplaceName { new_name: Seq<char> },
}

impl View for ActionPlan {
    type V = ActionModel;

    open spec fn view(&self) -> ActionModel {
        match self {
            ActionPlan::CombineIntoShorthand { paired_index, shorthand_name, is_inline } => {
                ActionModel::CombineIntoShorthand {
                    paired_index: *paired_index as int,
                    shorthand_name: shorthand_name@,
                    is_inline: *is_inline,
                }
            },
            ActionPlan::ReplaceName { new_name } => ActionModel::ReplaceName { new_name: new_name@ },
        }
    }
}

/// The fix for a finding, given the items of its declaration block: merge with
/// the partner when the block declares it, rename otherwise.
pub open spec fn spec_plan(state: StateModel, items: Seq<Option<Seq<char>>>) -> ActionModel {
    match state.paired_property {
        Some(pair) => match spec_first_declaring(items, pair.pair_name) {
            Some(i) => ActionModel::CombineIntoShorthand {
                paired_index: i,
                shorthand_name: pair.shorthand_name,
                is_inline: pair.is_inline,
            },
            None => ActionModel::ReplaceName { new_name: state.logical_equivalent },
        },
        None => ActionModel::ReplaceName { new_name: state.logical_equivalent },
    }
}

impl UseLogicalPropertiesState {
    /// Examine a declaration whose property is written `name`.
    pub fn from_property_name(name: &str) -> (r: Option<Self>)
        ensures
            state_option_view(r) == spec_analyze(name@),
            r is Some <==> spec_logical_equivalent(ascii_lowercase_of(name@)) is Some,
            r matches Some(finding) ==> {
                &&& finding@.property_name == ascii_lowercase_of(name@)
                &&& Some(finding@.logical_equivalent) == spec_logical_equivalent(ascii_lowercase_of(name@))
                &&& finding@.paired_property == spec_pair_info(ascii_lowercase_of(name@))
            },
    {
        let property_name_lower = to_ascii_lowercase(name);
        proof {
            lemma_ascii_lowercase_idempotent(name@);
        }

        // Map physical properties to their logical equivalents
        let logical_equivalent = get_logical_equivalent(property_name_lower.as_str())?;

        // Check if this property has a pair that could be combined
        let paired_property = get_pair_info(property_name_lower.as_str());

        Some(UseLogicalPropertiesState {
            property_name: property_name_lower,
            logical_equivalent: logical_equivalent.to_owned(),
            paired_property,
        })
    }

    /// The lower-case name of the physical property.
    pub fn property_name(&self) -> (r: &str)
        ensures
            r@ == self@.property_name,
    {
        self.property_name.as_str()
    }

    /// The logical property to use instead.
    pub fn logical_equivalent(&self) -> (r: &str)
        ensures
            r@ == self@.logical_equivalent,
    {
        self.logical_equivalent.as_str()
    }

    /// The pairing of the physical property, if it has one.
    pub fn paired_property(&self) -> (r: Option<&PairedPropertyInfo>)
        ensures
            match r {
                Some(info) => self@.paired_property == Some(info@),
                None => self@.paired_property is None,
            },
    {
        match &self.paired_property {
            Some(info) => Some(info),
            None => None,
        }
    }

    /// Decide the fix, given the property names of the items of the
    /// declaration block (`None` for an item that is not a plain property
    /// declaration).
    pub fn plan_action(&self, items: &Vec<Option<String>>) -> (r: ActionPlan)
        ensures
            r@ == spec_plan(self@, item_names_view(items@)),
    {
        // Try to find the paired property if it exists
        if let Some(pair_info) = &self.paired_property {
            if let Some(paired_index) = find_paired_property(items, pair_info.pair_name()) {
                // Both properties exist - combine into shorthand
                return ActionPlan::CombineIntoShorthand {
                    paired_index,
                    shorthand_name: pair_info.shorthand_name().to_owned(),
                    is_inline: pair_info.is_inline(),
                };
            }
        }
        // No pair found - just replace with longhand
        ActionPlan::ReplaceName { new_name: self.logical_equivalent.clone() }
    }
}

} // verus!
