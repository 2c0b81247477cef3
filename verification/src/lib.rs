//! The decision logic of a CSS lint rule that asks for logical properties
//! (`margin-inline-start`, `inline-size`, ...) in place of physical ones
//! (`margin-left`, `width`, ...), and that merges a pair of physical
//! declarations into one logical shorthand.
//!
//! - `properties`: the tables of logical equivalents and of pairs;
//! - `state`: the finding on one declaration and the fix it calls for;
//! - `shorthand`: the value list of a merged shorthand;
//! - `text`: case folding and the string operations the rule uses;
//! - `laws`: what holds of the tables and of every finding.
pub mod laws;
pub mod properties;
pub mod shorthand;
pub mod state;
pub mod text;

pub use properties::{get_logical_equivalent, get_pair_info, PairedPropertyInfo};
pub use shorthand::{combine_value_elements, order_shorthand_values};
pub use state::{find_paired_property, ActionPlan, UseLogicalPropertiesState};
