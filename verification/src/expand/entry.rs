//! The entry-point attribute: it keeps the function and exports the one
//! function that the host loader calls.

use super::item::{FnItem, ReturnType, ReturnTypeView};
use vstd::prelude::*;

verus! {

/// What the entry-point attribute puts beside the function: an exported
/// entry that takes the steps of `crate::plugin::entry_next`.
/// `reports_errors` tells whether the function returns a result; one that
/// returns nothing counts as having succeeded when it returns.
#[derive(Debug, Clone, PartialEq, Eq)]
pub struct PluginMainExpansion {
    pub function: FnItem,
    pub reports_errors: bool,
}

/// Whether a function with this return type can fail: one that returns
/// nothing cannot, any other is taken to return a result.
pub open spec fn can_fail(output: ReturnTypeView) -> bool {
    !(output is Default)
}

/// Expands the entry-point attribute on `func`, which is kept as written.
pub fn plugin_main(func: FnItem) -> (e: PluginMainExpansion)
    ensures
        e.function == func,
        e.reports_errors == can_fail(func.output.deep_view()),
{
    let reports_errors = match &func.output {
        ReturnType::Default => false,
        _ => true,
    };
    PluginMainExpansion { function: func, reports_errors }
}

} // verus!
