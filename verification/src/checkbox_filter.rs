//! Checkbox filters: a checkbox cell is shown either when checked or when
//! unchecked. Both conditions are operand-free, so a checkbox filter cannot
//! be unconfigured.

use vstd::prelude::*;

verus! {

/// The two states a checkbox filter can ask for, in append-only order.
#[derive(Clone, Copy, Debug, PartialEq, Eq, Structural, Hash)]
pub enum CheckboxFilterCondition {
    IsChecked,
    IsUnChecked,
}

/// A filter on a checkbox column.
#[derive(Clone, Copy, Debug)]
pub struct GridCheckboxFilter {
    pub condition: CheckboxFilterCondition,
}

/// Whether a checkbox cell's decoded state is visible under a checkbox
/// filter: `IsChecked` shows the checked cells, `IsUnChecked` the rest.
pub open spec fn checkbox_filter_visible(f: GridCheckboxFilter, checked: bool) -> bool {
    match f.condition {
        CheckboxFilterCondition::IsChecked => checked,
        CheckboxFilterCondition::IsUnChecked => !checked,
    }
}

impl GridCheckboxFilter {
    /// Decide whether a checkbox cell's decoded state stays visible under
    /// this filter.
    pub fn is_visible(&self, checked: bool) -> (visible: bool)
        ensures
            visible == checkbox_filter_visible(*self, checked),
    {
        match self.condition {
            CheckboxFilterCondition::IsChecked => checked,
            CheckboxFilterCondition::IsUnChecked => !checked,
        }
    }
}

} // verus!
