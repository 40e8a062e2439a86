//! Number filters: comparisons and emptiness over a number cell's decoded
//! value.

use vstd::prelude::*;

verus! {

/// The closed set of comparisons a number filter can ask for, in append-only
/// order.
#[derive(Clone, Copy, Debug, PartialEq, Eq, Structural, Hash)]
pub enum NumberFilterCondition {
    Equal,
    GreaterThan,
    LessThan,
    GreaterThanOrEqualTo,
    LessThanOrEqualTo,
    NumberIsEmpty,
}

/// A filter on a number column. `content` is the operand the comparison
/// conditions need; `NumberIsEmpty` needs none.
#[derive(Clone, Copy, Debug)]
pub struct GridNumberFilter {
    pub condition: NumberFilterCondition,
    pub content: Option<i64>,
}

/// Whether a number cell's decoded value is visible under a number filter.
/// `NumberIsEmpty` holds exactly of the empty (undecodable) cell. Every other
/// condition needs `content`, fails closed (not visible) without it, and an
/// empty cell satisfies no comparison.
pub open spec fn number_filter_visible(f: GridNumberFilter, v: Option<i64>) -> bool {
    if f.condition == NumberFilterCondition::NumberIsEmpty {
        v is None
    } else {
        match (f.content, v) {
            (Option::Some(c), Option::Some(x)) => match f.condition {
                NumberFilterCondition::Equal => x == c,
                NumberFilterCondition::GreaterThan => x > c,
                NumberFilterCondition::LessThan => x < c,
                NumberFilterCondition::GreaterThanOrEqualTo => x >= c,
                NumberFilterCondition::LessThanOrEqualTo => x <= c,
                NumberFilterCondition::NumberIsEmpty => false,
            },
            _ => false,
        }
    }
}

impl GridNumberFilter {
    /// Decide whether a number cell's decoded value stays visible under this
    /// filter.
    pub fn is_visible(&self, cell_value: Option<i64>) -> (visible: bool)
        ensures
            visible == number_filter_visible(*self, cell_value),
    {
        if self.condition == NumberFilterCondition::NumberIsEmpty {
            return cell_value.is_none();
        }
        let content = match self.content {
            Option::None => {
                return false;
            },
            Option::Some(c) => c,
        };
        let value = match cell_value {
            Option::None => {
                return false;
            },
            Option::Some(x) => x,
        };
        match self.condition {
            NumberFilterCondition::Equal => value == content,
            NumberFilterCondition::GreaterThan => value > content,
            NumberFilterCondition::LessThan => value < content,
            NumberFilterCondition::GreaterThanOrEqualTo => value >= content,
            NumberFilterCondition::LessThanOrEqualTo => value <= content,
            NumberFilterCondition::NumberIsEmpty => cell_value.is_none(),
        }
    }
}

/// An unconfigured number filter fails closed: with `content` absent, every
/// condition but `NumberIsEmpty` hides every cell.
pub proof fn lemma_number_missing_content_fails_closed(c: NumberFilterCondition, v: Option<i64>)
    requires
        c != NumberFilterCondition::NumberIsEmpty,
    ensures
        !number_filter_visible(GridNumberFilter { condition: c, content: None }, v),
{
}

} // verus!
