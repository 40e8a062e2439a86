//! Date filters: the conditions a date column's filter can carry, the
//! visibility decision for a cell timestamp, and the laws that decision obeys.

use vstd::prelude::*;

use crate::cell::{spec_timestamp_of, AnyCellData};
use crate::field::FieldType;
use crate::params::ErrorCode;
use crate::parse::parse_i64;

verus! {

/// The closed set of comparisons a date filter can ask for. The order is
/// append-only: each variant's position is a persisted contract.
#[derive(Clone, Copy, Debug, PartialEq, Eq, Structural, Hash)]
pub enum DateFilterCondition {
    DateIs,
    DateBefore,
    DateAfter,
    DateOnOrBefore,
    DateOnOrAfter,
    DateWithin,
    DateIsEmpty,
}

/// A filter on a date column. `start` and `end` are epoch-second timestamps
/// normalized to day granularity; which of them a condition needs is given
/// by [`date_filter_visible`].
#[derive(Clone, Debug)]
pub struct GridDateFilter {
    pub condition: DateFilterCondition,
    pub start: Option<i64>,
    pub end: Option<i64>,
}

/// Whether a cell timestamp `v` is visible under a date filter.
///
/// `DateIsEmpty` needs no operand: it holds exactly of the `0` sentinel that
/// stands for "no date set", whatever `start` and `end` hold. Every other
/// condition needs `start`; with `start` absent the filter is unconfigured
/// and fails closed (not visible). `DateWithin` additionally needs `end`,
/// and fails closed without it.
pub open spec fn date_filter_visible(f: GridDateFilter, v: i64) -> bool {
    if f.condition == DateFilterCondition::DateIsEmpty {
        v == 0
    } else {
        match f.start {
            Option::None => false,
            Option::Some(s) => match f.condition {
                DateFilterCondition::DateIs => v == s,
                DateFilterCondition::DateBefore => v < s,
                DateFilterCondition::DateAfter => v > s,
                DateFilterCondition::DateOnOrBefore => v <= s,
                DateFilterCondition::DateOnOrAfter => v >= s,
                DateFilterCondition::DateWithin => match f.end {
                    Option::Some(e) => s <= v && v <= e,
                    Option::None => false,
                },
                DateFilterCondition::DateIsEmpty => false,
            },
        }
    }
}

impl GridDateFilter {
    /// Decide whether a cell timestamp stays visible under this filter.
    /// The timestamp is assumed to carry no time-of-day component, only days.
    pub fn is_visible(&self, cell_timestamp: i64) -> (visible: bool)
        ensures
            visible == date_filter_visible(*self, cell_timestamp),
    {
        if self.condition == DateFilterCondition::DateIsEmpty {
            return cell_timestamp == 0;
        }
        let start_timestamp = match &self.start {
            Option::None => {
                return false;
            },
            Option::Some(s) => *s,
        };
        match self.condition {
            DateFilterCondition::DateIs => cell_timestamp == start_timestamp,
            DateFilterCondition::DateBefore => cell_timestamp < start_timestamp,
            DateFilterCondition::DateAfter => cell_timestamp > start_timestamp,
            DateFilterCondition::DateOnOrBefore => cell_timestamp <= start_timestamp,
            DateFilterCondition::DateOnOrAfter => cell_timestamp >= start_timestamp,
            DateFilterCondition::DateWithin => {
                match &self.end {
                    Option::Some(end_timestamp) => {
                        cell_timestamp >= start_timestamp && cell_timestamp <= *end_timestamp
                    },
                    Option::None => false,
                }
            },
            DateFilterCondition::DateIsEmpty => cell_timestamp == 0,
        }
    }
}

/// The configuration of a date column. Display details (date and time
/// formats) do not bear on filtering, so none are needed here; the type
/// selects the date interpretation of cells handed to its filter.
#[derive(Clone, Copy, Debug, Default)]
pub struct DateTypeOption {}

impl DateTypeOption {
    /// Apply a date filter to a stored cell. A cell whose field is not a date
    /// field passes through as visible: the filter is stale and must not hide
    /// rows. A date cell is decoded to its timestamp — `0` when absent or
    /// unreadable — and judged by the filter. Never fails.
    pub fn apply_filter(&self, any_cell_data: AnyCellData, filter: &GridDateFilter) -> (r: Result<
        bool,
        ErrorCode,
    >)
        ensures
            any_cell_data.field_type != FieldType::DateTime ==> r == Ok::<bool, ErrorCode>(true),
            any_cell_data.field_type == FieldType::DateTime ==> r == Ok::<bool, ErrorCode>(
                date_filter_visible(*filter, spec_timestamp_of(any_cell_data.data@)),
            ),
    {
        if !any_cell_data.is_date() {
            return Ok(true);
        }
        let timestamp = match parse_i64(any_cell_data.data.as_str()) {
            Option::Some(ts) => ts,
            Option::None => 0,
        };
        Ok(filter.is_visible(timestamp))
    }
}

/// A `DateIs` filter with a configured start shows exactly the cells whose
/// timestamp equals that start.
pub proof fn lemma_date_is_visible_iff_equal(s: i64, e: Option<i64>, v: i64)
    ensures
        date_filter_visible(
            GridDateFilter { condition: DateFilterCondition::DateIs, start: Some(s), end: e },
            v,
        ) <==> v == s,
{
}

/// A `DateBefore` filter with a configured start shows exactly the cells
/// whose timestamp is strictly earlier than that start.
pub proof fn lemma_date_before_visible_iff_less(s: i64, e: Option<i64>, v: i64)
    ensures
        date_filter_visible(
            GridDateFilter { condition: DateFilterCondition::DateBefore, start: Some(s), end: e },
            v,
        ) <==> v < s,
{
}

/// A `DateOnOrBefore` filter with a configured start shows exactly the cells
/// whose timestamp is no later than that start.
pub proof fn lemma_date_on_or_before_visible_iff_at_most(s: i64, e: Option<i64>, v: i64)
    ensures
        date_filter_visible(
            GridDateFilter {
                condition: DateFilterCondition::DateOnOrBefore,
                start: Some(s),
                end: e,
            },
            v,
        ) <==> v <= s,
{
}

/// A `DateOnOrAfter` filter with a configured start shows exactly the cells
/// whose timestamp is no earlier than that start.
pub proof fn lemma_date_on_or_after_visible_iff_at_least(s: i64, e: Option<i64>, v: i64)
    ensures
        date_filter_visible(
            GridDateFilter {
                condition: DateFilterCondition::DateOnOrAfter,
                start: Some(s),
                end: e,
            },
            v,
        ) <==> v >= s,
{
}

/// A `DateAfter` filter with a configured start shows exactly the cells whose
/// timestamp is strictly later than that start; in particular the `0` "no
/// date" sentinel stays hidden whenever the start is positive.
pub proof fn lemma_date_after_visible_iff_greater(s: i64, e: Option<i64>, v: i64)
    ensures
        date_filter_visible(
            GridDateFilter { condition: DateFilterCondition::DateAfter, start: Some(s), end: e },
            v,
        ) <==> v > s,
        s > 0 ==> !date_filter_visible(
            GridDateFilter { condition: DateFilterCondition::DateAfter, start: Some(s), end: e },
            0,
        ),
{
}

/// A `DateWithin` filter with both bounds shows exactly the cells whose
/// timestamp lies in the closed range; with `end` absent it shows nothing.
pub proof fn lemma_date_within_visible_iff_in_range(s: i64, e: i64, v: i64)
    ensures
        date_filter_visible(
            GridDateFilter {
                condition: DateFilterCondition::DateWithin,
                start: Some(s),
                end: Some(e),
            },
            v,
        ) <==> s <= v && v <= e,
        !date_filter_visible(
            GridDateFilter { condition: DateFilterCondition::DateWithin, start: Some(s), end: None },
            v,
        ),
{
}

/// A `DateIsEmpty` filter shows exactly the cells holding the `0` "no date"
/// sentinel, whatever `start` and `end` hold.
pub proof fn lemma_date_is_empty_visible_iff_zero(s: Option<i64>, e: Option<i64>, v: i64)
    ensures
        date_filter_visible(
            GridDateFilter { condition: DateFilterCondition::DateIsEmpty, start: s, end: e },
            v,
        ) <==> v == 0,
{
}

/// An unconfigured filter fails closed: with `start` absent, every condition
/// but `DateIsEmpty` hides every cell.
pub proof fn lemma_missing_start_fails_closed(c: DateFilterCondition, e: Option<i64>, v: i64)
    requires
        c != DateFilterCondition::DateIsEmpty,
    ensures
        !date_filter_visible(GridDateFilter { condition: c, start: None, end: e }, v),
{
}

/// Filter evaluation is deterministic: two evaluations of the same filter
/// over the same cell timestamp always agree.
pub proof fn lemma_date_filter_deterministic(f: GridDateFilter, v: i64, r1: bool, r2: bool)
    requires
        r1 == date_filter_visible(f, v),
        r2 == date_filter_visible(f, v),
    ensures
        r1 == r2,
{
}

} // verus!
