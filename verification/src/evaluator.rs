//! The filter evaluator and aggregator: one visibility decision per decoded
//! cell value and filter, combined over a row's filters by logical AND.

use vstd::prelude::*;

use crate::cell::{decode_cell, spec_decode, AnyCellData, DecodedCellValue, DecodedValueView};
use crate::checkbox_filter::{checkbox_filter_visible, GridCheckboxFilter};
use crate::date_filter::{date_filter_visible, GridDateFilter};
use crate::number_filter::{number_filter_visible, GridNumberFilter};
use crate::select_filter::{select_filter_visible, GridSelectOptionFilter};
use crate::text_filter::{text_filter_visible, GridTextFilter};

verus! {

/// A filter of any field type: the tagged union the evaluator dispatches on.
#[derive(Clone, Debug)]
pub enum GridFilter {
    Date(GridDateFilter),
    Text(GridTextFilter),
    Number(GridNumberFilter),
    Checkbox(GridCheckboxFilter),
    SelectOption(GridSelectOptionFilter),
}

/// Whether a decoded cell value is visible under a filter.
///
/// Dispatch is by the filter's field type. When the decoded value's semantic
/// kind does not correspond to the filter's — the field's declared type
/// changed after the filter was made — the stale filter passes the cell
/// through as visible. That is deliberately the opposite of the
/// missing-operand rule: an unconfigured filter hides rows, a stale one must
/// not.
pub open spec fn cell_visible(v: DecodedValueView, f: GridFilter) -> bool {
    match f {
        GridFilter::Date(df) => match v {
            DecodedValueView::Timestamp(ts) => date_filter_visible(df, ts),
            _ => true,
        },
        GridFilter::Text(tf) => match v {
            DecodedValueView::Text(s) => text_filter_visible(tf, s),
            _ => true,
        },
        GridFilter::Number(nf) => match v {
            DecodedValueView::Number(n) => number_filter_visible(nf, n),
            _ => true,
        },
        GridFilter::Checkbox(cf) => match v {
            DecodedValueView::Checkbox(b) => checkbox_filter_visible(cf, b),
            _ => true,
        },
        GridFilter::SelectOption(sf) => match v {
            DecodedValueView::Options(ids) => select_filter_visible(sf, ids),
            _ => true,
        },
    }
}

/// Decide whether one decoded cell value stays visible under one filter.
pub fn is_cell_visible(value: &DecodedCellValue, filter: &GridFilter) -> (visible: bool)
    ensures
        visible == cell_visible(value@, *filter),
{
    match filter {
        GridFilter::Date(df) => match value {
            DecodedCellValue::Timestamp(ts) => df.is_visible(*ts),
            _ => true,
        },
        GridFilter::Text(tf) => match value {
            DecodedCellValue::Text(s) => tf.is_visible(s),
            _ => true,
        },
        GridFilter::Number(nf) => match value {
            DecodedCellValue::Number(n) => nf.is_visible(*n),
            _ => true,
        },
        GridFilter::Checkbox(cf) => match value {
            DecodedCellValue::Checkbox(b) => cf.is_visible(*b),
            _ => true,
        },
        GridFilter::SelectOption(sf) => match value {
            DecodedCellValue::Options(ids) => sf.is_visible(ids),
            _ => true,
        },
    }
}

/// Decide whether a stored cell stays visible under one filter: decode it
/// under its field's declared type, then judge the decoded value. A cell
/// whose declared type does not match the filter's kind passes through as
/// visible.
pub fn is_cell_data_visible(cell: &AnyCellData, filter: &GridFilter) -> (visible: bool)
    ensures
        visible == cell_visible(spec_decode(cell.field_type, cell.data@), *filter),
{
    let value = decode_cell(cell);
    is_cell_visible(&value, filter)
}

/// Whether a whole row is visible: every one of its filtered cells must be.
/// A row with no filtered cells is visible.
pub open spec fn row_visible(cells: Seq<(DecodedValueView, GridFilter)>) -> bool {
    forall|i: int| 0 <= i < cells.len() ==> cell_visible(#[trigger] cells[i].0, cells[i].1)
}

/// Decide whether a row stays visible: the conjunction of every per-cell
/// decision, true when the row has no filtered cells.
#[verifier::loop_isolation(false)]
pub fn is_row_visible(cells: &Vec<(DecodedCellValue, GridFilter)>) -> (visible: bool)
    ensures
        visible == row_visible(
            Seq::new(cells@.len(), |i: int| (cells@[i].0@, cells@[i].1)),
        ),
{
    let ghost model = Seq::new(cells@.len(), |i: int| (cells@[i].0@, cells@[i].1));
    let mut i: usize = 0;
    while i < cells.len()
        invariant
            0 <= i <= cells.len(),
            forall|j: int| 0 <= j < i ==> cell_visible(#[trigger] model[j].0, model[j].1),
        decreases cells.len() - i,
    {
        let pair = &cells[i];
        if !is_cell_visible(&pair.0, &pair.1) {
            proof {
                assert(model[i as int].0 == cells@[i as int].0@);
                assert(!cell_visible(model[i as int].0, model[i as int].1));
            }
            return false;
        }
        i += 1;
    }
    true
}

/// A stale filter passes the cell through: a date filter over a value that
/// did not decode as a date judges it visible, whatever the filter holds.
pub proof fn lemma_stale_filter_passes_through(v: DecodedValueView, f: GridDateFilter)
    requires
        !(v is Timestamp),
    ensures
        cell_visible(v, GridFilter::Date(f)),
{
}

/// Filter evaluation is idempotent: two evaluations of the same decoded
/// value under the same filter always agree.
pub proof fn lemma_evaluation_idempotent(v: DecodedValueView, f: GridFilter, r1: bool, r2: bool)
    requires
        r1 == cell_visible(v, f),
        r2 == cell_visible(v, f),
    ensures
        r1 == r2,
{
}

/// A row without filters is visible.
pub proof fn lemma_no_filters_row_visible(cells: Seq<(DecodedValueView, GridFilter)>)
    requires
        cells.len() == 0,
    ensures
        row_visible(cells),
{
}

} // verus!
