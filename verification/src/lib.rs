//! Field model and cell-filtering logic for a tabular ("grid") view.
//!
//! The heart of the crate is the filter evaluation engine: given a decoded
//! cell value and a per-field-type filter (condition plus operands), it
//! decides whether the cell's row stays visible. Every decision function is
//! a pure, total function of its inputs, with its behaviour pinned down by
//! `ensures` clauses over spec-level models.

pub mod cell;
pub mod checkbox_filter;
pub mod date_filter;
pub mod evaluator;
pub mod field;
pub mod number_filter;
pub mod params;
pub mod parse;
pub mod select_filter;
pub mod text_filter;
