//! Cell decoding: an opaque stored cell payload is interpreted under the
//! owning field's declared type. Decoding is total: malformed data never
//! fails, it degrades to the type's "empty" value, because one bad cell must
//! not abort a filtering pass over a whole grid.

use vstd::prelude::*;

use crate::field::FieldType;
use crate::parse::{spec_parse_i64, parse_i64};
use vstd::string::StringExecFns;

verus! {

/// A stored cell payload together with the declared type of its field: the
/// raw material the decoder works on.
#[derive(Clone, Debug)]
pub struct AnyCellData {
    pub data: String,
    pub field_type: FieldType,
}

impl AnyCellData {
    pub fn is_date(&self) -> (r: bool)
        ensures
            r == (self.field_type == FieldType::DateTime),
    {
        self.field_type.is_date()
    }

    pub fn is_number(&self) -> (r: bool)
        ensures
            r == (self.field_type == FieldType::Number),
    {
        self.field_type.is_number()
    }

    pub fn is_checkbox(&self) -> (r: bool)
        ensures
            r == (self.field_type == FieldType::Checkbox),
    {
        self.field_type.is_checkbox()
    }

    pub fn is_select_option(&self) -> (r: bool)
        ensures
            r == (self.field_type == FieldType::MultiSelect || self.field_type
                == FieldType::SingleSelect),
    {
        self.field_type.is_select_option()
    }

    pub fn is_text(&self) -> (r: bool)
        ensures
            r == (self.field_type == FieldType::RichText || self.field_type == FieldType::URL),
    {
        self.field_type.is_text() || self.field_type.is_url()
    }
}

/// A decoded cell value, one variant per semantic kind of field. Each
/// variant's "empty" form is what decode failures degrade to.
#[derive(Clone, Debug)]
pub enum DecodedCellValue {
    /// A date cell: epoch seconds at day granularity, `0` when no date is set
    /// or the payload is unreadable.
    Timestamp(i64),
    /// A number cell: `None` when the payload is not a readable integer.
    Number(Option<i64>),
    /// A single- or multi-select cell: the selected option ids, in stored
    /// order.
    Options(Vec<String>),
    /// A checkbox cell: unreadable payloads decode to unchecked.
    Checkbox(bool),
    /// A text or URL cell: the payload as it stands.
    Text(String),
}

/// The mathematical shape of a decoded cell value.
pub enum DecodedValueView {
    Timestamp(i64),
    Number(Option<i64>),
    Options(Seq<Seq<char>>),
    Checkbox(bool),
    Text(Seq<char>),
}

impl View for DecodedCellValue {
    type V = DecodedValueView;

    open spec fn view(&self) -> DecodedValueView {
        match self {
            DecodedCellValue::Timestamp(ts) => DecodedValueView::Timestamp(*ts),
            DecodedCellValue::Number(n) => DecodedValueView::Number(*n),
            DecodedCellValue::Options(ids) => DecodedValueView::Options(ids.deep_view()),
            DecodedCellValue::Checkbox(b) => DecodedValueView::Checkbox(*b),
            DecodedCellValue::Text(s) => DecodedValueView::Text(s@),
        }
    }
}

/// The timestamp a date cell's payload denotes: a decimal integer, with `0`,
/// the "no date set" sentinel, for anything unreadable.
pub open spec fn spec_timestamp_of(s: Seq<char>) -> i64 {
    match spec_parse_i64(s) {
        Some(v) => v,
        None => 0,
    }
}

/// What a checkbox cell's payload means: only the payloads `"1"` and `"true"`
/// stand for a checked box; everything else degrades to unchecked.
pub open spec fn spec_checkbox_of(s: Seq<char>) -> bool {
    s == "1"@ || s == "true"@
}

/// The option ids a select cell's payload denotes: comma-separated segments,
/// in stored order; the empty payload denotes no selection.
pub open spec fn spec_option_ids(s: Seq<char>) -> Seq<Seq<char>> {
    if s.len() == 0 {
        Seq::empty()
    } else {
        split_at_commas(s)
    }
}

/// The segments of `s` between commas, in order. A sequence without commas is
/// one segment; each comma ends the segment before it.
pub open spec fn split_at_commas(s: Seq<char>) -> Seq<Seq<char>>
    decreases s.len(),
{
    if s.len() == 0 {
        seq![Seq::<char>::empty()]
    } else {
        let p = split_at_commas(s.drop_last());
        if s.last() == ',' {
            p.push(Seq::<char>::empty())
        } else {
            p.update(p.len() - 1, p.last().push(s.last()))
        }
    }
}

/// Splitting always yields at least one segment.
pub proof fn lemma_split_at_commas_nonempty(s: Seq<char>)
    ensures
        split_at_commas(s).len() >= 1,
    decreases s.len(),
{
    if s.len() > 0 {
        lemma_split_at_commas_nonempty(s.drop_last());
    }
}

/// What decoding a payload under each field type yields.
pub open spec fn spec_decode(ft: FieldType, s: Seq<char>) -> DecodedValueView {
    match ft {
        FieldType::DateTime => DecodedValueView::Timestamp(spec_timestamp_of(s)),
        FieldType::Number => DecodedValueView::Number(spec_parse_i64(s)),
        FieldType::SingleSelect => DecodedValueView::Options(spec_option_ids(s)),
        FieldType::MultiSelect => DecodedValueView::Options(spec_option_ids(s)),
        FieldType::Checkbox => DecodedValueView::Checkbox(spec_checkbox_of(s)),
        FieldType::RichText => DecodedValueView::Text(s),
        FieldType::URL => DecodedValueView::Text(s),
    }
}

/// Split a select cell's payload into option ids at commas; the empty payload
/// yields no ids.
#[verifier::loop_isolation(false)]
pub fn split_option_ids(s: &str) -> (ids: Vec<String>)
    ensures
        ids.deep_view() == spec_option_ids(s@),
{
    let n = s.unicode_len();
    let mut ids: Vec<String> = Vec::new();
    if n == 0 {
        proof {
            assert(ids.deep_view() =~= spec_option_ids(s@));
        }
        return ids;
    }
    let mut cur = String::new();
    let mut i: usize = 0;
    while i < n
        invariant
            0 <= i <= n,
            ids.deep_view().push(cur@) =~= split_at_commas(s@.subrange(0, i as int)),
        decreases n - i,
    {
        let c = s.get_char(i);
        proof {
            let pre = s@.subrange(0, i as int);
            let post = s@.subrange(0, i as int + 1);
            assert(post.drop_last() =~= pre);
            assert(post.last() == s@[i as int]);
            lemma_split_at_commas_nonempty(pre);
            if c != ',' {
                let p = split_at_commas(pre);
                assert(p == ids.deep_view().push(cur@));
                assert(p.last() == cur@);
                assert(p.update(p.len() - 1, p.last().push(c)) =~= ids.deep_view().push(
                    cur@.push(c),
                ));
            }
        }
        if c == ',' {
            ids.push(cur);
            cur = String::new();
        } else {
            let piece = s.substring_char(i, i + 1);
            proof {
                assert(piece@ =~= seq![s@[i as int]]);
                assert(cur@ + piece@ =~= cur@.push(c));
            }
            cur.append(piece);
        }
        i += 1;
    }
    proof {
        assert(s@.subrange(0, n as int) =~= s@);
    }
    ids.push(cur);
    ids
}

/// Decode a stored cell under its field's declared type. Total by design:
/// every payload decodes, with failures degrading to the type's empty value.
pub fn decode_cell(cell: &AnyCellData) -> (v: DecodedCellValue)
    ensures
        v@ == spec_decode(cell.field_type, cell.data@),
{
    match cell.field_type {
        FieldType::DateTime => {
            let ts = match parse_i64(cell.data.as_str()) {
                Some(t) => t,
                None => 0,
            };
            DecodedCellValue::Timestamp(ts)
        },
        FieldType::Number => DecodedCellValue::Number(parse_i64(cell.data.as_str())),
        FieldType::SingleSelect => DecodedCellValue::Options(
            split_option_ids(cell.data.as_str()),
        ),
        FieldType::MultiSelect => DecodedCellValue::Options(split_option_ids(cell.data.as_str())),
        FieldType::Checkbox => {
            let checked = cell.data == "1".to_owned() || cell.data == "true".to_owned();
            DecodedCellValue::Checkbox(checked)
        },
        FieldType::RichText => DecodedCellValue::Text(cell.data.clone()),
        FieldType::URL => DecodedCellValue::Text(cell.data.clone()),
    }
}

} // verus!
