//! Field metadata: the closed set of column types and their presentation
//! defaults, plus the field records that the grid component exchanges with
//! field management.

use vstd::prelude::*;

verus! {

/// The persisted small-integer code of a [`FieldType`]. Codes are a wire and
/// storage contract: they are append-only and never renumbered.
pub type FieldTypeRevision = u8;

/// The closed set of column types a grid supports. New variants may only be
/// appended at the end of the list so that the persisted codes stay stable.
#[derive(Clone, Copy, Debug, PartialEq, Eq, Structural, Hash)]
pub enum FieldType {
    RichText,
    Number,
    DateTime,
    SingleSelect,
    MultiSelect,
    Checkbox,
    URL,
}

/// The persisted code of each field type, in append-only order.
pub open spec fn spec_type_rev(ft: FieldType) -> u8 {
    match ft {
        FieldType::RichText => 0,
        FieldType::Number => 1,
        FieldType::DateTime => 2,
        FieldType::SingleSelect => 3,
        FieldType::MultiSelect => 4,
        FieldType::Checkbox => 5,
        FieldType::URL => 6,
    }
}

/// The field type a persisted code stands for; unknown codes fall back to
/// rich text rather than failing, so that legacy data always decodes.
pub open spec fn spec_type_from_rev(rev: u8) -> FieldType {
    if rev == 0 {
        FieldType::RichText
    } else if rev == 1 {
        FieldType::Number
    } else if rev == 2 {
        FieldType::DateTime
    } else if rev == 3 {
        FieldType::SingleSelect
    } else if rev == 4 {
        FieldType::MultiSelect
    } else if rev == 5 {
        FieldType::Checkbox
    } else if rev == 6 {
        FieldType::URL
    } else {
        FieldType::RichText
    }
}

impl FieldType {
    /// The persisted small-integer code of this field type.
    pub fn type_rev(&self) -> (rev: FieldTypeRevision)
        ensures
            rev == spec_type_rev(*self),
    {
        match self {
            FieldType::RichText => 0,
            FieldType::Number => 1,
            FieldType::DateTime => 2,
            FieldType::SingleSelect => 3,
            FieldType::MultiSelect => 4,
            FieldType::Checkbox => 5,
            FieldType::URL => 6,
        }
    }

    /// The field type a persisted code stands for.
    pub fn from_type_rev(rev: FieldTypeRevision) -> (ft: FieldType)
        ensures
            ft == spec_type_from_rev(rev),
    {
        if rev == 1 {
            FieldType::Number
        } else if rev == 2 {
            FieldType::DateTime
        } else if rev == 3 {
            FieldType::SingleSelect
        } else if rev == 4 {
            FieldType::MultiSelect
        } else if rev == 5 {
            FieldType::Checkbox
        } else if rev == 6 {
            FieldType::URL
        } else {
            FieldType::RichText
        }
    }

    /// The persisted code of this field type, rendered as a decimal string.
    pub fn type_id(&self) -> (id: String)
        ensures
            id@ =~= seq![spec_type_id_char(*self)],
    {
        proof {
            reveal_strlit("0");
            reveal_strlit("1");
            reveal_strlit("2");
            reveal_strlit("3");
            reveal_strlit("4");
            reveal_strlit("5");
            reveal_strlit("6");
        }
        match self {
            FieldType::RichText => "0".to_owned(),
            FieldType::Number => "1".to_owned(),
            FieldType::DateTime => "2".to_owned(),
            FieldType::SingleSelect => "3".to_owned(),
            FieldType::MultiSelect => "4".to_owned(),
            FieldType::Checkbox => "5".to_owned(),
            FieldType::URL => "6".to_owned(),
        }
    }

    /// The default display width of a freshly created column of this type.
    /// Date columns are wider than every other kind.
    pub fn default_cell_width(&self) -> (w: i32)
        ensures
            w == spec_default_cell_width(*self),
            w > 0,
    {
        match self {
            FieldType::DateTime => 180,
            _ => 150,
        }
    }

    pub fn is_number(&self) -> (r: bool)
        ensures
            r == (*self == FieldType::Number),
    {
        *self == FieldType::Number
    }

    pub fn is_text(&self) -> (r: bool)
        ensures
            r == (*self == FieldType::RichText),
    {
        *self == FieldType::RichText
    }

    pub fn is_checkbox(&self) -> (r: bool)
        ensures
            r == (*self == FieldType::Checkbox),
    {
        *self == FieldType::Checkbox
    }

    pub fn is_date(&self) -> (r: bool)
        ensures
            r == (*self == FieldType::DateTime),
    {
        *self == FieldType::DateTime
    }

    pub fn is_single_select(&self) -> (r: bool)
        ensures
            r == (*self == FieldType::SingleSelect),
    {
        *self == FieldType::SingleSelect
    }

    pub fn is_multi_select(&self) -> (r: bool)
        ensures
            r == (*self == FieldType::MultiSelect),
    {
        *self == FieldType::MultiSelect
    }

    pub fn is_url(&self) -> (r: bool)
        ensures
            r == (*self == FieldType::URL),
    {
        *self == FieldType::URL
    }

    pub fn is_select_option(&self) -> (r: bool)
        ensures
            r == (*self == FieldType::MultiSelect || *self == FieldType::SingleSelect),
    {
        *self == FieldType::MultiSelect || *self == FieldType::SingleSelect
    }
}

impl Default for FieldType {
    /// A new column is a rich-text column until the user picks another type.
    fn default() -> (ft: Self)
        ensures
            ft == FieldType::RichText,
    {
        FieldType::RichText
    }
}

/// The digit character of a field type's single-digit persisted code.
pub open spec fn spec_type_id_char(ft: FieldType) -> char {
    match ft {
        FieldType::RichText => '0',
        FieldType::Number => '1',
        FieldType::DateTime => '2',
        FieldType::SingleSelect => '3',
        FieldType::MultiSelect => '4',
        FieldType::Checkbox => '5',
        FieldType::URL => '6',
    }
}

/// Default display width per field type: date columns get 180, all others 150.
pub open spec fn spec_default_cell_width(ft: FieldType) -> i32 {
    match ft {
        FieldType::DateTime => 180,
        _ => 150,
    }
}

/// Decoding a field type's code gives the field type back: the registry's
/// codes round-trip through persistence.
pub proof fn lemma_type_rev_roundtrip(ft: FieldType)
    ensures
        spec_type_from_rev(spec_type_rev(ft)) == ft,
{
}

/// A field record as persistence hands it over: the field type still carried
/// as its small-integer code.
#[derive(Clone, Debug)]
pub struct FieldRevision {
    pub id: String,
    pub name: String,
    pub desc: String,
    pub field_type_rev: FieldTypeRevision,
    pub frozen: bool,
    pub visibility: bool,
    pub width: i32,
    pub is_primary: bool,
}

/// One column of a grid. The id and the field type's code are immutable once
/// the field exists; name, description, width and visibility may change.
#[derive(Clone, Debug)]
pub struct Field {
    pub id: String,
    pub name: String,
    pub desc: String,
    pub field_type: FieldType,
    pub frozen: bool,
    pub visibility: bool,
    pub width: i32,
    pub is_primary: bool,
}

impl Field {
    /// Build a field from its persisted record, decoding the type code.
    pub fn from_field_rev(field_rev: FieldRevision) -> (f: Field)
        ensures
            f.id == field_rev.id,
            f.name == field_rev.name,
            f.desc == field_rev.desc,
            f.field_type == spec_type_from_rev(field_rev.field_type_rev),
            f.frozen == field_rev.frozen,
            f.visibility == field_rev.visibility,
            f.width == field_rev.width,
            f.is_primary == field_rev.is_primary,
    {
        Field {
            id: field_rev.id,
            name: field_rev.name,
            desc: field_rev.desc,
            field_type: FieldType::from_type_rev(field_rev.field_type_rev),
            frozen: field_rev.frozen,
            visibility: field_rev.visibility,
            width: field_rev.width,
            is_primary: field_rev.is_primary,
        }
    }
}

/// Names one field, for ordering and deletion lists.
#[derive(Clone, Debug)]
pub struct FieldOrder {
    pub field_id: String,
}

impl FieldOrder {
    /// The order entry naming the given field.
    pub fn from_field_id(field_id: String) -> (o: FieldOrder)
        ensures
            o.field_id == field_id,
    {
        FieldOrder { field_id }
    }
}

/// A field together with its position in the grid, as insertions report it.
#[derive(Clone, Debug)]
pub struct IndexField {
    pub field: Field,
    pub index: i32,
}

impl IndexField {
    /// Pair a persisted field record, decoded, with its position.
    pub fn from_field_rev(field_rev: FieldRevision, index: usize) -> (f: IndexField)
        requires
            index <= i32::MAX,
        ensures
            f.field.id == field_rev.id,
            f.field.field_type == spec_type_from_rev(field_rev.field_type_rev),
            f.index == index as i32,
    {
        IndexField { field: Field::from_field_rev(field_rev), index: index as i32 }
    }
}

/// The field-level changes of one grid: what was inserted, deleted and
/// updated, reported to view management in one message.
#[derive(Clone, Debug)]
pub struct GridFieldChangeset {
    pub grid_id: String,
    pub inserted_fields: Vec<IndexField>,
    pub deleted_fields: Vec<FieldOrder>,
    pub updated_fields: Vec<Field>,
}

impl GridFieldChangeset {
    /// A changeset that only inserts fields.
    pub fn insert(grid_id: String, inserted_fields: Vec<IndexField>) -> (c: GridFieldChangeset)
        ensures
            c.grid_id == grid_id,
            c.inserted_fields == inserted_fields,
            c.deleted_fields@.len() == 0,
            c.updated_fields@.len() == 0,
    {
        GridFieldChangeset {
            grid_id,
            inserted_fields,
            deleted_fields: Vec::new(),
            updated_fields: Vec::new(),
        }
    }

    /// A changeset that only deletes fields.
    pub fn delete(grid_id: String, deleted_fields: Vec<FieldOrder>) -> (c: GridFieldChangeset)
        ensures
            c.grid_id == grid_id,
            c.inserted_fields@.len() == 0,
            c.deleted_fields == deleted_fields,
            c.updated_fields@.len() == 0,
    {
        GridFieldChangeset {
            grid_id,
            inserted_fields: Vec::new(),
            deleted_fields,
            updated_fields: Vec::new(),
        }
    }

    /// A changeset that only updates fields.
    pub fn update(grid_id: String, updated_fields: Vec<Field>) -> (c: GridFieldChangeset)
        ensures
            c.grid_id == grid_id,
            c.inserted_fields@.len() == 0,
            c.deleted_fields@.len() == 0,
            c.updated_fields == updated_fields,
    {
        GridFieldChangeset {
            grid_id,
            inserted_fields: Vec::new(),
            deleted_fields: Vec::new(),
            updated_fields,
        }
    }
}

/// A list of fields, as query answers carry them.
#[derive(Clone, Debug)]
pub struct RepeatedField {
    pub items: Vec<Field>,
}

impl RepeatedField {
    /// Wrap a list of fields.
    pub fn from_items(items: Vec<Field>) -> (r: RepeatedField)
        ensures
            r.items == items,
    {
        RepeatedField { items }
    }
}

/// A list of field order entries, as queries name the fields they want.
#[derive(Clone, Debug)]
pub struct RepeatedFieldOrder {
    pub items: Vec<FieldOrder>,
}

impl RepeatedFieldOrder {
    /// Wrap a list of order entries.
    pub fn from_items(items: Vec<FieldOrder>) -> (r: RepeatedFieldOrder)
        ensures
            r.items == items,
    {
        RepeatedFieldOrder { items }
    }

    /// The one-entry list naming a single field.
    pub fn from_field_id(field_id: String) -> (r: RepeatedFieldOrder)
        ensures
            r.items@.len() == 1,
            r.items@[0].field_id == field_id,
    {
        let mut items: Vec<FieldOrder> = Vec::new();
        items.push(FieldOrder { field_id });
        RepeatedFieldOrder { items }
    }
}

} // verus!
