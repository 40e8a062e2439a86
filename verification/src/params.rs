//! Boundary payloads and their validated parameter forms. A payload arrives
//! with whatever identifiers the caller supplied; turning it into params
//! checks the required identifiers for emptiness and reports the first
//! missing one as a typed error code.

use vstd::prelude::*;

use crate::field::{Field, FieldType, FieldTypeRevision, RepeatedFieldOrder};

verus! {

/// The configuration errors the boundary can report: a required identifier or
/// payload that arrived empty.
#[derive(Clone, Copy, Debug, PartialEq, Eq, Structural)]
pub enum ErrorCode {
    GridIdIsEmpty,
    FieldIdIsEmpty,
    TypeOptionDataIsEmpty,
}

/// A string checked to be non-empty.
#[derive(Clone, Debug)]
pub struct NotEmptyStr(pub String);

impl NotEmptyStr {
    /// Accept exactly the non-empty strings.
    pub fn parse(s: String) -> (r: Result<NotEmptyStr, ()>)
        ensures
            s@.len() > 0 ==> (r matches Ok(t) && t.0 == s),
            s@.len() == 0 ==> r is Err,
    {
        if s.as_str().is_empty() {
            Err(())
        } else {
            Ok(NotEmptyStr(s))
        }
    }
}

/// Asks for the editing context of one field of a grid, or of a fresh field
/// of the given type when no field id is named.
#[derive(Clone, Debug)]
pub struct GetEditFieldContextPayload {
    pub grid_id: String,
    pub field_id: Option<String>,
    pub field_type: FieldType,
}

/// Asks to switch one field of a grid to another type.
#[derive(Clone, Debug)]
pub struct EditFieldPayload {
    pub grid_id: String,
    pub field_id: String,
    pub field_type: FieldType,
    pub create_if_not_exist: bool,
}

/// A validated [`EditFieldPayload`]: both identifiers known to be non-empty.
#[derive(Clone, Debug)]
pub struct EditFieldParams {
    pub grid_id: String,
    pub field_id: String,
    pub field_type: FieldType,
}

/// A validated request to create a field: the grid id known to be non-empty.
#[derive(Clone, Debug)]
pub struct CreateFieldParams {
    pub grid_id: String,
    pub field_type: FieldType,
}

impl EditFieldPayload {
    /// Validate into [`EditFieldParams`]: an empty grid id is reported first,
    /// then an empty field id.
    pub fn into_edit_params(self) -> (r: Result<EditFieldParams, ErrorCode>)
        ensures
            self.grid_id@.len() == 0 ==> r == Err::<EditFieldParams, ErrorCode>(
                ErrorCode::GridIdIsEmpty,
            ),
            self.grid_id@.len() > 0 && self.field_id@.len() == 0 ==> r == Err::<
                EditFieldParams,
                ErrorCode,
            >(ErrorCode::FieldIdIsEmpty),
            self.grid_id@.len() > 0 && self.field_id@.len() > 0 ==> (r matches Ok(p)
                && p.grid_id == self.grid_id && p.field_id == self.field_id && p.field_type
                == self.field_type),
    {
        let grid_id = match NotEmptyStr::parse(self.grid_id) {
            Ok(g) => g,
            Err(_) => {
                return Err(ErrorCode::GridIdIsEmpty);
            },
        };
        let field_id = match NotEmptyStr::parse(self.field_id) {
            Ok(f) => f,
            Err(_) => {
                return Err(ErrorCode::FieldIdIsEmpty);
            },
        };
        Ok(EditFieldParams { grid_id: grid_id.0, field_id: field_id.0, field_type: self.field_type })
    }

    /// Validate into [`CreateFieldParams`]: only the grid id is required.
    pub fn into_create_params(self) -> (r: Result<CreateFieldParams, ErrorCode>)
        ensures
            self.grid_id@.len() == 0 ==> r == Err::<CreateFieldParams, ErrorCode>(
                ErrorCode::GridIdIsEmpty,
            ),
            self.grid_id@.len() > 0 ==> (r matches Ok(p) && p.grid_id == self.grid_id
                && p.field_type == self.field_type),
    {
        let grid_id = match NotEmptyStr::parse(self.grid_id) {
            Ok(g) => g,
            Err(_) => {
                return Err(ErrorCode::GridIdIsEmpty);
            },
        };
        Ok(CreateFieldParams { grid_id: grid_id.0, field_type: self.field_type })
    }
}

/// One field of a grid together with the serialized configuration of its
/// type.
#[derive(Clone, Debug)]
pub struct FieldTypeOptionContext {
    pub grid_id: String,
    pub grid_field: Field,
    pub type_option_data: Vec<u8>,
}

/// The serialized type configuration of one field of a grid.
#[derive(Clone, Debug)]
pub struct FieldTypeOptionData {
    pub grid_id: String,
    pub field: Field,
    pub type_option_data: Vec<u8>,
}

/// Asks to insert a field into a grid, optionally after another field.
#[derive(Clone, Debug)]
pub struct InsertFieldPayload {
    pub grid_id: String,
    pub field: Field,
    pub type_option_data: Vec<u8>,
    pub start_field_id: Option<String>,
}

/// A validated [`InsertFieldPayload`]: the grid id, the field's own id and
/// the anchor field id (when given) known to be non-empty.
#[derive(Clone, Debug)]
pub struct InsertFieldParams {
    pub grid_id: String,
    pub field: Field,
    pub type_option_data: Vec<u8>,
    pub start_field_id: Option<String>,
}

impl InsertFieldPayload {
    /// Validate into [`InsertFieldParams`]: an empty grid id is reported
    /// first, then an empty field id, then an empty anchor id.
    pub fn into_params(self) -> (r: Result<InsertFieldParams, ErrorCode>)
        ensures
            self.grid_id@.len() == 0 ==> r == Err::<InsertFieldParams, ErrorCode>(
                ErrorCode::GridIdIsEmpty,
            ),
            self.grid_id@.len() > 0 && self.field.id@.len() == 0 ==> r == Err::<
                InsertFieldParams,
                ErrorCode,
            >(ErrorCode::FieldIdIsEmpty),
            self.grid_id@.len() > 0 && self.field.id@.len() > 0 && (self.start_field_id matches Some(
                a,
            ) && a@.len() == 0) ==> r == Err::<InsertFieldParams, ErrorCode>(
                ErrorCode::FieldIdIsEmpty,
            ),
            self.grid_id@.len() > 0 && self.field.id@.len() > 0 && (self.start_field_id is None
                || self.start_field_id->Some_0@.len() > 0) ==> (r matches Ok(p) && p.grid_id
                == self.grid_id && p.field == self.field && p.type_option_data
                == self.type_option_data && p.start_field_id == self.start_field_id),
    {
        let grid_id = match NotEmptyStr::parse(self.grid_id) {
            Ok(g) => g,
            Err(_) => {
                return Err(ErrorCode::GridIdIsEmpty);
            },
        };
        match NotEmptyStr::parse(self.field.id.clone()) {
            Ok(_) => {},
            Err(_) => {
                return Err(ErrorCode::FieldIdIsEmpty);
            },
        }
        let start_field_id = match self.start_field_id {
            Option::None => Option::None,
            Option::Some(id) => match NotEmptyStr::parse(id) {
                Ok(a) => Option::Some(a.0),
                Err(_) => {
                    return Err(ErrorCode::FieldIdIsEmpty);
                },
            },
        };
        Ok(InsertFieldParams {
            grid_id: grid_id.0,
            field: self.field,
            type_option_data: self.type_option_data,
            start_field_id,
        })
    }
}

/// Asks to replace the serialized type configuration of one field.
#[derive(Clone, Debug)]
pub struct UpdateFieldTypeOptionPayload {
    pub grid_id: String,
    pub field_id: String,
    pub type_option_data: Vec<u8>,
}

/// A validated [`UpdateFieldTypeOptionPayload`]: both identifiers known to be
/// non-empty.
#[derive(Clone, Debug)]
pub struct UpdateFieldTypeOptionParams {
    pub grid_id: String,
    pub field_id: String,
    pub type_option_data: Vec<u8>,
}

impl UpdateFieldTypeOptionPayload {
    /// Validate into [`UpdateFieldTypeOptionParams`]: an empty grid id is
    /// reported first, then an empty field id.
    pub fn into_params(self) -> (r: Result<UpdateFieldTypeOptionParams, ErrorCode>)
        ensures
            self.grid_id@.len() == 0 ==> r == Err::<UpdateFieldTypeOptionParams, ErrorCode>(
                ErrorCode::GridIdIsEmpty,
            ),
            self.grid_id@.len() > 0 && self.field_id@.len() == 0 ==> r == Err::<
                UpdateFieldTypeOptionParams,
                ErrorCode,
            >(ErrorCode::FieldIdIsEmpty),
            self.grid_id@.len() > 0 && self.field_id@.len() > 0 ==> (r matches Ok(p) && p.grid_id
                == self.grid_id && p.field_id == self.field_id && p.type_option_data
                == self.type_option_data),
    {
        let grid_id = match NotEmptyStr::parse(self.grid_id) {
            Ok(g) => g,
            Err(_) => {
                return Err(ErrorCode::GridIdIsEmpty);
            },
        };
        match NotEmptyStr::parse(self.field_id.clone()) {
            Ok(_) => {},
            Err(_) => {
                return Err(ErrorCode::FieldIdIsEmpty);
            },
        }
        Ok(UpdateFieldTypeOptionParams {
            grid_id: grid_id.0,
            field_id: self.field_id,
            type_option_data: self.type_option_data,
        })
    }
}

/// Asks for a set of fields of a grid, named by their ids.
#[derive(Clone, Debug)]
pub struct QueryFieldPayload {
    pub grid_id: String,
    pub field_orders: RepeatedFieldOrder,
}

/// A validated [`QueryFieldPayload`]: the grid id known to be non-empty.
#[derive(Clone, Debug)]
pub struct QueryFieldParams {
    pub grid_id: String,
    pub field_orders: RepeatedFieldOrder,
}

impl QueryFieldPayload {
    /// Validate into [`QueryFieldParams`]: only the grid id is required.
    pub fn into_params(self) -> (r: Result<QueryFieldParams, ErrorCode>)
        ensures
            self.grid_id@.len() == 0 ==> r == Err::<QueryFieldParams, ErrorCode>(
                ErrorCode::GridIdIsEmpty,
            ),
            self.grid_id@.len() > 0 ==> (r matches Ok(p) && p.grid_id == self.grid_id
                && p.field_orders == self.field_orders),
    {
        let grid_id = match NotEmptyStr::parse(self.grid_id) {
            Ok(g) => g,
            Err(_) => {
                return Err(ErrorCode::GridIdIsEmpty);
            },
        };
        Ok(QueryFieldParams { grid_id: grid_id.0, field_orders: self.field_orders })
    }
}

/// Asks to change parts of one field: every field of the changeset but the
/// two identifiers is optional, and an absent member means "leave as is".
#[derive(Clone, Debug)]
pub struct FieldChangesetPayload {
    pub field_id: String,
    pub grid_id: String,
    pub name: Option<String>,
    pub desc: Option<String>,
    pub field_type: Option<FieldType>,
    pub frozen: Option<bool>,
    pub visibility: Option<bool>,
    pub width: Option<i32>,
    pub type_option_data: Option<Vec<u8>>,
}

/// A validated [`FieldChangesetPayload`], with the field type carried as its
/// persisted code.
#[derive(Clone, Debug)]
pub struct FieldChangesetParams {
    pub field_id: String,
    pub grid_id: String,
    pub name: Option<String>,
    pub desc: Option<String>,
    pub field_type: Option<FieldTypeRevision>,
    pub frozen: Option<bool>,
    pub visibility: Option<bool>,
    pub width: Option<i32>,
    pub type_option_data: Option<Vec<u8>>,
}

impl FieldChangesetPayload {
    /// Validate into [`FieldChangesetParams`]: an empty grid id is reported
    /// first, then an empty field id, then serialized type configuration that
    /// is present but empty.
    pub fn into_params(self) -> (r: Result<FieldChangesetParams, ErrorCode>)
        ensures
            self.grid_id@.len() == 0 ==> r == Err::<FieldChangesetParams, ErrorCode>(
                ErrorCode::GridIdIsEmpty,
            ),
            self.grid_id@.len() > 0 && self.field_id@.len() == 0 ==> r == Err::<
                FieldChangesetParams,
                ErrorCode,
            >(ErrorCode::FieldIdIsEmpty),
            self.grid_id@.len() > 0 && self.field_id@.len() > 0 && (self.type_option_data matches Some(
                d,
            ) && d@.len() == 0) ==> r == Err::<FieldChangesetParams, ErrorCode>(
                ErrorCode::TypeOptionDataIsEmpty,
            ),
            self.grid_id@.len() > 0 && self.field_id@.len() > 0 && (self.type_option_data is None
                || self.type_option_data->Some_0@.len() > 0) ==> (r matches Ok(p) && p.field_id
                == self.field_id && p.grid_id == self.grid_id && p.name == self.name && p.desc
                == self.desc && (match self.field_type {
                Option::Some(ft) => p.field_type == Some(crate::field::spec_type_rev(ft)),
                Option::None => p.field_type is None,
            }) && p.frozen == self.frozen && p.visibility == self.visibility && p.width
                == self.width && p.type_option_data == self.type_option_data),
    {
        let grid_id = match NotEmptyStr::parse(self.grid_id) {
            Ok(g) => g,
            Err(_) => {
                return Err(ErrorCode::GridIdIsEmpty);
            },
        };
        let field_id = match NotEmptyStr::parse(self.field_id) {
            Ok(f) => f,
            Err(_) => {
                return Err(ErrorCode::FieldIdIsEmpty);
            },
        };
        let field_type: Option<FieldTypeRevision> = match &self.field_type {
            Option::Some(ft) => Option::Some(ft.type_rev()),
            Option::None => Option::None,
        };
        match &self.type_option_data {
            Option::Some(data) => {
                if data.len() == 0 {
                    return Err(ErrorCode::TypeOptionDataIsEmpty);
                }
            },
            Option::None => {},
        }
        Ok(FieldChangesetParams {
            field_id: field_id.0,
            grid_id: grid_id.0,
            name: self.name,
            desc: self.desc,
            field_type,
            frozen: self.frozen,
            visibility: self.visibility,
            width: self.width,
            type_option_data: self.type_option_data,
        })
    }
}

/// Names one field of one grid.
#[derive(Clone, Debug)]
pub struct FieldIdentifierPayload {
    pub field_id: String,
    pub grid_id: String,
}

/// A validated [`FieldIdentifierPayload`]: both identifiers known to be
/// non-empty.
#[derive(Clone, Debug)]
pub struct FieldIdentifier {
    pub field_id: String,
    pub grid_id: String,
}

impl FieldIdentifierPayload {
    /// Validate into [`FieldIdentifier`]: an empty grid id is reported first,
    /// then an empty field id.
    pub fn into_identifier(self) -> (r: Result<FieldIdentifier, ErrorCode>)
        ensures
            self.grid_id@.len() == 0 ==> r == Err::<FieldIdentifier, ErrorCode>(
                ErrorCode::GridIdIsEmpty,
            ),
            self.grid_id@.len() > 0 && self.field_id@.len() == 0 ==> r == Err::<
                FieldIdentifier,
                ErrorCode,
            >(ErrorCode::FieldIdIsEmpty),
            self.grid_id@.len() > 0 && self.field_id@.len() > 0 ==> (r matches Ok(p) && p.grid_id
                == self.grid_id && p.field_id == self.field_id),
    {
        let grid_id = match NotEmptyStr::parse(self.grid_id) {
            Ok(g) => g,
            Err(_) => {
                return Err(ErrorCode::GridIdIsEmpty);
            },
        };
        let field_id = match NotEmptyStr::parse(self.field_id) {
            Ok(f) => f,
            Err(_) => {
                return Err(ErrorCode::FieldIdIsEmpty);
            },
        };
        Ok(FieldIdentifier { grid_id: grid_id.0, field_id: field_id.0 })
    }
}

} // verus!
