//! The work-type entity family: a work type owns an ordered
//! collection of attribute-type definitions.

use vstd::prelude::*;
use crate::error::AppError;
use crate::ids::{fresh_uuid, now_millis};
use crate::text::str_eq;

verus! {

/// The data type of an attribute: its wire form is exactly the
/// lowercase token `"string"` or `"numeric"`; any other token is a
/// validation failure, never a silent default.
#[derive(Clone, Copy, PartialEq, Eq, Structural, Debug)]
pub enum DataType {
    StringType,
    NumericType,
}

impl DataType {
    /// The wire token of each variant.
    pub open spec fn spec_token(&self) -> Seq<char> {
        match self {
            DataType::StringType => "string"@,
            DataType::NumericType => "numeric"@,
        }
    }

    /// Renders the wire token.
    pub fn token(&self) -> (t: &'static str)
        ensures
            t@ == self.spec_token(),
    {
        match self {
            DataType::StringType => "string",
            DataType::NumericType => "numeric",
        }
    }

    /// Parses a wire token: exactly `"string"` or `"numeric"`;
    /// anything else is rejected as a validation failure.
    pub fn from_str(s: &str) -> (r: Result<DataType, AppError>)
        ensures
            s@ == "string"@ ==> r == Ok::<DataType, AppError>(DataType::StringType),
            s@ == "numeric"@ ==> r == Ok::<DataType, AppError>(DataType::NumericType),
            (s@ != "string"@ && s@ != "numeric"@) ==> (r matches Err(e) && e matches
                AppError::Validation(_)),
    {
        proof {
            reveal_strlit("string");
            reveal_strlit("numeric");
            assert("string"@.len() == 6);
            assert("numeric"@.len() == 7);
        }
        if str_eq(s, "string") {
            Ok(DataType::StringType)
        } else if str_eq(s, "numeric") {
            Ok(DataType::NumericType)
        } else {
            Err(
                AppError::Validation(
                    String::from_str("unknown data type: ").concat(s),
                ),
            )
        }
    }

    /// Whether a token is a valid wire form.
    pub open spec fn spec_valid_token(s: Seq<char>) -> bool {
        s == "string"@ || s == "numeric"@
    }

    /// The variant a valid token denotes.
    pub open spec fn spec_of_token(s: Seq<char>) -> DataType {
        if s == "string"@ {
            DataType::StringType
        } else {
            DataType::NumericType
        }
    }
}

/// An attribute-type definition owned by one work type.
pub struct WorkAttributeType {
    pub id: String,
    pub name: String,
    pub data_type: DataType,
    pub is_required: bool,
    pub is_hidden: bool,
    pub created_at: i64,
    pub updated_at: i64,
}

/// The mathematical value of a [`WorkAttributeType`].
pub ghost struct WorkAttributeTypeV {
    pub id: Seq<char>,
    pub name: Seq<char>,
    pub data_type: DataType,
    pub is_required: bool,
    pub is_hidden: bool,
    pub created_at: int,
    pub updated_at: int,
}

impl View for WorkAttributeType {
    type V = WorkAttributeTypeV;

    open spec fn view(&self) -> WorkAttributeTypeV {
        WorkAttributeTypeV {
            id: self.id@,
            name: self.name@,
            data_type: self.data_type,
            is_required: self.is_required,
            is_hidden: self.is_hidden,
            created_at: self.created_at as int,
            updated_at: self.updated_at as int,
        }
    }
}

/// A work type and the attribute definitions it owns, in order.
pub struct WorkType {
    pub id: String,
    pub title: String,
    pub description: Option<String>,
    pub attributes: Vec<WorkAttributeType>,
    pub created_at: i64,
    pub updated_at: i64,
}

/// The mathematical value of a [`WorkType`].
pub ghost struct WorkTypeV {
    pub id: Seq<char>,
    pub title: Seq<char>,
    pub description: Option<Seq<char>>,
    pub attributes: Seq<WorkAttributeTypeV>,
    pub created_at: int,
    pub updated_at: int,
}

impl View for WorkType {
    type V = WorkTypeV;

    open spec fn view(&self) -> WorkTypeV {
        WorkTypeV {
            id: self.id@,
            title: self.title@,
            description: crate::companies::models::opt_view(self.description),
            attributes: self.attributes@.map_values(|a: WorkAttributeType| a@),
            created_at: self.created_at as int,
            updated_at: self.updated_at as int,
        }
    }
}

/// One concrete attribute value carried by a work item.
pub struct WorkAttributeItem {
    pub id: String,
    pub attribute_type: WorkAttributeType,
    pub value: String,
    pub created_at: i64,
    pub updated_at: i64,
}

/// One unit of work, an instance of a work type.
pub struct WorkItem {
    pub id: String,
    pub work_type: WorkType,
    pub work_attributes: Vec<WorkAttributeType>,
    pub created_at: i64,
    pub updated_at: i64,
}

impl WorkAttributeType {
    /// A fresh attribute definition with the given shape and both
    /// timestamps set to the same creation instant.
    pub fn new(name: String, data_type: DataType, is_required: bool, is_hidden: bool) -> (a:
        WorkAttributeType)
        ensures
            a@.id.len() == 36,
            a@.name == name@,
            a@.data_type == data_type,
            a@.is_required == is_required,
            a@.is_hidden == is_hidden,
            a@.created_at == a@.updated_at,
    {
        let now = now_millis();
        WorkAttributeType {
            id: fresh_uuid(),
            name,
            data_type,
            is_required,
            is_hidden,
            created_at: now,
            updated_at: now,
        }
    }

    /// A fresh optional, visible attribute definition.
    pub fn new_name_data_type(name: String, data_type: DataType) -> (a: WorkAttributeType)
        ensures
            a@.name == name@,
            a@.data_type == data_type,
            !a@.is_required,
            !a@.is_hidden,
            a@.created_at == a@.updated_at,
    {
        WorkAttributeType::new(name, data_type, false, false)
    }

    /// The standard required summary field.
    #[must_use]
    pub fn summary() -> (a: WorkAttributeType)
        ensures
            a@.name == "Summary"@,
            a@.data_type == DataType::StringType,
            a@.is_required,
            !a@.is_hidden,
            a@.created_at == a@.updated_at,
    {
        WorkAttributeType::new(String::from_str("Summary"), DataType::StringType, true, false)
    }

    /// The standard required description field.
    #[must_use]
    pub fn description() -> (a: WorkAttributeType)
        ensures
            a@.name == "Description"@,
            a@.data_type == DataType::StringType,
            a@.is_required,
            !a@.is_hidden,
            a@.created_at == a@.updated_at,
    {
        WorkAttributeType::new(String::from_str("Description"), DataType::StringType, true, false)
    }
}

impl WorkType {
    /// A newly defaulted work type: the given title, no description,
    /// and the two standard string-typed, required attribute
    /// definitions, in order.
    pub fn default(title: String) -> (w: WorkType)
        ensures
            w@.id.len() == 36,
            w@.title == title@,
            w@.description is None,
            w@.attributes.len() == 2,
            w@.attributes[0].name == "Summary"@,
            w@.attributes[1].name == "Description"@,
            forall|i: int|
                0 <= i < 2 ==> w@.attributes[i].data_type == DataType::StringType
                    && w@.attributes[i].is_required && !w@.attributes[i].is_hidden,
            w@.created_at == w@.updated_at,
    {
        let now = now_millis();
        let summary = WorkAttributeType::summary();
        let description = WorkAttributeType::description();
        let mut attributes: Vec<WorkAttributeType> = Vec::new();
        attributes.push(summary);
        attributes.push(description);
        WorkType {
            id: fresh_uuid(),
            title,
            description: None,
            attributes,
            created_at: now,
            updated_at: now,
        }
    }
}

} // verus!
