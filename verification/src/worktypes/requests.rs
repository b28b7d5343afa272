//! Request shapes for creating a work type with its attribute
//! definitions.

use vstd::prelude::*;
use crate::worktypes::models::{DataType, WorkAttributeType, WorkType};

verus! {

/// One attribute definition of a create request.
pub struct CreateWorkAttributeType {
    pub name: String,
    pub data_type: DataType,
    pub is_required: bool,
    pub is_hidden: bool,
}

/// A request to create a work type owning the given attribute
/// definitions, in order.
pub struct CreateWorkType {
    pub title: String,
    pub description: Option<String>,
    pub attributes: Vec<CreateWorkAttributeType>,
}

impl WorkType {
    /// The entity a create request describes, under a fresh identity:
    /// the requested title and description, and one fresh attribute
    /// definition per requested one, shape for shape and in order.
    pub fn from_create_request(request: CreateWorkType) -> (w: WorkType)
        ensures
            w@.id.len() == 36,
            w@.title == request.title@,
            w@.description == crate::companies::models::opt_view(request.description),
            w@.attributes.len() == request.attributes@.len(),
            forall|i: int|
                0 <= i < request.attributes@.len() ==> {
                    &&& w@.attributes[i].name == request.attributes@[i].name@
                    &&& w@.attributes[i].data_type == request.attributes@[i].data_type
                    &&& w@.attributes[i].is_required == request.attributes@[i].is_required
                    &&& w@.attributes[i].is_hidden == request.attributes@[i].is_hidden
                },
            w@.created_at == w@.updated_at,
    {
        let now = crate::ids::now_millis();
        let mut attributes: Vec<WorkAttributeType> = Vec::new();
        let ghost requested = request.attributes@;
        let mut rest = request.attributes;
        let mut i: usize = 0;
        while i < rest.len()
            invariant
                rest@ == requested,
                0 <= i <= requested.len(),
                attributes@.len() == i,
                forall|j: int|
                    0 <= j < i ==> {
                        &&& attributes@[j]@.name == requested[j].name@
                        &&& attributes@[j]@.data_type == requested[j].data_type
                        &&& attributes@[j]@.is_required == requested[j].is_required
                        &&& attributes@[j]@.is_hidden == requested[j].is_hidden
                    },
            decreases requested.len() - i,
        {
            let a = &rest[i];
            attributes.push(
                WorkAttributeType::new(a.name.clone(), a.data_type, a.is_required, a.is_hidden),
            );
            i = i + 1;
        }
        WorkType {
            id: crate::ids::fresh_uuid(),
            title: request.title,
            description: request.description,
            attributes,
            created_at: now,
            updated_at: now,
        }
    }
}

} // verus!
