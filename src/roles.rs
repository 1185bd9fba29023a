//! Role records as the role commands exchange them, with their permissions
//! as one text.

use vstd::prelude::*;
use vstd::string::*;
use crate::json::{encode_text, json_of_text};

verus! {

#[derive(Clone, Debug)]
pub struct Role {
    pub id: Option<i64>,
    pub name: String,
    pub description: String,
    pub permissions: String,
}

/// The answer of a command: its data on success, its error otherwise.
pub struct ApiResponse<T> {
    pub success: bool,
    pub data: Option<T>,
    pub error: Option<String>,
}

pub struct RoleInput {
    pub _name: String,
    pub _permissions: Vec<String>,
}

pub open spec fn missing_id_message() -> Seq<char> {
    "Role ID requis pour la suppression"@
}

impl Role {
    /// The permissions encoded as a JSON string, as the roles table stores
    /// them. Encoding a text cannot fail; the `Result` keeps the encoder's
    /// error type, with the message prefixed.
    pub fn permissions_json(&self) -> (r: Result<String, String>)
        ensures
            r matches Ok(s) && s@ == json_of_text(self.permissions@),
    {
        match encode_text(self.permissions.as_str()) {
            Ok(s) => Ok(s),
            Err(e) => Err(
                String::from_str("Erreur de sérialisation des permissions: ").concat(e.as_str()),
            ),
        }
    }

    /// The role as created under `id`: it carries the stored permissions text.
    pub fn created(self, id: i64, permissions_json: String) -> (r: Role)
        ensures
            r.id == Some(id),
            r.name == self.name,
            r.description == self.description,
            r.permissions == permissions_json,
    {
        Role { id: Some(id), name: self.name, description: self.description, permissions: permissions_json }
    }
}

/// The id of the role to delete; deleting needs one.
pub fn require_role_id(id: Option<i64>) -> (r: Result<i64, String>)
    ensures
        match id {
            Some(i) => r == Ok::<i64, String>(i),
            None => r matches Err(m) && m@ == missing_id_message(),
        },
{
    match id {
        Some(i) => Ok(i),
        None => Err(String::from_str("Role ID requis pour la suppression")),
    }
}

} // verus!
