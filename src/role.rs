//! Roles as stored in the roles table, with their permissions kept as a JSON
//! array of texts.

use vstd::prelude::*;
use crate::json::{decode_text_list, encode_text_list, json_of_text_list, text_list_of_json};

verus! {

#[derive(Clone, Debug)]
pub struct Role {
    pub id: Option<i64>,
    pub name: String,
    pub description: String,
    pub permissions: Vec<String>,
}

/// The permissions stored as `text`: the texts of its JSON array, or none
/// when it holds no such array.
pub open spec fn permissions_of_json(text: Seq<char>) -> Seq<Seq<char>> {
    match text_list_of_json(text) {
        Some(v) => v,
        None => Seq::empty(),
    }
}

impl Role {
    /// The role read from a row of the roles table.
    pub fn from_row(id: i64, name: String, description: String, permissions_json: &str) -> (r: Role)
        ensures
            r.id == Some(id),
            r.name == name,
            r.description == description,
            r.permissions.deep_view() == permissions_of_json(permissions_json@),
    {
        let decoded = decode_text_list(permissions_json);
        Role::from_decoded_row(id, name, description, decoded)
    }

    /// The role of a row whose permissions text decoded to `decoded`; a text
    /// that held no list of texts gives no permission.
    pub fn from_decoded_row(
        id: i64,
        name: String,
        description: String,
        decoded: Option<Vec<String>>,
    ) -> (r: Role)
        ensures
            r.id == Some(id),
            r.name == name,
            r.description == description,
            r.permissions.deep_view() == match decoded {
                Some(v) => v.deep_view(),
                None => Seq::empty(),
            },
    {
        let permissions = match decoded {
            Some(v) => v,
            None => Vec::new(),
        };
        proof {
            if decoded.is_none() {
                assert(permissions.deep_view() =~= Seq::<Seq<char>>::empty());
            }
        }
        Role { id: Some(id), name, description, permissions }
    }

    /// The permissions as the JSON text that the roles table stores.
    pub fn permissions_json(&self) -> (r: Result<String, String>)
        ensures
            r matches Ok(s) && s@ == json_of_text_list(self.permissions.deep_view()),
    {
        encode_text_list(&self.permissions)
    }
}

} // verus!
