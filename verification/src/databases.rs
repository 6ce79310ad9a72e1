//! The tables of the store and their names.

use std::collections::HashMap;
use vstd::prelude::*;
use vstd::std_specs::hash::*;
use vstd::string::*;

verus! {

broadcast use group_hash_axioms;

/// The tables that the service keeps.
#[derive(Debug, Clone, Copy, PartialEq, Eq, Hash, Structural)]
pub enum DatabaseName {
    Users,
    Sessions,
    Files,
    FileMetadata,
    ViewTokens,
    Events,
    UploadTokens,
    UploadTokenUses,
}

impl DatabaseName {
    /// The number a table is filed under in the dictionary of names.
    pub open spec fn spec_key(self) -> u64 {
        match self {
            DatabaseName::Users => 0,
            DatabaseName::Sessions => 1,
            DatabaseName::Files => 2,
            DatabaseName::FileMetadata => 3,
            DatabaseName::ViewTokens => 4,
            DatabaseName::Events => 5,
            DatabaseName::UploadTokens => 6,
            DatabaseName::UploadTokenUses => 7,
        }
    }

    /// The name of the table in the store.
    pub open spec fn spec_table(self) -> Seq<char> {
        match self {
            DatabaseName::Users => "users"@,
            DatabaseName::Sessions => "sessions"@,
            DatabaseName::Files => "files"@,
            DatabaseName::FileMetadata => "metadata"@,
            DatabaseName::ViewTokens => "view_tokens"@,
            DatabaseName::Events => "events"@,
            DatabaseName::UploadTokens => "upload_tokens"@,
            DatabaseName::UploadTokenUses => "upload_token_uses"@,
        }
    }

    /// The number a table is filed under in the dictionary of names.
    pub fn key(&self) -> (k: u64)
        ensures
            k == self.spec_key(),
    {
        match self {
            DatabaseName::Users => 0,
            DatabaseName::Sessions => 1,
            DatabaseName::Files => 2,
            DatabaseName::FileMetadata => 3,
            DatabaseName::ViewTokens => 4,
            DatabaseName::Events => 5,
            DatabaseName::UploadTokens => 6,
            DatabaseName::UploadTokenUses => 7,
        }
    }
}

/// The dictionary of table names.
pub struct Databases {}

impl Databases {
    /// Whether `names` files each table's name under the table's key, and
    /// nothing else.
    pub open spec fn is_dictionary(names: Map<u64, String>) -> bool {
        &&& forall|k: u64| names.dom().contains(k) <==> k < 8
        &&& forall|name: DatabaseName| #[trigger]
            names[name.spec_key()]@ == name.spec_table()
    }

    /// The dictionary: each table's name, filed under the table's key.
    pub fn get() -> (dict: HashMap<u64, String>)
        ensures
            Self::is_dictionary(dict@),
    {
        let mut dict: HashMap<u64, String> = HashMap::new();
        dict.insert(DatabaseName::Users.key(), String::from_str("users"));
        dict.insert(DatabaseName::Sessions.key(), String::from_str("sessions"));
        dict.insert(DatabaseName::Files.key(), String::from_str("files"));
        dict.insert(DatabaseName::FileMetadata.key(), String::from_str("metadata"));
        dict.insert(DatabaseName::ViewTokens.key(), String::from_str("view_tokens"));
        dict.insert(DatabaseName::Events.key(), String::from_str("events"));
        dict.insert(DatabaseName::UploadTokens.key(), String::from_str("upload_tokens"));
        dict.insert(DatabaseName::UploadTokenUses.key(), String::from_str("upload_token_uses"));
        dict
    }

    /// The name of a table in the store.
    pub fn get_table(name: DatabaseName) -> (table: String)
        ensures
            table@ == name.spec_table(),
    {
        let dict = Databases::get();
        let key = name.key();
        match dict.get(&key) {
            Some(table) => table.clone(),
            None => String::new(),
        }
    }
}

} // verus!
