//! Stored files.
use vstd::prelude::*;

verus! {

/// A stored file.
#[derive(Clone, Debug)]
pub struct File {
    pub _id: String,
    pub _key: String,
    pub _rev: String,
    pub name: String,
    pub cid: String,
    pub content_type: Option<String>,
}

/// A file to store.
#[derive(Clone, Debug)]
pub struct NewFile {
    pub name: String,
    pub description: Option<String>,
    pub cid: String,
    pub content_type: Option<String>,
}

/// Input to change the values of a file.
#[derive(Clone, Debug)]
pub struct UpdateFile {
    pub _key: String,
    pub name: String,
    pub description: Option<String>,
}

/// GraphQL queries on files.
pub struct FileQuery;

/// GraphQL mutations on files.
pub struct FileMutation;

} // verus!
