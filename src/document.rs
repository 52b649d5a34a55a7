use vstd::prelude::*;

use crate::time::Timestamp;
use crate::uri::{
    DocStateTypeUri, DocStateUri, DocumentUri, EmailUri, GroupUri, PersonUri, SubmissionUri,
};

verus! {

/// A document: an Internet-Draft, an RFC, a charter, slides and the like.
#[derive(Debug)]
pub struct Document {
    pub id: u64,
    pub resource_uri: DocumentUri,
    pub name: String,
    pub title: String,
    pub pages: Option<u64>,
    pub words: Option<u64>,
    pub time: Timestamp,
    pub notify: String,
    pub expires: Timestamp,
    pub doc_type: String,
    pub rfc: Option<u64>,
    pub rev: String,
    pub doc_abstract: String,
    pub internal_comments: String,
    pub order: u64,
    pub note: String,
    pub ad: Option<PersonUri>,
    pub shepherd: Option<EmailUri>,
    pub group: Option<GroupUri>,
    pub stream: Option<String>,
    pub std_level: Option<String>,
    pub intended_std_level: Option<String>,
    pub states: Vec<DocStateUri>,
    pub submissions: Vec<SubmissionUri>,
    pub tags: Vec<String>,
    pub uploaded_filename: String,
    pub external_url: String,
}

/// A submission of a document; the server's record carries no fields that
/// this library reads.
#[derive(Debug)]
pub struct Submission {}

/// A state that a document can be in.
#[derive(Debug)]
pub struct DocState {
    pub id: u64,
    pub resource_uri: DocStateUri,
    pub name: String,
    pub desc: String,
    pub slug: String,
    pub next_states: Vec<DocStateUri>,
    pub used: bool,
    pub order: u64,
    pub state_type: DocStateTypeUri,
}

/// A family of document states.
#[derive(Debug)]
pub struct DocStateType {
    pub resource_uri: DocStateTypeUri,
    pub slug: String,
    pub label: String,
}

} // verus!
