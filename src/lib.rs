//! A read-only client library for the IETF Datatracker REST API.
//!
//! The library holds the logic of the client: typed references between
//! resources, the resource records, timestamps, the construction of query
//! URLs, the classification of server replies, and the lazy sequence that
//! follows the server's continuation cursors across pages. Network I/O and
//! JSON decoding are performed by the caller, which hands the outcomes back.

pub mod client;
pub mod datatracker;
pub mod document;
pub mod email;
pub mod error;
pub mod group;
pub mod page;
pub mod person;
pub mod query;
pub mod time;
pub mod uri;

pub use client::{is_success_status, retrieve, Lookup};
pub use datatracker::{Datatracker, PersonLookup};
pub use document::{DocState, DocStateType, Document, Submission};
pub use email::{Email, HistoricalEmail};
pub use error::{DTResult, DatatrackerError};
pub use group::{Group, GroupState, GroupType};
pub use page::{resolve_path, Meta, Page, PaginatedList, Step, API_ORIGIN};
pub use person::{HistoricalPerson, Person, PersonAlias, PersonFilter};
pub use query::push_decimal;
pub use time::Timestamp;
pub use uri::{
    DocStateTypeUri, DocStateUri, DocumentUri, EmailUri, GroupStateUri, GroupTypeUri, GroupUri,
    HistoricalEmailUri, HistoricalPersonUri, PersonAliasUri, PersonUri, ResourceUri,
    SubmissionUri,
};
