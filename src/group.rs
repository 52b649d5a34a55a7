use vstd::prelude::*;

use crate::time::Timestamp;
use crate::uri::{DocStateUri, DocumentUri, GroupStateUri, GroupTypeUri, GroupUri, PersonUri};

verus! {

/// A working group, research group, area or other body.
#[derive(Debug)]
pub struct Group {
    pub id: u64,
    pub resource_uri: GroupUri,
    pub acronym: String,
    pub name: String,
    pub description: String,
    pub charter: DocumentUri,
    pub ad: Option<PersonUri>,
    pub time: Timestamp,
    pub group_type: GroupTypeUri,
    pub comments: String,
    pub parent: GroupUri,
    pub state: GroupStateUri,
    pub unused_states: Vec<DocStateUri>,
    pub unused_tags: Vec<String>,
    pub list_email: String,
    pub list_subscribe: String,
    pub list_archive: String,
}

/// A kind of group.
#[derive(Debug)]
pub struct GroupType {
    pub resource_uri: GroupTypeUri,
    pub name: String,
    pub verbose_name: String,
    pub slug: String,
    pub desc: String,
    pub used: bool,
    pub order: u64,
}

/// A state that a group can be in.
#[derive(Debug)]
pub struct GroupState {
    pub resource_uri: GroupStateUri,
    pub desc: String,
    pub name: String,
    pub slug: String,
    pub used: bool,
    pub order: u64,
}

} // verus!
