use vstd::prelude::*;

use crate::time::Timestamp;
use crate::uri::{EmailUri, HistoricalEmailUri, PersonUri};

verus! {

/// An email address known to the Datatracker.
#[derive(Debug)]
pub struct Email {
    pub resource_uri: EmailUri,
    pub address: String,
    pub person: PersonUri,
    pub time: Timestamp,
    pub origin: String,
    pub primary: bool,
    pub active: bool,
}

/// An earlier state of an email address record.
#[derive(Debug)]
pub struct HistoricalEmail {
    pub resource_uri: HistoricalEmailUri,
    pub address: String,
    pub person: PersonUri,
    pub time: Timestamp,
    pub origin: String,
    pub primary: bool,
    pub active: bool,
    pub history_change_reason: Option<String>,
    pub history_user: Option<String>,
    pub history_id: u64,
    pub history_type: String,
    pub history_date: Timestamp,
}

} // verus!
