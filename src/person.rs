use vstd::prelude::*;

use crate::page::{resolve, resolve_path, starting_at, text_of, PaginatedList};
use crate::query::{push_param, with_params};
use crate::time::{seconds_text, Timestamp};
use crate::uri::{HistoricalPersonUri, PersonAliasUri, PersonUri};

verus! {

/// A person known to the Datatracker.
#[derive(Debug)]
pub struct Person {
    pub id: u64,
    pub resource_uri: PersonUri,
    pub name: String,
    pub name_from_draft: Option<String>,
    pub biography: String,
    pub ascii: String,
    pub ascii_short: Option<String>,
    pub time: Timestamp,
    /// URL of the person's photo.
    pub photo: Option<String>,
    /// URL of a thumbnail of the person's photo.
    pub photo_thumb: Option<String>,
    pub user: Option<String>,
    pub consent: Option<bool>,
}

/// An earlier state of a person record.
#[derive(Debug)]
pub struct HistoricalPerson {
    pub id: u64,
    pub resource_uri: HistoricalPersonUri,
    pub name: String,
    pub name_from_draft: String,
    pub biography: String,
    pub ascii: String,
    pub ascii_short: Option<String>,
    pub time: Timestamp,
    pub photo: Option<String>,
    pub photo_thumb: Option<String>,
    pub user: String,
    pub consent: Option<bool>,
    pub history_change_reason: Option<String>,
    pub history_user: String,
    pub history_type: String,
    pub history_id: u64,
    pub history_date: Timestamp,
}

/// Another name under which a person is known.
#[derive(Debug)]
pub struct PersonAlias {
    pub id: u64,
    pub resource_uri: PersonAliasUri,
    pub person: PersonUri,
    pub name: String,
}

/// The server-relative path of the collection of people.
pub open spec fn people_path() -> Seq<char> {
    "/api/v1/person/person/"@
}

pub open spec fn optional_param(key: Seq<char>, value: Option<Seq<char>>) -> Seq<Seq<char>> {
    match value {
        Some(v) => seq![key + v],
        None => Seq::empty(),
    }
}

pub open spec fn time_param(t: Option<Timestamp>) -> Option<Seq<char>> {
    match t {
        Some(x) => Some(seconds_text(x@)),
        None => None,
    }
}

/// The query parameters of a filter, in the order name, name substring,
/// start of the time range, end of the time range.
pub open spec fn filter_params(f: PersonFilter) -> Seq<Seq<char>> {
    optional_param("name="@, text_of(f.name)) + optional_param(
        "name__contains="@,
        text_of(f.name_contains),
    ) + optional_param("time__gte="@, time_param(f.since)) + optional_param(
        "time__lt="@,
        time_param(f.until),
    )
}

/// The filters of a query over people, fixed before the first request.
#[derive(Debug)]
pub struct PersonFilter {
    /// The name must be exactly this.
    pub name: Option<String>,
    /// The name must contain this.
    pub name_contains: Option<String>,
    /// The record must date from this time or later.
    pub since: Option<Timestamp>,
    /// The record must date from before this time.
    pub until: Option<Timestamp>,
}

impl PersonFilter {
    /// A filter that every person passes.
    pub fn new() -> (r: Self)
        ensures
            r.name is None,
            r.name_contains is None,
            r.since is None,
            r.until is None,
    {
        PersonFilter { name: None, name_contains: None, since: None, until: None }
    }

    pub fn with_name(self, name: String) -> (r: Self)
        ensures
            r == (PersonFilter { name: Some(name), ..self }),
    {
        PersonFilter { name: Some(name), ..self }
    }

    pub fn with_name_containing(self, name: String) -> (r: Self)
        ensures
            r == (PersonFilter { name_contains: Some(name), ..self }),
    {
        PersonFilter { name_contains: Some(name), ..self }
    }

    pub fn since(self, time: Timestamp) -> (r: Self)
        ensures
            r == (PersonFilter { since: Some(time), ..self }),
    {
        PersonFilter { since: Some(time), ..self }
    }

    pub fn until(self, time: Timestamp) -> (r: Self)
        ensures
            r == (PersonFilter { until: Some(time), ..self }),
    {
        PersonFilter { until: Some(time), ..self }
    }

    /// The absolute URL of the first page of people that pass the filter.
    pub fn query_url(&self) -> (r: String)
        ensures
            r@ == with_params(resolve(people_path()), filter_params(*self)),
    {
        let ghost base = resolve(people_path());
        let mut url = resolve_path("/api/v1/person/person/");
        let mut count: usize = 0;
        let ghost mut params: Seq<Seq<char>> = Seq::empty();
        assert(url@ == with_params(base, params));
        match &self.name {
            Some(n) => {
                push_param(&mut url, "name=", n.as_str(), count, Ghost(base), Ghost(params));
                proof {
                    params = params.push("name="@ + n@);
                }
                count = count + 1;
            },
            None => {},
        }
        assert(params =~= optional_param("name="@, text_of(self.name)));
        let ghost first = params;
        match &self.name_contains {
            Some(n) => {
                push_param(&mut url, "name__contains=", n.as_str(), count, Ghost(base), Ghost(params));
                proof {
                    params = params.push("name__contains="@ + n@);
                }
                count = count + 1;
            },
            None => {},
        }
        assert(params =~= first + optional_param("name__contains="@, text_of(self.name_contains)));
        let ghost second = params;
        match &self.since {
            Some(t) => {
                let text = t.to_query_text();
                push_param(&mut url, "time__gte=", text.as_str(), count, Ghost(base), Ghost(params));
                proof {
                    params = params.push("time__gte="@ + text@);
                }
                count = count + 1;
            },
            None => {},
        }
        assert(params =~= second + optional_param("time__gte="@, time_param(self.since)));
        let ghost third = params;
        match &self.until {
            Some(t) => {
                let text = t.to_query_text();
                push_param(&mut url, "time__lt=", text.as_str(), count, Ghost(base), Ghost(params));
                proof {
                    params = params.push("time__lt="@ + text@);
                }
            },
            None => {},
        }
        assert(params =~= third + optional_param("time__lt="@, time_param(self.until)));
        assert(params =~= filter_params(*self));
        url
    }

    /// The sequence of people that pass the filter; nothing is fetched yet.
    pub fn fetch(&self) -> (r: PaginatedList<Person>)
        ensures
            r@ == starting_at::<Person>(with_params(resolve(people_path()), filter_params(*self))),
    {
        PaginatedList::new(self.query_url())
    }
}

} // verus!
