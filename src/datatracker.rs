use vstd::prelude::*;

use crate::client::Lookup;
use crate::document::{DocState, DocStateType};
use crate::email::{Email, HistoricalEmail};
use crate::error::{DTResult, DatatrackerError};
use crate::page::{resolve, resolve_path, starting_at, PaginatedList};
use crate::person::{filter_params, people_path, HistoricalPerson, Person, PersonAlias, PersonFilter};
use crate::query::{decimal, push_decimal, with_params};
use crate::time::{seconds_text, Timestamp};
use crate::uri::{DocStateTypeUri, DocStateUri, EmailUri, PersonUri};

verus! {

/// The absolute URL of `path` followed by `value`.
fn resolve_with(path: &str, value: &str) -> (r: String)
    ensures
        r@ == resolve(path@ + value@),
{
    let r = resolve_path(path).concat(value);
    assert(r@ =~= resolve(path@ + value@));
    r
}

/// The absolute URL of `path` followed by the decimal digits of `n`.
fn resolve_with_number(path: &str, n: u64) -> (r: String)
    ensures
        r@ == resolve(path@ + decimal(n as nat)),
{
    let mut r = resolve_path(path);
    push_decimal(&mut r, n);
    assert(r@ =~= resolve(path@ + decimal(n as nat)));
    r
}

/// The first stage of the derived lookup of the person who owns an email
/// address: the email record is fetched, then the person it names.
pub struct PersonLookup {
    email: Lookup<Email>,
}

impl View for PersonLookup {
    type V = Seq<char>;

    closed spec fn view(&self) -> Seq<char> {
        self.email@
    }
}

impl PersonLookup {
    /// The request for the email record, which comes first.
    pub fn email_lookup(&self) -> (r: &Lookup<Email>)
        ensures
            r@ == self@,
    {
        &self.email
    }

    /// The request for the person, given the outcome of the email request.
    /// A failed email request ends the lookup with its error, and the person
    /// is then not requested.
    pub fn person_lookup(&self, email: DTResult<Email>) -> (r: DTResult<Lookup<Person>>)
        ensures
            match email {
                Ok(e) => r is Ok && r->Ok_0@ == resolve(e.person@.path),
                Err(x) => r == Err::<Lookup<Person>, DatatrackerError>(x),
            },
    {
        match email {
            Ok(e) => Ok(Lookup::new(resolve_path(e.person.path()))),
            Err(x) => Err(x),
        }
    }
}

/// The endpoints of the Datatracker API. Each method builds the request for
/// one endpoint: a `Lookup` for a single resource, or a `PaginatedList` for
/// a collection. Nothing is fetched until the caller performs the requests.
pub struct Datatracker {}

impl Datatracker {
    pub fn new() -> (r: Self) {
        Datatracker {}
    }

    /// The email record that `email_uri` names.
    pub fn email(&self, email_uri: &EmailUri) -> (r: Lookup<Email>)
        ensures
            r@ == resolve(email_uri@.path),
    {
        Lookup::new(resolve_path(email_uri.path()))
    }

    /// The email record of an address.
    pub fn email_from_address(&self, email_addr: &str) -> (r: Lookup<Email>)
        ensures
            r@ == resolve("/api/v1/person/email/"@ + email_addr@ + "/"@),
    {
        let url = resolve_with("/api/v1/person/email/", email_addr).concat("/");
        assert(url@ =~= resolve("/api/v1/person/email/"@ + email_addr@ + "/"@));
        Lookup::new(url)
    }

    /// The earlier states of the records of an address.
    pub fn email_history_for_address(&self, email_addr: &str) -> (r: PaginatedList<HistoricalEmail>)
        ensures
            r@ == starting_at::<HistoricalEmail>(
                resolve("/api/v1/person/historicalemail/?address="@ + email_addr@),
            ),
    {
        PaginatedList::new(resolve_with("/api/v1/person/historicalemail/?address=", email_addr))
    }

    /// The earlier states of the email records of a person.
    pub fn email_history_for_person(&self, person: &Person) -> (r: PaginatedList<HistoricalEmail>)
        ensures
            r@ == starting_at::<HistoricalEmail>(
                resolve("/api/v1/person/historicalemail/?person="@ + decimal(person.id as nat)),
            ),
    {
        PaginatedList::new(resolve_with_number("/api/v1/person/historicalemail/?person=", person.id))
    }

    /// The person that `person_uri` names.
    pub fn person(&self, person_uri: &PersonUri) -> (r: Lookup<Person>)
        ensures
            r@ == resolve(person_uri@.path),
    {
        Lookup::new(resolve_path(person_uri.path()))
    }

    /// The person who owns the email record that `email` names.
    pub fn person_from_email(&self, email: &EmailUri) -> (r: PersonLookup)
        ensures
            r@ == resolve(email@.path),
    {
        PersonLookup { email: self.email(email) }
    }

    /// The person who owns an address.
    pub fn person_from_email_address(&self, email_addr: &str) -> (r: PersonLookup)
        ensures
            r@ == resolve("/api/v1/person/email/"@ + email_addr@ + "/"@),
    {
        PersonLookup { email: self.email_from_address(email_addr) }
    }

    /// The other names of a person.
    pub fn person_aliases(&self, person: &Person) -> (r: PaginatedList<PersonAlias>)
        ensures
            r@ == starting_at::<PersonAlias>(
                resolve("/api/v1/person/alias/?person="@ + decimal(person.id as nat)),
            ),
    {
        PaginatedList::new(resolve_with_number("/api/v1/person/alias/?person=", person.id))
    }

    /// The earlier states of a person's record.
    pub fn person_history(&self, person: &Person) -> (r: PaginatedList<HistoricalPerson>)
        ensures
            r@ == starting_at::<HistoricalPerson>(
                resolve("/api/v1/person/historicalperson/?id="@ + decimal(person.id as nat)),
            ),
    {
        PaginatedList::new(resolve_with_number("/api/v1/person/historicalperson/?id=", person.id))
    }

    /// Everybody.
    pub fn people(&self) -> (r: PaginatedList<Person>)
        ensures
            r@ == starting_at::<Person>(resolve(people_path())),
    {
        let filter = PersonFilter::new();
        assert(filter_params(filter) =~= Seq::empty());
        filter.fetch()
    }

    /// The people with exactly this name.
    pub fn people_with_name(&self, name: &str) -> (r: PaginatedList<Person>)
        ensures
            r@ == starting_at::<Person>(with_params(resolve(people_path()), seq!["name="@ + name@])),
    {
        let filter = PersonFilter::new().with_name(String::from_str(name));
        assert(filter_params(filter) =~= seq!["name="@ + name@]);
        filter.fetch()
    }

    /// The people whose name contains `name_contains`.
    pub fn people_with_name_containing(&self, name_contains: &str) -> (r: PaginatedList<Person>)
        ensures
            r@ == starting_at::<Person>(
                with_params(resolve(people_path()), seq!["name__contains="@ + name_contains@]),
            ),
    {
        let filter = PersonFilter::new().with_name_containing(String::from_str(name_contains));
        assert(filter_params(filter) =~= seq!["name__contains="@ + name_contains@]);
        filter.fetch()
    }

    /// The people whose records date from `start` or later, and from before
    /// `before`.
    pub fn people_between(&self, start: Timestamp, before: Timestamp) -> (r: PaginatedList<Person>)
        ensures
            r@ == starting_at::<Person>(
                with_params(
                    resolve(people_path()),
                    seq!["time__gte="@ + seconds_text(start@), "time__lt="@ + seconds_text(before@)],
                ),
            ),
    {
        let filter = PersonFilter::new().since(start).until(before);
        assert(filter_params(filter) =~= seq![
            "time__gte="@ + seconds_text(start@),
            "time__lt="@ + seconds_text(before@),
        ]);
        filter.fetch()
    }

    /// The document state that `state_uri` names.
    pub fn doc_state(&self, state_uri: &DocStateUri) -> (r: Lookup<DocState>)
        ensures
            r@ == resolve(state_uri@.path),
    {
        Lookup::new(resolve_path(state_uri.path()))
    }

    /// All document states.
    pub fn doc_states(&self) -> (r: PaginatedList<DocState>)
        ensures
            r@ == starting_at::<DocState>(resolve("/api/v1/doc/state/"@)),
    {
        PaginatedList::new(resolve_path("/api/v1/doc/state/"))
    }

    /// The family of document states that `state_type_uri` names.
    pub fn doc_state_type(&self, state_type_uri: &DocStateTypeUri) -> (r: Lookup<DocStateType>)
        ensures
            r@ == resolve(state_type_uri@.path),
    {
        Lookup::new(resolve_path(state_type_uri.path()))
    }

    /// All families of document states.
    pub fn doc_state_types(&self) -> (r: PaginatedList<DocStateType>)
        ensures
            r@ == starting_at::<DocStateType>(resolve("/api/v1/doc/statetype/"@)),
    {
        PaginatedList::new(resolve_path("/api/v1/doc/statetype/"))
    }
}

} // verus!
