use std::marker::PhantomData;
use vstd::prelude::*;

verus! {

/// The kinds of resource that a typed URI can name.
#[derive(Debug, Clone, Copy, PartialEq, Eq, Structural)]
pub enum ResourceKind {
    Email,
    HistoricalEmail,
    Person,
    HistoricalPerson,
    PersonAlias,
    Document,
    Submission,
    DocState,
    DocStateType,
    Group,
    GroupType,
    GroupState,
}

/// The path under which the server places every resource of a kind.
pub open spec fn kind_prefix(kind: ResourceKind) -> Seq<char> {
    match kind {
        ResourceKind::Email => "/api/v1/person/email/"@,
        ResourceKind::HistoricalEmail => "/api/v1/person/historicalemail/"@,
        ResourceKind::Person => "/api/v1/person/person/"@,
        ResourceKind::HistoricalPerson => "/api/v1/person/historicalperson/"@,
        ResourceKind::PersonAlias => "/api/v1/person/alias/"@,
        ResourceKind::Document => "/api/v1/doc/document/"@,
        ResourceKind::Submission => "/api/v1/submit/submission/"@,
        ResourceKind::DocState => "/api/v1/doc/state/"@,
        ResourceKind::DocStateType => "/api/v1/doc/statetype/"@,
        ResourceKind::Group => "/api/v1/group/group/"@,
        ResourceKind::GroupType => "/api/v1/name/grouptypename/"@,
        ResourceKind::GroupState => "/api/v1/name/groupstatename/"@,
    }
}

pub open spec fn starts_with(s: Seq<char>, prefix: Seq<char>) -> bool {
    prefix.len() <= s.len() && s.subrange(0, prefix.len() as int) == prefix
}

/// A path may name a resource of a kind when it is empty or lies under the
/// kind's prefix.
pub open spec fn valid_path(kind: ResourceKind, path: Seq<char>) -> bool {
    path.len() == 0 || starts_with(path, kind_prefix(kind))
}

/// What a typed URI denotes: the kind of resource, and its server-relative path.
pub struct ResourceRef {
    pub kind: ResourceKind,
    pub path: Seq<char>,
}

/// A marker type for one kind of resource.
pub trait UriKind {
    spec fn kind() -> ResourceKind;

    fn prefix() -> (r: &'static str)
        ensures
            r@ == kind_prefix(Self::kind()),
    ;
}

/// A server-relative path naming a resource of the kind `K`.
///
/// URIs of different kinds are different types, so one cannot be passed
/// where another is expected. The path is empty or lies under the kind's
/// prefix.
#[derive(Debug, Hash)]
pub struct ResourceUri<K: UriKind> {
    path: String,
    kind: PhantomData<K>,
}

impl<K: UriKind> ResourceUri<K> {
    #[verifier::type_invariant]
    spec fn well_formed(self) -> bool {
        valid_path(K::kind(), self.path@)
    }

    pub closed spec fn path_view(&self) -> Seq<char> {
        self.path@
    }

    /// The URI of the resource at `path`, or `None` where the path does not
    /// lie under the prefix of this kind.
    pub fn new(path: String) -> (r: Option<Self>)
        ensures
            r is Some <==> valid_path(K::kind(), path@),
            r is Some ==> r->0@ == (ResourceRef { kind: K::kind(), path: path@ }),
    {
        let prefix = K::prefix();
        let n = path.as_str().unicode_len();
        let m = prefix.unicode_len();
        if n == 0 {
            return Some(ResourceUri { path, kind: PhantomData });
        }
        if m > n {
            return None;
        }
        let head = String::from_str(path.as_str().substring_char(0, m));
        let expected = String::from_str(prefix);
        if head == expected {
            Some(ResourceUri { path, kind: PhantomData })
        } else {
            None
        }
    }

    /// The server-relative path.
    pub fn path(&self) -> (r: &str)
        ensures
            r@ == self@.path,
            valid_path(K::kind(), r@),
    {
        proof {
            use_type_invariant(self);
        }
        self.path.as_str()
    }
}

impl<K: UriKind> View for ResourceUri<K> {
    type V = ResourceRef;

    open spec fn view(&self) -> ResourceRef {
        ResourceRef { kind: K::kind(), path: self.path_view() }
    }
}

impl<K: UriKind> PartialEq for ResourceUri<K> {
    fn eq(&self, other: &Self) -> (r: bool)
        ensures
            r == (self@ == other@),
    {
        self.path == other.path
    }
}

impl<K: UriKind> vstd::std_specs::cmp::PartialEqSpecImpl for ResourceUri<K> {
    open spec fn obeys_eq_spec() -> bool {
        true
    }

    open spec fn eq_spec(&self, other: &Self) -> bool {
        self@ == other@
    }
}

impl<K: UriKind> Eq for ResourceUri<K> {}

impl<K: UriKind> Clone for ResourceUri<K> {
    fn clone(&self) -> (r: Self)
        ensures
            r@ == self@,
    {
        proof {
            use_type_invariant(self);
        }
        ResourceUri { path: self.path.clone(), kind: PhantomData }
    }
}

/// Two URIs of one kind decoded from identical path strings are equal, so
/// `==` on them holds.
pub proof fn lemma_same_path_same_uri<K: UriKind>(a: ResourceUri<K>, b: ResourceUri<K>)
    requires
        a@.path == b@.path,
    ensures
        a@ == b@,
{
}

/// URIs of different kinds never denote the same thing, whatever their paths.
pub proof fn lemma_kinds_never_equal<A: UriKind, B: UriKind>(a: ResourceUri<A>, b: ResourceUri<B>)
    requires
        A::kind() != B::kind(),
    ensures
        a@ != b@,
{
}

#[derive(Debug, Clone, Copy, Hash)]
pub struct EmailKind;

impl UriKind for EmailKind {
    open spec fn kind() -> ResourceKind {
        ResourceKind::Email
    }

    fn prefix() -> (r: &'static str) {
        "/api/v1/person/email/"
    }
}

#[derive(Debug, Clone, Copy, Hash)]
pub struct HistoricalEmailKind;

impl UriKind for HistoricalEmailKind {
    open spec fn kind() -> ResourceKind {
        ResourceKind::HistoricalEmail
    }

    fn prefix() -> (r: &'static str) {
        "/api/v1/person/historicalemail/"
    }
}

#[derive(Debug, Clone, Copy, Hash)]
pub struct PersonKind;

impl UriKind for PersonKind {
    open spec fn kind() -> ResourceKind {
        ResourceKind::Person
    }

    fn prefix() -> (r: &'static str) {
        "/api/v1/person/person/"
    }
}

#[derive(Debug, Clone, Copy, Hash)]
pub struct HistoricalPersonKind;

impl UriKind for HistoricalPersonKind {
    open spec fn kind() -> ResourceKind {
        ResourceKind::HistoricalPerson
    }

    fn prefix() -> (r: &'static str) {
        "/api/v1/person/historicalperson/"
    }
}

#[derive(Debug, Clone, Copy, Hash)]
pub struct PersonAliasKind;

impl UriKind for PersonAliasKind {
    open spec fn kind() -> ResourceKind {
        ResourceKind::PersonAlias
    }

    fn prefix() -> (r: &'static str) {
        "/api/v1/person/alias/"
    }
}

#[derive(Debug, Clone, Copy, Hash)]
pub struct DocumentKind;

impl UriKind for DocumentKind {
    open spec fn kind() -> ResourceKind {
        ResourceKind::Document
    }

    fn prefix() -> (r: &'static str) {
        "/api/v1/doc/document/"
    }
}

#[derive(Debug, Clone, Copy, Hash)]
pub struct SubmissionKind;

impl UriKind for SubmissionKind {
    open spec fn kind() -> ResourceKind {
        ResourceKind::Submission
    }

    fn prefix() -> (r: &'static str) {
        "/api/v1/submit/submission/"
    }
}

#[derive(Debug, Clone, Copy, Hash)]
pub struct DocStateKind;

impl UriKind for DocStateKind {
    open spec fn kind() -> ResourceKind {
        ResourceKind::DocState
    }

    fn prefix() -> (r: &'static str) {
        "/api/v1/doc/state/"
    }
}

#[derive(Debug, Clone, Copy, Hash)]
pub struct DocStateTypeKind;

impl UriKind for DocStateTypeKind {
    open spec fn kind() -> ResourceKind {
        ResourceKind::DocStateType
    }

    fn prefix() -> (r: &'static str) {
        "/api/v1/doc/statetype/"
    }
}

#[derive(Debug, Clone, Copy, Hash)]
pub struct GroupKind;

impl UriKind for GroupKind {
    open spec fn kind() -> ResourceKind {
        ResourceKind::Group
    }

    fn prefix() -> (r: &'static str) {
        "/api/v1/group/group/"
    }
}

#[derive(Debug, Clone, Copy, Hash)]
pub struct GroupTypeKind;

impl UriKind for GroupTypeKind {
    open spec fn kind() -> ResourceKind {
        ResourceKind::GroupType
    }

    fn prefix() -> (r: &'static str) {
        "/api/v1/name/grouptypename/"
    }
}

#[derive(Debug, Clone, Copy, Hash)]
pub struct GroupStateKind;

impl UriKind for GroupStateKind {
    open spec fn kind() -> ResourceKind {
        ResourceKind::GroupState
    }

    fn prefix() -> (r: &'static str) {
        "/api/v1/name/groupstatename/"
    }
}

pub type EmailUri = ResourceUri<EmailKind>;

pub type HistoricalEmailUri = ResourceUri<HistoricalEmailKind>;

pub type PersonUri = ResourceUri<PersonKind>;

pub type HistoricalPersonUri = ResourceUri<HistoricalPersonKind>;

pub type PersonAliasUri = ResourceUri<PersonAliasKind>;

pub type DocumentUri = ResourceUri<DocumentKind>;

pub type SubmissionUri = ResourceUri<SubmissionKind>;

pub type DocStateUri = ResourceUri<DocStateKind>;

pub type DocStateTypeUri = ResourceUri<DocStateTypeKind>;

pub type GroupUri = ResourceUri<GroupKind>;

pub type GroupTypeUri = ResourceUri<GroupTypeKind>;

pub type GroupStateUri = ResourceUri<GroupStateKind>;

} // verus!
