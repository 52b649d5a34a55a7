use std::collections::VecDeque;
use vstd::prelude::*;

use crate::error::{DTResult, DatatrackerError};

verus! {

/// The origin against which server-relative paths are resolved.
pub const API_ORIGIN: &'static str = "https://datatracker.ietf.org";

/// The absolute URL of a server-relative path.
pub open spec fn resolve(path: Seq<char>) -> Seq<char> {
    API_ORIGIN@ + path
}

pub fn resolve_path(path: &str) -> (r: String)
    ensures
        r@ == resolve(path@),
{
    String::from_str(API_ORIGIN).concat(path)
}

pub open spec fn text_of(s: Option<String>) -> Option<Seq<char>> {
    match s {
        Some(t) => Some(t@),
        None => None,
    }
}

/// The pagination metadata of one page of a collection.
#[derive(Debug)]
pub struct Meta {
    pub total_count: u32,
    pub limit: u32,
    pub offset: u32,
    /// Server-relative path of the page before this one, if any.
    pub previous: Option<String>,
    /// Server-relative path of the page after this one, if any.
    pub next: Option<String>,
}

/// One page of a collection: its metadata and its items in server order.
#[derive(Debug)]
pub struct Page<T> {
    pub meta: Meta,
    pub objects: Vec<T>,
}

/// What a page contributes to a sequence: its items and its continuation cursor.
pub struct PageView<T> {
    pub objects: Seq<T>,
    pub next: Option<Seq<char>>,
}

impl<T> View for Page<T> {
    type V = PageView<T>;

    open spec fn view(&self) -> PageView<T> {
        PageView { objects: self.objects@, next: text_of(self.meta.next) }
    }
}

pub open spec fn reply_view<T>(r: DTResult<Page<T>>) -> Result<PageView<T>, DatatrackerError> {
    match r {
        Ok(p) => Ok(p@),
        Err(e) => Err(e),
    }
}

/// The state of a paginated sequence: the unread items of the current page,
/// the absolute URL of the page to fetch once they run out, and an error
/// that is waiting to be reported.
pub struct ListView<T> {
    pub buffered: Seq<T>,
    pub next: Option<Seq<char>>,
    pub failure: Option<DatatrackerError>,
}

/// A sequence that has not fetched anything yet and starts at `url`.
pub open spec fn starting_at<T>(url: Seq<char>) -> ListView<T> {
    ListView { buffered: Seq::empty(), next: Some(url), failure: None }
}

/// A sequence that will produce nothing more.
pub open spec fn finished<T>(s: ListView<T>) -> bool {
    s.buffered.len() == 0 && s.next is None && s.failure is None
}

/// The sequence has nothing to hand out until the next page arrives.
pub open spec fn awaiting<T>(s: ListView<T>) -> bool {
    s.buffered.len() == 0 && s.failure is None && s.next is Some
}

/// What one attempt to produce the next element yields.
pub enum StepView<T> {
    Item(T),
    Fetch(Seq<char>),
    Failed(DatatrackerError),
    End,
}

/// One attempt to produce the next element: the next item in server order;
/// a request for the page at the given absolute URL, after which the page
/// is to be handed back; the error that ended the sequence; or its end.
#[derive(Debug)]
pub enum Step<T> {
    Item(T),
    Fetch(String),
    Failed(DatatrackerError),
    End,
}

impl<T> View for Step<T> {
    type V = StepView<T>;

    open spec fn view(&self) -> StepView<T> {
        match self {
            Step::Item(x) => StepView::Item(*x),
            Step::Fetch(u) => StepView::Fetch(u@),
            Step::Failed(e) => StepView::Failed(*e),
            Step::End => StepView::End,
        }
    }
}

/// Producing the next element: buffered items come first, then a pending
/// error (which ends the sequence), then a request for the next page.
pub open spec fn produce<T>(s: ListView<T>) -> (StepView<T>, ListView<T>) {
    if s.buffered.len() > 0 {
        (StepView::Item(s.buffered[0]), ListView { buffered: s.buffered.drop_first(), ..s })
    } else if s.failure is Some {
        (StepView::Failed(s.failure->0), ListView { buffered: s.buffered, next: None, failure: None })
    } else if s.next is Some {
        (StepView::Fetch(s.next->0), s)
    } else {
        (StepView::End, s)
    }
}

/// Taking in the reply to a page request. A page replaces the buffer and the
/// cursor; an error is kept to be reported. A sequence that is not waiting
/// for a page ignores the reply.
pub open spec fn receive<T>(s: ListView<T>, reply: Result<PageView<T>, DatatrackerError>) -> ListView<T> {
    if !awaiting(s) {
        s
    } else {
        match reply {
            Ok(p) => ListView {
                buffered: p.objects,
                next: match p.next {
                    Some(n) => Some(resolve(n)),
                    None => None,
                },
                failure: None,
            },
            Err(e) => ListView { buffered: Seq::empty(), next: None, failure: Some(e) },
        }
    }
}

/// A lazy, single-pass sequence over a paginated collection.
///
/// The sequence holds the unread items of the current page and the URL of
/// the next one. It fetches nothing itself: when its buffer runs out it asks
/// for the next page, and the caller performs the request and hands the
/// reply back. A failed page request ends the sequence after the error has
/// been reported once.
pub struct PaginatedList<T> {
    buffer: VecDeque<T>,
    next: Option<String>,
    failure: Option<DatatrackerError>,
}

impl<T> View for PaginatedList<T> {
    type V = ListView<T>;

    closed spec fn view(&self) -> ListView<T> {
        ListView { buffered: self.buffer@, next: text_of(self.next), failure: self.failure }
    }
}

impl<T> PaginatedList<T> {
    /// A sequence over the collection whose first page is at `url`.
    pub fn new(url: String) -> (r: Self)
        ensures
            r@ == starting_at::<T>(url@),
    {
        let r = PaginatedList { buffer: VecDeque::new(), next: Some(url), failure: None };
        assert(r@.buffered =~= Seq::<T>::empty());
        r
    }

    /// Produces the next element of the sequence.
    pub fn next_step(&mut self) -> (r: Step<T>)
        ensures
            (r@, final(self)@) == produce(old(self)@),
    {
        match self.buffer.pop_front() {
            Some(x) => {
                assert(self.buffer@ =~= old(self)@.buffered.drop_first());
                Step::Item(x)
            },
            None => {
                if self.failure.is_some() {
                    self.next = None;
                    match self.failure.take() {
                        Some(e) => Step::Failed(e),
                        None => Step::End,
                    }
                } else {
                    match &self.next {
                        Some(u) => Step::Fetch(u.clone()),
                        None => Step::End,
                    }
                }
            },
        }
    }

    /// Takes in the reply to the request that `next_step` asked for.
    pub fn receive_page(&mut self, reply: DTResult<Page<T>>)
        ensures
            final(self)@ == receive(old(self)@, reply_view(reply)),
    {
        broadcast use vstd::std_specs::vecdeque::group_vec_dequeue_axioms;

        let waiting = self.buffer.len() == 0 && self.failure.is_none() && self.next.is_some();
        if !waiting {
            return;
        }
        match reply {
            Ok(page) => {
                let ghost objects = page.objects@;
                let mut rest = page.objects;
                while rest.len() > 0
                    invariant
                        rest@ + self.buffer@ == objects,
                        self.failure is None,
                    decreases rest.len(),
                {
                    match rest.pop() {
                        Some(x) => {
                            self.buffer.push_front(x);
                        },
                        None => {},
                    }
                }
                assert(self.buffer@ =~= objects);
                self.next = match page.meta.next {
                    Some(n) => Some(resolve_path(n.as_str())),
                    None => None,
                };

            },
            Err(e) => {
                assert(self.buffer@ =~= Seq::<T>::empty());
                self.next = None;
                self.failure = Some(e);
            },
        }
    }
}


/// What a consumer sees when it produces elements until the sequence ends,
/// answering each page request with the next reply in `replies`. When the
/// replies run out, the consumer stops after the unanswered request.
pub open spec fn drive<T>(s: ListView<T>, replies: Seq<Result<PageView<T>, DatatrackerError>>) -> Seq<
    StepView<T>,
>
    decreases replies.len(), s.buffered.len(), if s.failure is Some {
        1nat
    } else {
        0nat
    },
{
    let (out, after) = produce(s);
    if s.buffered.len() > 0 || s.failure is Some {
        seq![out] + drive(after, replies)
    } else if s.next is Some {
        if replies.len() == 0 {
            seq![out]
        } else {
            seq![out] + drive(receive(after, replies[0]), replies.drop_first())
        }
    } else {
        Seq::empty()
    }
}

/// Every page but the last names a next page; the last names none.
pub open spec fn is_chain<T>(pages: Seq<PageView<T>>) -> bool {
    &&& pages.len() > 0
    &&& forall|i: int| 0 <= i < pages.len() - 1 ==> (#[trigger] pages[i]).next is Some
    &&& pages.last().next is None
}

pub open spec fn as_items<T>(xs: Seq<T>) -> Seq<StepView<T>> {
    xs.map_values(|x: T| StepView::Item(x))
}

/// The elements of a consumed chain of pages: a request for each page,
/// followed by that page's items in order.
pub open spec fn chain_steps<T>(url: Seq<char>, pages: Seq<PageView<T>>) -> Seq<StepView<T>>
    decreases pages.len(),
{
    if pages.len() == 0 {
        Seq::empty()
    } else {
        seq![StepView::Fetch(url)] + as_items(pages[0].objects) + match pages[0].next {
            Some(n) => chain_steps(resolve(n), pages.drop_first()),
            None => Seq::empty(),
        }
    }
}

/// The items among the elements, in order.
pub open spec fn items_of<T>(steps: Seq<StepView<T>>) -> Seq<T>
    decreases steps.len(),
{
    if steps.len() == 0 {
        Seq::empty()
    } else {
        let rest = items_of(steps.drop_first());
        match steps[0] {
            StepView::Item(x) => seq![x] + rest,
            _ => rest,
        }
    }
}

/// The items of all pages, page after page.
pub open spec fn all_objects<T>(pages: Seq<PageView<T>>) -> Seq<T>
    decreases pages.len(),
{
    if pages.len() == 0 {
        Seq::empty()
    } else {
        pages[0].objects + all_objects(pages.drop_first())
    }
}

pub open spec fn successes<T>(pages: Seq<PageView<T>>) -> Seq<Result<PageView<T>, DatatrackerError>> {
    pages.map_values(|p: PageView<T>| Ok(p))
}

proof fn lemma_drain_buffer<T>(s: ListView<T>, replies: Seq<Result<PageView<T>, DatatrackerError>>)
    requires
        s.failure is None,
    ensures
        drive(s, replies) == as_items(s.buffered) + drive(
            ListView { buffered: Seq::empty(), ..s },
            replies,
        ),
    decreases s.buffered.len(),
{
    if s.buffered.len() > 0 {
        let after = ListView { buffered: s.buffered.drop_first(), ..s };
        lemma_drain_buffer(after, replies);
        assert(as_items(s.buffered) =~= seq![StepView::Item(s.buffered[0])] + as_items(
            after.buffered,
        ));
        assert(ListView { buffered: Seq::<T>::empty(), ..after } == ListView {
            buffered: Seq::<T>::empty(),
            ..s
        });
    } else {
        assert(as_items(s.buffered) =~= Seq::empty());
        assert(s.buffered =~= Seq::<T>::empty());
        assert(as_items(s.buffered) + drive(s, replies) =~= drive(s, replies));
    }
}

proof fn lemma_items_of_concat<T>(a: Seq<StepView<T>>, b: Seq<StepView<T>>)
    ensures
        items_of(a + b) == items_of(a) + items_of(b),
    decreases a.len(),
{
    if a.len() == 0 {
        assert(a + b =~= b);
    } else {
        lemma_items_of_concat(a.drop_first(), b);
        assert((a + b).drop_first() =~= a.drop_first() + b);
    }
}

proof fn lemma_items_of_items<T>(xs: Seq<T>)
    ensures
        items_of(as_items(xs)) == xs,
    decreases xs.len(),
{
    if xs.len() > 0 {
        lemma_items_of_items(xs.drop_first());
        assert(as_items(xs).drop_first() =~= as_items(xs.drop_first()));
        assert(xs =~= seq![xs[0]] + xs.drop_first());
    } else {
        assert(as_items(xs) =~= Seq::empty());
    }
}

/// Consuming a sequence over a chain of pages, each request answered with
/// the next page, requests each page once its predecessor's items have all
/// been handed out, and yields every page's items in server order.
pub proof fn lemma_pages_concatenate<T>(url: Seq<char>, pages: Seq<PageView<T>>)
    requires
        is_chain(pages),
    ensures
        drive(starting_at::<T>(url), successes(pages)) == chain_steps(url, pages),
        items_of(drive(starting_at::<T>(url), successes(pages))) == all_objects(pages),
    decreases pages.len(),
{
    let s = starting_at::<T>(url);
    let replies = successes(pages);
    let p = pages[0];
    let filled = receive(s, replies[0]);
    assert(replies.drop_first() =~= successes(pages.drop_first()));
    lemma_drain_buffer(filled, replies.drop_first());
    let emptied = ListView { buffered: Seq::<T>::empty(), ..filled };
    match p.next {
        Some(n) => {
            let rest = pages.drop_first();
            lemma_chain_tail(pages);
            lemma_pages_concatenate(resolve(n), rest);
            assert(emptied == starting_at::<T>(resolve(n)));
        },
        None => {
            assert(drive(emptied, replies.drop_first()) =~= Seq::empty());
        },
    }
    assert(drive(s, replies) =~= seq![StepView::Fetch(url)] + drive(filled, replies.drop_first()));
    assert(drive(s, replies) =~= chain_steps(url, pages));
    lemma_items_of_all(url, pages);
}

proof fn lemma_chain_tail<T>(pages: Seq<PageView<T>>)
    requires
        is_chain(pages),
        pages[0].next is Some,
    ensures
        is_chain(pages.drop_first()),
{
    let rest = pages.drop_first();
    assert(pages.len() > 1);
    assert forall|i: int| 0 <= i < rest.len() - 1 implies (#[trigger] rest[i]).next is Some by {
        assert(rest[i] == pages[i + 1]);
    }
    assert(rest.last() == pages.last());
}

proof fn lemma_items_of_all<T>(url: Seq<char>, pages: Seq<PageView<T>>)
    requires
        is_chain(pages),
    ensures
        items_of(chain_steps(url, pages)) == all_objects(pages),
    decreases pages.len(),
{
    if pages.len() > 0 {
        let head = seq![StepView::<T>::Fetch(url)] + as_items(pages[0].objects);
        let tail = match pages[0].next {
            Some(n) => chain_steps(resolve(n), pages.drop_first()),
            None => Seq::empty(),
        };
        lemma_items_of_concat(head, tail);
        lemma_items_of_concat(seq![StepView::<T>::Fetch(url)], as_items(pages[0].objects));
        lemma_items_of_items(pages[0].objects);
        assert(items_of(seq![StepView::<T>::Fetch(url)]) =~= Seq::empty()) by {
            assert(seq![StepView::<T>::Fetch(url)].drop_first() =~= Seq::empty());
            assert(items_of(Seq::<StepView<T>>::empty()) =~= Seq::empty());
        }
        assert(chain_steps(url, pages) == head + tail);
        assert(items_of(head) =~= pages[0].objects);
        match pages[0].next {
            Some(n) => {
                lemma_chain_tail(pages);
                lemma_items_of_all(resolve(n), pages.drop_first());
            },
            None => {
                assert(items_of(tail) =~= Seq::empty());
                assert(pages.drop_first() =~= Seq::<PageView<T>>::empty());
                assert(all_objects(pages.drop_first()) =~= Seq::empty());
                assert(all_objects(pages) =~= pages[0].objects);
            },
        }
    }
}

/// Consuming a sequence over a single page that names no next page yields a
/// request for it and then exactly its items, in server order.
pub proof fn lemma_single_page<T>(url: Seq<char>, page: PageView<T>)
    requires
        page.next is None,
    ensures
        drive(starting_at::<T>(url), seq![Ok(page)]) == seq![StepView::Fetch(url)] + as_items(page.objects),
        items_of(drive(starting_at::<T>(url), seq![Ok(page)])) == page.objects,
{
    let pages = seq![page];
    assert(successes(pages) =~= seq![Ok(page)]);
    lemma_pages_concatenate(url, pages);
    assert(chain_steps(url, pages) =~= seq![StepView::Fetch(url)] + as_items(page.objects));
    assert(all_objects(pages) =~= page.objects) by {
        assert(pages.drop_first() =~= Seq::<PageView<T>>::empty());
        assert(all_objects(pages.drop_first()) =~= Seq::empty());
    }
}

/// An operation on a sequence: an attempt to produce, or a page reply.
pub enum Operation<T> {
    Produce,
    Reply(Result<PageView<T>, DatatrackerError>),
}

/// The elements that the produce operations yield, one for each.
pub open spec fn replay<T>(s: ListView<T>, ops: Seq<Operation<T>>) -> Seq<StepView<T>>
    decreases ops.len(),
{
    if ops.len() == 0 {
        Seq::empty()
    } else {
        match ops[0] {
            Operation::Produce => seq![produce(s).0] + replay(produce(s).1, ops.drop_first()),
            Operation::Reply(r) => replay(receive(s, r), ops.drop_first()),
        }
    }
}

proof fn lemma_finished_stays<T>(s: ListView<T>, ops: Seq<Operation<T>>)
    requires
        finished(s),
    ensures
        forall|i: int| 0 <= i < replay(s, ops).len() ==> replay(s, ops)[i] == StepView::<T>::End,
    decreases ops.len(),
{
    if ops.len() > 0 {
        match ops[0] {
            Operation::Produce => lemma_finished_stays(produce(s).1, ops.drop_first()),
            Operation::Reply(r) => lemma_finished_stays(receive(s, r), ops.drop_first()),
        }
    }
}

/// Once a sequence has yielded an error, every later attempt to produce
/// yields the end, whatever replies arrive in between.
pub proof fn lemma_error_is_final<T>(s: ListView<T>, ops: Seq<Operation<T>>)
    requires
        produce(s).0 is Failed,
    ensures
        finished(produce(s).1),
        forall|i: int|
            0 <= i < replay(produce(s).1, ops).len() ==> replay(produce(s).1, ops)[i]
                == StepView::<T>::End,
{
    lemma_finished_stays(produce(s).1, ops);
}

} // verus!
