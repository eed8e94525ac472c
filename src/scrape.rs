//! The scrape orchestrator: discover the links of a page, then fetch and store
//! each one in turn, skipping links whose fetch fails and stopping on the
//! first storage failure.
//!
//! It is a state machine: each method takes the outcome of the work that the
//! previous [`Action`] asked for and returns the next action.
use vstd::prelude::*;
use crate::client::{client_error_text, Capability, ClientError};
use crate::keys::{now_millis, storage_key, storage_key_at};

verus! {

/// Where a scrape stands.
#[derive(Clone, Copy, Debug, PartialEq, Eq, Structural)]
pub enum Phase {
    /// Waiting for the links of the page.
    Discovering,
    /// Waiting for the Markdown of the current link.
    Fetching,
    /// Waiting for the store of the current link's Markdown.
    Storing,
    /// Done; the result is final.
    Completed,
}

/// The outcome of one scrape, as the caller sees it.
#[derive(Clone, Debug)]
pub struct ScrapeResult {
    pub success: bool,
    /// Public locations of the stored objects, in discovery order.
    pub stored_locations: Vec<String>,
    pub error: Option<String>,
}

/// The work that the host is to do next.
#[derive(Clone, Debug)]
pub enum Action {
    /// Ask the rendering service for the links of this page.
    DiscoverLinks(String),
    /// Ask the rendering service for the Markdown of this link.
    FetchMarkdown(String),
    /// Put this content under this key in the object store.
    Store { key: String, content: String },
    /// Answer the caller with this result.
    Finish(ScrapeResult),
}

/// The abstract state of a scrape.
pub struct ScrapeModel {
    pub base: Seq<char>,
    pub target: Seq<char>,
    pub phase: Phase,
    pub links: Seq<Seq<char>>,
    /// Index of the current link.
    pub next: nat,
    /// Locations stored so far.
    pub stored: Seq<Seq<char>>,
    /// Key and content of the store asked for.
    pub pending_key: Seq<char>,
    pub pending_content: Seq<char>,
    pub success: bool,
    pub error: Option<Seq<char>>,
}

/// What the host reports back.
pub enum ScrapeEvent {
    LinksFound(Seq<Seq<char>>),
    LinksFailed(ClientError),
    /// Markdown fetched, with the time of writing in milliseconds.
    Fetched(Seq<char>, int),
    FetchFailed,
    StoreOk,
    StoreFailed(Seq<char>),
}

/// The public location of the object stored under `key`.
pub open spec fn location(base: Seq<char>, key: Seq<char>) -> Seq<char> {
    base + "/"@ + key
}

pub open spec fn links_failure_text(e: ClientError) -> Seq<char> {
    "Scraping failed: Failed to fetch links: "@ + client_error_text(e, Capability::Links)
}

pub open spec fn store_failure_text(key: Seq<char>, detail: Seq<char>) -> Seq<char> {
    "Scraping failed: Failed to store "@ + key + ": "@ + detail
}

pub open spec fn initial(base: Seq<char>, target: Seq<char>) -> ScrapeModel {
    ScrapeModel {
        base,
        target,
        phase: Phase::Discovering,
        links: seq![],
        next: 0,
        stored: seq![],
        pending_key: seq![],
        pending_content: seq![],
        success: false,
        error: None,
    }
}

/// Moves past the current link.
pub open spec fn advance(m: ScrapeModel) -> ScrapeModel {
    if m.next + 1 < m.links.len() {
        ScrapeModel { next: m.next + 1, phase: Phase::Fetching, ..m }
    } else {
        ScrapeModel { next: m.next + 1, phase: Phase::Completed, success: true, error: None, ..m }
    }
}

/// The state after event `e`; an event that the phase does not expect changes nothing.
pub open spec fn step(m: ScrapeModel, e: ScrapeEvent) -> ScrapeModel {
    match e {
        ScrapeEvent::LinksFound(l) => if m.phase == Phase::Discovering {
            if l.len() == 0 {
                ScrapeModel { links: l, phase: Phase::Completed, success: true, error: None, ..m }
            } else {
                ScrapeModel { links: l, next: 0, phase: Phase::Fetching, ..m }
            }
        } else {
            m
        },
        ScrapeEvent::LinksFailed(err) => if m.phase == Phase::Discovering {
            ScrapeModel {
                phase: Phase::Completed,
                success: false,
                error: Some(links_failure_text(err)),
                ..m
            }
        } else {
            m
        },
        ScrapeEvent::Fetched(text, millis) => if m.phase == Phase::Fetching {
            ScrapeModel {
                phase: Phase::Storing,
                pending_key: storage_key(m.links[m.next as int], millis),
                pending_content: text,
                ..m
            }
        } else {
            m
        },
        ScrapeEvent::FetchFailed => if m.phase == Phase::Fetching {
            advance(m)
        } else {
            m
        },
        ScrapeEvent::StoreOk => if m.phase == Phase::Storing {
            advance(ScrapeModel { stored: m.stored.push(location(m.base, m.pending_key)), ..m })
        } else {
            m
        },
        ScrapeEvent::StoreFailed(detail) => if m.phase == Phase::Storing {
            ScrapeModel {
                phase: Phase::Completed,
                success: false,
                error: Some(store_failure_text(m.pending_key, detail)),
                ..m
            }
        } else {
            m
        },
    }
}

/// The state after the events `es`, in order.
pub open spec fn steps(m: ScrapeModel, es: Seq<ScrapeEvent>) -> ScrapeModel
    decreases es.len(),
{
    if es.len() == 0 {
        m
    } else {
        steps(step(m, es[0]), es.drop_first())
    }
}

/// The locations that the caller receives.
pub open spec fn result_files(m: ScrapeModel) -> Seq<Seq<char>> {
    if m.success {
        m.stored
    } else {
        seq![]
    }
}

/// The events of the per-link work, when the fetch of link `i` gives
/// `fetched[i]` (text and time of writing, or a failure) and every store succeeds.
pub open spec fn link_events(fetched: Seq<Option<(Seq<char>, int)>>) -> Seq<ScrapeEvent>
    decreases fetched.len(),
{
    if fetched.len() == 0 {
        seq![]
    } else {
        (match fetched[0] {
            Some((t, millis)) => seq![ScrapeEvent::Fetched(t, millis), ScrapeEvent::StoreOk],
            None => seq![ScrapeEvent::FetchFailed],
        }) + link_events(fetched.drop_first())
    }
}

/// The locations of the links whose fetch succeeded, in the order of `links`.
pub open spec fn expected_locations(
    base: Seq<char>,
    links: Seq<Seq<char>>,
    fetched: Seq<Option<(Seq<char>, int)>>,
) -> Seq<Seq<char>>
    decreases fetched.len(),
{
    if fetched.len() == 0 || links.len() == 0 {
        seq![]
    } else {
        (match fetched[0] {
            Some((_, millis)) => seq![location(base, storage_key(links[0], millis))],
            None => seq![],
        }) + expected_locations(base, links.drop_first(), fetched.drop_first())
    }
}

/// How many fetches succeeded.
pub open spec fn successes(fetched: Seq<Option<(Seq<char>, int)>>) -> nat
    decreases fetched.len(),
{
    if fetched.len() == 0 {
        0
    } else {
        (if fetched[0] is Some {
            1nat
        } else {
            0nat
        }) + successes(fetched.drop_first())
    }
}

proof fn lemma_steps_append(m: ScrapeModel, a: Seq<ScrapeEvent>, b: Seq<ScrapeEvent>)
    ensures
        steps(m, a + b) == steps(steps(m, a), b),
    decreases a.len(),
{
    if a.len() == 0 {
        assert(a + b =~= b);
    } else {
        assert((a + b).drop_first() =~= a.drop_first() + b);
        lemma_steps_append(step(m, a[0]), a.drop_first(), b);
    }
}

proof fn lemma_steps_one(m: ScrapeModel, e: ScrapeEvent)
    ensures
        steps(m, seq![e]) == step(m, e),
{
    assert(seq![e].drop_first() =~= Seq::<ScrapeEvent>::empty());
    assert(steps(step(m, e), Seq::<ScrapeEvent>::empty()) == step(m, e));
}

proof fn lemma_steps_two(m: ScrapeModel, a: ScrapeEvent, b: ScrapeEvent)
    ensures
        steps(m, seq![a, b]) == step(step(m, a), b),
{
    assert(seq![a] + seq![b] =~= seq![a, b]);
    lemma_steps_append(m, seq![a], seq![b]);
    lemma_steps_one(m, a);
    lemma_steps_one(step(m, a), b);
}

proof fn lemma_completed_stays(m: ScrapeModel, es: Seq<ScrapeEvent>)
    requires
        m.phase == Phase::Completed,
    ensures
        steps(m, es) == m,
    decreases es.len(),
{
    if es.len() > 0 {
        lemma_completed_stays(step(m, es[0]), es.drop_first());
    }
}

proof fn lemma_expected_len(
    base: Seq<char>,
    links: Seq<Seq<char>>,
    fetched: Seq<Option<(Seq<char>, int)>>,
)
    requires
        links.len() == fetched.len(),
    ensures
        expected_locations(base, links, fetched).len() == successes(fetched),
    decreases fetched.len(),
{
    if fetched.len() > 0 {
        lemma_expected_len(base, links.drop_first(), fetched.drop_first());
    }
}

proof fn lemma_link_loop(m: ScrapeModel, fetched: Seq<Option<(Seq<char>, int)>>)
    requires
        m.phase == Phase::Fetching,
        m.next < m.links.len(),
        fetched.len() == m.links.len() - m.next,
    ensures
        steps(m, link_events(fetched)).phase == Phase::Completed,
        steps(m, link_events(fetched)).success,
        steps(m, link_events(fetched)).error is None,
        steps(m, link_events(fetched)).stored == m.stored + expected_locations(
            m.base,
            m.links.subrange(m.next as int, m.links.len() as int),
            fetched,
        ),
    decreases fetched.len(),
{
    let rest = fetched.drop_first();
    let here = match fetched[0] {
        Some((t, millis)) => seq![ScrapeEvent::Fetched(t, millis), ScrapeEvent::StoreOk],
        None => seq![ScrapeEvent::FetchFailed],
    };
    let ls = m.links.subrange(m.next as int, m.links.len() as int);
    assert(link_events(fetched) == here + link_events(rest));
    lemma_steps_append(m, here, link_events(rest));
    let m2 = steps(m, here);
    assert(ls[0] == m.links[m.next as int]);
    assert(ls.drop_first() =~= m.links.subrange(m.next + 1 as int, m.links.len() as int));
    let mine = match fetched[0] {
        Some((_, millis)) => seq![location(m.base, storage_key(ls[0], millis))],
        None => seq![],
    };
    assert(expected_locations(m.base, ls, fetched) == mine + expected_locations(
        m.base,
        ls.drop_first(),
        rest,
    ));
    match fetched[0] {
        Some((t, millis)) => {
            lemma_steps_two(m, ScrapeEvent::Fetched(t, millis), ScrapeEvent::StoreOk);
            assert(m2 == advance(
                ScrapeModel {
                    stored: m.stored.push(location(m.base, storage_key(m.links[m.next as int], millis))),
                    phase: Phase::Storing,
                    pending_key: storage_key(m.links[m.next as int], millis),
                    pending_content: t,
                    ..m
                },
            ));
        },
        None => {
            lemma_steps_one(m, ScrapeEvent::FetchFailed);
            assert(m2 == advance(m));
        },
    }
    assert(m2.stored =~= m.stored + mine);
    if m.next + 1 < m.links.len() {
        lemma_link_loop(m2, rest);
        assert(m.stored + mine + expected_locations(m.base, ls.drop_first(), rest) =~= m.stored
            + expected_locations(m.base, ls, fetched));
    } else {
        assert(rest.len() == 0);
        assert(link_events(rest) =~= Seq::<ScrapeEvent>::empty());
        assert(expected_locations(m.base, ls.drop_first(), rest) =~= Seq::<Seq<char>>::empty());
        assert(m.stored + mine =~= m.stored + expected_locations(m.base, ls, fetched));
    }
}

/// When discovery finds `links` and each fetch gives `fetched[i]` (a failure,
/// or text with its time of writing) and every store succeeds, the scrape
/// succeeds with exactly the locations of the fetched links, in discovery
/// order, one for each successful fetch.
pub proof fn law_locations_follow_discovery(
    base: Seq<char>,
    target: Seq<char>,
    links: Seq<Seq<char>>,
    fetched: Seq<Option<(Seq<char>, int)>>,
)
    requires
        fetched.len() == links.len(),
    ensures
        ({
            let f = steps(
                initial(base, target),
                seq![ScrapeEvent::LinksFound(links)] + link_events(fetched),
            );
            &&& f.phase == Phase::Completed
            &&& f.success
            &&& f.error is None
            &&& result_files(f) == expected_locations(base, links, fetched)
            &&& result_files(f).len() == successes(fetched)
        }),
{
    let m0 = initial(base, target);
    let first = seq![ScrapeEvent::LinksFound(links)];
    lemma_steps_append(m0, first, link_events(fetched));
    let m1 = step(m0, ScrapeEvent::LinksFound(links));
    assert(first.drop_first() =~= Seq::<ScrapeEvent>::empty());
    lemma_steps_one(m0, ScrapeEvent::LinksFound(links));
    lemma_expected_len(base, links, fetched);
    if links.len() == 0 {
        assert(link_events(fetched) =~= Seq::<ScrapeEvent>::empty());
        assert(expected_locations(base, links, fetched) =~= Seq::<Seq<char>>::empty());
    } else {
        assert(links.subrange(0, links.len() as int) =~= links);
        lemma_link_loop(m1, fetched);
        assert(Seq::<Seq<char>>::empty() + expected_locations(base, links, fetched)
            =~= expected_locations(base, links, fetched));
    }
}

/// Two scrapes of the same links whose fetches succeed and fail alike store
/// as many objects, whatever the times of writing and texts.
pub proof fn law_count_independent_of_time(
    base: Seq<char>,
    target: Seq<char>,
    links: Seq<Seq<char>>,
    f1: Seq<Option<(Seq<char>, int)>>,
    f2: Seq<Option<(Seq<char>, int)>>,
)
    requires
        f1.len() == links.len(),
        f2.len() == links.len(),
        forall|i: int| 0 <= i < links.len() ==> (f1[i] is Some <==> f2[i] is Some),
    ensures
        result_files(
            steps(initial(base, target), seq![ScrapeEvent::LinksFound(links)] + link_events(f1)),
        ).len() == result_files(
            steps(initial(base, target), seq![ScrapeEvent::LinksFound(links)] + link_events(f2)),
        ).len(),
{
    law_locations_follow_discovery(base, target, links, f1);
    law_locations_follow_discovery(base, target, links, f2);
    lemma_same_successes(f1, f2);
}

proof fn lemma_same_successes(f1: Seq<Option<(Seq<char>, int)>>, f2: Seq<Option<(Seq<char>, int)>>)
    requires
        f1.len() == f2.len(),
        forall|i: int| 0 <= i < f1.len() ==> (f1[i] is Some <==> f2[i] is Some),
    ensures
        successes(f1) == successes(f2),
    decreases f1.len(),
{
    if f1.len() > 0 {
        assert(f1[0] is Some <==> f2[0] is Some);
        let (r1, r2) = (f1.drop_first(), f2.drop_first());
        assert forall|i: int| 0 <= i < r1.len() implies (r1[i] is Some <==> r2[i] is Some) by {
            assert(r1[i] == f1[i + 1] && r2[i] == f2[i + 1]);
        }
        lemma_same_successes(r1, r2);
    }
}

/// When link discovery fails, for any reason, the scrape fails with no
/// locations and a message about the links request, whatever happens after.
pub proof fn law_discovery_failure_fails_all(
    base: Seq<char>,
    target: Seq<char>,
    e: ClientError,
    later: Seq<ScrapeEvent>,
)
    ensures
        ({
            let f = steps(initial(base, target), seq![ScrapeEvent::LinksFailed(e)] + later);
            &&& f.phase == Phase::Completed
            &&& !f.success
            &&& result_files(f).len() == 0
            &&& f.error == Some(links_failure_text(e))
        }),
{
    let m0 = initial(base, target);
    let first = seq![ScrapeEvent::LinksFailed(e)];
    lemma_steps_append(m0, first, later);
    assert(first.drop_first() =~= Seq::<ScrapeEvent>::empty());
    lemma_steps_one(m0, ScrapeEvent::LinksFailed(e));
    lemma_completed_stays(step(m0, ScrapeEvent::LinksFailed(e)), later);
}

/// A failed store fails the whole scrape, however many links were stored
/// before it: no locations are returned and the message names the key.
pub proof fn law_store_failure_fails_all(m: ScrapeModel, detail: Seq<char>, later: Seq<ScrapeEvent>)
    requires
        m.phase == Phase::Storing,
    ensures
        ({
            let f = steps(m, seq![ScrapeEvent::StoreFailed(detail)] + later);
            &&& f.phase == Phase::Completed
            &&& !f.success
            &&& result_files(f).len() == 0
            &&& f.error == Some(store_failure_text(m.pending_key, detail))
            &&& f.stored == m.stored
        }),
{
    let first = seq![ScrapeEvent::StoreFailed(detail)];
    lemma_steps_append(m, first, later);
    assert(first.drop_first() =~= Seq::<ScrapeEvent>::empty());
    lemma_steps_one(m, ScrapeEvent::StoreFailed(detail));
    lemma_completed_stays(step(m, ScrapeEvent::StoreFailed(detail)), later);
}

/// The abstract value of an optional text.
pub open spec fn text_view(t: Option<String>) -> Option<Seq<char>> {
    match t {
        Some(s) => Some(s@),
        None => None,
    }
}

/// The event that a links outcome reports.
pub open spec fn links_event(r: Result<Vec<String>, ClientError>) -> ScrapeEvent {
    match r {
        Ok(l) => ScrapeEvent::LinksFound(l.deep_view()),
        Err(e) => ScrapeEvent::LinksFailed(e),
    }
}

/// The event that a Markdown outcome reports, written at `millis`.
pub open spec fn markdown_event(r: Result<String, ClientError>, millis: int) -> ScrapeEvent {
    match r {
        Ok(t) => ScrapeEvent::Fetched(t@, millis),
        Err(_) => ScrapeEvent::FetchFailed,
    }
}

/// The event that a store outcome reports.
pub open spec fn store_event(r: Result<(), String>) -> ScrapeEvent {
    match r {
        Ok(_) => ScrapeEvent::StoreOk,
        Err(d) => ScrapeEvent::StoreFailed(d@),
    }
}

impl ScrapeModel {
    /// The current link exists while one is being fetched or stored.
    pub open spec fn wf(&self) -> bool {
        (self.phase == Phase::Fetching || self.phase == Phase::Storing) ==> self.next
            < self.links.len()
    }
}

/// Whether `a` is the action that state `m` asks for.
pub open spec fn action_of(a: Action, m: ScrapeModel) -> bool {
    match m.phase {
        Phase::Discovering => match a {
            Action::DiscoverLinks(u) => u@ == m.target,
            _ => false,
        },
        Phase::Fetching => match a {
            Action::FetchMarkdown(u) => u@ == m.links[m.next as int],
            _ => false,
        },
        Phase::Storing => match a {
            Action::Store { key, content } => key@ == m.pending_key && content@ == m.pending_content,
            _ => false,
        },
        Phase::Completed => match a {
            Action::Finish(r) => r.success == m.success && r.stored_locations.deep_view()
                == result_files(m) && text_view(r.error) == m.error,
            _ => false,
        },
    }
}

/// One scrape of one page.
#[derive(Debug)]
pub struct Scrape {
    base: String,
    target: String,
    phase: Phase,
    links: Vec<String>,
    next: usize,
    stored: Vec<String>,
    pending_key: String,
    pending_content: String,
    success: bool,
    error: Option<String>,
}

impl View for Scrape {
    type V = ScrapeModel;

    closed spec fn view(&self) -> ScrapeModel {
        ScrapeModel {
            base: self.base@,
            target: self.target@,
            phase: self.phase,
            links: self.links.deep_view(),
            next: self.next as nat,
            stored: self.stored.deep_view(),
            pending_key: self.pending_key@,
            pending_content: self.pending_content@,
            success: self.success,
            error: text_view(self.error),
        }
    }
}

impl Scrape {
    /// A scrape of `target`, whose stored objects are public under `public_base`.
    pub fn new(target: &str, public_base: &str) -> (r: Scrape)
        ensures
            r@ == initial(public_base@, target@),
            r@.wf(),
    {
        let r = Scrape {
            base: public_base.to_owned(),
            target: target.to_owned(),
            phase: Phase::Discovering,
            links: Vec::new(),
            next: 0,
            stored: Vec::new(),
            pending_key: String::new(),
            pending_content: String::new(),
            success: false,
            error: None,
        };
        assert(r@.links =~= Seq::<Seq<char>>::empty());
        assert(r@.stored =~= Seq::<Seq<char>>::empty());
        r
    }

    /// The work to do next.
    pub fn action(&self) -> (a: Action)
        requires
            self@.wf(),
        ensures
            action_of(a, self@),
    {
        match self.phase {
            Phase::Discovering => Action::DiscoverLinks(self.target.clone()),
            Phase::Fetching => Action::FetchMarkdown(self.links[self.next].clone()),
            Phase::Storing => Action::Store {
                key: self.pending_key.clone(),
                content: self.pending_content.clone(),
            },
            Phase::Completed => {
                let files = if self.success {
                    self.stored.clone()
                } else {
                    Vec::new()
                };
                proof {
                    broadcast use vstd::std_specs::vec::vec_clone_deep_view_proof;
                }
                assert(files.deep_view() =~= result_files(self@));
                Action::Finish(
                    ScrapeResult { success: self.success, stored_locations: files, error: self.error.clone() },
                )
            },
        }
    }

    /// Moves past the current link.
    fn advance(&mut self)
        requires
            old(self)@.wf(),
            old(self)@.phase == Phase::Fetching || old(self)@.phase == Phase::Storing,
        ensures
            final(self)@ == advance(old(self)@),
    {
        assert(self@.next < self@.links.len());
        assert(self.links.deep_view().len() == self.links@.len());
        assert(self.next < self.links.len());
        self.next = self.next + 1;
        if self.next < self.links.len() {
            self.phase = Phase::Fetching;
        } else {
            self.phase = Phase::Completed;
            self.success = true;
            self.error = None;
        }
    }

    /// Reports the outcome of link discovery.
    pub fn on_links(&mut self, r: Result<Vec<String>, ClientError>) -> (a: Action)
        requires
            old(self)@.wf(),
        ensures
            final(self)@ == step(old(self)@, links_event(r)),
            final(self)@.wf(),
            action_of(a, final(self)@),
    {
        if self.phase == Phase::Discovering {
            match r {
                Ok(links) => {
                    self.links = links;
                    if self.links.len() == 0 {
                        self.phase = Phase::Completed;
                        self.success = true;
                        self.error = None;
                    } else {
                        self.next = 0;
                        self.phase = Phase::Fetching;
                    }
                },
                Err(e) => {
                    let mut m = "Scraping failed: Failed to fetch links: ".to_owned();
                    m.append(e.message(Capability::Links).as_str());
                    self.phase = Phase::Completed;
                    self.success = false;
                    self.error = Some(m);
                },
            }
        }
        self.action()
    }

    /// Reports the outcome of the current link's fetch, to be written at `millis`.
    pub fn on_markdown_at(&mut self, r: Result<String, ClientError>, millis: i64) -> (a: Action)
        requires
            old(self)@.wf(),
        ensures
            final(self)@ == step(old(self)@, markdown_event(r, millis as int)),
            final(self)@.wf(),
            action_of(a, final(self)@),
    {
        if self.phase == Phase::Fetching {
            match r {
                Ok(text) => {
                    self.pending_key = storage_key_at(self.links[self.next].as_str(), millis);
                    self.pending_content = text;
                    self.phase = Phase::Storing;
                },
                Err(_) => self.advance(),
            }
        }
        self.action()
    }

    /// Reports the outcome of the current link's fetch; the key of a fetched
    /// link is stamped with the current time.
    pub fn on_markdown(&mut self, r: Result<String, ClientError>) -> (a: Action)
        requires
            old(self)@.wf(),
        ensures
            exists|millis: i64| final(self)@ == step(old(self)@, markdown_event(r, millis as int)),
            final(self)@.wf(),
            action_of(a, final(self)@),
    {
        let millis = now_millis();
        self.on_markdown_at(r, millis)
    }

    /// Reports the outcome of the store asked for.
    pub fn on_stored(&mut self, r: Result<(), String>) -> (a: Action)
        requires
            old(self)@.wf(),
        ensures
            final(self)@ == step(old(self)@, store_event(r)),
            final(self)@.wf(),
            action_of(a, final(self)@),
    {
        if self.phase == Phase::Storing {
            match r {
                Ok(()) => {
                    let mut loc = self.base.clone();
                    loc.append("/");
                    loc.append(self.pending_key.as_str());
                    self.stored.push(loc);
                    assert(self@.stored =~= old(self)@.stored.push(
                        location(old(self)@.base, old(self)@.pending_key),
                    ));
                    self.advance();
                },
                Err(detail) => {
                    let mut m = "Scraping failed: Failed to store ".to_owned();
                    m.append(self.pending_key.as_str());
                    m.append(": ");
                    m.append(detail.as_str());
                    self.phase = Phase::Completed;
                    self.success = false;
                    self.error = Some(m);
                },
            }
        }
        self.action()
    }
}

} // verus!
