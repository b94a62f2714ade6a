//! The lifecycle of one query against the native interface.
//!
//! A query opens a session handle, makes one fetch through it, destroys the
//! native list the fetch produced (for list queries), and closes the handle
//! again, whatever failed on the way. [`Session`] decides each of these
//! native calls in turn: the caller performs the [`Action`] it asks for and
//! reports what came of it as an [`Event`], until the action is
//! [`Action::Finish`].
use crate::result::{is_other, known_code, mapped_error, Error, Platform, SigarResult, SIGAR_OK};
use vstd::prelude::*;

verus! {

/// Reason given when the native list of a query could not be destroyed.
pub const DESTROY_FAILED: &'static str = "failed to destroy sigar";

/// Where a query stands.
#[derive(Clone, Copy, Debug, PartialEq, Eq, Structural)]
pub enum Phase {
    /// The handle is being opened.
    Opening,
    /// The handle is open and the fetch is under way.
    Fetching,
    /// The fetch failed with a code the table does not know; its native
    /// description is being looked up on the open handle.
    Describing { code: i32 },
    /// The native list of a successful list fetch is being destroyed.
    Destroying,
    /// The handle is being closed.
    Closing,
    /// Nothing is left to do; the outcome is ready.
    Done,
}

/// The native call that the caller is asked to make next.
#[derive(Clone, Copy, Debug, PartialEq, Eq, Structural)]
pub enum Action {
    /// Open a session handle.
    Open,
    /// Make the query's fetch (its "get" or "list get" call) on the handle.
    Fetch,
    /// Look up the native description of `code` on the handle.
    Describe { code: i32 },
    /// Destroy the native list that the fetch produced.
    Destroy,
    /// Close the handle.
    Close,
    /// Make no more native calls.
    Finish,
}

/// What a native call came to.
pub enum Event<T> {
    /// The handle was opened.
    Opened,
    /// Opening the handle failed with `code`.
    OpenFailed { code: i32 },
    /// The fetch succeeded; `value` holds the raw data copied out of it.
    Fetched { value: T },
    /// The fetch failed with `code`.
    FetchFailed { code: i32 },
    /// The description lookup gave `text`, or nothing where it failed.
    Described { text: Option<String> },
    /// The list destroy call returned `code`.
    Destroyed { code: i32 },
    /// The handle was closed (whatever the close call returned).
    Closed,
}

/// The action that belongs to a phase.
pub open spec fn action_of(p: Phase) -> Action {
    match p {
        Phase::Opening => Action::Open,
        Phase::Fetching => Action::Fetch,
        Phase::Describing { code } => Action::Describe { code },
        Phase::Destroying => Action::Destroy,
        Phase::Closing => Action::Close,
        Phase::Done => Action::Finish,
    }
}

/// The view of a native description handed back in an event.
pub open spec fn text_view(text: Option<String>) -> Option<Seq<char>> {
    match text {
        Some(t) => Some(t@),
        None => None,
    }
}

/// The decisions of one query: which native call comes next, and the
/// outcome of the query once the handle is closed.
pub struct Session<T> {
    platform: Platform,
    list: bool,
    phase: Phase,
    outcome: Option<SigarResult<T>>,
    opens: u8,
    closes: u8,
    destroys: u8,
    fetched: bool,
}

impl<T> Session<T> {
    /// The phase the query is in.
    pub closed spec fn spec_phase(&self) -> Phase {
        self.phase
    }

    /// Whether the fetch produces a native list that must be destroyed.
    pub closed spec fn spec_list(&self) -> bool {
        self.list
    }

    /// The code table used to map failure codes.
    pub closed spec fn spec_platform(&self) -> Platform {
        self.platform
    }

    /// The outcome recorded so far.
    pub closed spec fn spec_outcome(&self) -> Option<SigarResult<T>> {
        self.outcome
    }

    /// How many handles have been opened: `Opened` events taken.
    pub closed spec fn spec_opens(&self) -> nat {
        self.opens as nat
    }

    /// How many handle closes have been asked for: `Close` actions given.
    pub closed spec fn spec_closes(&self) -> nat {
        self.closes as nat
    }

    /// How many list destroys have been asked for: `Destroy` actions given.
    pub closed spec fn spec_destroys(&self) -> nat {
        self.destroys as nat
    }

    /// Whether the fetch has succeeded.
    pub closed spec fn spec_fetched(&self) -> bool {
        self.fetched
    }

    /// The counters and the outcome agree with the phase.
    pub closed spec fn wf(&self) -> bool {
        match self.phase {
            Phase::Opening | Phase::Fetching | Phase::Describing { .. } => {
                &&& self.opens == (if self.phase is Opening { 0u8 } else { 1u8 })
                &&& self.closes == 0 && self.destroys == 0 && !self.fetched
                &&& self.outcome is None
                &&& (self.phase matches Phase::Describing { code } ==> known_code(
                    self.platform,
                    code,
                ) is None)
            },
            Phase::Destroying => {
                &&& self.list && self.fetched
                &&& self.opens == 1 && self.closes == 0 && self.destroys == 1
                &&& self.outcome matches Some(Ok(_))
            },
            Phase::Closing | Phase::Done => {
                &&& self.opens <= 1
                &&& self.closes == self.opens
                &&& self.destroys == (if self.list && self.fetched { 1u8 } else { 0u8 })
                &&& (self.fetched ==> self.opens == 1)
                &&& (self.outcome matches Some(Ok(_)) ==> self.fetched)
                &&& self.outcome is Some
                &&& (self.phase is Closing ==> self.opens == 1)
            },
        }
    }

    /// Whether `ev` is a possible outcome of the action now asked for.
    pub open spec fn spec_accepts(&self, ev: &Event<T>) -> bool {
        match self.spec_phase() {
            Phase::Opening => ev is Opened || ev is OpenFailed,
            Phase::Fetching => ev is Fetched || ev is FetchFailed,
            Phase::Describing { .. } => ev is Described,
            Phase::Destroying => ev is Destroyed,
            Phase::Closing => ev is Closed,
            Phase::Done => false,
        }
    }

    /// How the session moves from `self` to `next` on `ev`.
    pub open spec fn spec_step(&self, ev: Event<T>, next: Self) -> bool {
        &&& next.spec_platform() == self.spec_platform()
        &&& next.spec_list() == self.spec_list()
        &&& next.spec_opens() == self.spec_opens() + (if ev is Opened { 1nat } else { 0nat })
        &&& next.spec_closes() == self.spec_closes() + (if next.spec_phase() is Closing { 1nat } else { 0nat })
        &&& next.spec_destroys() == self.spec_destroys() + (if next.spec_phase() is Destroying { 1nat } else { 0nat })
        &&& next.spec_fetched() == (self.spec_fetched() || ev is Fetched)
        &&& match ev {
            Event::Opened => next.spec_phase() == Phase::Fetching && next.spec_outcome() is None,
            Event::OpenFailed { code } => {
                &&& next.spec_phase() == Phase::Done
                &&& next.spec_outcome() matches Some(Err(e)) && mapped_error(
                    self.spec_platform(),
                    code,
                    None,
                    e,
                )
            },
            Event::Fetched { value } => {
                &&& next.spec_phase() == (if self.spec_list() { Phase::Destroying } else { Phase::Closing })
                &&& next.spec_outcome() == Some(Ok::<T, Error>(value))
            },
            Event::FetchFailed { code } => match known_code(self.spec_platform(), code) {
                Some(k) => next.spec_phase() == Phase::Closing && next.spec_outcome() == Some(
                    Err::<T, Error>(k),
                ),
                None => next.spec_phase() == (Phase::Describing { code }) && next.spec_outcome() is None,
            },
            Event::Described { text } => {
                &&& next.spec_phase() == Phase::Closing
                &&& self.spec_phase() matches Phase::Describing { code }
                &&& next.spec_outcome() matches Some(Err(e)) && mapped_error(
                    self.spec_platform(),
                    code,
                    text_view(text),
                    e,
                )
            },
            Event::Destroyed { code } => {
                &&& next.spec_phase() == Phase::Closing
                &&& if code == SIGAR_OK {
                    next.spec_outcome() == self.spec_outcome()
                } else {
                    next.spec_outcome() matches Some(Err(e)) && is_other(e, DESTROY_FAILED@)
                }
            },
            Event::Closed => next.spec_phase() == Phase::Done && next.spec_outcome()
                == self.spec_outcome(),
        }
    }

    /// Starts a query; its first action is `Open`. `list` says whether the
    /// fetch produces a native list that must be destroyed.
    pub fn new(platform: Platform, list: bool) -> (s: Self)
        ensures
            s.wf(),
            s.spec_platform() == platform,
            s.spec_list() == list,
            s.spec_phase() == Phase::Opening,
            s.spec_outcome() is None,
            s.spec_opens() == 0,
            s.spec_closes() == 0,
            s.spec_destroys() == 0,
            !s.spec_fetched(),
    {
        Session {
            platform,
            list,
            phase: Phase::Opening,
            outcome: None,
            opens: 0,
            closes: 0,
            destroys: 0,
            fetched: false,
        }
    }

    /// The phase the query is in.
    pub fn phase(&self) -> (r: Phase)
        ensures
            r == self.spec_phase(),
    {
        self.phase
    }

    /// The native call to make next.
    pub fn action(&self) -> (r: Action)
        ensures
            r == action_of(self.spec_phase()),
    {
        match self.phase {
            Phase::Opening => Action::Open,
            Phase::Fetching => Action::Fetch,
            Phase::Describing { code } => Action::Describe { code },
            Phase::Destroying => Action::Destroy,
            Phase::Closing => Action::Close,
            Phase::Done => Action::Finish,
        }
    }

    /// Whether the query has finished.
    pub fn is_done(&self) -> (r: bool)
        ensures
            r == (self.spec_phase() is Done),
    {
        matches!(self.phase, Phase::Done)
    }

    /// Handles opened so far.
    pub fn opens(&self) -> (r: u8)
        ensures
            r == self.spec_opens(),
    {
        self.opens
    }

    /// Handle closes asked for so far.
    pub fn closes(&self) -> (r: u8)
        ensures
            r == self.spec_closes(),
    {
        self.closes
    }

    /// List destroys asked for so far.
    pub fn destroys(&self) -> (r: u8)
        ensures
            r == self.spec_destroys(),
    {
        self.destroys
    }

    /// Whether `ev` is a possible outcome of the action now asked for.
    pub fn accepts(&self, ev: &Event<T>) -> (r: bool)
        ensures
            r == self.spec_accepts(ev),
    {
        match self.phase {
            Phase::Opening => matches!(ev, Event::Opened | Event::OpenFailed { .. }),
            Phase::Fetching => matches!(ev, Event::Fetched { .. } | Event::FetchFailed { .. }),
            Phase::Describing { .. } => matches!(ev, Event::Described { .. }),
            Phase::Destroying => matches!(ev, Event::Destroyed { .. }),
            Phase::Closing => matches!(ev, Event::Closed),
            Phase::Done => false,
        }
    }

    /// Takes the outcome of the action asked for and returns the next one.
    pub fn step(&mut self, ev: Event<T>) -> (r: Action)
        requires
            old(self).wf(),
            old(self).spec_accepts(&ev),
        ensures
            final(self).wf(),
            old(self).spec_step(ev, *final(self)),
            r == action_of(final(self).spec_phase()),
    {
        match ev {
            Event::Opened => {
                self.opens = 1;
                self.phase = Phase::Fetching;
            },
            Event::OpenFailed { code } => {
                self.outcome = Some(Err(Error::new(self.platform, code, None)));
                self.phase = Phase::Done;
            },
            Event::Fetched { value } => {
                self.fetched = true;
                self.outcome = Some(Ok(value));
                if self.list {
                    self.destroys = 1;
                    self.phase = Phase::Destroying;
                } else {
                    self.closes = 1;
                    self.phase = Phase::Closing;
                }
            },
            Event::FetchFailed { code } => {
                match crate::result::match_code(self.platform, code) {
                    Some(e) => {
                        self.outcome = Some(Err(e));
                        self.closes = 1;
                        self.phase = Phase::Closing;
                    },
                    None => {
                        self.phase = Phase::Describing { code };
                    },
                }
            },
            Event::Described { text } => {
                let code = match self.phase {
                    Phase::Describing { code } => code,
                    _ => 0,
                };
                self.outcome = Some(Err(Error::new(self.platform, code, text)));
                self.closes = 1;
                self.phase = Phase::Closing;
            },
            Event::Destroyed { code } => {
                if code != SIGAR_OK {
                    self.outcome = Some(Err(Error::from_str(DESTROY_FAILED)));
                }
                self.closes = 1;
                self.phase = Phase::Closing;
            },
            Event::Closed => {
                self.phase = Phase::Done;
            },
        }
        self.action()
    }

    /// The outcome of a finished query.
    pub fn finish(self) -> (r: SigarResult<T>)
        requires
            self.wf(),
            self.spec_phase() is Done,
        ensures
            self.spec_outcome() == Some(r),
    {
        self.outcome.unwrap()
    }
}

/// A run of a query: `states[0]` is a freshly started session, and each
/// `states[i + 1]` is what `step` makes of `states[i]` on `events[i]`, an
/// event that `states[i]` accepts.
pub open spec fn is_run<T>(states: Seq<Session<T>>, events: Seq<Event<T>>) -> bool {
    &&& states.len() == events.len() + 1
    &&& states[0].spec_phase() == Phase::Opening
    &&& states[0].spec_outcome() is None
    &&& states[0].spec_opens() == 0
    &&& states[0].spec_closes() == 0
    &&& states[0].spec_destroys() == 0
    &&& !states[0].spec_fetched()
    &&& forall|i: int|
        0 <= i < events.len() ==> #[trigger] states[i].spec_accepts(&events[i]) && states[i].spec_step(
            events[i],
            states[i + 1],
        )
}

/// How many of the first `k` events report an opened handle.
pub open spec fn opened_before<T>(events: Seq<Event<T>>, k: int) -> nat
    decreases k,
{
    if k <= 0 {
        0
    } else {
        opened_before(events, k - 1) + (if events[k - 1] is Opened { 1nat } else { 0nat })
    }
}

/// Whether one of the first `k` events reports a successful fetch.
pub open spec fn fetched_before<T>(events: Seq<Event<T>>, k: int) -> bool
    decreases k,
{
    k > 0 && (fetched_before(events, k - 1) || events[k - 1] is Fetched)
}

/// How many of the first `k` steps of a run asked for a handle close.
pub open spec fn closes_asked<T>(states: Seq<Session<T>>, k: int) -> nat
    decreases k,
{
    if k <= 0 {
        0
    } else {
        closes_asked(states, k - 1) + (if states[k].spec_phase() is Closing { 1nat } else { 0nat })
    }
}

/// How many of the first `k` steps of a run asked for a list destroy.
pub open spec fn destroys_asked<T>(states: Seq<Session<T>>, k: int) -> nat
    decreases k,
{
    if k <= 0 {
        0
    } else {
        destroys_asked(states, k - 1) + (if states[k].spec_phase() is Destroying { 1nat } else { 0nat })
    }
}

/// A step keeps a session well formed.
proof fn lemma_step_wf<T>(s: Session<T>, ev: Event<T>, next: Session<T>)
    requires
        s.wf(),
        s.spec_accepts(&ev),
        s.spec_step(ev, next),
    ensures
        next.wf(),
{
}

/// After `k` steps of a run, the session is well formed and its counters
/// count what the run did.
proof fn lemma_run_prefix<T>(states: Seq<Session<T>>, events: Seq<Event<T>>, k: int)
    requires
        is_run(states, events),
        0 <= k <= events.len(),
    ensures
        states[k].wf(),
        states[k].spec_list() == states[0].spec_list(),
        states[k].spec_platform() == states[0].spec_platform(),
        states[k].spec_opens() == opened_before(events, k),
        states[k].spec_closes() == closes_asked(states, k),
        states[k].spec_destroys() == destroys_asked(states, k),
        states[k].spec_fetched() == fetched_before(events, k),
    decreases k,
{
    if k > 0 {
        lemma_run_prefix(states, events, k - 1);
        assert(states[k - 1].spec_accepts(&events[k - 1]));
        lemma_step_wf(states[k - 1], events[k - 1], states[k]);
    }
}

/// Handle symmetry: in a run that has finished, the closes asked for match
/// the handles opened one for one, and at most one handle was opened.
pub proof fn lemma_handle_symmetry<T>(states: Seq<Session<T>>, events: Seq<Event<T>>)
    requires
        is_run(states, events),
        states.last().spec_phase() is Done,
    ensures
        closes_asked(states, events.len() as int) == opened_before(events, events.len() as int),
        opened_before(events, events.len() as int) <= 1,
{
    lemma_run_prefix(states, events, events.len() as int);
}

/// In a run that has finished, one list destroy was asked for if the query
/// is a list query and its fetch succeeded, and none otherwise.
pub proof fn lemma_destroy_once<T>(states: Seq<Session<T>>, events: Seq<Event<T>>)
    requires
        is_run(states, events),
        states.last().spec_phase() is Done,
    ensures
        destroys_asked(states, events.len() as int) == (if states[0].spec_list() && fetched_before(
            events,
            events.len() as int,
        ) {
            1nat
        } else {
            0nat
        }),
{
    lemma_run_prefix(states, events, events.len() as int);
}

/// `s` is a session whose fetch failed with `code`: either it is looking the
/// description of `code` up, or it holds the error that `code` maps to
/// (under the code table `p`), and no fetch has succeeded.
pub open spec fn after_failed_fetch<T>(s: Session<T>, p: Platform, code: i32) -> bool {
    &&& !s.spec_fetched()
    &&& s.spec_platform() == p
    &&& match s.spec_phase() {
        Phase::Describing { code: c } => c == code && known_code(p, code) is None,
        Phase::Closing | Phase::Done => s.spec_outcome() matches Some(Err(e)) && exists|
            t: Option<Seq<char>>,
        | mapped_error(p, code, t, e),
        _ => false,
    }
}

/// After a failed fetch at step `j`, every later state of the run is one
/// that holds the mapped error (or is about to).
proof fn lemma_after_failed_fetch<T>(
    states: Seq<Session<T>>,
    events: Seq<Event<T>>,
    j: int,
    code: i32,
    k: int,
)
    requires
        is_run(states, events),
        0 <= j < k <= events.len(),
        events[j] == (Event::<T>::FetchFailed { code }),
    ensures
        after_failed_fetch(states[k], states[0].spec_platform(), code),
    decreases k,
{
    let p = states[0].spec_platform();
    lemma_run_prefix(states, events, k - 1);
    assert(states[k - 1].spec_accepts(&events[k - 1]));
    if k - 1 == j {
        match known_code(p, code) {
            Some(kk) => {
                assert(mapped_error(p, code, None, kk));
            },
            None => {},
        }
    } else {
        lemma_after_failed_fetch(states, events, j, code, k - 1);
        match events[k - 1] {
            Event::Described { text } => {
                let e = states[k].spec_outcome()->Some_0->Err_0;
                assert(mapped_error(p, code, text_view(text), e));
            },
            _ => {},
        }
    }
}

/// A query whose fetch fails with `code` ends with the error that `code`
/// maps to: the table's entry for it where there is one, else an `Others`
/// error with its description. It never asks for a list destroy.
pub proof fn lemma_fetch_failure<T>(
    states: Seq<Session<T>>,
    events: Seq<Event<T>>,
    j: int,
    code: i32,
)
    requires
        is_run(states, events),
        states.last().spec_phase() is Done,
        0 <= j < events.len(),
        events[j] == (Event::<T>::FetchFailed { code }),
    ensures
        destroys_asked(states, events.len() as int) == 0,
        states.last().spec_outcome() matches Some(Err(e)) && exists|t: Option<Seq<char>>|
            mapped_error(states[0].spec_platform(), code, t, e),
        known_code(states[0].spec_platform(), code) matches Some(k) ==> states.last().spec_outcome()
            == Some(Err::<T, Error>(k)),
{
    let n = events.len() as int;
    lemma_after_failed_fetch(states, events, j, code, n);
    lemma_run_prefix(states, events, n);
    lemma_destroy_once(states, events);
}

/// Applies `f` to each element of a native list copied out in `raw`, in
/// order.
pub fn extract_list<R, D, F: Fn(&R) -> D>(raw: &Vec<R>, f: F) -> (out: Vec<D>)
    requires
        forall|i: int| 0 <= i < raw@.len() ==> f.requires((&raw@[i],)),
    ensures
        out@.len() == raw@.len(),
        forall|i: int| 0 <= i < raw@.len() ==> f.ensures((&raw@[i],), #[trigger] out@[i]),
{
    let mut out: Vec<D> = Vec::with_capacity(raw.len());
    let mut i: usize = 0;
    while i < raw.len()
        invariant
            i <= raw@.len(),
            out@.len() == i,
            forall|j: int| 0 <= j < raw@.len() ==> f.requires((&raw@[j],)),
            forall|j: int| 0 <= j < i ==> f.ensures((&raw@[j],), #[trigger] out@[j]),
        decreases raw@.len() - i,
    {
        let d = f(&raw[i]);
        out.push(d);
        i += 1;
    }
    out
}

} // verus!
