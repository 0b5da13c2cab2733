//! The application state owned by the root component, and its transitions.
use crate::creature::{creature_fields_of, parse_creature, Creature};
use crate::fetch::FetchState;
use crate::guess::{lower_of, lowercase, GuessOutcome};
use crate::random::{draw_creature_id, MAX_CREATURE_ID, MIN_CREATURE_ID};
use vstd::prelude::*;

verus! {

/// The two transient state cells of the application: the fetch lifecycle of
/// the current creature and the outcome of the current guess.
#[derive(Debug, Clone, PartialEq, Eq)]
pub struct AppState {
    pub fetch: FetchState<Creature>,
    pub guess: GuessOutcome,
}

/// Well-formedness of the application state: a completed fetch holds a
/// valid creature record.
pub open spec fn wf(s: AppState) -> bool {
    s.fetch matches FetchState::Done(c) ==> c.valid()
}

/// What starting a fetch does to the state: the lifecycle moves to
/// `Fetching`, the guess outcome is cleared whatever it held before, and
/// the drawn id lies in the supported range.
pub open spec fn fetch_started(pre: AppState, post: AppState, id: u32) -> bool {
    &&& post.fetch is Fetching
    &&& post.guess is NoGuess
    &&& MIN_CREATURE_ID <= id <= MAX_CREATURE_ID
}

/// What applying a response body to an in-flight fetch does to the state:
/// the lifecycle moves to `Done` with the parsed creature when the body
/// yields both creature fields, and to `Failed` with a note on the missing
/// fields otherwise; the guess outcome is untouched.
pub open spec fn fetch_applied(pre: AppState, post: AppState, id: u32, body: Seq<char>) -> bool {
    &&& post.guess == pre.guess
    &&& match creature_fields_of(body) {
        Some(q) => post.fetch matches FetchState::Done(c) && c.id == id && c.name@ == q.0
            && c.image_url@ == q.1,
        None => post.fetch matches FetchState::Failed(r) && r@
            == "response is missing the name or sprite field"@,
    }
}

impl AppState {
    /// The state on mount: no fetch requested, no guess made.
    pub fn new() -> (r: AppState)
        ensures
            r.fetch is Empty,
            r.guess is NoGuess,
            wf(r),
    {
        AppState { fetch: FetchState::Empty, guess: GuessOutcome::NoGuess }
    }

    /// Begins a new fetch: moves the lifecycle to `Fetching`, clears any
    /// previous guess outcome, and draws the id to request. The clearing
    /// is unconditional, so stale feedback never survives a new fetch.
    pub fn start_fetch(&mut self) -> (id: u32)
        ensures
            fetch_started(*old(self), *final(self), id),
            wf(*final(self)),
    {
        self.fetch = FetchState::Fetching;
        self.guess = GuessOutcome::NoGuess;
        draw_creature_id()
    }

    /// Applies the response body of an in-flight fetch: on a body yielding
    /// both creature fields the lifecycle completes with the parsed record,
    /// otherwise it fails with a reason. The guess outcome is untouched.
    pub fn apply_fetch_result(&mut self, id: u32, body: &str)
        requires
            old(self).fetch is Fetching,
            MIN_CREATURE_ID <= id <= MAX_CREATURE_ID,
        ensures
            fetch_applied(*old(self), *final(self), id, body@),
            wf(*final(self)),
    {
        match parse_creature(id, body) {
            Some(c) => {
                self.fetch = FetchState::Done(c);
            },
            None => {
                self.fetch = FetchState::Failed(
                    String::from_str("response is missing the name or sprite field"),
                );
            },
        }
    }

    /// Records that an in-flight fetch failed before a body could be read
    /// (an unreachable host or a transport error), keeping the reason. The
    /// guess outcome is untouched.
    pub fn fail_fetch(&mut self, reason: String)
        requires
            old(self).fetch is Fetching,
        ensures
            final(self).fetch matches FetchState::Failed(r) && r == reason,
            final(self).guess == old(self).guess,
            wf(*final(self)),
    {
        self.fetch = FetchState::Failed(reason);
    }

    /// Whether the fetch trigger control is disabled: exactly while a fetch
    /// is in flight.
    pub fn trigger_disabled(&self) -> (r: bool)
        ensures
            r == (self.fetch is Fetching),
    {
        match &self.fetch {
            FetchState::Fetching => true,
            _ => false,
        }
    }

    /// Compares the user's input against the loaded creature's name and
    /// records the outcome: the input is lower-cased, and the guess is
    /// correct exactly when the lower-cased input equals the stored name.
    /// Only reachable while a creature is loaded.
    pub fn submit_guess(&mut self, raw: &str)
        requires
            old(self).fetch is Done,
        ensures
            final(self).fetch == old(self).fetch,
            lower_of(raw@) == old(self).fetch->Done_0.name@ ==> (final(self).guess
                matches GuessOutcome::Correct(g) && g@ == lower_of(raw@)),
            lower_of(raw@) != old(self).fetch->Done_0.name@ ==> (final(self).guess
                matches GuessOutcome::Incorrect(g) && g@ == lower_of(raw@)),
    {
        let lowered = lowercase(raw);
        let matched = match &self.fetch {
            FetchState::Done(c) => lowered == c.name,
            _ => false,
        };
        if matched {
            self.guess = GuessOutcome::Correct(lowered);
        } else {
            self.guess = GuessOutcome::Incorrect(lowered);
        }
    }
}

/// One full successful fetch, stepwise: starting a fetch leaves the
/// lifecycle `Fetching` with the guess cleared, and applying a body that
/// yields the creature fields completes it with exactly those fields, so
/// the lifecycle runs `Fetching` to `Done` in that order with no stale
/// guess in between.
pub proof fn lemma_fetch_lifecycle(
    s0: AppState,
    s1: AppState,
    s2: AppState,
    id: u32,
    body: Seq<char>,
    name: Seq<char>,
    image: Seq<char>,
)
    requires
        fetch_started(s0, s1, id),
        fetch_applied(s1, s2, id, body),
        creature_fields_of(body) == Some((name, image)),
    ensures
        s1.fetch is Fetching,
        s1.guess is NoGuess,
        s2.fetch matches FetchState::Done(c) && c.id == id && c.name@ == name
            && c.image_url@ == image,
        s2.guess is NoGuess,
{
}

/// Starting a fetch clears the guess outcome whatever it held before: no
/// stale feedback survives into a new round.
pub proof fn lemma_guess_reset_on_fetch(pre: AppState, post: AppState, id: u32)
    requires
        fetch_started(pre, post, id),
    ensures
        post.guess is NoGuess,
{
}

} // verus!
