//! Pure rendering of the application state into view models.
use crate::creature::Creature;
use crate::fetch::FetchState;
use crate::guess::GuessOutcome;
use crate::state::AppState;
use vstd::prelude::*;

verus! {

/// The feedback text for a guess outcome: empty before any guess, and one
/// sentence naming the lower-cased guess otherwise.
pub open spec fn guess_view_text(g: GuessOutcome) -> Seq<char> {
    match g {
        GuessOutcome::NoGuess => Seq::<char>::empty(),
        GuessOutcome::Correct(s) => "Yes, that's a "@ + s@ + "!"@,
        GuessOutcome::Incorrect(s) => "No, that's not a "@ + s@,
    }
}

/// Renders the guess outcome into its feedback text.
pub fn render_guess(g: &GuessOutcome) -> (r: String)
    ensures
        r@ == guess_view_text(*g),
{
    match g {
        GuessOutcome::NoGuess => String::new(),
        GuessOutcome::Correct(s) => {
            let mut t = String::from_str("Yes, that's a ");
            t.append(s.as_str());
            t.append("!");
            proof {
                assert(t@ =~= guess_view_text(*g));
            }
            t
        },
        GuessOutcome::Incorrect(s) => {
            let mut t = String::from_str("No, that's not a ");
            t.append(s.as_str());
            t
        },
    }
}

/// Rendering the guess outcome is a pure function: equal outcomes render
/// to equal feedback text, so repeated renders of the same value produce
/// identical output.
pub proof fn lemma_guess_render_pure(a: GuessOutcome, b: GuessOutcome)
    requires
        a == b,
    ensures
        guess_view_text(a) == guess_view_text(b),
{
}

/// What the creature area of the page shows: nothing before any fetch, a
/// loading indicator while one is in flight, a failure notice with its
/// reason, or the loaded creature's card. The card carries the sprite
/// image URL and the guess feedback text; the text input and submit
/// control it also holds carry no state of their own.
#[derive(Debug, Clone, PartialEq, Eq)]
pub enum CreatureViewModel {
    Blank,
    Loading,
    Notice(String),
    Card { image_url: String, guess_text: String },
}

/// Renders the fetch lifecycle and the current guess outcome into the
/// creature area's view model.
pub fn render_creature_view(fetch: &FetchState<Creature>, g: &GuessOutcome) -> (r:
    CreatureViewModel)
    ensures
        fetch is Empty ==> r is Blank,
        fetch is Fetching ==> r is Loading,
        fetch matches FetchState::Failed(reason) ==> (r matches CreatureViewModel::Notice(n)
            && n == reason),
        fetch matches FetchState::Done(c) ==> (r matches CreatureViewModel::Card {
            image_url,
            guess_text,
        } && image_url == c.image_url && guess_text@ == guess_view_text(*g)),
{
    match fetch {
        FetchState::Empty => CreatureViewModel::Blank,
        FetchState::Fetching => CreatureViewModel::Loading,
        FetchState::Failed(reason) => CreatureViewModel::Notice(reason.clone()),
        FetchState::Done(c) => CreatureViewModel::Card {
            image_url: c.image_url.clone(),
            guess_text: render_guess(g),
        },
    }
}

/// What the whole page shows: the fetch trigger control, disabled exactly
/// while a fetch is in flight, and the creature area.
#[derive(Debug, Clone, PartialEq, Eq)]
pub struct RootViewModel {
    pub trigger_disabled: bool,
    pub detail: CreatureViewModel,
}

/// Renders the application state into the page's view model.
pub fn render_root(s: &AppState) -> (r: RootViewModel)
    ensures
        r.trigger_disabled == (s.fetch is Fetching),
        s.fetch is Empty ==> r.detail is Blank,
        s.fetch is Fetching ==> r.detail is Loading,
        s.fetch matches FetchState::Failed(reason) ==> (r.detail
            matches CreatureViewModel::Notice(n) && n == reason),
        s.fetch matches FetchState::Done(c) ==> (r.detail matches CreatureViewModel::Card {
            image_url,
            guess_text,
        } && image_url == c.image_url && guess_text@ == guess_view_text(s.guess)),
{
    RootViewModel {
        trigger_disabled: s.trigger_disabled(),
        detail: render_creature_view(&s.fetch, &s.guess),
    }
}

} // verus!
