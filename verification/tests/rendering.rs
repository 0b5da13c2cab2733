use pokeguess::creature::Creature;
use pokeguess::fetch::FetchState;
use pokeguess::guess::GuessOutcome;
use pokeguess::state::AppState;
use pokeguess::view::{render_creature_view, render_guess, render_root, CreatureViewModel};

fn pikachu() -> Creature {
    Creature {
        id: 25,
        name: String::from("pikachu"),
        image_url: String::from("http://img/25.png"),
    }
}

#[test]
fn guess_feedback_texts() {
    assert_eq!(render_guess(&GuessOutcome::NoGuess), "");
    assert_eq!(
        render_guess(&GuessOutcome::Correct(String::from("pikachu"))),
        "Yes, that's a pikachu!"
    );
    assert_eq!(
        render_guess(&GuessOutcome::Incorrect(String::from("bulbasaur"))),
        "No, that's not a bulbasaur"
    );
}

#[test]
fn repeated_guess_renders_are_identical() {
    let outcomes = vec![
        GuessOutcome::NoGuess,
        GuessOutcome::Correct(String::from("mew")),
        GuessOutcome::Incorrect(String::from("onix")),
    ];
    for g in &outcomes {
        assert_eq!(render_guess(g), render_guess(g));
        assert_eq!(render_guess(&g.clone()), render_guess(g));
    }
}

#[test]
fn creature_area_follows_the_fetch_lifecycle() {
    let g = GuessOutcome::NoGuess;
    assert_eq!(
        render_creature_view(&FetchState::Empty, &g),
        CreatureViewModel::Blank
    );
    assert_eq!(
        render_creature_view(&FetchState::Fetching, &g),
        CreatureViewModel::Loading
    );
    assert_eq!(
        render_creature_view(&FetchState::Failed(String::from("no route")), &g),
        CreatureViewModel::Notice(String::from("no route"))
    );
    assert_eq!(
        render_creature_view(&FetchState::Done(pikachu()), &g),
        CreatureViewModel::Card {
            image_url: String::from("http://img/25.png"),
            guess_text: String::new(),
        }
    );
}

#[test]
fn card_carries_the_current_guess_feedback() {
    let g = GuessOutcome::Correct(String::from("pikachu"));
    assert_eq!(
        render_creature_view(&FetchState::Done(pikachu()), &g),
        CreatureViewModel::Card {
            image_url: String::from("http://img/25.png"),
            guess_text: String::from("Yes, that's a pikachu!"),
        }
    );
}

#[test]
fn root_view_disables_the_trigger_only_while_fetching() {
    let mut s = AppState::new();
    assert!(!render_root(&s).trigger_disabled);
    let id = s.start_fetch();
    assert!(render_root(&s).trigger_disabled);
    assert_eq!(render_root(&s).detail, CreatureViewModel::Loading);
    s.apply_fetch_result(
        id,
        "{\"name\":\"pikachu\",\"sprites\":{\"front_default\":\"http://img/25.png\"}}",
    );
    let v = render_root(&s);
    assert!(!v.trigger_disabled);
    match v.detail {
        CreatureViewModel::Card { image_url, guess_text } => {
            assert_eq!(image_url, "http://img/25.png");
            assert_eq!(guess_text, "");
        }
        other => panic!("expected the creature card, got {:?}", other),
    }
}
