use crate::choice::{Choice, Outcome, battle, outcome_of};
use vstd::prelude::*;

verus! {

/// Where the game stands: the menu, a round being played, or the result of
/// the last round.
#[derive(Clone, Copy, Debug, PartialEq, Eq, Structural)]
pub enum State {
    Menu,
    Play,
    Win,
    Lose,
    Draw,
}

/// Whether the three choice buttons take clicks.
#[derive(Clone, Copy, Debug, PartialEq, Eq, Structural)]
pub enum ButtonState {
    Disabled,
    Enabled,
}

/// What happens to the game: a click, or a delay that ran out.
#[derive(Clone, Copy, Debug, PartialEq, Eq, Structural)]
pub enum Event {
    /// The start button of the menu was clicked.
    Start,
    /// The player clicked one of the three choice buttons.
    Pick(Choice),
    /// The first delay of a round ran out and the opponent's choice was drawn.
    OpponentDrawn(Choice),
    /// The second delay of a round ran out: the result is to be shown.
    Reveal,
    /// The "play again" button was clicked.
    PlayAgain,
}

/// What the screen has to do after an event.
#[derive(Clone, Copy, Debug, PartialEq, Eq, Structural)]
pub enum Action {
    /// The event does not apply in this state; nothing changes.
    Ignore,
    /// Leave the menu: hide it, show the play panel, enable the choice buttons.
    EnterPlay,
    /// Disable the choice buttons, start the shaking of the images, and after
    /// the round delay draw the opponent's choice.
    BeginRound { player: Choice },
    /// Stop the shaking, show both choices as images and names, hide the play
    /// panel, write the outcome's announcement, and after the round delay
    /// send `Event::Reveal`.
    ShowRound { player: Choice, opponent: Choice, outcome: Outcome },
    /// Mark the winner's and the loser's image, show the scores, the outcome
    /// panel and the result.
    RevealOutcome { outcome: Outcome },
    /// Clear the names and the image classes, hide the outcome panel and the
    /// result, put both images back to Rock, show the play panel and enable
    /// the choice buttons.
    ResetRound,
}

/// The delay, in milliseconds, before the opponent's choice is drawn and
/// again before the result is shown.
pub const STATE_TRANSITION_TIME: i32 = 1750;

/// The game as a value: the state, the two choices of the current round and
/// whether its result is shown, and the two scores.
pub struct GameView {
    pub state: State,
    pub player_choice: Option<Choice>,
    pub ai_choice: Option<Choice>,
    pub revealed: bool,
    pub player_score: nat,
    pub ai_score: nat,
}

/// One game, from the menu on.
pub struct Game {
    state: State,
    player_choice: Option<Choice>,
    ai_choice: Option<Choice>,
    revealed: bool,
    player_score: u64,
    ai_score: u64,
}

/// The state that shows `o`.
pub open spec fn state_for(o: Outcome) -> State {
    match o {
        Outcome::Win => State::Win,
        Outcome::Lose => State::Lose,
        Outcome::Draw => State::Draw,
    }
}

/// The states that end a round.
pub open spec fn is_outcome_state(s: State) -> bool {
    s == State::Win || s == State::Lose || s == State::Draw
}

/// The outcome that an outcome state shows.
pub open spec fn outcome_in(s: State) -> Outcome {
    match s {
        State::Win => Outcome::Win,
        State::Lose => Outcome::Lose,
        _ => Outcome::Draw,
    }
}

/// The game before the first click: the menu, no choices, both scores zero.
pub open spec fn initial() -> GameView {
    GameView {
        state: State::Menu,
        player_choice: None,
        ai_choice: None,
        revealed: false,
        player_score: 0,
        ai_score: 0,
    }
}

/// The states that the game can be in: no choice is held in the menu; in
/// play the opponent has not chosen yet; an outcome state holds both choices
/// of the round and is the state of their outcome.
pub open spec fn wf(v: GameView) -> bool {
    match v.state {
        State::Menu => v.player_choice is None && v.ai_choice is None && !v.revealed,
        State::Play => v.ai_choice is None && !v.revealed,
        _ => v.player_choice is Some && v.ai_choice is Some && v.state == state_for(
            outcome_of(v.player_choice->0, v.ai_choice->0),
        ),
    }
}

/// The player can pick a choice: a round is on and none was picked yet.
pub open spec fn accepts_choice(v: GameView) -> bool {
    v.state == State::Play && v.player_choice is None
}

/// The event ends a round by showing its result.
pub open spec fn reveals(v: GameView, e: Event) -> bool {
    is_outcome_state(v.state) && !v.revealed && e == Event::Reveal
}

/// The game after event `e` in `v`.
pub open spec fn next(v: GameView, e: Event) -> GameView {
    match e {
        Event::Start => if v.state == State::Menu {
            GameView { state: State::Play, ..v }
        } else {
            v
        },
        Event::Pick(c) => if accepts_choice(v) {
            GameView { player_choice: Some(c), ..v }
        } else {
            v
        },
        Event::OpponentDrawn(a) => if v.state == State::Play && v.player_choice is Some {
            GameView {
                state: state_for(outcome_of(v.player_choice->0, a)),
                ai_choice: Some(a),
                ..v
            }
        } else {
            v
        },
        Event::Reveal => if reveals(v, e) {
            GameView {
                revealed: true,
                player_score: if v.state == State::Win {
                    v.player_score + 1
                } else {
                    v.player_score
                },
                ai_score: if v.state == State::Lose {
                    v.ai_score + 1
                } else {
                    v.ai_score
                },
                ..v
            }
        } else {
            v
        },
        Event::PlayAgain => if is_outcome_state(v.state) && v.revealed {
            GameView {
                state: State::Play,
                player_choice: None,
                ai_choice: None,
                revealed: false,
                ..v
            }
        } else {
            v
        },
    }
}

/// What the screen has to do on event `e` in `v`.
pub open spec fn response(v: GameView, e: Event) -> Action {
    match e {
        Event::Start => if v.state == State::Menu {
            Action::EnterPlay
        } else {
            Action::Ignore
        },
        Event::Pick(c) => if accepts_choice(v) {
            Action::BeginRound { player: c }
        } else {
            Action::Ignore
        },
        Event::OpponentDrawn(a) => if v.state == State::Play && v.player_choice is Some {
            Action::ShowRound {
                player: v.player_choice->0,
                opponent: a,
                outcome: outcome_of(v.player_choice->0, a),
            }
        } else {
            Action::Ignore
        },
        Event::Reveal => if reveals(v, e) {
            Action::RevealOutcome { outcome: outcome_in(v.state) }
        } else {
            Action::Ignore
        },
        Event::PlayAgain => if is_outcome_state(v.state) && v.revealed {
            Action::ResetRound
        } else {
            Action::Ignore
        },
    }
}

/// The game after the events `es`, taken in order from `v`.
pub open spec fn run(v: GameView, es: Seq<Event>) -> GameView
    decreases es.len(),
{
    if es.len() == 0 {
        v
    } else {
        run(next(v, es[0]), es.drop_first())
    }
}

/// The outcomes of the rounds whose result was shown while the events `es`
/// were taken from `v`, in order.
pub open spec fn settled(v: GameView, es: Seq<Event>) -> Seq<Outcome>
    decreases es.len(),
{
    if es.len() == 0 {
        Seq::empty()
    } else if reveals(v, es[0]) {
        seq![outcome_in(v.state)] + settled(next(v, es[0]), es.drop_first())
    } else {
        settled(next(v, es[0]), es.drop_first())
    }
}

/// How many times `o` occurs in `s`.
pub open spec fn count(s: Seq<Outcome>, o: Outcome) -> nat
    decreases s.len(),
{
    if s.len() == 0 {
        0
    } else {
        (if s[0] == o { 1nat } else { 0nat }) + count(s.drop_first(), o)
    }
}

/// Every event keeps the game in one of its possible states.
pub proof fn lemma_next_well_formed(v: GameView, e: Event)
    requires
        wf(v),
    ensures
        wf(next(v, e)),
{
}

/// From the menu only the start button leads on, and it leads to a round.
pub proof fn lemma_menu_left_only_by_start(v: GameView, e: Event)
    requires
        wf(v),
        v.state == State::Menu,
    ensures
        next(v, e).state != State::Menu <==> e == Event::Start,
        e == Event::Start ==> next(v, e).state == State::Play && accepts_choice(next(v, e)),
{
}

/// While a round waits for the player, only a pick changes the game, and it
/// begins the round's resolution with that choice.
pub proof fn lemma_round_begun_only_by_pick(v: GameView, e: Event)
    requires
        wf(v),
        accepts_choice(v),
    ensures
        next(v, e) != v <==> e is Pick,
        e is Pick ==> next(v, e).player_choice == Some(e->Pick_0) && !accepts_choice(next(v, e)),
{
}

/// Once the player picked, further picks are ignored; picks are taken again
/// only after the start button in the menu, or after the round's result was
/// shown and the player asked for another round.
pub proof fn lemma_input_locked_until_play_again(v: GameView, e: Event)
    requires
        wf(v),
        !accepts_choice(v),
    ensures
        e is Pick ==> next(v, e) == v,
        accepts_choice(next(v, e)) ==> (v.state == State::Menu && e == Event::Start) || (
        is_outcome_state(v.state) && v.revealed && e == Event::PlayAgain),
        v.state == State::Play && v.player_choice is Some && e is OpponentDrawn ==> is_outcome_state(
            next(v, e).state,
        ) && !next(v, e).revealed,
{
}

/// The scores never go down; one changes only when a round's result is shown,
/// the player's on a win and the opponent's on a loss, by one; a draw
/// changes neither.
pub proof fn lemma_score_step(v: GameView, e: Event)
    ensures
        next(v, e).player_score >= v.player_score,
        next(v, e).ai_score >= v.ai_score,
        next(v, e).player_score == v.player_score + (if reveals(v, e) && outcome_in(v.state)
            == Outcome::Win { 1nat } else { 0nat }),
        next(v, e).ai_score == v.ai_score + (if reveals(v, e) && outcome_in(v.state)
            == Outcome::Lose { 1nat } else { 0nat }),
        reveals(v, e) && outcome_in(v.state) == Outcome::Draw ==> next(v, e).player_score
            == v.player_score && next(v, e).ai_score == v.ai_score,
{
}

/// After any sequence of events, each score has grown by the number of
/// rounds shown with that side winning, and no more; draws count for neither.
pub proof fn lemma_scores_count_rounds(v: GameView, es: Seq<Event>)
    ensures
        run(v, es).player_score == v.player_score + count(settled(v, es), Outcome::Win),
        run(v, es).ai_score == v.ai_score + count(settled(v, es), Outcome::Lose),
        run(v, es).player_score >= v.player_score,
        run(v, es).ai_score >= v.ai_score,
    decreases es.len(),
{
    if es.len() > 0 {
        let w = next(v, es[0]);
        let rest = es.drop_first();
        lemma_score_step(v, es[0]);
        lemma_scores_count_rounds(w, rest);
        if reveals(v, es[0]) {
            let s = seq![outcome_in(v.state)] + settled(w, rest);
            assert(s.drop_first() =~= settled(w, rest));
        }
    }
}

/// From a new game, the player's score is the number of rounds won and the
/// opponent's the number of rounds lost.
pub proof fn lemma_scores_from_start(es: Seq<Event>)
    ensures
        run(initial(), es).player_score == count(settled(initial(), es), Outcome::Win),
        run(initial(), es).ai_score == count(settled(initial(), es), Outcome::Lose),
{
    lemma_scores_count_rounds(initial(), es);
}

impl View for Game {
    type V = GameView;

    closed spec fn view(&self) -> GameView {
        GameView {
            state: self.state,
            player_choice: self.player_choice,
            ai_choice: self.ai_choice,
            revealed: self.revealed,
            player_score: self.player_score as nat,
            ai_score: self.ai_score as nat,
        }
    }
}

impl Game {
    /// The game is in one of its possible states.
    pub open spec fn well_formed(&self) -> bool {
        wf(self@)
    }

    /// Neither score is at the largest value that it can hold.
    pub open spec fn can_count(&self) -> bool {
        self@.player_score < u64::MAX && self@.ai_score < u64::MAX
    }

    /// A new game, in the menu with both scores at zero.
    pub fn new() -> (g: Game)
        ensures
            g@ == initial(),
            g.well_formed(),
    {
        Game {
            state: State::Menu,
            player_choice: None,
            ai_choice: None,
            revealed: false,
            player_score: 0,
            ai_score: 0,
        }
    }

    /// Takes one event: moves the game to `next` of it and says what the
    /// screen has to do. An event that does not apply in the current state
    /// (a second pick while a round is decided, a start outside the menu, a
    /// "play again" before the result is shown) is ignored.
    pub fn step(&mut self, event: Event) -> (r: Action)
        requires
            old(self).well_formed(),
            old(self).can_count(),
        ensures
            final(self)@ == next(old(self)@, event),
            r == response(old(self)@, event),
            final(self).well_formed(),
    {
        match event {
            Event::Start => {
                if self.state == State::Menu {
                    self.state = State::Play;
                    Action::EnterPlay
                } else {
                    Action::Ignore
                }
            },
            Event::Pick(c) => {
                if self.state == State::Play && self.player_choice.is_none() {
                    self.player_choice = Some(c);
                    Action::BeginRound { player: c }
                } else {
                    Action::Ignore
                }
            },
            Event::OpponentDrawn(a) => {
                match (self.state, self.player_choice) {
                    (State::Play, Some(p)) => {
                        let outcome = battle(&p, &a);
                        self.state = match outcome {
                            Outcome::Win => State::Win,
                            Outcome::Lose => State::Lose,
                            Outcome::Draw => State::Draw,
                        };
                        self.ai_choice = Some(a);
                        Action::ShowRound { player: p, opponent: a, outcome }
                    },
                    _ => Action::Ignore,
                }
            },
            Event::Reveal => {
                if self.revealed {
                    Action::Ignore
                } else {
                    match self.state {
                        State::Win => {
                            self.player_score = self.player_score + 1;
                            self.revealed = true;
                            Action::RevealOutcome { outcome: Outcome::Win }
                        },
                        State::Lose => {
                            self.ai_score = self.ai_score + 1;
                            self.revealed = true;
                            Action::RevealOutcome { outcome: Outcome::Lose }
                        },
                        State::Draw => {
                            self.revealed = true;
                            Action::RevealOutcome { outcome: Outcome::Draw }
                        },
                        _ => Action::Ignore,
                    }
                }
            },
            Event::PlayAgain => {
                if self.revealed && self.state != State::Menu && self.state != State::Play {
                    self.state = State::Play;
                    self.player_choice = None;
                    self.ai_choice = None;
                    self.revealed = false;
                    Action::ResetRound
                } else {
                    Action::Ignore
                }
            },
        }
    }

    /// The current state.
    pub fn state(&self) -> (r: State)
        ensures
            r == self@.state,
    {
        self.state
    }

    /// The player's choice in the current round, once picked.
    pub fn player_choice(&self) -> (r: Option<Choice>)
        ensures
            r == self@.player_choice,
    {
        self.player_choice
    }

    /// The opponent's choice in the current round, once drawn.
    pub fn ai_choice(&self) -> (r: Option<Choice>)
        ensures
            r == self@.ai_choice,
    {
        self.ai_choice
    }

    /// Whether the result of the current round is shown.
    pub fn is_revealed(&self) -> (r: bool)
        ensures
            r == self@.revealed,
    {
        self.revealed
    }

    /// The player's score.
    pub fn player_score(&self) -> (r: u64)
        ensures
            r as nat == self@.player_score,
    {
        self.player_score
    }

    /// The opponent's score.
    pub fn ai_score(&self) -> (r: u64)
        ensures
            r as nat == self@.ai_score,
    {
        self.ai_score
    }

    /// Whether the choice buttons take clicks: only while a round waits for
    /// the player's pick.
    pub fn button_state(&self) -> (r: ButtonState)
        ensures
            r == ButtonState::Enabled <==> accepts_choice(self@),
    {
        if self.state == State::Play && self.player_choice.is_none() {
            ButtonState::Enabled
        } else {
            ButtonState::Disabled
        }
    }
}

} // verus!
