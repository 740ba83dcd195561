use vstd::prelude::*;

verus! {

/// A move in the game.
#[derive(Clone, Copy, Debug, PartialEq, Eq, Structural)]
pub enum Choice {
    Rock,
    Paper,
    Scissors,
}

/// The result of a round, from the player's side.
#[derive(Clone, Copy, Debug, PartialEq, Eq, Structural)]
pub enum Outcome {
    Win,
    Lose,
    Draw,
}

/// The choice that `c` defeats: Rock blunts Scissors, Scissors cut Paper,
/// Paper wraps Rock.
pub open spec fn beats(c: Choice) -> Choice {
    match c {
        Choice::Rock => Choice::Scissors,
        Choice::Paper => Choice::Rock,
        Choice::Scissors => Choice::Paper,
    }
}

/// The outcome of `player` against `opponent`.
pub open spec fn outcome_of(player: Choice, opponent: Choice) -> Outcome {
    if player == opponent {
        Outcome::Draw
    } else if beats(player) == opponent {
        Outcome::Win
    } else {
        Outcome::Lose
    }
}

/// The same outcome seen from the other side.
pub open spec fn reversed(o: Outcome) -> Outcome {
    match o {
        Outcome::Win => Outcome::Lose,
        Outcome::Lose => Outcome::Win,
        Outcome::Draw => Outcome::Draw,
    }
}

/// Decides a round: the outcome for the player who chose `player_choice`
/// against an opponent who chose `ai_choice`. Written out over all nine pairs.
pub fn battle(player_choice: &Choice, ai_choice: &Choice) -> (r: Outcome)
    ensures
        r == outcome_of(*player_choice, *ai_choice),
{
    match player_choice {
        Choice::Rock => match ai_choice {
            Choice::Rock => Outcome::Draw,
            Choice::Paper => Outcome::Lose,
            Choice::Scissors => Outcome::Win,
        },
        Choice::Paper => match ai_choice {
            Choice::Rock => Outcome::Win,
            Choice::Paper => Outcome::Draw,
            Choice::Scissors => Outcome::Lose,
        },
        Choice::Scissors => match ai_choice {
            Choice::Rock => Outcome::Lose,
            Choice::Paper => Outcome::Win,
            Choice::Scissors => Outcome::Draw,
        },
    }
}

/// The outcome of a round for the other side.
pub fn reverse(outcome: Outcome) -> (r: Outcome)
    ensures
        r == reversed(outcome),
{
    match outcome {
        Outcome::Win => Outcome::Lose,
        Outcome::Lose => Outcome::Win,
        Outcome::Draw => Outcome::Draw,
    }
}

/// The outcome table over all nine ordered pairs: equal choices draw; Rock
/// against Scissors, Scissors against Paper and Paper against Rock win for the
/// first; the three reverse pairs lose for the first.
pub proof fn lemma_outcome_table()
    ensures
        outcome_of(Choice::Rock, Choice::Rock) == Outcome::Draw,
        outcome_of(Choice::Paper, Choice::Paper) == Outcome::Draw,
        outcome_of(Choice::Scissors, Choice::Scissors) == Outcome::Draw,
        outcome_of(Choice::Rock, Choice::Scissors) == Outcome::Win,
        outcome_of(Choice::Scissors, Choice::Paper) == Outcome::Win,
        outcome_of(Choice::Paper, Choice::Rock) == Outcome::Win,
        outcome_of(Choice::Scissors, Choice::Rock) == Outcome::Lose,
        outcome_of(Choice::Paper, Choice::Scissors) == Outcome::Lose,
        outcome_of(Choice::Rock, Choice::Paper) == Outcome::Lose,
{
}

/// The rule is anti-symmetric: `a` wins against `b` exactly when `b` loses
/// against `a`, the reverse pair always gives the reversed outcome, and a
/// choice against itself is a draw.
pub proof fn lemma_outcome_antisymmetric(a: Choice, b: Choice)
    ensures
        outcome_of(a, b) == Outcome::Win <==> outcome_of(b, a) == Outcome::Lose,
        outcome_of(b, a) == reversed(outcome_of(a, b)),
        outcome_of(a, a) == Outcome::Draw,
{
}

/// The choice that a draw of `roll` from `0..3` stands for; no choice for
/// any larger number.
pub open spec fn choice_of_roll(roll: u64) -> Option<Choice> {
    if roll == 0 {
        Some(Choice::Rock)
    } else if roll == 1 {
        Some(Choice::Paper)
    } else if roll == 2 {
        Some(Choice::Scissors)
    } else {
        None
    }
}

/// Turns a number drawn uniformly from `0..3` into the opponent's choice.
pub fn choice_from_roll(roll: u64) -> (r: Option<Choice>)
    ensures
        r == choice_of_roll(roll),
        r is Some <==> roll < 3,
{
    match roll {
        0 => Some(Choice::Rock),
        1 => Some(Choice::Paper),
        2 => Some(Choice::Scissors),
        _ => None,
    }
}

/// Every choice stands for exactly one of the three numbers `0..3`, so a
/// uniform draw of the number gives each choice with the same chance.
pub proof fn lemma_roll_covers_each_choice(c: Choice)
    ensures
        exists|n: u64| n < 3 && #[trigger] choice_of_roll(n) == Some(c),
        forall|n: u64, m: u64|
            #![trigger choice_of_roll(n), choice_of_roll(m)]
            n < 3 && m < 3 && choice_of_roll(n) == Some(c) && choice_of_roll(m) == Some(c)
                ==> n == m,
{
    match c {
        Choice::Rock => assert(choice_of_roll(0) == Some(c)),
        Choice::Paper => assert(choice_of_roll(1) == Some(c)),
        Choice::Scissors => assert(choice_of_roll(2) == Some(c)),
    }
}

} // verus!
