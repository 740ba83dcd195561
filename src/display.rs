use crate::choice::{Choice, Outcome};
use vstd::prelude::*;

verus! {

/// The name shown under the image of a choice.
pub open spec fn choice_name(c: Choice) -> Seq<char> {
    match c {
        Choice::Rock => "Rock"@,
        Choice::Paper => "Paper"@,
        Choice::Scissors => "Scissors"@,
    }
}

/// The sentence that announces an outcome.
pub open spec fn outcome_text(o: Outcome) -> Seq<char> {
    match o {
        Outcome::Win => "You win!"@,
        Outcome::Lose => "You lose!"@,
        Outcome::Draw => "It's a draw!"@,
    }
}

/// The image file of a choice; the opponent's side (`alt`) uses the
/// mirrored picture.
pub open spec fn image_path(c: Choice, alt: bool) -> Seq<char> {
    match c {
        Choice::Rock => if alt { "assets/rock-500-alt.png"@ } else { "assets/rock-500.png"@ },
        Choice::Paper => if alt { "assets/paper-500-alt.png"@ } else { "assets/paper-500.png"@ },
        Choice::Scissors => if alt {
            "assets/scissors-500-alt.png"@
        } else {
            "assets/scissors-500.png"@
        },
    }
}

/// The alternative text of a choice's image.
pub open spec fn image_alt_text(c: Choice) -> Seq<char> {
    match c {
        Choice::Rock => "A hand doing a rock sign"@,
        Choice::Paper => "A hand doing a paper sign"@,
        Choice::Scissors => "A hand doing a scissors sign"@,
    }
}

/// The style class that marks a side's image after a round: the winner's
/// and the loser's class, none on a draw.
pub open spec fn outcome_class(o: Outcome) -> Seq<char> {
    match o {
        Outcome::Win => "win"@,
        Outcome::Lose => "lose"@,
        Outcome::Draw => ""@,
    }
}

/// The style class of the two images: shaking while the round is decided,
/// none once it `settled`.
pub open spec fn shake_class(settled: bool) -> Seq<char> {
    if settled {
        ""@
    } else {
        "rock-it"@
    }
}

/// The name of a choice.
pub fn get_choice(choice: &Choice) -> (r: &'static str)
    ensures
        r@ == choice_name(*choice),
{
    match choice {
        Choice::Rock => "Rock",
        Choice::Paper => "Paper",
        Choice::Scissors => "Scissors",
    }
}

/// The announcement of an outcome.
pub fn get_outcome(outcome: &Outcome) -> (r: &'static str)
    ensures
        r@ == outcome_text(*outcome),
{
    match outcome {
        Outcome::Win => "You win!",
        Outcome::Lose => "You lose!",
        Outcome::Draw => "It's a draw!",
    }
}

/// The image file to show for `selection`, mirrored when `alt` is set.
pub fn image_source(selection: &Choice, alt: bool) -> (r: &'static str)
    ensures
        r@ == image_path(*selection, alt),
{
    match selection {
        Choice::Rock => if alt {
            "assets/rock-500-alt.png"
        } else {
            "assets/rock-500.png"
        },
        Choice::Paper => if alt {
            "assets/paper-500-alt.png"
        } else {
            "assets/paper-500.png"
        },
        Choice::Scissors => if alt {
            "assets/scissors-500-alt.png"
        } else {
            "assets/scissors-500.png"
        },
    }
}

/// The alternative text of the image for `selection`.
pub fn image_alt(selection: &Choice) -> (r: &'static str)
    ensures
        r@ == image_alt_text(*selection),
{
    match selection {
        Choice::Rock => "A hand doing a rock sign",
        Choice::Paper => "A hand doing a paper sign",
        Choice::Scissors => "A hand doing a scissors sign",
    }
}

/// The style class for a side's image given that side's outcome.
pub fn win_class(outcome: &Outcome) -> (r: &'static str)
    ensures
        r@ == outcome_class(*outcome),
{
    match outcome {
        Outcome::Win => "win",
        Outcome::Lose => "lose",
        Outcome::Draw => "",
    }
}

/// The style class of the two images, shaking until `remove` is set.
pub fn rock_class(remove: bool) -> (r: &'static str)
    ensures
        r@ == shake_class(remove),
{
    if remove {
        ""
    } else {
        "rock-it"
    }
}

} // verus!
