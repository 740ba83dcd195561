use rock_paper_scissors::choice::{battle, choice_from_roll, reverse, Choice, Outcome};
use rock_paper_scissors::display::{
    get_choice, get_outcome, image_alt, image_source, rock_class, win_class,
};

const ALL: [Choice; 3] = [Choice::Rock, Choice::Paper, Choice::Scissors];

#[test]
fn battle_matches_table() {
    assert_eq!(battle(&Choice::Rock, &Choice::Rock), Outcome::Draw);
    assert_eq!(battle(&Choice::Paper, &Choice::Paper), Outcome::Draw);
    assert_eq!(battle(&Choice::Scissors, &Choice::Scissors), Outcome::Draw);
    assert_eq!(battle(&Choice::Rock, &Choice::Scissors), Outcome::Win);
    assert_eq!(battle(&Choice::Scissors, &Choice::Paper), Outcome::Win);
    assert_eq!(battle(&Choice::Paper, &Choice::Rock), Outcome::Win);
    assert_eq!(battle(&Choice::Scissors, &Choice::Rock), Outcome::Lose);
    assert_eq!(battle(&Choice::Paper, &Choice::Scissors), Outcome::Lose);
    assert_eq!(battle(&Choice::Rock, &Choice::Paper), Outcome::Lose);
}

#[test]
fn battle_is_antisymmetric() {
    for a in ALL {
        assert_eq!(battle(&a, &a), Outcome::Draw);
        for b in ALL {
            let forward = battle(&a, &b);
            let backward = battle(&b, &a);
            assert_eq!(forward == Outcome::Win, backward == Outcome::Lose);
            assert_eq!(forward == Outcome::Lose, backward == Outcome::Win);
            assert_eq!(forward == Outcome::Draw, backward == Outcome::Draw);
        }
    }
}

#[test]
fn rolls_map_to_each_choice_once() {
    assert_eq!(choice_from_roll(0), Some(Choice::Rock));
    assert_eq!(choice_from_roll(1), Some(Choice::Paper));
    assert_eq!(choice_from_roll(2), Some(Choice::Scissors));
    assert_eq!(choice_from_roll(3), None);
    assert_eq!(choice_from_roll(u64::MAX), None);
}

#[test]
fn uniform_rolls_give_even_counts() {
    let mut counts = [0u32; 3];
    for n in 0..3000u64 {
        match choice_from_roll(n % 3).unwrap() {
            Choice::Rock => counts[0] += 1,
            Choice::Paper => counts[1] += 1,
            Choice::Scissors => counts[2] += 1,
        }
    }
    assert_eq!(counts, [1000, 1000, 1000]);
}

#[test]
fn choice_and_outcome_texts() {
    assert_eq!(get_choice(&Choice::Rock), "Rock");
    assert_eq!(get_choice(&Choice::Paper), "Paper");
    assert_eq!(get_choice(&Choice::Scissors), "Scissors");
    assert_eq!(get_outcome(&Outcome::Win), "You win!");
    assert_eq!(get_outcome(&Outcome::Lose), "You lose!");
    assert_eq!(get_outcome(&Outcome::Draw), "It's a draw!");
}

#[test]
fn image_sources_and_alt_texts() {
    assert_eq!(image_source(&Choice::Rock, false), "assets/rock-500.png");
    assert_eq!(image_source(&Choice::Rock, true), "assets/rock-500-alt.png");
    assert_eq!(image_source(&Choice::Paper, false), "assets/paper-500.png");
    assert_eq!(image_source(&Choice::Paper, true), "assets/paper-500-alt.png");
    assert_eq!(image_source(&Choice::Scissors, false), "assets/scissors-500.png");
    assert_eq!(image_source(&Choice::Scissors, true), "assets/scissors-500-alt.png");
    assert_eq!(image_alt(&Choice::Rock), "A hand doing a rock sign");
    assert_eq!(image_alt(&Choice::Paper), "A hand doing a paper sign");
    assert_eq!(image_alt(&Choice::Scissors), "A hand doing a scissors sign");
}

#[test]
fn style_classes() {
    assert_eq!(win_class(&Outcome::Win), "win");
    assert_eq!(win_class(&Outcome::Lose), "lose");
    assert_eq!(win_class(&Outcome::Draw), "");
    assert_eq!(rock_class(false), "rock-it");
    assert_eq!(rock_class(true), "");
}

#[test]
fn reverse_swaps_win_and_lose() {
    assert_eq!(reverse(Outcome::Win), Outcome::Lose);
    assert_eq!(reverse(Outcome::Lose), Outcome::Win);
    assert_eq!(reverse(Outcome::Draw), Outcome::Draw);
    for a in ALL {
        for b in ALL {
            assert_eq!(reverse(battle(&a, &b)), battle(&b, &a));
        }
    }
}
