use crate::text::chars_of;
use vstd::prelude::*;

verus! {

/// What the player may ask of the settings menu.
#[derive(Debug, Clone, Copy, PartialEq, Eq, Structural)]
pub enum SettingChoice {
    /// Change the seed.
    Seed,
    /// Change the player's colour.
    PlayerColor,
    /// Change the player's tile.
    PlayerTile,
    /// Change the board's width.
    Width,
    /// Change the board's height.
    Height,
    /// Go back to the settings of a game for which nothing was asked.
    Reset,
    /// Leave the menu and play.
    Play,
}

/// The answer that a line gives to a question asked with yes or no:
/// `yes` and `y` say yes, `no` and `n` say no, in small letters only, and
/// nothing else is an answer.
pub open spec fn yes_no(s: Seq<char>) -> Option<bool> {
    if s == "yes"@ || s == "y"@ {
        Some(true)
    } else if s == "no"@ || s == "n"@ {
        Some(false)
    } else {
        None
    }
}

/// What a line asks of the settings menu: a setting by its number, a
/// reset by `d` or `default`, and with anything else to play.
pub open spec fn setting_choice(s: Seq<char>) -> SettingChoice {
    if s == "0"@ {
        SettingChoice::Seed
    } else if s == "1"@ {
        SettingChoice::PlayerColor
    } else if s == "2"@ {
        SettingChoice::PlayerTile
    } else if s == "3"@ {
        SettingChoice::Width
    } else if s == "4"@ {
        SettingChoice::Height
    } else if s == "d"@ || s == "default"@ {
        SettingChoice::Reset
    } else {
        SettingChoice::Play
    }
}

/// Whether two texts hold the same characters.
pub fn same_text(s: &Vec<char>, word: &str) -> (r: bool)
    ensures
        r == (s@ == word@),
{
    let letters = chars_of(word);
    if s.len() != letters.len() {
        return false;
    }
    let mut i: usize = 0;
    while i < s.len()
        invariant
            i <= s.len(),
            s.len() == letters.len(),
            letters@ == word@,
            forall|j: int| 0 <= j < i ==> s@[j] == word@[j],
        decreases s.len() - i,
    {
        if s[i] != letters[i] {
            return false;
        }
        i += 1;
    }
    assert(s@ =~= word@);
    true
}

/// Reads the answer to a question asked with yes or no.
pub fn parse_yes_no(s: &str) -> (r: Option<bool>)
    ensures
        r == yes_no(s@),
{
    let line = chars_of(s);
    if same_text(&line, "yes") || same_text(&line, "y") {
        Some(true)
    } else if same_text(&line, "no") || same_text(&line, "n") {
        Some(false)
    } else {
        None
    }
}

/// Reads what the player asks of the settings menu.
pub fn parse_setting_choice(s: &str) -> (r: SettingChoice)
    ensures
        r == setting_choice(s@),
{
    let line = chars_of(s);
    if same_text(&line, "0") {
        SettingChoice::Seed
    } else if same_text(&line, "1") {
        SettingChoice::PlayerColor
    } else if same_text(&line, "2") {
        SettingChoice::PlayerTile
    } else if same_text(&line, "3") {
        SettingChoice::Width
    } else if same_text(&line, "4") {
        SettingChoice::Height
    } else if same_text(&line, "d") || same_text(&line, "default") {
        SettingChoice::Reset
    } else {
        SettingChoice::Play
    }
}

} // verus!
