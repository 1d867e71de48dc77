//! Actions that can be queued for the world, and their textual names.

use vstd::prelude::*;
use crate::strings::{
    is_white_space, lemma_trimmed_surrounded, lowercased, to_lowercase, trim, trimmed,
};

verus! {

/// What the player or a script can ask for.
#[derive(Clone, Copy, Debug, PartialEq, Eq, Hash)]
pub enum Action {
    Attack,
    MoveLeft,
    MoveRight,
    MoveUp,
    MoveDown,
    Die,
    Heal,
}

/// The action that the keyword `word` names, if it names one. Keywords are
/// lower case and stand without surrounding space; healing has two
/// spellings.
pub open spec fn keyword_action(word: Seq<char>) -> Option<Action> {
    if word == "attack"@ {
        Some(Action::Attack)
    } else if word == "move_left"@ {
        Some(Action::MoveLeft)
    } else if word == "move_right"@ {
        Some(Action::MoveRight)
    } else if word == "move_up"@ {
        Some(Action::MoveUp)
    } else if word == "move_down"@ {
        Some(Action::MoveDown)
    } else if word == "die"@ {
        Some(Action::Die)
    } else if word == "heal"@ || word == "healt"@ {
        Some(Action::Heal)
    } else {
        None
    }
}

/// The action that the keyword `word` names, if it names one.
pub fn action_from_keyword(word: &str) -> (r: Option<Action>)
    ensures
        r == keyword_action(word@),
{
    if word.eq("attack") {
        Some(Action::Attack)
    } else if word.eq("move_left") {
        Some(Action::MoveLeft)
    } else if word.eq("move_right") {
        Some(Action::MoveRight)
    } else if word.eq("move_up") {
        Some(Action::MoveUp)
    } else if word.eq("move_down") {
        Some(Action::MoveDown)
    } else if word.eq("die") {
        Some(Action::Die)
    } else if word.eq("heal") || word.eq("healt") {
        Some(Action::Heal)
    } else {
        None
    }
}

/// Turns a line of input into an action: surrounding white space and the
/// case of the letters do not matter.
pub fn parse_action(input: &str) -> (r: Option<Action>)
    ensures
        r == keyword_action(lowercased(trimmed(input@))),
{
    let lowered = to_lowercase(trim(input));
    action_from_keyword(lowered.as_str())
}

/// White space around a command does not matter: a line that neither
/// begins nor ends with white space names the same action whatever white
/// space is put before and behind it.
pub proof fn lemma_surrounding_space_is_ignored(
    before: Seq<char>,
    text: Seq<char>,
    behind: Seq<char>,
)
    requires
        forall|i: int| 0 <= i < before.len() ==> is_white_space(#[trigger] before[i]),
        forall|i: int| 0 <= i < behind.len() ==> is_white_space(#[trigger] behind[i]),
        text.len() > 0,
        !is_white_space(text[0]),
        !is_white_space(text.last()),
    ensures
        keyword_action(lowercased(trimmed(before + text + behind))) == keyword_action(
            lowercased(trimmed(text)),
        ),
{
    lemma_trimmed_surrounded(before, text, behind);
    lemma_trimmed_surrounded(Seq::<char>::empty(), text, Seq::<char>::empty());
    assert(Seq::<char>::empty() + text + Seq::<char>::empty() =~= text);
}

} // verus!
