//! The name under which a character enters the game.

use vstd::prelude::*;
use vstd::string::StrSliceExecFns;
use vstd::utf8::encode_utf8;

verus! {

/// The most bytes that a character's name may take, written in UTF-8.
pub const NAME_LIMIT: usize = 30;

/// Whether a character is a letter or a digit, as `char::is_alphanumeric`
/// has it.
pub uninterp spec fn alphanumeric(c: char) -> bool;

/// A text without the white space at its two ends, as `str::trim` has it.
pub uninterp spec fn trimmed(text: Seq<char>) -> Seq<char>;

/// Trusted: `char::is_alphanumeric` depends on the character alone.
#[verifier::external_body]
fn is_alphanumeric(c: char) -> (yes: bool)
    ensures
        yes == alphanumeric(c),
{
    c.is_alphanumeric()
}

/// Trusted: `str::trim` depends on the text alone.
#[verifier::external_body]
fn trim(text: &str) -> (inner: &str)
    ensures
        inner@ == trimmed(text@),
{
    text.trim()
}

/// Whether a text can be a name that a player chose, where `letters` says of
/// each of its characters whether it is a letter or a digit: the text takes
/// no more than [`NAME_LIMIT`] bytes; it holds nothing but letters, digits,
/// spaces, hyphens and full stops; and, unless it is empty, it holds a letter
/// or a digit. The empty text passes: it says that the player chose no name.
pub open spec fn passes(name: Seq<char>, letters: Seq<bool>) -> bool {
    &&& letters.len() == name.len()
    &&& encode_utf8(name).len() <= NAME_LIMIT
    &&& forall|i: int|
        0 <= i < name.len() ==> #[trigger] letters[i] || name[i] == ' ' || name[i] == '-' || name[i]
            == '.'
    &&& name.len() > 0 ==> exists|i: int| 0 <= i < name.len() && #[trigger] letters[i]
}

/// Whether `name` [`passes`] with these `letters`.
pub fn judge(name: &str, letters: &Vec<bool>) -> (ok: bool)
    ensures
        ok == passes(name@, letters@),
{
    if name.as_bytes().len() > NAME_LIMIT {
        return false;
    }
    let count = name.unicode_len();
    if letters.len() != count {
        return false;
    }
    let mut lettered = false;
    let mut i: usize = 0;
    while i < count
        invariant
            i <= count,
            count == name@.len(),
            letters@.len() == count,
            forall|j: int|
                0 <= j < i ==> #[trigger] letters@[j] || name@[j] == ' ' || name@[j] == '-'
                    || name@[j] == '.',
            lettered <==> exists|j: int| 0 <= j < i && #[trigger] letters@[j],
        decreases count - i,
    {
        let c = name.get_char(i);
        if !letters[i] && c != ' ' && c != '-' && c != '.' {
            return false;
        }
        if letters[i] {
            lettered = true;
        }
        i += 1;
    }
    count == 0 || lettered
}

/// Of each character of a text, whether it is a letter or a digit.
pub open spec fn lettering(name: Seq<char>) -> Seq<bool> {
    name.map_values(|c: char| alphanumeric(c))
}

/// Whether a text can be a name that a player chose.
pub open spec fn nameable(name: Seq<char>) -> bool {
    passes(name, lettering(name))
}

/// Whether `name` is [`nameable`].
pub fn acceptable(name: &str) -> (ok: bool)
    ensures
        ok == nameable(name@),
{
    let count = name.unicode_len();
    let mut letters: Vec<bool> = Vec::new();
    let mut i: usize = 0;
    while i < count
        invariant
            i <= count,
            count == name@.len(),
            letters@ == lettering(name@.subrange(0, i as int)),
        decreases count - i,
    {
        letters.push(is_alphanumeric(name.get_char(i)));
        assert(letters@ =~= lettering(name@.subrange(0, i + 1)));
        i += 1;
    }
    assert(name@.subrange(0, i as int) =~= name@);
    judge(name, &letters)
}

/// The name that a character gets, from what the player chose and what the
/// player is called, all without white space around them. `None`: the choice
/// is refused.
///
/// A choice that does not pass is refused. An empty choice means that the
/// character is called as the player is: by the nickname, where there is
/// one, else by the author's name.
pub open spec fn picked(choice: Seq<char>, passed: bool, nick: Option<Seq<char>>, author: Seq<char>) -> Option<Seq<char>> {
    if !passed {
        None
    } else if choice.len() > 0 {
        Some(choice)
    } else {
        match nick {
            Some(nick) => Some(nick),
            None => Some(author),
        }
    }
}

/// The characters of a text that may be missing.
pub open spec fn text(given: Option<&str>) -> Option<Seq<char>> {
    match given {
        Some(given) => Some(given@),
        None => None,
    }
}

/// Picks the name as [`picked`] says.
pub fn pick<'a>(choice: &'a str, passed: bool, nick: Option<&'a str>, author: &'a str) -> (name: Option<&'a str>)
    ensures
        text(name) == picked(choice@, passed, text(nick), author@),
{
    if !passed {
        return None;
    }
    if !choice.is_empty() {
        return Some(choice);
    }
    match nick {
        Some(nick) => Some(nick),
        None => Some(author),
    }
}

/// The name that a character gets when the player wrote `rest` behind the
/// command: the player's choice is `rest` without the white space around it;
/// it passes if it is [`nameable`]; the nickname and the author's name lose
/// the white space around them.
pub open spec fn chosen(rest: Seq<char>, nick: Option<Seq<char>>, author: Seq<char>) -> Option<Seq<char>> {
    picked(
        trimmed(rest),
        nameable(trimmed(rest)),
        match nick {
            Some(nick) => Some(trimmed(nick)),
            None => None,
        },
        trimmed(author),
    )
}

/// Picks the name of a new character.
pub fn character_name<'a>(rest: &'a str, nick: Option<&'a str>, author: &'a str) -> (name: Option<&'a str>)
    ensures
        text(name) == chosen(rest@, text(nick), author@),
{
    let choice = trim(rest);
    let passed = acceptable(choice);
    let nick = match nick {
        Some(nick) => Some(trim(nick)),
        None => None,
    };
    pick(choice, passed, nick, trim(author))
}

} // verus!
