//! How the engine speaks of users, channels, roles and symbols in the text
//! of a chat message.

use vstd::prelude::*;
use vstd::string::StringExecFns;

verus! {

/// Something that the text of a chat message can point at.
#[derive(Clone, Copy, Debug, PartialEq, Eq)]
pub enum Mentionable {
    /// A channel, by its identity.
    Channel(u64),
    /// A user, by its identity.
    User(u64),
    /// A role, by its identity.
    Role(u64),
    /// A symbol of the platform's own, by its identity, and whether it moves.
    Emoji(u64, bool),
}

/// The character that stands for a digit.
pub open spec fn digit(value: nat) -> char
    recommends
        value < 10,
{
    if value == 0 {
        '0'
    } else if value == 1 {
        '1'
    } else if value == 2 {
        '2'
    } else if value == 3 {
        '3'
    } else if value == 4 {
        '4'
    } else if value == 5 {
        '5'
    } else if value == 6 {
        '6'
    } else if value == 7 {
        '7'
    } else if value == 8 {
        '8'
    } else {
        '9'
    }
}

/// A number written in decimal, without leading zeros.
pub open spec fn decimal(value: nat) -> Seq<char>
    decreases value,
{
    if value < 10 {
        seq![digit(value)]
    } else {
        decimal(value / 10).push(digit(value % 10))
    }
}

/// The text that points at something: `<#..>` for a channel, `<@..>` for a
/// user, `<@&..>` for a role, `<:_:..>` for a symbol and `<a:_:..>` for one
/// that moves, each with the identity in decimal.
pub open spec fn mention_of(target: Mentionable) -> Seq<char> {
    match target {
        Mentionable::Channel(id) => seq!['<', '#'] + decimal(id as nat) + seq!['>'],
        Mentionable::User(id) => seq!['<', '@'] + decimal(id as nat) + seq!['>'],
        Mentionable::Role(id) => seq!['<', '@', '&'] + decimal(id as nat) + seq!['>'],
        Mentionable::Emoji(id, animated) => if animated {
            seq!['<', 'a', ':', '_', ':'] + decimal(id as nat) + seq!['>']
        } else {
            seq!['<', ':', '_', ':'] + decimal(id as nat) + seq!['>']
        },
    }
}

/// The text of one digit.
fn digit_text(value: u8) -> (text: &'static str)
    requires
        value < 10,
    ensures
        text@ == seq![digit(value as nat)],
{
    proof {
        reveal_strlit("0");
        reveal_strlit("1");
        reveal_strlit("2");
        reveal_strlit("3");
        reveal_strlit("4");
        reveal_strlit("5");
        reveal_strlit("6");
        reveal_strlit("7");
        reveal_strlit("8");
        reveal_strlit("9");
    }
    let text = if value == 0 {
        "0"
    } else if value == 1 {
        "1"
    } else if value == 2 {
        "2"
    } else if value == 3 {
        "3"
    } else if value == 4 {
        "4"
    } else if value == 5 {
        "5"
    } else if value == 6 {
        "6"
    } else if value == 7 {
        "7"
    } else if value == 8 {
        "8"
    } else {
        "9"
    };
    text
}

/// The digits of a number that is not zero; none for zero.
spec fn leading(value: nat) -> Seq<char> {
    if value == 0 {
        Seq::empty()
    } else {
        decimal(value)
    }
}

/// Appends a number in decimal to a text.
fn push_decimal(text: &mut String, value: u64)
    ensures
        final(text)@ == old(text)@ + decimal(value as nat),
{
    let ghost before = text@;
    let mut digits: Vec<u8> = Vec::new();
    let mut rest: u64 = value / 10;
    digits.push((value % 10) as u8);
    while rest > 0
        invariant
            digits@.len() > 0,
            forall|i: int| 0 <= i < digits@.len() ==> digits@[i] < 10,
            decimal(value as nat) == leading(rest as nat) + Seq::new(
                digits@.len(),
                |i: int| digit(digits@[digits@.len() - 1 - i] as nat),
            ),
        decreases rest,
    {
        digits.push((rest % 10) as u8);
        rest = rest / 10;
    }
    let ghost all = Seq::new(
        digits@.len(),
        |i: int| digit(digits@[digits@.len() - 1 - i] as nat),
    );
    let mut left: usize = digits.len();
    while left > 0
        invariant
            left <= digits@.len(),
            forall|i: int| 0 <= i < digits@.len() ==> digits@[i] < 10,
            all == Seq::new(
                digits@.len(),
                |i: int| digit(digits@[digits@.len() - 1 - i] as nat),
            ),
            text@ == before + all.subrange(0, digits@.len() - left),
        decreases left,
    {
        left -= 1;
        text.append(digit_text(digits[left]));
    }
}

impl Mentionable {
    /// The text that points at this in a chat message.
    pub fn mention(&self) -> (text: String)
        ensures
            text@ == mention_of(*self),
    {
        proof {
            reveal_strlit("<#");
            reveal_strlit("<@");
            reveal_strlit("<@&");
            reveal_strlit("<a:_:");
            reveal_strlit("<:_:");
            reveal_strlit(">");
        }
        let (opening, id) = match *self {
            Mentionable::Channel(id) => ("<#", id),
            Mentionable::User(id) => ("<@", id),
            Mentionable::Role(id) => ("<@&", id),
            Mentionable::Emoji(id, animated) => if animated {
                ("<a:_:", id)
            } else {
                ("<:_:", id)
            },
        };
        let mut text = String::from_str(opening);
        push_decimal(&mut text, id);
        text.append(">");
        text
    }
}

} // verus!
