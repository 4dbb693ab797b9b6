//! What a character state shows to the engine: its reaction menu and the
//! outcome of an action.

use arrayvec::ArrayVec;
use vstd::prelude::*;

verus! {

/// One input that a state accepts: the symbol to react with, and what it does.
#[derive(Clone, Copy, Debug, PartialEq, Eq)]
pub struct StateReaction {
    /// The symbol that stands for the input, as text.
    pub emoji: &'static str,
    /// What the input does, for the player to read.
    pub description: &'static str,
}

/// The persisted form of a character state: the tagged document from which the
/// state machine is rebuilt, in this process or in another. The engine carries
/// it and never looks into it.
#[derive(Clone, Debug, PartialEq, Eq)]
pub struct State {
    /// The document, as the bytes that are stored.
    pub document: Vec<u8>,
}

/// The outcome of one action on a state. Only `Changed` asks for a new record.
#[derive(Clone, Debug, PartialEq, Eq)]
pub enum Action {
    /// The input was valid and left the state as it was.
    NoChange(State),
    /// The input led to a new state.
    Changed(State),
    /// The input is none that the state accepts.
    BadReact(State),
}

impl Action {
    /// The state that the action left, whichever the outcome.
    pub fn inner(self) -> (state: State)
        ensures
            state == self.spec_inner(),
    {
        match self {
            Action::NoChange(state) => state,
            Action::Changed(state) => state,
            Action::BadReact(state) => state,
        }
    }

    /// What [`Action::inner`] gives.
    pub open spec fn spec_inner(self) -> State {
        match self {
            Action::NoChange(state) => state,
            Action::Changed(state) => state,
            Action::BadReact(state) => state,
        }
    }
}

/// The reaction menu of a state: at most 20 reactions, in the order in which
/// they are offered.
///
/// Trusted: the menu is an `arrayvec::ArrayVec` of capacity 20, which Verus
/// does not look into. Its contents are named by [`menu`].
#[verifier::external_body]
#[derive(Debug)]
pub struct Reactions {
    items: ArrayVec<[StateReaction; 20]>,
}

/// The reactions that a menu holds, first to last.
pub uninterp spec fn menu(reactions: Reactions) -> Seq<StateReaction>;

/// The most reactions that a menu can hold.
pub const MENU_CAPACITY: usize = 20;

impl View for Reactions {
    type V = Seq<StateReaction>;

    open spec fn view(&self) -> Seq<StateReaction> {
        menu(*self)
    }
}

impl Reactions {
    /// Trusted: `ArrayVec::new` gives a vector without elements.
    #[verifier::external_body]
    fn empty() -> (reactions: Reactions)
        ensures
            menu(reactions) == Seq::<StateReaction>::empty(),
    {
        Reactions { items: ArrayVec::new() }
    }

    /// Trusted: `ArrayVec::try_push` appends the element while fewer than 20
    /// are held, and otherwise leaves the vector as it is and hands the
    /// element back inside its error.
    #[verifier::external_body]
    fn try_push(&mut self, reaction: StateReaction) -> (pushed: Result<(), StateReaction>)
        ensures
            pushed is Ok <==> menu(*old(self)).len() < MENU_CAPACITY,
            pushed is Ok ==> menu(*final(self)) == menu(*old(self)).push(reaction),
            pushed matches Err(back) ==> back == reaction && menu(*final(self)) == menu(*old(self)),
    {
        self.items.try_push(reaction).map_err(|full| full.element())
    }

    /// Trusted: `ArrayVec::as_slice` gives the elements held, in order; there
    /// are never more than the capacity.
    #[verifier::external_body]
    fn as_slice(&self) -> (items: &[StateReaction])
        ensures
            items@ == menu(*self),
            items@.len() <= MENU_CAPACITY,
    {
        self.items.as_slice()
    }

    /// A menu of the given reactions, in their order; `None` if they are more
    /// than a menu holds.
    pub fn from_slice(items: &[StateReaction]) -> (made: Option<Reactions>)
        ensures
            items@.len() <= MENU_CAPACITY ==> made is Some && menu(made.unwrap()) == items@,
            items@.len() > MENU_CAPACITY ==> made is None,
    {
        let mut reactions = Reactions::empty();
        let mut i: usize = 0;
        while i < items.len()
            invariant
                i <= items@.len(),
                i <= MENU_CAPACITY,
                menu(reactions) == items@.subrange(0, i as int),
            decreases items@.len() - i,
        {
            match reactions.try_push(items[i]) {
                Ok(()) => {},
                Err(_) => {
                    return None;
                },
            }
            i += 1;
        }
        Some(reactions)
    }

    /// The number of reactions held: never more than [`MENU_CAPACITY`].
    pub fn len(&self) -> (count: usize)
        ensures
            count == menu(*self).len(),
            count <= MENU_CAPACITY,
    {
        self.as_slice().len()
    }

    /// The reactions held, first to last.
    pub fn to_vec(&self) -> (items: Vec<StateReaction>)
        ensures
            items@ == menu(*self),
    {
        let held = self.as_slice();
        let mut items: Vec<StateReaction> = Vec::new();
        let mut i: usize = 0;
        while i < held.len()
            invariant
                i <= held@.len(),
                items@ == held@.subrange(0, i as int),
            decreases held@.len() - i,
        {
            items.push(held[i]);
            i += 1;
        }
        items
    }
}

/// The symbols of a menu, in the menu's order.
pub open spec fn symbols(reactions: Seq<StateReaction>) -> Seq<&'static str> {
    reactions.map_values(|reaction: StateReaction| reaction.emoji)
}

/// The markers that stand for a menu on a chat message: one per reaction, in
/// the menu's order. They are what is removed when the menu is withdrawn and
/// what is added, first to last, when it is shown.
pub fn markers(reactions: &Reactions) -> (marks: Vec<&'static str>)
    ensures
        marks@ == symbols(menu(*reactions)),
{
    let held = reactions.as_slice();
    let mut marks: Vec<&'static str> = Vec::new();
    let mut i: usize = 0;
    while i < held.len()
        invariant
            i <= held@.len(),
            held@ == menu(*reactions),
            marks@.len() == i,
            forall|j: int| 0 <= j < i ==> marks@[j] == held@[j].emoji,
        decreases held@.len() - i,
    {
        marks.push(held[i].emoji);
        i += 1;
    }
    marks
}

/// One titled entry of a rendered state.
#[derive(Clone, Copy, Debug, PartialEq, Eq)]
pub struct Field {
    /// The title of the entry.
    pub name: &'static str,
    /// Its text.
    pub value: &'static str,
    /// Whether it may stand beside its neighbours.
    pub inline: bool,
}

/// The rendered form of a state, as far as the engine writes into it.
#[derive(Clone, Debug, PartialEq, Eq)]
pub struct CreateEmbed {
    /// The entries, in the order in which they are shown.
    pub fields: Vec<Field>,
}

/// The entry that explains a reaction: the symbol as its title, the
/// description as its text, set beside its neighbours.
pub open spec fn legend(reaction: StateReaction) -> Field {
    Field { name: reaction.emoji, value: reaction.description, inline: true }
}

/// Explains a menu in a rendered state: appends one entry per reaction, in
/// the menu's order.
pub fn add_reactions(embed: &mut CreateEmbed, reactions: &Reactions)
    ensures
        final(embed).fields@ == old(embed).fields@ + menu(*reactions).map_values(
            |reaction: StateReaction| legend(reaction),
        ),
{
    let held = reactions.as_slice();
    let ghost before = embed.fields@;
    let mut i: usize = 0;
    while i < held.len()
        invariant
            i <= held@.len(),
            held@ == menu(*reactions),
            embed.fields@.len() == before.len() + i,
            forall|j: int| 0 <= j < before.len() ==> embed.fields@[j] == before[j],
            forall|j: int| 0 <= j < i ==> embed.fields@[before.len() + j] == legend(held@[j]),
        decreases held@.len() - i,
    {
        let reaction = held[i];
        embed.fields.push(Field { name: reaction.emoji, value: reaction.description, inline: true });
        i += 1;
    }
}

} // verus!
