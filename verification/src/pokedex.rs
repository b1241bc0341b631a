//! The shell's state machine: the display transitions wholesale between
//! "loading" and "showing one record", and a new fetch starts only from the
//! loaded state. The shell performs the action the transition asks for
//! (starting a fetch) and hands the outcome back as the next message.

use crate::pokemon::{Error, Pokemon};
use vstd::prelude::*;

verus! {

/// The display state: still waiting for a record, or showing one. There is
/// no partially updated record; a fetch replaces the whole state at once.
#[derive(Debug)]
pub enum Pokedex {
    Loading,
    Loaded { pokemon: Pokemon },
}

/// An event the shell hands the state machine: a finished fetch with its
/// outcome, or the user asking for another creature.
#[derive(Debug)]
pub enum Message {
    PokemonFound(Result<Pokemon, Error>),
    Search,
}

/// What the shell is asked to do after a transition: nothing, or start one
/// new fetch. While a fetch is outstanding the state is `Loading`, and
/// `Search` is ignored there, so no second fetch can be issued.
#[derive(Debug, Clone, Copy, PartialEq, Eq, Structural)]
pub enum Action {
    Idle,
    StartFetch,
}

impl Pokedex {
    /// The initial state: loading, with one fetch to start.
    pub fn new() -> (r: (Pokedex, Action))
        ensures
            r.0 is Loading,
            r.1 is StartFetch,
    {
        (Pokedex::Loading, Action::StartFetch)
    }

    /// One transition of the display: a successful fetch replaces the
    /// whole state with the new record, a failed fetch changes nothing,
    /// and a search request starts a new fetch unless one is already
    /// outstanding.
    pub fn update(&mut self, message: Message) -> (a: Action)
        ensures
            message matches Message::PokemonFound(Ok(p)) ==> (*final(self) matches Pokedex::Loaded {
                pokemon,
            } && pokemon == p) && a is Idle,
            message matches Message::PokemonFound(Err(_)) ==> *final(self) == *old(self) && a
                is Idle,
            message is Search && *old(self) is Loading ==> *final(self) == *old(self) && a is Idle,
            message is Search && !(*old(self) is Loading) ==> *final(self) is Loading && a
                is StartFetch,
    {
        match message {
            Message::PokemonFound(Ok(pokemon)) => {
                *self = Pokedex::Loaded { pokemon };
                Action::Idle
            },
            Message::PokemonFound(Err(_)) => Action::Idle,
            Message::Search => match self {
                Pokedex::Loading => Action::Idle,
                _ => {
                    *self = Pokedex::Loading;
                    Action::StartFetch
                },
            },
        }
    }
}

} // verus!
