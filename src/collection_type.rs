use vstd::prelude::*;

verus! {

/// The game whose data files a collection holds.
#[derive(Clone, Copy, Debug, PartialEq, Eq, Structural)]
pub enum CollectionType {
    Oblivion,
    Fallout3,
    FalloutNewVegas,
    Skyrim,
    Unknown,
}

/// The integer by which the native library names each game.
pub open spec fn game_code(t: CollectionType) -> i32 {
    match t {
        CollectionType::Oblivion => 0,
        CollectionType::Fallout3 => 1,
        CollectionType::FalloutNewVegas => 2,
        CollectionType::Skyrim => 3,
        CollectionType::Unknown => 4,
    }
}

/// The game that `code` names, if any.
pub open spec fn game_of_code(code: i32) -> Option<CollectionType> {
    if code == 0 {
        Some(CollectionType::Oblivion)
    } else if code == 1 {
        Some(CollectionType::Fallout3)
    } else if code == 2 {
        Some(CollectionType::FalloutNewVegas)
    } else if code == 3 {
        Some(CollectionType::Skyrim)
    } else if code == 4 {
        Some(CollectionType::Unknown)
    } else {
        None
    }
}

impl CollectionType {
    /// The code handed to the native library for this game.
    pub fn to_raw(self) -> (r: i32)
        ensures
            r == game_code(self),
    {
        match self {
            CollectionType::Oblivion => 0,
            CollectionType::Fallout3 => 1,
            CollectionType::FalloutNewVegas => 2,
            CollectionType::Skyrim => 3,
            CollectionType::Unknown => 4,
        }
    }

    /// The game that the native library's `code` names, or `None` where the
    /// code names none.
    pub fn from_raw(code: i32) -> (r: Option<CollectionType>)
        ensures
            r == game_of_code(code),
    {
        if code == 0 {
            Some(CollectionType::Oblivion)
        } else if code == 1 {
            Some(CollectionType::Fallout3)
        } else if code == 2 {
            Some(CollectionType::FalloutNewVegas)
        } else if code == 3 {
            Some(CollectionType::Skyrim)
        } else if code == 4 {
            Some(CollectionType::Unknown)
        } else {
            None
        }
    }
}

/// Reading back the code of a game gives that game.
pub proof fn lemma_game_code_round_trip(t: CollectionType)
    ensures
        game_of_code(game_code(t)) == Some(t),
{
}

/// A code that names a game is that game's code, and exactly the codes from
/// zero to four name one.
pub proof fn lemma_game_of_code_exact(code: i32)
    ensures
        game_of_code(code).is_some() <==> 0 <= code <= 4,
        game_of_code(code) matches Some(t) ==> game_code(t) == code,
{
}

} // verus!
