//! `Colour`, the closed set of palette tokens.
//!
//! A token is stored and sent by its name, never as a hex value, so the palette
//! can be retuned without rewriting a row. The check happens once, at the
//! boundary, so an unrenderable token cannot reach the store.

use vstd::prelude::*;

use crate::error::{ClipError, ErrorView, InvalidReason, invalid_view};
use crate::text::same_text;

verus! {

/// A palette token.
#[derive(Debug, Clone, Copy, PartialEq, Eq, Hash, Structural)]
pub enum Colour {
    Red,
    Amber,
    Lime,
    Green,
    Teal,
    Blue,
    Violet,
    Pink,
    Slate,
}

/// Every token, in the order of the palette table.
pub const COLOUR_TOKENS: [Colour; 9] = [
    Colour::Red,
    Colour::Amber,
    Colour::Lime,
    Colour::Green,
    Colour::Teal,
    Colour::Blue,
    Colour::Violet,
    Colour::Pink,
    Colour::Slate,
];

/// The wire name of each token.
pub open spec fn token_name(c: Colour) -> Seq<char> {
    match c {
        Colour::Red => "red"@,
        Colour::Amber => "amber"@,
        Colour::Lime => "lime"@,
        Colour::Green => "green"@,
        Colour::Teal => "teal"@,
        Colour::Blue => "blue"@,
        Colour::Violet => "violet"@,
        Colour::Pink => "pink"@,
        Colour::Slate => "slate"@,
    }
}

/// The token whose wire name is exactly `s`, if any.
pub open spec fn token_named(s: Seq<char>) -> Option<Colour> {
    if s == "red"@ {
        Some(Colour::Red)
    } else if s == "amber"@ {
        Some(Colour::Amber)
    } else if s == "lime"@ {
        Some(Colour::Lime)
    } else if s == "green"@ {
        Some(Colour::Green)
    } else if s == "teal"@ {
        Some(Colour::Teal)
    } else if s == "blue"@ {
        Some(Colour::Blue)
    } else if s == "violet"@ {
        Some(Colour::Violet)
    } else if s == "pink"@ {
        Some(Colour::Pink)
    } else if s == "slate"@ {
        Some(Colour::Slate)
    } else {
        None
    }
}

/// The error a token from the wire that is not in the palette produces.
pub open spec fn not_a_palette_token() -> ErrorView {
    invalid_view("colour"@, InvalidReason::NotAPaletteToken)
}

impl Colour {
    /// The token a clip gets when none was chosen. `slate` carries no category
    /// meaning. Not a fallback for an absent `colour` argument.
    pub const DEFAULT: Colour = Colour::Slate;

    /// The wire name. The inverse of [`Colour::parse_token`].
    pub fn as_str(self) -> (r: &'static str)
        ensures
            r@ == token_name(self),
    {
        match self {
            Colour::Red => "red",
            Colour::Amber => "amber",
            Colour::Lime => "lime",
            Colour::Green => "green",
            Colour::Teal => "teal",
            Colour::Blue => "blue",
            Colour::Violet => "violet",
            Colour::Pink => "pink",
            Colour::Slate => "slate",
        }
    }

    /// Resolve a token name, or `None` if it is not in the palette. Exact match
    /// only: no trimming and no case folding.
    pub fn parse_token(token: &str) -> (r: Option<Colour>)
        ensures
            r == token_named(token@),
    {
        if same_text(token, "red") {
            Some(Colour::Red)
        } else if same_text(token, "amber") {
            Some(Colour::Amber)
        } else if same_text(token, "lime") {
            Some(Colour::Lime)
        } else if same_text(token, "green") {
            Some(Colour::Green)
        } else if same_text(token, "teal") {
            Some(Colour::Teal)
        } else if same_text(token, "blue") {
            Some(Colour::Blue)
        } else if same_text(token, "violet") {
            Some(Colour::Violet)
        } else if same_text(token, "pink") {
            Some(Colour::Pink)
        } else if same_text(token, "slate") {
            Some(Colour::Slate)
        } else {
            None
        }
    }

    /// Resolve a token arriving over IPC. An unknown token is
    /// `invalid_input { field: "colour", reason: "not_a_palette_token" }`; the
    /// rejected token is never carried in the error.
    pub fn from_wire(token: &str) -> (r: Result<Colour, ClipError>)
        ensures
            match token_named(token@) {
                Some(c) => r == Ok::<Colour, ClipError>(c),
                None => r matches Err(e) && e@ == not_a_palette_token(),
            },
    {
        match Colour::parse_token(token) {
            Some(colour) => Ok(colour),
            None => Err(ClipError::InvalidInput {
                field: "colour".to_owned(),
                reason: InvalidReason::NotAPaletteToken,
            }),
        }
    }

    /// Resolve a token read back out of the store. A stored value that is not a
    /// token is `storage`.
    pub fn from_stored(token: &str) -> (r: Result<Colour, ClipError>)
        ensures
            match token_named(token@) {
                Some(c) => r == Ok::<Colour, ClipError>(c),
                None => r matches Err(e) && e@ == ErrorView::Storage,
            },
    {
        match Colour::parse_token(token) {
            Some(colour) => Ok(colour),
            None => Err(ClipError::Storage),
        }
    }
}

impl Default for Colour {
    /// The default token, `slate`.
    fn default() -> (r: Colour)
        ensures
            r == Colour::Slate,
    {
        Colour::DEFAULT
    }
}

/// Every token's wire name resolves back to that token, and no two tokens share
/// a wire name.
pub proof fn lemma_token_names_round_trip(c: Colour)
    ensures
        token_named(token_name(c)) == Some(c),
{
    reveal_strlit("red");
    reveal_strlit("amber");
    reveal_strlit("lime");
    reveal_strlit("green");
    reveal_strlit("teal");
    reveal_strlit("blue");
    reveal_strlit("violet");
    reveal_strlit("pink");
    reveal_strlit("slate");
    // Every name starts with a different letter, so no two names are equal.
    assert("red"@[0] == 'r');
    assert("amber"@[0] == 'a');
    assert("lime"@[0] == 'l');
    assert("green"@[0] == 'g');
    assert("teal"@[0] == 't');
    assert("blue"@[0] == 'b');
    assert("violet"@[0] == 'v');
    assert("pink"@[0] == 'p');
    assert("slate"@[0] == 's');
}

/// Two distinct tokens never share a wire name.
pub proof fn lemma_token_names_distinct(a: Colour, b: Colour)
    requires
        a != b,
    ensures
        token_name(a) != token_name(b),
{
    lemma_token_names_round_trip(a);
    lemma_token_names_round_trip(b);
}

} // verus!
