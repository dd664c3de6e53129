//! The keypad of the terminal: its symbols, their numeric value and their
//! canonical text.

use vstd::prelude::*;
use vstd::std_specs::convert::FromSpecImpl;

verus! {

/// The keys on the keypad: four digit keys and the confirm key.
#[derive(Hash, Debug, PartialEq, Eq, Clone, Copy)]
pub enum Key {
    One,
    Two,
    Three,
    Four,
    Enter,
}

impl Key {
    /// The decimal digit that a key stands for.  The confirm key shares the
    /// digit zero, as it does in the canonical text.
    pub open spec fn spec_digit(self) -> u8 {
        match self {
            Key::One => 1,
            Key::Two => 2,
            Key::Three => 3,
            Key::Four => 4,
            Key::Enter => 0,
        }
    }

    /// The decimal digit that a key stands for.
    #[verifier::when_used_as_spec(spec_digit)]
    pub fn digit(self) -> (d: u8)
        ensures
            d == self.spec_digit(),
    {
        match self {
            Key::One => 1,
            Key::Two => 2,
            Key::Three => 3,
            Key::Four => 4,
            Key::Enter => 0,
        }
    }

    /// The character that a key is shown as: its digit.  The confirm key is
    /// shown as `0`, so the text of a key does not tell which key it was.
    pub open spec fn spec_char(self) -> char {
        match self {
            Key::One => '1',
            Key::Two => '2',
            Key::Three => '3',
            Key::Four => '4',
            Key::Enter => '0',
        }
    }

    /// The canonical text of a key: the one character of `spec_char`.
    pub open spec fn spec_str(self) -> &'static str {
        match self {
            Key::One => "1",
            Key::Two => "2",
            Key::Three => "3",
            Key::Four => "4",
            Key::Enter => "0",
        }
    }

    /// The canonical text of a key, as a static string.
    #[verifier::when_used_as_spec(spec_str)]
    pub fn as_str(self) -> (text: &'static str)
        ensures
            text == self.spec_str(),
            text@ == seq![self.spec_char()],
    {
        proof {
            reveal_strlit("1");
            reveal_strlit("2");
            reveal_strlit("3");
            reveal_strlit("4");
            reveal_strlit("0");
        }
        let text = match self {
            Key::One => "1",
            Key::Two => "2",
            Key::Three => "3",
            Key::Four => "4",
            Key::Enter => "0",
        };
        assert(text@ =~= seq![self.spec_char()]);
        text
    }

    /// The canonical text of a key, for display.
    pub fn to_string(&self) -> (text: String)
        ensures
            text@ == seq![self.spec_char()],
    {
        self.as_str().to_owned()
    }
}

impl From<Key> for &'static str {
    /// The canonical text of a key.
    fn from(value: Key) -> (text: &'static str)
        ensures
            text@ == seq![value.spec_char()],
    {
        value.as_str()
    }
}

impl FromSpecImpl<Key> for &'static str {
    open spec fn obeys_from_spec() -> bool {
        true
    }

    open spec fn from_spec(value: Key) -> &'static str {
        value.spec_str()
    }
}

/// Hands back the key that `k` refers to.
pub fn return_a_key(k: &Key) -> (r: Key)
    ensures
        r == *k,
{
    match k {
        Key::One => Key::One,
        Key::Two => Key::Two,
        Key::Three => Key::Three,
        Key::Four => Key::Four,
        Key::Enter => Key::Enter,
    }
}

} // verus!
