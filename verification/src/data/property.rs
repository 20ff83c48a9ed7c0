//! The host's properties: the paths that name them, and the errors of
//! reading and writing them.

use vstd::prelude::*;
use vstd::string::StringExecFns;

verus! {

/// What went wrong with a property, in words.
#[derive(Debug)]
pub struct PropError {
    message: String,
}

impl View for PropError {
    type V = Seq<char>;

    /// The message.
    closed spec fn view(&self) -> Seq<char> {
        self.message@
    }
}

impl PropError {
    pub fn new(message: String) -> (error: PropError)
        ensures
            error@ == message@,
    {
        PropError { message }
    }

    pub fn message(&self) -> (message: &str)
        ensures
            message@ == self@,
    {
        self.message.as_str()
    }
}

/// Why an attribute could not be had.
#[derive(Debug)]
pub enum PropertyError {
    /// The host could not read or write the property.
    Get(PropError),
    /// The property was read, but its bytes are no value of the type asked for.
    Parse(PropError),
}

/// The status with which the host answers a call that it could not serve.
#[derive(Clone, Copy, Debug, PartialEq, Eq, Structural)]
pub enum Status {
    NotFound,
    BadArgument,
    SerializationFailure,
    ParseFailure,
    Empty,
    CasMismatch,
    InternalFailure,
    /// A status that this library has no name for.
    Unknown,
}

impl Status {
    /// The status in words.
    pub open spec fn spec_name(&self) -> Seq<char> {
        match self {
            Status::NotFound => "NotFound"@,
            Status::BadArgument => "BadArgument"@,
            Status::SerializationFailure => "SerializationFailure"@,
            Status::ParseFailure => "ParseFailure"@,
            Status::Empty => "Empty"@,
            Status::CasMismatch => "CasMismatch"@,
            Status::InternalFailure => "InternalFailure"@,
            Status::Unknown => "Unknown"@,
        }
    }

    /// The status in words.
    pub fn name(&self) -> (name: &'static str)
        ensures
            name@ == self.spec_name(),
    {
        match self {
            Status::NotFound => "NotFound",
            Status::BadArgument => "BadArgument",
            Status::SerializationFailure => "SerializationFailure",
            Status::ParseFailure => "ParseFailure",
            Status::Empty => "Empty",
            Status::CasMismatch => "CasMismatch",
            Status::InternalFailure => "InternalFailure",
            Status::Unknown => "Unknown",
        }
    }
}

/// The tokens of a path written as text, read from position `from` on:
/// `current` holds the token being read and `done` those read before it. A
/// `.` ends a token; a `\` takes the character after it into the token as
/// it is, so that `\.` stands for a dot within a token; a `\` at the very
/// end stands for nothing.
pub open spec fn tokens_from(
    text: Seq<char>,
    from: int,
    current: Seq<char>,
    done: Seq<Seq<char>>,
) -> Seq<Seq<char>>
    decreases text.len() - from,
{
    if from < 0 || from >= text.len() {
        done.push(current)
    } else if text[from] == '.' {
        tokens_from(text, from + 1, Seq::empty(), done.push(current))
    } else if text[from] == '\\' {
        if from + 1 < text.len() {
            tokens_from(text, from + 2, current.push(text[from + 1]), done)
        } else {
            tokens_from(text, from + 1, current, done)
        }
    } else {
        tokens_from(text, from + 1, current.push(text[from]), done)
    }
}

/// The tokens of a path written as text.
pub open spec fn tokens_of(text: Seq<char>) -> Seq<Seq<char>> {
    tokens_from(text, 0, Seq::empty(), Seq::empty())
}

/// The name of a property: a list of tokens.
#[derive(Debug)]
pub struct Path {
    tokens: Vec<String>,
}

impl View for Path {
    type V = Seq<Seq<char>>;

    /// The tokens.
    closed spec fn view(&self) -> Seq<Seq<char>> {
        self.tokens.deep_view()
    }
}

impl Path {
    /// The path of the given tokens.
    pub fn new(tokens: Vec<String>) -> (path: Self)
        ensures
            path@ == tokens.deep_view(),
    {
        Path { tokens }
    }

    /// The tokens of the path.
    pub fn tokens(&self) -> (tokens: Vec<&str>)
        ensures
            tokens.deep_view() == self@,
    {
        let mut tokens: Vec<&str> = Vec::new();
        let mut i: usize = 0;
        while i < self.tokens.len()
            invariant
                i <= self.tokens.len(),
                tokens.len() == i,
                forall|j: int| 0 <= j < i ==> (#[trigger] tokens[j])@ == self.tokens[j]@,
            decreases self.tokens.len() - i,
        {
            tokens.push(self.tokens[i].as_str());
            i += 1;
        }
        assert(tokens.deep_view() =~= self.tokens.deep_view());
        tokens
    }

    /// The path that `text` names: its tokens are separated by `.`, and a
    /// `\` before a character takes that character into the token.
    pub fn parse(text: &str) -> (path: Self)
        ensures
            path@ == tokens_of(text@),
    {
        let mut token = String::new();
        let mut tokens: Vec<String> = Vec::new();
        let n = text.unicode_len();
        let mut i: usize = 0;
        assert(tokens.deep_view() =~= Seq::<Seq<char>>::empty());
        while i < n
            invariant
                i <= n,
                n == text@.len(),
                tokens_from(text@, i as int, token@, tokens.deep_view()) == tokens_of(text@),
            decreases n - i,
        {
            let ghost done = tokens.deep_view();
            let ch = text.get_char(i);
            if ch == '.' {
                let ghost ended = token@;
                tokens.push(token);
                token = String::new();
                i += 1;
                assert(tokens.deep_view() =~= done.push(ended));
            } else if ch == '\\' {
                if i + 1 < n {
                    let ghost before = token@;
                    token.append(text.substring_char(i + 1, i + 2));
                    assert(token@ =~= before.push(text@[i + 1]));
                    i += 2;
                } else {
                    i += 1;
                }
            } else {
                let ghost before = token@;
                token.append(text.substring_char(i, i + 1));
                assert(token@ =~= before.push(text@[i as int]));
                i += 1;
            }
        }
        let ghost done = tokens.deep_view();
        let ghost last = token@;
        tokens.push(token);
        assert(tokens.deep_view() =~= done.push(last));
        Path { tokens }
    }
}

} // verus!
