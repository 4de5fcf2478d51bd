//! Validated names and descriptions of commands, options and choices.
use vstd::prelude::*;
use vstd::string::*;

use crate::chars::{
    alphanumeric, char_is_alphanumeric, char_to_lowercase, lowercase_of, trim_str, trimmed,
};
use crate::error::DeriveError;

verus! {

/// A character allowed in a name: alphanumeric, `-` or `_`.
pub open spec fn is_name_char(c: char) -> bool {
    alphanumeric(c) || c == '-' || c == '_'
}

/// A character that its lowercase mapping leaves as it is.
pub open spec fn is_lowercase_char(c: char) -> bool {
    lowercase_of(c) == seq![c]
}

/// A valid command or option name.
pub open spec fn valid_name(s: Seq<char>) -> bool {
    &&& 1 <= s.len() <= 32
    &&& forall|i: int| 0 <= i < s.len() ==> is_name_char(#[trigger] s[i]) && is_lowercase_char(s[i])
}

/// A valid command or option description.
pub open spec fn valid_description(s: Seq<char>) -> bool {
    1 <= s.len() <= 100
}

/// The first character rule that `s` breaks at position `i` or later.
pub open spec fn name_chars_error(s: Seq<char>, i: nat) -> Option<DeriveError>
    decreases s.len() - i,
{
    if i >= s.len() {
        None
    } else if !is_name_char(s[i as int]) {
        Some(DeriveError::NameInvalidCharacter(s[i as int]))
    } else if !is_lowercase_char(s[i as int]) {
        Some(DeriveError::NameNotLowercase(s[i as int]))
    } else {
        name_chars_error(s, i + 1)
    }
}

/// The outcome of validating an already trimmed name.
pub open spec fn name_check(s: Seq<char>) -> Result<Seq<char>, DeriveError> {
    if !(1 <= s.len() <= 32) {
        Err(DeriveError::NameLength)
    } else {
        match name_chars_error(s, 0) {
            Some(e) => Err(e),
            None => Ok(s),
        }
    }
}

proof fn lemma_name_chars_error(s: Seq<char>, i: nat)
    requires
        i <= s.len(),
    ensures
        name_chars_error(s, i) is None <==> forall|j: int|
            i <= j < s.len() ==> is_name_char(#[trigger] s[j]) && is_lowercase_char(s[j]),
    decreases s.len() - i,
{
    if i < s.len() {
        lemma_name_chars_error(s, i + 1);
    }
}

/// Name validation accepts exactly the valid names.
pub proof fn lemma_name_check_valid(s: Seq<char>)
    ensures
        name_check(s) is Ok <==> valid_name(s),
        name_check(s) is Ok ==> name_check(s) == Ok::<Seq<char>, DeriveError>(s),
{
    lemma_name_chars_error(s, 0);
}

fn first_name_char_error(value: &str) -> (r: Option<DeriveError>)
    ensures
        r == name_chars_error(value@, 0),
{
    let n = value.unicode_len();
    let mut i: usize = 0;
    while i < n
        invariant
            n == value@.len(),
            i <= n,
            name_chars_error(value@, 0) == name_chars_error(value@, i as nat),
        decreases n - i,
    {
        let c = value.get_char(i);
        if !(char_is_alphanumeric(c) || c == '-' || c == '_') {
            return Some(DeriveError::NameInvalidCharacter(c));
        }
        let lower = char_to_lowercase(c);
        let lower_str = lower.as_str();
        let unchanged = lower_str.unicode_len() == 1 && lower_str.get_char(0) == c;
        assert(unchanged == (lower@ == seq![c])) by {
            if unchanged {
                assert(lower@ =~= seq![c]);
            }
        }
        if !unchanged {
            return Some(DeriveError::NameNotLowercase(c));
        }
        i += 1;
    }
    None
}

/// Slash command or command option name.
///
/// Between 1 and 32 characters, each alphanumeric, `-` or `_`, and each
/// already in lowercase.
#[derive(Debug, Clone, PartialEq, Eq)]
pub struct CommandName {
    value: String,
}

impl View for CommandName {
    type V = Seq<char>;

    closed spec fn view(&self) -> Seq<char> {
        self.value@
    }
}

impl CommandName {
    /// Validate a name; surrounding white space is removed first. Uppercase
    /// letters are refused, not folded.
    pub fn parse(input: &str) -> (r: Result<CommandName, DeriveError>)
        ensures
            r is Ok <==> valid_name(trimmed(input@)),
            match r {
                Ok(name) => name@ == trimmed(input@) && name_check(trimmed(input@)) == Ok::<
                    Seq<char>,
                    DeriveError,
                >(name@),
                Err(e) => name_check(trimmed(input@)) == Err::<Seq<char>, DeriveError>(e),
            },
    {
        let value = trim_str(input);
        proof {
            lemma_name_check_valid(value@);
        }
        let count = value.unicode_len();
        if count < 1 || count > 32 {
            return Err(DeriveError::NameLength);
        }
        match first_name_char_error(value) {
            Some(e) => Err(e),
            None => Ok(CommandName { value: value.to_owned() }),
        }
    }

    pub fn as_str(&self) -> (r: &str)
        ensures
            r@ == self@,
    {
        self.value.as_str()
    }

    pub fn into_string(self) -> (r: String)
        ensures
            r@ == self@,
    {
        self.value
    }
}

/// Slash command or command option description, between 1 and 100
/// characters.
#[derive(Debug, Clone, PartialEq, Eq)]
pub struct CommandDescription {
    value: String,
}

impl View for CommandDescription {
    type V = Seq<char>;

    closed spec fn view(&self) -> Seq<char> {
        self.value@
    }
}

impl CommandDescription {
    /// Validate a description; surrounding white space is removed first.
    pub fn parse(input: &str) -> (r: Result<CommandDescription, DeriveError>)
        ensures
            r is Ok <==> valid_description(trimmed(input@)),
            match r {
                Ok(desc) => desc@ == trimmed(input@),
                Err(e) => e == DeriveError::DescriptionLength,
            },
    {
        let value = trim_str(input);
        let count = value.unicode_len();
        if count < 1 || count > 100 {
            return Err(DeriveError::DescriptionLength);
        }
        Ok(CommandDescription { value: value.to_owned() })
    }

    pub fn as_str(&self) -> (r: &str)
        ensures
            r@ == self@,
    {
        self.value.as_str()
    }

    pub fn into_string(self) -> (r: String)
        ensures
            r@ == self@,
    {
        self.value
    }
}

/// Slash command choice name, between 1 and 100 characters.
#[derive(Debug, Clone, PartialEq, Eq)]
pub struct ChoiceName {
    value: String,
}

impl View for ChoiceName {
    type V = Seq<char>;

    closed spec fn view(&self) -> Seq<char> {
        self.value@
    }
}

impl ChoiceName {
    /// Validate a choice name; surrounding white space is removed first.
    pub fn parse(input: &str) -> (r: Result<ChoiceName, DeriveError>)
        ensures
            r is Ok <==> 1 <= trimmed(input@).len() <= 100,
            match r {
                Ok(name) => name@ == trimmed(input@),
                Err(e) => e == DeriveError::ChoiceNameLength,
            },
    {
        let value = trim_str(input);
        let count = value.unicode_len();
        if count < 1 || count > 100 {
            return Err(DeriveError::ChoiceNameLength);
        }
        Ok(ChoiceName { value: value.to_owned() })
    }

    pub fn as_str(&self) -> (r: &str)
        ensures
            r@ == self@,
    {
        self.value.as_str()
    }

    pub fn into_string(self) -> (r: String)
        ensures
            r@ == self@,
    {
        self.value
    }
}

/// A string attribute whose length in characters lies between `MIN` and
/// `MAX`, taken as written.
#[derive(Debug, Clone, PartialEq, Eq)]
pub struct LengthValidatedString<const MIN: usize, const MAX: usize> {
    value: String,
}

impl<const MIN: usize, const MAX: usize> View for LengthValidatedString<MIN, MAX> {
    type V = Seq<char>;

    closed spec fn view(&self) -> Seq<char> {
        self.value@
    }
}

impl<const MIN: usize, const MAX: usize> LengthValidatedString<MIN, MAX> {
    pub fn parse(input: &str) -> (r: Result<Self, DeriveError>)
        ensures
            r is Ok <==> MIN <= input@.len() <= MAX,
            match r {
                Ok(s) => s@ == input@,
                Err(e) => e == (DeriveError::StringLength { min: MIN, max: MAX }),
            },
    {
        let count = input.unicode_len();
        if count < MIN || count > MAX {
            return Err(DeriveError::StringLength { min: MIN, max: MAX });
        }
        Ok(LengthValidatedString { value: input.to_owned() })
    }

    pub fn as_str(&self) -> (r: &str)
        ensures
            r@ == self@,
    {
        self.value.as_str()
    }

    pub fn into_string(self) -> (r: String)
        ensures
            r@ == self@,
    {
        self.value
    }
}

} // verus!
