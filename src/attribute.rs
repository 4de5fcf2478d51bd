//! Attribute entries of a declaration: `key = literal` pairs checked against
//! the keys that a context allows, and readers for their typed values.
use vstd::prelude::*;
use vstd::string::*;

use crate::chars::{str_eq, trimmed};
use crate::naming::{name_check, valid_description, CommandDescription, CommandName};
use crate::error::{DeriveError, LiteralKind};

verus! {

/// A literal attribute value as written in a declaration.
#[derive(Debug, Clone, PartialEq, Eq)]
pub enum AttrValue {
    Str(String),
    Int(i64),
    Bool(bool),
    /// A floating-point literal, kept as its source text.
    Float(String),
    /// Any other kind of literal.
    Other,
}

/// The value of the first entry whose key is `key`.
pub open spec fn attr_lookup(entries: Seq<(String, AttrValue)>, key: Seq<char>) -> Option<AttrValue>
    decreases entries.len(),
{
    if entries.len() == 0 {
        None
    } else if entries[0].0@ == key {
        Some(entries[0].1)
    } else {
        attr_lookup(entries.drop_first(), key)
    }
}

/// Whether `key` is one of `valid`.
pub open spec fn key_allowed(valid: Seq<&str>, key: Seq<char>) -> bool {
    exists|i: int| 0 <= i < valid.len() && (#[trigger] valid[i])@ == key
}

/// Whether every entry's key is one of `valid`.
pub open spec fn all_keys_allowed(entries: Seq<(String, AttrValue)>, valid: Seq<&str>) -> bool {
    forall|i: int| 0 <= i < entries.len() ==> key_allowed(valid, (#[trigger] entries[i]).0@)
}

/// Whether `e` reports the first entry whose key is not one of `valid`,
/// together with the allowed keys.
pub open spec fn invalid_argument_error(entries: Seq<(String, AttrValue)>, valid: Seq<&str>, e: DeriveError) -> bool {
    match e {
        DeriveError::InvalidArgumentName { found, expected } => exists|i: int|
            0 <= i < entries.len() && found@ == (#[trigger] entries[i]).0@
            && !key_allowed(valid, found@)
            && (forall|j: int| 0 <= j < i ==> key_allowed(valid, (#[trigger] entries[j]).0@))
            && expected@.len() == valid.len()
            && (forall|j: int| 0 <= j < valid.len() ==> (#[trigger] expected@[j])@ == valid[j]@),
        _ => false,
    }
}

/// Parsed list of `key = literal` attribute entries, in declaration order.
#[derive(Debug)]
pub struct NamedAttrs {
    values: Vec<(String, AttrValue)>,
}

impl View for NamedAttrs {
    type V = Seq<(String, AttrValue)>;

    closed spec fn view(&self) -> Seq<(String, AttrValue)> {
        self.values@
    }
}

fn key_index(valid: &[&str], key: &str) -> (r: bool)
    ensures
        r == key_allowed(valid@, key@),
{
    let mut i: usize = 0;
    while i < valid.len()
        invariant
            i <= valid@.len(),
            forall|j: int| 0 <= j < i ==> (#[trigger] valid@[j])@ != key@,
        decreases valid@.len() - i,
    {
        if str_eq(valid[i], key) {
            return true;
        }
        i += 1;
    }
    false
}

impl NamedAttrs {
    /// An empty entry list, as for an element without attribute.
    pub fn new() -> (r: NamedAttrs)
        ensures
            r@ == Seq::<(String, AttrValue)>::empty(),
    {
        NamedAttrs { values: Vec::new() }
    }

    /// Check each entry's key against `valid`. The first key that is not
    /// allowed fails, with the allowed set in the error.
    pub fn parse(entries: Vec<(String, AttrValue)>, valid: &[&str]) -> (r: Result<NamedAttrs, DeriveError>)
        ensures
            r is Ok <==> all_keys_allowed(entries@, valid@),
            match r {
                Ok(attrs) => attrs@ == entries@,
                Err(e) => invalid_argument_error(entries@, valid@, e),
            },
    {
        let mut i: usize = 0;
        while i < entries.len()
            invariant
                i <= entries@.len(),
                forall|j: int| 0 <= j < i ==> key_allowed(valid@, (#[trigger] entries@[j]).0@),
            decreases entries@.len() - i,
        {
            if !key_index(valid, entries[i].0.as_str()) {
                let found = entries[i].0.clone();
                let mut expected: Vec<String> = Vec::new();
                let mut k: usize = 0;
                while k < valid.len()
                    invariant
                        k <= valid@.len(),
                        expected@.len() == k,
                        forall|j: int| 0 <= j < k ==> (#[trigger] expected@[j])@ == valid@[j]@,
                    decreases valid@.len() - k,
                {
                    expected.push(valid[k].to_owned());
                    k += 1;
                }
                return Err(DeriveError::InvalidArgumentName { found, expected });
            }
            i += 1;
        }
        Ok(NamedAttrs { values: entries })
    }

    /// The value of the first entry named `key`, if any.
    pub fn get(&self, key: &str) -> (r: Option<&AttrValue>)
        ensures
            match r {
                Some(v) => attr_lookup(self@, key@) == Some(*v),
                None => attr_lookup(self@, key@) is None,
            },
    {
        proof {
            assert(self@.subrange(0, self@.len() as int) =~= self@);
        }
        let mut i: usize = 0;
        while i < self.values.len()
            invariant
                i <= self@.len(),
                attr_lookup(self@, key@) == attr_lookup(self@.subrange(i as int, self@.len() as int), key@),
            decreases self@.len() - i,
        {
            proof {
                assert(self@.subrange(i as int, self@.len() as int).drop_first()
                    =~= self@.subrange(i + 1, self@.len() as int));
            }
            if str_eq(self.values[i].0.as_str(), key) {
                return Some(&self.values[i].1);
            }
            i += 1;
        }
        None
    }
}

/// A string literal's value.
pub open spec fn string_value(v: AttrValue) -> Result<Seq<char>, DeriveError> {
    match v {
        AttrValue::Str(s) => Ok(s@),
        _ => Err(DeriveError::ExpectedLiteral(LiteralKind::String)),
    }
}

/// A boolean literal's value.
pub open spec fn bool_value(v: AttrValue) -> Result<bool, DeriveError> {
    match v {
        AttrValue::Bool(b) => Ok(b),
        _ => Err(DeriveError::ExpectedLiteral(LiteralKind::Boolean)),
    }
}

/// An integer literal's value, which must fit a `u16`.
pub open spec fn u16_value(v: AttrValue) -> Result<u16, DeriveError> {
    match v {
        AttrValue::Int(i) => if 0 <= i <= u16::MAX {
            Ok(i as u16)
        } else {
            Err(DeriveError::IntegerOutOfRange)
        },
        _ => Err(DeriveError::ExpectedLiteral(LiteralKind::Integer)),
    }
}

impl AttrValue {
    pub fn parse_string(&self) -> (r: Result<String, DeriveError>)
        ensures
            match r {
                Ok(s) => string_value(*self) == Ok::<Seq<char>, DeriveError>(s@),
                Err(e) => string_value(*self) == Err::<Seq<char>, DeriveError>(e),
            },
    {
        match self {
            AttrValue::Str(s) => Ok(s.clone()),
            _ => Err(DeriveError::ExpectedLiteral(LiteralKind::String)),
        }
    }

    pub fn parse_bool(&self) -> (r: Result<bool, DeriveError>)
        ensures
            r == bool_value(*self),
    {
        match self {
            AttrValue::Bool(b) => Ok(*b),
            _ => Err(DeriveError::ExpectedLiteral(LiteralKind::Boolean)),
        }
    }

    pub fn parse_u16(&self) -> (r: Result<u16, DeriveError>)
        ensures
            r == u16_value(*self),
    {
        match self {
            AttrValue::Int(i) => if 0 <= *i && *i <= 65535 {
                Ok(*i as u16)
            } else {
                Err(DeriveError::IntegerOutOfRange)
            },
            _ => Err(DeriveError::ExpectedLiteral(LiteralKind::Integer)),
        }
    }
}

/// Path to a function, as written in a string attribute.
#[derive(Debug, Clone, PartialEq, Eq)]
pub struct FunctionPath {
    path: String,
}

impl View for FunctionPath {
    type V = Seq<char>;

    closed spec fn view(&self) -> Seq<char> {
        self.path@
    }
}

/// Whether syn reads the whole text as a module-style path (`a::b::c`).
pub uninterp spec fn mod_style_path(s: Seq<char>) -> bool;

/// Relies on `syn::Path::parse_mod_style`, run by `syn::parse::Parser::parse_str`
/// over the whole text: whether the text reads as a module-style path.
#[verifier::external_body]
fn is_mod_style_path(s: &str) -> (r: bool)
    ensures
        r == mod_style_path(s@),
{
    syn::parse::Parser::parse_str(syn::Path::parse_mod_style, s).is_ok()
}

/// Reading a function path literal: a string that reads as a path.
pub open spec fn path_value(v: AttrValue) -> Result<Seq<char>, DeriveError> {
    match v {
        AttrValue::Str(s) => if mod_style_path(s@) {
            Ok(s@)
        } else {
            Err(DeriveError::InvalidFunctionPath(s))
        },
        _ => Err(DeriveError::ExpectedLiteral(LiteralKind::String)),
    }
}

impl FunctionPath {
    /// Read a string literal naming a function by its path.
    pub fn parse_attribute(v: &AttrValue) -> (r: Result<FunctionPath, DeriveError>)
        ensures
            match r {
                Ok(p) => path_value(*v) == Ok::<Seq<char>, DeriveError>(p@),
                Err(e) => path_value(*v) == Err::<Seq<char>, DeriveError>(e),
            },
    {
        match v {
            AttrValue::Str(s) => if is_mod_style_path(s.as_str()) {
                Ok(FunctionPath { path: s.clone() })
            } else {
                Err(DeriveError::InvalidFunctionPath(s.clone()))
            },
            _ => Err(DeriveError::ExpectedLiteral(LiteralKind::String)),
        }
    }

    pub fn as_str(&self) -> (r: &str)
        ensures
            r@ == self@,
    {
        self.path.as_str()
    }
}

/// The view of an optional reading.
pub open spec fn reading_view<T: View>(r: Result<Option<T>, DeriveError>) -> Result<Option<T::V>, DeriveError> {
    match r {
        Ok(Some(t)) => Ok(Some(t@)),
        Ok(None) => Ok(None),
        Err(e) => Err(e),
    }
}

/// Reading an optional name argument.
pub open spec fn read_name(v: Option<AttrValue>) -> Result<Option<Seq<char>>, DeriveError> {
    match v {
        None => Ok(None),
        Some(a) => match string_value(a) {
            Err(e) => Err(e),
            Ok(s) => match name_check(trimmed(s)) {
                Ok(n) => Ok(Some(n)),
                Err(e) => Err(e),
            },
        },
    }
}

/// Reading an optional description argument.
pub open spec fn read_desc(v: Option<AttrValue>) -> Result<Option<Seq<char>>, DeriveError> {
    match v {
        None => Ok(None),
        Some(a) => match string_value(a) {
            Err(e) => Err(e),
            Ok(s) => if valid_description(trimmed(s)) {
                Ok(Some(trimmed(s)))
            } else {
                Err(DeriveError::DescriptionLength)
            },
        },
    }
}

/// Reading an optional function path argument.
pub open spec fn read_path(v: Option<AttrValue>) -> Result<Option<Seq<char>>, DeriveError> {
    match v {
        None => Ok(None),
        Some(a) => match path_value(a) {
            Err(e) => Err(e),
            Ok(s) => Ok(Some(s)),
        },
    }
}

/// Reading an optional boolean argument.
pub open spec fn read_bool(v: Option<AttrValue>) -> Result<Option<bool>, DeriveError> {
    match v {
        None => Ok(None),
        Some(a) => match bool_value(a) {
            Err(e) => Err(e),
            Ok(b) => Ok(Some(b)),
        },
    }
}

/// Reading an optional `u16` argument.
pub open spec fn read_u16(v: Option<AttrValue>) -> Result<Option<u16>, DeriveError> {
    match v {
        None => Ok(None),
        Some(a) => match u16_value(a) {
            Err(e) => Err(e),
            Ok(b) => Ok(Some(b)),
        },
    }
}

impl NamedAttrs {
    pub fn optional_name(&self, key: &str) -> (r: Result<Option<CommandName>, DeriveError>)
        ensures
            reading_view(r) == read_name(attr_lookup(self@, key@)),
    {
        match self.get(key) {
            None => Ok(None),
            Some(v) => match v.parse_string() {
                Err(e) => Err(e),
                Ok(s) => match CommandName::parse(s.as_str()) {
                    Ok(n) => Ok(Some(n)),
                    Err(e) => Err(e),
                },
            },
        }
    }

    pub fn optional_desc(&self, key: &str) -> (r: Result<Option<CommandDescription>, DeriveError>)
        ensures
            reading_view(r) == read_desc(attr_lookup(self@, key@)),
    {
        match self.get(key) {
            None => Ok(None),
            Some(v) => match v.parse_string() {
                Err(e) => Err(e),
                Ok(s) => match CommandDescription::parse(s.as_str()) {
                    Ok(d) => Ok(Some(d)),
                    Err(e) => Err(e),
                },
            },
        }
    }

    pub fn optional_path(&self, key: &str) -> (r: Result<Option<FunctionPath>, DeriveError>)
        ensures
            reading_view(r) == read_path(attr_lookup(self@, key@)),
    {
        match self.get(key) {
            None => Ok(None),
            Some(v) => match FunctionPath::parse_attribute(v) {
                Err(e) => Err(e),
                Ok(p) => Ok(Some(p)),
            },
        }
    }

    pub fn optional_bool(&self, key: &str) -> (r: Result<Option<bool>, DeriveError>)
        ensures
            r == read_bool(attr_lookup(self@, key@)),
    {
        match self.get(key) {
            None => Ok(None),
            Some(v) => match v.parse_bool() {
                Err(e) => Err(e),
                Ok(b) => Ok(Some(b)),
            },
        }
    }

    pub fn optional_u16(&self, key: &str) -> (r: Result<Option<u16>, DeriveError>)
        ensures
            r == read_u16(attr_lookup(self@, key@)),
    {
        match self.get(key) {
            None => Ok(None),
            Some(v) => match v.parse_u16() {
                Err(e) => Err(e),
                Ok(b) => Ok(Some(b)),
            },
        }
    }
}

} // verus!
