//! Errors of the library: those found in a declaration, and those found while
//! parsing received interaction data.
use vstd::prelude::*;
use vstd::string::*;

use crate::channel::channel_type_name;
use crate::chars::{char_to_string, decimal_of, decimal_of_u64, i64_to_string, u64_to_string};
use crate::choice::ChoiceKind;
use crate::value::option_type_name;

verus! {

/// Literal kinds that an attribute value may be required to have.
#[derive(Debug, Clone, Copy, PartialEq, Eq)]
pub enum LiteralKind {
    String,
    Boolean,
    Integer,
    IntegerOrFloat,
    StringIntegerOrFloat,
}

/// An error in a model declaration.
#[derive(Debug, Clone, PartialEq, Eq)]
pub enum DeriveError {
    /// An attribute argument that is not in the allowed set.
    InvalidArgumentName { found: String, expected: Vec<String> },
    /// A required attribute argument is missing.
    MissingArgument(String),
    /// An attribute value has the wrong literal kind.
    ExpectedLiteral(LiteralKind),
    /// An integer literal does not fit the argument's type.
    IntegerOutOfRange,
    /// A name is not between 1 and 32 characters.
    NameLength,
    /// A name holds a character that is neither alphanumeric, `-` nor `_`.
    NameInvalidCharacter(char),
    /// A name holds a character that is not in lowercase.
    NameNotLowercase(char),
    /// A description is not between 1 and 100 characters.
    DescriptionLength,
    /// A choice name is not between 1 and 100 characters.
    ChoiceNameLength,
    /// A string attribute is outside its length bounds.
    StringLength { min: usize, max: usize },
    /// A localization or permissions function argument that is not a path.
    InvalidFunctionPath(String),
    /// A word in `channel_types` that names no channel type.
    InvalidChannelType(String),
    /// A word in `contexts` that names no interaction context.
    InvalidContextType(String),
    /// A word in `integration_types` that names no integration type.
    InvalidIntegrationType(String),
    /// A text input style other than `short` and `paragraph`.
    InvalidTextInputStyle(String),
    /// An explicit value and its localization function are both given.
    MutuallyExclusive,
    /// Neither a description, a localization function nor a documentation
    /// comment is available.
    MissingDescription,
    /// An attribute names a localization function whose value was not
    /// supplied.
    MissingLocalization,
    /// A required attribute (`#[command(...)]`, `#[option(...)]`,
    /// `#[modal(...)]`) is missing on the type, a field or a variant.
    MissingAttribute,
    /// A command schema needs a name and none was given.
    MissingName,
    /// A modal schema needs a title and none was given.
    MissingTitle,
    /// An autocomplete field is wrapped in an optional field.
    AutocompleteInOptional,
    /// An autocomplete field in a model that is not an autocomplete model.
    AutocompleteOutsideModel,
    /// A required field in an autocomplete model.
    RequiredInAutocompleteModel,
    /// A schema was requested for a partial (autocomplete) model.
    PartialModel,
    /// A required field declared after an optional one.
    RequiredAfterOptional,
    /// An enum without variants.
    EmptyEnum,
    /// A subcommand variant whose fields are not unnamed.
    NotUnnamedVariant,
    /// A subcommand variant whose field is not of a path type.
    UnsupportedFieldType,
    /// A subcommand variant without exactly one unnamed field.
    NotSingleUnnamedField,
    /// A choice variant that has fields.
    NotUnitVariant,
    /// A choice value whose kind differs from the first variant's.
    ChoiceKindMismatch(crate::choice::ChoiceKind),
    /// A struct field without identifier.
    MissingIdentifier,
    /// A modal without 1 to 5 fields.
    ModalFieldCount,
}

/// Error when parsing received interaction data.
#[derive(Debug, PartialEq, Eq)]
pub enum ParseError {
    /// Received an empty option list where a subcommand was expected.
    EmptyOptions,
    /// Error when parsing a command option.
    Option(ParseOptionError),
}

/// Error when parsing one option.
#[derive(Debug, PartialEq, Eq)]
pub struct ParseOptionError {
    /// The name of the option field that caused the error.
    pub field: String,
    /// The type of the error.
    pub kind: ParseOptionErrorType,
}

/// Type of a [`ParseOptionError`].
#[derive(Debug, PartialEq, Eq)]
pub enum ParseOptionErrorType {
    /// Received a value of another kind than the field's.
    InvalidType(crate::value::CommandOptionType),
    /// Received a value that is none of the choices.
    InvalidChoice(String),
    /// Received an integer outside the declared bounds.
    IntegerOutOfRange(i64),
    /// Received a string outside the declared length bounds.
    StringOutOfRange(String),
    /// Received a channel of a type the field does not allow.
    InvalidChannelType(crate::channel::ChannelType),
    /// Failed to resolve data associated with an identifier.
    LookupFailed(u64),
    /// Missing a required field.
    RequiredField,
    /// Received an unknown field.
    UnknownField,
    /// Received an unknown subcommand.
    UnknownSubcommand,
}

/// The message describing an option error's kind.
pub open spec fn detail_text(k: ParseOptionErrorType) -> Seq<char> {
    match k {
        ParseOptionErrorType::InvalidType(t) => "invalid type, found "@ + option_type_name(t),
        ParseOptionErrorType::InvalidChoice(c) => "invalid choice value, found `"@ + c@ + "`"@,
        ParseOptionErrorType::IntegerOutOfRange(v) => "out of range integer, received `"@ + decimal_of(v) + "`"@,
        ParseOptionErrorType::StringOutOfRange(s) => "out of range string, received `"@ + s@ + "`"@,
        ParseOptionErrorType::InvalidChannelType(c) => "invalid channel type, received `"@ + channel_type_name(c) + "`"@,
        ParseOptionErrorType::LookupFailed(id) => "failed to resolve `"@ + decimal_of_u64(id) + "`"@,
        ParseOptionErrorType::RequiredField => "missing required field"@,
        ParseOptionErrorType::UnknownField => "unknown field"@,
        ParseOptionErrorType::UnknownSubcommand => "unknown subcommand"@,
    }
}

/// The message describing a parse error.
pub open spec fn message_text(e: ParseError) -> Seq<char> {
    match e {
        ParseError::EmptyOptions => "received an empty option list"@,
        ParseError::Option(o) => "failed to parse option `"@ + o.field@ + "`: "@ + detail_text(o.kind),
    }
}

impl ParseOptionErrorType {
    /// The message describing this kind of error.
    pub fn detail(&self) -> (r: String)
        ensures
            r@ == detail_text(*self),
    {
        let mut s = String::new();
        match self {
            ParseOptionErrorType::InvalidType(t) => {
                s.append("invalid type, found ");
                s.append(t.kind());
            },
            ParseOptionErrorType::InvalidChoice(c) => {
                s.append("invalid choice value, found `");
                s.append(c.as_str());
                s.append("`");
            },
            ParseOptionErrorType::IntegerOutOfRange(v) => {
                s.append("out of range integer, received `");
                s.append(i64_to_string(*v).as_str());
                s.append("`");
            },
            ParseOptionErrorType::StringOutOfRange(v) => {
                s.append("out of range string, received `");
                s.append(v.as_str());
                s.append("`");
            },
            ParseOptionErrorType::InvalidChannelType(c) => {
                s.append("invalid channel type, received `");
                s.append(c.name());
                s.append("`");
            },
            ParseOptionErrorType::LookupFailed(id) => {
                s.append("failed to resolve `");
                s.append(u64_to_string(*id).as_str());
                s.append("`");
            },
            ParseOptionErrorType::RequiredField => s.append("missing required field"),
            ParseOptionErrorType::UnknownField => s.append("unknown field"),
            ParseOptionErrorType::UnknownSubcommand => s.append("unknown subcommand"),
        }
        assert(s@ =~= detail_text(*self));
        s
    }
}

impl ParseError {
    /// The message describing this error.
    pub fn message(&self) -> (r: String)
        ensures
            r@ == message_text(*self),
    {
        match self {
            ParseError::EmptyOptions => "received an empty option list".to_owned(),
            ParseError::Option(o) => {
                let mut s = String::new();
                s.append("failed to parse option `");
                s.append(o.field.as_str());
                s.append("`: ");
                s.append(o.kind.detail().as_str());
                assert(s@ =~= message_text(*self));
                s
            },
        }
    }
}

/// The allowed keys of an attribute, separated by commas.
pub open spec fn joined(keys: Seq<String>) -> Seq<char>
    decreases keys.len(),
{
    if keys.len() == 0 {
        Seq::empty()
    } else if keys.len() == 1 {
        keys[0]@
    } else {
        joined(keys.drop_last()) + ", "@ + keys.last()@
    }
}

/// The name of a literal kind in messages.
pub open spec fn literal_text(k: LiteralKind) -> Seq<char> {
    match k {
        LiteralKind::String => "string literal"@,
        LiteralKind::Boolean => "boolean literal"@,
        LiteralKind::Integer => "integer literal"@,
        LiteralKind::IntegerOrFloat => "integer or floating point literal"@,
        LiteralKind::StringIntegerOrFloat => "string, integer or float point literal"@,
    }
}

/// The name of a choice kind in messages.
pub open spec fn choice_kind_text(k: ChoiceKind) -> Seq<char> {
    match k {
        ChoiceKind::String => "string"@,
        ChoiceKind::Integer => "integer"@,
        ChoiceKind::Number => "float"@,
    }
}

/// The message describing a declaration error.
pub open spec fn derive_text(e: DeriveError) -> Seq<char> {
    match e {
        DeriveError::InvalidArgumentName { found, expected } => "invalid argument name `"@ + found@ + "` (expected one of "@
            + joined(expected@) + ")"@,
        DeriveError::MissingArgument(k) => "missing required `"@ + k@ + "` argument"@,
        DeriveError::ExpectedLiteral(k) => "expected "@ + literal_text(k),
        DeriveError::IntegerOutOfRange => "integer literal out of range"@,
        DeriveError::NameLength => "name must be between 1 and 32 characters"@,
        DeriveError::NameInvalidCharacter(c) => "name must only contain word characters, found invalid character `"@ + seq![c] + "`"@,
        DeriveError::NameNotLowercase(c) => "name must be in lowercase, found invalid character `"@ + seq![c] + "`"@,
        DeriveError::DescriptionLength => "description must be between 1 and 100 characters"@,
        DeriveError::ChoiceNameLength => "name must be between 1 and 100 characters"@,
        DeriveError::StringLength { min, max } => "value must be between "@ + decimal_of_u64(min as u64) + " and "@
            + decimal_of_u64(max as u64) + " characters"@,
        DeriveError::InvalidFunctionPath(w) => "`"@ + w@ + "` is not a valid function path"@,
        DeriveError::InvalidChannelType(w) => "`"@ + w@ + "` is not a valid channel type"@,
        DeriveError::InvalidContextType(w) => "`"@ + w@ + "` is not a valid context type"@,
        DeriveError::InvalidIntegrationType(w) => "`"@ + w@ + "` is not a valid integration type"@,
        DeriveError::InvalidTextInputStyle(w) => "`"@ + w@ + "` is not a valid text input style, expected `short` or `paragraph`"@,
        DeriveError::MutuallyExclusive => "`desc` and `desc_localizations` are mutually exclusive"@,
        DeriveError::MissingDescription => "description is required (documentation comment or `desc` attribute)"@,
        DeriveError::MissingLocalization => "the value of a named localization function is missing"@,
        DeriveError::MissingAttribute => "missing required attribute"@,
        DeriveError::MissingName => "missing required attribute `name`"@,
        DeriveError::MissingTitle => "missing required attribute `title`"@,
        DeriveError::AutocompleteInOptional => "`AutocompleteValue` cannot be wrapped in `Option<T>`"@,
        DeriveError::AutocompleteOutsideModel => "`AutocompleteValue` is only available in autocomplete models"@,
        DeriveError::RequiredInAutocompleteModel => "autocomplete models only support `Option` or `AutocompleteValue` fields"@,
        DeriveError::PartialModel => "cannot create a command from a partial model"@,
        DeriveError::RequiredAfterOptional => "required options should be added before optional"@,
        DeriveError::EmptyEnum => "enum must have at least one variant"@,
        DeriveError::NotUnnamedVariant => "variant must be an unnamed variant"@,
        DeriveError::UnsupportedFieldType => "unsupported type, expected a type path"@,
        DeriveError::NotSingleUnnamedField => "variant must have exactly one unnamed field"@,
        DeriveError::NotUnitVariant => "variant must be a unit variant"@,
        DeriveError::ChoiceKindMismatch(k) => "invalid attribute type, expected "@ + choice_kind_text(k),
        DeriveError::MissingIdentifier => "expected struct field to have an identifier"@,
        DeriveError::ModalFieldCount => "modal must have between one and five fields"@,
    }
}

fn join_keys(keys: &Vec<String>) -> (r: String)
    ensures
        r@ == joined(keys@),
{
    let mut s = String::new();
    let mut i: usize = 0;
    while i < keys.len()
        invariant
            i <= keys@.len(),
            s@ == joined(keys@.subrange(0, i as int)),
        decreases keys@.len() - i,
    {
        let ghost pre = keys@.subrange(0, i as int);
        let ghost post = keys@.subrange(0, i + 1);
        assert(post.drop_last() =~= pre);
        if i > 0 {
            s.append(", ");
        }
        s.append(keys[i].as_str());
        proof {
            if i == 0 {
                assert(s@ =~= joined(post));
            } else {
                assert(s@ =~= joined(pre) + ", "@ + post.last()@);
            }
        }
        i += 1;
    }
    assert(keys@.subrange(0, i as int) =~= keys@);
    s
}

impl DeriveError {
    /// The message describing this error.
    pub fn message(&self) -> (r: String)
        ensures
            r@ == derive_text(*self),
    {
        let mut s = String::new();
        match self {
            DeriveError::InvalidArgumentName { found, expected } => {
                s.append("invalid argument name `");
                s.append(found.as_str());
                s.append("` (expected one of ");
                s.append(join_keys(expected).as_str());
                s.append(")");
            },
            DeriveError::MissingArgument(k) => {
                s.append("missing required `");
                s.append(k.as_str());
                s.append("` argument");
            },
            DeriveError::ExpectedLiteral(k) => {
                s.append("expected ");
                s.append(match k {
                    LiteralKind::String => "string literal",
                    LiteralKind::Boolean => "boolean literal",
                    LiteralKind::Integer => "integer literal",
                    LiteralKind::IntegerOrFloat => "integer or floating point literal",
                    LiteralKind::StringIntegerOrFloat => "string, integer or float point literal",
                });
            },
            DeriveError::IntegerOutOfRange => s.append("integer literal out of range"),
            DeriveError::NameLength => s.append("name must be between 1 and 32 characters"),
            DeriveError::NameInvalidCharacter(c) => {
                s.append("name must only contain word characters, found invalid character `");
                s.append(char_to_string(*c).as_str());
                s.append("`");
            },
            DeriveError::NameNotLowercase(c) => {
                s.append("name must be in lowercase, found invalid character `");
                s.append(char_to_string(*c).as_str());
                s.append("`");
            },
            DeriveError::DescriptionLength => s.append("description must be between 1 and 100 characters"),
            DeriveError::ChoiceNameLength => s.append("name must be between 1 and 100 characters"),
            DeriveError::StringLength { min, max } => {
                s.append("value must be between ");
                s.append(u64_to_string(*min as u64).as_str());
                s.append(" and ");
                s.append(u64_to_string(*max as u64).as_str());
                s.append(" characters");
            },
            DeriveError::InvalidFunctionPath(w) => {
                s.append("`");
                s.append(w.as_str());
                s.append("` is not a valid function path");
            },
            DeriveError::InvalidChannelType(w) => {
                s.append("`");
                s.append(w.as_str());
                s.append("` is not a valid channel type");
            },
            DeriveError::InvalidContextType(w) => {
                s.append("`");
                s.append(w.as_str());
                s.append("` is not a valid context type");
            },
            DeriveError::InvalidIntegrationType(w) => {
                s.append("`");
                s.append(w.as_str());
                s.append("` is not a valid integration type");
            },
            DeriveError::InvalidTextInputStyle(w) => {
                s.append("`");
                s.append(w.as_str());
                s.append("` is not a valid text input style, expected `short` or `paragraph`");
            },
            DeriveError::MutuallyExclusive => s.append("`desc` and `desc_localizations` are mutually exclusive"),
            DeriveError::MissingDescription => s.append("description is required (documentation comment or `desc` attribute)"),
            DeriveError::MissingLocalization => s.append("the value of a named localization function is missing"),
            DeriveError::MissingAttribute => s.append("missing required attribute"),
            DeriveError::MissingName => s.append("missing required attribute `name`"),
            DeriveError::MissingTitle => s.append("missing required attribute `title`"),
            DeriveError::AutocompleteInOptional => s.append("`AutocompleteValue` cannot be wrapped in `Option<T>`"),
            DeriveError::AutocompleteOutsideModel => s.append("`AutocompleteValue` is only available in autocomplete models"),
            DeriveError::RequiredInAutocompleteModel => s.append("autocomplete models only support `Option` or `AutocompleteValue` fields"),
            DeriveError::PartialModel => s.append("cannot create a command from a partial model"),
            DeriveError::RequiredAfterOptional => s.append("required options should be added before optional"),
            DeriveError::EmptyEnum => s.append("enum must have at least one variant"),
            DeriveError::NotUnnamedVariant => s.append("variant must be an unnamed variant"),
            DeriveError::UnsupportedFieldType => s.append("unsupported type, expected a type path"),
            DeriveError::NotSingleUnnamedField => s.append("variant must have exactly one unnamed field"),
            DeriveError::NotUnitVariant => s.append("variant must be a unit variant"),
            DeriveError::ChoiceKindMismatch(k) => {
                s.append("invalid attribute type, expected ");
                s.append(k.name());
            },
            DeriveError::MissingIdentifier => s.append("expected struct field to have an identifier"),
            DeriveError::ModalFieldCount => s.append("modal must have between one and five fields"),
        }
        assert(s@ =~= derive_text(*self));
        s
    }
}

} // verus!
