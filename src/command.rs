//! Declarations of command models: type and field attributes, and the
//! classification of fields as required, optional or autocomplete.
use vstd::prelude::*;

use crate::attribute::{
    all_keys_allowed, attr_lookup, invalid_argument_error, read_bool, read_desc, read_name,
    read_path, read_u16, string_value, AttrValue, FunctionPath, NamedAttrs,
};
use crate::channel::{
    channel_type_of, context_type_of, integration_type_of, parse_channel_types,
    parse_context_types, parse_integration_types, word_list_error, word_list_ok,
    ApplicationIntegrationType, ChannelType, InteractionContextType, WordList,
};
use crate::chars::words;
use crate::error::{DeriveError, LiteralKind};
use crate::naming::{CommandDescription, CommandName};

verus! {

/// The view of an optional value.
pub open spec fn opt_view<T: View>(o: Option<T>) -> Option<T::V> {
    match o {
        Some(t) => Some(t@),
        None => None,
    }
}

/// Numeric bound of an option: an integer, or a floating-point literal kept as
/// its source text.
#[derive(Debug, Clone, PartialEq, Eq)]
pub enum CommandOptionValue {
    Integer(i64),
    Number(String),
}

/// Reading an optional numeric bound argument.
pub open spec fn read_bound(v: Option<AttrValue>) -> Result<Option<CommandOptionValue>, DeriveError> {
    match v {
        None => Ok(None),
        Some(AttrValue::Int(i)) => Ok(Some(CommandOptionValue::Integer(i))),
        Some(AttrValue::Float(t)) => Ok(Some(CommandOptionValue::Number(t))),
        Some(_) => Err(DeriveError::ExpectedLiteral(LiteralKind::IntegerOrFloat)),
    }
}

fn optional_bound(attrs: &NamedAttrs, key: &str) -> (r: Result<Option<CommandOptionValue>, DeriveError>)
    ensures
        r == read_bound(attr_lookup(attrs@, key@)),
{
    match attrs.get(key) {
        None => Ok(None),
        Some(AttrValue::Int(i)) => Ok(Some(CommandOptionValue::Integer(*i))),
        Some(AttrValue::Float(t)) => Ok(Some(CommandOptionValue::Number(t.clone()))),
        Some(_) => Err(DeriveError::ExpectedLiteral(LiteralKind::IntegerOrFloat)),
    }
}

/// Whether an optional word-list argument reads without error.
pub open spec fn list_ok(list: WordList, v: Option<AttrValue>) -> bool {
    match v {
        None => true,
        Some(a) => match string_value(a) {
            Ok(s) => word_list_ok(list, s),
            Err(_) => false,
        },
    }
}

/// Whether `e` is the error of reading an optional word-list argument.
pub open spec fn list_error(list: WordList, v: Option<AttrValue>, e: DeriveError) -> bool {
    match v {
        None => false,
        Some(a) => match string_value(a) {
            Ok(s) => word_list_error(list, s, e),
            Err(x) => e == x,
        },
    }
}

/// The words of an optional word-list argument (empty when it is absent).
pub open spec fn list_words(v: Option<AttrValue>) -> Seq<Seq<char>> {
    match v {
        Some(AttrValue::Str(s)) => words(s@),
        _ => Seq::empty(),
    }
}

/// The channel types an optional `channel_types` argument names.
pub open spec fn channel_types_read(v: Option<AttrValue>, r: Seq<ChannelType>) -> bool {
    r.len() == list_words(v).len() && forall|i: int|
        0 <= i < r.len() ==> Some(#[trigger] r[i]) == channel_type_of(list_words(v)[i])
}

fn optional_channel_types(attrs: &NamedAttrs, key: &str) -> (r: Result<Vec<ChannelType>, DeriveError>)
    ensures
        r is Ok <==> list_ok(WordList::Channels, attr_lookup(attrs@, key@)),
        match r {
            Ok(v) => channel_types_read(attr_lookup(attrs@, key@), v@),
            Err(e) => list_error(WordList::Channels, attr_lookup(attrs@, key@), e),
        },
{
    match attrs.get(key) {
        None => Ok(Vec::new()),
        Some(v) => match v.parse_string() {
            Err(e) => Err(e),
            Ok(s) => parse_channel_types(s.as_str()),
        },
    }
}

fn optional_contexts(attrs: &NamedAttrs, key: &str) -> (r: Result<Option<Vec<InteractionContextType>>, DeriveError>)
    ensures
        r is Ok <==> list_ok(WordList::Contexts, attr_lookup(attrs@, key@)),
        match r {
            Ok(None) => attr_lookup(attrs@, key@) is None,
            Ok(Some(v)) => attr_lookup(attrs@, key@) is Some && v@.len() == list_words(attr_lookup(attrs@, key@)).len()
                && forall|i: int| 0 <= i < v@.len() ==> Some(#[trigger] v@[i]) == context_type_of(list_words(attr_lookup(attrs@, key@))[i]),
            Err(e) => list_error(WordList::Contexts, attr_lookup(attrs@, key@), e),
        },
{
    match attrs.get(key) {
        None => Ok(None),
        Some(v) => match v.parse_string() {
            Err(e) => Err(e),
            Ok(s) => match parse_context_types(s.as_str()) {
                Ok(l) => Ok(Some(l)),
                Err(e) => Err(e),
            },
        },
    }
}

fn optional_integrations(attrs: &NamedAttrs, key: &str) -> (r: Result<Option<Vec<ApplicationIntegrationType>>, DeriveError>)
    ensures
        r is Ok <==> list_ok(WordList::Integrations, attr_lookup(attrs@, key@)),
        match r {
            Ok(None) => attr_lookup(attrs@, key@) is None,
            Ok(Some(v)) => attr_lookup(attrs@, key@) is Some && v@.len() == list_words(attr_lookup(attrs@, key@)).len()
                && forall|i: int| 0 <= i < v@.len() ==> Some(#[trigger] v@[i]) == integration_type_of(list_words(attr_lookup(attrs@, key@))[i]),
            Err(e) => list_error(WordList::Integrations, attr_lookup(attrs@, key@), e),
        },
{
    match attrs.get(key) {
        None => Ok(None),
        Some(v) => match v.parse_string() {
            Err(e) => Err(e),
            Ok(s) => match parse_integration_types(s.as_str()) {
                Ok(l) => Ok(Some(l)),
                Err(e) => Err(e),
            },
        },
    }
}

/// Keys allowed in a field's `#[command(...)]` attribute.
pub open spec fn field_keys() -> Seq<&'static str> {
    seq![
        "rename",
        "name_localizations",
        "desc",
        "desc_localizations",
        "autocomplete",
        "channel_types",
        "max_value",
        "min_value",
        "max_length",
        "min_length",
    ]
}

/// Parsed field attribute.
#[derive(Debug, Clone)]
pub struct FieldAttribute {
    /// Rename the field to the given name.
    pub rename: Option<CommandName>,
    /// Localization function for the field name.
    pub name_localizations: Option<FunctionPath>,
    /// Overwrite the field description.
    pub desc: Option<CommandDescription>,
    /// Localization function for the field description.
    pub desc_localizations: Option<FunctionPath>,
    /// Whether the field supports autocomplete.
    pub autocomplete: bool,
    /// Limit to specific channel types.
    pub channel_types: Vec<ChannelType>,
    /// Maximum value permitted.
    pub max_value: Option<CommandOptionValue>,
    /// Minimum value permitted.
    pub min_value: Option<CommandOptionValue>,
    /// Maximum string length.
    pub max_length: Option<u16>,
    /// Minimum string length.
    pub min_length: Option<u16>,
}

/// Whether a field attribute's entries read without error.
pub open spec fn field_attribute_ok(entries: Seq<(String, AttrValue)>) -> bool {
    &&& all_keys_allowed(entries, field_keys())
    &&& read_name(attr_lookup(entries, "rename"@)) is Ok
    &&& read_path(attr_lookup(entries, "name_localizations"@)) is Ok
    &&& read_desc(attr_lookup(entries, "desc"@)) is Ok
    &&& read_path(attr_lookup(entries, "desc_localizations"@)) is Ok
    &&& read_bool(attr_lookup(entries, "autocomplete"@)) is Ok
    &&& list_ok(WordList::Channels, attr_lookup(entries, "channel_types"@))
    &&& read_bound(attr_lookup(entries, "max_value"@)) is Ok
    &&& read_bound(attr_lookup(entries, "min_value"@)) is Ok
    &&& read_u16(attr_lookup(entries, "max_length"@)) is Ok
    &&& read_u16(attr_lookup(entries, "min_length"@)) is Ok
}

/// Whether `e` is the error of the first argument, in the order of
/// `field_keys`, that fails to read.
pub open spec fn field_attribute_error(entries: Seq<(String, AttrValue)>, e: DeriveError) -> bool {
    if !all_keys_allowed(entries, field_keys()) {
        invalid_argument_error(entries, field_keys(), e)
    } else if read_name(attr_lookup(entries, "rename"@)) is Err {
        e == read_name(attr_lookup(entries, "rename"@))->Err_0
    } else if read_path(attr_lookup(entries, "name_localizations"@)) is Err {
        e == read_path(attr_lookup(entries, "name_localizations"@))->Err_0
    } else if read_desc(attr_lookup(entries, "desc"@)) is Err {
        e == read_desc(attr_lookup(entries, "desc"@))->Err_0
    } else if read_path(attr_lookup(entries, "desc_localizations"@)) is Err {
        e == read_path(attr_lookup(entries, "desc_localizations"@))->Err_0
    } else if read_bool(attr_lookup(entries, "autocomplete"@)) is Err {
        e == read_bool(attr_lookup(entries, "autocomplete"@))->Err_0
    } else if !list_ok(WordList::Channels, attr_lookup(entries, "channel_types"@)) {
        list_error(WordList::Channels, attr_lookup(entries, "channel_types"@), e)
    } else if read_bound(attr_lookup(entries, "max_value"@)) is Err {
        e == read_bound(attr_lookup(entries, "max_value"@))->Err_0
    } else if read_bound(attr_lookup(entries, "min_value"@)) is Err {
        e == read_bound(attr_lookup(entries, "min_value"@))->Err_0
    } else if read_u16(attr_lookup(entries, "max_length"@)) is Err {
        e == read_u16(attr_lookup(entries, "max_length"@))->Err_0
    } else {
        e == read_u16(attr_lookup(entries, "min_length"@))->Err_0
    }
}

/// Whether `a` holds what a field attribute's entries say.
pub open spec fn field_attribute_read(entries: Seq<(String, AttrValue)>, a: FieldAttribute) -> bool {
    &&& read_name(attr_lookup(entries, "rename"@)) == Ok::<_, DeriveError>(opt_view(a.rename))
    &&& read_path(attr_lookup(entries, "name_localizations"@)) == Ok::<_, DeriveError>(opt_view(a.name_localizations))
    &&& read_desc(attr_lookup(entries, "desc"@)) == Ok::<_, DeriveError>(opt_view(a.desc))
    &&& read_path(attr_lookup(entries, "desc_localizations"@)) == Ok::<_, DeriveError>(opt_view(a.desc_localizations))
    &&& a.autocomplete == match read_bool(attr_lookup(entries, "autocomplete"@)) {
        Ok(Some(b)) => b,
        _ => false,
    }
    &&& channel_types_read(attr_lookup(entries, "channel_types"@), a.channel_types@)
    &&& read_bound(attr_lookup(entries, "max_value"@)) == Ok::<_, DeriveError>(a.max_value)
    &&& read_bound(attr_lookup(entries, "min_value"@)) == Ok::<_, DeriveError>(a.min_value)
    &&& read_u16(attr_lookup(entries, "max_length"@)) == Ok::<_, DeriveError>(a.max_length)
    &&& read_u16(attr_lookup(entries, "min_length"@)) == Ok::<_, DeriveError>(a.min_length)
}

impl FieldAttribute {
    /// Parse the entries of a field's `#[command(...)]` attribute; a field
    /// without the attribute has no entries.
    pub fn parse(entries: Vec<(String, AttrValue)>) -> (r: Result<FieldAttribute, DeriveError>)
        ensures
            r is Ok <==> field_attribute_ok(entries@),
            match r {
                Ok(a) => field_attribute_read(entries@, a),
                Err(e) => field_attribute_error(entries@, e),
            },
    {
        let valid: [&str; 10] = [
            "rename",
            "name_localizations",
            "desc",
            "desc_localizations",
            "autocomplete",
            "channel_types",
            "max_value",
            "min_value",
            "max_length",
            "min_length",
        ];
        let ghost entries_v = entries@;
        let attrs = match NamedAttrs::parse(entries, &valid) {
            Ok(a) => a,
            Err(e) => return Err(e),
        };
        assert(attrs@ == entries_v);
        let rename = match attrs.optional_name("rename") {
            Ok(v) => v,
            Err(e) => return Err(e),
        };
        let name_localizations = match attrs.optional_path("name_localizations") {
            Ok(v) => v,
            Err(e) => return Err(e),
        };
        let desc = match attrs.optional_desc("desc") {
            Ok(v) => v,
            Err(e) => return Err(e),
        };
        let desc_localizations = match attrs.optional_path("desc_localizations") {
            Ok(v) => v,
            Err(e) => return Err(e),
        };
        let autocomplete = match attrs.optional_bool("autocomplete") {
            Ok(Some(b)) => b,
            Ok(None) => false,
            Err(e) => return Err(e),
        };
        let channel_types = match optional_channel_types(&attrs, "channel_types") {
            Ok(v) => v,
            Err(e) => return Err(e),
        };
        let max_value = match optional_bound(&attrs, "max_value") {
            Ok(v) => v,
            Err(e) => return Err(e),
        };
        let min_value = match optional_bound(&attrs, "min_value") {
            Ok(v) => v,
            Err(e) => return Err(e),
        };
        let max_length = match attrs.optional_u16("max_length") {
            Ok(v) => v,
            Err(e) => return Err(e),
        };
        let min_length = match attrs.optional_u16("min_length") {
            Ok(v) => v,
            Err(e) => return Err(e),
        };
        Ok(FieldAttribute {
            rename,
            name_localizations,
            desc,
            desc_localizations,
            autocomplete,
            channel_types,
            max_value,
            min_value,
            max_length,
            min_length,
        })
    }

    /// The field's name: its rename, else `default` (its identifier).
    pub fn name_default(&self, default: String) -> (r: String)
        ensures
            r@ == match self.rename {
                Some(n) => n@,
                None => default@,
            },
    {
        match &self.rename {
            Some(name) => name.as_str().to_owned(),
            None => default,
        }
    }
}

/// Keys allowed in the `#[command(...)]` attribute of a struct model.
pub open spec fn model_keys() -> Seq<&'static str> {
    seq![
        "autocomplete",
        "name",
        "name_localizations",
        "desc",
        "desc_localizations",
        "default_permissions",
        "dm_permission",
        "nsfw",
        "contexts",
        "integration_types",
    ]
}

/// Keys allowed in the `#[command(...)]` attribute of a subcommand enum.
pub open spec fn group_keys() -> Seq<&'static str> {
    seq![
        "name",
        "name_localizations",
        "desc",
        "desc_localizations",
        "default_permissions",
        "dm_permission",
        "nsfw",
        "contexts",
        "integration_types",
    ]
}

/// Parsed type attribute of a command model or subcommand enum.
#[derive(Debug, Clone)]
pub struct TypeAttribute {
    /// Whether the model is an autocomplete (partial) model.
    pub autocomplete: Option<bool>,
    /// Command name.
    pub name: Option<CommandName>,
    /// Localization function for the command name.
    pub name_localizations: Option<FunctionPath>,
    /// Command description.
    pub desc: Option<CommandDescription>,
    /// Localization function for the command description.
    pub desc_localizations: Option<FunctionPath>,
    /// Function giving the default permissions required to run the command.
    pub default_permissions: Option<FunctionPath>,
    /// Whether the command is available in direct messages.
    pub dm_permission: Option<bool>,
    /// Whether the command is age-restricted.
    pub nsfw: Option<bool>,
    /// Contexts in which the command can be used.
    pub contexts: Option<Vec<InteractionContextType>>,
    /// Installation contexts the command is available in.
    pub integration_types: Option<Vec<ApplicationIntegrationType>>,
}

/// Whether a type attribute's entries read without error.
pub open spec fn type_attribute_ok(entries: Seq<(String, AttrValue)>, valid: Seq<&str>) -> bool {
    &&& all_keys_allowed(entries, valid)
    &&& read_bool(attr_lookup(entries, "autocomplete"@)) is Ok
    &&& read_name(attr_lookup(entries, "name"@)) is Ok
    &&& read_path(attr_lookup(entries, "name_localizations"@)) is Ok
    &&& read_desc(attr_lookup(entries, "desc"@)) is Ok
    &&& read_path(attr_lookup(entries, "desc_localizations"@)) is Ok
    &&& read_path(attr_lookup(entries, "default_permissions"@)) is Ok
    &&& read_bool(attr_lookup(entries, "dm_permission"@)) is Ok
    &&& read_bool(attr_lookup(entries, "nsfw"@)) is Ok
    &&& list_ok(WordList::Contexts, attr_lookup(entries, "contexts"@))
    &&& list_ok(WordList::Integrations, attr_lookup(entries, "integration_types"@))
}

/// Whether `e` is the error of the first argument, in declaration order of
/// the attribute's fields, that fails to read.
pub open spec fn type_attribute_error(entries: Seq<(String, AttrValue)>, valid: Seq<&str>, e: DeriveError) -> bool {
    if !all_keys_allowed(entries, valid) {
        invalid_argument_error(entries, valid, e)
    } else if read_bool(attr_lookup(entries, "autocomplete"@)) is Err {
        e == read_bool(attr_lookup(entries, "autocomplete"@))->Err_0
    } else if read_name(attr_lookup(entries, "name"@)) is Err {
        e == read_name(attr_lookup(entries, "name"@))->Err_0
    } else if read_path(attr_lookup(entries, "name_localizations"@)) is Err {
        e == read_path(attr_lookup(entries, "name_localizations"@))->Err_0
    } else if read_desc(attr_lookup(entries, "desc"@)) is Err {
        e == read_desc(attr_lookup(entries, "desc"@))->Err_0
    } else if read_path(attr_lookup(entries, "desc_localizations"@)) is Err {
        e == read_path(attr_lookup(entries, "desc_localizations"@))->Err_0
    } else if read_path(attr_lookup(entries, "default_permissions"@)) is Err {
        e == read_path(attr_lookup(entries, "default_permissions"@))->Err_0
    } else if read_bool(attr_lookup(entries, "dm_permission"@)) is Err {
        e == read_bool(attr_lookup(entries, "dm_permission"@))->Err_0
    } else if read_bool(attr_lookup(entries, "nsfw"@)) is Err {
        e == read_bool(attr_lookup(entries, "nsfw"@))->Err_0
    } else if !list_ok(WordList::Contexts, attr_lookup(entries, "contexts"@)) {
        list_error(WordList::Contexts, attr_lookup(entries, "contexts"@), e)
    } else {
        list_error(WordList::Integrations, attr_lookup(entries, "integration_types"@), e)
    }
}

/// Whether `a` holds what a type attribute's entries say.
pub open spec fn type_attribute_read(entries: Seq<(String, AttrValue)>, a: TypeAttribute) -> bool {
    &&& read_bool(attr_lookup(entries, "autocomplete"@)) == Ok::<_, DeriveError>(a.autocomplete)
    &&& read_name(attr_lookup(entries, "name"@)) == Ok::<_, DeriveError>(opt_view(a.name))
    &&& read_path(attr_lookup(entries, "name_localizations"@)) == Ok::<_, DeriveError>(opt_view(a.name_localizations))
    &&& read_desc(attr_lookup(entries, "desc"@)) == Ok::<_, DeriveError>(opt_view(a.desc))
    &&& read_path(attr_lookup(entries, "desc_localizations"@)) == Ok::<_, DeriveError>(opt_view(a.desc_localizations))
    &&& read_path(attr_lookup(entries, "default_permissions"@)) == Ok::<_, DeriveError>(opt_view(a.default_permissions))
    &&& read_bool(attr_lookup(entries, "dm_permission"@)) == Ok::<_, DeriveError>(a.dm_permission)
    &&& read_bool(attr_lookup(entries, "nsfw"@)) == Ok::<_, DeriveError>(a.nsfw)
    &&& (a.contexts is Some <==> attr_lookup(entries, "contexts"@) is Some)
    &&& (a.contexts matches Some(v) ==> v@.len() == list_words(attr_lookup(entries, "contexts"@)).len()
        && forall|i: int| 0 <= i < v@.len() ==> Some(#[trigger] v@[i]) == context_type_of(list_words(attr_lookup(entries, "contexts"@))[i]))
    &&& (a.integration_types is Some <==> attr_lookup(entries, "integration_types"@) is Some)
    &&& (a.integration_types matches Some(v) ==> v@.len() == list_words(attr_lookup(entries, "integration_types"@)).len()
        && forall|i: int| 0 <= i < v@.len() ==> Some(#[trigger] v@[i]) == integration_type_of(list_words(attr_lookup(entries, "integration_types"@))[i]))
}

impl TypeAttribute {
    /// Parse the entries of a struct model's `#[command(...)]` attribute.
    pub fn parse(entries: Vec<(String, AttrValue)>) -> (r: Result<TypeAttribute, DeriveError>)
        ensures
            r is Ok <==> type_attribute_ok(entries@, model_keys()),
            match r {
                Ok(a) => type_attribute_read(entries@, a),
                Err(e) => type_attribute_error(entries@, model_keys(), e),
            },
    {
        let valid: [&str; 10] = [
            "autocomplete",
            "name",
            "name_localizations",
            "desc",
            "desc_localizations",
            "default_permissions",
            "dm_permission",
            "nsfw",
            "contexts",
            "integration_types",
        ];
        Self::parse_with(entries, &valid)
    }

    /// Parse the entries of a subcommand enum's `#[command(...)]` attribute.
    pub fn parse_group(entries: Vec<(String, AttrValue)>) -> (r: Result<TypeAttribute, DeriveError>)
        ensures
            r is Ok <==> type_attribute_ok(entries@, group_keys()),
            match r {
                Ok(a) => type_attribute_read(entries@, a),
                Err(e) => type_attribute_error(entries@, group_keys(), e),
            },
    {
        let valid: [&str; 9] = [
            "name",
            "name_localizations",
            "desc",
            "desc_localizations",
            "default_permissions",
            "dm_permission",
            "nsfw",
            "contexts",
            "integration_types",
        ];
        Self::parse_with(entries, &valid)
    }

    fn parse_with(entries: Vec<(String, AttrValue)>, valid: &[&str]) -> (r: Result<TypeAttribute, DeriveError>)
        ensures
            r is Ok <==> type_attribute_ok(entries@, valid@),
            match r {
                Ok(a) => type_attribute_read(entries@, a),
                Err(e) => type_attribute_error(entries@, valid@, e),
            },
    {
        let ghost entries_v = entries@;
        let attrs = match NamedAttrs::parse(entries, valid) {
            Ok(a) => a,
            Err(e) => return Err(e),
        };
        assert(attrs@ == entries_v);
        let autocomplete = match attrs.optional_bool("autocomplete") {
            Ok(v) => v,
            Err(e) => return Err(e),
        };
        let name = match attrs.optional_name("name") {
            Ok(v) => v,
            Err(e) => return Err(e),
        };
        let name_localizations = match attrs.optional_path("name_localizations") {
            Ok(v) => v,
            Err(e) => return Err(e),
        };
        let desc = match attrs.optional_desc("desc") {
            Ok(v) => v,
            Err(e) => return Err(e),
        };
        let desc_localizations = match attrs.optional_path("desc_localizations") {
            Ok(v) => v,
            Err(e) => return Err(e),
        };
        let default_permissions = match attrs.optional_path("default_permissions") {
            Ok(v) => v,
            Err(e) => return Err(e),
        };
        let dm_permission = match attrs.optional_bool("dm_permission") {
            Ok(v) => v,
            Err(e) => return Err(e),
        };
        let nsfw = match attrs.optional_bool("nsfw") {
            Ok(v) => v,
            Err(e) => return Err(e),
        };
        let contexts = match optional_contexts(&attrs, "contexts") {
            Ok(v) => v,
            Err(e) => return Err(e),
        };
        let integration_types = match optional_integrations(&attrs, "integration_types") {
            Ok(v) => v,
            Err(e) => return Err(e),
        };
        Ok(TypeAttribute {
            autocomplete,
            name,
            name_localizations,
            desc,
            desc_localizations,
            default_permissions,
            dm_permission,
            nsfw,
            contexts,
            integration_types,
        })
    }
}

/// Type of a parsed struct field.
#[derive(Debug, Clone, Copy, PartialEq, Eq, Structural)]
pub enum FieldType {
    Autocomplete,
    Optional,
    Required,
}

impl FieldType {
    pub fn required(&self) -> (r: bool)
        ensures
            r == (*self == FieldType::Required),
    {
        match self {
            FieldType::Required => true,
            FieldType::Autocomplete | FieldType::Optional => false,
        }
    }
}

/// The declared type of a field, as far as classification reads it.
#[derive(Debug)]
pub enum TypeRef {
    /// A single-segment path `name<args>` whose arguments are all types (no
    /// arguments: `args` is empty).
    Path { name: String, args: Vec<TypeRef> },
    /// Any other path type (several segments, a leading `::`, a qualified
    /// self type, or arguments that are not types), by its source text.
    OtherPath(String),
    /// A type that is not a path, by its source text.
    Other(String),
}

/// Whether a declared type is a path type.
pub open spec fn is_path_type(ty: TypeRef) -> bool {
    ty is Path || ty is OtherPath
}

/// The argument of `ty` when it is `name<T>` with exactly one argument.
pub open spec fn generic_arg(ty: TypeRef, name: Seq<char>) -> Option<TypeRef> {
    match ty {
        TypeRef::Path { name: n, args } => if n@ == name && args@.len() == 1 {
            Some(args@[0])
        } else {
            None
        },
        _ => None,
    }
}

/// Extract the generic argument of a single-segment path type named `name`
/// with exactly one argument, as `T` from `Option<T>`.
pub fn extract_generic<'a>(ty: &'a TypeRef, name: &str) -> (r: Option<&'a TypeRef>)
    ensures
        match r {
            Some(t) => generic_arg(*ty, name@) == Some(*t),
            None => generic_arg(*ty, name@) is None,
        },
{
    match ty {
        TypeRef::Path { name: n, args } => {
            if crate::chars::str_eq(n.as_str(), name) && args.len() == 1 {
                Some(&args[0])
            } else {
                None
            }
        },
        _ => None,
    }
}

/// Classification of a declared field type: its kind and base type, or the
/// error of an autocomplete value wrapped in an option.
pub open spec fn classify(ty: TypeRef) -> Result<(FieldType, TypeRef), DeriveError> {
    match generic_arg(ty, "Option"@) {
        Some(inner) => match generic_arg(inner, "AutocompleteValue"@) {
            Some(_) => Err(DeriveError::AutocompleteInOptional),
            None => Ok((FieldType::Optional, inner)),
        },
        None => match generic_arg(ty, "AutocompleteValue"@) {
            Some(inner) => Ok((FieldType::Autocomplete, inner)),
            None => Ok((FieldType::Required, ty)),
        },
    }
}

fn take_generic_arg(ty: TypeRef) -> (r: TypeRef)
    requires
        ty matches TypeRef::Path { args, .. } && args@.len() == 1,
    ensures
        ty matches TypeRef::Path { args, .. } && r == args@[0],
{
    match ty {
        TypeRef::Path { name: _, mut args } => args.remove(0),
        other => other,
    }
}

/// Classify a declared field type, stripping one `Option` or
/// `AutocompleteValue` layer.
pub fn classify_type(ty: TypeRef) -> (r: Result<(FieldType, TypeRef), DeriveError>)
    ensures
        r == classify(ty),
{
    if extract_generic(&ty, "Option").is_some() {
        let inner = take_generic_arg(ty);
        if extract_generic(&inner, "AutocompleteValue").is_some() {
            return Err(DeriveError::AutocompleteInOptional);
        }
        Ok((FieldType::Optional, inner))
    } else if extract_generic(&ty, "AutocompleteValue").is_some() {
        Ok((FieldType::Autocomplete, take_generic_arg(ty)))
    } else {
        Ok((FieldType::Required, ty))
    }
}

} // verus!
