//! Schema derivation: the declarative description of a command that is
//! registered with the platform.
use vstd::prelude::*;

use crate::channel::{ApplicationIntegrationType, ChannelType, InteractionContextType};
use crate::chars::{trim_str, trimmed};
use crate::choice::CommandOptionChoice;
use crate::command::{opt_view, CommandOptionValue, FieldType};
use crate::error::DeriveError;
use crate::attribute::AttrValue;
use crate::command::{classify, group_keys, model_keys, type_attribute_error, type_attribute_ok, type_attribute_read, TypeAttribute};
use crate::localization::{DescriptionLocalizations, LocaleMap, Localizations, NameLocalizations};
use crate::model::{entries_of, field_data, field_decl_error, field_decl_ok, field_decl_read, field_name, FieldDecl, StructField};
use crate::subcommand::{variant_decl_error, variant_decl_ok, ParsedVariant, VariantDecl};
use crate::naming::{valid_description, CommandDescription};
use crate::value::{option_type_of, CommandOptionType};

verus! {

/// Descriptor of one command option.
#[derive(Debug)]
pub struct CommandOption {
    pub kind: CommandOptionType,
    pub name: String,
    pub name_localizations: Option<LocaleMap>,
    pub description: String,
    pub description_localizations: Option<LocaleMap>,
    pub required: Option<bool>,
    pub autocomplete: Option<bool>,
    pub channel_types: Option<Vec<ChannelType>>,
    pub max_value: Option<CommandOptionValue>,
    pub min_value: Option<CommandOptionValue>,
    pub max_length: Option<u16>,
    pub min_length: Option<u16>,
    pub choices: Option<Vec<CommandOptionChoice>>,
    pub options: Option<Vec<CommandOption>>,
}

/// Schema of a command.
#[derive(Debug)]
pub struct ApplicationCommandData {
    pub name: String,
    pub name_localizations: Option<LocaleMap>,
    pub description: String,
    pub description_localizations: Option<LocaleMap>,
    pub options: Vec<CommandOption>,
    /// Default permissions required to run the command, as permission bits.
    pub default_member_permissions: Option<u64>,
    pub dm_permission: Option<bool>,
    pub nsfw: Option<bool>,
    /// Whether the options are subcommands or subcommand groups.
    pub group: bool,
    pub contexts: Option<Vec<InteractionContextType>>,
    pub integration_types: Option<Vec<ApplicationIntegrationType>>,
}

/// The description taken from a documentation comment's first line.
pub open spec fn doc_description(doc: Seq<char>) -> Result<Seq<char>, DeriveError> {
    if valid_description(trimmed(doc)) {
        Ok(trimmed(doc))
    } else {
        Err(DeriveError::DescriptionLength)
    }
}

/// Read a description from a documentation comment's first line: trimmed,
/// between 1 and 100 characters.
pub fn parse_doc(doc: &str) -> (r: Result<String, DeriveError>)
    ensures
        match r {
            Ok(s) => doc_description(doc@) == Ok::<_, DeriveError>(s@),
            Err(e) => doc_description(doc@) == Err::<Seq<char>, _>(e),
        },
{
    let t = trim_str(doc);
    let n = t.unicode_len();
    if n < 1 || n > 100 {
        return Err(DeriveError::DescriptionLength);
    }
    Ok(t.to_owned())
}

/// The description of an element and its localizations: an explicit
/// description, else the value of the localization function the attribute
/// names, else the documentation comment. An explicit description together
/// with a localization function is refused.
pub open spec fn describe(
    desc: Option<Seq<char>>,
    has_function: bool,
    loc: Option<DescriptionLocalizations>,
    doc: Option<Seq<char>>,
) -> Result<(Seq<char>, Option<LocaleMap>), DeriveError> {
    match desc {
        Some(d) => if has_function {
            Err(DeriveError::MutuallyExclusive)
        } else {
            Ok((d, None))
        },
        None => if has_function {
            match loc {
                Some(l) => Ok((l.fallback@, Some(l.localizations))),
                None => Err(DeriveError::MissingLocalization),
            }
        } else {
            match doc {
                Some(t) => match doc_description(t) {
                    Ok(s) => Ok((s, None)),
                    Err(e) => Err(e),
                },
                None => Err(DeriveError::MissingDescription),
            }
        },
    }
}

/// Resolve an element's description (see [`describe`]).
pub fn description_expr(
    desc: &Option<CommandDescription>,
    has_function: bool,
    loc: Option<DescriptionLocalizations>,
    doc: &Option<String>,
) -> (r: Result<(String, Option<LocaleMap>), DeriveError>)
    ensures
        match r {
            Ok((s, m)) => describe(opt_view(*desc), has_function, loc, opt_view(*doc)) == Ok::<_, DeriveError>((s@, m)),
            Err(e) => describe(opt_view(*desc), has_function, loc, opt_view(*doc)) == Err::<(Seq<char>, Option<LocaleMap>), _>(e),
        },
{
    match desc {
        Some(d) => {
            if has_function {
                Err(DeriveError::MutuallyExclusive)
            } else {
                Ok((d.as_str().to_owned(), None))
            }
        },
        None => {
            if has_function {
                match loc {
                    Some(l) => Ok((l.fallback, Some(l.localizations))),
                    None => Err(DeriveError::MissingLocalization),
                }
            } else {
                match doc {
                    Some(t) => match parse_doc(t.as_str()) {
                        Ok(s) => Ok((s, None)),
                        Err(e) => Err(e),
                    },
                    None => Err(DeriveError::MissingDescription),
                }
            }
        },
    }
}

/// The localizations of a name: the value of the localization function the
/// attribute names, if it names one.
pub open spec fn name_localized(has_function: bool, loc: Option<NameLocalizations>) -> Result<Option<LocaleMap>, DeriveError> {
    if has_function {
        match loc {
            Some(l) => Ok(Some(l.localizations)),
            None => Err(DeriveError::MissingLocalization),
        }
    } else {
        Ok(None)
    }
}

/// Resolve a name's localizations (see [`name_localized`]).
pub fn name_expr(has_function: bool, loc: Option<NameLocalizations>) -> (r: Result<Option<LocaleMap>, DeriveError>)
    ensures
        r == name_localized(has_function, loc),
{
    if has_function {
        match loc {
            Some(l) => Ok(Some(l.localizations)),
            None => Err(DeriveError::MissingLocalization),
        }
    } else {
        Ok(None)
    }
}

/// Whether required fields all precede optional ones.
pub open spec fn fields_ordered(fields: Seq<StructField>) -> bool {
    forall|i: int, j: int|
        0 <= i < j < fields.len() && (#[trigger] fields[i]).kind != FieldType::Required
            ==> (#[trigger] fields[j]).kind != FieldType::Required
}

/// An optional (or autocomplete) field declared before a required one breaks
/// the field order, so schema derivation fails.
pub proof fn lemma_optional_before_required(fields: Seq<StructField>, i: int, j: int)
    requires
        0 <= i < j < fields.len(),
        fields[i].kind != FieldType::Required,
        fields[j].kind == FieldType::Required,
    ensures
        !fields_ordered(fields),
{
}

/// Required fields followed only by optional (or autocomplete) ones are in
/// order.
pub proof fn lemma_required_then_optional(fields: Seq<StructField>, k: int)
    requires
        0 <= k <= fields.len(),
        forall|i: int| 0 <= i < k ==> (#[trigger] fields[i]).kind == FieldType::Required,
        forall|i: int| k <= i < fields.len() ==> (#[trigger] fields[i]).kind != FieldType::Required,
    ensures
        fields_ordered(fields),
{
}

/// Ensure optional fields come after required ones.
pub fn check_fields_order(fields: &Vec<StructField>) -> (r: Result<(), DeriveError>)
    ensures
        r is Ok <==> fields_ordered(fields@),
        r matches Err(e) ==> e == DeriveError::RequiredAfterOptional,
{
    let mut optional_seen = false;
    let mut first_optional: usize = 0;
    let mut i: usize = 0;
    while i < fields.len()
        invariant
            i <= fields@.len(),
            optional_seen ==> first_optional < i && fields@[first_optional as int].kind != FieldType::Required,
            !optional_seen ==> forall|j: int| 0 <= j < i ==> (#[trigger] fields@[j]).kind == FieldType::Required,
            optional_seen ==> forall|j: int| first_optional <= j < i ==> (#[trigger] fields@[j]).kind != FieldType::Required,
            fields_ordered(fields@.subrange(0, i as int)),
        decreases fields@.len() - i,
    {
        let required = fields[i].kind.required();
        if !optional_seen && !required {
            optional_seen = true;
            first_optional = i;
        }
        if optional_seen && required {
            assert(!fields_ordered(fields@)) by {
                assert(fields@[first_optional as int].kind != FieldType::Required);
                assert(fields@[i as int].kind == FieldType::Required);
            }
            return Err(DeriveError::RequiredAfterOptional);
        }
        i += 1;
        assert(fields_ordered(fields@.subrange(0, i as int))) by {
            let s = fields@.subrange(0, i as int);
            assert forall|a: int, b: int| 0 <= a < b < s.len() && (#[trigger] s[a]).kind != FieldType::Required
                implies (#[trigger] s[b]).kind != FieldType::Required by {
                assert(s[a] == fields@[a] && s[b] == fields@[b]);
            }
        }
    }
    assert(fields@.subrange(0, i as int) =~= fields@);
    Ok(())
}

/// Whether an option descriptor is the one a field gives.
pub open spec fn option_read(f: StructField, o: CommandOption) -> bool {
    &&& o.kind == option_type_of(f.value_type)
    &&& o.name@ == field_name(f)
    &&& name_localized(f.attributes.name_localizations is Some, f.localizations.name) == Ok::<_, DeriveError>(o.name_localizations)
    &&& describe(opt_view(f.attributes.desc), f.attributes.desc_localizations is Some, f.localizations.description, opt_view(f.doc))
        == Ok::<_, DeriveError>((o.description@, o.description_localizations))
    &&& o.required == Some(f.kind == FieldType::Required)
    &&& o.autocomplete == Some(f.attributes.autocomplete)
    &&& opt_view(o.channel_types) == field_data(f.attributes).channel_types
    &&& o.max_value == f.attributes.max_value
    &&& o.min_value == f.attributes.min_value
    &&& o.max_length == f.attributes.max_length
    &&& o.min_length == f.attributes.min_length
    &&& o.choices is None
    &&& o.options is None
}

/// Whether a field gives an option descriptor.
pub open spec fn option_ok(f: StructField) -> bool {
    &&& describe(opt_view(f.attributes.desc), f.attributes.desc_localizations is Some, f.localizations.description, opt_view(f.doc)) is Ok
    &&& name_localized(f.attributes.name_localizations is Some, f.localizations.name) is Ok
}

/// The error of a field that gives no option descriptor.
pub open spec fn option_error(f: StructField) -> DeriveError {
    match describe(opt_view(f.attributes.desc), f.attributes.desc_localizations is Some, f.localizations.description, opt_view(f.doc)) {
        Err(e) => e,
        Ok(_) => DeriveError::MissingLocalization,
    }
}

/// Build the option descriptor of a field.
pub fn field_option(f: StructField) -> (r: Result<CommandOption, DeriveError>)
    ensures
        r is Ok <==> option_ok(f),
        match r {
            Ok(o) => option_read(f, o),
            Err(e) => e == option_error(f),
        },
{
    let ghost fv = f;
    let name = f.name().to_owned();
    let kind = f.value_type.option_type();
    let data = f.attributes.option_data();
    let StructField { ident: _, ty: _, value_type: _, attributes, kind: field_kind, doc, localizations } = f;
    let (description, description_localizations) = match description_expr(
        &attributes.desc,
        attributes.desc_localizations.is_some(),
        localizations.description,
        &doc,
    ) {
        Ok(d) => d,
        Err(e) => return Err(e),
    };
    let name_localizations = match name_expr(attributes.name_localizations.is_some(), localizations.name) {
        Ok(l) => l,
        Err(e) => return Err(e),
    };
    Ok(CommandOption {
        kind,
        name,
        name_localizations,
        description,
        description_localizations,
        required: Some(field_kind == FieldType::Required),
        autocomplete: Some(attributes.autocomplete),
        channel_types: data.channel_types,
        max_value: data.max_value,
        min_value: data.min_value,
        max_length: data.max_length,
        min_length: data.min_length,
        choices: None,
        options: None,
    })
}

/// The option descriptor a field gives is determined by the field: two
/// derivations from one field agree on every part.
pub proof fn lemma_option_deterministic(f: StructField, o1: CommandOption, o2: CommandOption)
    requires
        option_read(f, o1),
        option_read(f, o2),
    ensures
        o1.kind == o2.kind,
        o1.name@ == o2.name@,
        o1.name_localizations == o2.name_localizations,
        o1.description@ == o2.description@,
        o1.description_localizations == o2.description_localizations,
        o1.required == o2.required,
        o1.autocomplete == o2.autocomplete,
        opt_view(o1.channel_types) == opt_view(o2.channel_types),
        o1.max_value == o2.max_value,
        o1.min_value == o2.min_value,
        o1.max_length == o2.max_length,
        o1.min_length == o2.min_length,
        o1.choices is None && o2.choices is None,
        o1.options is None && o2.options is None,
{
}

/// Two schemas derived from the same parsed fields list the same options, in
/// the fields' declaration order.
pub proof fn lemma_options_in_declaration_order(fs: Seq<StructField>, c1: ApplicationCommandData, c2: ApplicationCommandData)
    requires
        c1.options@.len() == fs.len() && forall|i: int| 0 <= i < fs.len() ==> option_read(#[trigger] fs[i], c1.options@[i]),
        c2.options@.len() == fs.len() && forall|i: int| 0 <= i < fs.len() ==> option_read(#[trigger] fs[i], c2.options@[i]),
    ensures
        c1.options@.len() == c2.options@.len(),
        forall|i: int| 0 <= i < fs.len() ==> (#[trigger] c1.options@[i]).name@ == c2.options@[i].name@ && c1.options@[i].name@ == field_name(fs[i])
            && c1.options@[i].kind == c2.options@[i].kind && c1.options@[i].description@ == c2.options@[i].description@
            && c1.options@[i].required == c2.options@[i].required,
{
    assert forall|i: int| 0 <= i < fs.len() implies (#[trigger] c1.options@[i]).name@ == c2.options@[i].name@ && c1.options@[i].name@ == field_name(fs[i])
        && c1.options@[i].kind == c2.options@[i].kind && c1.options@[i].description@ == c2.options@[i].description@
        && c1.options@[i].required == c2.options@[i].required by {
        assert(option_read(fs[i], c1.options@[i]));
        assert(option_read(fs[i], c2.options@[i]));
    }
}

/// Whether two option descriptors agree on every part.
pub open spec fn options_agree(o1: CommandOption, o2: CommandOption) -> bool {
    &&& o1.kind == o2.kind
    &&& o1.name@ == o2.name@
    &&& o1.name_localizations == o2.name_localizations
    &&& o1.description@ == o2.description@
    &&& o1.description_localizations == o2.description_localizations
    &&& o1.required == o2.required
    &&& o1.autocomplete == o2.autocomplete
    &&& opt_view(o1.channel_types) == opt_view(o2.channel_types)
    &&& o1.max_value == o2.max_value
    &&& o1.min_value == o2.min_value
    &&& o1.max_length == o2.max_length
    &&& o1.min_length == o2.min_length
    &&& o1.choices is None && o2.choices is None
    &&& o1.options is None && o2.options is None
}

/// Whether two schemas of struct models agree on every part, options in
/// order.
pub open spec fn schemas_agree(c1: ApplicationCommandData, c2: ApplicationCommandData) -> bool {
    &&& c1.name@ == c2.name@
    &&& c1.name_localizations == c2.name_localizations
    &&& c1.description@ == c2.description@
    &&& c1.description_localizations == c2.description_localizations
    &&& c1.default_member_permissions == c2.default_member_permissions
    &&& c1.dm_permission == c2.dm_permission
    &&& c1.nsfw == c2.nsfw
    &&& c1.group == c2.group
    &&& opt_view(c1.contexts) == opt_view(c2.contexts)
    &&& opt_view(c1.integration_types) == opt_view(c2.integration_types)
    &&& c1.options@.len() == c2.options@.len()
    &&& forall|i: int| 0 <= i < c1.options@.len() ==> options_agree(#[trigger] c1.options@[i], c2.options@[i])
}

proof fn lemma_field_reads_agree(d: FieldDecl, f1: StructField, f2: StructField)
    requires
        field_decl_read(d, f1),
        field_decl_read(d, f2),
    ensures
        f1.kind == f2.kind,
        f1.value_type == f2.value_type,
        field_name(f1) == field_name(f2),
        opt_view(f1.attributes.desc) == opt_view(f2.attributes.desc),
        f1.attributes.desc_localizations is Some <==> f2.attributes.desc_localizations is Some,
        f1.attributes.name_localizations is Some <==> f2.attributes.name_localizations is Some,
        f1.localizations == f2.localizations,
        opt_view(f1.doc) == opt_view(f2.doc),
        field_data(f1.attributes) == field_data(f2.attributes),
        f1.attributes.autocomplete == f2.attributes.autocomplete,
        option_ok(f1) == option_ok(f2),
{
    let c1 = f1.attributes.channel_types@;
    let c2 = f2.attributes.channel_types@;
    assert forall|i: int| 0 <= i < c1.len() implies c1[i] == c2[i] by {
        assert(Some(c1[i]) == Some(c2[i]));
    }
    assert(c1 =~= c2);
}

proof fn lemma_type_reads_agree(entries: Seq<(String, AttrValue)>, a1: TypeAttribute, a2: TypeAttribute)
    requires
        type_attribute_read(entries, a1),
        type_attribute_read(entries, a2),
    ensures
        a1.autocomplete == a2.autocomplete,
        opt_view(a1.name) == opt_view(a2.name),
        opt_view(a1.desc) == opt_view(a2.desc),
        a1.name_localizations is Some <==> a2.name_localizations is Some,
        a1.desc_localizations is Some <==> a2.desc_localizations is Some,
        a1.default_permissions is Some <==> a2.default_permissions is Some,
        a1.dm_permission == a2.dm_permission,
        a1.nsfw == a2.nsfw,
        opt_view(a1.contexts) == opt_view(a2.contexts),
        opt_view(a1.integration_types) == opt_view(a2.integration_types),
{
    if a1.contexts is Some {
        let v1 = a1.contexts->0@;
        let v2 = a2.contexts->0@;
        assert forall|i: int| 0 <= i < v1.len() implies v1[i] == v2[i] by {
            assert(Some(v1[i]) == Some(v2[i]));
        }
        assert(v1 =~= v2);
    }
    if a1.integration_types is Some {
        let v1 = a1.integration_types->0@;
        let v2 = a2.integration_types->0@;
        assert forall|i: int| 0 <= i < v1.len() implies v1[i] == v2[i] by {
            assert(Some(v1[i]) == Some(v2[i]));
        }
        assert(v1 =~= v2);
    }
}

/// Schema derivation is deterministic: two derivations from one declaration
/// either both fail or both succeed, and then agree on every part of the
/// schema, the options in the fields' declaration order.
pub proof fn lemma_create_command_deterministic(
    d: CommandDecl,
    decls: Seq<FieldDecl>,
    r1: Result<ApplicationCommandData, DeriveError>,
    r2: Result<ApplicationCommandData, DeriveError>,
)
    requires
        create_command_post(d, decls, r1),
        create_command_post(d, decls, r2),
    ensures
        r1 is Ok <==> r2 is Ok,
        r1 is Ok && r2 is Ok ==> schemas_agree(r1->Ok_0, r2->Ok_0),
{
    if (forall|i: int| 0 <= i < decls.len() ==> field_decl_ok(#[trigger] decls[i])) && decls_ordered(decls)
        && d.attribute is Some && type_attribute_ok(entries_of(d.attribute), model_keys()) {
        let (a1, fs1) = choose|a: TypeAttribute, fs: Seq<StructField>|
            command_attribute_read(d, model_keys(), a) && fields_read(decls, fs) && #[trigger] create_outcome(a, d, fs, r1);
        let (a2, fs2) = choose|a: TypeAttribute, fs: Seq<StructField>|
            command_attribute_read(d, model_keys(), a) && fields_read(decls, fs) && #[trigger] create_outcome(a, d, fs, r2);
        lemma_type_reads_agree(entries_of(d.attribute), a1, a2);
        assert(head_ok(a1, d) == head_ok(a2, d));
        assert(fs1.len() == fs2.len());
        if forall|i: int| 0 <= i < fs1.len() ==> option_ok(#[trigger] fs1[i]) {
            assert forall|i: int| 0 <= i < fs2.len() implies option_ok(#[trigger] fs2[i]) by {
                lemma_field_reads_agree(decls[i], fs1[i], fs2[i]);
            }
        }
        if forall|i: int| 0 <= i < fs2.len() ==> option_ok(#[trigger] fs2[i]) {
            assert forall|i: int| 0 <= i < fs1.len() implies option_ok(#[trigger] fs1[i]) by {
                lemma_field_reads_agree(decls[i], fs1[i], fs2[i]);
            }
        }
        assert(create_outcome(a1, d, fs1, r1));
        assert(create_outcome(a2, d, fs2, r2));
        if r1 is Ok && r2 is Ok {
            let c1 = r1->Ok_0;
            let c2 = r2->Ok_0;
            assert forall|i: int| 0 <= i < c1.options@.len() implies options_agree(#[trigger] c1.options@[i], c2.options@[i]) by {
                lemma_field_reads_agree(decls[i], fs1[i], fs2[i]);
                assert(option_read(fs1[i], c1.options@[i]));
                assert(option_read(fs2[i], c2.options@[i]));
            }
        }
    }
}

/// Build the option descriptors of fields, in order.
pub fn field_options(fields: Vec<StructField>) -> (r: Result<Vec<CommandOption>, DeriveError>)
    ensures
        r is Ok <==> forall|i: int| 0 <= i < fields@.len() ==> option_ok(#[trigger] fields@[i]),
        match r {
            Ok(v) => v@.len() == fields@.len() && forall|i: int| 0 <= i < v@.len() ==> option_read(#[trigger] fields@[i], v@[i]),
            Err(e) => exists|i: int|
                0 <= i < fields@.len() && !option_ok(#[trigger] fields@[i]) && e == option_error(fields@[i])
                && forall|j: int| 0 <= j < i ==> option_ok(#[trigger] fields@[j]),
        },
{
    let ghost orig = fields@;
    let total = fields.len();
    let mut rest = fields;
    let mut out: Vec<CommandOption> = Vec::new();
    let mut n: usize = 0;
    while rest.len() > 0
        invariant
            orig == fields@,
            total == orig.len(),
            n <= total,
            rest@ == orig.subrange(n as int, total as int),
            out@.len() == n,
            forall|i: int| 0 <= i < n ==> option_ok(#[trigger] orig[i]),
            forall|i: int| 0 <= i < n ==> option_read(#[trigger] orig[i], out@[i]),
        decreases rest@.len(),
    {
        let f = rest.remove(0);
        assert(f == orig[n as int]);
        match field_option(f) {
            Ok(o) => out.push(o),
            Err(e) => return Err(e),
        }
        n += 1;
        assert(rest@ =~= orig.subrange(n as int, total as int));
    }
    Ok(out)
}

/// A command type as declared, beside its fields or variants.
#[derive(Debug)]
pub struct CommandDecl {
    /// Entries of the type's `#[command(...)]` attribute, if it has one.
    pub attribute: Option<Vec<(String, AttrValue)>>,
    /// First line of the type's documentation comment.
    pub doc: Option<String>,
    /// Values of the localization functions the attribute names.
    pub localizations: Localizations,
    /// Value of the function that `default_permissions` names, as permission
    /// bits.
    pub default_permissions: Option<u64>,
}

/// Whether a type attribute and declaration give a command's name and
/// description.
pub open spec fn head_ok(a: TypeAttribute, d: CommandDecl) -> bool {
    &&& a.name is Some
    &&& describe(opt_view(a.desc), a.desc_localizations is Some, d.localizations.description, opt_view(d.doc)) is Ok
    &&& name_localized(a.name_localizations is Some, d.localizations.name) is Ok
}

/// The error of a type attribute and declaration that give no name or
/// description.
pub open spec fn head_error(a: TypeAttribute, d: CommandDecl) -> DeriveError {
    if a.name is None {
        DeriveError::MissingName
    } else {
        match describe(opt_view(a.desc), a.desc_localizations is Some, d.localizations.description, opt_view(d.doc)) {
            Err(e) => e,
            Ok(_) => DeriveError::MissingLocalization,
        }
    }
}

/// Whether a schema's type-level parts are those of a type attribute and
/// declaration.
pub open spec fn head_read(a: TypeAttribute, d: CommandDecl, c: ApplicationCommandData) -> bool {
    &&& a.name matches Some(n) && c.name@ == n@
    &&& name_localized(a.name_localizations is Some, d.localizations.name) == Ok::<_, DeriveError>(c.name_localizations)
    &&& describe(opt_view(a.desc), a.desc_localizations is Some, d.localizations.description, opt_view(d.doc))
        == Ok::<_, DeriveError>((c.description@, c.description_localizations))
    &&& c.default_member_permissions == (if a.default_permissions is Some { d.default_permissions } else { None })
    &&& c.dm_permission == a.dm_permission
    &&& c.nsfw == a.nsfw
    &&& c.contexts == a.contexts
    &&& c.integration_types == a.integration_types
}

/// The type-level parts of a schema are determined by the type attribute and
/// declaration: two derivations from one declaration agree on them.
pub proof fn lemma_head_deterministic(a: TypeAttribute, d: CommandDecl, c1: ApplicationCommandData, c2: ApplicationCommandData)
    requires
        head_read(a, d, c1),
        head_read(a, d, c2),
    ensures
        c1.name@ == c2.name@,
        c1.name_localizations == c2.name_localizations,
        c1.description@ == c2.description@,
        c1.description_localizations == c2.description_localizations,
        c1.default_member_permissions == c2.default_member_permissions,
        c1.dm_permission == c2.dm_permission,
        c1.nsfw == c2.nsfw,
        c1.contexts == c2.contexts,
        c1.integration_types == c2.integration_types,
{
}

/// The type-level parts of a schema.
struct CommandHead {
    name: String,
    name_localizations: Option<LocaleMap>,
    description: String,
    description_localizations: Option<LocaleMap>,
    default_member_permissions: Option<u64>,
    dm_permission: Option<bool>,
    nsfw: Option<bool>,
    contexts: Option<Vec<InteractionContextType>>,
    integration_types: Option<Vec<ApplicationIntegrationType>>,
}

fn assemble(h: CommandHead, options: Vec<CommandOption>, group: bool) -> (c: ApplicationCommandData)
    ensures
        c.name == h.name,
        c.name_localizations == h.name_localizations,
        c.description == h.description,
        c.description_localizations == h.description_localizations,
        c.default_member_permissions == h.default_member_permissions,
        c.dm_permission == h.dm_permission,
        c.nsfw == h.nsfw,
        c.contexts == h.contexts,
        c.integration_types == h.integration_types,
        c.options == options,
        c.group == group,
{
    ApplicationCommandData {
        name: h.name,
        name_localizations: h.name_localizations,
        description: h.description,
        description_localizations: h.description_localizations,
        options,
        default_member_permissions: h.default_member_permissions,
        dm_permission: h.dm_permission,
        nsfw: h.nsfw,
        group,
        contexts: h.contexts,
        integration_types: h.integration_types,
    }
}

/// Resolve the type-level parts of a schema.
fn command_head(a: TypeAttribute, d: CommandDecl) -> (r: Result<CommandHead, DeriveError>)
    ensures
        r is Ok <==> head_ok(a, d),
        match r {
            Ok(h) => forall|c: ApplicationCommandData|
                c.name == h.name && c.name_localizations == h.name_localizations && c.description == h.description
                && c.description_localizations == h.description_localizations
                && c.default_member_permissions == h.default_member_permissions && c.dm_permission == h.dm_permission
                && c.nsfw == h.nsfw && c.contexts == h.contexts && c.integration_types == h.integration_types
                ==> #[trigger] head_read(a, d, c),
            Err(e) => e == head_error(a, d),
        },
{
    let TypeAttribute {
        autocomplete: _,
        name,
        name_localizations,
        desc,
        desc_localizations,
        default_permissions,
        dm_permission,
        nsfw,
        contexts,
        integration_types,
    } = a;
    let CommandDecl { attribute: _, doc, localizations, default_permissions: permissions } = d;
    let name = match name {
        Some(n) => n.into_string(),
        None => return Err(DeriveError::MissingName),
    };
    let (description, description_localizations) = match description_expr(
        &desc,
        desc_localizations.is_some(),
        localizations.description,
        &doc,
    ) {
        Ok(x) => x,
        Err(e) => return Err(e),
    };
    let name_localizations = match name_expr(name_localizations.is_some(), localizations.name) {
        Ok(l) => l,
        Err(e) => return Err(e),
    };
    let default_member_permissions = if default_permissions.is_some() {
        permissions
    } else {
        None
    };
    Ok(CommandHead {
        name,
        name_localizations,
        description,
        description_localizations,
        default_member_permissions,
        dm_permission,
        nsfw,
        contexts,
        integration_types,
    })
}

/// Whether the fields of parsed declarations, by kind, put required fields
/// before optional ones.
pub open spec fn decls_ordered(fields: Seq<FieldDecl>) -> bool {
    forall|i: int, j: int|
        0 <= i < j < fields.len() && (#[trigger] classify(fields[i].ty))->Ok_0.0 != FieldType::Required
            ==> (#[trigger] classify(fields[j].ty))->Ok_0.0 != FieldType::Required
}

/// Whether `fs` are the parsed forms of field declarations.
pub open spec fn fields_read(decls: Seq<FieldDecl>, fs: Seq<StructField>) -> bool {
    fs.len() == decls.len() && forall|i: int| 0 <= i < decls.len() ==> field_decl_read(#[trigger] decls[i], fs[i])
}

/// The type attribute of a command declaration, when it is present and reads.
pub open spec fn command_attribute_read(d: CommandDecl, keys: Seq<&str>, a: TypeAttribute) -> bool {
    d.attribute is Some && type_attribute_ok(entries_of(d.attribute), keys) && type_attribute_read(entries_of(d.attribute), a)
}

/// The outcome of building a struct model's schema from its parsed type
/// attribute and fields.
pub open spec fn create_outcome(a: TypeAttribute, d: CommandDecl, fs: Seq<StructField>, r: Result<ApplicationCommandData, DeriveError>) -> bool {
    if a.autocomplete == Some(true) {
        r == Err::<ApplicationCommandData, _>(DeriveError::PartialModel)
    } else if !head_ok(a, d) {
        r == Err::<ApplicationCommandData, _>(head_error(a, d))
    } else if !(forall|i: int| 0 <= i < fs.len() ==> option_ok(#[trigger] fs[i])) {
        r matches Err(e) && exists|i: int|
            0 <= i < fs.len() && !option_ok(#[trigger] fs[i]) && e == option_error(fs[i])
            && forall|j: int| 0 <= j < i ==> option_ok(#[trigger] fs[j])
    } else {
        r matches Ok(c) && head_read(a, d, c) && !c.group && c.options@.len() == fs.len()
            && forall|i: int| 0 <= i < fs.len() ==> option_read(#[trigger] fs[i], c.options@[i])
    }
}

/// What deriving a struct model's schema gives: the first field that fails
/// to parse, then the field order, the type attribute (present, readable, not
/// a partial model, with a name and a description), then the fields' option
/// descriptors.
pub open spec fn create_command_post(d: CommandDecl, decls: Seq<FieldDecl>, r: Result<ApplicationCommandData, DeriveError>) -> bool {
    &&& (!(forall|i: int| 0 <= i < decls.len() ==> field_decl_ok(#[trigger] decls[i])) ==> (r matches Err(e) && exists|i: int|
            0 <= i < decls.len() && field_decl_error(#[trigger] decls[i], e) && !field_decl_ok(decls[i])
            && forall|j: int| 0 <= j < i ==> field_decl_ok(#[trigger] decls[j])))
    &&& ((forall|i: int| 0 <= i < decls.len() ==> field_decl_ok(#[trigger] decls[i])) ==> {
            if !decls_ordered(decls) {
                r == Err::<ApplicationCommandData, _>(DeriveError::RequiredAfterOptional)
            } else if d.attribute is None {
                r == Err::<ApplicationCommandData, _>(DeriveError::MissingAttribute)
            } else if !type_attribute_ok(entries_of(d.attribute), model_keys()) {
                r matches Err(e) && type_attribute_error(entries_of(d.attribute), model_keys(), e)
            } else {
                exists|a: TypeAttribute, fs: Seq<StructField>|
                    command_attribute_read(d, model_keys(), a) && fields_read(decls, fs) && #[trigger] create_outcome(a, d, fs, r)
            }
        })
}

/// Build the schema of a struct command model.
///
/// The fields are parsed and must put required fields before optional ones;
/// the type needs its `#[command(...)]` attribute, with a name, must not be a
/// partial (autocomplete) model, and needs a description. Options follow the
/// fields' declaration order.
pub fn create_command(d: CommandDecl, fields: Vec<FieldDecl>) -> (r: Result<ApplicationCommandData, DeriveError>)
    ensures
        create_command_post(d, fields@, r),
{
    let ghost decls = fields@;
    let ghost dv = d;
    let fields = match StructField::from_fields(fields) {
        Ok(f) => f,
        Err(e) => return Err(e),
    };
    let ghost fs = fields@;
    assert(fields_read(decls, fs));
    match check_fields_order(&fields) {
        Ok(()) => {},
        Err(e) => {
            assert(!decls_ordered(decls)) by {
                let (i, j) = choose|i: int, j: int|
                    0 <= i < j < fs.len() && (#[trigger] fs[i]).kind != FieldType::Required
                        && (#[trigger] fs[j]).kind == FieldType::Required;
                assert(field_decl_read(decls[i], fs[i]) && field_decl_read(decls[j], fs[j]));
            }
            return Err(e);
        },
    }
    assert(decls_ordered(decls)) by {
        assert forall|i: int, j: int|
            0 <= i < j < decls.len() && (#[trigger] classify(decls[i].ty))->Ok_0.0 != FieldType::Required
                implies (#[trigger] classify(decls[j].ty))->Ok_0.0 != FieldType::Required by {
            assert(field_decl_read(decls[i], fs[i]) && field_decl_read(decls[j], fs[j]));
        }
    }
    let CommandDecl { attribute, doc, localizations, default_permissions } = d;
    let entries = match attribute {
        Some(e) => e,
        None => return Err(DeriveError::MissingAttribute),
    };
    let a = match TypeAttribute::parse(entries) {
        Ok(a) => a,
        Err(e) => return Err(e),
    };
    let d = CommandDecl { attribute: None, doc, localizations, default_permissions };
    assert(command_attribute_read(dv, model_keys(), a));
    let ghost av = a;
    if a.autocomplete == Some(true) {
        assert(create_outcome(av, dv, fs, Err(DeriveError::PartialModel)));
        return Err(DeriveError::PartialModel);
    }
    let ghost dw = d;
    assert(dw.doc == dv.doc && dw.localizations == dv.localizations && dw.default_permissions == dv.default_permissions);
    let head = match command_head(a, d) {
        Ok(h) => h,
        Err(e) => {
            assert(create_outcome(av, dv, fs, Err(e)));
            return Err(e);
        },
    };
    let options = match field_options(fields) {
        Ok(o) => o,
        Err(e) => {
            assert(create_outcome(av, dv, fs, Err(e)));
            return Err(e);
        },
    };
    let c = assemble(head, options, false);
    assert(head_read(av, dw, c));
    assert(head_read(av, dv, c));
    assert(create_outcome(av, dv, fs, Ok(c)));
    Ok(c)
}

/// Whether an option descriptor nests a command's schema as a subcommand
/// (or subcommand group, for a group schema).
pub open spec fn subcommand_read(c: ApplicationCommandData, o: CommandOption) -> bool {
    &&& o.kind == (if c.group { CommandOptionType::SubCommandGroup } else { CommandOptionType::SubCommand })
    &&& o.name == c.name
    &&& o.name_localizations == c.name_localizations
    &&& o.description == c.description
    &&& o.description_localizations == c.description_localizations
    &&& o.required is None
    &&& o.autocomplete == Some(false)
    &&& o.channel_types is None
    &&& o.max_value is None
    &&& o.min_value is None
    &&& o.max_length is None
    &&& o.min_length is None
    &&& o.choices is None
    &&& o.options == Some(c.options)
}

impl ApplicationCommandData {
    /// Nest this schema as a subcommand option, or a subcommand group option
    /// when it is a group.
    pub fn into_option(self) -> (o: CommandOption)
        ensures
            subcommand_read(self, o),
    {
        let kind = if self.group {
            CommandOptionType::SubCommandGroup
        } else {
            CommandOptionType::SubCommand
        };
        CommandOption {
            kind,
            name: self.name,
            name_localizations: self.name_localizations,
            description: self.description,
            description_localizations: self.description_localizations,
            required: None,
            autocomplete: Some(false),
            channel_types: None,
            max_value: None,
            min_value: None,
            max_length: None,
            min_length: None,
            choices: None,
            options: Some(self.options),
        }
    }
}

/// The outcome of building a subcommand group's schema from its parsed type
/// attribute and its variants' schemas.
pub open spec fn group_outcome(a: TypeAttribute, d: CommandDecl, commands: Seq<ApplicationCommandData>, r: Result<ApplicationCommandData, DeriveError>) -> bool {
    if !head_ok(a, d) {
        r == Err::<ApplicationCommandData, _>(head_error(a, d))
    } else {
        r matches Ok(c) && head_read(a, d, c) && c.group && c.options@.len() == commands.len()
            && forall|i: int| 0 <= i < commands.len() ==> subcommand_read(#[trigger] commands[i], c.options@[i])
    }
}

/// The schemas given with the variants, in order.
pub open spec fn variant_schemas(pairs: Seq<(VariantDecl, ApplicationCommandData)>) -> Seq<ApplicationCommandData> {
    pairs.map_values(|p: (VariantDecl, ApplicationCommandData)| p.1)
}

/// Build the schema of a subcommand enum from its variants, each given with
/// the schema of its type; each schema becomes a nested option, in variant
/// order.
pub fn create_group_command(d: CommandDecl, variants: Vec<(VariantDecl, ApplicationCommandData)>) -> (r: Result<ApplicationCommandData, DeriveError>)
    ensures
        variants@.len() == 0 ==> r == Err::<ApplicationCommandData, _>(DeriveError::EmptyEnum),
        variants@.len() > 0 && !(forall|i: int| 0 <= i < variants@.len() ==> variant_decl_ok(#[trigger] variants@[i].0)) ==> (r matches Err(e)
            && exists|i: int|
                0 <= i < variants@.len() && !variant_decl_ok(#[trigger] variants@[i].0) && variant_decl_error(variants@[i].0, e)
                && forall|j: int| 0 <= j < i ==> variant_decl_ok(#[trigger] variants@[j].0)),
        (variants@.len() > 0 && forall|i: int| 0 <= i < variants@.len() ==> variant_decl_ok(#[trigger] variants@[i].0)) ==> {
            if d.attribute is None {
                r == Err::<ApplicationCommandData, _>(DeriveError::MissingAttribute)
            } else if !type_attribute_ok(entries_of(d.attribute), group_keys()) {
                r matches Err(e) && type_attribute_error(entries_of(d.attribute), group_keys(), e)
            } else {
                exists|a: TypeAttribute|
                    command_attribute_read(d, group_keys(), a) && #[trigger] group_outcome(a, d, variant_schemas(variants@), r)
            }
        },
{
    let ghost dv = d;
    let ghost pairs = variants@;
    let ghost cmds = variant_schemas(pairs);
    let total = variants.len();
    let mut rest = variants;
    let mut decls: Vec<VariantDecl> = Vec::new();
    let mut commands: Vec<ApplicationCommandData> = Vec::new();
    let mut n: usize = 0;
    while rest.len() > 0
        invariant
            total == pairs.len(),
            n <= total,
            rest@ == pairs.subrange(n as int, total as int),
            decls@.len() == n,
            commands@.len() == n,
            forall|i: int| 0 <= i < n ==> (#[trigger] decls@[i]) == pairs[i].0,
            forall|i: int| 0 <= i < n ==> (#[trigger] commands@[i]) == pairs[i].1,
        decreases rest@.len(),
    {
        let (v, c) = rest.remove(0);
        assert((v, c) == pairs[n as int]);
        decls.push(v);
        commands.push(c);
        n += 1;
        assert(rest@ =~= pairs.subrange(n as int, total as int));
    }
    assert(commands@ =~= cmds);
    let ghost dseq = decls@;
    match ParsedVariant::from_variants(decls) {
        Ok(_) => {},
        Err(e) => {
            if total > 0 {
                let ghost i = choose|i: int|
                    0 <= i < dseq.len() && !variant_decl_ok(#[trigger] dseq[i]) && variant_decl_error(dseq[i], e)
                    && forall|j: int| 0 <= j < i ==> variant_decl_ok(#[trigger] dseq[j]);
                assert(dseq[i] == pairs[i].0);
                assert forall|j: int| 0 <= j < i implies variant_decl_ok(#[trigger] pairs[j].0) by {
                    assert(dseq[j] == pairs[j].0);
                }
            }
            return Err(e);
        },
    }
    assert forall|i: int| 0 <= i < pairs.len() implies variant_decl_ok(#[trigger] pairs[i].0) by {
        assert(dseq[i] == pairs[i].0);
    }
    let CommandDecl { attribute, doc, localizations, default_permissions } = d;
    let entries = match attribute {
        Some(e) => e,
        None => return Err(DeriveError::MissingAttribute),
    };
    let a = match TypeAttribute::parse_group(entries) {
        Ok(a) => a,
        Err(e) => return Err(e),
    };
    let d = CommandDecl { attribute: None, doc, localizations, default_permissions };
    assert(command_attribute_read(dv, group_keys(), a));
    let ghost av = a;
    let ghost dw = d;
    assert(dw.doc == dv.doc && dw.localizations == dv.localizations && dw.default_permissions == dv.default_permissions);
    let head = match command_head(a, d) {
        Ok(h) => h,
        Err(e) => {
            assert(group_outcome(av, dv, cmds, Err(e)));
            return Err(e);
        },
    };
    let mut rest = commands;
    let mut options: Vec<CommandOption> = Vec::new();
    let mut n: usize = 0;
    while rest.len() > 0
        invariant
            total == cmds.len(),
            n <= total,
            rest@ == cmds.subrange(n as int, total as int),
            options@.len() == n,
            forall|i: int| 0 <= i < n ==> subcommand_read(#[trigger] cmds[i], options@[i]),
        decreases rest@.len(),
    {
        let c = rest.remove(0);
        assert(c == cmds[n as int]);
        options.push(c.into_option());
        n += 1;
        assert(rest@ =~= cmds.subrange(n as int, total as int));
    }
    let c = assemble(head, options, true);
    assert(head_read(av, dw, c));
    assert(head_read(av, dv, c));
    assert(group_outcome(av, dv, cmds, Ok(c)));
    Ok(c)
}

} // verus!
