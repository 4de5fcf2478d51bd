//! Subcommand enums: each variant wraps one command model (or group) under a
//! subcommand name, and received data is dispatched on the first option's
//! name.
use vstd::prelude::*;

use crate::attribute::{
    all_keys_allowed, attr_lookup, invalid_argument_error, read_name, AttrValue,
    NamedAttrs,
};
use crate::chars::str_eq;
use crate::command::{is_path_type, TypeRef};
use crate::error::{DeriveError, ParseError, ParseOptionError, ParseOptionErrorType};
use crate::model::{entries_of, CommandInputData};
use crate::naming::CommandName;
use crate::value::{kind_of, CommandDataOption, OptionValue, ResolvedData};

verus! {

/// The fields of an enum variant as declared.
#[derive(Debug)]
pub enum VariantFields {
    Unit,
    Named(usize),
    Unnamed(Vec<TypeRef>),
}

/// An enum variant as declared.
#[derive(Debug)]
pub struct VariantDecl {
    pub ident: String,
    pub fields: VariantFields,
    /// Entries of the variant's `#[command(...)]` attribute, if it has one.
    pub attribute: Option<Vec<(String, AttrValue)>>,
}

/// Parsed variant attribute: the subcommand name.
#[derive(Debug)]
pub struct VariantAttribute {
    pub name: CommandName,
}

/// Keys allowed in a subcommand variant's attribute.
pub open spec fn variant_keys() -> Seq<&'static str> {
    seq!["name"]
}

/// The subcommand name a variant attribute reads to (`None` when it is
/// missing), or the error of reading it.
pub open spec fn variant_attribute(entries: Seq<(String, AttrValue)>) -> Result<Option<Seq<char>>, DeriveError> {
    read_name(attr_lookup(entries, "name"@))
}

impl VariantAttribute {
    /// Parse a variant's attribute; `name` is required.
    pub fn parse(entries: Vec<(String, AttrValue)>) -> (r: Result<VariantAttribute, DeriveError>)
        ensures
            r is Ok <==> (all_keys_allowed(entries@, variant_keys()) && (variant_attribute(entries@) matches Ok(Some(_)))),
            match r {
                Ok(a) => variant_attribute(entries@) == Ok::<_, DeriveError>(Some(a.name@)),
                Err(e) => if !all_keys_allowed(entries@, variant_keys()) {
                    invalid_argument_error(entries@, variant_keys(), e)
                } else {
                    match variant_attribute(entries@) {
                        Ok(None) => e matches DeriveError::MissingArgument(k) && k@ == "name"@,
                        Err(x) => e == x,
                        Ok(Some(_)) => false,
                    }
                },
            },
    {
        let valid: [&str; 1] = ["name"];
        let keys: &[&str] = &valid;
        assert(keys@ == variant_keys());
        let ghost entries_v = entries@;
        let attrs = match NamedAttrs::parse(entries, keys) {
            Ok(a) => a,
            Err(e) => return Err(e),
        };
        assert(attrs@ == entries_v);
        match attrs.optional_name("name") {
            Ok(Some(name)) => Ok(VariantAttribute { name }),
            Ok(None) => Err(DeriveError::MissingArgument("name".to_owned())),
            Err(e) => {
                assert(read_name(attr_lookup(entries_v, "name"@)) is Err);
                Err(e)
            },
        }
    }
}

/// Parsed subcommand variant.
#[derive(Debug)]
pub struct ParsedVariant {
    pub ident: String,
    pub attribute: VariantAttribute,
    /// The type of the variant's single field.
    pub inner: TypeRef,
}

/// Whether a variant declaration has the shape of a subcommand variant: one
/// unnamed field of a path type.
pub open spec fn variant_shape_ok(d: VariantDecl) -> bool {
    d.fields matches VariantFields::Unnamed(tys) && tys@.len() == 1 && is_path_type(tys@[0])
}

/// Whether a variant declaration parses.
pub open spec fn variant_decl_ok(d: VariantDecl) -> bool {
    &&& variant_shape_ok(d)
    &&& d.attribute is Some
    &&& all_keys_allowed(entries_of(d.attribute), variant_keys())
    &&& (variant_attribute(entries_of(d.attribute)) matches Ok(Some(_)))
}

/// The shape error of a variant declaration.
pub open spec fn variant_shape_error(d: VariantDecl) -> DeriveError {
    match d.fields {
        VariantFields::Unnamed(tys) => if tys@.len() != 1 {
            DeriveError::NotSingleUnnamedField
        } else {
            DeriveError::UnsupportedFieldType
        },
        _ => DeriveError::NotUnnamedVariant,
    }
}

/// Whether `e` is the error of a variant attribute's entries.
pub open spec fn variant_attribute_error(entries: Seq<(String, AttrValue)>, e: DeriveError) -> bool {
    if !all_keys_allowed(entries, variant_keys()) {
        invalid_argument_error(entries, variant_keys(), e)
    } else {
        match variant_attribute(entries) {
            Ok(None) => e matches DeriveError::MissingArgument(k) && k@ == "name"@,
            Err(x) => e == x,
            Ok(Some(_)) => false,
        }
    }
}

/// Whether `e` is the error of a variant declaration: its shape, then its
/// missing attribute, then the attribute's entries.
pub open spec fn variant_decl_error(d: VariantDecl, e: DeriveError) -> bool {
    if !variant_shape_ok(d) {
        e == variant_shape_error(d)
    } else if d.attribute is None {
        e == DeriveError::MissingAttribute
    } else {
        variant_attribute_error(entries_of(d.attribute), e)
    }
}

impl ParsedVariant {
    /// Parse one subcommand variant.
    pub fn from_variant(d: VariantDecl) -> (r: Result<ParsedVariant, DeriveError>)
        ensures
            r is Ok <==> variant_decl_ok(d),
            match r {
                Ok(v) => v.ident == d.ident && variant_attribute(entries_of(d.attribute)) == Ok::<_, DeriveError>(Some(v.attribute.name@))
                    && (d.fields matches VariantFields::Unnamed(tys) && v.inner == tys@[0]),
                Err(e) => variant_decl_error(d, e),
            },
    {
        let ghost dv = d;
        let VariantDecl { ident, fields, attribute } = d;
        let mut tys = match fields {
            VariantFields::Unnamed(tys) => tys,
            _ => return Err(DeriveError::NotUnnamedVariant),
        };
        if tys.len() != 1 {
            return Err(DeriveError::NotSingleUnnamedField);
        }
        let inner = tys.remove(0);
        if let TypeRef::Other(_) = &inner {
            return Err(DeriveError::UnsupportedFieldType);
        }
        let entries = match attribute {
            Some(e) => e,
            None => return Err(DeriveError::MissingAttribute),
        };
        match VariantAttribute::parse(entries) {
            Ok(attribute) => Ok(ParsedVariant { ident, attribute, inner }),
            Err(e) => Err(e),
        }
    }

    /// Parse the variants of a subcommand enum in order; an enum needs at
    /// least one variant.
    pub fn from_variants(variants: Vec<VariantDecl>) -> (r: Result<Vec<ParsedVariant>, DeriveError>)
        ensures
            r is Ok <==> variants@.len() > 0 && forall|i: int| 0 <= i < variants@.len() ==> variant_decl_ok(#[trigger] variants@[i]),
            variants@.len() == 0 ==> r == Err::<Vec<ParsedVariant>, _>(DeriveError::EmptyEnum),
            variants@.len() > 0 ==> (r matches Err(e) ==> exists|i: int|
                0 <= i < variants@.len() && !variant_decl_ok(#[trigger] variants@[i]) && variant_decl_error(variants@[i], e)
                && forall|j: int| 0 <= j < i ==> variant_decl_ok(#[trigger] variants@[j])),
            r matches Ok(v) ==> v@.len() == variants@.len() && forall|i: int|
                0 <= i < v@.len() ==> (#[trigger] v@[i]).ident == variants@[i].ident
                    && variant_attribute(entries_of(variants@[i].attribute)) == Ok::<_, DeriveError>(Some(v@[i].attribute.name@))
                    && (variants@[i].fields matches VariantFields::Unnamed(tys) && v@[i].inner == tys@[0]),
    {
        if variants.len() == 0 {
            return Err(DeriveError::EmptyEnum);
        }
        let ghost orig = variants@;
        let total = variants.len();
        let mut rest = variants;
        let mut out: Vec<ParsedVariant> = Vec::new();
        let mut n: usize = 0;
        while rest.len() > 0
            invariant
                orig == variants@,
                total == orig.len(),
                n <= total,
                rest@ == orig.subrange(n as int, total as int),
                out@.len() == n,
                forall|i: int| 0 <= i < n ==> variant_decl_ok(#[trigger] orig[i]),
                forall|i: int| 0 <= i < n ==> (#[trigger] out@[i]).ident == orig[i].ident
                    && variant_attribute(entries_of(orig[i].attribute)) == Ok::<_, DeriveError>(Some(out@[i].attribute.name@))
                    && (orig[i].fields matches VariantFields::Unnamed(tys) && out@[i].inner == tys@[0]),
            decreases rest@.len(),
        {
            let d = rest.remove(0);
            assert(d == orig[n as int]);
            match ParsedVariant::from_variant(d) {
                Ok(v) => out.push(v),
                Err(e) => {
                    assert(!variant_decl_ok(orig[n as int]) && variant_decl_error(orig[n as int], e));
                    return Err(e);
                },
            }
            n += 1;
            assert(rest@ =~= orig.subrange(n as int, total as int));
        }
        Ok(out)
    }
}

/// A validated subcommand enum: its variants in declaration order.
#[derive(Debug)]
pub struct SubcommandModel {
    pub variants: Vec<ParsedVariant>,
}

/// Index of the first variant at or after `k` whose subcommand name is
/// `name`.
pub open spec fn variant_index_from(vs: Seq<ParsedVariant>, name: Seq<char>, k: nat) -> Option<int>
    decreases vs.len() - k,
{
    if k >= vs.len() {
        None
    } else if vs[k as int].attribute.name@ == name {
        Some(k as int)
    } else {
        variant_index_from(vs, name, k + 1)
    }
}

/// The outcome of dispatching received data on its first option: the index
/// of the variant named by it, and the option's nested data.
pub open spec fn dispatch(vs: Seq<ParsedVariant>, opts: Seq<CommandDataOption>, r: Option<ResolvedData>) -> Result<(int, CommandInputData), ParseError> {
    if opts.len() == 0 {
        Err(ParseError::EmptyOptions)
    } else {
        let o = opts[0];
        match variant_index_from(vs, o.name@, 0) {
            None => Err(ParseError::Option(ParseOptionError { field: o.name, kind: ParseOptionErrorType::UnknownSubcommand })),
            Some(i) => match o.value {
                OptionValue::SubCommand(l) => Ok((i, CommandInputData { options: l, resolved: r })),
                OptionValue::SubCommandGroup(l) => Ok((i, CommandInputData { options: l, resolved: r })),
                other => Err(ParseError::Option(ParseOptionError { field: o.name, kind: ParseOptionErrorType::InvalidType(kind_of(other)) })),
            },
        }
    }
}

impl SubcommandModel {
    /// Validate a subcommand enum declaration.
    pub fn new(variants: Vec<VariantDecl>) -> (r: Result<SubcommandModel, DeriveError>)
        ensures
            r is Ok <==> variants@.len() > 0 && forall|i: int| 0 <= i < variants@.len() ==> variant_decl_ok(#[trigger] variants@[i]),
            variants@.len() == 0 ==> r matches Err(DeriveError::EmptyEnum),
            variants@.len() > 0 ==> (r matches Err(e) ==> exists|i: int|
                0 <= i < variants@.len() && !variant_decl_ok(#[trigger] variants@[i]) && variant_decl_error(variants@[i], e)
                && forall|j: int| 0 <= j < i ==> variant_decl_ok(#[trigger] variants@[j])),
            r matches Ok(m) ==> m.variants@.len() == variants@.len() && forall|i: int|
                0 <= i < variants@.len() ==> (#[trigger] m.variants@[i]).ident == variants@[i].ident
                    && variant_attribute(entries_of(variants@[i].attribute)) == Ok::<_, DeriveError>(Some(m.variants@[i].attribute.name@))
                    && (variants@[i].fields matches VariantFields::Unnamed(tys) && m.variants@[i].inner == tys@[0]),
    {
        match ParsedVariant::from_variants(variants) {
            Ok(variants) => Ok(SubcommandModel { variants }),
            Err(e) => Err(e),
        }
    }

    /// Select the variant named by the first option and hand back that
    /// option's nested data, to be parsed by the variant's own model. Options
    /// after the first are not read.
    pub fn from_interaction(&self, data: CommandInputData) -> (r: Result<(usize, CommandInputData), ParseError>)
        ensures
            match r {
                Ok((i, d)) => dispatch(self.variants@, data.options@, data.resolved) == Ok::<_, ParseError>((i as int, d)),
                Err(e) => dispatch(self.variants@, data.options@, data.resolved) == Err::<(int, CommandInputData), _>(e),
            },
    {
        let ghost opts = data.options@;
        let CommandInputData { mut options, resolved } = data;
        if options.len() == 0 {
            return Err(ParseError::EmptyOptions);
        }
        let first = options.swap_remove(0);
        assert(first == opts[0]);
        let CommandDataOption { name, value } = first;
        let mut i: usize = 0;
        while i < self.variants.len()
            invariant
                opts == data.options@,
                opts.len() > 0,
                name == opts[0].name,
                value == opts[0].value,
                resolved == data.resolved,
                i <= self.variants@.len(),
                variant_index_from(self.variants@, name@, 0) == variant_index_from(self.variants@, name@, i as nat),
            decreases self.variants@.len() - i,
        {
            if str_eq(self.variants[i].attribute.name.as_str(), name.as_str()) {
                return match CommandInputData::from_option(value, resolved) {
                    Ok(d) => Ok((i, d)),
                    Err(kind) => Err(ParseError::Option(ParseOptionError { field: name, kind })),
                };
            }
            i += 1;
        }
        Err(ParseError::Option(ParseOptionError { field: name, kind: ParseOptionErrorType::UnknownSubcommand }))
    }
}

} // verus!
