//! Option choices: enums whose unit variants each carry a literal value. The
//! value kind is inferred from the first variant and every other variant must
//! have it.
use vstd::prelude::*;

use crate::attribute::{
    all_keys_allowed, attr_lookup, invalid_argument_error, read_path, AttrValue,
    FunctionPath, NamedAttrs,
};
use crate::chars::{decimal_of, i64_to_string, str_eq, trimmed};
use crate::error::{DeriveError, LiteralKind, ParseOptionErrorType};
use crate::localization::{LocaleMap, NameLocalizations};
use crate::model::entries_of;
use crate::naming::ChoiceName;
use crate::schema::{name_expr, name_localized, CommandOption};
use crate::value::{kind_of, CommandOptionType, OptionValue};

verus! {

/// Kind of the values of a choice enum, inferred from its first variant.
#[derive(Debug, Clone, Copy, PartialEq, Eq, Structural)]
pub enum ChoiceKind {
    String,
    Integer,
    Number,
}

impl ChoiceKind {
    /// The kind's name in messages.
    pub fn name(&self) -> (r: &'static str)
        ensures
            r@ == match *self {
                ChoiceKind::String => "string"@,
                ChoiceKind::Integer => "integer"@,
                ChoiceKind::Number => "float"@,
            },
    {
        match self {
            ChoiceKind::String => "string",
            ChoiceKind::Integer => "integer",
            ChoiceKind::Number => "float",
        }
    }

    /// The option kind of a choice field of this kind.
    pub fn option_type(&self) -> (r: CommandOptionType)
        ensures
            r == match *self {
                ChoiceKind::String => CommandOptionType::String,
                ChoiceKind::Integer => CommandOptionType::Integer,
                ChoiceKind::Number => CommandOptionType::Number,
            },
    {
        match self {
            ChoiceKind::String => CommandOptionType::String,
            ChoiceKind::Integer => CommandOptionType::Integer,
            ChoiceKind::Number => CommandOptionType::Number,
        }
    }
}

/// Value of a choice: a string, an integer, or a floating-point literal kept
/// as its source text.
#[derive(Debug, PartialEq, Eq)]
pub enum ChoiceValue {
    String(String),
    Int(i64),
    Number(String),
}

/// The kind of a choice value.
pub open spec fn kind_of_value(v: ChoiceValue) -> ChoiceKind {
    match v {
        ChoiceValue::String(_) => ChoiceKind::String,
        ChoiceValue::Int(_) => ChoiceKind::Integer,
        ChoiceValue::Number(_) => ChoiceKind::Number,
    }
}

/// The choice value a literal reads to.
pub open spec fn choice_value_of(a: AttrValue) -> Result<ChoiceValue, DeriveError> {
    match a {
        AttrValue::Str(s) => Ok(ChoiceValue::String(s)),
        AttrValue::Int(i) => Ok(ChoiceValue::Int(i)),
        AttrValue::Float(t) => Ok(ChoiceValue::Number(t)),
        _ => Err(DeriveError::ExpectedLiteral(LiteralKind::StringIntegerOrFloat)),
    }
}

impl ChoiceValue {
    /// The kind of this value.
    pub fn kind(&self) -> (r: ChoiceKind)
        ensures
            r == kind_of_value(*self),
    {
        match self {
            ChoiceValue::String(_) => ChoiceKind::String,
            ChoiceValue::Int(_) => ChoiceKind::Integer,
            ChoiceValue::Number(_) => ChoiceKind::Number,
        }
    }

    pub fn parse_attribute(a: &AttrValue) -> (r: Result<ChoiceValue, DeriveError>)
        ensures
            r == choice_value_of(*a),
    {
        match a {
            AttrValue::Str(s) => Ok(ChoiceValue::String(s.clone())),
            AttrValue::Int(i) => Ok(ChoiceValue::Int(*i)),
            AttrValue::Float(t) => Ok(ChoiceValue::Number(t.clone())),
            _ => Err(DeriveError::ExpectedLiteral(LiteralKind::StringIntegerOrFloat)),
        }
    }

    fn copy(&self) -> (r: ChoiceValue)
        ensures
            r == *self,
    {
        match self {
            ChoiceValue::String(s) => ChoiceValue::String(s.clone()),
            ChoiceValue::Int(i) => ChoiceValue::Int(*i),
            ChoiceValue::Number(t) => ChoiceValue::Number(t.clone()),
        }
    }
}

/// One entry of a choice list in a schema.
#[derive(Debug)]
pub struct CommandOptionChoice {
    pub name: String,
    pub name_localizations: Option<LocaleMap>,
    pub value: ChoiceValue,
}

/// Keys allowed in a choice variant's `#[option(...)]` attribute.
pub open spec fn choice_keys() -> Seq<&'static str> {
    seq!["name", "name_localizations", "value"]
}

/// Parsed choice variant attribute.
#[derive(Debug)]
pub struct VariantAttribute {
    /// Name of the choice, shown to users.
    pub name: ChoiceName,
    /// Localization function for the choice name.
    pub name_localizations: Option<FunctionPath>,
    /// Value of the choice.
    pub value: ChoiceValue,
}

/// Whether a choice variant attribute reads without error, given the kind
/// its value must have (none for the first variant).
pub open spec fn choice_attribute_ok(entries: Seq<(String, AttrValue)>, kind: Option<ChoiceKind>) -> bool {
    &&& all_keys_allowed(entries, choice_keys())
    &&& attr_lookup(entries, "value"@) matches Some(v)
    &&& choice_value_of(v) matches Ok(cv)
    &&& (kind matches Some(k) ==> kind_of_value(cv) == k)
    &&& attr_lookup(entries, "name"@) matches Some(AttrValue::Str(n))
    &&& 1 <= trimmed(n@).len() <= 100
    &&& read_path(attr_lookup(entries, "name_localizations"@)) is Ok
}

/// Whether `e` is the error of a choice variant attribute: disallowed key,
/// then the value (missing, wrong literal, wrong kind), then the name
/// (missing, wrong literal, wrong length), then the localization function.
pub open spec fn choice_attribute_error(entries: Seq<(String, AttrValue)>, kind: Option<ChoiceKind>, e: DeriveError) -> bool {
    if !all_keys_allowed(entries, choice_keys()) {
        invalid_argument_error(entries, choice_keys(), e)
    } else {
        match attr_lookup(entries, "value"@) {
            None => e matches DeriveError::MissingArgument(k) && k@ == "value"@,
            Some(v) => match choice_value_of(v) {
                Err(x) => e == x,
                Ok(cv) => if kind matches Some(k) && kind_of_value(cv) != k {
                    e == DeriveError::ChoiceKindMismatch(kind->0)
                } else {
                    match attr_lookup(entries, "name"@) {
                        None => e matches DeriveError::MissingArgument(k) && k@ == "name"@,
                        Some(AttrValue::Str(n)) => if !(1 <= trimmed(n@).len() <= 100) {
                            e == DeriveError::ChoiceNameLength
                        } else {
                            e == read_path(attr_lookup(entries, "name_localizations"@))->Err_0
                        },
                        Some(_) => e == DeriveError::ExpectedLiteral(LiteralKind::String),
                    }
                },
            },
        }
    }
}

impl VariantAttribute {
    /// Parse a choice variant's attribute. When `kind` is given, the value
    /// must be of that kind.
    pub fn parse(entries: Vec<(String, AttrValue)>, kind: Option<ChoiceKind>) -> (r: Result<VariantAttribute, DeriveError>)
        ensures
            r is Ok <==> choice_attribute_ok(entries@, kind),
            match r {
                Ok(a) => attr_lookup(entries@, "value"@) matches Some(v) && choice_value_of(v) == Ok::<_, DeriveError>(a.value)
                    && (attr_lookup(entries@, "name"@) matches Some(AttrValue::Str(n)) && a.name@ == trimmed(n@))
                    && read_path(attr_lookup(entries@, "name_localizations"@)) == Ok::<_, DeriveError>(crate::command::opt_view(a.name_localizations)),
                Err(e) => choice_attribute_error(entries@, kind, e),
            },
    {
        let valid: [&str; 3] = ["name", "name_localizations", "value"];
        let keys: &[&str] = &valid;
        assert(keys@ == choice_keys());
        let ghost ev = entries@;
        let attrs = match NamedAttrs::parse(entries, keys) {
            Ok(a) => a,
            Err(e) => return Err(e),
        };
        assert(attrs@ == ev);
        let value = match attrs.get("value") {
            None => return Err(DeriveError::MissingArgument("value".to_owned())),
            Some(v) => match ChoiceValue::parse_attribute(v) {
                Ok(cv) => cv,
                Err(e) => return Err(e),
            },
        };
        if let Some(k) = kind {
            if value.kind() != k {
                return Err(DeriveError::ChoiceKindMismatch(k));
            }
        }
        let name = match attrs.get("name") {
            None => return Err(DeriveError::MissingArgument("name".to_owned())),
            Some(AttrValue::Str(n)) => match ChoiceName::parse(n.as_str()) {
                Ok(n) => n,
                Err(e) => return Err(e),
            },
            Some(_) => return Err(DeriveError::ExpectedLiteral(LiteralKind::String)),
        };
        let name_localizations = match attrs.optional_path("name_localizations") {
            Ok(p) => p,
            Err(e) => return Err(e),
        };
        Ok(VariantAttribute { name, name_localizations, value })
    }
}

/// Once the kind is fixed by the first variant, a variant whose value has
/// another kind fails with a kind mismatch naming the expected kind.
pub proof fn lemma_choice_kind_mismatch(entries: Seq<(String, AttrValue)>, k: ChoiceKind, v: AttrValue, e: DeriveError)
    requires
        all_keys_allowed(entries, choice_keys()),
        attr_lookup(entries, "value"@) == Some(v),
        choice_value_of(v) is Ok,
        kind_of_value(choice_value_of(v)->Ok_0) != k,
    ensures
        !choice_attribute_ok(entries, Some(k)),
        choice_attribute_error(entries, Some(k), e) ==> e == DeriveError::ChoiceKindMismatch(k),
{
}

/// A choice enum variant as declared.
#[derive(Debug)]
pub struct ChoiceVariantDecl {
    pub ident: String,
    /// Whether the variant has no fields.
    pub unit: bool,
    /// Entries of the variant's `#[option(...)]` attribute, if it has one.
    pub attribute: Option<Vec<(String, AttrValue)>>,
    /// Value of the function that `name_localizations` names.
    pub localizations: Option<NameLocalizations>,
}

/// Parsed choice variant.
#[derive(Debug)]
pub struct ParsedVariant {
    pub ident: String,
    pub attribute: VariantAttribute,
    pub kind: ChoiceKind,
    pub localizations: Option<NameLocalizations>,
}

/// Whether `v` holds what a choice variant declaration says: its identifier,
/// its choice name (trimmed), the path of its name-localization function, the
/// value of that function, and its value.
pub open spec fn choice_variant_read(d: ChoiceVariantDecl, v: ParsedVariant) -> bool {
    &&& v.ident == d.ident
    &&& (attr_lookup(entries_of(d.attribute), "name"@) matches Some(AttrValue::Str(n)) && v.attribute.name@ == trimmed(n@))
    &&& read_path(attr_lookup(entries_of(d.attribute), "name_localizations"@))
        == Ok::<_, DeriveError>(crate::command::opt_view(v.attribute.name_localizations))
    &&& v.localizations == d.localizations
    &&& choice_value_of(attr_lookup(entries_of(d.attribute), "value"@)->0) == Ok::<_, DeriveError>(v.attribute.value)
    &&& v.kind == kind_of_value(v.attribute.value)
}

/// Whether a choice variant declaration parses, given the required kind.
pub open spec fn choice_variant_ok(d: ChoiceVariantDecl, kind: Option<ChoiceKind>) -> bool {
    &&& d.unit
    &&& d.attribute is Some
    &&& choice_attribute_ok(entries_of(d.attribute), kind)
}

/// The value kind a choice variant declaration gives (for one that parses).
pub open spec fn variant_kind(d: ChoiceVariantDecl) -> ChoiceKind {
    kind_of_value(choice_value_of(attr_lookup(entries_of(d.attribute), "value"@)->0)->Ok_0)
}

impl ParsedVariant {
    fn from_variant(d: ChoiceVariantDecl, kind: Option<ChoiceKind>) -> (r: Result<ParsedVariant, DeriveError>)
        ensures
            r is Ok <==> choice_variant_ok(d, kind),
            match r {
                Ok(v) => choice_variant_read(d, v) && v.kind == variant_kind(d),
                Err(e) => if !d.unit {
                    e == DeriveError::NotUnitVariant
                } else if d.attribute is None {
                    e == DeriveError::MissingAttribute
                } else {
                    choice_attribute_error(entries_of(d.attribute), kind, e)
                },
            },
    {
        let ChoiceVariantDecl { ident, unit, attribute, localizations } = d;
        if !unit {
            return Err(DeriveError::NotUnitVariant);
        }
        let entries = match attribute {
            Some(e) => e,
            None => return Err(DeriveError::MissingAttribute),
        };
        match VariantAttribute::parse(entries, kind) {
            Ok(attribute) => {
                let k = attribute.value.kind();
                Ok(ParsedVariant { ident, attribute, kind: k, localizations })
            },
            Err(e) => Err(e),
        }
    }
}

/// A validated choice enum: its variants in order and their common kind.
#[derive(Debug)]
pub struct ChoiceModel {
    pub variants: Vec<ParsedVariant>,
    pub kind: ChoiceKind,
}

/// Whether a choice enum declaration is valid: at least one variant, each
/// parsing, every value of the first variant's kind.
pub open spec fn choice_decl_ok(ds: Seq<ChoiceVariantDecl>) -> bool {
    &&& ds.len() > 0
    &&& choice_variant_ok(ds[0], None)
    &&& forall|i: int| 1 <= i < ds.len() ==> choice_variant_ok(#[trigger] ds[i], Some(variant_kind(ds[0])))
}

impl ChoiceModel {
    /// Validate a choice enum: the first variant's value fixes the kind, and
    /// each later variant must have a value of that kind.
    pub fn new(variants: Vec<ChoiceVariantDecl>) -> (r: Result<ChoiceModel, DeriveError>)
        ensures
            r is Ok <==> choice_decl_ok(variants@),
            variants@.len() == 0 ==> r == Err::<ChoiceModel, _>(DeriveError::EmptyEnum),
            variants@.len() > 0 && !choice_variant_ok(variants@[0], None) ==> (r matches Err(e) && (if !variants@[0].unit {
                e == DeriveError::NotUnitVariant
            } else if variants@[0].attribute is None {
                e == DeriveError::MissingAttribute
            } else {
                choice_attribute_error(entries_of(variants@[0].attribute), None, e)
            })),
            variants@.len() > 0 && choice_variant_ok(variants@[0], None) && !choice_decl_ok(variants@) ==> (r matches Err(e) && exists|i: int|
                1 <= i < variants@.len() && !choice_variant_ok(#[trigger] variants@[i], Some(variant_kind(variants@[0])))
                && (forall|j: int| 1 <= j < i ==> choice_variant_ok(#[trigger] variants@[j], Some(variant_kind(variants@[0]))))
                && (if !variants@[i].unit {
                    e == DeriveError::NotUnitVariant
                } else if variants@[i].attribute is None {
                    e == DeriveError::MissingAttribute
                } else {
                    choice_attribute_error(entries_of(variants@[i].attribute), Some(variant_kind(variants@[0])), e)
                })),
            r matches Ok(m) ==> m.kind == variant_kind(variants@[0]) && m.variants@.len() == variants@.len()
                && forall|i: int| 0 <= i < variants@.len() ==> choice_variant_read(variants@[i], #[trigger] m.variants@[i])
                    && m.variants@[i].kind == m.kind,
    {
        if variants.len() == 0 {
            return Err(DeriveError::EmptyEnum);
        }
        let ghost orig = variants@;
        let total = variants.len();
        let mut rest = variants;
        let first = match ParsedVariant::from_variant(rest.remove(0), None) {
            Ok(v) => v,
            Err(e) => return Err(e),
        };
        let kind = first.kind;
        let mut out: Vec<ParsedVariant> = Vec::new();
        out.push(first);
        let mut n: usize = 1;
        assert(rest@ =~= orig.subrange(1, total as int));
        while rest.len() > 0
            invariant
                orig == variants@,
                total == orig.len(),
                1 <= n <= total,
                rest@ == orig.subrange(n as int, total as int),
                choice_variant_ok(orig[0], None),
                kind == variant_kind(orig[0]),
                out@.len() == n,
                forall|i: int| 1 <= i < n ==> choice_variant_ok(#[trigger] orig[i], Some(kind)),
                forall|i: int| 0 <= i < n ==> choice_variant_read(orig[i], #[trigger] out@[i]) && out@[i].kind == kind,
            decreases rest@.len(),
        {
            let d = rest.remove(0);
            assert(d == orig[n as int]);
            match ParsedVariant::from_variant(d, Some(kind)) {
                Ok(v) => {
                    assert(choice_attribute_ok(entries_of(orig[n as int].attribute), Some(kind)));
                    out.push(v);
                },
                Err(e) => return Err(e),
            }
            n += 1;
            assert(rest@ =~= orig.subrange(n as int, total as int));
        }
        Ok(ChoiceModel { variants: out, kind })
    }
}

/// Whether a received value equals a choice's value.
pub open spec fn value_matches(c: ChoiceValue, v: OptionValue) -> bool {
    match (c, v) {
        (ChoiceValue::String(x), OptionValue::String(s)) => x@ == s@,
        (ChoiceValue::Int(x), OptionValue::Integer(i)) => x == i,
        _ => false,
    }
}

/// Index of the first variant at or after `k` whose value equals `v`.
pub open spec fn choice_index_from(vs: Seq<ParsedVariant>, v: OptionValue, k: nat) -> Option<int>
    decreases vs.len() - k,
{
    if k >= vs.len() {
        None
    } else if value_matches(vs[k as int].attribute.value, v) {
        Some(k as int)
    } else {
        choice_index_from(vs, v, k + 1)
    }
}

/// Whether a received value has the wire kind of a choice kind.
pub open spec fn value_of_kind(kind: ChoiceKind, v: OptionValue) -> bool {
    match kind {
        ChoiceKind::String => v is String,
        ChoiceKind::Integer => v is Integer,
        ChoiceKind::Number => v is Number,
    }
}

impl ChoiceModel {
    /// The variant a received value selects.
    ///
    /// The value must have the choices' kind, and equal one variant's value
    /// (the first such variant is selected); otherwise the value is an
    /// invalid choice, reported as its text. Floating-point choices are
    /// matched outside the library.
    pub fn from_option(&self, v: OptionValue) -> (r: Result<usize, ParseOptionErrorType>)
        requires
            self.kind != ChoiceKind::Number,
        ensures
            !value_of_kind(self.kind, v) ==> r == Err::<usize, _>(ParseOptionErrorType::InvalidType(kind_of(v))),
            value_of_kind(self.kind, v) ==> match choice_index_from(self.variants@, v, 0) {
                Some(i) => r == Ok::<usize, ParseOptionErrorType>(i as usize),
                None => r matches Err(ParseOptionErrorType::InvalidChoice(t)) && match v {
                    OptionValue::String(s) => t@ == s@,
                    OptionValue::Integer(i) => t@ == decimal_of(i),
                    _ => false,
                },
            },
    {
        let kind = v.kind();
        let ok_kind = match (self.kind, &v) {
            (ChoiceKind::String, OptionValue::String(_)) => true,
            (ChoiceKind::Integer, OptionValue::Integer(_)) => true,
            _ => false,
        };
        if !ok_kind {
            return Err(ParseOptionErrorType::InvalidType(kind));
        }
        let mut i: usize = 0;
        while i < self.variants.len()
            invariant
                value_of_kind(self.kind, v),
                i <= self.variants@.len(),
                choice_index_from(self.variants@, v, 0) == choice_index_from(self.variants@, v, i as nat),
            decreases self.variants@.len() - i,
        {
            let hit = match (&self.variants[i].attribute.value, &v) {
                (ChoiceValue::String(x), OptionValue::String(s)) => str_eq(x.as_str(), s.as_str()),
                (ChoiceValue::Int(x), OptionValue::Integer(n)) => *x == *n,
                _ => false,
            };
            if hit {
                return Ok(i);
            }
            i += 1;
        }
        match v {
            OptionValue::String(s) => Err(ParseOptionErrorType::InvalidChoice(s)),
            OptionValue::Integer(n) => Err(ParseOptionErrorType::InvalidChoice(i64_to_string(n))),
            _ => Err(ParseOptionErrorType::InvalidType(kind)),
        }
    }

    /// The value of variant `i`.
    pub fn value(&self, i: usize) -> (r: &ChoiceValue)
        requires
            i < self.variants@.len(),
        ensures
            *r == self.variants@[i as int].attribute.value,
    {
        &self.variants[i].attribute.value
    }
}

/// Whether a choice entry is the one a variant gives.
pub open spec fn choice_read(v: ParsedVariant, c: CommandOptionChoice) -> bool {
    &&& c.name@ == v.attribute.name@
    &&& name_localized(v.attribute.name_localizations is Some, v.localizations) == Ok::<_, DeriveError>(c.name_localizations)
    &&& c.value == v.attribute.value
}

impl ChoiceModel {
    /// The choice entries of the variants, in order.
    pub fn choices(self) -> (r: Result<Vec<CommandOptionChoice>, DeriveError>)
        ensures
            r is Ok <==> forall|i: int| 0 <= i < self.variants@.len() ==> name_localized(
                (#[trigger] self.variants@[i]).attribute.name_localizations is Some,
                self.variants@[i].localizations,
            ) is Ok,
            r is Err ==> r == Err::<Vec<CommandOptionChoice>, _>(DeriveError::MissingLocalization),
            r matches Ok(cs) ==> cs@.len() == self.variants@.len() && forall|i: int|
                0 <= i < cs@.len() ==> choice_read(#[trigger] self.variants@[i], cs@[i]),
    {
        let ghost orig = self.variants@;
        let total = self.variants.len();
        let mut rest = self.variants;
        let mut out: Vec<CommandOptionChoice> = Vec::new();
        let mut n: usize = 0;
        while rest.len() > 0
            invariant
                orig == self.variants@,
                total == orig.len(),
                n <= total,
                rest@ == orig.subrange(n as int, total as int),
                out@.len() == n,
                forall|i: int| 0 <= i < n ==> name_localized(
                    (#[trigger] orig[i]).attribute.name_localizations is Some,
                    orig[i].localizations,
                ) is Ok,
                forall|i: int| 0 <= i < n ==> choice_read(#[trigger] orig[i], out@[i]),
            decreases rest@.len(),
        {
            let v = rest.remove(0);
            assert(v == orig[n as int]);
            let ParsedVariant { ident: _, attribute, kind: _, localizations } = v;
            let VariantAttribute { name, name_localizations, value } = attribute;
            let loc = match name_expr(name_localizations.is_some(), localizations) {
                Ok(l) => l,
                Err(e) => return Err(e),
            };
            out.push(CommandOptionChoice { name: name.into_string(), name_localizations: loc, value });
            n += 1;
            assert(rest@ =~= orig.subrange(n as int, total as int));
        }
        Ok(out)
    }

    /// Attach the choices to a field's option descriptor, whose kind becomes
    /// the choices' kind.
    pub fn create_option(self, base: CommandOption) -> (r: Result<CommandOption, DeriveError>)
        ensures
            r is Ok <==> forall|i: int| 0 <= i < self.variants@.len() ==> name_localized(
                (#[trigger] self.variants@[i]).attribute.name_localizations is Some,
                self.variants@[i].localizations,
            ) is Ok,
            r matches Ok(o) ==> o.kind == match self.kind {
                ChoiceKind::String => CommandOptionType::String,
                ChoiceKind::Integer => CommandOptionType::Integer,
                ChoiceKind::Number => CommandOptionType::Number,
            } && o.name == base.name && o.description == base.description && o.required == base.required
                && o.autocomplete == base.autocomplete
                && o.name_localizations == base.name_localizations
                && o.description_localizations == base.description_localizations
                && o.channel_types == base.channel_types
                && o.max_value == base.max_value
                && o.min_value == base.min_value
                && o.max_length == base.max_length
                && o.min_length == base.min_length
                && o.options == base.options
                && (o.choices matches Some(cs) && cs@.len() == self.variants@.len()
                && forall|i: int| 0 <= i < cs@.len() ==> choice_read(#[trigger] self.variants@[i], cs@[i])),
    {
        let kind = self.kind.option_type();
        let choices = match self.choices() {
            Ok(c) => c,
            Err(e) => return Err(e),
        };
        let mut o = base;
        o.kind = kind;
        o.choices = Some(choices);
        Ok(o)
    }
}

} // verus!
