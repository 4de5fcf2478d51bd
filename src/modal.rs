//! Modals: forms of one to five labeled text inputs, their schema, and the
//! parsing of submitted values.
use vstd::prelude::*;

use crate::attribute::{
    all_keys_allowed, attr_lookup, invalid_argument_error, read_u16, string_value, AttrValue,
    NamedAttrs,
};
use crate::chars::str_eq;
use crate::command::{extract_generic, generic_arg, opt_view, TypeRef};
use crate::error::{DeriveError, LiteralKind, ParseError, ParseOptionError, ParseOptionErrorType};
use crate::model::entries_of;
use crate::naming::LengthValidatedString;

verus! {

/// Style of a text input.
#[derive(Debug, Clone, Copy, PartialEq, Eq, Structural)]
pub enum TextInputStyle {
    Short,
    Paragraph,
}

/// Reading an optional text input style argument.
pub open spec fn read_style(v: Option<AttrValue>) -> Result<Option<TextInputStyle>, DeriveError> {
    match v {
        None => Ok(None),
        Some(AttrValue::Str(s)) => if s@ == "short"@ {
            Ok(Some(TextInputStyle::Short))
        } else if s@ == "paragraph"@ {
            Ok(Some(TextInputStyle::Paragraph))
        } else {
            Err(DeriveError::InvalidTextInputStyle(s))
        },
        Some(_) => Err(DeriveError::ExpectedLiteral(LiteralKind::String)),
    }
}

impl TextInputStyle {
    pub fn parse_attribute(v: &AttrValue) -> (r: Result<TextInputStyle, DeriveError>)
        ensures
            match r {
                Ok(t) => read_style(Some(*v)) == Ok::<_, DeriveError>(Some(t)),
                Err(e) => read_style(Some(*v)) == Err::<Option<TextInputStyle>, _>(e),
            },
    {
        match v {
            AttrValue::Str(s) => {
                if str_eq(s.as_str(), "short") {
                    Ok(TextInputStyle::Short)
                } else if str_eq(s.as_str(), "paragraph") {
                    Ok(TextInputStyle::Paragraph)
                } else {
                    Err(DeriveError::InvalidTextInputStyle(s.clone()))
                }
            },
            _ => Err(DeriveError::ExpectedLiteral(LiteralKind::String)),
        }
    }
}

/// Reading an optional string argument whose length must lie in
/// `min..=max` characters.
pub open spec fn read_bounded(v: Option<AttrValue>, min: usize, max: usize) -> Result<Option<Seq<char>>, DeriveError> {
    match v {
        None => Ok(None),
        Some(a) => match string_value(a) {
            Err(e) => Err(e),
            Ok(s) => if min <= s.len() <= max {
                Ok(Some(s))
            } else {
                Err(DeriveError::StringLength { min, max })
            },
        },
    }
}

fn optional_bounded<const MIN: usize, const MAX: usize>(attrs: &NamedAttrs, key: &str) -> (r: Result<Option<LengthValidatedString<MIN, MAX>>, DeriveError>)
    ensures
        crate::attribute::reading_view(r) == read_bounded(attr_lookup(attrs@, key@), MIN, MAX),
{
    match attrs.get(key) {
        None => Ok(None),
        Some(v) => match v.parse_string() {
            Err(e) => Err(e),
            Ok(s) => match LengthValidatedString::<MIN, MAX>::parse(s.as_str()) {
                Ok(t) => Ok(Some(t)),
                Err(e) => Err(e),
            },
        },
    }
}

/// Keys allowed in a modal's `#[modal(...)]` type attribute.
pub open spec fn modal_keys() -> Seq<&'static str> {
    seq!["title", "custom_id"]
}

/// Keys allowed in a modal field's `#[modal(...)]` attribute.
pub open spec fn modal_field_keys() -> Seq<&'static str> {
    seq!["label", "custom_id", "style", "value", "placeholder", "min_length", "max_length"]
}

/// Parsed modal type attribute.
#[derive(Debug)]
pub struct TypeAttribute {
    pub title: Option<LengthValidatedString<1, 45>>,
    pub custom_id: Option<LengthValidatedString<1, 100>>,
}

impl TypeAttribute {
    pub fn parse(entries: Vec<(String, AttrValue)>) -> (r: Result<TypeAttribute, DeriveError>)
        ensures
            r is Ok <==> all_keys_allowed(entries@, modal_keys())
                && read_bounded(attr_lookup(entries@, "title"@), 1, 45) is Ok
                && read_bounded(attr_lookup(entries@, "custom_id"@), 1, 100) is Ok,
            match r {
                Ok(a) => read_bounded(attr_lookup(entries@, "title"@), 1, 45) == Ok::<_, DeriveError>(opt_view(a.title))
                    && read_bounded(attr_lookup(entries@, "custom_id"@), 1, 100) == Ok::<_, DeriveError>(opt_view(a.custom_id)),
                Err(e) => if !all_keys_allowed(entries@, modal_keys()) {
                    invalid_argument_error(entries@, modal_keys(), e)
                } else if read_bounded(attr_lookup(entries@, "title"@), 1, 45) is Err {
                    e == read_bounded(attr_lookup(entries@, "title"@), 1, 45)->Err_0
                } else {
                    e == read_bounded(attr_lookup(entries@, "custom_id"@), 1, 100)->Err_0
                },
            },
    {
        let valid: [&str; 2] = ["title", "custom_id"];
        let keys: &[&str] = &valid;
        assert(keys@ == modal_keys());
        let ghost ev = entries@;
        let attrs = match NamedAttrs::parse(entries, keys) {
            Ok(a) => a,
            Err(e) => return Err(e),
        };
        assert(attrs@ == ev);
        let title = match optional_bounded::<1, 45>(&attrs, "title") {
            Ok(t) => t,
            Err(e) => return Err(e),
        };
        let custom_id = match optional_bounded::<1, 100>(&attrs, "custom_id") {
            Ok(t) => t,
            Err(e) => return Err(e),
        };
        Ok(TypeAttribute { title, custom_id })
    }
}

/// Parsed modal field attribute.
#[derive(Debug)]
pub struct FieldAttribute {
    pub label: LengthValidatedString<1, 45>,
    pub custom_id: Option<LengthValidatedString<1, 100>>,
    pub style: TextInputStyle,
    pub value: Option<LengthValidatedString<1, 4000>>,
    pub placeholder: Option<LengthValidatedString<1, 1000>>,
    pub min_length: Option<u16>,
    pub max_length: Option<u16>,
}

/// Whether a modal field attribute's entries read without error.
pub open spec fn modal_field_ok(entries: Seq<(String, AttrValue)>) -> bool {
    &&& all_keys_allowed(entries, modal_field_keys())
    &&& read_bounded(attr_lookup(entries, "label"@), 1, 45) matches Ok(Some(_))
    &&& read_bounded(attr_lookup(entries, "custom_id"@), 1, 100) is Ok
    &&& read_style(attr_lookup(entries, "style"@)) matches Ok(Some(_))
    &&& read_bounded(attr_lookup(entries, "value"@), 1, 4000) is Ok
    &&& read_bounded(attr_lookup(entries, "placeholder"@), 1, 1000) is Ok
    &&& read_u16(attr_lookup(entries, "min_length"@)) is Ok
    &&& read_u16(attr_lookup(entries, "max_length"@)) is Ok
}

/// Whether `e` is the error of the first argument, in the order of
/// `modal_field_keys`, that fails to read (a missing label or style fails).
pub open spec fn modal_field_error(entries: Seq<(String, AttrValue)>, e: DeriveError) -> bool {
    if !all_keys_allowed(entries, modal_field_keys()) {
        invalid_argument_error(entries, modal_field_keys(), e)
    } else if read_bounded(attr_lookup(entries, "label"@), 1, 45) is Err {
        e == read_bounded(attr_lookup(entries, "label"@), 1, 45)->Err_0
    } else if read_bounded(attr_lookup(entries, "label"@), 1, 45) matches Ok(None) {
        e matches DeriveError::MissingArgument(k) && k@ == "label"@
    } else if read_bounded(attr_lookup(entries, "custom_id"@), 1, 100) is Err {
        e == read_bounded(attr_lookup(entries, "custom_id"@), 1, 100)->Err_0
    } else if read_style(attr_lookup(entries, "style"@)) is Err {
        e == read_style(attr_lookup(entries, "style"@))->Err_0
    } else if read_style(attr_lookup(entries, "style"@)) matches Ok(None) {
        e matches DeriveError::MissingArgument(k) && k@ == "style"@
    } else if read_bounded(attr_lookup(entries, "value"@), 1, 4000) is Err {
        e == read_bounded(attr_lookup(entries, "value"@), 1, 4000)->Err_0
    } else if read_bounded(attr_lookup(entries, "placeholder"@), 1, 1000) is Err {
        e == read_bounded(attr_lookup(entries, "placeholder"@), 1, 1000)->Err_0
    } else if read_u16(attr_lookup(entries, "min_length"@)) is Err {
        e == read_u16(attr_lookup(entries, "min_length"@))->Err_0
    } else {
        e == read_u16(attr_lookup(entries, "max_length"@))->Err_0
    }
}

/// Whether `a` holds what a modal field attribute's entries say.
pub open spec fn modal_field_read(entries: Seq<(String, AttrValue)>, a: FieldAttribute) -> bool {
    &&& read_bounded(attr_lookup(entries, "label"@), 1, 45) == Ok::<_, DeriveError>(Some(a.label@))
    &&& read_bounded(attr_lookup(entries, "custom_id"@), 1, 100) == Ok::<_, DeriveError>(opt_view(a.custom_id))
    &&& read_style(attr_lookup(entries, "style"@)) == Ok::<_, DeriveError>(Some(a.style))
    &&& read_bounded(attr_lookup(entries, "value"@), 1, 4000) == Ok::<_, DeriveError>(opt_view(a.value))
    &&& read_bounded(attr_lookup(entries, "placeholder"@), 1, 1000) == Ok::<_, DeriveError>(opt_view(a.placeholder))
    &&& read_u16(attr_lookup(entries, "min_length"@)) == Ok::<_, DeriveError>(a.min_length)
    &&& read_u16(attr_lookup(entries, "max_length"@)) == Ok::<_, DeriveError>(a.max_length)
}

impl FieldAttribute {
    /// Parse a modal field's attribute; `label` and `style` are required.
    pub fn parse(entries: Vec<(String, AttrValue)>) -> (r: Result<FieldAttribute, DeriveError>)
        ensures
            r is Ok <==> modal_field_ok(entries@),
            match r {
                Ok(a) => modal_field_read(entries@, a),
                Err(e) => modal_field_error(entries@, e),
            },
    {
        let valid: [&str; 7] = ["label", "custom_id", "style", "value", "placeholder", "min_length", "max_length"];
        let keys: &[&str] = &valid;
        assert(keys@ == modal_field_keys());
        let ghost ev = entries@;
        let attrs = match NamedAttrs::parse(entries, keys) {
            Ok(a) => a,
            Err(e) => return Err(e),
        };
        assert(attrs@ == ev);
        let label = match optional_bounded::<1, 45>(&attrs, "label") {
            Ok(Some(l)) => l,
            Ok(None) => return Err(DeriveError::MissingArgument("label".to_owned())),
            Err(e) => return Err(e),
        };
        let custom_id = match optional_bounded::<1, 100>(&attrs, "custom_id") {
            Ok(t) => t,
            Err(e) => return Err(e),
        };
        let style = match attrs.get("style") {
            Some(v) => match TextInputStyle::parse_attribute(v) {
                Ok(s) => s,
                Err(e) => return Err(e),
            },
            None => return Err(DeriveError::MissingArgument("style".to_owned())),
        };
        let value = match optional_bounded::<1, 4000>(&attrs, "value") {
            Ok(t) => t,
            Err(e) => return Err(e),
        };
        let placeholder = match optional_bounded::<1, 1000>(&attrs, "placeholder") {
            Ok(t) => t,
            Err(e) => return Err(e),
        };
        let min_length = match attrs.optional_u16("min_length") {
            Ok(t) => t,
            Err(e) => return Err(e),
        };
        let max_length = match attrs.optional_u16("max_length") {
            Ok(t) => t,
            Err(e) => return Err(e),
        };
        Ok(FieldAttribute { label, custom_id, style, value, placeholder, min_length, max_length })
    }

    /// The field's identifier in submitted data: its custom id, else
    /// `default` (its identifier).
    pub fn custom_id_default(&self, default: String) -> (r: String)
        ensures
            r@ == match self.custom_id {
                Some(c) => c@,
                None => default@,
            },
    {
        match &self.custom_id {
            Some(c) => c.as_str().to_owned(),
            None => default,
        }
    }
}

/// Type of a parsed modal field.
#[derive(Debug, Clone, Copy, PartialEq, Eq, Structural)]
pub enum FieldType {
    Optional,
    Required,
}

impl FieldType {
    pub fn required(&self) -> (r: bool)
        ensures
            r == (*self == FieldType::Required),
    {
        match self {
            FieldType::Required => true,
            FieldType::Optional => false,
        }
    }
}

/// A modal field as declared.
#[derive(Debug)]
pub struct ModalFieldDecl {
    pub ident: Option<String>,
    pub ty: TypeRef,
    /// Entries of the field's `#[modal(...)]` attribute, if it has one.
    pub attribute: Option<Vec<(String, AttrValue)>>,
}

/// Parsed modal field.
#[derive(Debug)]
pub struct StructField {
    pub ident: String,
    /// The declared type with one `Option` layer stripped.
    pub ty: TypeRef,
    pub attributes: FieldAttribute,
    pub kind: FieldType,
}

/// The kind a modal field's declared type gives.
pub open spec fn modal_kind(ty: TypeRef) -> FieldType {
    if generic_arg(ty, "Option"@) is Some {
        FieldType::Optional
    } else {
        FieldType::Required
    }
}

/// Whether a modal field declaration parses.
pub open spec fn modal_decl_ok(d: ModalFieldDecl) -> bool {
    &&& d.attribute is Some
    &&& modal_field_ok(entries_of(d.attribute))
    &&& d.ident is Some
}

/// Whether `e` is the error of a modal field declaration.
pub open spec fn modal_decl_error(d: ModalFieldDecl, e: DeriveError) -> bool {
    if d.attribute is None {
        e == DeriveError::MissingAttribute
    } else if !modal_field_ok(entries_of(d.attribute)) {
        modal_field_error(entries_of(d.attribute), e)
    } else {
        e == DeriveError::MissingIdentifier
    }
}

/// Whether `f` is what a modal field declaration parses to.
pub open spec fn modal_decl_read(d: ModalFieldDecl, f: StructField) -> bool {
    &&& d.ident == Some(f.ident)
    &&& f.kind == modal_kind(d.ty)
    &&& (match generic_arg(d.ty, "Option"@) {
        Some(inner) => f.ty == inner,
        None => f.ty == d.ty,
    })
    &&& modal_field_read(entries_of(d.attribute), f.attributes)
}

fn take_option_arg(ty: TypeRef) -> (r: (FieldType, TypeRef))
    ensures
        r.0 == modal_kind(ty),
        match generic_arg(ty, "Option"@) {
            Some(inner) => r.1 == inner,
            None => r.1 == ty,
        },
{
    if extract_generic(&ty, "Option").is_some() {
        match ty {
            TypeRef::Path { name: _, mut args } => (FieldType::Optional, args.remove(0)),
            other => (FieldType::Required, other),
        }
    } else {
        (FieldType::Required, ty)
    }
}

impl StructField {
    /// Parse a modal field declaration; the `#[modal(...)]` attribute is
    /// required.
    pub fn from_field(d: ModalFieldDecl) -> (r: Result<StructField, DeriveError>)
        ensures
            r is Ok <==> modal_decl_ok(d),
            match r {
                Ok(f) => modal_decl_read(d, f),
                Err(e) => modal_decl_error(d, e),
            },
    {
        let ModalFieldDecl { ident, ty, attribute } = d;
        let (kind, ty) = take_option_arg(ty);
        let entries = match attribute {
            Some(e) => e,
            None => return Err(DeriveError::MissingAttribute),
        };
        let attributes = match FieldAttribute::parse(entries) {
            Ok(a) => a,
            Err(e) => return Err(e),
        };
        match ident {
            Some(ident) => Ok(StructField { ident, ty, attributes, kind }),
            None => Err(DeriveError::MissingIdentifier),
        }
    }

    /// Parse the fields of a modal in order; the first failing field fails.
    pub fn from_fields(fields: Vec<ModalFieldDecl>) -> (r: Result<Vec<StructField>, DeriveError>)
        ensures
            r is Ok <==> forall|i: int| 0 <= i < fields@.len() ==> modal_decl_ok(#[trigger] fields@[i]),
            r matches Ok(v) ==> v@.len() == fields@.len() && forall|i: int|
                0 <= i < v@.len() ==> modal_decl_read(#[trigger] fields@[i], v@[i]),
            r matches Err(e) ==> exists|i: int|
                0 <= i < fields@.len() && !modal_decl_ok(#[trigger] fields@[i]) && modal_decl_error(fields@[i], e)
                && forall|j: int| 0 <= j < i ==> modal_decl_ok(#[trigger] fields@[j]),
    {
        let ghost orig = fields@;
        let total = fields.len();
        let mut rest = fields;
        let mut out: Vec<StructField> = Vec::new();
        let mut n: usize = 0;
        while rest.len() > 0
            invariant
                orig == fields@,
                total == orig.len(),
                n <= total,
                rest@ == orig.subrange(n as int, total as int),
                out@.len() == n,
                forall|i: int| 0 <= i < n ==> modal_decl_ok(#[trigger] orig[i]),
                forall|i: int| 0 <= i < n ==> modal_decl_read(#[trigger] orig[i], out@[i]),
            decreases rest@.len(),
        {
            let d = rest.remove(0);
            assert(d == orig[n as int]);
            match StructField::from_field(d) {
                Ok(f) => out.push(f),
                Err(e) => {
                    assert(!modal_decl_ok(orig[n as int]) && modal_decl_error(orig[n as int], e));
                    return Err(e);
                },
            }
            n += 1;
            assert(rest@ =~= orig.subrange(n as int, total as int));
        }
        Ok(out)
    }

    /// The field's custom id: the attribute's, else the identifier.
    pub fn custom_id(&self) -> (r: &str)
        ensures
            r@ == field_custom_id(*self),
    {
        match &self.attributes.custom_id {
            Some(c) => c.as_str(),
            None => self.ident.as_str(),
        }
    }
}

/// A field's custom id: the attribute's, else its identifier.
pub open spec fn field_custom_id(f: StructField) -> Seq<char> {
    match f.attributes.custom_id {
        Some(c) => c@,
        None => f.ident@,
    }
}

/// A text input component of a modal schema, in its own action row.
#[derive(Debug)]
pub struct TextInput {
    pub custom_id: String,
    pub label: String,
    pub max_length: Option<u16>,
    pub min_length: Option<u16>,
    pub placeholder: Option<String>,
    pub required: Option<bool>,
    pub style: TextInputStyle,
    pub value: Option<String>,
}

/// Schema of a modal.
#[derive(Debug)]
pub struct ModalData {
    pub custom_id: String,
    pub title: String,
    /// One text input per field, each in its own action row, in field order.
    pub components: Vec<TextInput>,
}

/// Whether a text input is the one a modal field gives.
pub open spec fn text_input_read(f: StructField, t: TextInput) -> bool {
    &&& t.custom_id@ == field_custom_id(f)
    &&& t.label@ == f.attributes.label@
    &&& t.max_length == f.attributes.max_length
    &&& t.min_length == f.attributes.min_length
    &&& opt_view(t.placeholder) == opt_view(f.attributes.placeholder)
    &&& t.required == Some(f.kind == FieldType::Required)
    &&& t.style == f.attributes.style
    &&& opt_view(t.value) == opt_view(f.attributes.value)
}

fn opt_string<const MIN: usize, const MAX: usize>(v: &Option<LengthValidatedString<MIN, MAX>>) -> (r: Option<String>)
    ensures
        opt_view(r) == opt_view(*v),
{
    match v {
        Some(s) => Some(s.as_str().to_owned()),
        None => None,
    }
}

fn text_input(f: &StructField) -> (t: TextInput)
    ensures
        text_input_read(*f, t),
{
    TextInput {
        custom_id: f.custom_id().to_owned(),
        label: f.attributes.label.as_str().to_owned(),
        max_length: f.attributes.max_length,
        min_length: f.attributes.min_length,
        placeholder: opt_string(&f.attributes.placeholder),
        required: Some(f.kind == FieldType::Required),
        style: f.attributes.style,
        value: opt_string(&f.attributes.value),
    }
}

/// Whether `fs` are the parsed forms of modal field declarations.
pub open spec fn modal_fields_read(decls: Seq<ModalFieldDecl>, fs: Seq<StructField>) -> bool {
    fs.len() == decls.len() && forall|i: int| 0 <= i < decls.len() ==> modal_decl_read(#[trigger] decls[i], fs[i])
}

/// The outcome of building a modal's schema from its parsed fields.
pub open spec fn modal_outcome(fs: Seq<StructField>, title: Seq<char>, custom_id: Seq<char>, r: Result<ModalData, DeriveError>) -> bool {
    r matches Ok(m) && m.custom_id@ == custom_id && m.title@ == title && m.components@.len() == fs.len()
        && forall|i: int| 0 <= i < fs.len() ==> text_input_read(#[trigger] fs[i], m.components@[i])
}

/// Build the schema of a modal with the given custom id.
///
/// The fields are parsed, and there must be between one and five of them;
/// the type needs its `#[modal(...)]` attribute with a title.
pub fn create_modal(attribute: Option<Vec<(String, AttrValue)>>, fields: Vec<ModalFieldDecl>, custom_id: String) -> (r: Result<ModalData, DeriveError>)
    ensures
        !(forall|i: int| 0 <= i < fields@.len() ==> modal_decl_ok(#[trigger] fields@[i])) ==> (r matches Err(e) && exists|i: int|
            0 <= i < fields@.len() && !modal_decl_ok(#[trigger] fields@[i]) && modal_decl_error(fields@[i], e)
            && forall|j: int| 0 <= j < i ==> modal_decl_ok(#[trigger] fields@[j])),
        (forall|i: int| 0 <= i < fields@.len() ==> modal_decl_ok(#[trigger] fields@[i])) ==> {
            if !(1 <= fields@.len() <= 5) {
                r == Err::<ModalData, _>(DeriveError::ModalFieldCount)
            } else if attribute is None {
                r == Err::<ModalData, _>(DeriveError::MissingAttribute)
            } else if !all_keys_allowed(entries_of(attribute), modal_keys()) {
                r matches Err(e) && invalid_argument_error(entries_of(attribute), modal_keys(), e)
            } else if read_bounded(attr_lookup(entries_of(attribute), "title"@), 1, 45) is Err {
                r == Err::<ModalData, _>(read_bounded(attr_lookup(entries_of(attribute), "title"@), 1, 45)->Err_0)
            } else if read_bounded(attr_lookup(entries_of(attribute), "custom_id"@), 1, 100) is Err {
                r == Err::<ModalData, _>(read_bounded(attr_lookup(entries_of(attribute), "custom_id"@), 1, 100)->Err_0)
            } else if read_bounded(attr_lookup(entries_of(attribute), "title"@), 1, 45) matches Ok(None) {
                r == Err::<ModalData, _>(DeriveError::MissingTitle)
            } else {
                exists|fs: Seq<StructField>| modal_fields_read(fields@, fs) && #[trigger] modal_outcome(
                    fs,
                    read_bounded(attr_lookup(entries_of(attribute), "title"@), 1, 45)->Ok_0->0,
                    custom_id@,
                    r,
                )
            }
        },
{
    let ghost decls = fields@;
    let ghost attr = attribute;
    let fields = match StructField::from_fields(fields) {
        Ok(f) => f,
        Err(e) => return Err(e),
    };
    let ghost fs = fields@;
    let n = fields.len();
    if n < 1 || n > 5 {
        return Err(DeriveError::ModalFieldCount);
    }
    let entries = match attribute {
        Some(e) => e,
        None => return Err(DeriveError::MissingAttribute),
    };
    assert(entries@ == entries_of(attr));
    let a = match TypeAttribute::parse(entries) {
        Ok(a) => a,
        Err(e) => return Err(e),
    };
    let title = match a.title {
        Some(t) => t.into_string(),
        None => return Err(DeriveError::MissingTitle),
    };
    let mut components: Vec<TextInput> = Vec::new();
    let mut i: usize = 0;
    while i < n
        invariant
            n == fields@.len(),
            fs == fields@,
            i <= n,
            components@.len() == i,
            forall|j: int| 0 <= j < i ==> text_input_read(#[trigger] fs[j], components@[j]),
        decreases n - i,
    {
        components.push(text_input(&fields[i]));
        i += 1;
    }
    let m = ModalData { custom_id, title, components };
    assert(modal_fields_read(decls, fs));
    assert(modal_outcome(fs, read_bounded(attr_lookup(entries_of(attr), "title"@), 1, 45)->Ok_0->0, m.custom_id@, Ok(m)));
    Ok(m)
}

/// One submitted component: its custom id and value.
#[derive(Debug)]
pub struct ModalComponent {
    pub custom_id: String,
    pub value: Option<String>,
}

/// A submitted action row.
#[derive(Debug)]
pub struct ModalActionRow {
    pub components: Vec<ModalComponent>,
}

/// Data submitted with a modal.
#[derive(Debug)]
pub struct ModalInputData {
    pub components: Vec<ModalActionRow>,
}

/// The components of action rows, in order.
pub open spec fn flat(rows: Seq<ModalActionRow>) -> Seq<ModalComponent>
    decreases rows.len(),
{
    if rows.len() == 0 {
        Seq::empty()
    } else {
        flat(rows.drop_last()) + rows.last().components@
    }
}

fn flatten(rows: Vec<ModalActionRow>) -> (r: Vec<ModalComponent>)
    ensures
        r@ == flat(rows@),
{
    let ghost orig = rows@;
    let total = rows.len();
    let mut rest = rows;
    let mut out: Vec<ModalComponent> = Vec::new();
    let mut n: usize = 0;
    while rest.len() > 0
        invariant
            orig == rows@,
            total == orig.len(),
            n <= total,
            rest@ == orig.subrange(n as int, total as int),
            out@ == flat(orig.subrange(0, n as int)),
        decreases rest@.len(),
    {
        let row = rest.remove(0);
        assert(row == orig[n as int]);
        let ghost before = out@;
        let mut comps = row.components;
        let ghost cs = comps@;
        let mut k: usize = 0;
        let m = comps.len();
        while comps.len() > 0
            invariant
                m == cs.len(),
                k <= m,
                comps@ == cs.subrange(k as int, m as int),
                out@ == before + cs.subrange(0, k as int),
            decreases comps@.len(),
        {
            let c = comps.remove(0);
            assert(c == cs[k as int]);
            out.push(c);
            k += 1;
            assert(comps@ =~= cs.subrange(k as int, m as int));
            assert(out@ =~= before + cs.subrange(0, k as int));
        }
        n += 1;
        assert(orig.subrange(0, n as int).drop_last() =~= orig.subrange(0, n - 1));
        assert(cs.subrange(0, m as int) =~= cs);
        assert(rest@ =~= orig.subrange(n as int, total as int));
    }
    assert(orig.subrange(0, total as int) =~= orig);
    out
}

/// Index of the first component at or after `k` whose custom id is `id`.
pub open spec fn component_index_from(comps: Seq<ModalComponent>, id: Seq<char>, k: nat) -> Option<int>
    decreases comps.len() - k,
{
    if k >= comps.len() {
        None
    } else if comps[k as int].custom_id@ == id {
        Some(k as int)
    } else {
        component_index_from(comps, id, k + 1)
    }
}

fn copy_text(v: &Option<String>) -> (r: Option<String>)
    ensures
        r == *v,
{
    match v {
        Some(s) => Some(s.clone()),
        None => None,
    }
}

impl ModalInputData {
    /// The value of the first submitted component with the given custom id,
    /// across all rows; `None` when no component has it.
    pub fn parse_component(&self, custom_id: &str) -> (r: Option<Option<String>>)
        ensures
            match component_index_from(flat(self.components@), custom_id@, 0) {
                None => r is None,
                Some(i) => r == Some(flat(self.components@)[i].value),
            },
    {
        let ghost all = flat(self.components@);
        let mut row: usize = 0;
        proof {
            assert(self.components@.subrange(0, 0) =~= Seq::<ModalActionRow>::empty());
        }
        while row < self.components.len()
            invariant
                all == flat(self.components@),
                row <= self.components@.len(),
                component_index_from(all, custom_id@, 0) == component_index_from(all, custom_id@, flat(self.components@.subrange(0, row as int)).len()),
                flat(self.components@.subrange(0, row as int)).len() <= all.len(),
                all.subrange(0, flat(self.components@.subrange(0, row as int)).len() as int) == flat(self.components@.subrange(0, row as int)),
            decreases self.components@.len() - row,
        {
            let ghost pre = flat(self.components@.subrange(0, row as int));
            let ghost post = flat(self.components@.subrange(0, row + 1));
            let comps = &self.components[row].components;
            proof {
                assert(self.components@.subrange(0, row + 1).drop_last() =~= self.components@.subrange(0, row as int));
                assert(post == pre + comps@);
                lemma_flat_prefix(self.components@, row + 1);
            }
            let mut k: usize = 0;
            while k < comps.len()
                invariant
                    all == flat(self.components@),
                    post == pre + comps@,
                    post.len() <= all.len(),
                    all.subrange(0, post.len() as int) == post,
                    k <= comps@.len(),
                    component_index_from(all, custom_id@, 0) == component_index_from(all, custom_id@, (pre.len() + k) as nat),
                decreases comps@.len() - k,
            {
                assert(all[pre.len() + k] == comps@[k as int]) by {
                    assert(all.subrange(0, post.len() as int)[pre.len() + k] == post[pre.len() + k]);
                }
                if str_eq(comps[k].custom_id.as_str(), custom_id) {
                    return Some(copy_text(&comps[k].value));
                }
                k += 1;
            }
            row += 1;
        }
        proof {
            assert(self.components@.subrange(0, row as int) =~= self.components@);
        }
        None
    }
}

proof fn lemma_flat_prefix(rows: Seq<ModalActionRow>, n: int)
    requires
        0 <= n <= rows.len(),
    ensures
        flat(rows.subrange(0, n)).len() <= flat(rows).len(),
        flat(rows).subrange(0, flat(rows.subrange(0, n)).len() as int) == flat(rows.subrange(0, n)),
    decreases rows.len() - n,
{
    if n < rows.len() {
        lemma_flat_prefix(rows, n + 1);
        let a = rows.subrange(0, n);
        let b = rows.subrange(0, n + 1);
        assert(b.drop_last() =~= a);
        assert(flat(b) == flat(a) + b.last().components@);
        assert(flat(rows).subrange(0, flat(a).len() as int) =~= flat(b).subrange(0, flat(a).len() as int));
        assert(flat(b).subrange(0, flat(a).len() as int) =~= flat(a));
    } else {
        assert(rows.subrange(0, n) =~= rows);
        assert(flat(rows).subrange(0, flat(rows).len() as int) =~= flat(rows));
    }
}

/// A validated modal model: its fields in declaration order.
#[derive(Debug)]
pub struct ModalModel {
    pub fields: Vec<StructField>,
}

/// Index of the first field at or after `k` whose custom id is `id`.
pub open spec fn modal_index_from(fields: Seq<StructField>, id: Seq<char>, k: nat) -> Option<int>
    decreases fields.len() - k,
{
    if k >= fields.len() {
        None
    } else if field_custom_id(fields[k as int]) == id {
        Some(k as int)
    } else {
        modal_index_from(fields, id, k + 1)
    }
}

/// The field values after reading the first `n` components: each goes to the
/// first field of its custom id, a later one overriding an earlier one; a
/// component of no field fails.
pub open spec fn modal_slots(fields: Seq<StructField>, comps: Seq<ModalComponent>, n: nat) -> Result<Seq<Option<String>>, ParseError>
    decreases n,
{
    if n == 0 || n > comps.len() {
        Ok(Seq::new(fields.len(), |i: int| None))
    } else {
        match modal_slots(fields, comps, (n - 1) as nat) {
            Err(e) => Err(e),
            Ok(slots) => {
                let c = comps[n - 1];
                match modal_index_from(fields, c.custom_id@, 0) {
                    None => Err(ParseError::Option(ParseOptionError { field: c.custom_id, kind: ParseOptionErrorType::UnknownField })),
                    Some(i) => Ok(slots.update(i, c.value)),
                }
            },
        }
    }
}

/// Index of the first required field at or after `k` without a value.
pub open spec fn modal_missing_from(fields: Seq<StructField>, slots: Seq<Option<String>>, k: nat) -> Option<int>
    decreases fields.len() - k,
{
    if k >= fields.len() {
        None
    } else if fields[k as int].kind == FieldType::Required && slots[k as int] is None {
        Some(k as int)
    } else {
        modal_missing_from(fields, slots, k + 1)
    }
}

/// The outcome of parsing submitted components into a modal's field values.
pub open spec fn parse_modal(fields: Seq<StructField>, comps: Seq<ModalComponent>) -> Result<Seq<Option<String>>, ParseError> {
    match modal_slots(fields, comps, comps.len()) {
        Err(e) => Err(e),
        Ok(slots) => match modal_missing_from(fields, slots, 0) {
            Some(i) => Err(ParseError::Option(ParseOptionError { field: fields[i].ident, kind: ParseOptionErrorType::RequiredField })),
            None => Ok(slots),
        },
    }
}

proof fn lemma_modal_slots(fields: Seq<StructField>, comps: Seq<ModalComponent>, n: nat)
    ensures
        modal_slots(fields, comps, n) matches Ok(s) ==> s.len() == fields.len(),
    decreases n,
{
    if n > 0 && n <= comps.len() {
        lemma_modal_slots(fields, comps, (n - 1) as nat);
        lemma_modal_index_from(fields, comps[n - 1].custom_id@, 0);
    }
}

proof fn lemma_modal_index_from(fields: Seq<StructField>, id: Seq<char>, k: nat)
    ensures
        modal_index_from(fields, id, k) matches Some(i) ==> k <= i < fields.len(),
    decreases fields.len() - k,
{
    if k < fields.len() {
        lemma_modal_index_from(fields, id, k + 1);
    }
}

proof fn lemma_modal_slots_err(fields: Seq<StructField>, comps: Seq<ModalComponent>, n: nat, k: nat)
    requires
        0 < n <= k <= comps.len(),
        modal_slots(fields, comps, n) is Err,
    ensures
        modal_slots(fields, comps, k) == modal_slots(fields, comps, n),
    decreases k - n,
{
    if k > n {
        lemma_modal_slots_err(fields, comps, n, (k - 1) as nat);
    }
}

impl ModalModel {
    fn find_custom_id(&self, id: &str) -> (r: Option<usize>)
        ensures
            match r {
                Some(i) => modal_index_from(self.fields@, id@, 0) == Some(i as int),
                None => modal_index_from(self.fields@, id@, 0) is None,
            },
    {
        let mut i: usize = 0;
        while i < self.fields.len()
            invariant
                i <= self.fields@.len(),
                modal_index_from(self.fields@, id@, 0) == modal_index_from(self.fields@, id@, i as nat),
            decreases self.fields@.len() - i,
        {
            if str_eq(self.fields[i].custom_id(), id) {
                return Some(i);
            }
            i += 1;
        }
        None
    }

    /// Validate a modal declaration's fields.
    pub fn new(fields: Vec<ModalFieldDecl>) -> (r: Result<ModalModel, DeriveError>)
        ensures
            r is Ok <==> forall|i: int| 0 <= i < fields@.len() ==> modal_decl_ok(#[trigger] fields@[i]),
            r matches Ok(m) ==> modal_fields_read(fields@, m.fields@),
            r matches Err(e) ==> exists|i: int|
                0 <= i < fields@.len() && !modal_decl_ok(#[trigger] fields@[i]) && modal_decl_error(fields@[i], e)
                && forall|j: int| 0 <= j < i ==> modal_decl_ok(#[trigger] fields@[j]),
    {
        match StructField::from_fields(fields) {
            Ok(fields) => Ok(ModalModel { fields }),
            Err(e) => Err(e),
        }
    }

    /// Parse submitted components into the fields' values, in field order.
    /// Every component must belong to a field (matched by custom id); a
    /// required field without value fails.
    pub fn from_interaction(&self, data: ModalInputData) -> (r: Result<Vec<Option<String>>, ParseError>)
        ensures
            match r {
                Ok(v) => parse_modal(self.fields@, flat(data.components@)) == Ok::<_, ParseError>(v@),
                Err(e) => parse_modal(self.fields@, flat(data.components@)) == Err::<Seq<Option<String>>, _>(e),
            },
    {
        let comps = flatten(data.components);
        let ghost cv = comps@;
        let nfields = self.fields.len();
        let mut slots: Vec<Option<String>> = Vec::new();
        let mut k: usize = 0;
        while k < nfields
            invariant
                nfields == self.fields@.len(),
                k <= nfields,
                slots@ == Seq::new(k as nat, |i: int| None::<String>),
            decreases nfields - k,
        {
            slots.push(None);
            k += 1;
            assert(slots@ =~= Seq::new(k as nat, |i: int| None::<String>));
        }
        assert(slots@ =~= Seq::new(self.fields@.len(), |i: int| None::<String>));
        let total = comps.len();
        let mut rest = comps;
        let mut n: usize = 0;
        while rest.len() > 0
            invariant
                cv == flat(data.components@),
                total == cv.len(),
                n <= total,
                rest@ == cv.subrange(n as int, total as int),
                modal_slots(self.fields@, cv, n as nat) == Ok::<_, ParseError>(slots@),
            decreases rest@.len(),
        {
            let c = rest.remove(0);
            assert(c == cv[n as int]);
            proof {
                lemma_modal_slots(self.fields@, cv, n as nat);
            }
            let ModalComponent { custom_id, value } = c;
            let found = self.find_custom_id(custom_id.as_str());
            match found {
                None => {
                    let e = ParseError::Option(ParseOptionError { field: custom_id, kind: ParseOptionErrorType::UnknownField });
                    proof {
                        assert(modal_slots(self.fields@, cv, (n + 1) as nat) == Err::<Seq<Option<String>>, _>(e));
                        lemma_modal_slots_err(self.fields@, cv, (n + 1) as nat, total as nat);
                    }
                    return Err(e);
                },
                Some(j) => {
                    proof {
                        lemma_modal_index_from(self.fields@, custom_id@, 0);
                    }
                    slots.set(j, value);
                },
            }
            n += 1;
            assert(rest@ =~= cv.subrange(n as int, total as int));
        }
        proof {
            lemma_modal_slots(self.fields@, cv, n as nat);
        }
        let mut i: usize = 0;
        while i < nfields
            invariant
                cv == flat(data.components@),
                modal_slots(self.fields@, cv, cv.len()) == Ok::<_, ParseError>(slots@),
                nfields == self.fields@.len(),
                slots@.len() == nfields,
                i <= nfields,
                modal_missing_from(self.fields@, slots@, 0) == modal_missing_from(self.fields@, slots@, i as nat),
            decreases nfields - i,
        {
            if self.fields[i].kind == FieldType::Required && slots[i].is_none() {
                return Err(ParseError::Option(ParseOptionError { field: self.fields[i].ident.clone(), kind: ParseOptionErrorType::RequiredField }));
            }
            i += 1;
        }
        Ok(slots)
    }
}

} // verus!
