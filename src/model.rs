//! Command models: validated struct declarations, and the parsing of received
//! option lists into their field values.
use vstd::prelude::*;

use crate::attribute::{attr_lookup, read_bool, AttrValue};
use crate::channel::ChannelType;
use crate::chars::str_eq;
use crate::command::{
    classify, classify_type, field_attribute_error, field_attribute_ok, field_attribute_read,
    model_keys, type_attribute_error, type_attribute_ok, CommandOptionValue,
    FieldAttribute, FieldType, TypeAttribute, TypeRef,
};
use crate::error::{DeriveError, ParseError, ParseOptionError, ParseOptionErrorType};
use crate::localization::Localizations;
use crate::value::{
    coerce, coerce_value, kind_of, CommandDataOption, CommandOptionData, OptionDataView, OptionValue,
    ParsedValue, ResolvedData, ValueType,
};

verus! {

/// A struct field as declared.
#[derive(Debug)]
pub struct FieldDecl {
    pub ident: Option<String>,
    /// The declared type, wrappers included.
    pub ty: TypeRef,
    /// The type of value the field holds once wrappers are stripped.
    pub value_type: ValueType,
    /// Entries of the field's `#[command(...)]` attribute, if it has one.
    pub attribute: Option<Vec<(String, AttrValue)>>,
    /// First line of the field's documentation comment.
    pub doc: Option<String>,
    /// Values of the localization functions the attribute names.
    pub localizations: Localizations,
}

/// Parsed struct field.
#[derive(Debug)]
pub struct StructField {
    pub ident: String,
    /// The declared type with one `Option` or `AutocompleteValue` layer
    /// stripped.
    pub ty: TypeRef,
    pub value_type: ValueType,
    pub attributes: FieldAttribute,
    pub kind: FieldType,
    pub doc: Option<String>,
    pub localizations: Localizations,
}

/// The attribute entries of a declaration (none without the attribute).
pub open spec fn entries_of(a: Option<Vec<(String, AttrValue)>>) -> Seq<(String, AttrValue)> {
    match a {
        Some(v) => v@,
        None => Seq::empty(),
    }
}

/// Whether a field declaration parses.
pub open spec fn field_decl_ok(d: FieldDecl) -> bool {
    &&& classify(d.ty) is Ok
    &&& field_attribute_ok(entries_of(d.attribute))
    &&& d.ident is Some
}

/// Whether `e` is the error of parsing a field declaration.
pub open spec fn field_decl_error(d: FieldDecl, e: DeriveError) -> bool {
    if classify(d.ty) is Err {
        e == classify(d.ty)->Err_0
    } else if !field_attribute_ok(entries_of(d.attribute)) {
        field_attribute_error(entries_of(d.attribute), e)
    } else {
        e == DeriveError::MissingIdentifier
    }
}

/// Whether `f` is what a field declaration parses to.
pub open spec fn field_decl_read(d: FieldDecl, f: StructField) -> bool {
    &&& d.ident == Some(f.ident)
    &&& classify(d.ty) == Ok::<_, DeriveError>((f.kind, f.ty))
    &&& f.value_type == d.value_type
    &&& field_attribute_read(entries_of(d.attribute), f.attributes)
    &&& f.doc == d.doc
    &&& f.localizations == d.localizations
}

impl StructField {
    /// Parse a field declaration: classify its type, then read its attribute.
    pub fn from_field(field: FieldDecl) -> (r: Result<StructField, DeriveError>)
        ensures
            r is Ok <==> field_decl_ok(field),
            match r {
                Ok(f) => field_decl_read(field, f),
                Err(e) => field_decl_error(field, e),
            },
    {
        let ghost d = field;
        let FieldDecl { ident, ty, value_type, attribute, doc, localizations } = field;
        let (kind, ty) = match classify_type(ty) {
            Ok(c) => c,
            Err(e) => return Err(e),
        };
        let entries = match attribute {
            Some(v) => v,
            None => Vec::new(),
        };
        assert(entries@ == entries_of(d.attribute));
        let attributes = match FieldAttribute::parse(entries) {
            Ok(a) => a,
            Err(e) => return Err(e),
        };
        match ident {
            Some(ident) => Ok(StructField { ident, ty, value_type, attributes, kind, doc, localizations }),
            None => Err(DeriveError::MissingIdentifier),
        }
    }

    /// Parse the fields of a struct in order; the first failing field fails.
    pub fn from_fields(fields: Vec<FieldDecl>) -> (r: Result<Vec<StructField>, DeriveError>)
        ensures
            r is Ok <==> forall|i: int| 0 <= i < fields@.len() ==> field_decl_ok(#[trigger] fields@[i]),
            match r {
                Ok(v) => v@.len() == fields@.len() && forall|i: int|
                    0 <= i < v@.len() ==> field_decl_read(#[trigger] fields@[i], v@[i]),
                Err(e) => exists|i: int|
                    0 <= i < fields@.len() && field_decl_error(#[trigger] fields@[i], e)
                    && !field_decl_ok(fields@[i])
                    && forall|j: int| 0 <= j < i ==> field_decl_ok(#[trigger] fields@[j]),
            },
    {
        let ghost orig = fields@;
        let total = fields.len();
        let mut rest = fields;
        let mut out: Vec<StructField> = Vec::new();
        let mut n: usize = 0;
        while rest.len() > 0
            invariant
                orig == fields@,
                total == orig.len(),
                n <= orig.len(),
                rest@ == orig.subrange(n as int, orig.len() as int),
                out@.len() == n,
                forall|i: int| 0 <= i < n ==> field_decl_ok(#[trigger] orig[i]),
                forall|i: int| 0 <= i < n ==> field_decl_read(#[trigger] orig[i], out@[i]),
            decreases rest@.len(),
        {
            let d = rest.remove(0);
            assert(d == orig[n as int]);
            match StructField::from_field(d) {
                Ok(f) => out.push(f),
                Err(e) => {
                    assert(field_decl_error(orig[n as int], e) && !field_decl_ok(orig[n as int]));
                    return Err(e);
                },
            }
            n += 1;
            assert(rest@ =~= orig.subrange(n as int, orig.len() as int));
        }
        Ok(out)
    }
}

/// A field's name in received data: its rename, else its identifier.
pub open spec fn field_name(f: StructField) -> Seq<char> {
    match f.attributes.rename {
        Some(n) => n@,
        None => f.ident@,
    }
}

impl StructField {
    pub fn name(&self) -> (r: &str)
        ensures
            r@ == field_name(*self),
    {
        match &self.attributes.rename {
            Some(n) => n.as_str(),
            None => self.ident.as_str(),
        }
    }
}

/// The constraints a field's attribute puts on its values.
pub open spec fn field_data(a: FieldAttribute) -> OptionDataView {
    OptionDataView {
        channel_types: if a.channel_types@.len() == 0 {
            None
        } else {
            Some(a.channel_types@)
        },
        max_value: a.max_value,
        min_value: a.min_value,
        max_length: a.max_length,
        min_length: a.min_length,
    }
}

fn copy_bound(v: &Option<CommandOptionValue>) -> (r: Option<CommandOptionValue>)
    ensures
        r == *v,
{
    match v {
        None => None,
        Some(CommandOptionValue::Integer(i)) => Some(CommandOptionValue::Integer(*i)),
        Some(CommandOptionValue::Number(t)) => Some(CommandOptionValue::Number(t.clone())),
    }
}

fn copy_channel_types(v: &Vec<ChannelType>) -> (r: Vec<ChannelType>)
    ensures
        r@ == v@,
{
    let mut out: Vec<ChannelType> = Vec::new();
    let mut i: usize = 0;
    while i < v.len()
        invariant
            i <= v@.len(),
            out@ == v@.subrange(0, i as int),
        decreases v@.len() - i,
    {
        out.push(v[i]);
        i += 1;
        assert(out@ =~= v@.subrange(0, i as int));
    }
    assert(out@ =~= v@);
    out
}

impl FieldAttribute {
    /// The constraint bundle handed to value coercion and to the schema.
    pub fn option_data(&self) -> (r: CommandOptionData)
        ensures
            r@ == field_data(*self),
    {
        let channel_types = if self.channel_types.len() == 0 {
            None
        } else {
            Some(copy_channel_types(&self.channel_types))
        };
        CommandOptionData {
            channel_types,
            max_value: copy_bound(&self.max_value),
            min_value: copy_bound(&self.min_value),
            max_length: self.max_length,
            min_length: self.min_length,
        }
    }
}

/// An autocomplete field's value.
#[derive(Debug, PartialEq, Eq)]
pub enum AutocompleteValue<T> {
    /// The field has not been completed yet.
    Pending,
    /// The field is focused by the user and being completed.
    Focused(String),
    /// The field has been completed by the user.
    Completed(T),
}

/// The value of a parsed field, by the field's kind.
#[derive(Debug, PartialEq, Eq)]
pub enum FieldValue {
    Required(ParsedValue),
    Optional(Option<ParsedValue>),
    Autocomplete(AutocompleteValue<ParsedValue>),
}

/// A validated command model: its fields in declaration order, and whether it
/// is a partial (autocomplete) model.
#[derive(Debug)]
pub struct CommandModel {
    pub fields: Vec<StructField>,
    pub autocomplete: bool,
}

/// Whether a field kind is allowed in a model of the given mode: autocomplete
/// models hold only optional and autocomplete fields, and autocomplete fields
/// stand only in autocomplete models.
pub open spec fn kind_allowed(kind: FieldType, autocomplete: bool) -> bool {
    if autocomplete {
        kind != FieldType::Required
    } else {
        kind != FieldType::Autocomplete
    }
}

pub open spec fn kind_error(autocomplete: bool) -> DeriveError {
    if autocomplete {
        DeriveError::RequiredInAutocompleteModel
    } else {
        DeriveError::AutocompleteOutsideModel
    }
}

/// The autocomplete flag a model's type attribute reads to (false without
/// it).
pub open spec fn model_autocomplete(attribute: Option<Vec<(String, AttrValue)>>) -> bool {
    match attribute {
        Some(v) => match read_bool(attr_lookup(v@, "autocomplete"@)) {
            Ok(Some(b)) => b,
            _ => false,
        },
        None => false,
    }
}

/// Whether a model's type attribute, if any, reads without error.
pub open spec fn model_attribute_ok(attribute: Option<Vec<(String, AttrValue)>>) -> bool {
    match attribute {
        Some(v) => type_attribute_ok(v@, model_keys()),
        None => true,
    }
}

/// Whether a model declaration is valid.
pub open spec fn model_decl_ok(attribute: Option<Vec<(String, AttrValue)>>, fields: Seq<FieldDecl>) -> bool {
    &&& forall|i: int| 0 <= i < fields.len() ==> field_decl_ok(#[trigger] fields[i])
    &&& model_attribute_ok(attribute)
    &&& forall|i: int| 0 <= i < fields.len() ==> kind_allowed(
        (#[trigger] classify(fields[i].ty))->Ok_0.0,
        model_autocomplete(attribute),
    )
}

fn check_kinds(fields: &Vec<StructField>, autocomplete: bool) -> (r: Result<(), DeriveError>)
    ensures
        r is Ok <==> forall|i: int| 0 <= i < fields@.len() ==> kind_allowed(#[trigger] fields@[i].kind, autocomplete),
        r matches Err(e) ==> e == kind_error(autocomplete),
{
    let mut i: usize = 0;
    while i < fields.len()
        invariant
            i <= fields@.len(),
            forall|j: int| 0 <= j < i ==> kind_allowed(#[trigger] fields@[j].kind, autocomplete),
        decreases fields@.len() - i,
    {
        let kind = fields[i].kind;
        if autocomplete && kind == FieldType::Required {
            return Err(DeriveError::RequiredInAutocompleteModel);
        }
        if !autocomplete && kind == FieldType::Autocomplete {
            return Err(DeriveError::AutocompleteOutsideModel);
        }
        i += 1;
    }
    Ok(())
}

impl CommandModel {
    /// Validate a struct declaration as a command model: parse its fields,
    /// read its type attribute, and check each field's kind against the
    /// model's autocomplete mode.
    pub fn new(attribute: Option<Vec<(String, AttrValue)>>, fields: Vec<FieldDecl>) -> (r: Result<CommandModel, DeriveError>)
        ensures
            r is Ok <==> model_decl_ok(attribute, fields@),
            match r {
                Ok(m) => m.autocomplete == model_autocomplete(attribute)
                    && m.fields@.len() == fields@.len()
                    && forall|i: int| 0 <= i < fields@.len() ==> field_decl_read(#[trigger] fields@[i], m.fields@[i]),
                Err(e) => if !(forall|i: int| 0 <= i < fields@.len() ==> field_decl_ok(#[trigger] fields@[i])) {
                    exists|i: int|
                        0 <= i < fields@.len() && field_decl_error(#[trigger] fields@[i], e)
                        && !field_decl_ok(fields@[i])
                        && forall|j: int| 0 <= j < i ==> field_decl_ok(#[trigger] fields@[j])
                } else if !model_attribute_ok(attribute) {
                    type_attribute_error(entries_of(attribute), model_keys(), e)
                } else {
                    e == kind_error(model_autocomplete(attribute))
                },
            },
    {
        let ghost decls = fields@;
        let ghost attr = attribute;
        let fields = match StructField::from_fields(fields) {
            Ok(f) => f,
            Err(e) => return Err(e),
        };
        let autocomplete = match attribute {
            Some(entries) => match TypeAttribute::parse(entries) {
                Ok(a) => match a.autocomplete {
                    Some(b) => b,
                    None => false,
                },
                Err(e) => return Err(e),
            },
            None => false,
        };
        assert(autocomplete == model_autocomplete(attr));
        assert forall|i: int| 0 <= i < decls.len() implies #[trigger] classify(decls[i].ty)->Ok_0.0 == fields@[i].kind by {
            assert(field_decl_read(decls[i], fields@[i]));
        }
        match check_kinds(&fields, autocomplete) {
            Ok(()) => {},
            Err(e) => {
                assert(!model_decl_ok(attr, decls)) by {
                    let k = choose|i: int| 0 <= i < fields@.len() && !kind_allowed(#[trigger] fields@[i].kind, autocomplete);
                    assert(classify(decls[k].ty)->Ok_0.0 == fields@[k].kind);
                }
                return Err(e);
            },
        }
        Ok(CommandModel { fields, autocomplete })
    }
}

/// Data received with a command: its options in order, and the resolved
/// entities.
#[derive(Debug)]
pub struct CommandInputData {
    pub options: Vec<CommandDataOption>,
    pub resolved: Option<ResolvedData>,
}

/// Index of the first field at or after `k` whose name is `name`.
pub open spec fn field_index_from(fields: Seq<StructField>, name: Seq<char>, k: nat) -> Option<int>
    decreases fields.len() - k,
{
    if k >= fields.len() {
        None
    } else if field_name(fields[k as int]) == name {
        Some(k as int)
    } else {
        field_index_from(fields, name, k + 1)
    }
}

/// Index of the first field whose name is `name`.
pub open spec fn field_index(fields: Seq<StructField>, name: Seq<char>) -> Option<int> {
    field_index_from(fields, name, 0)
}

proof fn lemma_field_index_from(fields: Seq<StructField>, name: Seq<char>, k: nat)
    ensures
        match field_index_from(fields, name, k) {
            Some(i) => k <= i < fields.len() && field_name(fields[i]) == name,
            None => forall|j: int| k <= j < fields.len() ==> field_name(#[trigger] fields[j]) != name,
        },
    decreases fields.len() - k,
{
    if k < fields.len() {
        lemma_field_index_from(fields, name, k + 1);
    }
}

/// The value a matched option gives its field.
pub open spec fn coerce_field(f: StructField, v: OptionValue, r: Option<ResolvedData>) -> Result<FieldValue, ParseOptionErrorType> {
    match f.kind {
        FieldType::Autocomplete => match v {
            OptionValue::Focused(s, _) => Ok(FieldValue::Autocomplete(AutocompleteValue::Focused(s))),
            other => match coerce(f.value_type, other, field_data(f.attributes), r) {
                Ok(p) => Ok(FieldValue::Autocomplete(AutocompleteValue::Completed(p))),
                Err(e) => Err(e),
            },
        },
        FieldType::Optional => match coerce(f.value_type, v, field_data(f.attributes), r) {
            Ok(p) => Ok(FieldValue::Optional(Some(p))),
            Err(e) => Err(e),
        },
        FieldType::Required => match coerce(f.value_type, v, field_data(f.attributes), r) {
            Ok(p) => Ok(FieldValue::Required(p)),
            Err(e) => Err(e),
        },
    }
}

/// The field slots after reading the first `n` options: each option goes to
/// the first field of its name, a later option overriding an earlier one; an
/// option of no field is skipped by an autocomplete model and fails any other.
pub open spec fn parse_slots(m: CommandModel, opts: Seq<CommandDataOption>, r: Option<ResolvedData>, n: nat) -> Result<Seq<Option<FieldValue>>, ParseError>
    decreases n,
{
    if n == 0 || n > opts.len() {
        Ok(Seq::new(m.fields@.len(), |i: int| None))
    } else {
        match parse_slots(m, opts, r, (n - 1) as nat) {
            Err(e) => Err(e),
            Ok(slots) => {
                let o = opts[n - 1];
                match field_index(m.fields@, o.name@) {
                    None => if m.autocomplete {
                        Ok(slots)
                    } else {
                        Err(ParseError::Option(ParseOptionError { field: o.name, kind: ParseOptionErrorType::UnknownField }))
                    },
                    Some(i) => match coerce_field(m.fields@[i], o.value, r) {
                        Ok(v) => Ok(slots.update(i, Some(v))),
                        Err(k) => Err(ParseError::Option(ParseOptionError { field: o.name, kind: k })),
                    },
                }
            },
        }
    }
}

/// Index of the first required field at or after `k` without a value.
pub open spec fn missing_from(fields: Seq<StructField>, slots: Seq<Option<FieldValue>>, k: nat) -> Option<int>
    decreases fields.len() - k,
{
    if k >= fields.len() {
        None
    } else if fields[k as int].kind == FieldType::Required && slots[k as int] is None {
        Some(k as int)
    } else {
        missing_from(fields, slots, k + 1)
    }
}

/// The value of a field from its slot: what was read, else the default of
/// its kind.
pub open spec fn slot_value(kind: FieldType, slot: Option<FieldValue>) -> FieldValue {
    match slot {
        Some(v) => v,
        None => match kind {
            FieldType::Autocomplete => FieldValue::Autocomplete(AutocompleteValue::Pending),
            _ => FieldValue::Optional(None),
        },
    }
}

/// The field values of a model from its filled slots.
pub open spec fn finish(fields: Seq<StructField>, slots: Seq<Option<FieldValue>>) -> Result<Seq<FieldValue>, ParseError> {
    match missing_from(fields, slots, 0) {
        Some(i) => Err(ParseError::Option(ParseOptionError { field: fields[i].ident, kind: ParseOptionErrorType::RequiredField })),
        None => Ok(Seq::new(fields.len(), |i: int| slot_value(fields[i].kind, slots[i]))),
    }
}

/// The outcome of parsing received data into a model's field values.
pub open spec fn parse_model(m: CommandModel, opts: Seq<CommandDataOption>, r: Option<ResolvedData>) -> Result<Seq<FieldValue>, ParseError> {
    match parse_slots(m, opts, r, opts.len()) {
        Err(e) => Err(e),
        Ok(slots) => finish(m.fields@, slots),
    }
}

proof fn lemma_parse_slots_len(m: CommandModel, opts: Seq<CommandDataOption>, r: Option<ResolvedData>, n: nat)
    ensures
        parse_slots(m, opts, r, n) matches Ok(s) ==> s.len() == m.fields@.len(),
    decreases n,
{
    if n > 0 && n <= opts.len() {
        lemma_parse_slots_len(m, opts, r, (n - 1) as nat);
        lemma_field_index_from(m.fields@, opts[n - 1].name@, 0);
    }
}

proof fn lemma_parse_slots_err(m: CommandModel, opts: Seq<CommandDataOption>, r: Option<ResolvedData>, n: nat, k: nat)
    requires
        0 < n <= k <= opts.len(),
        parse_slots(m, opts, r, n) is Err,
    ensures
        parse_slots(m, opts, r, k) == parse_slots(m, opts, r, n),
    decreases k - n,
{
    if k > n {
        lemma_parse_slots_err(m, opts, r, n, (k - 1) as nat);
    }
}

proof fn lemma_distinct_index(fields: Seq<StructField>, i: int, k: nat)
    requires
        k <= i < fields.len(),
        forall|a: int, b: int| 0 <= a < b < fields.len() ==> field_name(#[trigger] fields[a]) != field_name(#[trigger] fields[b]),
    ensures
        field_index_from(fields, field_name(fields[i]), k) == Some(i),
    decreases i - k,
{
    if k < i {
        assert(field_name(fields[k as int]) != field_name(fields[i]));
        lemma_distinct_index(fields, i, k + 1);
    }
}

/// Round trip: one option per field, in field order, named as the schema
/// names the field and holding a value the field accepts (of its kind,
/// within its bounds, resolvable) parses back to exactly those values. Field
/// names must be distinct, as the platform requires of a command's options.
pub proof fn lemma_round_trip(m: CommandModel, opts: Seq<CommandDataOption>, r: Option<ResolvedData>)
    requires
        opts.len() == m.fields@.len(),
        forall|a: int, b: int| 0 <= a < b < m.fields@.len() ==> field_name(#[trigger] m.fields@[a]) != field_name(#[trigger] m.fields@[b]),
        forall|i: int| 0 <= i < opts.len() ==> (#[trigger] opts[i]).name@ == field_name(m.fields@[i]),
        forall|i: int| 0 <= i < opts.len() ==> coerce_field(m.fields@[i], (#[trigger] opts[i]).value, r) is Ok,
    ensures
        parse_model(m, opts, r) == Ok::<_, ParseError>(
            Seq::new(opts.len(), |i: int| coerce_field(m.fields@[i], opts[i].value, r)->Ok_0),
        ),
{
    let n = opts.len();
    let vals = Seq::new(n, |i: int| coerce_field(m.fields@[i], opts[i].value, r)->Ok_0);
    lemma_round_trip_prefix(m, opts, r, n);
    let full = Seq::new(n, |i: int| if i < n { Some(coerce_field(m.fields@[i], opts[i].value, r)->Ok_0) } else { None::<FieldValue> });
    assert(parse_slots(m, opts, r, n) == Ok::<_, ParseError>(full));
    lemma_no_missing(m.fields@, full, 0);
    assert(Seq::new(m.fields@.len(), |i: int| slot_value(m.fields@[i].kind, full[i])) =~= vals);
}

proof fn lemma_no_missing(fields: Seq<StructField>, slots: Seq<Option<FieldValue>>, k: nat)
    requires
        slots.len() == fields.len(),
        forall|i: int| 0 <= i < slots.len() ==> (#[trigger] slots[i]) is Some,
    ensures
        missing_from(fields, slots, k) is None,
    decreases fields.len() - k,
{
    if k < fields.len() {
        lemma_no_missing(fields, slots, k + 1);
    }
}

proof fn lemma_round_trip_prefix(m: CommandModel, opts: Seq<CommandDataOption>, r: Option<ResolvedData>, k: nat)
    requires
        k <= opts.len(),
        opts.len() == m.fields@.len(),
        forall|a: int, b: int| 0 <= a < b < m.fields@.len() ==> field_name(#[trigger] m.fields@[a]) != field_name(#[trigger] m.fields@[b]),
        forall|i: int| 0 <= i < opts.len() ==> (#[trigger] opts[i]).name@ == field_name(m.fields@[i]),
        forall|i: int| 0 <= i < opts.len() ==> coerce_field(m.fields@[i], (#[trigger] opts[i]).value, r) is Ok,
    ensures
        parse_slots(m, opts, r, k) == Ok::<_, ParseError>(
            Seq::new(opts.len(), |i: int| if i < k { Some(coerce_field(m.fields@[i], opts[i].value, r)->Ok_0) } else { None }),
        ),
    decreases k,
{
    let n = opts.len();
    if k == 0 {
        assert(Seq::new(n, |i: int| if i < 0 { Some(coerce_field(m.fields@[i], opts[i].value, r)->Ok_0) } else { None::<FieldValue> })
            =~= Seq::new(m.fields@.len(), |i: int| None::<FieldValue>));
    } else {
        lemma_round_trip_prefix(m, opts, r, (k - 1) as nat);
        let j = k - 1;
        lemma_distinct_index(m.fields@, j, 0);
        assert(opts[j].name@ == field_name(m.fields@[j]));
        assert(field_index(m.fields@, opts[j].name@) == Some(j));
        let prev = Seq::new(n, |i: int| if i < k - 1 { Some(coerce_field(m.fields@[i], opts[i].value, r)->Ok_0) } else { None::<FieldValue> });
        let next = Seq::new(n, |i: int| if i < k { Some(coerce_field(m.fields@[i], opts[i].value, r)->Ok_0) } else { None::<FieldValue> });
        assert(prev.update(j, Some(coerce_field(m.fields@[j], opts[j].value, r)->Ok_0)) =~= next);
    }
}

impl CommandModel {
    fn find_field(&self, name: &str) -> (r: Option<usize>)
        ensures
            match r {
                Some(i) => field_index(self.fields@, name@) == Some(i as int),
                None => field_index(self.fields@, name@) is None,
            },
    {
        let mut i: usize = 0;
        while i < self.fields.len()
            invariant
                i <= self.fields@.len(),
                field_index(self.fields@, name@) == field_index_from(self.fields@, name@, i as nat),
            decreases self.fields@.len() - i,
        {
            if str_eq(self.fields[i].name(), name) {
                return Some(i);
            }
            i += 1;
        }
        None
    }

    fn coerce_field(&self, i: usize, v: OptionValue, r: &Option<ResolvedData>) -> (res: Result<FieldValue, ParseOptionErrorType>)
        requires
            i < self.fields@.len(),
        ensures
            res == coerce_field(self.fields@[i as int], v, *r),
    {
        let f = &self.fields[i];
        let data = f.attributes.option_data();
        match f.kind {
            FieldType::Autocomplete => match v {
                OptionValue::Focused(s, _) => Ok(FieldValue::Autocomplete(AutocompleteValue::Focused(s))),
                other => match coerce_value(f.value_type, other, &data, r) {
                    Ok(p) => Ok(FieldValue::Autocomplete(AutocompleteValue::Completed(p))),
                    Err(e) => Err(e),
                },
            },
            FieldType::Optional => match coerce_value(f.value_type, v, &data, r) {
                Ok(p) => Ok(FieldValue::Optional(Some(p))),
                Err(e) => Err(e),
            },
            FieldType::Required => match coerce_value(f.value_type, v, &data, r) {
                Ok(p) => Ok(FieldValue::Required(p)),
                Err(e) => Err(e),
            },
        }
    }

    /// Parse received data into the model's field values, in field order.
    ///
    /// Each option is matched by name (the rename, else the identifier) and
    /// coerced with the field's constraints; a coercion failure fails at once.
    /// An unknown option fails, except in an autocomplete model where it is
    /// skipped. A required field without value then fails; an optional one is
    /// absent and an autocomplete one is pending.
    pub fn from_interaction(&self, data: CommandInputData) -> (r: Result<Vec<FieldValue>, ParseError>)
        ensures
            match r {
                Ok(v) => parse_model(*self, data.options@, data.resolved) == Ok::<_, ParseError>(v@),
                Err(e) => parse_model(*self, data.options@, data.resolved) == Err::<Seq<FieldValue>, _>(e),
            },
    {
        let ghost opts = data.options@;
        let ghost res = data.resolved;
        let CommandInputData { options, resolved } = data;
        let nfields = self.fields.len();
        let mut slots: Vec<Option<FieldValue>> = Vec::new();
        let mut k: usize = 0;
        while k < nfields
            invariant
                nfields == self.fields@.len(),
                k <= nfields,
                slots@ == Seq::new(k as nat, |i: int| None::<FieldValue>),
            decreases nfields - k,
        {
            slots.push(None);
            k += 1;
            assert(slots@ =~= Seq::new(k as nat, |i: int| None::<FieldValue>));
        }
        assert(slots@ =~= Seq::new(self.fields@.len(), |i: int| None::<FieldValue>));
        let total = options.len();
        let mut rest = options;
        let mut n: usize = 0;
        while rest.len() > 0
            invariant
                opts == data.options@,
                res == data.resolved,
                resolved == res,
                total == opts.len(),
                n <= total,
                rest@ == opts.subrange(n as int, total as int),
                parse_slots(*self, opts, res, n as nat) == Ok::<_, ParseError>(slots@),
            decreases rest@.len(),
        {
            let o = rest.remove(0);
            assert(o == opts[n as int]);
            proof {
                lemma_parse_slots_len(*self, opts, res, n as nat);
            }
            let CommandDataOption { name, value } = o;
            match self.find_field(name.as_str()) {
                None => {
                    if !self.autocomplete {
                        let e = ParseError::Option(ParseOptionError { field: name, kind: ParseOptionErrorType::UnknownField });
                        proof {
                            assert(parse_slots(*self, opts, res, (n + 1) as nat) == Err::<Seq<Option<FieldValue>>, _>(e));
                            lemma_parse_slots_err(*self, opts, res, (n + 1) as nat, total as nat);
                        }
                        return Err(e);
                    }
                },
                Some(i) => {
                    proof {
                        lemma_field_index_from(self.fields@, name@, 0);
                    }
                    match self.coerce_field(i, value, &resolved) {
                        Ok(v) => slots.set(i, Some(v)),
                        Err(kind) => {
                            let e = ParseError::Option(ParseOptionError { field: name, kind });
                            proof {
                                assert(parse_slots(*self, opts, res, (n + 1) as nat) == Err::<Seq<Option<FieldValue>>, _>(e));
                                lemma_parse_slots_err(*self, opts, res, (n + 1) as nat, total as nat);
                            }
                            return Err(e);
                        },
                    }
                },
            }
            n += 1;
            assert(rest@ =~= opts.subrange(n as int, total as int));
        }
        proof {
            lemma_parse_slots_len(*self, opts, res, n as nat);
        }
        self.finish(slots)
    }

    fn finish(&self, slots: Vec<Option<FieldValue>>) -> (r: Result<Vec<FieldValue>, ParseError>)
        requires
            slots@.len() == self.fields@.len(),
        ensures
            match r {
                Ok(v) => finish(self.fields@, slots@) == Ok::<_, ParseError>(v@),
                Err(e) => finish(self.fields@, slots@) == Err::<Seq<FieldValue>, _>(e),
            },
    {
        let n = self.fields.len();
        let mut i: usize = 0;
        while i < n
            invariant
                n == self.fields@.len(),
                slots@.len() == n,
                i <= n,
                missing_from(self.fields@, slots@, 0) == missing_from(self.fields@, slots@, i as nat),
            decreases n - i,
        {
            if self.fields[i].kind == FieldType::Required && slots[i].is_none() {
                return Err(ParseError::Option(ParseOptionError { field: self.fields[i].ident.clone(), kind: ParseOptionErrorType::RequiredField }));
            }
            i += 1;
        }
        let ghost all = slots@;
        let mut rest = slots;
        let mut out: Vec<FieldValue> = Vec::new();
        let mut j: usize = 0;
        while j < n
            invariant
                n == self.fields@.len(),
                all.len() == n,
                j <= n,
                rest@ == all.subrange(j as int, n as int),
                out@ == Seq::new(j as nat, |k: int| slot_value(self.fields@[k].kind, all[k])),
            decreases n - j,
        {
            let slot = rest.remove(0);
            assert(slot == all[j as int]);
            let v = match slot {
                Some(v) => v,
                None => match self.fields[j].kind {
                    FieldType::Autocomplete => FieldValue::Autocomplete(AutocompleteValue::Pending),
                    _ => FieldValue::Optional(None),
                },
            };
            out.push(v);
            j += 1;
            assert(rest@ =~= all.subrange(j as int, n as int));
            assert(out@ =~= Seq::new(j as nat, |k: int| slot_value(self.fields@[k].kind, all[k])));
        }
        Ok(out)
    }
}

/// Index of the first option at or after `k` named `name`.
pub open spec fn option_index_from(opts: Seq<CommandDataOption>, name: Seq<char>, k: nat) -> Option<int>
    decreases opts.len() - k,
{
    if k >= opts.len() {
        None
    } else if opts[k as int].name@ == name {
        Some(k as int)
    } else {
        option_index_from(opts, name, k + 1)
    }
}

/// Index of the first option at or after `k` whose value is focused.
pub open spec fn focused_from(opts: Seq<CommandDataOption>, k: nat) -> Option<int>
    decreases opts.len() - k,
{
    if k >= opts.len() {
        None
    } else if opts[k as int].value is Focused {
        Some(k as int)
    } else {
        focused_from(opts, k + 1)
    }
}

/// A copy of a value that is not an option list; an option list is replaced
/// by an empty one of the same kind.
fn copy_value(v: &OptionValue) -> (r: OptionValue)
    ensures
        kind_of(r) == kind_of(*v),
        !(v is SubCommand || v is SubCommandGroup) ==> r == *v,
        v is SubCommand ==> r is SubCommand,
        v is SubCommandGroup ==> r is SubCommandGroup,
{
    match v {
        OptionValue::String(s) => OptionValue::String(s.clone()),
        OptionValue::Integer(i) => OptionValue::Integer(*i),
        OptionValue::Boolean(b) => OptionValue::Boolean(*b),
        OptionValue::User(id) => OptionValue::User(*id),
        OptionValue::Channel(id) => OptionValue::Channel(*id),
        OptionValue::Role(id) => OptionValue::Role(*id),
        OptionValue::Mentionable(id) => OptionValue::Mentionable(*id),
        OptionValue::Attachment(id) => OptionValue::Attachment(*id),
        OptionValue::Number(t) => OptionValue::Number(t.clone()),
        OptionValue::Focused(s, k) => OptionValue::Focused(s.clone(), *k),
        OptionValue::SubCommand(_) => OptionValue::SubCommand(Vec::new()),
        OptionValue::SubCommandGroup(_) => OptionValue::SubCommandGroup(Vec::new()),
    }
}

impl CommandInputData {
    /// Parse one field by hand: the first option named `name`, coerced into
    /// `t` without constraints. `None` when no option has that name.
    pub fn parse_field(&self, name: &str, t: ValueType) -> (r: Result<Option<ParsedValue>, ParseError>)
        ensures
            match option_index_from(self.options@, name@, 0) {
                None => r == Ok::<_, ParseError>(None::<ParsedValue>),
                Some(i) => match coerce(t, self.options@[i].value, crate::value::unconstrained_view(), self.resolved) {
                    Ok(v) => r == Ok::<_, ParseError>(Some(v)),
                    Err(k) => r matches Err(ParseError::Option(e)) && e.field@ == name@ && e.kind == k,
                },
            },
    {
        let mut i: usize = 0;
        while i < self.options.len()
            invariant
                i <= self.options@.len(),
                option_index_from(self.options@, name@, 0) == option_index_from(self.options@, name@, i as nat),
            decreases self.options@.len() - i,
        {
            if str_eq(self.options[i].name.as_str(), name) {
                let v = copy_value(&self.options[i].value);
                let data = CommandOptionData::unconstrained();
                return match coerce_value(t, v, &data, &self.resolved) {
                    Ok(p) => Ok(Some(p)),
                    Err(kind) => Err(ParseError::Option(ParseOptionError { field: name.to_owned(), kind })),
                };
            }
            i += 1;
        }
        Ok(None)
    }

    /// The name of the first focused option.
    pub fn focused(&self) -> (r: Option<&str>)
        ensures
            match focused_from(self.options@, 0) {
                None => r is None,
                Some(i) => r matches Some(n) && n@ == self.options@[i].name@,
            },
    {
        let mut i: usize = 0;
        while i < self.options.len()
            invariant
                i <= self.options@.len(),
                focused_from(self.options@, 0) == focused_from(self.options@, i as nat),
            decreases self.options@.len() - i,
        {
            if let OptionValue::Focused(_, _) = &self.options[i].value {
                return Some(self.options[i].name.as_str());
            }
            i += 1;
        }
        None
    }

    /// The data of a subcommand or subcommand group option: its nested
    /// options, with the same resolved entities.
    pub fn from_option(value: OptionValue, resolved: Option<ResolvedData>) -> (r: Result<CommandInputData, ParseOptionErrorType>)
        ensures
            match value {
                OptionValue::SubCommand(l) => r == Ok::<_, ParseOptionErrorType>(CommandInputData { options: l, resolved }),
                OptionValue::SubCommandGroup(l) => r == Ok::<_, ParseOptionErrorType>(CommandInputData { options: l, resolved }),
                other => r == Err::<CommandInputData, _>(ParseOptionErrorType::InvalidType(crate::value::kind_of(other))),
            },
    {
        let kind = value.kind();
        match value {
            OptionValue::SubCommand(options) => Ok(CommandInputData { options, resolved }),
            OptionValue::SubCommandGroup(options) => Ok(CommandInputData { options, resolved }),
            _ => Err(ParseOptionErrorType::InvalidType(kind)),
        }
    }
}

} // verus!
