use twilight_interactions::attribute::AttrValue;
use twilight_interactions::channel::ChannelType;
use twilight_interactions::command::TypeRef;
use twilight_interactions::error::{DeriveError, ParseError, ParseOptionError, ParseOptionErrorType};
use twilight_interactions::localization::Localizations;
use twilight_interactions::model::{AutocompleteValue, CommandInputData, CommandModel, FieldDecl, FieldValue};
use twilight_interactions::value::{
    CommandDataOption, CommandOptionType, OptionValue, ParsedValue, ResolvedData, ResolvedMentionable,
    ResolvedUser, ValueType,
};

fn model_ty(name: &str) -> TypeRef {
    TypeRef::Path { name: name.to_string(), args: vec![] }
}

fn model_wrap(wrapper: &str, inner: TypeRef) -> TypeRef {
    TypeRef::Path { name: wrapper.to_string(), args: vec![inner] }
}

fn model_field(ident: &str, ty: TypeRef, value_type: ValueType, attribute: Option<Vec<(String, AttrValue)>>) -> FieldDecl {
    FieldDecl {
        ident: Some(ident.to_string()),
        ty,
        value_type,
        attribute,
        doc: None,
        localizations: Localizations::none(),
    }
}

fn model_option(name: &str, value: OptionValue) -> CommandDataOption {
    CommandDataOption { name: name.to_string(), value }
}

fn model_no_resolved() -> Option<ResolvedData> {
    None
}

fn model_option_error(field: &str, kind: ParseOptionErrorType) -> ParseError {
    ParseError::Option(ParseOptionError { field: field.to_string(), kind })
}

#[test]
fn test_command_model() {
    let fields = vec![
        model_field(
            "user",
            model_ty("ResolvedUser"),
            ValueType::User,
            Some(vec![
                ("rename".to_string(), AttrValue::Str("member".to_string())),
                ("desc".to_string(), AttrValue::Str("test".to_string())),
            ]),
        ),
        model_field("text", model_ty("String"), ValueType::String, None),
        model_field("number", model_wrap("Option", model_ty("i64")), ValueType::Integer, None),
        model_field("generic", model_ty("T"), ValueType::Integer, None),
        model_field("cow", model_ty("Cow"), ValueType::String, None),
        model_field("mentionable", model_ty("ResolvedMentionable"), ValueType::Mentionable, None),
    ];
    let model = CommandModel::new(None, fields).unwrap();
    let user_id = 123;
    let options = vec![
        model_option("member", OptionValue::User(user_id)),
        model_option("text", OptionValue::String("hello world".to_string())),
        model_option("number", OptionValue::Integer(42)),
        model_option("generic", OptionValue::Integer(0)),
        model_option("cow", OptionValue::String("cow".to_string())),
        model_option("mentionable", OptionValue::Mentionable(user_id)),
    ];
    let resolved = ResolvedData {
        users: vec![user_id],
        members: vec![user_id],
        roles: vec![],
        channels: vec![],
        attachments: vec![],
    };
    let data = CommandInputData { options, resolved: Some(resolved) };
    let result = model.from_interaction(data).unwrap();
    let resolved_user = ResolvedUser { id: user_id, member: true };
    assert_eq!(
        result,
        vec![
            FieldValue::Required(ParsedValue::User(resolved_user)),
            FieldValue::Required(ParsedValue::String("hello world".to_string())),
            FieldValue::Optional(Some(ParsedValue::Integer(42))),
            FieldValue::Required(ParsedValue::Integer(0)),
            FieldValue::Required(ParsedValue::String("cow".to_string())),
            FieldValue::Required(ParsedValue::Mentionable(ResolvedMentionable::User(resolved_user))),
        ]
    );
}

#[test]
fn test_unit_command_model() {
    let model = CommandModel::new(None, vec![]).unwrap();
    let data = CommandInputData { options: vec![], resolved: None };
    assert_eq!(model.from_interaction(data).unwrap(), vec![]);
}

#[test]
fn test_autocomplete_model() {
    let fields = vec![
        model_field("user", model_wrap("Option", model_ty("ResolvedUser")), ValueType::User, None),
        model_field("string", model_wrap("AutocompleteValue", model_ty("String")), ValueType::String, None),
    ];
    let attribute = Some(vec![("autocomplete".to_string(), AttrValue::Bool(true))]);
    let model = CommandModel::new(attribute, fields).unwrap();
    assert!(model.autocomplete);
    let options = vec![
        model_option("string", OptionValue::Focused("test".to_string(), CommandOptionType::String)),
        model_option("number", OptionValue::Integer(42)),
    ];
    let data = CommandInputData { options, resolved: None };
    assert_eq!(
        model.from_interaction(data).unwrap(),
        vec![
            FieldValue::Optional(None),
            FieldValue::Autocomplete(AutocompleteValue::Focused("test".to_string())),
        ]
    );
}

fn model_text_number() -> CommandModel {
    let fields = vec![
        model_field("text", model_ty("String"), ValueType::String, None),
        model_field("number", model_wrap("Option", model_ty("i64")), ValueType::Integer, None),
    ];
    CommandModel::new(None, fields).unwrap()
}

#[test]
fn text_and_number_parse() {
    let model = model_text_number();
    let options = vec![
        model_option("text", OptionValue::String("hello world".to_string())),
        model_option("number", OptionValue::Integer(42)),
    ];
    let data = CommandInputData { options, resolved: model_no_resolved() };
    assert_eq!(
        model.from_interaction(data).unwrap(),
        vec![
            FieldValue::Required(ParsedValue::String("hello world".to_string())),
            FieldValue::Optional(Some(ParsedValue::Integer(42))),
        ]
    );
}

#[test]
fn missing_required_field_is_named() {
    let model = model_text_number();
    let data = CommandInputData { options: vec![model_option("number", OptionValue::Integer(42))], resolved: None };
    assert_eq!(
        model.from_interaction(data).unwrap_err(),
        model_option_error("text", ParseOptionErrorType::RequiredField)
    );
}

#[test]
fn unknown_field_fails_outside_autocomplete() {
    let model = model_text_number();
    let options = vec![
        model_option("text", OptionValue::String("x".to_string())),
        model_option("other", OptionValue::Integer(1)),
    ];
    let data = CommandInputData { options, resolved: None };
    assert_eq!(
        model.from_interaction(data).unwrap_err(),
        model_option_error("other", ParseOptionErrorType::UnknownField)
    );
}

#[test]
fn wrong_kind_and_later_option_wins() {
    let model = model_text_number();
    let data = CommandInputData {
        options: vec![model_option("text", OptionValue::Integer(3))],
        resolved: None,
    };
    assert_eq!(
        model.from_interaction(data).unwrap_err(),
        model_option_error("text", ParseOptionErrorType::InvalidType(CommandOptionType::Integer))
    );
    let data = CommandInputData {
        options: vec![
            model_option("text", OptionValue::String("first".to_string())),
            model_option("text", OptionValue::String("second".to_string())),
        ],
        resolved: None,
    };
    assert_eq!(
        model.from_interaction(data).unwrap(),
        vec![FieldValue::Required(ParsedValue::String("second".to_string())), FieldValue::Optional(None)]
    );
}

#[test]
fn bounds_and_lookups_are_checked() {
    let fields = vec![
        model_field(
            "delay",
            model_ty("i64"),
            ValueType::Integer,
            Some(vec![("max_value".to_string(), AttrValue::Int(60)), ("min_value".to_string(), AttrValue::Int(1))]),
        ),
        model_field(
            "text",
            model_ty("String"),
            ValueType::String,
            Some(vec![("min_length".to_string(), AttrValue::Int(2)), ("max_length".to_string(), AttrValue::Int(4))]),
        ),
        model_field(
            "channel",
            model_wrap("Option", model_ty("InteractionChannel")),
            ValueType::Channel,
            Some(vec![("channel_types".to_string(), AttrValue::Str("guild_text".to_string()))]),
        ),
        model_field("role", model_wrap("Option", model_ty("Role")), ValueType::Role, None),
    ];
    let model = CommandModel::new(None, fields).unwrap();
    let table = || ResolvedData {
        users: vec![],
        members: vec![],
        roles: vec![7],
        channels: vec![(5, ChannelType::GuildText), (6, ChannelType::GuildVoice)],
        attachments: vec![],
    };
    let run = |options: Vec<CommandDataOption>| model.from_interaction(CommandInputData { options, resolved: Some(table()) });
    let ok = run(vec![
        model_option("delay", OptionValue::Integer(60)),
        model_option("text", OptionValue::String("ab".to_string())),
        model_option("channel", OptionValue::Channel(5)),
        model_option("role", OptionValue::Role(7)),
    ])
    .unwrap();
    assert_eq!(ok[0], FieldValue::Required(ParsedValue::Integer(60)));
    assert_eq!(ok[2], FieldValue::Optional(Some(ParsedValue::Channel { id: 5, kind: ChannelType::GuildText })));
    assert_eq!(ok[3], FieldValue::Optional(Some(ParsedValue::Role(7))));
    assert_eq!(
        run(vec![model_option("delay", OptionValue::Integer(61))]).unwrap_err(),
        model_option_error("delay", ParseOptionErrorType::IntegerOutOfRange(61))
    );
    assert_eq!(
        run(vec![model_option("delay", OptionValue::Integer(0))]).unwrap_err(),
        model_option_error("delay", ParseOptionErrorType::IntegerOutOfRange(0))
    );
    assert_eq!(
        run(vec![model_option("text", OptionValue::String("abcde".to_string()))]).unwrap_err(),
        model_option_error("text", ParseOptionErrorType::StringOutOfRange("abcde".to_string()))
    );
    assert_eq!(
        run(vec![model_option("channel", OptionValue::Channel(6))]).unwrap_err(),
        model_option_error("channel", ParseOptionErrorType::InvalidChannelType(ChannelType::GuildVoice))
    );
    assert_eq!(
        run(vec![model_option("channel", OptionValue::Channel(9))]).unwrap_err(),
        model_option_error("channel", ParseOptionErrorType::LookupFailed(9))
    );
    assert_eq!(
        run(vec![model_option("role", OptionValue::Role(8))]).unwrap_err(),
        model_option_error("role", ParseOptionErrorType::LookupFailed(8))
    );
}

#[test]
fn round_trip_reproduces_values() {
    let model = model_text_number();
    for (text, number) in [("a", 0i64), ("hello", -5), ("zz", i64::MAX)] {
        let options = vec![
            model_option("text", OptionValue::String(text.to_string())),
            model_option("number", OptionValue::Integer(number)),
        ];
        let parsed = model.from_interaction(CommandInputData { options, resolved: None }).unwrap();
        assert_eq!(
            parsed,
            vec![
                FieldValue::Required(ParsedValue::String(text.to_string())),
                FieldValue::Optional(Some(ParsedValue::Integer(number))),
            ]
        );
    }
}

#[test]
fn model_declaration_errors() {
    let nested = vec![model_field(
        "value",
        model_wrap("Option", model_wrap("AutocompleteValue", model_ty("String"))),
        ValueType::String,
        None,
    )];
    assert_eq!(CommandModel::new(None, nested).unwrap_err(), DeriveError::AutocompleteInOptional);
    let outside = vec![model_field("value", model_wrap("AutocompleteValue", model_ty("String")), ValueType::String, None)];
    assert_eq!(CommandModel::new(None, outside).unwrap_err(), DeriveError::AutocompleteOutsideModel);
    let required = vec![model_field("value", model_ty("String"), ValueType::String, None)];
    let attribute = Some(vec![("autocomplete".to_string(), AttrValue::Bool(true))]);
    assert_eq!(CommandModel::new(attribute, required).unwrap_err(), DeriveError::RequiredInAutocompleteModel);
    let mut anonymous = model_field("value", model_ty("String"), ValueType::String, None);
    anonymous.ident = None;
    assert_eq!(CommandModel::new(None, vec![anonymous]).unwrap_err(), DeriveError::MissingIdentifier);
}

#[test]
fn parse_field_and_focused() {
    let options = vec![
        model_option("message", OptionValue::String("Hello world".to_string())),
        model_option("query", OptionValue::Focused("he".to_string(), CommandOptionType::String)),
    ];
    let data = CommandInputData { options, resolved: None };
    assert_eq!(
        data.parse_field("message", ValueType::String).unwrap(),
        Some(ParsedValue::String("Hello world".to_string()))
    );
    assert_eq!(data.parse_field("missing", ValueType::String).unwrap(), None);
    assert_eq!(
        data.parse_field("message", ValueType::Integer).unwrap_err(),
        model_option_error("message", ParseOptionErrorType::InvalidType(CommandOptionType::String))
    );
    assert_eq!(data.focused(), Some("query"));
    assert!(CommandInputData::from_option(OptionValue::Boolean(true), None).is_err());
    assert_eq!(ResolvedMentionable::Role(4).id(), 4);
}

#[test]
fn parse_error_messages() {
    assert_eq!(ParseError::EmptyOptions.message(), "received an empty option list");
    assert_eq!(
        model_option_error("text", ParseOptionErrorType::RequiredField).message(),
        "failed to parse option `text`: missing required field"
    );
    assert_eq!(
        model_option_error("n", ParseOptionErrorType::IntegerOutOfRange(-42)).message(),
        "failed to parse option `n`: out of range integer, received `-42`"
    );
    assert_eq!(
        model_option_error("u", ParseOptionErrorType::LookupFailed(123)).message(),
        "failed to parse option `u`: failed to resolve `123`"
    );
    assert_eq!(
        model_option_error("t", ParseOptionErrorType::InvalidType(CommandOptionType::Integer)).message(),
        "failed to parse option `t`: invalid type, found Integer"
    );
    assert_eq!(
        model_option_error("c", ParseOptionErrorType::InvalidChannelType(ChannelType::GuildVoice)).message(),
        "failed to parse option `c`: invalid channel type, received `GuildVoice`"
    );
    assert_eq!(
        model_option_error("c", ParseOptionErrorType::InvalidChoice("cow".to_string())).message(),
        "failed to parse option `c`: invalid choice value, found `cow`"
    );
}

#[test]
fn test_demo_command() {
    let fields = vec![
        model_field("user", model_ty("ResolvedUser"), ValueType::User, None),
        model_field("text", model_ty("String"), ValueType::String, None),
        model_field("number", model_wrap("Option", model_ty("i64")), ValueType::Integer, None),
    ];
    let model = CommandModel::new(None, fields).unwrap();
    let options = vec![
        model_option("user", OptionValue::User(123)),
        model_option("text", OptionValue::String("hello world".into())),
        model_option("number", OptionValue::Integer(42)),
    ];
    let resolved = ResolvedData { users: vec![123], members: vec![123], roles: vec![], channels: vec![], attachments: vec![] };
    let data = CommandInputData { options, resolved: Some(resolved) };
    assert_eq!(
        model.from_interaction(data).unwrap(),
        vec![
            FieldValue::Required(ParsedValue::User(ResolvedUser { id: 123, member: true })),
            FieldValue::Required(ParsedValue::String("hello world".into())),
            FieldValue::Optional(Some(ParsedValue::Integer(42))),
        ]
    );
}
