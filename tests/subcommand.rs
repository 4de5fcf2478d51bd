use twilight_interactions::attribute::AttrValue;
use twilight_interactions::command::TypeRef;
use twilight_interactions::error::{DeriveError, ParseError, ParseOptionError, ParseOptionErrorType};
use twilight_interactions::localization::{DescriptionLocalizations, Localizations};
use twilight_interactions::model::{CommandInputData, CommandModel, FieldDecl, FieldValue};
use twilight_interactions::schema::{create_command, create_group_command, ApplicationCommandData, CommandDecl};
use twilight_interactions::subcommand::{SubcommandModel, VariantDecl, VariantFields};
use twilight_interactions::value::{CommandDataOption, CommandOptionType, OptionValue, ParsedValue, ValueType};

fn sub_path(name: &str) -> TypeRef {
    TypeRef::Path { name: name.to_string(), args: vec![] }
}

fn sub_variant(ident: &str, name: &str, inner: &str) -> VariantDecl {
    VariantDecl {
        ident: ident.to_string(),
        fields: VariantFields::Unnamed(vec![sub_path(inner)]),
        attribute: Some(vec![("name".to_string(), AttrValue::Str(name.to_string()))]),
    }
}

fn sub_option_field() -> FieldDecl {
    FieldDecl {
        ident: Some("option".to_string()),
        ty: sub_path("String"),
        value_type: ValueType::String,
        attribute: None,
        doc: Some("An option".to_string()),
        localizations: Localizations::none(),
    }
}

fn sub_decl(name: &str, desc: &str) -> CommandDecl {
    CommandDecl {
        attribute: Some(vec![
            ("name".to_string(), AttrValue::Str(name.to_string())),
            ("desc".to_string(), AttrValue::Str(desc.to_string())),
        ]),
        doc: None,
        localizations: Localizations::none(),
        default_permissions: None,
    }
}

fn sub_top_model() -> SubcommandModel {
    SubcommandModel::new(vec![sub_variant("One", "one", "CommandOne"), sub_variant("Group", "group", "Box")]).unwrap()
}

fn sub_group_model() -> SubcommandModel {
    SubcommandModel::new(vec![sub_variant("Two", "two", "CommandTwo"), sub_variant("Three", "three", "CommandThree")]).unwrap()
}

fn sub_command_schema(name: &str, desc: &str) -> ApplicationCommandData {
    create_command(sub_decl(name, desc), vec![sub_option_field()]).unwrap()
}

fn sub_group_schema() -> ApplicationCommandData {
    create_group_command(
        sub_decl("group", "Command group"),
        vec![
            (sub_variant("Two", "two", "CommandTwo"), sub_command_schema("two", "Command two")),
            (sub_variant("Three", "three", "CommandThree"), sub_command_schema("three", "Command three")),
        ],
    )
    .unwrap()
}

#[test]
fn test_subcommand_model() {
    let subcommand_options = vec![CommandDataOption {
        name: "option".into(),
        value: OptionValue::String("test".into()),
    }];
    let command_options = vec![CommandDataOption {
        name: "one".into(),
        value: OptionValue::SubCommand(subcommand_options),
    }];
    let data = CommandInputData { options: command_options, resolved: None };
    let (index, nested) = sub_top_model().from_interaction(data).unwrap();
    assert_eq!(index, 0);
    let one = CommandModel::new(None, vec![sub_option_field()]).unwrap();
    assert_eq!(
        one.from_interaction(nested).unwrap(),
        vec![FieldValue::Required(ParsedValue::String("test".into()))]
    );
}

#[test]
fn test_subcommand_group_model() {
    let subcommand_options = vec![CommandDataOption {
        name: "option".into(),
        value: OptionValue::String("test".into()),
    }];
    let subcommand_group_options = vec![CommandDataOption {
        name: "three".into(),
        value: OptionValue::SubCommand(subcommand_options),
    }];
    let command_options = vec![CommandDataOption {
        name: "group".into(),
        value: OptionValue::SubCommandGroup(subcommand_group_options),
    }];
    let data = CommandInputData { options: command_options, resolved: None };
    let (index, group_data) = sub_top_model().from_interaction(data).unwrap();
    assert_eq!(index, 1);
    let (index, nested) = sub_group_model().from_interaction(group_data).unwrap();
    assert_eq!(index, 1);
    let three = CommandModel::new(None, vec![sub_option_field()]).unwrap();
    assert_eq!(
        three.from_interaction(nested).unwrap(),
        vec![FieldValue::Required(ParsedValue::String("test".into()))]
    );
}

#[test]
fn unknown_and_empty_subcommands() {
    let data = CommandInputData {
        options: vec![CommandDataOption { name: "unknown".into(), value: OptionValue::SubCommand(vec![]) }],
        resolved: None,
    };
    assert_eq!(
        sub_top_model().from_interaction(data).unwrap_err(),
        ParseError::Option(ParseOptionError { field: "unknown".into(), kind: ParseOptionErrorType::UnknownSubcommand })
    );
    let empty = CommandInputData { options: vec![], resolved: None };
    assert_eq!(sub_top_model().from_interaction(empty).unwrap_err(), ParseError::EmptyOptions);
    let not_nested = CommandInputData {
        options: vec![CommandDataOption { name: "one".into(), value: OptionValue::Integer(1) }],
        resolved: None,
    };
    assert_eq!(
        sub_top_model().from_interaction(not_nested).unwrap_err(),
        ParseError::Option(ParseOptionError {
            field: "one".into(),
            kind: ParseOptionErrorType::InvalidType(CommandOptionType::Integer),
        })
    );
}

#[test]
fn qualified_variant_types_are_accepted() {
    let mut qualified = sub_variant("One", "one", "CommandOne");
    qualified.fields = VariantFields::Unnamed(vec![TypeRef::OtherPath("crate :: commands :: One".to_string())]);
    let model = SubcommandModel::new(vec![qualified]).unwrap();
    assert_eq!(model.variants[0].ident, "One");
    assert_eq!(model.variants[0].attribute.name.as_str(), "one");
    let mut reference = sub_variant("One", "one", "CommandOne");
    reference.fields = VariantFields::Unnamed(vec![TypeRef::Other("& 'static One".to_string())]);
    assert_eq!(SubcommandModel::new(vec![reference]).unwrap_err(), DeriveError::UnsupportedFieldType);
}

#[test]
fn subcommand_declaration_errors() {
    assert_eq!(SubcommandModel::new(vec![]).unwrap_err(), DeriveError::EmptyEnum);
    let mut unit = sub_variant("One", "one", "CommandOne");
    unit.fields = VariantFields::Unit;
    assert_eq!(SubcommandModel::new(vec![unit]).unwrap_err(), DeriveError::NotUnnamedVariant);
    let mut two = sub_variant("One", "one", "CommandOne");
    two.fields = VariantFields::Unnamed(vec![sub_path("A"), sub_path("B")]);
    assert_eq!(SubcommandModel::new(vec![two]).unwrap_err(), DeriveError::NotSingleUnnamedField);
    let mut bare = sub_variant("One", "one", "CommandOne");
    bare.attribute = None;
    assert_eq!(SubcommandModel::new(vec![bare]).unwrap_err(), DeriveError::MissingAttribute);
    let mut nameless = sub_variant("One", "one", "CommandOne");
    nameless.attribute = Some(vec![]);
    assert_eq!(
        SubcommandModel::new(vec![nameless]).unwrap_err(),
        DeriveError::MissingArgument("name".to_string())
    );
}

#[test]
fn test_create_subcommand() {
    let decl = CommandDecl {
        attribute: Some(vec![
            ("name".to_string(), AttrValue::Str("command".to_string())),
            ("desc_localizations".to_string(), AttrValue::Str("subcommand_desc".to_string())),
            ("default_permissions".to_string(), AttrValue::Str("subcommand_permissions".to_string())),
        ]),
        doc: None,
        localizations: Localizations {
            name: None,
            description: Some(DescriptionLocalizations::new(
                "fallback",
                vec![("en".to_string(), "en description".to_string())],
            )),
        },
        default_permissions: Some(0),
    };
    let c = create_group_command(
        decl,
        vec![
            (sub_variant("One", "one", "CommandOne"), sub_command_schema("one", "Command one")),
            (sub_variant("Group", "group", "Box"), sub_group_schema()),
        ],
    )
    .unwrap();
    assert_eq!(c.name, "command");
    assert!(c.name_localizations.is_none());
    assert_eq!(c.description, "fallback");
    let locales = c.description_localizations.as_ref().unwrap();
    assert_eq!(locales.get("en"), Some(&"en description".to_string()));
    assert_eq!(c.default_member_permissions, Some(0));
    assert_eq!(c.dm_permission, None);
    assert!(c.group);
    assert_eq!(c.nsfw, None);
    assert!(c.contexts.is_none());
    assert!(c.integration_types.is_none());
    assert_eq!(c.options.len(), 2);

    let one = &c.options[0];
    assert_eq!(one.kind, CommandOptionType::SubCommand);
    assert_eq!(one.name, "one");
    assert_eq!(one.description, "Command one");
    assert_eq!(one.autocomplete, Some(false));
    assert_eq!(one.required, None);
    let inner = one.options.as_ref().unwrap();
    assert_eq!(inner.len(), 1);
    assert_eq!(inner[0].name, "option");
    assert_eq!(inner[0].description, "An option");
    assert_eq!(inner[0].kind, CommandOptionType::String);
    assert_eq!(inner[0].required, Some(true));
    assert_eq!(inner[0].autocomplete, Some(false));

    let group = &c.options[1];
    assert_eq!(group.kind, CommandOptionType::SubCommandGroup);
    assert_eq!(group.name, "group");
    assert_eq!(group.description, "Command group");
    let members = group.options.as_ref().unwrap();
    assert_eq!(members.len(), 2);
    assert_eq!(members[0].kind, CommandOptionType::SubCommand);
    assert_eq!(members[0].name, "two");
    assert_eq!(members[0].description, "Command two");
    assert_eq!(members[1].name, "three");
    assert_eq!(members[1].description, "Command three");
    assert_eq!(members[1].options.as_ref().unwrap()[0].name, "option");
}
