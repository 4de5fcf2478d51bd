use twilight_interactions::attribute::AttrValue;
use twilight_interactions::choice::{ChoiceKind, ChoiceModel, ChoiceValue, ChoiceVariantDecl};
use twilight_interactions::error::{DeriveError, LiteralKind, ParseOptionErrorType};
use twilight_interactions::localization::NameLocalizations;
use twilight_interactions::schema::CommandOption;
use twilight_interactions::value::{CommandOptionType, OptionValue};

fn choice_variant(ident: &str, name: &str, value: AttrValue) -> ChoiceVariantDecl {
    ChoiceVariantDecl {
        ident: ident.to_string(),
        unit: true,
        attribute: Some(vec![("name".to_string(), AttrValue::Str(name.to_string())), ("value".to_string(), value)]),
        localizations: None,
    }
}

fn choice_base(kind: CommandOptionType) -> CommandOption {
    CommandOption {
        kind,
        name: "name".to_string(),
        name_localizations: None,
        description: "description".to_string(),
        description_localizations: None,
        required: Some(false),
        autocomplete: Some(false),
        channel_types: None,
        max_value: None,
        min_value: None,
        max_length: None,
        min_length: None,
        choices: None,
        options: None,
    }
}

fn choice_strings() -> Vec<ChoiceVariantDecl> {
    let mut dog = choice_variant("Dog", "Dog", AttrValue::Str("dog".to_string()));
    dog.attribute.as_mut().unwrap().push(("name_localizations".to_string(), AttrValue::Str("name_dog".to_string())));
    dog.localizations = Some(NameLocalizations::new(vec![("en".to_string(), "Dog".to_string())]));
    vec![
        dog,
        choice_variant("Cat", "Cat", AttrValue::Str("cat".to_string())),
        choice_variant("Crab", "Crab", AttrValue::Str("crab".to_string())),
    ]
}

fn choice_check_option(option: &CommandOption, kind: CommandOptionType) {
    assert_eq!(option.kind, kind);
    assert_eq!(option.name, "name");
    assert!(option.name_localizations.is_none());
    assert_eq!(option.description, "description");
    assert!(option.description_localizations.is_none());
    assert_eq!(option.required, Some(false));
    assert_eq!(option.autocomplete, Some(false));
    assert_eq!(option.channel_types, None);
    assert_eq!(option.max_value, None);
    assert_eq!(option.min_value, None);
    assert_eq!(option.max_length, None);
    assert_eq!(option.min_length, None);
    assert!(option.options.is_none());
}

fn choice_check_entries(option: &CommandOption, expected: &[(&str, ChoiceValue)]) {
    let choices = option.choices.as_ref().unwrap();
    assert_eq!(choices.len(), expected.len());
    for (choice, (name, value)) in choices.iter().zip(expected.iter()) {
        assert_eq!(choice.name, *name);
        assert_eq!(&choice.value, value);
    }
}

#[test]
fn test_command_option_string() {
    let model = ChoiceModel::new(choice_strings()).unwrap();
    assert_eq!(model.kind, ChoiceKind::String);
    assert_eq!(model.from_option(OptionValue::String("crab".to_string())), Ok(2));
    assert_eq!(model.value(0), &ChoiceValue::String("dog".to_string()));
    assert_eq!(model.value(1), &ChoiceValue::String("cat".to_string()));
    assert_eq!(model.value(2), &ChoiceValue::String("crab".to_string()));

    let option = model.create_option(choice_base(CommandOptionType::String)).unwrap();
    choice_check_option(&option, CommandOptionType::String);
    choice_check_entries(
        &option,
        &[
            ("Dog", ChoiceValue::String("dog".to_string())),
            ("Cat", ChoiceValue::String("cat".to_string())),
            ("Crab", ChoiceValue::String("crab".to_string())),
        ],
    );
    let choices = option.choices.unwrap();
    let dog = choices[0].name_localizations.as_ref().unwrap();
    assert_eq!(dog.get("en"), Some(&"Dog".to_string()));
    assert_eq!(dog.get("fr"), None);
    assert!(choices[1].name_localizations.is_none());
    assert!(choices[2].name_localizations.is_none());
}

#[test]
fn test_command_option_integer() {
    let variants = vec![
        choice_variant("One", "One", AttrValue::Int(1)),
        choice_variant("Two", "Two", AttrValue::Int(2)),
        choice_variant("Three", "Three", AttrValue::Int(3)),
    ];
    let model = ChoiceModel::new(variants).unwrap();
    assert_eq!(model.kind, ChoiceKind::Integer);
    assert_eq!(model.from_option(OptionValue::Integer(2)), Ok(1));
    assert_eq!(model.value(0), &ChoiceValue::Int(1));
    assert_eq!(model.value(1), &ChoiceValue::Int(2));
    assert_eq!(model.value(2), &ChoiceValue::Int(3));

    let option = model.create_option(choice_base(CommandOptionType::String)).unwrap();
    choice_check_option(&option, CommandOptionType::Integer);
    choice_check_entries(
        &option,
        &[("One", ChoiceValue::Int(1)), ("Two", ChoiceValue::Int(2)), ("Three", ChoiceValue::Int(3))],
    );
    assert!(option.choices.unwrap().iter().all(|c| c.name_localizations.is_none()));
}

#[test]
fn test_command_option_number() {
    let variants = vec![
        choice_variant("One", "One", AttrValue::Float("1.0".to_string())),
        choice_variant("Half", "Half", AttrValue::Float("0.5".to_string())),
        choice_variant("Quarter", "Quarter", AttrValue::Float("0.25".to_string())),
    ];
    let model = ChoiceModel::new(variants).unwrap();
    assert_eq!(model.kind, ChoiceKind::Number);
    assert_eq!(model.value(0), &ChoiceValue::Number("1.0".to_string()));
    assert_eq!(model.value(1), &ChoiceValue::Number("0.5".to_string()));
    assert_eq!(model.value(2), &ChoiceValue::Number("0.25".to_string()));

    let option = model.create_option(choice_base(CommandOptionType::String)).unwrap();
    choice_check_option(&option, CommandOptionType::Number);
    choice_check_entries(
        &option,
        &[
            ("One", ChoiceValue::Number("1.0".to_string())),
            ("Half", ChoiceValue::Number("0.5".to_string())),
            ("Quarter", ChoiceValue::Number("0.25".to_string())),
        ],
    );
    assert!(option.choices.unwrap().iter().all(|c| c.name_localizations.is_none()));
}

#[test]
fn time_unit_choices() {
    let variants = vec![
        choice_variant("Minute", "Minute", AttrValue::Int(60)),
        choice_variant("Hour", "Hour", AttrValue::Int(3600)),
        choice_variant("Day", "Day", AttrValue::Int(86400)),
    ];
    let model = ChoiceModel::new(variants).unwrap();
    assert_eq!(model.from_option(OptionValue::Integer(3600)), Ok(1));
    assert_eq!(
        model.from_option(OptionValue::Integer(7200)),
        Err(ParseOptionErrorType::InvalidChoice("7200".to_string()))
    );
    assert_eq!(
        model.from_option(OptionValue::Integer(-1)),
        Err(ParseOptionErrorType::InvalidChoice("-1".to_string()))
    );
    assert_eq!(
        model.from_option(OptionValue::String("60".to_string())),
        Err(ParseOptionErrorType::InvalidType(CommandOptionType::String))
    );
}

#[test]
fn unknown_string_choice() {
    let model = ChoiceModel::new(choice_strings()).unwrap();
    assert_eq!(
        model.from_option(OptionValue::String("cow".to_string())),
        Err(ParseOptionErrorType::InvalidChoice("cow".to_string()))
    );
}

#[test]
fn choice_kind_must_match_first_variant() {
    let variants = vec![
        choice_variant("Minute", "Minute", AttrValue::Int(60)),
        choice_variant("Hour", "Hour", AttrValue::Str("3600".to_string())),
    ];
    assert_eq!(ChoiceModel::new(variants).unwrap_err(), DeriveError::ChoiceKindMismatch(ChoiceKind::Integer));
    let variants = vec![
        choice_variant("Dog", "Dog", AttrValue::Str("dog".to_string())),
        choice_variant("Half", "Half", AttrValue::Float("0.5".to_string())),
    ];
    assert_eq!(ChoiceModel::new(variants).unwrap_err(), DeriveError::ChoiceKindMismatch(ChoiceKind::String));
    assert_eq!(ChoiceKind::Integer.name(), "integer");
    assert_eq!(ChoiceKind::Number.name(), "float");
}

#[test]
fn choice_declaration_errors() {
    assert_eq!(ChoiceModel::new(vec![]).unwrap_err(), DeriveError::EmptyEnum);
    let mut with_field = choice_variant("A", "A", AttrValue::Int(1));
    with_field.unit = false;
    assert_eq!(ChoiceModel::new(vec![with_field]).unwrap_err(), DeriveError::NotUnitVariant);
    let mut bare = choice_variant("A", "A", AttrValue::Int(1));
    bare.attribute = None;
    assert_eq!(ChoiceModel::new(vec![bare]).unwrap_err(), DeriveError::MissingAttribute);
    let no_value = ChoiceVariantDecl {
        ident: "A".to_string(),
        unit: true,
        attribute: Some(vec![("name".to_string(), AttrValue::Str("A".to_string()))]),
        localizations: None,
    };
    assert_eq!(ChoiceModel::new(vec![no_value]).unwrap_err(), DeriveError::MissingArgument("value".to_string()));
    let bool_value = choice_variant("A", "A", AttrValue::Bool(true));
    assert_eq!(
        ChoiceModel::new(vec![bool_value]).unwrap_err(),
        DeriveError::ExpectedLiteral(LiteralKind::StringIntegerOrFloat)
    );
    let empty_name = choice_variant("A", " ", AttrValue::Int(1));
    assert_eq!(ChoiceModel::new(vec![empty_name]).unwrap_err(), DeriveError::ChoiceNameLength);
    let mut unresolved = choice_variant("A", "A", AttrValue::Int(1));
    unresolved.attribute.as_mut().unwrap().push(("name_localizations".to_string(), AttrValue::Str("f".to_string())));
    let model = ChoiceModel::new(vec![unresolved]).unwrap();
    assert_eq!(model.choices().unwrap_err(), DeriveError::MissingLocalization);
}
