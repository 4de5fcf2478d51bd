use twilight_interactions::attribute::{AttrValue, NamedAttrs};
use twilight_interactions::channel::{parse_channel_types, ChannelType};
use twilight_interactions::command::{FieldAttribute, TypeAttribute};
use twilight_interactions::error::{DeriveError, LiteralKind};
use twilight_interactions::naming::{ChoiceName, CommandDescription, CommandName};

fn naming_entry(key: &str, value: AttrValue) -> (String, AttrValue) {
    (key.to_string(), value)
}

fn naming_str(value: &str) -> AttrValue {
    AttrValue::Str(value.to_string())
}

#[test]
fn valid_names_are_accepted() {
    for name in ["a", "demo", "command-desc", "option_one", "été", "x1"] {
        let parsed = CommandName::parse(name).unwrap();
        assert_eq!(parsed.as_str(), name);
    }
    let longest = "a".repeat(32);
    assert_eq!(CommandName::parse(&longest).unwrap().into_string(), longest);
}

#[test]
fn name_is_trimmed() {
    assert_eq!(CommandName::parse("  demo \n").unwrap().as_str(), "demo");
}

#[test]
fn name_length_is_checked() {
    assert_eq!(CommandName::parse(""), Err(DeriveError::NameLength));
    assert_eq!(CommandName::parse("   "), Err(DeriveError::NameLength));
    assert_eq!(CommandName::parse(&"a".repeat(33)), Err(DeriveError::NameLength));
}

#[test]
fn name_characters_are_checked() {
    assert_eq!(CommandName::parse("with space"), Err(DeriveError::NameInvalidCharacter(' ')));
    assert_eq!(CommandName::parse("dot.name"), Err(DeriveError::NameInvalidCharacter('.')));
    assert_eq!(CommandName::parse("Demo"), Err(DeriveError::NameNotLowercase('D')));
    assert_eq!(CommandName::parse("démO"), Err(DeriveError::NameNotLowercase('O')));
}

#[test]
fn description_length_is_checked() {
    assert_eq!(CommandDescription::parse("A member").unwrap().as_str(), "A member");
    assert_eq!(CommandDescription::parse("  padded  ").unwrap().into_string(), "padded");
    let longest = "d".repeat(100);
    assert_eq!(CommandDescription::parse(&longest).unwrap().as_str(), longest);
    assert_eq!(CommandDescription::parse(""), Err(DeriveError::DescriptionLength));
    assert_eq!(CommandDescription::parse(" \t "), Err(DeriveError::DescriptionLength));
    assert_eq!(CommandDescription::parse(&"d".repeat(101)), Err(DeriveError::DescriptionLength));
}

#[test]
fn choice_name_length_is_checked() {
    assert_eq!(ChoiceName::parse(" Dog ").unwrap().as_str(), "Dog");
    assert_eq!(ChoiceName::parse(""), Err(DeriveError::ChoiceNameLength));
    assert_eq!(ChoiceName::parse(&"c".repeat(101)), Err(DeriveError::ChoiceNameLength));
}

#[test]
fn disallowed_argument_names_the_allowed_set() {
    let entries = vec![naming_entry("name", naming_str("x")), naming_entry("color", naming_str("red"))];
    let err = NamedAttrs::parse(entries, &["name", "desc"]).unwrap_err();
    assert_eq!(
        err,
        DeriveError::InvalidArgumentName {
            found: "color".to_string(),
            expected: vec!["name".to_string(), "desc".to_string()],
        }
    );
}

#[test]
fn first_entry_of_a_key_is_read() {
    let entries = vec![naming_entry("name", naming_str("first")), naming_entry("name", naming_str("second"))];
    let attrs = NamedAttrs::parse(entries, &["name"]).unwrap();
    assert_eq!(attrs.get("name"), Some(&AttrValue::Str("first".to_string())));
    assert_eq!(attrs.get("desc"), None);
}

#[test]
fn field_attribute_reads_every_argument() {
    let entries = vec![
        naming_entry("rename", naming_str("member")),
        naming_entry("desc", naming_str("A member")),
        naming_entry("autocomplete", AttrValue::Bool(true)),
        naming_entry("channel_types", naming_str("guild_text  private guild_news")),
        naming_entry("max_value", AttrValue::Int(50)),
        naming_entry("min_value", AttrValue::Float("0.5".to_string())),
        naming_entry("max_length", AttrValue::Int(10)),
        naming_entry("min_length", AttrValue::Int(5)),
    ];
    let a = FieldAttribute::parse(entries).unwrap();
    assert_eq!(a.name_default("user".to_string()), "member".to_string());
    assert_eq!(a.rename.as_ref().unwrap().as_str(), "member");
    assert_eq!(a.desc.as_ref().unwrap().as_str(), "A member");
    assert!(a.autocomplete);
    assert_eq!(
        a.channel_types,
        vec![ChannelType::GuildText, ChannelType::Private, ChannelType::GuildAnnouncement]
    );
    assert_eq!(a.max_length, Some(10));
    assert_eq!(a.min_length, Some(5));
    assert!(a.name_localizations.is_none());
}

#[test]
fn field_attribute_defaults_without_entries() {
    let a = FieldAttribute::parse(vec![]).unwrap();
    assert!(a.rename.is_none());
    assert!(!a.autocomplete);
    assert!(a.channel_types.is_empty());
    assert_eq!(a.name_default("text".to_string()), "text".to_string());
}

#[test]
fn field_attribute_errors() {
    let wrong_literal = vec![naming_entry("autocomplete", naming_str("yes"))];
    assert_eq!(
        FieldAttribute::parse(wrong_literal).unwrap_err(),
        DeriveError::ExpectedLiteral(LiteralKind::Boolean)
    );
    let too_large = vec![naming_entry("max_length", AttrValue::Int(70000))];
    assert_eq!(FieldAttribute::parse(too_large).unwrap_err(), DeriveError::IntegerOutOfRange);
    let bad_bound = vec![naming_entry("max_value", naming_str("50"))];
    assert_eq!(
        FieldAttribute::parse(bad_bound).unwrap_err(),
        DeriveError::ExpectedLiteral(LiteralKind::IntegerOrFloat)
    );
    let bad_channel = vec![naming_entry("channel_types", naming_str("guild_text nowhere"))];
    assert_eq!(
        FieldAttribute::parse(bad_channel).unwrap_err(),
        DeriveError::InvalidChannelType("nowhere".to_string())
    );
    let bad_rename = vec![naming_entry("rename", naming_str("Member"))];
    assert_eq!(FieldAttribute::parse(bad_rename).unwrap_err(), DeriveError::NameNotLowercase('M'));
    let other = vec![naming_entry("desc", AttrValue::Other)];
    assert_eq!(
        FieldAttribute::parse(other).unwrap_err(),
        DeriveError::ExpectedLiteral(LiteralKind::String)
    );
}

#[test]
fn function_paths_are_checked() {
    let ok = vec![
        naming_entry("name_localizations", naming_str("crate::locales::demo_name")),
        naming_entry("default_permissions", naming_str("permissions")),
    ];
    let a = TypeAttribute::parse(ok).unwrap();
    assert_eq!(a.name_localizations.unwrap().as_str(), "crate::locales::demo_name");
    assert_eq!(a.default_permissions.unwrap().as_str(), "permissions");
    for bad in ["not a path", "", "a::", "f()"] {
        let entries = vec![naming_entry("desc_localizations", naming_str(bad))];
        assert_eq!(
            TypeAttribute::parse(entries).unwrap_err(),
            DeriveError::InvalidFunctionPath(bad.to_string())
        );
    }
    assert_eq!(
        DeriveError::InvalidFunctionPath("a b".to_string()).message(),
        "`a b` is not a valid function path"
    );
}

#[test]
fn type_attribute_word_lists() {
    let entries = vec![
        naming_entry("name", naming_str("demo")),
        naming_entry("contexts", naming_str("guild bot_dm")),
        naming_entry("integration_types", naming_str("user_install")),
        naming_entry("dm_permission", AttrValue::Bool(false)),
    ];
    let a = TypeAttribute::parse(entries).unwrap();
    assert_eq!(a.name.unwrap().as_str(), "demo");
    assert_eq!(a.contexts.unwrap().len(), 2);
    assert_eq!(a.integration_types.unwrap().len(), 1);
    assert_eq!(a.dm_permission, Some(false));
    assert_eq!(a.nsfw, None);
    let bad = vec![naming_entry("contexts", naming_str("guild everywhere"))];
    assert_eq!(
        TypeAttribute::parse(bad).unwrap_err(),
        DeriveError::InvalidContextType("everywhere".to_string())
    );
    let bad = vec![naming_entry("integration_types", naming_str("server"))];
    assert_eq!(
        TypeAttribute::parse(bad).unwrap_err(),
        DeriveError::InvalidIntegrationType("server".to_string())
    );
    let group_only = vec![naming_entry("autocomplete", AttrValue::Bool(true))];
    assert!(TypeAttribute::parse_group(group_only).is_err());
}

#[test]
fn channel_type_words() {
    assert_eq!(parse_channel_types("").unwrap(), vec![]);
    assert_eq!(
        parse_channel_types("public_thread guild_public_thread\tguild_forum").unwrap(),
        vec![ChannelType::PublicThread, ChannelType::PublicThread, ChannelType::GuildForum]
    );
    assert_eq!(
        parse_channel_types("GUILD_TEXT"),
        Err(DeriveError::InvalidChannelType("GUILD_TEXT".to_string()))
    );
}

#[test]
fn declaration_error_messages() {
    assert_eq!(
        CommandName::parse("Demo").unwrap_err().message(),
        "name must be in lowercase, found invalid character `D`"
    );
    assert_eq!(
        CommandName::parse("a b").unwrap_err().message(),
        "name must only contain word characters, found invalid character ` `"
    );
    let entries = vec![naming_entry("color", naming_str("red"))];
    assert_eq!(
        NamedAttrs::parse(entries, &["name", "desc", "nsfw"]).unwrap_err().message(),
        "invalid argument name `color` (expected one of name, desc, nsfw)"
    );
    assert_eq!(
        DeriveError::StringLength { min: 1, max: 45 }.message(),
        "value must be between 1 and 45 characters"
    );
    assert_eq!(
        DeriveError::ExpectedLiteral(LiteralKind::Boolean).message(),
        "expected boolean literal"
    );
    assert_eq!(
        DeriveError::ChoiceKindMismatch(twilight_interactions::choice::ChoiceKind::Integer).message(),
        "invalid attribute type, expected integer"
    );
    assert_eq!(
        DeriveError::RequiredAfterOptional.message(),
        "required options should be added before optional"
    );
}
