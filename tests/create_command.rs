use twilight_interactions::attribute::AttrValue;
use twilight_interactions::channel::ChannelType;
use twilight_interactions::command::{CommandOptionValue, TypeRef};
use twilight_interactions::error::DeriveError;
use twilight_interactions::localization::{DescriptionLocalizations, LocaleMap, Localizations, NameLocalizations};
use twilight_interactions::model::FieldDecl;
use twilight_interactions::schema::{
    create_command, create_group_command, parse_doc, ApplicationCommandData, CommandDecl, CommandOption,
};
use twilight_interactions::subcommand::{VariantDecl, VariantFields};
use twilight_interactions::value::{CommandOptionType, ValueType};

fn cc_ty(name: &str) -> TypeRef {
    TypeRef::Path { name: name.to_string(), args: vec![] }
}

fn cc_opt(inner: &str) -> TypeRef {
    TypeRef::Path { name: "Option".to_string(), args: vec![cc_ty(inner)] }
}

fn cc_attr(pairs: &[(&str, AttrValue)]) -> Option<Vec<(String, AttrValue)>> {
    Some(pairs.iter().map(|(k, v)| (k.to_string(), v.clone())).collect())
}

fn cc_str(s: &str) -> AttrValue {
    AttrValue::Str(s.to_string())
}

fn cc_field(ident: &str, ty: TypeRef, value_type: ValueType, attribute: Option<Vec<(String, AttrValue)>>, doc: Option<&str>) -> FieldDecl {
    FieldDecl {
        ident: Some(ident.to_string()),
        ty,
        value_type,
        attribute,
        doc: doc.map(|d| d.to_string()),
        localizations: Localizations::none(),
    }
}

fn cc_decl(attribute: Option<Vec<(String, AttrValue)>>, doc: Option<&str>) -> CommandDecl {
    CommandDecl { attribute, doc: doc.map(|d| d.to_string()), localizations: Localizations::none(), default_permissions: None }
}

fn cc_localize() -> DescriptionLocalizations {
    DescriptionLocalizations::new("fallback", vec![("en".to_string(), "english".to_string()), ("fr".to_string(), "french".to_string())])
}

fn cc_check_locales(m: &Option<LocaleMap>) {
    let m = m.as_ref().unwrap();
    assert_eq!(m.get("en"), Some(&"english".to_string()));
    assert_eq!(m.get("fr"), Some(&"french".to_string()));
    assert_eq!(m.get("de"), None);
}

fn cc_check_option(o: &CommandOption, name: &str, desc: &str, kind: CommandOptionType, required: bool) {
    assert_eq!(o.name, name);
    assert_eq!(o.description, desc);
    assert_eq!(o.kind, kind);
    assert_eq!(o.required, Some(required));
}

fn cc_demo_fields() -> Vec<FieldDecl> {
    vec![
        cc_field(
            "user",
            cc_ty("ResolvedUser"),
            ValueType::User,
            cc_attr(&[("rename", cc_str("member")), ("desc", cc_str("A member"))]),
            Some("This should be overwritten"),
        ),
        cc_field("text", cc_ty("String"), ValueType::String, cc_attr(&[("min_length", AttrValue::Int(5))]), Some("Some text")),
        cc_field(
            "number",
            cc_ty("f64"),
            ValueType::Number,
            cc_attr(&[("autocomplete", AttrValue::Bool(true)), ("max_value", AttrValue::Float("50.0".to_string()))]),
            Some("A number"),
        ),
        cc_field(
            "channel",
            cc_opt("InteractionChannel"),
            ValueType::Channel,
            cc_attr(&[("channel_types", cc_str("guild_text private"))]),
            Some("A text channel"),
        ),
        cc_field("generic", cc_opt("T"), ValueType::Integer, None, Some("Generic field")),
        cc_field("cow", cc_opt("Cow"), ValueType::String, None, Some("More text")),
    ]
}

fn cc_demo_decl() -> CommandDecl {
    CommandDecl {
        attribute: cc_attr(&[
            ("name", cc_str("demo")),
            ("name_localizations", cc_str("demo_name")),
            ("default_permissions", cc_str("demo_permissions")),
            ("dm_permission", AttrValue::Bool(false)),
            ("nsfw", AttrValue::Bool(true)),
        ]),
        doc: Some("Demo command for testing purposes".to_string()),
        localizations: Localizations {
            name: Some(NameLocalizations::new(vec![("en".to_string(), "demo".to_string())])),
            description: None,
        },
        default_permissions: Some(1 << 11),
    }
}

#[test]
fn test_create_command() {
    let c = create_command(cc_demo_decl(), cc_demo_fields()).unwrap();
    assert_eq!(c.name, "demo");
    assert_eq!(c.name_localizations.as_ref().unwrap().get("en"), Some(&"demo".to_string()));
    assert_eq!(c.description, "Demo command for testing purposes");
    assert!(c.description_localizations.is_none());
    assert_eq!(c.default_member_permissions, Some(1 << 11));
    assert_eq!(c.dm_permission, Some(false));
    assert_eq!(c.nsfw, Some(true));
    assert!(!c.group);
    assert_eq!(c.options.len(), 6);

    cc_check_option(&c.options[0], "member", "A member", CommandOptionType::User, true);
    assert_eq!(c.options[0].autocomplete, Some(false));
    cc_check_option(&c.options[1], "text", "Some text", CommandOptionType::String, true);
    assert_eq!(c.options[1].min_length, Some(5));
    assert_eq!(c.options[1].max_length, None);
    cc_check_option(&c.options[2], "number", "A number", CommandOptionType::Number, true);
    assert_eq!(c.options[2].autocomplete, Some(true));
    assert_eq!(c.options[2].max_value, Some(CommandOptionValue::Number("50.0".to_string())));
    cc_check_option(&c.options[3], "channel", "A text channel", CommandOptionType::Channel, false);
    assert_eq!(c.options[3].channel_types, Some(vec![ChannelType::GuildText, ChannelType::Private]));
    cc_check_option(&c.options[4], "generic", "Generic field", CommandOptionType::Integer, false);
    assert_eq!(c.options[4].channel_types, None);
    cc_check_option(&c.options[5], "cow", "More text", CommandOptionType::String, false);
    for o in &c.options {
        assert!(o.choices.is_none());
        assert!(o.options.is_none());
        assert!(o.name_localizations.is_none());
    }
}

#[test]
fn test_unit_create_command() {
    let decl = cc_decl(cc_attr(&[("name", cc_str("unit")), ("desc", cc_str("Unit command for testing purposes"))]), None);
    let c = create_command(decl, vec![]).unwrap();
    assert_eq!(c.name, "unit");
    assert_eq!(c.description, "Unit command for testing purposes");
    assert!(c.options.is_empty());
    assert!(!c.group);
    assert_eq!(c.default_member_permissions, None);
}

#[test]
fn schema_derivation_is_repeatable() {
    let first = create_command(cc_demo_decl(), cc_demo_fields()).unwrap();
    let second = create_command(cc_demo_decl(), cc_demo_fields()).unwrap();
    assert_eq!(format!("{:?}", first), format!("{:?}", second));
    let names: Vec<&str> = first.options.iter().map(|o| o.name.as_str()).collect();
    assert_eq!(names, vec!["member", "text", "number", "channel", "generic", "cow"]);
}

#[test]
fn required_after_optional_fails() {
    let decl = || cc_decl(cc_attr(&[("name", cc_str("demo")), ("desc", cc_str("d"))]), None);
    let fields = vec![
        cc_field("a", cc_opt("String"), ValueType::String, None, Some("a")),
        cc_field("b", cc_ty("String"), ValueType::String, None, Some("b")),
    ];
    assert_eq!(create_command(decl(), fields).unwrap_err(), DeriveError::RequiredAfterOptional);
    let fields = vec![
        cc_field("b", cc_ty("String"), ValueType::String, None, Some("b")),
        cc_field("a", cc_opt("String"), ValueType::String, None, Some("a")),
    ];
    assert_eq!(create_command(decl(), fields).unwrap().options.len(), 2);
}

#[test]
fn command_declaration_errors() {
    let field = || vec![cc_field("a", cc_ty("String"), ValueType::String, None, Some("a"))];
    assert_eq!(create_command(cc_decl(None, Some("d")), field()).unwrap_err(), DeriveError::MissingAttribute);
    assert_eq!(
        create_command(cc_decl(cc_attr(&[("desc", cc_str("d"))]), None), field()).unwrap_err(),
        DeriveError::MissingName
    );
    assert_eq!(
        create_command(cc_decl(cc_attr(&[("name", cc_str("x")), ("autocomplete", AttrValue::Bool(true))]), Some("d")), field())
            .unwrap_err(),
        DeriveError::PartialModel
    );
    assert_eq!(
        create_command(cc_decl(cc_attr(&[("name", cc_str("x"))]), None), field()).unwrap_err(),
        DeriveError::MissingDescription
    );
    assert_eq!(
        create_command(
            cc_decl(cc_attr(&[("name", cc_str("x")), ("desc", cc_str("d")), ("desc_localizations", cc_str("f"))]), None),
            field()
        )
        .unwrap_err(),
        DeriveError::MutuallyExclusive
    );
    assert_eq!(
        create_command(cc_decl(cc_attr(&[("name", cc_str("x")), ("desc_localizations", cc_str("f"))]), None), field())
            .unwrap_err(),
        DeriveError::MissingLocalization
    );
    let undocumented = vec![cc_field("a", cc_ty("String"), ValueType::String, None, None)];
    assert_eq!(
        create_command(cc_decl(cc_attr(&[("name", cc_str("x"))]), Some("d")), undocumented).unwrap_err(),
        DeriveError::MissingDescription
    );
    let long_doc = "x".repeat(101);
    assert_eq!(
        create_command(cc_decl(cc_attr(&[("name", cc_str("x"))]), Some(&long_doc)), field()).unwrap_err(),
        DeriveError::DescriptionLength
    );
}

#[test]
fn doc_comment_is_trimmed() {
    assert_eq!(parse_doc("  A command "), Ok("A command".to_string()));
    assert_eq!(parse_doc("   "), Err(DeriveError::DescriptionLength));
}

#[test]
fn test_option_description() {
    let mut locale = cc_field("locale_option", cc_ty("String"), ValueType::String, cc_attr(&[("desc_localizations", cc_str("locale_option"))]), None);
    locale.localizations.description = Some(DescriptionLocalizations::new(
        "fallback description",
        vec![("en".to_string(), "en description".to_string())],
    ));
    let fields = vec![
        cc_field("doc_option", cc_ty("String"), ValueType::String, None, Some("Option with doc description")),
        cc_field("attr_option", cc_ty("String"), ValueType::String, cc_attr(&[("desc", cc_str("option with desc attribute"))]), None),
        locale,
    ];
    let c = create_command(cc_decl(cc_attr(&[("name", cc_str("demo"))]), Some("A command")), fields).unwrap();
    assert_eq!(c.name, "demo");
    assert_eq!(c.description, "A command");
    cc_check_option(&c.options[0], "doc_option", "Option with doc description", CommandOptionType::String, true);
    cc_check_option(&c.options[1], "attr_option", "option with desc attribute", CommandOptionType::String, true);
    cc_check_option(&c.options[2], "locale_option", "fallback description", CommandOptionType::String, true);
    assert!(c.options[0].description_localizations.is_none());
    let locales = c.options[2].description_localizations.as_ref().unwrap();
    assert_eq!(locales.get("en"), Some(&"en description".to_string()));
}

fn cc_localized_fields() -> Vec<FieldDecl> {
    let mut two = cc_field("option_two", cc_ty("i64"), ValueType::Integer, cc_attr(&[("desc_localizations", cc_str("localize"))]), None);
    two.localizations.description = Some(cc_localize());
    vec![cc_field("option_one", cc_ty("i64"), ValueType::Integer, cc_attr(&[("desc", cc_str("desc"))]), None), two]
}

fn cc_command_desc() -> ApplicationCommandData {
    create_command(cc_decl(cc_attr(&[("name", cc_str("command-desc")), ("desc", cc_str("desc"))]), None), cc_localized_fields()).unwrap()
}

fn cc_command_locale() -> ApplicationCommandData {
    let mut decl = cc_decl(cc_attr(&[("name", cc_str("command-locale")), ("desc_localizations", cc_str("localize"))]), None);
    decl.localizations.description = Some(cc_localize());
    create_command(decl, cc_localized_fields()).unwrap()
}

fn cc_check_localized_options(options: &[CommandOption]) {
    assert_eq!(options.len(), 2);
    cc_check_option(&options[0], "option_one", "desc", CommandOptionType::Integer, true);
    assert!(options[0].description_localizations.is_none());
    cc_check_option(&options[1], "option_two", "fallback", CommandOptionType::Integer, true);
    cc_check_locales(&options[1].description_localizations);
}

#[test]
fn test_top_level_commands() {
    let desc = cc_command_desc();
    assert_eq!(desc.name, "command-desc");
    assert_eq!(desc.description, "desc");
    assert!(desc.description_localizations.is_none());
    assert!(!desc.group);
    cc_check_localized_options(&desc.options);
    let locale = cc_command_locale();
    assert_eq!(locale.name, "command-locale");
    assert_eq!(locale.description, "fallback");
    cc_check_locales(&locale.description_localizations);
    cc_check_localized_options(&locale.options);
}

fn cc_group_variants() -> Vec<(VariantDecl, ApplicationCommandData)> {
    let variant = |ident: &str, name: &str| VariantDecl {
        ident: ident.to_string(),
        fields: VariantFields::Unnamed(vec![cc_ty(ident)]),
        attribute: cc_attr(&[("name", cc_str(name))]),
    };
    vec![
        (variant("CommandDesc", "command-desc"), cc_command_desc()),
        (variant("CommandLocale", "command-locale"), cc_command_locale()),
    ]
}

#[test]
fn test_group_commands() {
    let group_desc = create_group_command(
        cc_decl(cc_attr(&[("name", cc_str("command-group-desc")), ("desc", cc_str("desc"))]), None),
        cc_group_variants(),
    )
    .unwrap();
    let mut decl = cc_decl(cc_attr(&[("name", cc_str("command-group-locale")), ("desc_localizations", cc_str("localize"))]), None);
    decl.localizations.description = Some(cc_localize());
    let group_locale = create_group_command(decl, cc_group_variants()).unwrap();

    assert_eq!(group_desc.name, "command-group-desc");
    assert_eq!(group_desc.description, "desc");
    assert!(group_desc.description_localizations.is_none());
    assert_eq!(group_locale.name, "command-group-locale");
    assert_eq!(group_locale.description, "fallback");
    cc_check_locales(&group_locale.description_localizations);
    for c in [&group_desc, &group_locale] {
        assert!(c.group);
        assert_eq!(c.options.len(), 2);
        let first = &c.options[0];
        assert_eq!(first.kind, CommandOptionType::SubCommand);
        assert_eq!(first.name, "command-desc");
        assert_eq!(first.description, "desc");
        assert!(first.description_localizations.is_none());
        assert_eq!(first.required, None);
        cc_check_localized_options(first.options.as_ref().unwrap());
        let second = &c.options[1];
        assert_eq!(second.name, "command-locale");
        assert_eq!(second.description, "fallback");
        cc_check_locales(&second.description_localizations);
        cc_check_localized_options(second.options.as_ref().unwrap());
    }
}

#[test]
fn later_locale_replaces_earlier() {
    let m = LocaleMap::from_pairs(vec![
        ("en".to_string(), "one".to_string()),
        ("fr".to_string(), "un".to_string()),
        ("en".to_string(), "two".to_string()),
    ]);
    assert_eq!(m.get("en"), Some(&"two".to_string()));
    assert_eq!(m.get("fr"), Some(&"un".to_string()));
    assert_eq!(m.into_pairs().len(), 2);
    let names = NameLocalizations::new(vec![]);
    assert_eq!(names.localizations.get("en"), None);
}
