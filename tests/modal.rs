use twilight_interactions::attribute::AttrValue;
use twilight_interactions::command::TypeRef;
use twilight_interactions::error::{DeriveError, ParseError, ParseOptionError, ParseOptionErrorType};
use twilight_interactions::modal::{
    create_modal, ModalActionRow, ModalComponent, ModalFieldDecl, ModalInputData, ModalModel, TextInputStyle,
};

fn modal_ty(name: &str) -> TypeRef {
    TypeRef::Path { name: name.to_string(), args: vec![] }
}

fn modal_opt(inner: &str) -> TypeRef {
    TypeRef::Path { name: "Option".to_string(), args: vec![modal_ty(inner)] }
}

fn modal_attr(pairs: &[(&str, AttrValue)]) -> Option<Vec<(String, AttrValue)>> {
    Some(pairs.iter().map(|(k, v)| (k.to_string(), v.clone())).collect())
}

fn modal_s(v: &str) -> AttrValue {
    AttrValue::Str(v.to_string())
}

fn modal_demo_fields() -> Vec<ModalFieldDecl> {
    vec![
        ModalFieldDecl {
            ident: Some("paragraph_field".to_string()),
            ty: modal_ty("String"),
            attribute: modal_attr(&[
                ("custom_id", modal_s("foo")),
                ("style", modal_s("paragraph")),
                ("label", modal_s("Foo")),
                ("value", modal_s("foo_value")),
            ]),
        },
        ModalFieldDecl {
            ident: Some("short_field_optional".to_string()),
            ty: modal_opt("String"),
            attribute: modal_attr(&[("custom_id", modal_s("bar")), ("label", modal_s("Label!!")), ("style", modal_s("short"))]),
        },
        ModalFieldDecl {
            ident: Some("paragraph_field_optional".to_string()),
            ty: modal_opt("String"),
            attribute: modal_attr(&[
                ("custom_id", modal_s("baz")),
                ("style", modal_s("paragraph")),
                ("label", modal_s("Baz")),
                ("value", modal_s("baz_value")),
                ("placeholder", modal_s("baz_placeholder")),
                ("min_length", AttrValue::Int(5)),
                ("max_length", AttrValue::Int(10)),
            ]),
        },
    ]
}

fn modal_plain_field(i: usize) -> ModalFieldDecl {
    ModalFieldDecl {
        ident: Some(format!("field_{i}")),
        ty: modal_ty("String"),
        attribute: modal_attr(&[("label", modal_s("Label")), ("style", modal_s("short"))]),
    }
}

#[test]
fn test_create_modal() {
    let m = create_modal(modal_attr(&[("title", modal_s("Modal Title"))]), modal_demo_fields(), "demo_modal".to_string()).unwrap();
    assert_eq!(m.custom_id, "demo_modal");
    assert_eq!(m.title, "Modal Title");
    assert_eq!(m.components.len(), 3);
    let foo = &m.components[0];
    assert_eq!(foo.custom_id, "foo");
    assert_eq!(foo.label, "Foo");
    assert_eq!(foo.max_length, None);
    assert_eq!(foo.min_length, None);
    assert_eq!(foo.placeholder, None);
    assert_eq!(foo.required, Some(true));
    assert_eq!(foo.style, TextInputStyle::Paragraph);
    assert_eq!(foo.value, Some("foo_value".to_string()));
    let bar = &m.components[1];
    assert_eq!(bar.custom_id, "bar");
    assert_eq!(bar.label, "Label!!");
    assert_eq!(bar.required, Some(false));
    assert_eq!(bar.style, TextInputStyle::Short);
    assert_eq!(bar.value, None);
    let baz = &m.components[2];
    assert_eq!(baz.custom_id, "baz");
    assert_eq!(baz.label, "Baz");
    assert_eq!(baz.max_length, Some(10));
    assert_eq!(baz.min_length, Some(5));
    assert_eq!(baz.placeholder, Some("baz_placeholder".to_string()));
    assert_eq!(baz.required, Some(false));
    assert_eq!(baz.style, TextInputStyle::Paragraph);
    assert_eq!(baz.value, Some("baz_value".to_string()));
}

#[test]
fn test_modal_model() {
    let model = ModalModel::new(modal_demo_fields()).unwrap();
    let row = |custom_id: &str, value: Option<&str>| ModalActionRow {
        components: vec![ModalComponent { custom_id: custom_id.to_string(), value: value.map(|v| v.to_string()) }],
    };
    let data = ModalInputData {
        components: vec![row("foo", Some("ParagraphField")), row("bar", Some("ShortFieldOptional")), row("baz", None)],
    };
    assert_eq!(
        model.from_interaction(data).unwrap(),
        vec![Some("ParagraphField".to_string()), Some("ShortFieldOptional".to_string()), None]
    );
}

#[test]
fn test_unit_modal_model() {
    let model = ModalModel::new(vec![]).unwrap();
    let data = ModalInputData { components: vec![] };
    assert_eq!(model.from_interaction(data).unwrap(), Vec::<Option<String>>::new());
}

#[test]
fn modal_parse_errors() {
    let model = ModalModel::new(modal_demo_fields()).unwrap();
    let unknown = ModalInputData {
        components: vec![ModalActionRow { components: vec![ModalComponent { custom_id: "qux".to_string(), value: None }] }],
    };
    assert_eq!(
        model.from_interaction(unknown).unwrap_err(),
        ParseError::Option(ParseOptionError { field: "qux".to_string(), kind: ParseOptionErrorType::UnknownField })
    );
    let missing = ModalInputData {
        components: vec![ModalActionRow {
            components: vec![
                ModalComponent { custom_id: "bar".to_string(), value: Some("x".to_string()) },
                ModalComponent { custom_id: "foo".to_string(), value: None },
            ],
        }],
    };
    assert_eq!(
        model.from_interaction(missing).unwrap_err(),
        ParseError::Option(ParseOptionError {
            field: "paragraph_field".to_string(),
            kind: ParseOptionErrorType::RequiredField,
        })
    );
}

#[test]
fn modal_field_count_ceiling() {
    let title = || modal_attr(&[("title", modal_s("Form"))]);
    let six: Vec<ModalFieldDecl> = (0..6).map(modal_plain_field).collect();
    assert_eq!(create_modal(title(), six, "m".to_string()).unwrap_err(), DeriveError::ModalFieldCount);
    let five: Vec<ModalFieldDecl> = (0..5).map(modal_plain_field).collect();
    let m = create_modal(title(), five, "m".to_string()).unwrap();
    assert_eq!(m.components.len(), 5);
    assert_eq!(m.components[4].custom_id, "field_4");
    assert_eq!(create_modal(title(), vec![], "m".to_string()).unwrap_err(), DeriveError::ModalFieldCount);
}

#[test]
fn modal_declaration_errors() {
    let one = || vec![modal_plain_field(0)];
    assert_eq!(create_modal(None, one(), "m".to_string()).unwrap_err(), DeriveError::MissingAttribute);
    assert_eq!(create_modal(modal_attr(&[]), one(), "m".to_string()).unwrap_err(), DeriveError::MissingTitle);
    let long_title = "t".repeat(46);
    assert_eq!(
        create_modal(modal_attr(&[("title", modal_s(&long_title))]), one(), "m".to_string()).unwrap_err(),
        DeriveError::StringLength { min: 1, max: 45 }
    );
    let bad_style = vec![ModalFieldDecl {
        ident: Some("f".to_string()),
        ty: modal_ty("String"),
        attribute: modal_attr(&[("label", modal_s("L")), ("style", modal_s("long"))]),
    }];
    assert_eq!(
        ModalModel::new(bad_style).unwrap_err(),
        DeriveError::InvalidTextInputStyle("long".to_string())
    );
    let no_label = vec![ModalFieldDecl {
        ident: Some("f".to_string()),
        ty: modal_ty("String"),
        attribute: modal_attr(&[("style", modal_s("short"))]),
    }];
    assert_eq!(ModalModel::new(no_label).unwrap_err(), DeriveError::MissingArgument("label".to_string()));
    let no_attribute = vec![ModalFieldDecl { ident: Some("f".to_string()), ty: modal_ty("String"), attribute: None }];
    assert_eq!(ModalModel::new(no_attribute).unwrap_err(), DeriveError::MissingAttribute);
}
