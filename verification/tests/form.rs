use conduit::article_editor::Field;
use conduit::encoder::ValidForm as ValidFormEncoder;
use conduit::form::{self, Form, FormField, Problem};

#[test]
fn valid_form_test() {
    let mut form = Form::default();
    form.upsert_field(Field::Title("I'm title".into()));
    form.upsert_field(Field::Body("I'm body".into()));

    let result = form.trim_fields().validate();

    assert!(result.is_ok());
}

#[test]
fn invalid_form_test() {
    let form = Form::default();

    let result = form.trim_fields().validate();

    assert!(if let Err(problems) = result {
        vec!["title can't be blank", "body can't be blank"]
            == problems.iter().map(form::Problem::message).collect::<Vec<_>>()
    } else {
        false
    });
}

#[test]
fn default_form_fields() {
    let form = Form::default();
    let keys: Vec<&str> = form.iter_fields().iter().map(|f| f.key()).collect();
    assert_eq!(keys, vec!["title", "description", "body", "tags"]);
    assert!(form.iter_fields().iter().all(|f| f.value().is_empty()));
}

#[test]
fn upsert_replaces_in_place() {
    let mut form = Form::default();
    form.upsert_field(Field::Body("text".into()));
    let fields = form.iter_fields();
    assert_eq!(fields.len(), 4);
    assert_eq!(fields[2].key(), "body");
    assert_eq!(fields[2].value(), "text");
}

#[test]
fn new_keeps_first_position_and_last_value() {
    let form = Form::new(vec![
        Field::Body("one".into()),
        Field::Title("t".into()),
        Field::Body("two".into()),
    ]);
    let fields = form.iter_fields();
    assert_eq!(fields.len(), 2);
    assert_eq!((fields[0].key(), fields[0].value()), ("body", "two"));
    assert_eq!((fields[1].key(), fields[1].value()), ("title", "t"));
}

#[test]
fn trimmed_values() {
    let mut form = Form::default();
    form.upsert_field(Field::Title("  a  b \t\n".into()));
    form.upsert_field(Field::Body("\u{3000}x\u{a0}".into()));
    let valid = form.trim_fields().validate().ok().unwrap();
    let entries = valid.iter_keys_and_fields();
    assert_eq!(entries[0].1.value(), "a  b");
    assert_eq!(entries[2].1.value(), "x");
}

#[test]
fn whitespace_only_title_is_blank() {
    let mut form = Form::default();
    form.upsert_field(Field::Title(" \t ".into()));
    form.upsert_field(Field::Body("body".into()));
    match form.trim_fields().validate() {
        Err(problems) => {
            assert_eq!(problems.len(), 1);
            assert_eq!(problems[0].message(), "title can't be blank");
        },
        Ok(_) => panic!("a blank title must not pass"),
    }
}

#[test]
fn field_checks() {
    assert!(Field::Title(String::new()).validate().is_some());
    assert!(Field::Title("x".into()).validate().is_none());
    assert!(Field::Body(String::new()).validate().is_some());
    assert!(Field::Description(String::new()).validate().is_none());
    assert!(Field::Tags(String::new()).validate().is_none());
    match Field::Body(String::new()).validate() {
        Some(Problem::InvalidField { field_key, message }) => {
            assert_eq!(field_key, "body");
            assert_eq!(message, "body can't be blank");
        },
        _ => panic!("expected an invalid field"),
    }
}

#[test]
fn field_value_mut() {
    let mut field = Field::Description("a".into());
    *field.value_mut() = "b".into();
    assert_eq!(field.key(), "description");
    assert_eq!(field.value(), "b");
}

#[test]
fn problems_carry_messages() {
    assert_eq!(Problem::new_invalid_field("title", "bad").message(), "bad");
    assert_eq!(Problem::new_server_error("down").message(), "down");
}

#[test]
fn encoder_pairs_keys_with_texts() {
    let mut form = Form::default();
    form.upsert_field(Field::Title(" T ".into()));
    form.upsert_field(Field::Body("B".into()));
    let valid = form.trim_fields().validate().ok().unwrap();
    let encoder = ValidFormEncoder::new(&valid);
    let pairs: Vec<(&str, &str)> = encoder.user.iter().map(|(k, v)| (*k, v.as_str())).collect();
    assert_eq!(pairs, vec![("title", "T"), ("description", ""), ("body", "B"), ("tags", "")]);
}
