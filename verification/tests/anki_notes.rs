use personal_utils::anki::note::find_invalid_html_tags_in_field;
use personal_utils::anki::{Field, Model, Note, Template};

#[test]
fn tags_new() {
    let _ = Note::new_with_options(
        Model::new(0, "test", vec![], vec![]),
        vec![],
        None,
        Some(vec!["foo", "bar", "baz"]),
        None,
    )
    .unwrap();
}

#[test]
#[should_panic]
fn tags_new_panic() {
    let _ = Note::new_with_options(
        Model::new(0, "test", vec![], vec![]),
        vec![],
        None,
        Some(vec!["fo o", "bar", "baz"]),
        None,
    )
    .unwrap();
}

#[test]
fn find_invalid_html_tags_in_field_ok() {
    assert_eq!(
        find_invalid_html_tags_in_field("<h1>"),
        Vec::<String>::new()
    );
}

#[test]
fn find_invalid_html_tags_in_field_ok_with_space() {
    assert_eq!(
        find_invalid_html_tags_in_field(" <h1> "),
        Vec::<String>::new()
    );
}

#[test]
fn find_invalid_html_tags_in_field_ok_multiple() {
    assert_eq!(
        find_invalid_html_tags_in_field("<h1>test</h1>"),
        Vec::<String>::new()
    );
}

#[test]
fn find_invalid_html_tags_in_field_ok_br() {
    assert_eq!(
        find_invalid_html_tags_in_field("<br>"),
        Vec::<String>::new()
    );
}

#[test]
fn find_invalid_html_tags_in_field_ok_br2() {
    assert_eq!(
        find_invalid_html_tags_in_field("<br/>"),
        Vec::<String>::new()
    );
}

#[test]
fn find_invalid_html_tags_in_field_ok_br3() {
    assert_eq!(
        find_invalid_html_tags_in_field("<br />"),
        Vec::<String>::new()
    );
}

#[test]
fn find_invalid_html_tags_in_field_ok_attrs() {
    assert_eq!(
        find_invalid_html_tags_in_field(r#"<h1 style="color: red">STOP</h1>"#),
        Vec::<String>::new()
    );
}

#[test]
fn find_invalid_html_tags_in_field_ng_empty() {
    assert_eq!(
        find_invalid_html_tags_in_field(" hello <> goodbye"),
        vec!["<>"]
    );
}

#[test]
fn find_invalid_html_tags_in_field_ng_empty_space() {
    assert_eq!(
        find_invalid_html_tags_in_field(" hello < > goodbye"),
        vec!["< >"]
    );
}

#[test]
fn find_invalid_html_tags_in_field_ng_invalid_characters() {
    assert_eq!(find_invalid_html_tags_in_field("<@h1>"), vec!["<@h1>"]);
}

#[test]
fn find_invalid_html_tags_in_field_ng_invalid_characters_end() {
    assert_eq!(find_invalid_html_tags_in_field("<h1@>"), vec!["<h1@>"]);
}

#[test]
fn option_builder() {
    let model = Model::new(
        1234,
        "model",
        vec![Field::new("a"), Field::new("b")],
        vec![Template::new("template")],
    );
    let _note = Note::new(model, vec!["a", "b"])
        .unwrap()
        .guid("1234")
        .tags(vec!["tag_a"])
        .with_tag("tag_b")
        .sort_field(true);
}
