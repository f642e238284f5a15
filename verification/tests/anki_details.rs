use personal_utils::anki::card::Card;
use personal_utils::anki::guid::{guid_for, guid_from_hash};
use personal_utils::anki::model::{marks_of, needs_from_rendering, place_number};
use personal_utils::anki::note::{
    all_of, any_of, cards_from_req, cloze_cards, front_back_cards, groups_of, ords_of_numbers,
    re_findall, validate_tags,
};
use personal_utils::anki::{Deck, Error, Field, Model, ModelType, Note, Package, Template};

fn texts(parts: &[&str]) -> Vec<String> {
    parts.iter().map(|p| p.to_string()).collect()
}

fn sorted_ords(cards: &[Card]) -> Vec<i64> {
    let mut ords: Vec<i64> = cards.iter().map(|c| c.ord()).collect();
    ords.sort();
    ords
}

fn model_names(deck: &Deck) -> Vec<(i64, String)> {
    let mut names: Vec<(i64, String)> = deck
        .models()
        .iter()
        .map(|(id, m)| (*id, m.to_model_db_entry(0, 0).unwrap().name))
        .collect();
    names.sort();
    names
}

fn cloze_model() -> Model {
    Model::new_with_options(
        998877661,
        "Cloze Model",
        vec![Field::new("Text"), Field::new("Extra")],
        vec![Template::new("My Cloze Card")
            .qfmt("{{cloze:Text}}")
            .afmt("{{cloze:Text}}<br>{{Extra}}")],
        None,
        Some(ModelType::Cloze),
        None,
        None,
        None,
    )
}

#[test]
fn cloze_note_has_one_card_per_deletion_number() {
    let note = Note::new(
        cloze_model(),
        vec!["{{c1::Rome}} is the capital of {{c2::Italy}}, not {{c1::Paris}}", "x"],
    )
    .unwrap();
    assert_eq!(sorted_ords(&note.cards()), vec![0, 1]);
    assert_eq!(note.cards().len(), 2);
    assert!(note.cards().iter().all(|c| !c.suspend));
}

#[test]
fn cloze_cards_hold_every_number_once() {
    let fields = texts(&["{{c3::a}} {{c1::b}} {{c3::c}} {{c0::d}} {{c2::e\nf}}", ""]);
    let cards = cloze_cards(&cloze_model(), &fields);
    assert_eq!(cards.len(), 3);
    assert_eq!(sorted_ords(&cards), vec![0, 1, 2]);
}

#[test]
fn cloze_note_without_deletions_has_the_first_card() {
    let fields = texts(&["no deletion", ""]);
    assert_eq!(cloze_cards(&cloze_model(), &fields), vec![Card::new(0, false)]);
    let no_templates = Model::new(1, "m", vec![Field::new("Text")], vec![]);
    assert_eq!(
        cloze_cards(&no_templates, &texts(&["{{c2::x}}"])),
        vec![Card::new(0, false)]
    );
}

#[test]
fn cloze_reads_angle_references_and_missing_fields() {
    let model = Model::new(
        1,
        "m",
        vec![Field::new("Text"), Field::new("Other")],
        vec![Template::new("t").qfmt("<%cloze:Other%> {{cloze:Gone}}")],
    );
    let fields = texts(&["{{c5::x}}", "{{c2::y}}"]);
    assert_eq!(cloze_cards(&model, &fields), vec![Card::new(1, false)]);
    assert_eq!(
        cloze_cards(&model, &texts(&["{{c5::x}}"])),
        vec![Card::new(0, false)]
    );
}

#[test]
fn groups_are_flattened_without_the_whole_match() {
    assert_eq!(
        re_findall("(a)(x)?(b)", "ab axb"),
        texts(&["a", "b", "a", "x", "b"])
    );
    assert_eq!(re_findall("(?s){{c(\\d+)::.+?}}", "{{c12::a}}{{c3::b\nc}}"), texts(&["12", "3"]));
    assert_eq!(re_findall("(", "ab"), Vec::<String>::new());
    assert_eq!(re_findall("a", "aaa"), Vec::<String>::new());
    let found = Some(vec![
        vec![Some("ab".to_string()), None, Some("b".to_string())],
        vec![],
        vec![Some("c".to_string())],
    ]);
    assert_eq!(groups_of(&found), texts(&["b"]));
    assert_eq!(groups_of(&None), Vec::<String>::new());
}

#[test]
fn deletion_numbers_become_card_numbers() {
    assert_eq!(
        ords_of_numbers(&texts(&["1", "0", "10", "x", "", "9223372036854775807", "9223372036854775808"])),
        vec![0, 9, 9223372036854775806]
    );
}

#[test]
fn needs_are_met_by_any_or_all() {
    let fields = texts(&["a", "", "c"]);
    assert_eq!(any_of(&vec![1, 0, 9], &fields), Some(true));
    assert_eq!(any_of(&vec![1], &fields), Some(false));
    assert_eq!(any_of(&vec![], &fields), Some(false));
    assert_eq!(any_of(&vec![1, 9], &fields), None);
    assert_eq!(all_of(&vec![0, 2], &fields), Some(true));
    assert_eq!(all_of(&vec![0, 1, 9], &fields), Some(false));
    assert_eq!(all_of(&vec![], &fields), Some(true));
    assert_eq!(all_of(&vec![0, 9], &fields), None);
}

#[test]
fn cards_follow_the_needs() {
    let req = vec![
        (0usize, "all".to_string(), vec![0usize, 2]),
        (1, "any".to_string(), vec![1]),
        (2, "any".to_string(), vec![1, 2]),
        (3, "all".to_string(), vec![1]),
    ];
    let cards = cards_from_req(&req, &texts(&["a", "", "c"]), 3).unwrap();
    assert_eq!(cards, vec![Card::new(0, false), Card::new(2, false)]);
    match cards_from_req(&req, &texts(&["a", ""]), 3) {
        Err(Error::ModelFieldCountMismatch { model_len, card_len }) => {
            assert_eq!(model_len, 3);
            assert_eq!(card_len, 2);
        }
        other => panic!("unexpected: {:?}", other),
    }
    assert_eq!(place_number(0), 0);
    assert_eq!(place_number(41), 41);
}

#[test]
fn rendering_decides_the_needs() {
    let marks = marks_of(&texts(&["Q", "Hint", "A"]));
    assert_eq!(marks, texts(&["QSeNtInEl", "HintSeNtInEl", "ASeNtInEl"]));
    let lone = needs_from_rendering(&Some("<b>HintSeNtInEl</b>".to_string()), &marks, "t").unwrap();
    assert_eq!(lone, ("all".to_string(), vec![1]));
    let any = needs_from_rendering(&Some("QSeNtInEl ASeNtInEl".to_string()), &marks, "t").unwrap();
    assert_eq!(any, ("any".to_string(), vec![0, 2]));
    let none = needs_from_rendering(&Some("plain".to_string()), &marks, "t").unwrap();
    assert_eq!(none, ("all".to_string(), vec![0, 1, 2]));
    match needs_from_rendering(&Some("xSeNtInEl".to_string()), &marks, "card") {
        Err(Error::TemplateFormat { template }) => assert_eq!(template, "card"),
        other => panic!("unexpected: {:?}", other),
    }
    assert!(matches!(
        needs_from_rendering(&None, &marks, "t"),
        Err(Error::Template)
    ));
    let bad = marks_of(&texts(&["a(b"]));
    assert!(matches!(
        needs_from_rendering(&Some("x".to_string()), &bad, "t"),
        Err(Error::Regex)
    ));
}

#[test]
fn unparsable_template_refuses_the_note() {
    let model = Model::new(
        1,
        "m",
        vec![Field::new("A")],
        vec![Template::new("t").qfmt("{{/A}}never opened")],
    );
    assert!(matches!(model.req(), Err(Error::Template)));
    assert!(matches!(
        front_back_cards(&model, &texts(&["a"])),
        Err(Error::Template)
    ));
    assert!(matches!(Note::new(model, vec!["a"]), Err(Error::Template)));
}

#[test]
fn note_with_too_few_fields_is_refused_where_a_need_reads_past_them() {
    let model = Model::new(
        1,
        "m",
        vec![Field::new("A"), Field::new("B")],
        vec![Template::new("t").qfmt("{{B}}")],
    );
    match Note::new(model.clone(), vec!["a"]) {
        Err(Error::ModelFieldCountMismatch { model_len, card_len }) => {
            assert_eq!((model_len, card_len), (2, 1));
        }
        other => panic!("unexpected: {:?}", other.map(|_| ())),
    }
    let short = Note::new(
        Model::new(
            1,
            "m",
            vec![Field::new("A"), Field::new("B")],
            vec![Template::new("t").qfmt("{{A}}")],
        ),
        vec!["a"],
    )
    .unwrap();
    match short.check_number_model_fields_matches_num_fields() {
        Err(Error::ModelFieldCountMismatch { model_len, card_len }) => {
            assert_eq!((model_len, card_len), (2, 1));
        }
        other => panic!("unexpected: {:?}", other),
    }
    let fitting = Note::new(model, vec!["a", "b"]).unwrap();
    assert!(fitting.check_number_model_fields_matches_num_fields().is_ok());
}

#[test]
fn tags_with_a_space_are_refused() {
    assert!(validate_tags(&texts(&["a", "b"])).is_ok());
    assert!(validate_tags(&texts(&[])).is_ok());
    assert!(matches!(
        validate_tags(&texts(&["a", "b c"])),
        Err(Error::TagContainsWhitespace)
    ));
    assert!(validate_tags(&texts(&["a\tb"])).is_ok());
}

#[test]
fn note_is_stored_with_separators() {
    let model = Model::new(
        1,
        "m",
        vec![Field::new("A"), Field::new("B")],
        vec![Template::new("t").qfmt("{{A}}")],
    );
    let note = Note::new_with_options(
        model,
        vec!["x <h1>", "y <> z <@>"],
        Some(true),
        Some(vec!["t1", "t2"]),
        Some("my-guid"),
    )
    .unwrap();
    assert_eq!(note.format_fields(), "x <h1>\u{1f}y <> z <@>");
    assert_eq!(note.format_tags(), " t1 t2 ");
    assert_eq!(note.get_guid(), "my-guid");
    assert!(note.get_sort_field());
    assert_eq!(note.model().id, 1);
    assert_eq!(
        note.check_invalid_html_tags_in_fields(),
        vec![("y <> z <@>".to_string(), texts(&["<>", "<@>"]))]
    );
    let plain = note.tags(vec![]).sort_field(false);
    assert_eq!(plain.format_tags(), "  ");
    assert!(!plain.get_sort_field());
    assert_eq!(plain.with_tag("a b").format_tags(), " a b ");
}

#[test]
fn generated_guid_is_written_in_base_91() {
    assert_eq!(guid_from_hash(0), "");
    assert_eq!(guid_from_hash(1), "b");
    assert_eq!(guid_from_hash(90), "~");
    assert_eq!(guid_from_hash(91), "ba");
    assert_eq!(guid_from_hash(91 * 91 + 26), "baA");
    assert_eq!(guid_from_hash(u64::MAX).len(), 10);
    let a = guid_for(&texts(&["a", "b"]));
    let b = guid_for(&texts(&["a", "b"]));
    let c = guid_for(&texts(&["a", "c"]));
    assert_eq!(a, b);
    assert_ne!(a, c);
    let note = Note::new(Model::new(0, "m", vec![], vec![]), vec![]).unwrap();
    assert_eq!(note.get_guid(), guid_for(&vec![]));
}

#[test]
fn builders_fill_in_defaults() {
    let plain = Field::new("Front").into_entry();
    assert_eq!(plain.name, "Front");
    assert_eq!(plain.font, "Liberation Sans");
    assert_eq!(plain.size, 20);
    assert!(!plain.sticky);
    assert!(!plain.rtl);
    assert_eq!(plain.ord, 0);
    assert!(plain.media.is_empty());
    let chosen = Field::new("Back")
        .font("Comic Sans")
        .size(15)
        .rtl(true)
        .sticky(true)
        .into_entry();
    assert_eq!(chosen.font, "Comic Sans");
    assert_eq!(chosen.size, 15);
    assert!(chosen.sticky);
    assert!(chosen.rtl);
    let bare = Template::new("Card 1").into_entry();
    assert_eq!(bare.name, "Card 1");
    assert_eq!(bare.qfmt, "");
    assert_eq!(bare.afmt, "");
    assert_eq!(bare.bqfmt, "");
    assert_eq!(bare.bafmt, "");
    assert_eq!(bare.did, None);
    let full = Template::new("Card 2")
        .qfmt("q")
        .afmt("a")
        .bqfmt("bq")
        .bafmt("ba")
        .did(7)
        .clone()
        .into_entry();
    assert_eq!(full.qfmt, "q");
    assert_eq!(full.afmt, "a");
    assert_eq!(full.bqfmt, "bq");
    assert_eq!(full.bafmt, "ba");
    assert_eq!(full.did, Some(7));
    assert_eq!(Card::new(3, true).queue(), -1);
    assert_eq!(Card::new(3, false).queue(), 0);
    assert_eq!(Card::new(3, false).ord(), 3);
}

#[test]
fn model_is_stored_with_numbered_parts() {
    let model = Model::new_with_options(
        -42,
        "named",
        vec![Field::new("A"), Field::new("B")],
        vec![
            Template::new("one").qfmt("{{A}}"),
            Template::new("two").qfmt("{{B}}{{A}}"),
        ],
        Some(".card {}"),
        None,
        Some("pre"),
        None,
        Some(1),
    )
    .with_field(Field::new("C"))
    .with_template(Template::new("three").qfmt("{{C}}"));
    let entry = model.to_model_db_entry(1700000000, 77).unwrap();
    assert_eq!(entry.id, "-42");
    assert_eq!(entry.name, "named");
    assert_eq!(entry.did, 77);
    assert_eq!(entry.usn, -1);
    assert_eq!(entry.sortf, 1);
    assert_eq!(entry.model_db_entry_mod, 1700000000);
    assert_eq!(entry.model_db_entry_type, 0);
    assert_eq!(entry.css, ".card {}");
    assert_eq!(entry.latex_pre, "pre");
    assert_eq!(entry.latex_post, "\\end{document}");
    assert!(entry.vers.is_empty());
    assert!(entry.tags.is_empty());
    assert_eq!(
        entry.req,
        vec![
            (0, "all".to_string(), vec![0]),
            (1, "any".to_string(), vec![0, 1]),
            (2, "all".to_string(), vec![2]),
        ]
    );
    let ords: Vec<i64> = entry.flds.iter().map(|f| f.ord).collect();
    assert_eq!(ords, vec![0, 1, 2]);
    let ords: Vec<i64> = entry.tmpls.iter().map(|t| t.ord).collect();
    assert_eq!(ords, vec![0, 1, 2]);
    assert_eq!(entry.tmpls[2].name, "three");
    let cloze = model
        .model_type(ModelType::Cloze)
        .sort_field_index(2)
        .css("x")
        .latex_pre("a")
        .latex_post("b");
    assert_eq!(cloze.get_model_type(), ModelType::Cloze);
    let entry = cloze.to_model_db_entry(0, 0).unwrap();
    assert_eq!(entry.model_db_entry_type, 1);
    assert_eq!(entry.sortf, 2);
    assert_eq!(entry.css, "x");
    assert_eq!(entry.latex_pre, "a");
    assert_eq!(entry.latex_post, "b");
    let default = Model::new(1, "m", vec![], vec![]).to_model_db_entry(0, 0).unwrap();
    assert!(default.latex_pre.starts_with("\\documentclass[12pt]{article}\n"));
    assert!(default.latex_pre.ends_with("\\begin{document}\n"));
    assert_eq!(default.css, "");
}

#[test]
fn deck_keeps_one_model_per_identifier() {
    let first = Model::new(5, "first", vec![Field::new("A")], vec![Template::new("t").qfmt("{{A}}")]);
    let second = Model::new(6, "second", vec![], vec![]);
    let third = Model::new(5, "third", vec![], vec![]);
    let mut deck = Deck::new(112233, "foodeck", "Very nice deck");
    deck.add_model(first.clone());
    deck.add_model(second);
    deck.add_model(third);
    assert_eq!(
        model_names(&deck),
        vec![(5, "third".to_string()), (6, "second".to_string())]
    );
    deck.add_note(Note::new(first.clone(), vec!["a"]).unwrap());
    deck.add_note(Note::new(Model::new(9, "ninth", vec![], vec![]), vec![]).unwrap());
    deck.collect_models();
    assert_eq!(
        model_names(&deck),
        vec![
            (5, "first".to_string()),
            (6, "second".to_string()),
            (9, "ninth".to_string())
        ]
    );
    assert_eq!(deck.notes().len(), 2);
    let copy = deck.clone();
    assert_eq!(copy.id(), 112233);
    assert_eq!(copy.notes().len(), 2);
    assert_eq!(copy.models().len(), 3);
}

#[test]
fn deck_is_stored_with_its_constants() {
    let entry = Deck::new(112233, "foodeck", "Very nice deck").to_deck_db_entry();
    assert!(!entry.collapsed);
    assert_eq!(entry.conf, 1);
    assert_eq!(entry.desc, "Very nice deck");
    assert_eq!(entry.deck_db_entry_dyn, 0);
    assert_eq!(entry.extend_new, 0);
    assert_eq!(entry.extend_rev, 50);
    assert_eq!(entry.id, 112233);
    assert_eq!(entry.lrn_today, vec![163, 2]);
    assert_eq!(entry.deck_db_entry_mod, 1425278051);
    assert_eq!(entry.name, "foodeck");
    assert_eq!(entry.new_today, vec![163, 2]);
    assert_eq!(entry.rev_today, vec![163, 0]);
    assert_eq!(entry.time_today, vec![163, 23598]);
    assert_eq!(entry.usn, -1);
}

#[test]
fn package_keeps_decks_and_media() {
    let deck1 = Deck::new(123456, "foodeck", "");
    let deck2 = Deck::new(654321, "bardeck", "");
    let package = Package::new(vec![deck1, deck2], vec!["present.mp3", "dir/present.jpg"]).unwrap();
    let ids: Vec<i64> = package.decks().iter().map(|d| d.id()).collect();
    assert_eq!(ids, vec![123456, 654321]);
    assert_eq!(package.media_files(), vec!["present.mp3", "dir/present.jpg"]);
    assert_eq!(package.media_keys(), vec!["0", "1"]);
    let empty = Package::new(vec![], vec![]).unwrap();
    assert!(empty.decks().is_empty());
    assert!(empty.media_keys().is_empty());
}
