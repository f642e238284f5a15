use personal_utils::anki::{Error, Model, Note};
use personal_utils::wortliste::anki::{
    basic_model, basic_model_reversed, build_deck, entry_note, fixed_media_files, new_deck,
    note_fields, sound_file_of, sound_path_of, sound_reference_of,
};
use personal_utils::wortliste::db::{
    description_of, entry_from_row, read_wortlist, wortlist_from_rows,
};
use personal_utils::wortliste::deepl::{make_translation, parse_translation};
use personal_utils::wortliste::utils::{extract_word_from_text, extract_word_to_speach};
use personal_utils::wortliste::{Translation, WordItem};

#[test]
fn test_extract_word_from_text() {
    assert_eq!(extract_word_from_text("das Poulet, -s (CH)"), "das Poulet");
    assert_eq!(extract_word_from_text("der Schutz"), "der Schutz");
    assert_eq!(extract_word_from_text("die Leitung, -en"), "die Leitung");
    assert_eq!(
        extract_word_from_text("(sich) schneiden, schneidet, schnitt, hat geschnitten"),
        "schneiden"
    );
    assert_eq!(
        extract_word_from_text("kochen, kocht, kochte, hat gekocht"),
        "kochen"
    );
    assert_eq!(
        extract_word_from_text("verlängern, verlängert, verlängerte, hat verlängert"),
        "verlängern"
    );
    assert_eq!(extract_word_from_text("Lieblings-"), "Lieblings-");
    assert_eq!(extract_word_from_text("zusammen/zusammen-"), "zusammen");
    assert_eq!(extract_word_from_text("zurück/zurück-"), "zurück");
    assert_eq!(extract_word_from_text("toll"), "toll");
    assert_eq!(extract_word_from_text("klug"), "klug");
    assert_eq!(extract_word_from_text("mehr (siehe auch viel)"), "mehr");
    assert_eq!(
        extract_word_from_text("sowohl … als auch"),
        "sowohl … als auch"
    );
}

#[test]
fn test_extract_word_to_speach() {
    assert_eq!(extract_word_to_speach("das Poulet, -s (CH)"), "das Poulet");
    assert_eq!(extract_word_to_speach("der Schutz"), "der Schutz");
    assert_eq!(extract_word_to_speach("die Leitung, -en"), "die Leitung");
    assert_eq!(
        extract_word_to_speach("(sich) schneiden, schneidet, schnitt, hat geschnitten"),
        "(sich) schneiden, schneidet, schnitt, hat geschnitten"
    );
    assert_eq!(
        extract_word_to_speach("kochen, kocht, kochte, hat gekocht"),
        "kochen, kocht, kochte, hat gekocht"
    );
    assert_eq!(
        extract_word_to_speach("verlängern, verlängert, verlängerte, hat verlängert"),
        "verlängern, verlängert, verlängerte, hat verlängert"
    );
    assert_eq!(extract_word_to_speach("Lieblings-"), "Lieblings");
    assert_eq!(extract_word_to_speach("zusammen/zusammen-"), "zusammen");
    assert_eq!(extract_word_to_speach("zurück/zurück-"), "zurück");
    assert_eq!(extract_word_to_speach("toll"), "toll");
    assert_eq!(
        extract_word_to_speach("sowohl … als auch"),
        "sowohl … als auch"
    );
    assert_eq!(extract_word_from_text("mehr (siehe auch viel)"), "mehr");
}

fn word(id: i64, text: &str, description: Option<&str>) -> WordItem {
    WordItem {
        id,
        word: text.to_string(),
        description: description.map(|d| d.to_string()),
    }
}

fn translation(word_id: i64, text: &str, description: Option<&str>) -> Translation {
    Translation {
        id: 1,
        word_id,
        translation: text.to_string(),
        description: description.map(|d| d.to_string()),
        audio: None,
    }
}

fn deck_model() -> Model {
    basic_model("{{Word}}", "{{WordTranslation}}", ".card {}")
}

#[test]
fn basic_model_has_fifteen_fields_and_one_card() {
    let model = deck_model();
    assert_eq!(model.id, 1607392319);
    let fields = model.fields();
    assert_eq!(fields.len(), 15);
    assert_eq!(fields[0].name, "AudioWord");
    assert_eq!(fields[2].name, "Word");
    assert_eq!(fields[11].name, "Word-Symbol");
    assert_eq!(fields[13].name, "Note/Mnemonic");
    assert_eq!(fields[14].name, "CreateReversed");
    assert_eq!(fields[14].font, "Liberation Sans");
    let templates = model.templates();
    assert_eq!(templates.len(), 1);
    assert_eq!(templates[0].name, "Card 1");
    assert_eq!(templates[0].qfmt, "{{Word}}");
    assert_eq!(templates[0].afmt, "{{WordTranslation}}");
    let entry = model.to_model_db_entry(5, 9).unwrap();
    assert_eq!(entry.css, ".card {}");
    assert_eq!(entry.name, "German model (and reversed card)");
    assert_eq!(entry.req, vec![(0, "all".to_string(), vec![2])]);
}

#[test]
fn reversed_model_has_a_second_card() {
    let model = basic_model_reversed("{{Word}}", "a", "css", "{{WordTranslation}}", "b");
    let templates = model.templates();
    assert_eq!(templates.len(), 2);
    assert_eq!(templates[1].name, "Card 2");
    assert_eq!(templates[1].qfmt, "{{WordTranslation}}");
    assert_eq!(templates[1].afmt, "b");
    assert_eq!(
        model.req().unwrap(),
        vec![
            (0, "all".to_string(), vec![2]),
            (1, "all".to_string(), vec![1])
        ]
    );
}

#[test]
fn note_fields_follow_the_model() {
    let fields = note_fields(
        &word(12, "der Schutz", Some("Schutz vor Regen")),
        &translation(12, "защита", None),
    );
    assert_eq!(
        fields,
        vec![
            "[sound:12.ogg]",
            "защита",
            "der Schutz",
            "Schutz vor Regen",
            "",
            "",
            "",
            "",
            "",
            "DE",
            "",
            "",
            "",
            "",
            "true"
        ]
    );
    assert_eq!(sound_reference_of(-3), "[sound:-3.ogg]");
    assert_eq!(sound_path_of(12), "audio/12.ogg");
    assert_eq!(
        fixed_media_files(),
        vec![
            "media/_flag_de.svg",
            "media/flag_de.svg",
            "media/germany-flag-1783774.svg"
        ]
    );
}

#[test]
fn deck_holds_one_note_per_entry() {
    let data = vec![
        (word(1, "toll", Some("a")), translation(1, "здорово", Some("b"))),
        (word(2, "klug", None), translation(2, "умный", None)),
    ];
    let deck = build_deck(&data, &deck_model()).unwrap();
    assert_eq!(deck.id(), 2059400110);
    let notes: Vec<Note> = deck.notes();
    assert_eq!(notes.len(), 2);
    assert_eq!(notes[0].cards().len(), 1);
    assert_eq!(notes[1].cards()[0].ord(), 0);
    assert_eq!(
        notes[1].format_fields(),
        "[sound:2.ogg]\u{1f}умный\u{1f}klug\u{1f}\u{1f}\u{1f}\u{1f}\u{1f}\u{1f}\u{1f}DE\u{1f}\u{1f}\u{1f}\u{1f}\u{1f}true"
    );
    let entry = deck.to_deck_db_entry();
    assert_eq!(entry.name, "Goethe-Zertifikat B1");
    assert_eq!(entry.desc, "Deutschprüfung für Jugendliche und Erwachsene");
}

#[test]
fn deck_is_refused_with_a_bad_template() {
    let data = vec![(word(1, "toll", None), translation(1, "x", None))];
    let model = basic_model("{{/Word}}never opened", "", "");
    assert!(matches!(build_deck(&data, &model), Err(Error::Template)));
    assert!(build_deck(&vec![], &model).is_ok());
}

#[test]
fn word_list_is_read_from_table_rows() {
    let page = "<table>\
        <tr><th>Wort</th></tr>\
        <tr><td>ab</td><td>Die Fahrt <b>ab</b> Hamburg.</td><td>x</td></tr>\
        <tr><td>der Abend, -e</td><td>Guten Abend!</td></tr>\
        <tr><td>ab</td><td>Ab morgen.</td></tr>\
        </table>";
    let list = read_wortlist(page);
    assert_eq!(
        list,
        vec![
            ("".to_string(), Vec::<String>::new()),
            ("ab".to_string(), vec!["Ab morgen.".to_string()]),
            ("der Abend, -e".to_string(), vec!["Guten Abend!".to_string()]),
        ]
    );
    assert_eq!(read_wortlist(""), vec![]);
}

#[test]
fn row_gives_word_and_texts_of_other_cells() {
    let row = vec![vec![
        vec!["ab".to_string(), "!".to_string()],
        vec!["Die Fahrt ".to_string(), "ab".to_string()],
        vec![],
        vec!["x".to_string()],
    ]];
    assert_eq!(
        entry_from_row(&row),
        (
            "ab".to_string(),
            vec!["Die Fahrt ".to_string(), "ab".to_string(), "x".to_string()]
        )
    );
    assert_eq!(entry_from_row(&vec![]), ("".to_string(), vec![]));
    assert_eq!(entry_from_row(&vec![vec![vec![]]]), ("".to_string(), vec![]));
    assert_eq!(wortlist_from_rows(&vec![row.clone(), row]).len(), 1);
    assert_eq!(
        description_of(&vec!["Die Fahrt ".to_string(), "ab".to_string()]),
        "Die Fahrt ab"
    );
    assert_eq!(description_of(&vec![]), "");
}

#[test]
fn translation_is_lowered_and_has_no_sound() {
    let made = make_translation(&word(7, "der Schutz", None), "Защита", "Описание");
    assert_eq!(made.id, 0);
    assert_eq!(made.word_id, 7);
    assert_eq!(made.translation, "защита");
    assert_eq!(made.description, Some("Описание".to_string()));
    assert_eq!(made.audio, None);
}

#[test]
fn translation_is_read_from_the_answer() {
    assert_eq!(
        parse_translation(r#"{"translations":[{"detected_source_language":"DE","text":"Привет"}]}"#),
        Some("Привет".to_string())
    );
    assert_eq!(parse_translation(r#"{"translations":[]}"#), None);
    assert_eq!(parse_translation(r#"{"message":"quota"}"#), None);
    assert_eq!(parse_translation("oops"), None);
}

#[test]
fn sound_is_decoded_for_its_file() {
    let mut spoken = translation(4, "x", None);
    assert_eq!(sound_file_of(&word(4, "w", None), &spoken), None);
    spoken.audio = Some("T2dnUw==".to_string());
    assert_eq!(
        sound_file_of(&word(4, "w", None), &spoken),
        Some(("audio/4.ogg".to_string(), Some(vec![0x4f, 0x67, 0x67, 0x53])))
    );
    spoken.audio = Some("not base64!".to_string());
    assert_eq!(
        sound_file_of(&word(4, "w", None), &spoken),
        Some(("audio/4.ogg".to_string(), None))
    );
}

#[test]
fn note_of_an_entry_is_made_on_the_model() {
    let note = entry_note(
        &word(3, "klug", Some("Sie ist klug.")),
        &translation(3, "умный", Some("Она умная.")),
        &deck_model(),
    )
    .unwrap();
    assert_eq!(note.cards().len(), 1);
    assert_eq!(
        note.format_fields(),
        "[sound:3.ogg]\u{1f}умный\u{1f}klug\u{1f}Sie ist klug.\u{1f}Она умная.\u{1f}\u{1f}\u{1f}\u{1f}\u{1f}DE\u{1f}\u{1f}\u{1f}\u{1f}\u{1f}true"
    );
    assert_eq!(note.format_tags(), "  ");
    let deck = new_deck();
    assert_eq!(deck.id(), 2059400110);
    assert!(deck.notes().is_empty());
    assert!(deck.models().is_empty());
    let bad = basic_model("{{/Word}}never opened", "", "");
    assert!(matches!(
        entry_note(&word(3, "klug", None), &translation(3, "x", None), &bad),
        Err(Error::Template)
    ));
}
