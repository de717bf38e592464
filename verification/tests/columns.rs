use browser_table::column::{parse_column_list, Alignment, Column};

fn all_columns() -> Vec<Column> {
    vec![
        Column::Custom,
        Column::Question,
        Column::Answer,
        Column::CardDeck,
        Column::CardDue,
        Column::CardEase,
        Column::CardLapses,
        Column::CardInterval,
        Column::CardMod,
        Column::CardReps,
        Column::CardTemplate,
        Column::NoteCards,
        Column::NoteCreation,
        Column::NoteDue,
        Column::NoteEase,
        Column::NoteField,
        Column::NoteInterval,
        Column::NoteLapses,
        Column::NoteMod,
        Column::NoteReps,
        Column::NoteTags,
        Column::Notetype,
    ]
}

#[test]
fn every_key_round_trips() {
    for c in all_columns() {
        assert_eq!(Column::parse(c.key_of().as_str()), c);
    }
}

#[test]
fn keys_are_stable() {
    assert_eq!(Column::Question.key_of(), "question");
    assert_eq!(Column::Answer.key_of(), "answer");
    assert_eq!(Column::CardDue.key_of(), "cardDue");
    assert_eq!(Column::NoteField.key_of(), "noteField");
    assert_eq!(Column::NoteTags.key_of(), "noteTags");
    assert_eq!(Column::Custom.key_of(), "custom");
}

#[test]
fn unknown_key_defaults_to_custom() {
    assert_eq!(Column::parse("bogusKey"), Column::Custom);
    assert_eq!(Column::parse(""), Column::Custom);
    assert_eq!(Column::parse("Question"), Column::Custom);
}

#[test]
fn parse_list_preserves_order_and_length() {
    let keys = vec![
        "question".to_string(),
        "bogusKey".to_string(),
        "cardDue".to_string(),
    ];
    let cols = parse_column_list(&keys);
    assert_eq!(cols, vec![Column::Question, Column::Custom, Column::CardDue]);
}

#[test]
fn parse_list_accepts_empty_and_garbage() {
    let cols = parse_column_list(&Vec::new());
    assert_eq!(cols.len(), 0);
    let keys = vec!["".to_string(), "!!".to_string(), "??".to_string()];
    let cols = parse_column_list(&keys);
    assert_eq!(cols.len(), 3);
    assert!(cols.iter().all(|c| *c == Column::Custom));
}

#[test]
fn only_previews_and_custom_are_unsortable() {
    for c in all_columns() {
        let expected =
            !(c == Column::Question || c == Column::Answer || c == Column::Custom);
        assert_eq!(c.is_sortable(), expected);
    }
}

#[test]
fn only_note_sort_field_sorts_reversed() {
    for c in all_columns() {
        assert_eq!(c.sorts_reversed(), c == Column::NoteField);
    }
}

#[test]
fn cell_font_used_by_previews_and_sort_field() {
    for c in all_columns() {
        let expected =
            c == Column::Question || c == Column::Answer || c == Column::NoteField;
        assert_eq!(c.uses_cell_font(), expected);
    }
}

#[test]
fn free_text_columns_align_start_others_center() {
    for c in all_columns() {
        let expected = match c {
            Column::Question
            | Column::Answer
            | Column::CardTemplate
            | Column::CardDeck
            | Column::NoteField
            | Column::Notetype
            | Column::NoteTags => Alignment::Start,
            _ => Alignment::Center,
        };
        assert_eq!(c.alignment(), expected);
    }
}
