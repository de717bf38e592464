use browser_table::column::{Alignment, Column};
use browser_table::i18n::I18n;
use browser_table::registry::{BrowserColumns, Collection};

fn fake_i18n() -> I18n {
    I18n {
        browsing_addon: "Addon".to_string(),
        browsing_question: "Question".to_string(),
        browsing_answer: "Answer".to_string(),
        decks_deck: "Deck".to_string(),
        statistics_due_date: "Due".to_string(),
        browsing_ease: "Ease".to_string(),
        browsing_interval: "Interval".to_string(),
        scheduling_lapses: "Lapses".to_string(),
        search_card_modified: "Card Modified".to_string(),
        scheduling_reviews: "Reviews".to_string(),
        browsing_card: "Card".to_string(),
        editing_cards: "Cards".to_string(),
        browsing_created: "Created".to_string(),
        browsing_average_ease: "Average Ease".to_string(),
        browsing_sort_field: "Sort Field".to_string(),
        browsing_average_interval: "Average Interval".to_string(),
        search_note_modified: "Note Modified".to_string(),
        editing_tags: "Tags".to_string(),
        browsing_note: "Note".to_string(),
    }
}

fn labels_sorted(r: &BrowserColumns) -> bool {
    r.columns.windows(2).all(|w| w[0].label <= w[1].label)
}

fn keys_unique(r: &BrowserColumns) -> bool {
    let mut keys: Vec<&str> = r.columns.iter().map(|c| c.key.as_str()).collect();
    let before = keys.len();
    keys.sort();
    keys.dedup();
    keys.len() == before
}

#[test]
fn card_columns_are_sorted_by_label() {
    let col = Collection { tr: fake_i18n() };
    let r = col.all_browser_card_columns();
    assert_eq!(r.columns.len(), 15);
    assert!(labels_sorted(&r));
}

#[test]
fn note_columns_are_sorted_by_label() {
    let col = Collection { tr: fake_i18n() };
    let r = col.all_browser_note_columns();
    assert_eq!(r.columns.len(), 11);
    assert!(labels_sorted(&r));
}

#[test]
fn column_lists_have_no_duplicate_keys() {
    let col = Collection { tr: fake_i18n() };
    assert!(keys_unique(&col.all_browser_card_columns()));
    assert!(keys_unique(&col.all_browser_note_columns()));
}

#[test]
fn both_lists_offer_note_tags_with_same_semantics() {
    let col = Collection { tr: fake_i18n() };
    for r in [col.all_browser_card_columns(), col.all_browser_note_columns()] {
        let tags = r
            .columns
            .iter()
            .find(|c| c.key == "noteTags")
            .expect("noteTags column missing");
        assert_eq!(tags.label, "Tags");
        assert!(tags.is_sortable);
        assert!(!tags.sorts_reversed);
        assert!(!tags.uses_cell_font);
        assert_eq!(tags.alignment, Alignment::Start);
    }
}

#[test]
fn descriptor_fields_follow_the_column() {
    let tr = fake_i18n();
    let d = Column::NoteField.to_pb_column(&tr);
    assert_eq!(d.key, "noteField");
    assert_eq!(d.label, "Sort Field");
    assert!(d.is_sortable);
    assert!(d.sorts_reversed);
    assert!(d.uses_cell_font);
    assert_eq!(d.alignment, Alignment::Start);

    let d = Column::CardEase.to_pb_column(&tr);
    assert_eq!(d.key, "cardEase");
    assert_eq!(d.label, "Ease");
    assert!(d.is_sortable);
    assert!(!d.sorts_reversed);
    assert!(!d.uses_cell_font);
    assert_eq!(d.alignment, Alignment::Center);
}

#[test]
fn card_list_label_order_is_concrete() {
    let col = Collection { tr: fake_i18n() };
    let r = col.all_browser_card_columns();
    let labels: Vec<&str> = r.columns.iter().map(|c| c.label.as_str()).collect();
    assert_eq!(
        labels,
        vec![
            "Answer",
            "Card",
            "Card Modified",
            "Created",
            "Deck",
            "Due",
            "Ease",
            "Interval",
            "Lapses",
            "Note",
            "Note Modified",
            "Question",
            "Reviews",
            "Sort Field",
            "Tags",
        ]
    );
}
