//! The injected localization provider: a read-only catalog holding one
//! locale-appropriate string per column-label message. The provider is
//! assumed total — every message a column can name is a field here, so a
//! lookup can never miss.

use vstd::prelude::*;

use crate::column::Column;

verus! {

/// A localization catalog for the browser's column labels. Callers build one
/// from their message store (or a fixed fake in tests) and pass it in by
/// reference; this crate only ever reads it.
pub struct I18n {
    pub browsing_addon: String,
    pub browsing_question: String,
    pub browsing_answer: String,
    pub decks_deck: String,
    pub statistics_due_date: String,
    pub browsing_ease: String,
    pub browsing_interval: String,
    pub scheduling_lapses: String,
    pub search_card_modified: String,
    pub scheduling_reviews: String,
    pub browsing_card: String,
    pub editing_cards: String,
    pub browsing_created: String,
    pub browsing_average_ease: String,
    pub browsing_sort_field: String,
    pub browsing_average_interval: String,
    pub search_note_modified: String,
    pub editing_tags: String,
    pub browsing_note: String,
}

/// The localized label of a column under a given catalog: each column names
/// one fixed message. Card and note variants of due date, lapses and reviews
/// share a message.
pub open spec fn label_spec(c: Column, tr: I18n) -> Seq<char> {
    match c {
        Column::Custom => tr.browsing_addon@,
        Column::Question => tr.browsing_question@,
        Column::Answer => tr.browsing_answer@,
        Column::CardDeck => tr.decks_deck@,
        Column::CardDue => tr.statistics_due_date@,
        Column::CardEase => tr.browsing_ease@,
        Column::CardInterval => tr.browsing_interval@,
        Column::CardLapses => tr.scheduling_lapses@,
        Column::CardMod => tr.search_card_modified@,
        Column::CardReps => tr.scheduling_reviews@,
        Column::CardTemplate => tr.browsing_card@,
        Column::NoteCards => tr.editing_cards@,
        Column::NoteCreation => tr.browsing_created@,
        Column::NoteDue => tr.statistics_due_date@,
        Column::NoteEase => tr.browsing_average_ease@,
        Column::NoteField => tr.browsing_sort_field@,
        Column::NoteInterval => tr.browsing_average_interval@,
        Column::NoteMod => tr.search_note_modified@,
        Column::NoteLapses => tr.scheduling_lapses@,
        Column::NoteReps => tr.scheduling_reviews@,
        Column::NoteTags => tr.editing_tags@,
        Column::Notetype => tr.browsing_note@,
    }
}

impl Column {
    /// The locale-appropriate label for this column, read from the catalog.
    pub fn localized_label(self, i18n: &I18n) -> (r: String)
        ensures
            r@ == label_spec(self, *i18n),
    {
        match self {
            Column::Custom => i18n.browsing_addon.clone(),
            Column::Question => i18n.browsing_question.clone(),
            Column::Answer => i18n.browsing_answer.clone(),
            Column::CardDeck => i18n.decks_deck.clone(),
            Column::CardDue => i18n.statistics_due_date.clone(),
            Column::CardEase => i18n.browsing_ease.clone(),
            Column::CardInterval => i18n.browsing_interval.clone(),
            Column::CardLapses => i18n.scheduling_lapses.clone(),
            Column::CardMod => i18n.search_card_modified.clone(),
            Column::CardReps => i18n.scheduling_reviews.clone(),
            Column::CardTemplate => i18n.browsing_card.clone(),
            Column::NoteCards => i18n.editing_cards.clone(),
            Column::NoteCreation => i18n.browsing_created.clone(),
            Column::NoteDue => i18n.statistics_due_date.clone(),
            Column::NoteEase => i18n.browsing_average_ease.clone(),
            Column::NoteField => i18n.browsing_sort_field.clone(),
            Column::NoteInterval => i18n.browsing_average_interval.clone(),
            Column::NoteMod => i18n.search_note_modified.clone(),
            Column::NoteLapses => i18n.scheduling_lapses.clone(),
            Column::NoteReps => i18n.scheduling_reviews.clone(),
            Column::NoteTags => i18n.editing_tags.clone(),
            Column::Notetype => i18n.browsing_note.clone(),
        }
    }
}

} // verus!
