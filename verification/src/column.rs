//! Column identities: the closed, append-only enumeration of displayable
//! columns with their stable string keys, and the per-column display flags.

use vstd::prelude::*;

use crate::order::str_eq;

verus! {

/// One displayable attribute of a card or note.
///
/// Each variant has exactly one stable string key (see [`key_spec`]); keys
/// never change once released, since persisted user preferences reference
/// them.
#[derive(Clone, Copy, Debug, PartialEq, Eq, Structural)]
pub enum Column {
    /// Catch-all placeholder, also the fallback for unrecognized keys.
    Custom,
    Question,
    Answer,
    CardDeck,
    CardDue,
    CardEase,
    CardLapses,
    CardInterval,
    CardMod,
    CardReps,
    CardTemplate,
    NoteCards,
    NoteCreation,
    NoteDue,
    NoteEase,
    NoteField,
    NoteInterval,
    NoteLapses,
    NoteMod,
    NoteReps,
    NoteTags,
    Notetype,
}

/// Horizontal alignment of a column's cells.
#[derive(Clone, Copy, Debug, PartialEq, Eq, Structural)]
pub enum Alignment {
    Start,
    Center,
}

/// The stable string key of a column.
pub open spec fn key_spec(c: Column) -> Seq<char> {
    match c {
        Column::Custom => "custom"@,
        Column::Question => "question"@,
        Column::Answer => "answer"@,
        Column::CardDeck => "cardDeck"@,
        Column::CardDue => "cardDue"@,
        Column::CardEase => "cardEase"@,
        Column::CardLapses => "cardLapses"@,
        Column::CardInterval => "cardInterval"@,
        Column::CardMod => "cardMod"@,
        Column::CardReps => "cardReps"@,
        Column::CardTemplate => "cardTemplate"@,
        Column::NoteCards => "noteCards"@,
        Column::NoteCreation => "noteCreation"@,
        Column::NoteDue => "noteDue"@,
        Column::NoteEase => "noteEase"@,
        Column::NoteField => "noteField"@,
        Column::NoteInterval => "noteInterval"@,
        Column::NoteLapses => "noteLapses"@,
        Column::NoteMod => "noteMod"@,
        Column::NoteReps => "noteReps"@,
        Column::NoteTags => "noteTags"@,
        Column::Notetype => "notetype"@,
    }
}

/// A column is sortable unless its value is rendered on demand from
/// templates (question/answer previews) or provided by an extension
/// (custom), in which case no stored field orders it.
pub open spec fn is_sortable_spec(c: Column) -> bool {
    !(c == Column::Question || c == Column::Answer || c == Column::Custom)
}

/// The note sort field is by convention collated in descending order;
/// every other column sorts ascending.
pub open spec fn sorts_reversed_spec(c: Column) -> bool {
    c == Column::NoteField
}

/// The columns whose text is rendered with the note's configured display
/// font, so previews match editing.
pub open spec fn uses_cell_font_spec(c: Column) -> bool {
    c == Column::Question || c == Column::Answer || c == Column::NoteField
}

/// Free-text and name columns align at the start; numeric, date and status
/// columns are centered.
pub open spec fn alignment_spec(c: Column) -> Alignment {
    if c == Column::Question || c == Column::Answer || c == Column::CardTemplate || c
        == Column::CardDeck || c == Column::NoteField || c == Column::Notetype || c
        == Column::NoteTags {
        Alignment::Start
    } else {
        Alignment::Center
    }
}

/// The column a persisted key string names. An unrecognized key falls back
/// to [`Column::Custom`], so preference lists written by other versions of
/// the software degrade gracefully instead of breaking the view.
pub open spec fn parse_spec(s: Seq<char>) -> Column {
    if s == "question"@ {
        Column::Question
    } else if s == "answer"@ {
        Column::Answer
    } else if s == "cardDeck"@ {
        Column::CardDeck
    } else if s == "cardDue"@ {
        Column::CardDue
    } else if s == "cardEase"@ {
        Column::CardEase
    } else if s == "cardLapses"@ {
        Column::CardLapses
    } else if s == "cardInterval"@ {
        Column::CardInterval
    } else if s == "cardMod"@ {
        Column::CardMod
    } else if s == "cardReps"@ {
        Column::CardReps
    } else if s == "cardTemplate"@ {
        Column::CardTemplate
    } else if s == "noteCards"@ {
        Column::NoteCards
    } else if s == "noteCreation"@ {
        Column::NoteCreation
    } else if s == "noteDue"@ {
        Column::NoteDue
    } else if s == "noteEase"@ {
        Column::NoteEase
    } else if s == "noteField"@ {
        Column::NoteField
    } else if s == "noteInterval"@ {
        Column::NoteInterval
    } else if s == "noteLapses"@ {
        Column::NoteLapses
    } else if s == "noteMod"@ {
        Column::NoteMod
    } else if s == "noteReps"@ {
        Column::NoteReps
    } else if s == "noteTags"@ {
        Column::NoteTags
    } else if s == "notetype"@ {
        Column::Notetype
    } else {
        Column::Custom
    }
}

impl Column {
    /// The stable string key of this column.
    pub fn key_of(self) -> (r: String)
        ensures
            r@ == key_spec(self),
    {
        match self {
            Column::Custom => "custom".to_owned(),
            Column::Question => "question".to_owned(),
            Column::Answer => "answer".to_owned(),
            Column::CardDeck => "cardDeck".to_owned(),
            Column::CardDue => "cardDue".to_owned(),
            Column::CardEase => "cardEase".to_owned(),
            Column::CardLapses => "cardLapses".to_owned(),
            Column::CardInterval => "cardInterval".to_owned(),
            Column::CardMod => "cardMod".to_owned(),
            Column::CardReps => "cardReps".to_owned(),
            Column::CardTemplate => "cardTemplate".to_owned(),
            Column::NoteCards => "noteCards".to_owned(),
            Column::NoteCreation => "noteCreation".to_owned(),
            Column::NoteDue => "noteDue".to_owned(),
            Column::NoteEase => "noteEase".to_owned(),
            Column::NoteField => "noteField".to_owned(),
            Column::NoteInterval => "noteInterval".to_owned(),
            Column::NoteLapses => "noteLapses".to_owned(),
            Column::NoteMod => "noteMod".to_owned(),
            Column::NoteReps => "noteReps".to_owned(),
            Column::NoteTags => "noteTags".to_owned(),
            Column::Notetype => "notetype".to_owned(),
        }
    }

    /// Whether the browser can sort on this column.
    pub fn is_sortable(self) -> (r: bool)
        ensures
            r == is_sortable_spec(self),
    {
        !(matches!(self, Column::Question | Column::Answer | Column::Custom))
    }

    /// Whether this column's natural sort order is descending.
    pub fn sorts_reversed(self) -> (r: bool)
        ensures
            r == sorts_reversed_spec(self),
    {
        self == Column::NoteField
    }

    /// Whether this column's cells are rendered with the note's font.
    pub fn uses_cell_font(self) -> (r: bool)
        ensures
            r == uses_cell_font_spec(self),
    {
        matches!(self, Column::Question | Column::Answer | Column::NoteField)
    }

    /// The horizontal alignment of this column's cells.
    pub fn alignment(self) -> (r: Alignment)
        ensures
            r == alignment_spec(self),
    {
        match self {
            Column::Question
            | Column::Answer
            | Column::CardTemplate
            | Column::CardDeck
            | Column::NoteField
            | Column::Notetype
            | Column::NoteTags => Alignment::Start,
            _ => Alignment::Center,
        }
    }

    /// Parses a persisted key string back into a column; total, with
    /// unrecognized keys coerced to [`Column::Custom`].
    pub fn parse(key: &str) -> (r: Column)
        ensures
            r == parse_spec(key@),
    {
        if str_eq(key, "question") {
            Column::Question
        } else if str_eq(key, "answer") {
            Column::Answer
        } else if str_eq(key, "cardDeck") {
            Column::CardDeck
        } else if str_eq(key, "cardDue") {
            Column::CardDue
        } else if str_eq(key, "cardEase") {
            Column::CardEase
        } else if str_eq(key, "cardLapses") {
            Column::CardLapses
        } else if str_eq(key, "cardInterval") {
            Column::CardInterval
        } else if str_eq(key, "cardMod") {
            Column::CardMod
        } else if str_eq(key, "cardReps") {
            Column::CardReps
        } else if str_eq(key, "cardTemplate") {
            Column::CardTemplate
        } else if str_eq(key, "noteCards") {
            Column::NoteCards
        } else if str_eq(key, "noteCreation") {
            Column::NoteCreation
        } else if str_eq(key, "noteDue") {
            Column::NoteDue
        } else if str_eq(key, "noteEase") {
            Column::NoteEase
        } else if str_eq(key, "noteField") {
            Column::NoteField
        } else if str_eq(key, "noteInterval") {
            Column::NoteInterval
        } else if str_eq(key, "noteLapses") {
            Column::NoteLapses
        } else if str_eq(key, "noteMod") {
            Column::NoteMod
        } else if str_eq(key, "noteReps") {
            Column::NoteReps
        } else if str_eq(key, "noteTags") {
            Column::NoteTags
        } else if str_eq(key, "notetype") {
            Column::Notetype
        } else {
            Column::Custom
        }
    }
}

/// Parses a persisted ordered list of column keys, element-wise and
/// order-preserving; never fails, whatever the input holds.
pub fn parse_column_list(keys: &Vec<String>) -> (r: Vec<Column>)
    ensures
        r@.len() == keys@.len(),
        forall|i: int| 0 <= i < keys@.len() ==> r@[i] == parse_spec(keys@[i]@),
{
    let mut out: Vec<Column> = Vec::new();
    let mut i: usize = 0;
    while i < keys.len()
        invariant
            0 <= i <= keys@.len(),
            out@.len() == i,
            forall|j: int| 0 <= j < i ==> out@[j] == parse_spec(keys@[j]@),
        decreases keys@.len() - i,
    {
        out.push(Column::parse(keys[i].as_str()));
        i += 1;
    }
    out
}

/// Every defined column round-trips through its key: parsing the stable key
/// of a column yields that same column back.
pub proof fn lemma_parse_key_round_trip(c: Column)
    ensures
        parse_spec(key_spec(c)) == c,
{
    reveal_strlit("custom");
    reveal_strlit("question");
    reveal_strlit("answer");
    reveal_strlit("cardDeck");
    reveal_strlit("cardDue");
    reveal_strlit("cardEase");
    reveal_strlit("cardLapses");
    reveal_strlit("cardInterval");
    reveal_strlit("cardMod");
    reveal_strlit("cardReps");
    reveal_strlit("cardTemplate");
    reveal_strlit("noteCards");
    reveal_strlit("noteCreation");
    reveal_strlit("noteDue");
    reveal_strlit("noteEase");
    reveal_strlit("noteField");
    reveal_strlit("noteInterval");
    reveal_strlit("noteLapses");
    reveal_strlit("noteMod");
    reveal_strlit("noteReps");
    reveal_strlit("noteTags");
    reveal_strlit("notetype");
    // Pin down enough of each key literal (length, first character, and one
    // more distinguishing character) that any two distinct keys compare
    // unequal.
    assert("custom"@.len() == 6);
    assert("custom"@[0] == 'c');
    assert("custom"@[4] == 'o');
    assert("question"@.len() == 8);
    assert("question"@[0] == 'q');
    assert("question"@[4] == 't');
    assert("answer"@.len() == 6);
    assert("answer"@[0] == 'a');
    assert("answer"@[4] == 'e');
    assert("cardDeck"@.len() == 8);
    assert("cardDeck"@[0] == 'c');
    assert("cardDeck"@[4] == 'D');
    assert("cardDue"@.len() == 7);
    assert("cardDue"@[0] == 'c');
    assert("cardDue"@[4] == 'D');
    assert("cardEase"@.len() == 8);
    assert("cardEase"@[0] == 'c');
    assert("cardEase"@[4] == 'E');
    assert("cardLapses"@.len() == 10);
    assert("cardLapses"@[0] == 'c');
    assert("cardLapses"@[4] == 'L');
    assert("cardInterval"@.len() == 12);
    assert("cardInterval"@[0] == 'c');
    assert("cardInterval"@[4] == 'I');
    assert("cardMod"@.len() == 7);
    assert("cardMod"@[0] == 'c');
    assert("cardMod"@[4] == 'M');
    assert("cardReps"@.len() == 8);
    assert("cardReps"@[0] == 'c');
    assert("cardReps"@[4] == 'R');
    assert("cardTemplate"@.len() == 12);
    assert("cardTemplate"@[0] == 'c');
    assert("cardTemplate"@[4] == 'T');
    assert("noteCards"@.len() == 9);
    assert("noteCards"@[0] == 'n');
    assert("noteCards"@[4] == 'C');
    assert("noteCreation"@.len() == 12);
    assert("noteCreation"@[0] == 'n');
    assert("noteCreation"@[4] == 'C');
    assert("noteDue"@.len() == 7);
    assert("noteDue"@[0] == 'n');
    assert("noteDue"@[4] == 'D');
    assert("noteEase"@.len() == 8);
    assert("noteEase"@[0] == 'n');
    assert("noteEase"@[4] == 'E');
    assert("noteField"@.len() == 9);
    assert("noteField"@[0] == 'n');
    assert("noteField"@[4] == 'F');
    assert("noteInterval"@.len() == 12);
    assert("noteInterval"@[0] == 'n');
    assert("noteInterval"@[4] == 'I');
    assert("noteLapses"@.len() == 10);
    assert("noteLapses"@[0] == 'n');
    assert("noteLapses"@[4] == 'L');
    assert("noteMod"@.len() == 7);
    assert("noteMod"@[0] == 'n');
    assert("noteMod"@[4] == 'M');
    assert("noteReps"@.len() == 8);
    assert("noteReps"@[0] == 'n');
    assert("noteReps"@[4] == 'R');
    assert("noteTags"@.len() == 8);
    assert("noteTags"@[0] == 'n');
    assert("noteTags"@[4] == 'T');
    assert("notetype"@.len() == 8);
    assert("notetype"@[0] == 'n');
    assert("notetype"@[4] == 't');
    match c {
        Column::Custom => assert(parse_spec(key_spec(c)) == c),
        Column::Question => assert(parse_spec(key_spec(c)) == c),
        Column::Answer => assert(parse_spec(key_spec(c)) == c),
        Column::CardDeck => assert(parse_spec(key_spec(c)) == c),
        Column::CardDue => assert(parse_spec(key_spec(c)) == c),
        Column::CardEase => assert(parse_spec(key_spec(c)) == c),
        Column::CardLapses => assert(parse_spec(key_spec(c)) == c),
        Column::CardInterval => assert(parse_spec(key_spec(c)) == c),
        Column::CardMod => assert(parse_spec(key_spec(c)) == c),
        Column::CardReps => assert(parse_spec(key_spec(c)) == c),
        Column::CardTemplate => assert(parse_spec(key_spec(c)) == c),
        Column::NoteCards => assert(parse_spec(key_spec(c)) == c),
        Column::NoteCreation => assert(parse_spec(key_spec(c)) == c),
        Column::NoteDue => assert(parse_spec(key_spec(c)) == c),
        Column::NoteEase => assert(parse_spec(key_spec(c)) == c),
        Column::NoteField => assert(parse_spec(key_spec(c)) == c),
        Column::NoteInterval => assert(parse_spec(key_spec(c)) == c),
        Column::NoteLapses => assert(parse_spec(key_spec(c)) == c),
        Column::NoteMod => assert(parse_spec(key_spec(c)) == c),
        Column::NoteReps => assert(parse_spec(key_spec(c)) == c),
        Column::NoteTags => assert(parse_spec(key_spec(c)) == c),
        Column::Notetype => assert(parse_spec(key_spec(c)) == c),
    }
}

/// Keys identify columns uniquely: two columns with the same key are the
/// same column, so the key table is bidirectional.
pub proof fn lemma_key_injective(a: Column, b: Column)
    requires
        key_spec(a) == key_spec(b),
    ensures
        a == b,
{
    lemma_parse_key_round_trip(a);
    lemma_parse_key_round_trip(b);
}

} // verus!
