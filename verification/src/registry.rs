//! The column registry: derives display descriptors for the fixed column
//! list of each entity kind and hands them out sorted by localized label,
//! ready for the frontend's column picker.

use vstd::prelude::*;

use crate::column::{
    alignment_spec, is_sortable_spec, key_spec, sorts_reversed_spec, uses_cell_font_spec,
    Alignment, Column,
};
use crate::i18n::{label_spec, I18n};
use crate::order::{
    lemma_seq_char_le_total, lemma_seq_char_le_trans, seq_char_le, str_le,
};

verus! {

/// The display metadata of one column, in the shape the frontend consumes.
/// Derived fresh from a [`Column`] and a catalog; never persisted.
pub struct ColumnDescriptor {
    pub key: String,
    pub label: String,
    pub is_sortable: bool,
    pub sorts_reversed: bool,
    pub uses_cell_font: bool,
    pub alignment: Alignment,
}

/// The mathematical value of a [`ColumnDescriptor`]: the same fields with
/// strings as character sequences.
pub ghost struct DescriptorV {
    pub key: Seq<char>,
    pub label: Seq<char>,
    pub is_sortable: bool,
    pub sorts_reversed: bool,
    pub uses_cell_font: bool,
    pub alignment: Alignment,
}

impl View for ColumnDescriptor {
    type V = DescriptorV;

    open spec fn view(&self) -> DescriptorV {
        DescriptorV {
            key: self.key@,
            label: self.label@,
            is_sortable: self.is_sortable,
            sorts_reversed: self.sorts_reversed,
            uses_cell_font: self.uses_cell_font,
            alignment: self.alignment,
        }
    }
}

/// The descriptor a column derives to under a given catalog.
pub open spec fn descriptor_view_spec(c: Column, tr: I18n) -> DescriptorV {
    DescriptorV {
        key: key_spec(c),
        label: label_spec(c, tr),
        is_sortable: is_sortable_spec(c),
        sorts_reversed: sorts_reversed_spec(c),
        uses_cell_font: uses_cell_font_spec(c),
        alignment: alignment_spec(c),
    }
}

/// The views of a sequence of descriptors.
pub open spec fn views_of(s: Seq<ColumnDescriptor>) -> Seq<DescriptorV> {
    s.map_values(|d: ColumnDescriptor| d@)
}

/// The descriptors a sequence of columns derives to under a given catalog.
pub open spec fn descriptor_views_of(cols: Seq<Column>, tr: I18n) -> Seq<DescriptorV> {
    cols.map_values(|c: Column| descriptor_view_spec(c, tr))
}

/// Whether a sequence of descriptors is ordered by label, lexicographically
/// by unicode scalar value.
pub open spec fn sorted_by_label(s: Seq<DescriptorV>) -> bool {
    forall|i: int, j: int|
        #![trigger s[i], s[j]]
        0 <= i < j < s.len() ==> seq_char_le(s[i].label, s[j].label)
}

/// The ordered list of descriptors the frontend's column picker shows.
pub struct BrowserColumns {
    pub columns: Vec<ColumnDescriptor>,
}

impl Column {
    /// Derives the full display descriptor of this column from the catalog.
    pub fn to_pb_column(self, i18n: &I18n) -> (r: ColumnDescriptor)
        ensures
            r@ == descriptor_view_spec(self, *i18n),
    {
        ColumnDescriptor {
            key: self.key_of(),
            label: self.localized_label(i18n),
            is_sortable: self.is_sortable(),
            sorts_reversed: self.sorts_reversed(),
            uses_cell_font: self.uses_cell_font(),
            alignment: self.alignment(),
        }
    }
}

proof fn lemma_insert_to_multiset(s: Seq<ColumnDescriptor>, k: int, d: ColumnDescriptor)
    requires
        0 <= k <= s.len(),
    ensures
        views_of(s.insert(k, d)).to_multiset() == views_of(s).to_multiset().insert(d@),
{
    broadcast use vstd::seq_lib::group_to_multiset_ensures;

    let vs = views_of(s);
    let pre = vs.subrange(0, k);
    let post = vs.subrange(k, vs.len() as int);
    s.insert_ensures(k, d);
    assert(views_of(s.insert(k, d)) =~= pre.push(d@) + post);
    vstd::seq_lib::lemma_multiset_commutative(pre.push(d@), post);
    vstd::seq_lib::lemma_multiset_commutative(pre, post);
    assert(vs =~= pre + post);
    assert(pre.push(d@).to_multiset() =~= pre.to_multiset().insert(d@));
    assert(views_of(s.insert(k, d)).to_multiset() =~= views_of(s).to_multiset().insert(d@));
}

/// The index of the first descriptor whose label is at or after `label`;
/// the length of `v` if every label comes before it.
fn lower_pos(v: &Vec<ColumnDescriptor>, label: &str) -> (k: usize)
    ensures
        k <= v@.len(),
        forall|j: int| 0 <= j < k ==> !seq_char_le(label@, v@[j].label@),
        k < v@.len() ==> seq_char_le(label@, v@[k as int].label@),
{
    let mut k: usize = 0;
    while k < v.len()
        invariant
            0 <= k <= v@.len(),
            forall|j: int| 0 <= j < k ==> !seq_char_le(label@, v@[j].label@),
        decreases v@.len() - k,
    {
        if str_le(label, v[k].label.as_str()) {
            return k;
        }
        k += 1;
    }
    k
}

/// Inserts a descriptor into a label-sorted list, keeping it sorted.
fn insert_sorted(v: &mut Vec<ColumnDescriptor>, d: ColumnDescriptor)
    requires
        sorted_by_label(views_of(old(v)@)),
    ensures
        final(v)@.len() == old(v)@.len() + 1,
        sorted_by_label(views_of(final(v)@)),
        views_of(final(v)@).to_multiset() == views_of(old(v)@).to_multiset().insert(d@),
{
    let ghost ov = v@;
    let ghost dv = d@;
    let k = lower_pos(v, d.label.as_str());
    v.insert(k, d);
    proof {
        let vs = views_of(ov);
        let nvs = views_of(v@);
        ov.insert_ensures(k as int, d);
        assert(nvs =~= vs.insert(k as int, dv));
        vs.insert_ensures(k as int, dv);
        lemma_insert_to_multiset(ov, k as int, d);
        // Everything before the insertion point is at or before the new
        // label, by totality of the order.
        assert forall|j: int| 0 <= j < k implies seq_char_le(vs[j].label, dv.label) by {
            lemma_seq_char_le_total(dv.label, vs[j].label);
        }
        // Everything from the insertion point on is at or after it, by
        // transitivity through the first such descriptor.
        assert forall|j: int| k <= j < vs.len() implies seq_char_le(dv.label, vs[j].label) by {
            if j > k {
                lemma_seq_char_le_trans(dv.label, vs[k as int].label, vs[j].label);
            }
        }
        assert forall|i: int, j: int|
            #![trigger nvs[i], nvs[j]]
            0 <= i < j < nvs.len() implies seq_char_le(nvs[i].label, nvs[j].label) by {
            if j < k {
                assert(nvs[i] == vs[i] && nvs[j] == vs[j]);
            } else if j == k {
                assert(nvs[i] == vs[i] && nvs[j] == dv);
            } else if i < k {
                assert(nvs[i] == vs[i] && nvs[j] == vs[j - 1]);
            } else if i == k {
                assert(nvs[i] == dv && nvs[j] == vs[j - 1]);
            } else {
                assert(nvs[i] == vs[i - 1] && nvs[j] == vs[j - 1]);
            }
        }
    }
}

/// The per-entity registry: derives and orders the column descriptors,
/// reading labels from its localization catalog.
pub struct Collection {
    pub tr: I18n,
}

impl Collection {
    /// Builds the descriptor of every given column and returns them sorted
    /// by localized label.
    pub fn to_pb_columns(&self, columns: &Vec<Column>) -> (r: BrowserColumns)
        ensures
            r.columns@.len() == columns@.len(),
            sorted_by_label(views_of(r.columns@)),
            views_of(r.columns@).to_multiset() == descriptor_views_of(
                columns@,
                self.tr,
            ).to_multiset(),
    {
        broadcast use vstd::seq_lib::group_to_multiset_ensures;

        let mut out: Vec<ColumnDescriptor> = Vec::new();
        let mut i: usize = 0;
        proof {
            assert(descriptor_views_of(columns@.subrange(0, 0), self.tr) =~= Seq::<
                DescriptorV,
            >::empty());
            assert(views_of(out@) =~= Seq::<DescriptorV>::empty());
        }
        while i < columns.len()
            invariant
                0 <= i <= columns@.len(),
                out@.len() == i,
                sorted_by_label(views_of(out@)),
                views_of(out@).to_multiset() == descriptor_views_of(
                    columns@.subrange(0, i as int),
                    self.tr,
                ).to_multiset(),
            decreases columns@.len() - i,
        {
            let d = columns[i].to_pb_column(&self.tr);
            insert_sorted(&mut out, d);
            proof {
                broadcast use vstd::seq_lib::group_to_multiset_ensures;

                let prefix = columns@.subrange(0, i as int);
                let next = columns@.subrange(0, i + 1 as int);
                assert(next =~= prefix.push(columns@[i as int]));
                assert(descriptor_views_of(next, self.tr) =~= descriptor_views_of(
                    prefix,
                    self.tr,
                ).push(descriptor_view_spec(columns@[i as int], self.tr)));
            }
            i += 1;
        }
        proof {
            assert(columns@.subrange(0, columns@.len() as int) =~= columns@);
        }
        BrowserColumns { columns: out }
    }

    /// All columns of the card view as descriptors, sorted by label.
    pub fn all_browser_card_columns(&self) -> (r: BrowserColumns)
        ensures
            r.columns@.len() == card_columns_spec().len(),
            sorted_by_label(views_of(r.columns@)),
            views_of(r.columns@).to_multiset() == descriptor_views_of(
                card_columns_spec(),
                self.tr,
            ).to_multiset(),
    {
        let cols = card_columns();
        self.to_pb_columns(&cols)
    }

    /// All columns of the note view as descriptors, sorted by label.
    pub fn all_browser_note_columns(&self) -> (r: BrowserColumns)
        ensures
            r.columns@.len() == note_columns_spec().len(),
            sorted_by_label(views_of(r.columns@)),
            views_of(r.columns@).to_multiset() == descriptor_views_of(
                note_columns_spec(),
                self.tr,
            ).to_multiset(),
    {
        let cols = note_columns();
        self.to_pb_columns(&cols)
    }
}

/// The fixed columns of the card view, in declaration order.
pub open spec fn card_columns_spec() -> Seq<Column> {
    seq![
        Column::Question,
        Column::Answer,
        Column::CardDeck,
        Column::CardDue,
        Column::CardEase,
        Column::CardLapses,
        Column::CardInterval,
        Column::CardMod,
        Column::CardReps,
        Column::CardTemplate,
        Column::NoteCreation,
        Column::NoteField,
        Column::NoteMod,
        Column::NoteTags,
        Column::Notetype,
    ]
}

/// The fixed columns of the note view, in declaration order.
pub open spec fn note_columns_spec() -> Seq<Column> {
    seq![
        Column::NoteCards,
        Column::NoteCreation,
        Column::NoteDue,
        Column::NoteEase,
        Column::NoteField,
        Column::NoteInterval,
        Column::NoteLapses,
        Column::NoteMod,
        Column::NoteReps,
        Column::NoteTags,
        Column::Notetype,
    ]
}

/// The fixed columns of the card view.
pub fn card_columns() -> (r: Vec<Column>)
    ensures
        r@ == card_columns_spec(),
{
    let mut v: Vec<Column> = Vec::new();
    v.push(Column::Question);
    v.push(Column::Answer);
    v.push(Column::CardDeck);
    v.push(Column::CardDue);
    v.push(Column::CardEase);
    v.push(Column::CardLapses);
    v.push(Column::CardInterval);
    v.push(Column::CardMod);
    v.push(Column::CardReps);
    v.push(Column::CardTemplate);
    v.push(Column::NoteCreation);
    v.push(Column::NoteField);
    v.push(Column::NoteMod);
    v.push(Column::NoteTags);
    v.push(Column::Notetype);
    proof {
        assert(v@ =~= card_columns_spec());
    }
    v
}

/// The fixed columns of the note view.
pub fn note_columns() -> (r: Vec<Column>)
    ensures
        r@ == note_columns_spec(),
{
    let mut v: Vec<Column> = Vec::new();
    v.push(Column::NoteCards);
    v.push(Column::NoteCreation);
    v.push(Column::NoteDue);
    v.push(Column::NoteEase);
    v.push(Column::NoteField);
    v.push(Column::NoteInterval);
    v.push(Column::NoteLapses);
    v.push(Column::NoteMod);
    v.push(Column::NoteReps);
    v.push(Column::NoteTags);
    v.push(Column::Notetype);
    proof {
        assert(v@ =~= note_columns_spec());
    }
    v
}

} // verus!
