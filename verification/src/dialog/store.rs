//! The stored content: three tables of rows, each with its key.
//!
//! A dialog and a speaker are found by their id, a variant by its position
//! (dialog, counter, label). No table holds two rows with one key; rows keep
//! the order in which they were inserted. The store only ever changes through
//! the operations below, so this holds of every [`Store`] at all times.

use crate::dialog::types::{
    DialogDBModel, DialogRowView, DialogStepVariant, Position, Speaker, SpeakerView, VariantView,
};
use vstd::prelude::*;

verus! {

/// The views of a sequence of values, in the same order.
pub open spec fn views<T: View>(rows: Seq<T>) -> Seq<T::V> {
    Seq::new(rows.len(), |i: int| rows[i]@)
}

/// The tables of dialogs, speakers and variants.
pub struct Store {
    dialogs: Vec<DialogDBModel>,
    speakers: Vec<Speaker>,
    variants: Vec<DialogStepVariant>,
}

/// What the contracts say of a [`Store`]: the rows of each table, in
/// insertion order.
pub struct Tables {
    pub dialogs: Seq<DialogRowView>,
    pub speakers: Seq<SpeakerView>,
    pub variants: Seq<VariantView>,
}

impl Tables {
    /// The store without any row.
    pub open spec fn empty() -> Tables {
        Tables { dialogs: Seq::empty(), speakers: Seq::empty(), variants: Seq::empty() }
    }

    /// No two dialog rows share an id, no two speaker rows share an id, and
    /// no two variant rows share a position.
    pub open spec fn wf(self) -> bool {
        &&& forall|i: int, j: int|
            #![trigger self.dialogs[i], self.dialogs[j]]
            0 <= i < j < self.dialogs.len() ==> self.dialogs[i].id != self.dialogs[j].id
        &&& forall|i: int, j: int|
            #![trigger self.speakers[i], self.speakers[j]]
            0 <= i < j < self.speakers.len() ==> self.speakers[i].id != self.speakers[j].id
        &&& forall|i: int, j: int|
            #![trigger self.variants[i], self.variants[j]]
            0 <= i < j < self.variants.len() ==> self.variants[i].position()
                != self.variants[j].position()
    }

    /// Whether a dialog row has this id.
    pub open spec fn has_dialog(self, id: Seq<char>) -> bool {
        exists|i: int| #![trigger self.dialogs[i]] 0 <= i < self.dialogs.len() && self.dialogs[i].id == id
    }

    /// Where the dialog row with this id stands in its table.
    pub open spec fn dialog_slot(self, id: Seq<char>) -> int
        recommends
            self.has_dialog(id),
    {
        choose|i: int| #![trigger self.dialogs[i]] 0 <= i < self.dialogs.len() && self.dialogs[i].id == id
    }

    /// The dialog row with this id.
    pub open spec fn dialog(self, id: Seq<char>) -> DialogRowView
        recommends
            self.has_dialog(id),
    {
        self.dialogs[self.dialog_slot(id)]
    }

    /// Whether a speaker row has this id.
    pub open spec fn has_speaker(self, id: Seq<char>) -> bool {
        exists|i: int|
            #![trigger self.speakers[i]]
            0 <= i < self.speakers.len() && self.speakers[i].id == id
    }

    /// Where the speaker row with this id stands in its table.
    pub open spec fn speaker_slot(self, id: Seq<char>) -> int
        recommends
            self.has_speaker(id),
    {
        choose|i: int|
            #![trigger self.speakers[i]]
            0 <= i < self.speakers.len() && self.speakers[i].id == id
    }

    /// The speaker row with this id.
    pub open spec fn speaker(self, id: Seq<char>) -> SpeakerView
        recommends
            self.has_speaker(id),
    {
        self.speakers[self.speaker_slot(id)]
    }

    /// Whether a variant row stands at this position.
    pub open spec fn has_variant(self, at: Position) -> bool {
        exists|i: int|
            #![trigger self.variants[i]]
            0 <= i < self.variants.len() && self.variants[i].position() == at
    }

    /// Where the variant row at this position stands in its table.
    pub open spec fn variant_slot(self, at: Position) -> int
        recommends
            self.has_variant(at),
    {
        choose|i: int|
            #![trigger self.variants[i]]
            0 <= i < self.variants.len() && self.variants[i].position() == at
    }

    /// The variant row at this position.
    pub open spec fn variant(self, at: Position) -> VariantView
        recommends
            self.has_variant(at),
    {
        self.variants[self.variant_slot(at)]
    }

    /// The store after a dialog row was appended.
    pub open spec fn with_dialog(self, row: DialogRowView) -> Tables {
        Tables { dialogs: self.dialogs.push(row), ..self }
    }

    /// The store after a speaker row was appended.
    pub open spec fn with_speaker(self, row: SpeakerView) -> Tables {
        Tables { speakers: self.speakers.push(row), ..self }
    }

    /// The store after a variant row was appended.
    pub open spec fn with_variant(self, row: VariantView) -> Tables {
        Tables { variants: self.variants.push(row), ..self }
    }

    /// The store after the labels column of the dialog with this id was
    /// overwritten; unchanged where there is no such dialog.
    pub open spec fn with_labels(self, id: Seq<char>, labels: Seq<char>) -> Tables {
        if self.has_dialog(id) {
            let slot = self.dialog_slot(id);
            Tables {
                dialogs: self.dialogs.update(slot, DialogRowView { labels, ..self.dialogs[slot] }),
                ..self
            }
        } else {
            self
        }
    }

    /// The store after speaker and text of the variant at this position were
    /// overwritten; unchanged where there is no such variant.
    pub open spec fn with_content(
        self,
        at: Position,
        speaker_id: Seq<char>,
        text: Seq<char>,
    ) -> Tables {
        if self.has_variant(at) {
            let slot = self.variant_slot(at);
            Tables {
                variants: self.variants.update(
                    slot,
                    VariantView { speaker_id, text, ..self.variants[slot] },
                ),
                ..self
            }
        } else {
            self
        }
    }

    /// The store after a position was visited: where no variant stood
    /// there, a blank one was appended.
    pub open spec fn materialized(self, at: Position) -> Tables {
        if self.has_variant(at) {
            self
        } else {
            self.with_variant(VariantView::blank(at))
        }
    }

    /// The store after content was saved at a position: the variant there
    /// was overwritten, or, where none stood there, one was appended.
    pub open spec fn saved(self, at: Position, speaker_id: Seq<char>, text: Seq<char>) -> Tables {
        if self.has_variant(at) {
            self.with_content(at, speaker_id, text)
        } else {
            self.with_variant(
                VariantView {
                    text,
                    speaker_id,
                    label: at.label,
                    dialog_id: at.dialog_id,
                    counter: at.counter,
                },
            )
        }
    }
}

impl View for Store {
    type V = Tables;

    closed spec fn view(&self) -> Tables {
        Tables {
            dialogs: views(self.dialogs@),
            speakers: views(self.speakers@),
            variants: views(self.variants@),
        }
    }
}

impl Store {
    /// The key constraints, which hold of every store.
    #[verifier::type_invariant]
    pub closed spec fn keys_are_unique(&self) -> bool {
        &&& forall|i: int, j: int|
            #![trigger self.dialogs@[i], self.dialogs@[j]]
            0 <= i < j < self.dialogs@.len() ==> self.dialogs@[i].id@ != self.dialogs@[j].id@
        &&& forall|i: int, j: int|
            #![trigger self.speakers@[i], self.speakers@[j]]
            0 <= i < j < self.speakers@.len() ==> self.speakers@[i].id@ != self.speakers@[j].id@
        &&& forall|i: int, j: int|
            #![trigger self.variants@[i], self.variants@[j]]
            0 <= i < j < self.variants@.len() ==> self.variants@[i]@.position()
                != self.variants@[j]@.position()
    }

    /// The key constraints of a store are those of its view.
    pub proof fn lemma_view_wf(&self)
        requires
            self.keys_are_unique(),
        ensures
            self@.wf(),
    {
    }

    /// A store without any row.
    pub fn new() -> (store: Store)
        ensures
            store@ == Tables::empty(),
            store@.wf(),
    {
        let store = Store { dialogs: Vec::new(), speakers: Vec::new(), variants: Vec::new() };
        assert(store@.dialogs =~= Seq::empty());
        assert(store@.speakers =~= Seq::empty());
        assert(store@.variants =~= Seq::empty());
        store
    }

    /// The dialog rows, in insertion order.
    pub fn dialogs(&self) -> (rows: &Vec<DialogDBModel>)
        ensures
            views(rows@) == self@.dialogs,
            self@.wf(),
    {
        proof {
            use_type_invariant(self);
            self.lemma_view_wf();
        }
        &self.dialogs
    }

    /// The speaker rows, in insertion order.
    pub fn speakers(&self) -> (rows: &Vec<Speaker>)
        ensures
            views(rows@) == self@.speakers,
            self@.wf(),
    {
        proof {
            use_type_invariant(self);
            self.lemma_view_wf();
        }
        &self.speakers
    }

    /// The variant rows, in insertion order.
    pub fn variants(&self) -> (rows: &Vec<DialogStepVariant>)
        ensures
            views(rows@) == self@.variants,
            self@.wf(),
    {
        proof {
            use_type_invariant(self);
            self.lemma_view_wf();
        }
        &self.variants
    }

    fn locate_dialog(&self, id: &String) -> (r: Option<usize>)
        ensures
            match r {
                Some(slot) => self@.has_dialog(id@) && slot == self@.dialog_slot(id@) && slot
                    < self.dialogs.len(),
                None => !self@.has_dialog(id@),
            },
            self@.wf(),
    {
        proof {
            use_type_invariant(self);
            self.lemma_view_wf();
        }
        let mut i: usize = 0;
        while i < self.dialogs.len()
            invariant
                i <= self.dialogs.len(),
                self@.wf(),
                forall|j: int| 0 <= j < i ==> (#[trigger] self@.dialogs[j]).id != id@,
            decreases self.dialogs.len() - i,
        {
            if self.dialogs[i].id == *id {
                assert(self@.dialogs[i as int].id == id@);
                return Some(i);
            }
            i += 1;
        }
        None
    }

    fn locate_speaker(&self, id: &String) -> (r: Option<usize>)
        ensures
            match r {
                Some(slot) => self@.has_speaker(id@) && slot == self@.speaker_slot(id@) && slot
                    < self.speakers.len(),
                None => !self@.has_speaker(id@),
            },
            self@.wf(),
    {
        proof {
            use_type_invariant(self);
            self.lemma_view_wf();
        }
        let mut i: usize = 0;
        while i < self.speakers.len()
            invariant
                i <= self.speakers.len(),
                self@.wf(),
                forall|j: int| 0 <= j < i ==> (#[trigger] self@.speakers[j]).id != id@,
            decreases self.speakers.len() - i,
        {
            if self.speakers[i].id == *id {
                assert(self@.speakers[i as int].id == id@);
                return Some(i);
            }
            i += 1;
        }
        None
    }

    fn locate_variant(&self, dialog_id: &String, counter: u32, label: &String) -> (r: Option<usize>)
        ensures
            match r {
                Some(slot) => {
                    let at = Position { dialog_id: dialog_id@, counter, label: label@ };
                    self@.has_variant(at) && slot == self@.variant_slot(at) && slot
                        < self.variants.len()
                },
                None => !self@.has_variant(
                    Position { dialog_id: dialog_id@, counter, label: label@ },
                ),
            },
            self@.wf(),
    {
        proof {
            use_type_invariant(self);
            self.lemma_view_wf();
        }
        let ghost at = Position { dialog_id: dialog_id@, counter, label: label@ };
        let mut i: usize = 0;
        while i < self.variants.len()
            invariant
                i <= self.variants.len(),
                self@.wf(),
                at == (Position { dialog_id: dialog_id@, counter, label: label@ }),
                forall|j: int| 0 <= j < i ==> (#[trigger] self@.variants[j]).position() != at,
            decreases self.variants.len() - i,
        {
            let row = &self.variants[i];
            if row.counter == counter && row.dialog_id == *dialog_id && row.label == *label {
                assert(self@.variants[i as int].position() == at);
                return Some(i);
            }
            i += 1;
        }
        None
    }

    /// The dialog row with this id, if there is one.
    pub fn find_dialog(&self, id: &String) -> (r: Option<&DialogDBModel>)
        ensures
            match r {
                Some(row) => self@.has_dialog(id@) && row@ == self@.dialog(id@),
                None => !self@.has_dialog(id@),
            },
            self@.wf(),
    {
        match self.locate_dialog(id) {
            Some(slot) => Some(&self.dialogs[slot]),
            None => None,
        }
    }

    /// The speaker row with this id, if there is one.
    pub fn find_speaker(&self, id: &String) -> (r: Option<&Speaker>)
        ensures
            match r {
                Some(row) => self@.has_speaker(id@) && row@ == self@.speaker(id@),
                None => !self@.has_speaker(id@),
            },
            self@.wf(),
    {
        match self.locate_speaker(id) {
            Some(slot) => Some(&self.speakers[slot]),
            None => None,
        }
    }

    /// The variant row at this position, if there is one.
    pub fn find_variant(&self, dialog_id: &String, counter: u32, label: &String) -> (r: Option<
        &DialogStepVariant,
    >)
        ensures
            match r {
                Some(row) => {
                    let at = Position { dialog_id: dialog_id@, counter, label: label@ };
                    self@.has_variant(at) && row@ == self@.variant(at)
                },
                None => !self@.has_variant(
                    Position { dialog_id: dialog_id@, counter, label: label@ },
                ),
            },
            self@.wf(),
    {
        match self.locate_variant(dialog_id, counter, label) {
            Some(slot) => Some(&self.variants[slot]),
            None => None,
        }
    }

    /// Appends a dialog row, unless a row with its id is there already.
    pub fn insert_dialog(&mut self, row: DialogDBModel) -> (inserted: bool)
        ensures
            inserted == !old(self)@.has_dialog(row@.id),
            final(self)@ == (if inserted {
                old(self)@.with_dialog(row@)
            } else {
                old(self)@
            }),
            final(self)@.wf(),
    {
        proof {
            use_type_invariant(&*self);
        }
        if self.locate_dialog(&row.id).is_some() {
            return false;
        }
        let mut rows: Vec<DialogDBModel> = Vec::new();
        std::mem::swap(&mut rows, &mut self.dialogs);
        rows.push(row);
        assert(views(rows@) =~= old(self)@.dialogs.push(row@));
        assert forall|i: int| 0 <= i < old(self).dialogs@.len() implies old(self).dialogs@[i].id@
            != row.id@ by {
            assert(old(self)@.dialogs[i].id == old(self).dialogs@[i].id@);
        }
        self.dialogs = rows;
        proof {
            use_type_invariant(&*self);
            self.lemma_view_wf();
        }
        true
    }

    /// Appends a speaker row, unless a row with its id is there already.
    pub fn insert_speaker(&mut self, row: Speaker) -> (inserted: bool)
        ensures
            inserted == !old(self)@.has_speaker(row@.id),
            final(self)@ == (if inserted {
                old(self)@.with_speaker(row@)
            } else {
                old(self)@
            }),
            final(self)@.wf(),
    {
        proof {
            use_type_invariant(&*self);
        }
        if self.locate_speaker(&row.id).is_some() {
            return false;
        }
        let mut rows: Vec<Speaker> = Vec::new();
        std::mem::swap(&mut rows, &mut self.speakers);
        rows.push(row);
        assert(views(rows@) =~= old(self)@.speakers.push(row@));
        assert forall|i: int| 0 <= i < old(self).speakers@.len() implies old(self).speakers@[i].id@
            != row.id@ by {
            assert(old(self)@.speakers[i].id == old(self).speakers@[i].id@);
        }
        self.speakers = rows;
        proof {
            use_type_invariant(&*self);
            self.lemma_view_wf();
        }
        true
    }

    /// Appends a variant row, unless a row stands at its position already.
    pub fn insert_variant(&mut self, row: DialogStepVariant) -> (inserted: bool)
        ensures
            inserted == !old(self)@.has_variant(row@.position()),
            final(self)@ == (if inserted {
                old(self)@.with_variant(row@)
            } else {
                old(self)@
            }),
            final(self)@.wf(),
    {
        proof {
            use_type_invariant(&*self);
        }
        if self.locate_variant(&row.dialog_id, row.counter, &row.label).is_some() {
            return false;
        }
        let mut rows: Vec<DialogStepVariant> = Vec::new();
        std::mem::swap(&mut rows, &mut self.variants);
        rows.push(row);
        assert(views(rows@) =~= old(self)@.variants.push(row@));
        assert forall|i: int| 0 <= i < old(self).variants@.len() implies old(
            self,
        ).variants@[i]@.position() != row@.position() by {
            assert(old(self)@.variants[i] == old(self).variants@[i]@);
        }
        self.variants = rows;
        proof {
            use_type_invariant(&*self);
            self.lemma_view_wf();
        }
        true
    }

    /// Overwrites the labels column of the dialog with this id. Reports
    /// whether there is such a dialog; without one nothing changes.
    pub fn set_labels(&mut self, id: &String, labels: String) -> (updated: bool)
        ensures
            updated == old(self)@.has_dialog(id@),
            final(self)@ == old(self)@.with_labels(id@, labels@),
            final(self)@.wf(),
    {
        proof {
            use_type_invariant(&*self);
        }
        match self.locate_dialog(id) {
            Some(slot) => {
                let mut rows: Vec<DialogDBModel> = Vec::new();
                std::mem::swap(&mut rows, &mut self.dialogs);
                rows[slot].labels = labels;
                assert(views(rows@) =~= old(self)@.with_labels(id@, labels@).dialogs);
                self.dialogs = rows;
                proof {
                    use_type_invariant(&*self);
                    self.lemma_view_wf();
                }
                true
            },
            None => false,
        }
    }

    /// Overwrites speaker and text of the variant at this position. Reports
    /// whether there is such a variant; without one nothing changes.
    pub fn set_content(
        &mut self,
        dialog_id: &String,
        counter: u32,
        label: &String,
        speaker_id: String,
        text: String,
    ) -> (updated: bool)
        ensures
            updated == old(self)@.has_variant(
                Position { dialog_id: dialog_id@, counter, label: label@ },
            ),
            final(self)@ == old(self)@.with_content(
                Position { dialog_id: dialog_id@, counter, label: label@ },
                speaker_id@,
                text@,
            ),
            final(self)@.wf(),
    {
        proof {
            use_type_invariant(&*self);
        }
        match self.locate_variant(dialog_id, counter, label) {
            Some(slot) => {
                let ghost at = Position { dialog_id: dialog_id@, counter, label: label@ };
                let mut rows: Vec<DialogStepVariant> = Vec::new();
                std::mem::swap(&mut rows, &mut self.variants);
                rows[slot].speaker_id = speaker_id;
                rows[slot].text = text;
                assert(views(rows@) =~= old(self)@.with_content(at, speaker_id@, text@).variants);
                self.variants = rows;
                proof {
                    use_type_invariant(&*self);
                    self.lemma_view_wf();
                }
                true
            },
            None => false,
        }
    }
}

} // verus!
