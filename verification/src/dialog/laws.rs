//! What holds of the operations taken together, stated over the views of
//! the store and proved from the definitions of its transitions.

use crate::dialog::codec::json_list;
use crate::dialog::commands::{loaded, selected};
use crate::dialog::error::EditorError;
use crate::dialog::script::{
    counter_of, entry, lemma_entries_concat, lemma_entries_push, lemma_first_occurrences,
    step_entries, steps_of,
};
use crate::dialog::store::Tables;
use crate::dialog::types::{DialogView, Position, VariantFrontendView, VariantView};
use vstd::prelude::*;

verus! {

/// A variant appended at a free position is found there, and the key
/// constraints still hold.
proof fn lemma_appended_variant(store: Tables, row: VariantView)
    requires
        store.wf(),
        !store.has_variant(row.position()),
    ensures
        store.with_variant(row).wf(),
        store.with_variant(row).has_variant(row.position()),
        store.with_variant(row).variant(row.position()) == row,
        forall|other: Position|
            other != row.position() ==> #[trigger] loaded(store.with_variant(row), other)
                == loaded(store, other),
{
    let after = store.with_variant(row);
    assert(after.variants[store.variants.len() as int] == row);
    assert forall|other: Position| other != row.position() implies #[trigger] loaded(after, other)
        == loaded(store, other) by {
        if store.has_variant(other) {
            let there = store.variant_slot(other);
            assert(after.variants[there] == store.variants[there]);
        }
    }
}

/// A variant overwritten in place is found at its position with the new
/// content, and the key constraints still hold.
proof fn lemma_overwritten_variant(
    store: Tables,
    at: Position,
    speaker_id: Seq<char>,
    text: Seq<char>,
)
    requires
        store.wf(),
        store.has_variant(at),
    ensures
        store.with_content(at, speaker_id, text).wf(),
        store.with_content(at, speaker_id, text).has_variant(at),
        store.with_content(at, speaker_id, text).variant(at) == (VariantView {
            speaker_id,
            text,
            ..store.variant(at)
        }),
        store.with_content(at, speaker_id, text).variants.len() == store.variants.len(),
        forall|other: Position|
            other != at ==> #[trigger] loaded(store.with_content(at, speaker_id, text), other)
                == loaded(store, other),
{
    let after = store.with_content(at, speaker_id, text);
    let slot = store.variant_slot(at);
    assert(after.variants[slot].position() == at);
    assert forall|i: int| 0 <= i < after.variants.len() implies (#[trigger] after.variants[i]).position()
        == store.variants[i].position() by {}
    assert forall|other: Position| other != at implies #[trigger] loaded(after, other) == loaded(
        store,
        other,
    ) by {
        if store.has_variant(other) {
            let there = store.variant_slot(other);
            assert(after.variants[there] == store.variants[there]);
        }
    }
}

/// The life of a position: nothing is stored for it, then a blank variant,
/// then a variant with content.
pub enum VariantLife {
    /// No variant stands at the position.
    Absent,
    /// The variant at the position has neither speaker nor text.
    Blank,
    /// The variant at the position has a speaker or a text.
    Authored,
}

/// Where a position stands in its life.
pub open spec fn life(store: Tables, at: Position) -> VariantLife {
    if !store.has_variant(at) {
        VariantLife::Absent
    } else if store.variant(at).speaker_id.len() == 0 && store.variant(at).text.len() == 0 {
        VariantLife::Blank
    } else {
        VariantLife::Authored
    }
}

/// A visit turns an absent position into a blank one and leaves every
/// other as it is. Saving makes the position authored, or blank where
/// nothing but empty content was saved. A position that holds a variant is
/// never absent again.
pub proof fn lemma_variant_life(
    store: Tables,
    at: Position,
    speaker_id: Seq<char>,
    text: Seq<char>,
)
    requires
        store.wf(),
    ensures
        life(store.materialized(at), at) == (if life(store, at) is Absent {
            VariantLife::Blank
        } else {
            life(store, at)
        }),
        life(store.saved(at, speaker_id, text), at) == (if speaker_id.len() == 0 && text.len()
            == 0 {
            VariantLife::Blank
        } else {
            VariantLife::Authored
        }),
        forall|other: Position| #[trigger]
            store.has_variant(other) ==> store.materialized(at).has_variant(other)
                && store.saved(at, speaker_id, text).has_variant(other),
{
    lemma_materialization_is_idempotent(store, at);
    lemma_saved_content_is_loaded(store, at, speaker_id, text);
    assert forall|other: Position| #[trigger] store.has_variant(other) implies store.materialized(
        at,
    ).has_variant(other) && store.saved(at, speaker_id, text).has_variant(other) by {
        let slot = store.variant_slot(other);
        assert(store.materialized(at).variants[slot].position() == other);
        assert(store.saved(at, speaker_id, text).variants[slot].position() == other);
    }
}

/// Visiting a position twice in a row, with nothing saved in between,
/// yields the same content both times, and the second visit stores
/// nothing. Where the position had never been visited, both visits yield
/// the blank content, and one row is all that they add. What stands at
/// other positions is as it was.
pub proof fn lemma_materialization_is_idempotent(store: Tables, at: Position)
    requires
        store.wf(),
    ensures
        ({
            let once = store.materialized(at);
            let twice = once.materialized(at);
            &&& once.wf()
            &&& twice == once
            &&& loaded(once, at).frontend() == loaded(store, at).frontend()
            &&& !store.has_variant(at) ==> {
                &&& loaded(store, at).frontend() == (VariantFrontendView {
                    text: Seq::empty(),
                    speaker: Seq::empty(),
                })
                &&& twice.variants == store.variants.push(VariantView::blank(at))
            }
            &&& forall|other: Position|
                other != at ==> #[trigger] loaded(once, other) == loaded(store, other)
        }),
{
    if !store.has_variant(at) {
        lemma_appended_variant(store, VariantView::blank(at));
    }
}

/// Content saved at a position is what the next visit of that position
/// yields, and that visit stores nothing. What stands at other positions is
/// as it was.
pub proof fn lemma_saved_content_is_loaded(
    store: Tables,
    at: Position,
    speaker_id: Seq<char>,
    text: Seq<char>,
)
    requires
        store.wf(),
    ensures
        ({
            let after = store.saved(at, speaker_id, text);
            &&& after.wf()
            &&& loaded(after, at).frontend() == (VariantFrontendView { text, speaker: speaker_id })
            &&& after.materialized(at) == after
            &&& forall|other: Position|
                other != at ==> #[trigger] loaded(after, other) == loaded(store, other)
        }),
{
    if store.has_variant(at) {
        lemma_overwritten_variant(store, at, speaker_id, text);
    } else {
        lemma_appended_variant(
            store,
            VariantView {
                text,
                speaker_id,
                label: at.label,
                dialog_id: at.dialog_id,
                counter: at.counter,
            },
        );
    }
}

/// After the labels column of a dialog was overwritten by a text that
/// decodes to `labels`, selecting the dialog yields exactly `labels`, with
/// nothing left of the labels it had before, and the dialog's other fields
/// as they were. Every other dialog is selected as before.
pub proof fn lemma_labels_are_replaced(
    store: Tables,
    dialog_id: Seq<char>,
    text: Seq<char>,
    labels: Seq<Seq<char>>,
)
    requires
        store.wf(),
        json_list(text) == Some(labels),
    ensures
        ({
            let after = store.with_labels(dialog_id, text);
            &&& after.wf()
            &&& selected(after, dialog_id) == (if !store.has_dialog(dialog_id) {
                Err::<DialogView, EditorError>(EditorError::DialogNotFound)
            } else {
                let row = store.dialog(dialog_id);
                match json_list(row.speakers_ids) {
                    Some(speakers_ids) => Ok(
                        DialogView {
                            id: row.id,
                            name: row.name,
                            script_name: row.script_name,
                            directory: row.directory,
                            speakers_ids,
                            labels,
                        },
                    ),
                    None => Err(EditorError::MalformedList),
                }
            })
            &&& forall|other: Seq<char>|
                other != dialog_id ==> #[trigger] selected(after, other) == selected(store, other)
        }),
{
    let after = store.with_labels(dialog_id, text);
    if store.has_dialog(dialog_id) {
        let slot = store.dialog_slot(dialog_id);
        assert(after.dialogs[slot].id == dialog_id);
        assert forall|i: int| 0 <= i < after.dialogs.len() implies (#[trigger] after.dialogs[i]).id
            == store.dialogs[i].id by {}
        assert forall|other: Seq<char>| other != dialog_id implies #[trigger] selected(after, other)
            == selected(store, other) by {
            if store.has_dialog(other) {
                let there = store.dialog_slot(other);
                assert(after.dialogs[there] == store.dialogs[there]);
            }
        }
    }
}

/// The script groups the variants of a dialog by counter: every counter at
/// which a variant stands gets one table, and no other counter gets one.
pub proof fn lemma_one_table_per_counter(variants: Seq<VariantView>)
    ensures
        steps_of(variants).no_duplicates(),
        forall|step: u32|
            #[trigger] steps_of(variants).contains(step) <==> exists|i: int|
                0 <= i < variants.len() && (#[trigger] variants[i]).counter == step,
{
    let counters = variants.map_values(counter_of());
    lemma_first_occurrences(counters);
    assert forall|step: u32| #[trigger] steps_of(variants).contains(step) <==> exists|i: int|
        0 <= i < variants.len() && (#[trigger] variants[i]).counter == step by {
        if counters.contains(step) {
            let i = choose|i: int| 0 <= i < counters.len() && counters[i] == step;
            assert(variants[i].counter == step);
        }
        if exists|i: int| 0 <= i < variants.len() && (#[trigger] variants[i]).counter == step {
            let i = choose|i: int| 0 <= i < variants.len() && (#[trigger] variants[i]).counter == step;
            assert(counters[i] == step);
        }
    }
}

/// A variant whose speaker is not on the dialog's list is left out of the
/// script, whatever text it holds: it has no entry, and the entries of
/// every counter are what they would be without the variant.
pub proof fn lemma_unlisted_speaker_is_omitted(
    store: Tables,
    listed: Seq<Seq<char>>,
    variants: Seq<VariantView>,
    i: int,
    step: u32,
)
    requires
        0 <= i < variants.len(),
        !listed.contains(variants[i].speaker_id),
    ensures
        entry(store, listed, variants[i]) == Seq::<char>::empty(),
        step_entries(store, listed, variants, step) == step_entries(
            store,
            listed,
            variants.remove(i),
            step,
        ),
{
    let before = variants.take(i);
    let after = variants.skip(i + 1);
    assert(variants =~= before.push(variants[i]) + after);
    lemma_entries_concat(store, listed, before.push(variants[i]), after, step);
    lemma_entries_concat(store, listed, before, after, step);
    lemma_entries_push(store, listed, before, variants[i], step);
}

} // verus!
