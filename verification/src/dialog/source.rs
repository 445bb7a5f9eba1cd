//! Creation of the rows that come into being without an authoring action.

use crate::dialog::store::Store;
use crate::dialog::types::{DialogStepVariant, Position, VariantView};
use vstd::prelude::*;

verus! {

/// Creates the variant of dialog `dialog_id` at `inner_counter` under
/// `label`, with no speaker and no text.
///
/// Returns the new variant, or `None` where a variant stands at that
/// position already; the store is then left as it was.
pub fn create_variant(
    store: &mut Store,
    dialog_id: String,
    inner_counter: u32,
    label: String,
) -> (r: Option<DialogStepVariant>)
    ensures
        ({
            let at = Position { dialog_id: dialog_id@, counter: inner_counter, label: label@ };
            match r {
                Some(variant) => {
                    &&& !old(store)@.has_variant(at)
                    &&& variant@ == VariantView::blank(at)
                    &&& final(store)@ == old(store)@.with_variant(VariantView::blank(at))
                },
                None => old(store)@.has_variant(at) && final(store)@ == old(store)@,
            }
        }),
        final(store)@.wf(),
{
    let variant = DialogStepVariant {
        speaker_id: String::new(),
        text: String::new(),
        label,
        counter: inner_counter,
        dialog_id,
    };
    let row = variant.clone();
    if store.insert_variant(row) {
        Some(variant)
    } else {
        None
    }
}

} // verus!
