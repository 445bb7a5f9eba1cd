//! The script emitter: the whole stored state of one dialog as a table
//! literal of the script language.
//!
//! The variants of the dialog are grouped by counter, the counters in the
//! order in which they first occur among the stored variants. A variant is
//! written only where its speaker is stored and stands on the dialog's list
//! of speakers; the others are passed over.

use crate::dialog::codec::texts;
use crate::dialog::store::{views, Store, Tables};
use crate::dialog::text::{decimal, list_contains, push_decimal};
use crate::dialog::types::{
    Dialog, DialogStepVariant, DialogView, Speaker, SpeakerType, SpeakerView, VariantView,
};
use itertools::Itertools;
use vstd::prelude::*;

verus! {

/// A generated script: where it is written, and its text.
#[derive(Debug)]
pub struct ScriptFile {
    pub path: String,
    pub text: String,
}

/// What the contracts say of a [`ScriptFile`].
pub struct ScriptFileView {
    pub path: Seq<char>,
    pub text: Seq<char>,
}

impl View for ScriptFile {
    type V = ScriptFileView;

    open spec fn view(&self) -> ScriptFileView {
        ScriptFileView { path: self.path@, text: self.text@ }
    }
}

/// The numbers of a sequence without repetitions: each one where it first
/// occurs.
pub open spec fn first_occurrences(numbers: Seq<u32>) -> Seq<u32>
    decreases numbers.len(),
{
    if numbers.len() == 0 {
        Seq::empty()
    } else if numbers.drop_last().contains(numbers.last()) {
        first_occurrences(numbers.drop_last())
    } else {
        first_occurrences(numbers.drop_last()).push(numbers.last())
    }
}

/// Trusted: `itertools::Itertools::unique` over the numbers of a vector.
///
/// Claims what its documentation says: an element that was produced before
/// is filtered out, and the others come in the order in which they occur.
#[verifier::external_body]
fn unique_counters(counters: Vec<u32>) -> (steps: Vec<u32>)
    ensures
        steps@ == first_occurrences(counters@),
{
    counters.into_iter().unique().collect()
}

/// Selects the variants of one dialog.
pub open spec fn of_dialog(dialog_id: Seq<char>) -> spec_fn(VariantView) -> bool {
    |variant: VariantView| variant.dialog_id == dialog_id
}

/// Selects the variants at one counter.
pub open spec fn at_step(step: u32) -> spec_fn(VariantView) -> bool {
    |variant: VariantView| variant.counter == step
}

/// The counter of a variant.
pub open spec fn counter_of() -> spec_fn(VariantView) -> u32 {
    |variant: VariantView| variant.counter
}

/// The speaker that an id stands for in a dialog: the stored speaker with
/// that id, provided that the id is on the dialog's list.
pub open spec fn resolved(store: Tables, listed: Seq<Seq<char>>, speaker_id: Seq<char>) -> Option<
    SpeakerView,
> {
    if listed.contains(speaker_id) && store.has_speaker(speaker_id) {
        Some(store.speaker(speaker_id))
    } else {
        None
    }
}

/// How the script refers to a speaker: a hero by a quoted literal, any
/// other speaker by a bare identifier.
pub open spec fn speaker_reference(speaker: SpeakerView) -> Seq<char> {
    match speaker.speaker_type {
        SpeakerType::Hero => "\""@ + speaker.script_name + "\""@,
        SpeakerType::Creature => speaker.script_name,
    }
}

/// The table entry of a variant under `label` that `speaker` says.
pub open spec fn entry_line(label: Seq<char>, speaker: SpeakerView) -> Seq<char> {
    "\t\t[\""@ + label + "\"] = {speaker = "@ + speaker_reference(speaker) + ", speaker_type = "@
        + speaker.speaker_type.tag() + "},\n"@
}

/// What the script holds for a variant: its entry, or nothing where its
/// speaker does not resolve.
pub open spec fn entry(store: Tables, listed: Seq<Seq<char>>, variant: VariantView) -> Seq<char> {
    match resolved(store, listed, variant.speaker_id) {
        Some(speaker) => entry_line(variant.label, speaker),
        None => Seq::empty(),
    }
}

/// [`entry`] as a function of the variant.
pub open spec fn entry_of(store: Tables, listed: Seq<Seq<char>>) -> spec_fn(VariantView) -> Seq<
    char,
> {
    |variant: VariantView| entry(store, listed, variant)
}

/// The entries of the variants at one counter, in the order of the variants.
pub open spec fn step_entries(
    store: Tables,
    listed: Seq<Seq<char>>,
    variants: Seq<VariantView>,
    step: u32,
) -> Seq<char> {
    variants.filter(at_step(step)).map_values(entry_of(store, listed)).flatten()
}

/// The table of one counter: its key, its entries, its closing brace.
pub open spec fn step_block(
    store: Tables,
    listed: Seq<Seq<char>>,
    variants: Seq<VariantView>,
    step: u32,
) -> Seq<char> {
    "\t["@ + decimal(step as nat) + "] = {\n"@ + step_entries(store, listed, variants, step)
        + "\t},\n"@
}

/// [`step_block`] as a function of the counter.
pub open spec fn block_of(store: Tables, listed: Seq<Seq<char>>, variants: Seq<VariantView>)
    -> spec_fn(u32) -> Seq<char> {
    |step: u32| step_block(store, listed, variants, step)
}

/// The counters of a dialog's variants, each where it first occurs.
pub open spec fn steps_of(variants: Seq<VariantView>) -> Seq<u32> {
    first_occurrences(variants.map_values(counter_of()))
}

/// The script of a dialog over the stored speakers and variants.
pub open spec fn script_text(store: Tables, dialog: DialogView) -> Seq<char> {
    let own = store.variants.filter(of_dialog(dialog.id));
    "MiniDialog.Sets[\""@ + dialog.script_name + "\"] = {\n"@ + steps_of(own).map_values(
        block_of(store, dialog.speakers_ids, own),
    ).flatten() + "}"@
}

/// Where the script of a dialog is written.
pub open spec fn script_path(directory: Seq<char>) -> Seq<char> {
    directory + "/script.lua"@
}

/// Grouping by counter is sound: no counter comes twice, and the counters
/// that come are those of the numbers given.
pub proof fn lemma_first_occurrences(numbers: Seq<u32>)
    ensures
        first_occurrences(numbers).no_duplicates(),
        forall|n: u32| first_occurrences(numbers).contains(n) <==> numbers.contains(n),
    decreases numbers.len(),
{
    if numbers.len() > 0 {
        let init = numbers.drop_last();
        let last = numbers.last();
        let seen = first_occurrences(init);
        let kept = first_occurrences(numbers);
        lemma_first_occurrences(init);
        assert forall|n: u32| kept.contains(n) <==> numbers.contains(n) by {
            if numbers.contains(n) {
                let i = choose|i: int| 0 <= i < numbers.len() && numbers[i] == n;
                if i < init.len() {
                    assert(init[i] == n);
                }
                if init.contains(n) {
                    let j = choose|j: int| 0 <= j < seen.len() && seen[j] == n;
                    assert(kept[j] == n);
                } else {
                    assert(kept[seen.len() as int] == n);
                }
            }
            if kept.contains(n) {
                let j = choose|j: int| 0 <= j < kept.len() && kept[j] == n;
                if j < seen.len() {
                    assert(seen[j] == n);
                    assert(init.contains(n));
                    let i = choose|i: int| 0 <= i < init.len() && init[i] == n;
                    assert(numbers[i] == n);
                } else {
                    assert(numbers[numbers.len() - 1] == n);
                }
            }
        }
        assert forall|i: int, j: int| 0 <= i < j < kept.len() implies kept[i] != kept[j] by {
            if j == seen.len() {
                assert(seen.contains(seen[i]));
            }
        }
    }
}

/// The entries of no variants are empty.
pub proof fn lemma_entries_empty(store: Tables, listed: Seq<Seq<char>>, step: u32)
    ensures
        step_entries(store, listed, Seq::empty(), step) == Seq::<char>::empty(),
{
    reveal(Seq::filter);
}

/// One more variant adds its entry where it stands at the counter, and
/// nothing where it does not.
pub proof fn lemma_entries_push(
    store: Tables,
    listed: Seq<Seq<char>>,
    variants: Seq<VariantView>,
    last: VariantView,
    step: u32,
)
    ensures
        step_entries(store, listed, variants.push(last), step) == step_entries(
            store,
            listed,
            variants,
            step,
        ) + (if last.counter == step {
            entry(store, listed, last)
        } else {
            Seq::empty()
        }),
{
    let kept = variants.filter(at_step(step));
    variants.lemma_filter_push(last, at_step(step));
    if last.counter == step {
        kept.lemma_push_map_commute(entry_of(store, listed), last);
        kept.map_values(entry_of(store, listed)).lemma_flatten_push(entry(store, listed, last));
    }
}

/// The entries of two runs of variants, one after the other, are the
/// entries of the first followed by those of the second.
pub proof fn lemma_entries_concat(
    store: Tables,
    listed: Seq<Seq<char>>,
    first: Seq<VariantView>,
    second: Seq<VariantView>,
    step: u32,
)
    ensures
        step_entries(store, listed, first + second, step) == step_entries(
            store,
            listed,
            first,
            step,
        ) + step_entries(store, listed, second, step),
    decreases second.len(),
{
    if second.len() == 0 {
        lemma_entries_empty(store, listed, step);
    } else {
        let init = second.drop_last();
        let last = second.last();
        lemma_entries_concat(store, listed, first, init, step);
        lemma_entries_push(store, listed, first + init, last, step);
        lemma_entries_push(store, listed, init, last, step);
        assert(init.push(last) =~= second);
    }
}

/// The speaker that `speaker_id` stands for in a dialog with the speakers
/// `listed`.
fn resolve<'a>(store: &'a Store, listed: &Vec<String>, speaker_id: &String) -> (r: Option<
    &'a Speaker,
>)
    ensures
        match r {
            Some(speaker) => resolved(store@, texts(listed@), speaker_id@) == Some(speaker@),
            None => resolved(store@, texts(listed@), speaker_id@) is None,
        },
{
    if list_contains(listed, speaker_id) {
        store.find_speaker(speaker_id)
    } else {
        None
    }
}

/// Appends the entry of a variant under `label` that `speaker` says.
fn push_entry(script: &mut String, label: &String, speaker: &Speaker)
    ensures
        final(script)@ == old(script)@ + entry_line(label@, speaker@),
{
    script.append("\t\t[\"");
    script.append(label.as_str());
    script.append("\"] = {speaker = ");
    match speaker.speaker_type {
        SpeakerType::Hero => {
            script.append("\"");
            script.append(speaker.script_name.as_str());
            script.append("\"");
        },
        SpeakerType::Creature => {
            script.append(speaker.script_name.as_str());
        },
    }
    script.append(", speaker_type = ");
    let tag = speaker.speaker_type.to_string();
    script.append(tag.as_str());
    script.append("},\n");
}

/// Appends the table of one counter.
fn push_block(
    script: &mut String,
    store: &Store,
    listed: &Vec<String>,
    own: &Vec<&DialogStepVariant>,
    step: u32,
)
    ensures
        final(script)@ == old(script)@ + step_block(store@, texts(listed@), views(own@), step),
{
    script.append("\t[");
    push_decimal(script, step);
    script.append("] = {\n");
    let ghost opened = script@;
    let mut j: usize = 0;
    proof {
        lemma_entries_empty(store@, texts(listed@), step);
    }
    while j < own.len()
        invariant
            j <= own.len(),
            script@ == opened + step_entries(
                store@,
                texts(listed@),
                views(own@).take(j as int),
                step,
            ),
        decreases own.len() - j,
    {
        let variant = own[j];
        proof {
            let seen = views(own@).take(j as int);
            assert(views(own@).take(j + 1) =~= seen.push(variant@));
            lemma_entries_push(store@, texts(listed@), seen, variant@, step);
        }
        if variant.counter == step {
            match resolve(store, listed, &variant.speaker_id) {
                Some(speaker) => {
                    push_entry(script, &variant.label, speaker);
                },
                None => {},
            }
        }
        j += 1;
    }
    assert(views(own@).take(own.len() as int) =~= views(own@));
    script.append("\t},\n");
}

/// Renders the script of a dialog from the stored speakers and variants.
pub fn render_script(store: &Store, dialog: &Dialog) -> (text: String)
    ensures
        text@ == script_text(store@, dialog@),
{
    let all = store.variants();
    let mut own: Vec<&DialogStepVariant> = Vec::new();
    let mut counters: Vec<u32> = Vec::new();
    let mut i: usize = 0;
    proof {
        reveal(Seq::filter);
    }
    while i < all.len()
        invariant
            i <= all.len(),
            views(own@) == views(all@).take(i as int).filter(of_dialog(dialog@.id)),
            counters@ == views(own@).map_values(counter_of()),
        decreases all.len() - i,
    {
        let variant = &all[i];
        proof {
            let seen = views(all@).take(i as int);
            assert(views(all@).take(i + 1) =~= seen.push(variant@));
            seen.lemma_filter_push(variant@, of_dialog(dialog@.id));
        }
        if variant.dialog_id == dialog.id {
            proof {
                views(own@).lemma_push_map_commute(counter_of(), variant@);
            }
            own.push(variant);
            counters.push(variant.counter);
        }
        i += 1;
    }
    assert(views(all@).take(all.len() as int) =~= views(all@));
    let steps = unique_counters(counters);
    let ghost blocks = block_of(store@, dialog@.speakers_ids, views(own@));
    let mut text = String::from_str("MiniDialog.Sets[\"");
    text.append(dialog.script_name.as_str());
    text.append("\"] = {\n");
    let ghost opened = text@;
    let mut k: usize = 0;
    while k < steps.len()
        invariant
            k <= steps.len(),
            blocks == block_of(store@, dialog@.speakers_ids, views(own@)),
            text@ == opened + steps@.take(k as int).map_values(blocks).flatten(),
        decreases steps.len() - k,
    {
        let step = steps[k];
        proof {
            let done = steps@.take(k as int);
            assert(steps@.take(k + 1) =~= done.push(step));
            done.lemma_push_map_commute(blocks, step);
            done.map_values(blocks).lemma_flatten_push(blocks(step));
        }
        push_block(&mut text, store, &dialog.speakers_ids, &own, step);
        k += 1;
    }
    assert(steps@.take(steps.len() as int) =~= steps@);
    text.append("}");
    text
}

} // verus!
