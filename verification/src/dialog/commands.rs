//! The requests of the user interface, as operations on the store.

use crate::dialog::codec::{encode_list, json_list, json_text, texts};
use crate::dialog::error::EditorError;
use crate::dialog::export::{
    compose_line, compose_path, encode_line, exported_line, file_bytes, variant_path, VariantFile,
    VariantFileView,
};
use crate::dialog::laws::lemma_labels_are_replaced;
use crate::dialog::script::{render_script, script_path, script_text, ScriptFile, ScriptFileView};
use crate::dialog::source::create_variant;
use crate::dialog::store::{views, Store, Tables};
use crate::dialog::types::{
    main_label, Dialog, DialogFrontendModel, DialogRowView, DialogStepVariant,
    DialogStepVariantFrontendModel, DialogView, Position, Speaker, SpeakerFrontendModel,
    SpeakerType, SpeakerView, VariantView,
};
use vstd::prelude::*;

verus! {

/// Trusted: `uuid::Uuid::new_v4`, rendered by the `Display` of `Uuid`.
///
/// The id is random. Claims only its length: `Display` writes the
/// hyphenated form, which is 36 characters long.
#[verifier::external_body]
fn fresh_id() -> (id: String)
    ensures
        id@.len() == 36,
{
    uuid::Uuid::new_v4().to_string()
}

/// The dialogs that the rows stand for, or `None` where a row does not
/// decode.
pub open spec fn decoded_dialogs(rows: Seq<DialogRowView>) -> Option<Seq<DialogView>> {
    if forall|i: int| 0 <= i < rows.len() ==> (#[trigger] rows[i]).decoded() is Some {
        Some(Seq::new(rows.len(), |i: int| rows[i].decoded()->0))
    } else {
        None
    }
}

/// What selecting the dialog with this id yields.
pub open spec fn selected(store: Tables, dialog_id: Seq<char>) -> Result<DialogView, EditorError> {
    if !store.has_dialog(dialog_id) {
        Err(EditorError::DialogNotFound)
    } else {
        match store.dialog(dialog_id).decoded() {
            Some(dialog) => Ok(dialog),
            None => Err(EditorError::MalformedList),
        }
    }
}

/// What visiting a position yields: the content of the variant there, or
/// that of a blank variant where none stands there yet.
pub open spec fn loaded(store: Tables, at: Position) -> VariantView {
    if store.has_variant(at) {
        store.variant(at)
    } else {
        VariantView::blank(at)
    }
}

/// The message of a dialog that could not be stored.
pub open spec fn dialog_rejected() -> Seq<char> {
    "Failed to create new dialog"@
}

/// The message of a speaker that could not be stored. The user interface
/// is given the wording that it knows from dialogs.
pub open spec fn speaker_rejected() -> Seq<char> {
    "failed to create dialog"@
}

/// The export of the content saved at a position: the file of the line, or
/// the reference that is missing. The dialog is looked up first.
pub open spec fn exported(
    store: Tables,
    at: Position,
    speaker_id: Seq<char>,
    text: Seq<char>,
) -> Result<VariantFileView, EditorError> {
    if !store.has_dialog(at.dialog_id) {
        Err(EditorError::DialogNotFound)
    } else if !store.has_speaker(speaker_id) {
        Err(EditorError::SpeakerNotFound)
    } else {
        let speaker = store.speaker(speaker_id);
        Ok(
            VariantFileView {
                path: variant_path(store.dialog(at.dialog_id).directory, at.counter, at.label),
                bytes: file_bytes(exported_line(speaker.color, speaker.name, text)),
            },
        )
    }
}

/// The script file of a dialog, or the reason why there is none.
pub open spec fn generated(store: Tables, dialog_id: Seq<char>) -> Result<
    ScriptFileView,
    EditorError,
> {
    match selected(store, dialog_id) {
        Ok(dialog) => Ok(
            ScriptFileView {
                path: script_path(dialog.directory),
                text: script_text(store, dialog),
            },
        ),
        Err(e) => Err(e),
    }
}

/// How storing a dialog ends: a row with its id is there already and
/// nothing changes, or its row is appended and its projection returned.
/// The row is one that decodes to the dialog again.
pub open spec fn dialog_stored(
    before: Tables,
    dialog: DialogView,
    after: Tables,
    r: Result<DialogFrontendModel, String>,
) -> bool {
    if before.has_dialog(dialog.id) {
        &&& after == before
        &&& r matches Err(message)
        &&& message@ == dialog_rejected()
    } else {
        &&& after == before.with_dialog(dialog.row())
        &&& dialog.row().decoded() == Some(dialog)
        &&& r matches Ok(model)
        &&& model@ == dialog.frontend()
    }
}

/// How storing a speaker ends: a row with its id is there already and
/// nothing changes, or its row is appended and its projection returned.
pub open spec fn speaker_stored(
    before: Tables,
    speaker: SpeakerView,
    after: Tables,
    r: Result<SpeakerFrontendModel, String>,
) -> bool {
    if before.has_speaker(speaker.id) {
        &&& after == before
        &&& r matches Err(message)
        &&& message@ == speaker_rejected()
    } else {
        &&& after == before.with_speaker(speaker)
        &&& r matches Ok(model)
        &&& model@ == speaker.frontend()
    }
}

/// Lists all dialogs, each decoded from its row, in insertion order.
///
/// Fails with [`EditorError::MalformedList`] exactly when some row does
/// not decode.
pub fn load_dialogs(store: &Store) -> (r: Result<Vec<Dialog>, EditorError>)
    ensures
        match r {
            Ok(dialogs) => decoded_dialogs(store@.dialogs) == Some(views(dialogs@)),
            Err(e) => e == EditorError::MalformedList && decoded_dialogs(store@.dialogs) is None,
        },
{
    let rows = store.dialogs();
    let mut dialogs: Vec<Dialog> = Vec::new();
    let mut i: usize = 0;
    while i < rows.len()
        invariant
            i <= rows.len(),
            views(rows@) == store@.dialogs,
            dialogs.len() == i,
            forall|j: int| 0 <= j < i ==> (#[trigger] store@.dialogs[j]).decoded() == Some(dialogs@[j]@),
        decreases rows.len() - i,
    {
        assert(store@.dialogs[i as int] == rows@[i as int]@);
        match Dialog::from_row(&rows[i]) {
            Ok(dialog) => {
                dialogs.push(dialog);
            },
            Err(e) => {
                return Err(e);
            },
        }
        i += 1;
    }
    Ok(dialogs)
}

/// Lists all speakers, in insertion order.
pub fn load_speakers(store: &Store) -> (speakers: Vec<Speaker>)
    ensures
        views(speakers@) == store@.speakers,
{
    let rows = store.speakers();
    let mut speakers: Vec<Speaker> = Vec::new();
    let mut i: usize = 0;
    while i < rows.len()
        invariant
            i <= rows.len(),
            speakers.len() == i,
            forall|j: int| 0 <= j < i ==> (#[trigger] speakers@[j])@ == rows@[j]@,
        decreases rows.len() - i,
    {
        speakers.push(rows[i].clone());
        i += 1;
    }
    speakers
}

/// Stores a dialog under the id that it carries.
///
/// Fails, with the store unchanged, exactly when a dialog with that id is
/// stored already.
pub fn add_dialog(store: &mut Store, dialog: Dialog) -> (r: Result<DialogFrontendModel, String>)
    ensures
        dialog_stored(old(store)@, dialog@, final(store)@, r),
        final(store)@.wf(),
{
    if store.insert_dialog(dialog.to_row()) {
        Ok(dialog.to_frontend())
    } else {
        Err(String::from_str("Failed to create new dialog"))
    }
}

/// Creates a dialog under a fresh random id.
///
/// * `name` - the name shown in the user interface
/// * `script_name` - the name by which scripts refer to the dialog
/// * `directory` - the folder that the dialog's files are written to
/// * `speakers` - the ids of the speakers that may appear in the dialog
///
/// The new dialog has the single label `main`. The call fails only where
/// the fresh id is that of a stored dialog.
pub fn create_dialog(
    store: &mut Store,
    name: String,
    script_name: String,
    directory: String,
    speakers: Vec<String>,
) -> (r: Result<DialogFrontendModel, String>)
    ensures
        exists|id: Seq<char>|
            id.len() == 36 && #[trigger] dialog_stored(
                old(store)@,
                DialogView {
                    id,
                    name: name@,
                    script_name: script_name@,
                    directory: directory@,
                    speakers_ids: texts(speakers@),
                    labels: seq![main_label()],
                },
                final(store)@,
                r,
            ),
        final(store)@.wf(),
{
    let mut labels: Vec<String> = Vec::new();
    labels.push(String::from_str("main"));
    let dialog = Dialog {
        id: fresh_id(),
        name,
        script_name,
        directory,
        speakers_ids: speakers,
        labels,
    };
    assert(dialog@.labels =~= seq![main_label()]);
    let r = add_dialog(store, dialog);
    r
}

/// Finds a dialog by its id and decodes it.
///
/// Fails with [`EditorError::DialogNotFound`] where no row has the id, and
/// with [`EditorError::MalformedList`] where the row does not decode.
pub fn select_dialog(store: &Store, dialog_id: String) -> (r: Result<Dialog, EditorError>)
    ensures
        match r {
            Ok(dialog) => selected(store@, dialog_id@) == Ok::<DialogView, EditorError>(dialog@),
            Err(e) => selected(store@, dialog_id@) == Err::<DialogView, EditorError>(e),
        },
{
    match store.find_dialog(&dialog_id) {
        Some(row) => Dialog::from_row(row),
        None => Err(EditorError::DialogNotFound),
    }
}

/// Stores a speaker under the id that it carries.
///
/// Fails, with the store unchanged, exactly when a speaker with that id is
/// stored already.
pub fn add_speaker(store: &mut Store, speaker: Speaker) -> (r: Result<SpeakerFrontendModel, String>)
    ensures
        speaker_stored(old(store)@, speaker@, final(store)@, r),
        final(store)@.wf(),
{
    let model = speaker.to_frontend();
    if store.insert_speaker(speaker) {
        Ok(model)
    } else {
        Err(String::from_str("failed to create dialog"))
    }
}

/// Creates a speaker under a fresh random id.
///
/// * `name` - the name shown in the user interface and in exported lines
/// * `script_name` - the identifier by which scripts refer to the speaker
/// * `color` - the color of the speaker's name in exported lines
/// * `speaker_type` - decides how the script refers to the speaker
///
/// The call fails only where the fresh id is that of a stored speaker.
pub fn create_speaker(
    store: &mut Store,
    name: String,
    script_name: String,
    color: String,
    speaker_type: SpeakerType,
) -> (r: Result<SpeakerFrontendModel, String>)
    ensures
        exists|id: Seq<char>|
            id.len() == 36 && #[trigger] speaker_stored(
                old(store)@,
                SpeakerView { id, name: name@, script_name: script_name@, color: color@, speaker_type },
                final(store)@,
                r,
            ),
        final(store)@.wf(),
{
    let speaker = Speaker { id: fresh_id(), name, script_name, color, speaker_type };
    let r = add_speaker(store, speaker);
    r
}

/// Replaces the labels of a dialog by `labels`, whatever they were before.
/// Without a dialog of that id nothing changes.
///
/// The labels are stored as serialized text; the text is one that decodes
/// to `labels` again.
pub fn update_labels(store: &mut Store, dialog_id: String, labels: Vec<String>)
    ensures
        final(store)@ == old(store)@.with_labels(dialog_id@, json_text(texts(labels@))),
        json_list(json_text(texts(labels@))) == Some(texts(labels@)),
        match selected(final(store)@, dialog_id@) {
            Ok(dialog) => dialog.labels == texts(labels@),
            Err(_) => true,
        },
        final(store)@.wf(),
{
    let text = encode_list(&labels);
    proof {
        use_type_invariant(&*store);
        store.lemma_view_wf();
        lemma_labels_are_replaced(store@, dialog_id@, text@, texts(labels@));
    }
    store.set_labels(&dialog_id, text);
}

/// Loads the variant at a position for editing, creating a blank one where
/// the position is visited for the first time.
///
/// * `dialog_id` - the dialog that is open in the user interface
/// * `inner_counter` - the counter of the step that is open
/// * `label` - the label of the variant to load
pub fn try_load_variant(
    store: &mut Store,
    dialog_id: String,
    inner_counter: u32,
    label: String,
) -> (model: DialogStepVariantFrontendModel)
    ensures
        ({
            let at = Position { dialog_id: dialog_id@, counter: inner_counter, label: label@ };
            &&& final(store)@ == old(store)@.materialized(at)
            &&& model@ == loaded(old(store)@, at).frontend()
        }),
        final(store)@.wf(),
{
    match store.find_variant(&dialog_id, inner_counter, &label) {
        Some(variant) => variant.to_frontend(),
        None => {
            let created = create_variant(store, dialog_id, inner_counter, label);
            created.unwrap().to_frontend()
        },
    }
}

/// Saves speaker and text of the variant at a position, and composes the
/// export file of the saved line.
///
/// The content is stored in any case: it overwrites the variant at the
/// position, or becomes a new variant where none stands there. The export
/// then needs the dialog, for its directory, and the speaker, for name and
/// color; it fails with [`EditorError::DialogNotFound`] or
/// [`EditorError::SpeakerNotFound`] where one of them is not stored.
pub fn save_variant(
    store: &mut Store,
    dialog_id: String,
    counter: u32,
    label: String,
    speaker: String,
    text: String,
) -> (r: Result<VariantFile, EditorError>)
    ensures
        ({
            let at = Position { dialog_id: dialog_id@, counter, label: label@ };
            &&& final(store)@ == old(store)@.saved(at, speaker@, text@)
            &&& match r {
                Ok(file) => exported(old(store)@, at, speaker@, text@) == Ok::<
                    VariantFileView,
                    EditorError,
                >(file@),
                Err(e) => exported(old(store)@, at, speaker@, text@) == Err::<
                    VariantFileView,
                    EditorError,
                >(e),
            }
        }),
        final(store)@.wf(),
{
    if !store.set_content(&dialog_id, counter, &label, speaker.clone(), text.clone()) {
        let row = DialogStepVariant {
            text: text.clone(),
            speaker_id: speaker.clone(),
            label: label.clone(),
            dialog_id: dialog_id.clone(),
            counter,
        };
        store.insert_variant(row);
    }
    assert(store@.dialogs == old(store)@.dialogs && store@.speakers == old(store)@.speakers);
    let path = match store.find_dialog(&dialog_id) {
        Some(dialog) => compose_path(&dialog.directory, counter, &label),
        None => {
            return Err(EditorError::DialogNotFound);
        },
    };
    let line = match store.find_speaker(&speaker) {
        Some(row) => compose_line(&row.color, &row.name, &text),
        None => {
            return Err(EditorError::SpeakerNotFound);
        },
    };
    Ok(VariantFile { path, bytes: encode_line(&line) })
}

/// Generates the script of a dialog from everything that is stored for it.
///
/// Fails with [`EditorError::DialogNotFound`] where no row has the id, and
/// with [`EditorError::MalformedList`] where the row does not decode.
pub fn generate_lua_code(store: &Store, dialog_id: String) -> (r: Result<ScriptFile, EditorError>)
    ensures
        match r {
            Ok(file) => generated(store@, dialog_id@) == Ok::<ScriptFileView, EditorError>(file@),
            Err(e) => generated(store@, dialog_id@) == Err::<ScriptFileView, EditorError>(e),
        },
{
    let dialog = match select_dialog(store, dialog_id) {
        Ok(dialog) => dialog,
        Err(e) => {
            return Err(e);
        },
    };
    let mut path = dialog.directory.clone();
    path.append("/script.lua");
    Ok(ScriptFile { path, text: render_script(store, &dialog) })
}

} // verus!
