//! The entities of the editor, the rows they are stored as, and the
//! projections that the user interface receives.
//!
//! A row keeps a list-valued field as serialized text; the domain object
//! holds the list itself. Every type has a view over character sequences, and
//! the contracts of the conversions are stated over these views.

use crate::dialog::codec::{decode_list, encode_list, json_list, json_text, texts};
use crate::dialog::error::EditorError;
use crate::dialog::text::clone_list;
use vstd::prelude::*;

verus! {

/// How a speaker is referred to in the generated script.
#[derive(Clone, Copy, Debug, PartialEq, Eq, Structural)]
pub enum SpeakerType {
    /// A hero: the script names it by a quoted literal.
    Hero,
    /// A creature: the script names it by a bare identifier.
    Creature,
}

impl SpeakerType {
    /// The tag that stands for this type in the generated script.
    pub open spec fn tag(self) -> Seq<char> {
        match self {
            SpeakerType::Hero => "SPEAKER_TYPE_HERO"@,
            SpeakerType::Creature => "SPEAKER_TYPE_CREATURE"@,
        }
    }

    /// The type that a tag stands for.
    pub open spec fn of_tag(text: Seq<char>) -> Option<SpeakerType> {
        if text == "SPEAKER_TYPE_HERO"@ {
            Some(SpeakerType::Hero)
        } else if text == "SPEAKER_TYPE_CREATURE"@ {
            Some(SpeakerType::Creature)
        } else {
            None
        }
    }

    /// Renders the type as its tag.
    pub fn to_string(&self) -> (text: String)
        ensures
            text@ == self.tag(),
    {
        match self {
            SpeakerType::Hero => String::from_str("SPEAKER_TYPE_HERO"),
            SpeakerType::Creature => String::from_str("SPEAKER_TYPE_CREATURE"),
        }
    }

    /// Reads a type from its tag; any other text is rejected.
    pub fn from_tag(text: &String) -> (r: Option<SpeakerType>)
        ensures
            r == Self::of_tag(text@),
    {
        if *text == String::from_str("SPEAKER_TYPE_HERO") {
            Some(SpeakerType::Hero)
        } else if *text == String::from_str("SPEAKER_TYPE_CREATURE") {
            Some(SpeakerType::Creature)
        } else {
            None
        }
    }
}

/// A character that can speak in dialogs.
#[derive(Debug)]
pub struct Speaker {
    pub id: String,
    pub name: String,
    pub script_name: String,
    pub color: String,
    pub speaker_type: SpeakerType,
}

/// What the contracts say of a [`Speaker`].
pub struct SpeakerView {
    pub id: Seq<char>,
    pub name: Seq<char>,
    pub script_name: Seq<char>,
    pub color: Seq<char>,
    pub speaker_type: SpeakerType,
}

/// The part of a speaker that the user interface lists.
#[derive(Debug)]
pub struct SpeakerFrontendModel {
    pub id: String,
    pub name: String,
}

/// What the contracts say of a [`SpeakerFrontendModel`].
pub struct SpeakerFrontendView {
    pub id: Seq<char>,
    pub name: Seq<char>,
}

/// A dialog as its row holds it: the two lists are serialized text.
#[derive(Debug)]
pub struct DialogDBModel {
    pub id: String,
    pub name: String,
    pub script_name: String,
    pub directory: String,
    pub speakers_ids: String,
    pub labels: String,
}

/// What the contracts say of a [`DialogDBModel`].
pub struct DialogRowView {
    pub id: Seq<char>,
    pub name: Seq<char>,
    pub script_name: Seq<char>,
    pub directory: Seq<char>,
    pub speakers_ids: Seq<char>,
    pub labels: Seq<char>,
}

/// A dialog: a named conversation authored for one export directory.
#[derive(Debug)]
pub struct Dialog {
    pub id: String,
    pub name: String,
    pub script_name: String,
    pub directory: String,
    pub speakers_ids: Vec<String>,
    pub labels: Vec<String>,
}

/// What the contracts say of a [`Dialog`].
pub struct DialogView {
    pub id: Seq<char>,
    pub name: Seq<char>,
    pub script_name: Seq<char>,
    pub directory: Seq<char>,
    pub speakers_ids: Seq<Seq<char>>,
    pub labels: Seq<Seq<char>>,
}

/// The part of a dialog that the user interface receives: everything but
/// the script identifier and the export directory.
#[derive(Debug)]
pub struct DialogFrontendModel {
    pub id: String,
    pub name: String,
    pub speakers_ids: Vec<String>,
    pub labels: Vec<String>,
}

/// What the contracts say of a [`DialogFrontendModel`].
pub struct DialogFrontendView {
    pub id: Seq<char>,
    pub name: Seq<char>,
    pub speakers_ids: Seq<Seq<char>>,
    pub labels: Seq<Seq<char>>,
}

/// A point in a dialog's timeline, with the labels of the branches at it.
#[derive(Debug)]
pub struct DialogStep {
    pub id: String,
    pub inner_counter: u32,
    pub variants: Vec<String>,
    pub dialog_id: String,
}

/// What the contracts say of a [`DialogStep`].
pub struct StepView {
    pub id: Seq<char>,
    pub inner_counter: u32,
    pub variants: Seq<Seq<char>>,
    pub dialog_id: Seq<char>,
}

/// A step as its row holds it: the labels are serialized text.
#[derive(Debug)]
pub struct DialogStepDBModel {
    pub id: String,
    pub inner_counter: u32,
    pub variants: String,
    pub dialog_id: String,
}

/// What the contracts say of a [`DialogStepDBModel`].
pub struct StepRowView {
    pub id: Seq<char>,
    pub inner_counter: u32,
    pub variants: Seq<char>,
    pub dialog_id: Seq<char>,
}

/// The part of a step that the user interface receives.
#[derive(Debug)]
pub struct DialogStepFrontendModel {
    pub id: String,
    pub variants: Vec<String>,
}

/// What the contracts say of a [`DialogStepFrontendModel`].
pub struct StepFrontendView {
    pub id: Seq<char>,
    pub variants: Seq<Seq<char>>,
}

/// The authored content at one position of a dialog under one label.
#[derive(Debug)]
pub struct DialogStepVariant {
    pub text: String,
    pub speaker_id: String,
    pub label: String,
    pub dialog_id: String,
    pub counter: u32,
}

/// Where a variant stands: a dialog, a counter in its timeline, a label.
pub struct Position {
    pub dialog_id: Seq<char>,
    pub counter: u32,
    pub label: Seq<char>,
}

/// What the contracts say of a [`DialogStepVariant`].
pub struct VariantView {
    pub text: Seq<char>,
    pub speaker_id: Seq<char>,
    pub label: Seq<char>,
    pub dialog_id: Seq<char>,
    pub counter: u32,
}

/// The part of a variant that the user interface edits.
#[derive(Debug)]
pub struct DialogStepVariantFrontendModel {
    pub text: String,
    pub speaker: String,
}

/// What the contracts say of a [`DialogStepVariantFrontendModel`].
pub struct VariantFrontendView {
    pub text: Seq<char>,
    pub speaker: Seq<char>,
}

impl View for Speaker {
    type V = SpeakerView;

    open spec fn view(&self) -> SpeakerView {
        SpeakerView {
            id: self.id@,
            name: self.name@,
            script_name: self.script_name@,
            color: self.color@,
            speaker_type: self.speaker_type,
        }
    }
}

impl View for SpeakerFrontendModel {
    type V = SpeakerFrontendView;

    open spec fn view(&self) -> SpeakerFrontendView {
        SpeakerFrontendView { id: self.id@, name: self.name@ }
    }
}

impl View for DialogDBModel {
    type V = DialogRowView;

    open spec fn view(&self) -> DialogRowView {
        DialogRowView {
            id: self.id@,
            name: self.name@,
            script_name: self.script_name@,
            directory: self.directory@,
            speakers_ids: self.speakers_ids@,
            labels: self.labels@,
        }
    }
}

impl View for Dialog {
    type V = DialogView;

    open spec fn view(&self) -> DialogView {
        DialogView {
            id: self.id@,
            name: self.name@,
            script_name: self.script_name@,
            directory: self.directory@,
            speakers_ids: texts(self.speakers_ids@),
            labels: texts(self.labels@),
        }
    }
}

impl View for DialogFrontendModel {
    type V = DialogFrontendView;

    open spec fn view(&self) -> DialogFrontendView {
        DialogFrontendView {
            id: self.id@,
            name: self.name@,
            speakers_ids: texts(self.speakers_ids@),
            labels: texts(self.labels@),
        }
    }
}

impl View for DialogStep {
    type V = StepView;

    open spec fn view(&self) -> StepView {
        StepView {
            id: self.id@,
            inner_counter: self.inner_counter,
            variants: texts(self.variants@),
            dialog_id: self.dialog_id@,
        }
    }
}

impl View for DialogStepDBModel {
    type V = StepRowView;

    open spec fn view(&self) -> StepRowView {
        StepRowView {
            id: self.id@,
            inner_counter: self.inner_counter,
            variants: self.variants@,
            dialog_id: self.dialog_id@,
        }
    }
}

impl View for DialogStepFrontendModel {
    type V = StepFrontendView;

    open spec fn view(&self) -> StepFrontendView {
        StepFrontendView { id: self.id@, variants: texts(self.variants@) }
    }
}

impl View for DialogStepVariant {
    type V = VariantView;

    open spec fn view(&self) -> VariantView {
        VariantView {
            text: self.text@,
            speaker_id: self.speaker_id@,
            label: self.label@,
            dialog_id: self.dialog_id@,
            counter: self.counter,
        }
    }
}

impl View for DialogStepVariantFrontendModel {
    type V = VariantFrontendView;

    open spec fn view(&self) -> VariantFrontendView {
        VariantFrontendView { text: self.text@, speaker: self.speaker@ }
    }
}

/// The label that every new dialog and every new step starts with.
pub open spec fn main_label() -> Seq<char> {
    "main"@
}

impl SpeakerView {
    /// The projection for the user interface.
    pub open spec fn frontend(self) -> SpeakerFrontendView {
        SpeakerFrontendView { id: self.id, name: self.name }
    }
}

impl DialogRowView {
    /// The dialog that the row stands for, or `None` where one of its two
    /// text columns is not a serialized list.
    pub open spec fn decoded(self) -> Option<DialogView> {
        match (json_list(self.speakers_ids), json_list(self.labels)) {
            (Some(speakers_ids), Some(labels)) => Some(
                DialogView {
                    id: self.id,
                    name: self.name,
                    script_name: self.script_name,
                    directory: self.directory,
                    speakers_ids,
                    labels,
                },
            ),
            _ => None,
        }
    }
}

impl DialogView {
    /// The row that holds the dialog.
    pub open spec fn row(self) -> DialogRowView {
        DialogRowView {
            id: self.id,
            name: self.name,
            script_name: self.script_name,
            directory: self.directory,
            speakers_ids: json_text(self.speakers_ids),
            labels: json_text(self.labels),
        }
    }

    /// The projection for the user interface.
    pub open spec fn frontend(self) -> DialogFrontendView {
        DialogFrontendView {
            id: self.id,
            name: self.name,
            speakers_ids: self.speakers_ids,
            labels: self.labels,
        }
    }
}

impl StepRowView {
    /// The step that the row stands for, or `None` where its labels are not
    /// a serialized list.
    pub open spec fn decoded(self) -> Option<StepView> {
        match json_list(self.variants) {
            Some(variants) => Some(
                StepView {
                    id: self.id,
                    inner_counter: self.inner_counter,
                    variants,
                    dialog_id: self.dialog_id,
                },
            ),
            None => None,
        }
    }
}

impl StepView {
    /// The row that holds the step.
    pub open spec fn row(self) -> StepRowView {
        StepRowView {
            id: self.id,
            inner_counter: self.inner_counter,
            variants: json_text(self.variants),
            dialog_id: self.dialog_id,
        }
    }

    /// The projection for the user interface.
    pub open spec fn frontend(self) -> StepFrontendView {
        StepFrontendView { id: self.id, variants: self.variants }
    }
}

impl VariantView {
    /// Where the variant stands.
    pub open spec fn position(self) -> Position {
        Position { dialog_id: self.dialog_id, counter: self.counter, label: self.label }
    }

    /// The projection for the user interface.
    pub open spec fn frontend(self) -> VariantFrontendView {
        VariantFrontendView { text: self.text, speaker: self.speaker_id }
    }

    /// The variant that is created when a position is first visited: no
    /// speaker, no text.
    pub open spec fn blank(at: Position) -> VariantView {
        VariantView {
            text: Seq::empty(),
            speaker_id: Seq::empty(),
            label: at.label,
            dialog_id: at.dialog_id,
            counter: at.counter,
        }
    }
}

impl Clone for Speaker {
    fn clone(&self) -> (copy: Self)
        ensures
            copy@ == self@,
    {
        Speaker {
            id: self.id.clone(),
            name: self.name.clone(),
            script_name: self.script_name.clone(),
            color: self.color.clone(),
            speaker_type: self.speaker_type,
        }
    }
}

impl Clone for SpeakerFrontendModel {
    fn clone(&self) -> (copy: Self)
        ensures
            copy@ == self@,
    {
        SpeakerFrontendModel { id: self.id.clone(), name: self.name.clone() }
    }
}

impl Clone for DialogDBModel {
    fn clone(&self) -> (copy: Self)
        ensures
            copy@ == self@,
    {
        DialogDBModel {
            id: self.id.clone(),
            name: self.name.clone(),
            script_name: self.script_name.clone(),
            directory: self.directory.clone(),
            speakers_ids: self.speakers_ids.clone(),
            labels: self.labels.clone(),
        }
    }
}

impl Clone for Dialog {
    fn clone(&self) -> (copy: Self)
        ensures
            copy@ == self@,
    {
        Dialog {
            id: self.id.clone(),
            name: self.name.clone(),
            script_name: self.script_name.clone(),
            directory: self.directory.clone(),
            speakers_ids: clone_list(&self.speakers_ids),
            labels: clone_list(&self.labels),
        }
    }
}

impl Clone for DialogFrontendModel {
    fn clone(&self) -> (copy: Self)
        ensures
            copy@ == self@,
    {
        DialogFrontendModel {
            id: self.id.clone(),
            name: self.name.clone(),
            speakers_ids: clone_list(&self.speakers_ids),
            labels: clone_list(&self.labels),
        }
    }
}

impl Clone for DialogStep {
    fn clone(&self) -> (copy: Self)
        ensures
            copy@ == self@,
    {
        DialogStep {
            id: self.id.clone(),
            inner_counter: self.inner_counter,
            variants: clone_list(&self.variants),
            dialog_id: self.dialog_id.clone(),
        }
    }
}

impl Clone for DialogStepDBModel {
    fn clone(&self) -> (copy: Self)
        ensures
            copy@ == self@,
    {
        DialogStepDBModel {
            id: self.id.clone(),
            inner_counter: self.inner_counter,
            variants: self.variants.clone(),
            dialog_id: self.dialog_id.clone(),
        }
    }
}

impl Clone for DialogStepFrontendModel {
    fn clone(&self) -> (copy: Self)
        ensures
            copy@ == self@,
    {
        DialogStepFrontendModel { id: self.id.clone(), variants: clone_list(&self.variants) }
    }
}

impl Clone for DialogStepVariant {
    fn clone(&self) -> (copy: Self)
        ensures
            copy@ == self@,
    {
        DialogStepVariant {
            text: self.text.clone(),
            speaker_id: self.speaker_id.clone(),
            label: self.label.clone(),
            dialog_id: self.dialog_id.clone(),
            counter: self.counter,
        }
    }
}

impl Clone for DialogStepVariantFrontendModel {
    fn clone(&self) -> (copy: Self)
        ensures
            copy@ == self@,
    {
        DialogStepVariantFrontendModel { text: self.text.clone(), speaker: self.speaker.clone() }
    }
}

impl Speaker {
    /// Narrows the speaker to what the user interface lists.
    pub fn to_frontend(&self) -> (model: SpeakerFrontendModel)
        ensures
            model@ == self@.frontend(),
    {
        SpeakerFrontendModel { id: self.id.clone(), name: self.name.clone() }
    }
}

impl Dialog {
    /// Reads a dialog from its row, decoding the two serialized lists.
    ///
    /// Fails with [`EditorError::MalformedList`] exactly when one of the two
    /// columns does not hold a serialized list.
    pub fn from_row(row: &DialogDBModel) -> (r: Result<Dialog, EditorError>)
        ensures
            match r {
                Ok(dialog) => row@.decoded() == Some(dialog@),
                Err(e) => e == EditorError::MalformedList && row@.decoded() is None,
            },
    {
        let speakers_ids = match decode_list(&row.speakers_ids) {
            Ok(list) => list,
            Err(e) => {
                return Err(e);
            },
        };
        let labels = match decode_list(&row.labels) {
            Ok(list) => list,
            Err(e) => {
                return Err(e);
            },
        };
        Ok(
            Dialog {
                id: row.id.clone(),
                name: row.name.clone(),
                script_name: row.script_name.clone(),
                directory: row.directory.clone(),
                speakers_ids,
                labels,
            },
        )
    }

    /// Flattens the dialog into its row, serializing the two lists.
    ///
    /// The row is one that [`Dialog::from_row`] reads back as this dialog.
    pub fn to_row(&self) -> (row: DialogDBModel)
        ensures
            row@ == self@.row(),
            row@.decoded() == Some(self@),
    {
        DialogDBModel {
            id: self.id.clone(),
            name: self.name.clone(),
            script_name: self.script_name.clone(),
            directory: self.directory.clone(),
            speakers_ids: encode_list(&self.speakers_ids),
            labels: encode_list(&self.labels),
        }
    }

    /// Narrows the dialog to what the user interface receives.
    pub fn to_frontend(&self) -> (model: DialogFrontendModel)
        ensures
            model@ == self@.frontend(),
    {
        DialogFrontendModel {
            id: self.id.clone(),
            name: self.name.clone(),
            speakers_ids: clone_list(&self.speakers_ids),
            labels: clone_list(&self.labels),
        }
    }
}

impl DialogStep {
    /// A step that has just been reached for the first time: its only
    /// branch is `main`.
    pub fn new(id: String, dialog_id: String, inner_counter: u32) -> (step: DialogStep)
        ensures
            step@ == (StepView {
                id: id@,
                inner_counter,
                variants: seq![main_label()],
                dialog_id: dialog_id@,
            }),
    {
        let mut variants: Vec<String> = Vec::new();
        variants.push(String::from_str("main"));
        let step = DialogStep { id, inner_counter, variants, dialog_id };
        assert(step@.variants =~= seq![main_label()]);
        step
    }

    /// Reads a step from its row, decoding the serialized labels.
    ///
    /// Fails with [`EditorError::MalformedList`] exactly when the column
    /// does not hold a serialized list.
    pub fn from_row(row: &DialogStepDBModel) -> (r: Result<DialogStep, EditorError>)
        ensures
            match r {
                Ok(step) => row@.decoded() == Some(step@),
                Err(e) => e == EditorError::MalformedList && row@.decoded() is None,
            },
    {
        match decode_list(&row.variants) {
            Ok(variants) => Ok(
                DialogStep {
                    id: row.id.clone(),
                    inner_counter: row.inner_counter,
                    variants,
                    dialog_id: row.dialog_id.clone(),
                },
            ),
            Err(e) => Err(e),
        }
    }

    /// Flattens the step into its row, serializing the labels.
    ///
    /// The row is one that [`DialogStep::from_row`] reads back as this step.
    pub fn to_row(&self) -> (row: DialogStepDBModel)
        ensures
            row@ == self@.row(),
            row@.decoded() == Some(self@),
    {
        DialogStepDBModel {
            id: self.id.clone(),
            inner_counter: self.inner_counter,
            variants: encode_list(&self.variants),
            dialog_id: self.dialog_id.clone(),
        }
    }

    /// Narrows the step to what the user interface receives.
    pub fn to_frontend(&self) -> (model: DialogStepFrontendModel)
        ensures
            model@ == self@.frontend(),
    {
        DialogStepFrontendModel { id: self.id.clone(), variants: clone_list(&self.variants) }
    }
}

impl DialogStepVariant {
    /// Narrows the variant to what the user interface edits.
    pub fn to_frontend(&self) -> (model: DialogStepVariantFrontendModel)
        ensures
            model@ == self@.frontend(),
    {
        DialogStepVariantFrontendModel { text: self.text.clone(), speaker: self.speaker_id.clone() }
    }
}

} // verus!
