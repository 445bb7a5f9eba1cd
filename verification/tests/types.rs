use minidialog::dialog::error::EditorError;
use minidialog::dialog::types::{
    Dialog, DialogDBModel, DialogStep, DialogStepDBModel, DialogStepVariant, Speaker, SpeakerType,
};

fn types_strings(items: &[&str]) -> Vec<String> {
    items.iter().map(|s| s.to_string()).collect()
}

fn types_dialog() -> Dialog {
    Dialog {
        id: "d1".to_string(),
        name: "Intro".to_string(),
        script_name: "intro".to_string(),
        directory: "/out".to_string(),
        speakers_ids: types_strings(&["s1", "s2"]),
        labels: types_strings(&["main", "angry"]),
    }
}

#[test]
fn speaker_type_tags() {
    assert_eq!(SpeakerType::Hero.to_string(), "SPEAKER_TYPE_HERO");
    assert_eq!(SpeakerType::Creature.to_string(), "SPEAKER_TYPE_CREATURE");
}

#[test]
fn speaker_type_is_read_from_its_tag() {
    assert_eq!(SpeakerType::from_tag(&"SPEAKER_TYPE_HERO".to_string()), Some(SpeakerType::Hero));
    assert_eq!(
        SpeakerType::from_tag(&"SPEAKER_TYPE_CREATURE".to_string()),
        Some(SpeakerType::Creature)
    );
    for kind in [SpeakerType::Hero, SpeakerType::Creature] {
        assert_eq!(SpeakerType::from_tag(&kind.to_string()), Some(kind));
    }
}

#[test]
fn speaker_type_rejects_other_text() {
    for text in ["", "Hero", "hero", "speaker_type_hero", "SPEAKER_TYPE_HERO ", "SPEAKER_TYPE_"] {
        assert_eq!(SpeakerType::from_tag(&text.to_string()), None, "{:?}", text);
    }
}

#[test]
fn dialog_row_holds_serialized_lists() {
    let row = types_dialog().to_row();
    assert_eq!(row.id, "d1");
    assert_eq!(row.name, "Intro");
    assert_eq!(row.script_name, "intro");
    assert_eq!(row.directory, "/out");
    assert_eq!(row.speakers_ids, "[\"s1\",\"s2\"]");
    assert_eq!(row.labels, "[\"main\",\"angry\"]");
}

#[test]
fn dialog_row_round_trip() {
    let dialog = types_dialog();
    let back = Dialog::from_row(&dialog.to_row()).expect("a row written by to_row decodes");
    assert_eq!(back.id, dialog.id);
    assert_eq!(back.name, dialog.name);
    assert_eq!(back.script_name, dialog.script_name);
    assert_eq!(back.directory, dialog.directory);
    assert_eq!(back.speakers_ids, dialog.speakers_ids);
    assert_eq!(back.labels, dialog.labels);
}

#[test]
fn dialog_row_with_malformed_speakers_is_rejected() {
    let mut row = types_dialog().to_row();
    row.speakers_ids = "s1,s2".to_string();
    assert!(matches!(Dialog::from_row(&row), Err(EditorError::MalformedList)));
}

#[test]
fn dialog_row_with_malformed_labels_is_rejected() {
    let mut row = types_dialog().to_row();
    row.labels = "[\"main\"".to_string();
    assert!(matches!(Dialog::from_row(&row), Err(EditorError::MalformedList)));
}

#[test]
fn dialog_row_written_by_hand_is_read() {
    let row = DialogDBModel {
        id: "x".to_string(),
        name: "n".to_string(),
        script_name: "sn".to_string(),
        directory: "dir".to_string(),
        speakers_ids: "[]".to_string(),
        labels: "[\"main\"]".to_string(),
    };
    let dialog = Dialog::from_row(&row).expect("well-formed row");
    assert!(dialog.speakers_ids.is_empty());
    assert_eq!(dialog.labels, types_strings(&["main"]));
}

#[test]
fn dialog_frontend_omits_directory_and_script_name() {
    let model = types_dialog().to_frontend();
    assert_eq!(model.id, "d1");
    assert_eq!(model.name, "Intro");
    assert_eq!(model.speakers_ids, types_strings(&["s1", "s2"]));
    assert_eq!(model.labels, types_strings(&["main", "angry"]));
}

#[test]
fn speaker_frontend_keeps_id_and_name() {
    let speaker = Speaker {
        id: "s1".to_string(),
        name: "Hero".to_string(),
        script_name: "hero_id".to_string(),
        color: "#FFAA00".to_string(),
        speaker_type: SpeakerType::Hero,
    };
    let model = speaker.to_frontend();
    assert_eq!(model.id, "s1");
    assert_eq!(model.name, "Hero");
}

#[test]
fn variant_frontend_keeps_text_and_speaker() {
    let variant = DialogStepVariant {
        text: "Hello".to_string(),
        speaker_id: "s1".to_string(),
        label: "main".to_string(),
        dialog_id: "d1".to_string(),
        counter: 3,
    };
    let model = variant.to_frontend();
    assert_eq!(model.text, "Hello");
    assert_eq!(model.speaker, "s1");
}

#[test]
fn new_step_has_exactly_the_main_label() {
    let step = DialogStep::new("st1".to_string(), "d1".to_string(), 4);
    assert_eq!(step.id, "st1");
    assert_eq!(step.dialog_id, "d1");
    assert_eq!(step.inner_counter, 4);
    assert_eq!(step.variants, types_strings(&["main"]));
}

#[test]
fn step_row_round_trip() {
    let mut step = DialogStep::new("st1".to_string(), "d1".to_string(), 4);
    step.variants.push("angry".to_string());
    let row = step.to_row();
    assert_eq!(row.id, "st1");
    assert_eq!(row.dialog_id, "d1");
    assert_eq!(row.inner_counter, 4);
    assert_eq!(row.variants, "[\"main\",\"angry\"]");
    let back = DialogStep::from_row(&row).expect("a row written by to_row decodes");
    assert_eq!(back.id, step.id);
    assert_eq!(back.dialog_id, step.dialog_id);
    assert_eq!(back.inner_counter, step.inner_counter);
    assert_eq!(back.variants, step.variants);
}

#[test]
fn step_row_with_malformed_labels_is_rejected() {
    let row = DialogStepDBModel {
        id: "st1".to_string(),
        inner_counter: 0,
        variants: "main".to_string(),
        dialog_id: "d1".to_string(),
    };
    assert!(matches!(DialogStep::from_row(&row), Err(EditorError::MalformedList)));
}

#[test]
fn step_frontend_keeps_id_and_labels() {
    let step = DialogStep::new("st1".to_string(), "d1".to_string(), 4);
    let model = step.to_frontend();
    assert_eq!(model.id, "st1");
    assert_eq!(model.variants, types_strings(&["main"]));
}

#[test]
fn clones_are_equal_field_by_field() {
    let dialog = types_dialog();
    let copy = dialog.clone();
    assert_eq!(copy.id, dialog.id);
    assert_eq!(copy.speakers_ids, dialog.speakers_ids);
    assert_eq!(copy.labels, dialog.labels);
    let row = dialog.to_row();
    let row_copy = row.clone();
    assert_eq!(row_copy.speakers_ids, row.speakers_ids);
    assert_eq!(row_copy.labels, row.labels);
}

#[test]
fn error_messages() {
    assert_eq!(EditorError::DialogNotFound.message(), "dialog not found");
    assert_eq!(EditorError::SpeakerNotFound.message(), "speaker not found");
    assert_eq!(EditorError::MalformedList.message(), "stored list is malformed");
}
