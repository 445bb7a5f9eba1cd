use minidialog::dialog::commands::{
    add_dialog, add_speaker, create_dialog, create_speaker, generate_lua_code, save_variant,
    try_load_variant,
};
use minidialog::dialog::error::EditorError;
use minidialog::dialog::script::render_script;
use minidialog::dialog::store::Store;
use minidialog::dialog::types::{Dialog, Speaker, SpeakerType};

fn script_dialog(id: &str, script_name: &str, speakers: &[&str]) -> Dialog {
    Dialog {
        id: id.to_string(),
        name: "Intro".to_string(),
        script_name: script_name.to_string(),
        directory: "/out".to_string(),
        speakers_ids: speakers.iter().map(|s| s.to_string()).collect(),
        labels: vec!["main".to_string()],
    }
}

fn script_speaker(id: &str, script_name: &str, speaker_type: SpeakerType) -> Speaker {
    Speaker {
        id: id.to_string(),
        name: format!("Name of {}", id),
        script_name: script_name.to_string(),
        color: "#FFAA00".to_string(),
        speaker_type,
    }
}

fn script_save(store: &mut Store, dialog: &str, counter: u32, label: &str, speaker: &str) {
    let _ = save_variant(
        store,
        dialog.to_string(),
        counter,
        label.to_string(),
        speaker.to_string(),
        format!("text of {} {} {}", dialog, counter, label),
    );
}

fn script_of(store: &Store, dialog: &str) -> String {
    generate_lua_code(store, dialog.to_string()).expect("the dialog is stored").text
}

#[test]
fn script_of_a_dialog_without_variants() {
    let mut store = Store::new();
    add_dialog(&mut store, script_dialog("d1", "intro", &["s1"])).expect("fresh id");
    let file = generate_lua_code(&store, "d1".to_string()).expect("the dialog is stored");
    assert_eq!(file.path, "/out/script.lua");
    assert_eq!(file.text, "MiniDialog.Sets[\"intro\"] = {\n}");
}

#[test]
fn hero_is_quoted_and_creature_is_bare() {
    let mut store = Store::new();
    add_dialog(&mut store, script_dialog("d1", "intro", &["s1", "s2"])).expect("fresh id");
    add_speaker(&mut store, script_speaker("s1", "hero_id", SpeakerType::Hero)).expect("fresh id");
    add_speaker(&mut store, script_speaker("s2", "wolf", SpeakerType::Creature)).expect("fresh id");
    script_save(&mut store, "d1", 0, "main", "s1");
    script_save(&mut store, "d1", 0, "angry", "s2");
    assert_eq!(
        script_of(&store, "d1"),
        "MiniDialog.Sets[\"intro\"] = {\n\
         \t[0] = {\n\
         \t\t[\"main\"] = {speaker = \"hero_id\", speaker_type = SPEAKER_TYPE_HERO},\n\
         \t\t[\"angry\"] = {speaker = wolf, speaker_type = SPEAKER_TYPE_CREATURE},\n\
         \t},\n\
         }"
    );
}

#[test]
fn counters_come_once_and_in_the_order_of_first_occurrence() {
    let mut store = Store::new();
    add_dialog(&mut store, script_dialog("d1", "intro", &["s1"])).expect("fresh id");
    add_speaker(&mut store, script_speaker("s1", "wolf", SpeakerType::Creature)).expect("fresh id");
    script_save(&mut store, "d1", 5, "main", "s1");
    script_save(&mut store, "d1", 2, "main", "s1");
    script_save(&mut store, "d1", 5, "angry", "s1");
    script_save(&mut store, "d1", 10, "main", "s1");
    script_save(&mut store, "d1", 2, "sad", "s1");
    assert_eq!(
        script_of(&store, "d1"),
        "MiniDialog.Sets[\"intro\"] = {\n\
         \t[5] = {\n\
         \t\t[\"main\"] = {speaker = wolf, speaker_type = SPEAKER_TYPE_CREATURE},\n\
         \t\t[\"angry\"] = {speaker = wolf, speaker_type = SPEAKER_TYPE_CREATURE},\n\
         \t},\n\
         \t[2] = {\n\
         \t\t[\"main\"] = {speaker = wolf, speaker_type = SPEAKER_TYPE_CREATURE},\n\
         \t\t[\"sad\"] = {speaker = wolf, speaker_type = SPEAKER_TYPE_CREATURE},\n\
         \t},\n\
         \t[10] = {\n\
         \t\t[\"main\"] = {speaker = wolf, speaker_type = SPEAKER_TYPE_CREATURE},\n\
         \t},\n\
         }"
    );
}

#[test]
fn variant_with_unlisted_speaker_is_omitted() {
    let mut store = Store::new();
    add_dialog(&mut store, script_dialog("d1", "intro", &["s1"])).expect("fresh id");
    add_speaker(&mut store, script_speaker("s1", "hero_id", SpeakerType::Hero)).expect("fresh id");
    add_speaker(&mut store, script_speaker("s2", "wolf", SpeakerType::Creature)).expect("fresh id");
    script_save(&mut store, "d1", 0, "main", "s1");
    script_save(&mut store, "d1", 0, "angry", "s2");
    script_save(&mut store, "d1", 1, "main", "s2");
    let text = script_of(&store, "d1");
    assert_eq!(
        text,
        "MiniDialog.Sets[\"intro\"] = {\n\
         \t[0] = {\n\
         \t\t[\"main\"] = {speaker = \"hero_id\", speaker_type = SPEAKER_TYPE_HERO},\n\
         \t},\n\
         \t[1] = {\n\
         \t},\n\
         }"
    );
    assert!(!text.contains("wolf"));
    assert!(!text.contains("angry"));
}

#[test]
fn unauthored_variants_have_no_entry() {
    let mut store = Store::new();
    add_dialog(&mut store, script_dialog("d1", "intro", &["s1"])).expect("fresh id");
    add_speaker(&mut store, script_speaker("s1", "hero_id", SpeakerType::Hero)).expect("fresh id");
    try_load_variant(&mut store, "d1".to_string(), 3, "main".to_string());
    assert_eq!(script_of(&store, "d1"), "MiniDialog.Sets[\"intro\"] = {\n\t[3] = {\n\t},\n}");
}

#[test]
fn listed_speaker_that_is_not_stored_gives_no_entry() {
    let mut store = Store::new();
    add_dialog(&mut store, script_dialog("d1", "intro", &["ghost"])).expect("fresh id");
    script_save(&mut store, "d1", 0, "main", "ghost");
    assert_eq!(script_of(&store, "d1"), "MiniDialog.Sets[\"intro\"] = {\n\t[0] = {\n\t},\n}");
}

#[test]
fn variants_of_other_dialogs_are_left_out() {
    let mut store = Store::new();
    add_dialog(&mut store, script_dialog("d1", "intro", &["s1"])).expect("fresh id");
    add_dialog(&mut store, script_dialog("d2", "outro", &["s1"])).expect("fresh id");
    add_speaker(&mut store, script_speaker("s1", "wolf", SpeakerType::Creature)).expect("fresh id");
    script_save(&mut store, "d2", 9, "bye", "s1");
    script_save(&mut store, "d1", 0, "main", "s1");
    script_save(&mut store, "d2", 0, "main", "s1");
    assert_eq!(
        script_of(&store, "d1"),
        "MiniDialog.Sets[\"intro\"] = {\n\
         \t[0] = {\n\
         \t\t[\"main\"] = {speaker = wolf, speaker_type = SPEAKER_TYPE_CREATURE},\n\
         \t},\n\
         }"
    );
    assert_eq!(
        script_of(&store, "d2"),
        "MiniDialog.Sets[\"outro\"] = {\n\
         \t[9] = {\n\
         \t\t[\"bye\"] = {speaker = wolf, speaker_type = SPEAKER_TYPE_CREATURE},\n\
         \t},\n\
         \t[0] = {\n\
         \t\t[\"main\"] = {speaker = wolf, speaker_type = SPEAKER_TYPE_CREATURE},\n\
         \t},\n\
         }"
    );
}

#[test]
fn script_reflects_the_last_saved_speaker() {
    let mut store = Store::new();
    add_dialog(&mut store, script_dialog("d1", "intro", &["s1", "s2"])).expect("fresh id");
    add_speaker(&mut store, script_speaker("s1", "hero_id", SpeakerType::Hero)).expect("fresh id");
    add_speaker(&mut store, script_speaker("s2", "wolf", SpeakerType::Creature)).expect("fresh id");
    script_save(&mut store, "d1", 0, "main", "s1");
    script_save(&mut store, "d1", 0, "main", "s2");
    assert_eq!(
        script_of(&store, "d1"),
        "MiniDialog.Sets[\"intro\"] = {\n\
         \t[0] = {\n\
         \t\t[\"main\"] = {speaker = wolf, speaker_type = SPEAKER_TYPE_CREATURE},\n\
         \t},\n\
         }"
    );
}

#[test]
fn largest_counter_is_written_in_full() {
    let mut store = Store::new();
    add_dialog(&mut store, script_dialog("d1", "intro", &[])).expect("fresh id");
    try_load_variant(&mut store, "d1".to_string(), u32::MAX, "main".to_string());
    assert_eq!(
        script_of(&store, "d1"),
        "MiniDialog.Sets[\"intro\"] = {\n\t[4294967295] = {\n\t},\n}"
    );
}

#[test]
fn render_script_takes_the_dialog_as_given() {
    let mut store = Store::new();
    add_speaker(&mut store, script_speaker("s1", "hero_id", SpeakerType::Hero)).expect("fresh id");
    script_save(&mut store, "d1", 0, "main", "s1");
    let listed = script_dialog("d1", "a", &["s1"]);
    let unlisted = script_dialog("d1", "b", &[]);
    assert_eq!(
        render_script(&store, &listed),
        "MiniDialog.Sets[\"a\"] = {\n\
         \t[0] = {\n\
         \t\t[\"main\"] = {speaker = \"hero_id\", speaker_type = SPEAKER_TYPE_HERO},\n\
         \t},\n\
         }"
    );
    assert_eq!(render_script(&store, &unlisted), "MiniDialog.Sets[\"b\"] = {\n\t[0] = {\n\t},\n}");
}

#[test]
fn generate_reports_a_missing_dialog() {
    let store = Store::new();
    assert!(matches!(
        generate_lua_code(&store, "d1".to_string()),
        Err(EditorError::DialogNotFound)
    ));
}

#[test]
fn generate_reports_a_malformed_row() {
    let mut store = Store::new();
    let mut row = script_dialog("d1", "intro", &["s1"]).to_row();
    row.speakers_ids = "[s1]".to_string();
    assert!(store.insert_dialog(row));
    assert!(matches!(
        generate_lua_code(&store, "d1".to_string()),
        Err(EditorError::MalformedList)
    ));
}

#[test]
fn intro_scenario_script() {
    let mut store = Store::new();
    add_dialog(&mut store, script_dialog("d1", "intro", &["s1"])).expect("fresh id");
    let hero = Speaker {
        id: "s1".to_string(),
        name: "Hero".to_string(),
        script_name: "hero_id".to_string(),
        color: "#FFAA00".to_string(),
        speaker_type: SpeakerType::Hero,
    };
    add_speaker(&mut store, hero).expect("fresh id");
    let saved = save_variant(
        &mut store,
        "d1".to_string(),
        0,
        "main".to_string(),
        "s1".to_string(),
        "Hello".to_string(),
    );
    assert!(saved.is_ok());
    let file = generate_lua_code(&store, "d1".to_string()).expect("the dialog is stored");
    assert_eq!(file.path, "/out/script.lua");
    assert!(file.text.contains("\t[0] = {\n"));
    assert!(file.text.contains("[\"main\"] = {speaker = \"hero_id\""));
    assert_eq!(
        file.text,
        "MiniDialog.Sets[\"intro\"] = {\n\
         \t[0] = {\n\
         \t\t[\"main\"] = {speaker = \"hero_id\", speaker_type = SPEAKER_TYPE_HERO},\n\
         \t},\n\
         }"
    );
}

#[test]
fn missing_speaker_scenario() {
    let mut store = Store::new();
    add_dialog(&mut store, script_dialog("d1", "intro", &["s1", "nobody"])).expect("fresh id");
    add_speaker(&mut store, script_speaker("s1", "hero_id", SpeakerType::Hero)).expect("fresh id");
    for _ in 0..3 {
        let saved = save_variant(
            &mut store,
            "d1".to_string(),
            0,
            "main".to_string(),
            "nobody".to_string(),
            "Hello".to_string(),
        );
        assert!(matches!(saved, Err(EditorError::SpeakerNotFound)));
        let file = generate_lua_code(&store, "d1".to_string()).expect("the dialog is stored");
        assert_eq!(file.text, "MiniDialog.Sets[\"intro\"] = {\n\t[0] = {\n\t},\n}");
    }
}

#[test]
fn scenario_with_created_ids() {
    let mut store = Store::new();
    let hero = create_speaker(
        &mut store,
        "Hero".to_string(),
        "hero_id".to_string(),
        "#FFAA00".to_string(),
        SpeakerType::Hero,
    )
    .expect("a fresh id is free");
    let wolf = create_speaker(
        &mut store,
        "Wolf".to_string(),
        "wolf".to_string(),
        "#808080".to_string(),
        SpeakerType::Creature,
    )
    .expect("a fresh id is free");
    let dialog = create_dialog(
        &mut store,
        "Intro".to_string(),
        "intro".to_string(),
        "/out".to_string(),
        vec![hero.id.clone()],
    )
    .expect("a fresh id is free");
    let first = try_load_variant(&mut store, dialog.id.clone(), 0, "main".to_string());
    assert_eq!(first.text, "");
    assert_eq!(first.speaker, "");
    let saved = save_variant(
        &mut store,
        dialog.id.clone(),
        0,
        "main".to_string(),
        hero.id.clone(),
        "Hello".to_string(),
    )
    .expect("dialog and speaker are stored");
    assert_eq!(saved.path, "/out/0_main.txt");
    let unlisted = save_variant(
        &mut store,
        dialog.id.clone(),
        1,
        "main".to_string(),
        wolf.id.clone(),
        "Grr".to_string(),
    );
    assert!(unlisted.is_ok());
    let file = generate_lua_code(&store, dialog.id.clone()).expect("the dialog is stored");
    assert_eq!(
        file.text,
        "MiniDialog.Sets[\"intro\"] = {\n\
         \t[0] = {\n\
         \t\t[\"main\"] = {speaker = \"hero_id\", speaker_type = SPEAKER_TYPE_HERO},\n\
         \t},\n\
         \t[1] = {\n\
         \t},\n\
         }"
    );
}
