use std::path::PathBuf;

use servoshell::conversation::{CacheScan, ChatRole, Status, SupportedModel};
use servoshell::inference::{
    ClearAction, DeleteAction, DeleteEvent, DeleteStep, Inference, LoadAction, LoadEvent, LoadStep, LoadTask,
    UseModel, SYSTEM_PROMPT,
};
use servoshell::models::{
    config_for, default_model_id, ModelRow, ModelTable, Preset, DEFAULT_PRESET, PRESET_COUNT,
};
use servoshell::storage::SaveChoice;

type Session = Inference<&'static str, PathBuf>;

fn row(name: &str) -> ModelRow {
    ModelRow {
        catalog_id: format!("catalog/{name}"),
        model_id: format!("catalog/{name}"),
        display_name: format!("Model {name}"),
    }
}

fn table() -> ModelTable {
    ModelTable {
        qwen25_0_5b: row("a"),
        qwen25_1_5b: row("b"),
        qwen25_3b: row("c"),
        qwen25_coder_7b: row("d"),
        qwen3_0_6b: row("e"),
        qwen3_1_7b: row("f"),
        qwen3_4b: row("g"),
        qwen3_8b: row("h"),
        qwen3_14b: row("i"),
        qwen3_32b: row("j"),
        qwen3_4b_instruct_2507: row("k"),
        qwen3_4b_thinking_2507: row("l"),
        qwen3_30b_a3b_instruct_2507: row("m"),
        deepseek_coder_6_7b: row("n"),
    }
}

fn session() -> Session {
    Inference::new(table(), None, Some(PathBuf::from("/cache")))
}

fn scan(models: Vec<&'static str>) -> CacheScan<&'static str> {
    CacheScan {
        models,
        cache_path: "/cache/models/hub".to_string(),
        total_size_display: "2.5 GB".to_string(),
    }
}

fn supported(id: &str, is_downloaded: bool) -> Vec<SupportedModel> {
    vec![
        SupportedModel { model_id: "catalog/other".to_string(), is_downloaded: true },
        SupportedModel { model_id: id.to_string(), is_downloaded },
    ]
}

fn start(session: &mut Session, id: &str) -> LoadTask {
    match session.use_model(id, None) {
        UseModel::Load { task, .. } => task,
        _ => panic!("the load did not start"),
    }
}

fn make_ready(session: &mut Session, id: &str) {
    let mut task = start(session, id);
    session.advance_load(&mut task, LoadEvent::Supported(supported(id, true)));
    session.advance_load(&mut task, LoadEvent::Loaded(Ok(())));
    session.advance_load(&mut task, LoadEvent::Scanned(scan(vec!["one"])));
    assert!(session.status().is_ready());
}

fn lines(session: &Session) -> Vec<(ChatRole, String)> {
    session.transcript().iter().map(|t| (t.role, t.text.clone())).collect()
}

#[test]
fn every_row_finds_its_preset() {
    let models = table();
    let names = ["a", "b", "c", "d", "e", "f", "g", "h", "i", "j", "k", "l", "m", "n"];
    assert_eq!(names.len(), PRESET_COUNT);
    for (i, name) in names.iter().enumerate() {
        let config = config_for(&models, &format!("catalog/{name}")).unwrap();
        assert_eq!(config.preset, Preset::at(i));
        assert_eq!(config.model_id, format!("catalog/{name}"));
        assert_eq!(config.display_name, format!("Model {name}"));
    }
    assert_eq!(Preset::at(12), Preset::Qwen3_30bA3bInstruct2507);
    assert_eq!(models.row(Preset::DeepseekCoder6_7b).catalog_id, "catalog/n");
}

#[test]
fn unlisted_id_has_no_config() {
    assert!(config_for(&table(), "catalog/z").is_none());
    assert!(config_for(&table(), "").is_none());
    assert!(config_for(&table(), "Catalog/a").is_none());
}

#[test]
fn first_of_two_equal_ids_wins() {
    let mut models = table();
    models.qwen3_8b.catalog_id = "catalog/b".to_string();
    assert_eq!(config_for(&models, "catalog/b").unwrap().preset, Preset::Qwen25_1_5b);
    assert!(config_for(&models, "catalog/h").is_none());
}

#[test]
fn default_model_can_be_loaded() {
    let models = table();
    let id = default_model_id(&models);
    assert_eq!(id, "catalog/k");
    assert_eq!(config_for(&models, &id).unwrap().preset, Preset::Qwen3_4bInstruct2507);
    assert_eq!(Preset::at(DEFAULT_PRESET), Preset::Qwen3_4bInstruct2507);
}

#[test]
fn launch_without_a_remembered_choice() {
    let s = session();
    assert_eq!(s.selected_model_id(), "catalog/k");
    assert_eq!(s.selected_model_name(), "Model k");
    assert!(matches!(s.status(), Status::Idle));
    assert!(s.transcript().is_empty());
    assert!(!s.is_generating());
    assert_eq!(s.loaded_model_id(), None);
    assert_eq!(s.last_error(), None);
    assert!(s.catalog().models.is_empty());
    assert!(!s.catalog().scanned);
    assert_eq!(s.catalog().cache_path, "");
    assert_eq!(s.draft, "");
}

#[test]
fn launch_trims_the_remembered_choice() {
    let s: Session = Inference::new(table(), Some("\u{2003} catalog/c\r\n".to_string()), None);
    assert_eq!(s.selected_model_id(), "catalog/c");
    assert_eq!(s.selected_model_name(), "Model c");
}

#[test]
fn launch_ignores_a_choice_that_cannot_be_loaded() {
    let s: Session = Inference::new(table(), Some("catalog/gone".to_string()), None);
    assert_eq!(s.selected_model_id(), "catalog/k");
    let s: Session = Inference::new(table(), Some("  \n".to_string()), None);
    assert_eq!(s.selected_model_id(), "catalog/k");
}

#[test]
fn picking_a_model_prepares_and_saves() {
    let mut s = session();
    match s.use_model("catalog/b", Some(PathBuf::from("/config"))) {
        UseModel::Load { save: Some(save), task } => {
            assert_eq!(save.file.directory, PathBuf::from("/config"));
            assert_eq!(save.file.name, "selected-model");
            assert_eq!(save.contents, "catalog/b");
            assert_eq!(task.step(), LoadStep::Checking);
        }
        _ => panic!("the load did not start"),
    }
    assert_eq!(s.selected_model_id(), "catalog/b");
    assert_eq!(s.loaded_model_id(), None);
    match s.status() {
        Status::Downloading { fraction_bits, detail } => {
            assert_eq!(f32::from_bits(*fraction_bits), 0.0);
            assert_eq!(detail, "Preparing Model b");
        }
        _ => panic!("not preparing"),
    }
}

#[test]
fn saved_choice_is_picked_at_the_next_launch() {
    let mut s = session();
    let saved: SaveChoice<PathBuf> =
        match s.use_model("catalog/m", Some(PathBuf::from("/config"))) {
            UseModel::Load { save: Some(save), .. } => save,
            _ => panic!("nothing was saved"),
        };
    let next: Session = Inference::new(table(), Some(saved.contents), None);
    assert_eq!(next.selected_model_id(), "catalog/m");
}

#[test]
fn choice_is_not_saved_without_a_config_dir() {
    let mut s = session();
    assert!(matches!(s.use_model("catalog/b", None), UseModel::Load { save: None, .. }));
    assert_eq!(s.selected_model_id(), "catalog/b");
}

#[test]
fn unloadable_model_is_refused() {
    let mut s = session();
    assert!(matches!(
        s.use_model("catalog/z", Some(PathBuf::from("/config"))),
        UseModel::Refused
    ));
    assert_eq!(s.last_error(), Some("catalog/z cannot be loaded.".to_string()));
    assert_eq!(s.selected_model_id(), "catalog/k");
    assert!(matches!(s.status(), Status::Idle));
}

#[test]
fn busy_session_ignores_another_pick() {
    let mut s = session();
    let mut task = start(&mut s, "catalog/b");
    assert!(s.status().is_busy());
    assert!(matches!(s.use_model("catalog/c", None), UseModel::Busy));
    assert!(matches!(s.use_model("catalog/z", None), UseModel::Busy));
    assert!(matches!(s.ensure_model(None), UseModel::Busy));
    assert_eq!(s.selected_model_id(), "catalog/b");
    assert_eq!(s.last_error(), None);
    s.advance_load(&mut task, LoadEvent::Supported(supported("catalog/b", true)));
    assert!(s.status().is_busy());
    assert!(matches!(s.use_model("catalog/c", None), UseModel::Busy));
}

#[test]
fn ensure_model_loads_the_default() {
    let mut s = session();
    assert!(matches!(s.ensure_model(None), UseModel::Load { .. }));
    assert_eq!(s.selected_model_id(), "catalog/k");
    assert_eq!(s.last_error(), None);
}

#[test]
fn picking_the_ready_model_again_loads_nothing() {
    let mut s = session();
    make_ready(&mut s, "catalog/b");
    match s.use_model("catalog/b", Some(PathBuf::from("/config"))) {
        UseModel::Current { save: Some(save) } => assert_eq!(save.contents, "catalog/b"),
        _ => panic!("the model is ready"),
    }
    assert!(s.status().is_ready());
}

#[test]
fn missing_weights_are_downloaded_then_loaded() {
    let mut s = session();
    let mut task = start(&mut s, "catalog/b");
    match s.advance_load(&mut task, LoadEvent::Supported(supported("catalog/b", false))) {
        LoadAction::Download { model_id, cache_dir } => {
            assert_eq!(model_id, "catalog/b");
            assert_eq!(cache_dir, Some(PathBuf::from("/cache")));
        }
        _ => panic!("the weights are missing"),
    }
    assert_eq!(task.step(), LoadStep::Downloading);

    let progress = LoadEvent::Progress {
        fraction_bits: 0.25f32.to_bits(),
        downloaded_display: "0.5 GB".to_string(),
        total_display: "2.0 GB".to_string(),
    };
    assert!(matches!(s.advance_load(&mut task, progress), LoadAction::Continue));
    match s.status() {
        Status::Downloading { fraction_bits, detail } => {
            assert_eq!(f32::from_bits(*fraction_bits), 0.25);
            assert_eq!(detail, "0.5 GB of 2.0 GB");
        }
        _ => panic!("not downloading"),
    }

    match s.advance_load(&mut task, LoadEvent::Downloaded(Ok(()))) {
        LoadAction::Load { config, system_prompt } => {
            assert_eq!(config.preset, Preset::Qwen25_1_5b);
            assert_eq!(config.model_id, "catalog/b");
            assert_eq!(
                system_prompt,
                "You are a helpful assistant inside a web browser. Keep answers brief."
            );
            assert_eq!(system_prompt, SYSTEM_PROMPT);
        }
        _ => panic!("the weights are there"),
    }
    assert!(matches!(s.status(), Status::Loading { model } if model == "Model b"));
    assert_eq!(s.loaded_model_id(), None);

    assert!(matches!(
        s.advance_load(&mut task, LoadEvent::Loaded(Ok(()))),
        LoadAction::Rescan
    ));
    assert!(matches!(s.status(), Status::Ready { model } if model == "Model b"));
    assert_eq!(s.loaded_model_id(), Some("catalog/b".to_string()));
    assert!(!s.catalog().scanned);

    assert!(matches!(
        s.advance_load(&mut task, LoadEvent::Scanned(scan(vec!["one", "two"]))),
        LoadAction::Stop
    ));
    assert_eq!(task.step(), LoadStep::Finished);
    assert_eq!(s.catalog().models, vec!["one", "two"]);
    assert_eq!(s.catalog().cache_path, "/cache/models/hub");
    assert_eq!(s.catalog().total_size_display, "2.5 GB");
    assert!(s.catalog().scanned);
}

#[test]
fn complete_weights_are_not_downloaded() {
    let mut s = session();
    let mut task = start(&mut s, "catalog/b");
    assert!(matches!(
        s.advance_load(&mut task, LoadEvent::Supported(supported("catalog/b", true))),
        LoadAction::Load { .. }
    ));
    assert_eq!(task.step(), LoadStep::Loading);
}

#[test]
fn unlisted_weights_are_downloaded() {
    let mut s = session();
    let mut task = start(&mut s, "catalog/b");
    assert!(matches!(
        s.advance_load(&mut task, LoadEvent::Supported(Vec::new())),
        LoadAction::Download { .. }
    ));
}

#[test]
fn failed_download_ends_the_load_without_a_scan() {
    let mut s = session();
    make_ready(&mut s, "catalog/a");
    let mut task = start(&mut s, "catalog/b");
    s.advance_load(&mut task, LoadEvent::Supported(supported("catalog/b", false)));
    assert!(matches!(
        s.advance_load(&mut task, LoadEvent::Downloaded(Err("offline".to_string()))),
        LoadAction::Stop
    ));
    assert_eq!(task.step(), LoadStep::Finished);
    assert!(matches!(s.status(), Status::Failed(error) if error == "offline"));
    assert_eq!(s.loaded_model_id(), Some("catalog/a".to_string()));
    assert_eq!(s.last_error(), None);
    assert_eq!(s.catalog().models, vec!["one"]);
}

#[test]
fn failed_load_keeps_the_previous_model_and_rescans() {
    let mut s = session();
    make_ready(&mut s, "catalog/a");
    let mut task = start(&mut s, "catalog/b");
    assert_eq!(s.loaded_model_id(), Some("catalog/a".to_string()));
    s.advance_load(&mut task, LoadEvent::Supported(supported("catalog/b", true)));
    assert!(matches!(
        s.advance_load(&mut task, LoadEvent::Loaded(Err("no memory".to_string()))),
        LoadAction::Rescan
    ));
    assert!(matches!(s.status(), Status::Failed(error) if error == "no memory"));
    assert_eq!(s.loaded_model_id(), Some("catalog/a".to_string()));
    assert!(matches!(
        s.advance_load(&mut task, LoadEvent::Scanned(scan(vec!["two"]))),
        LoadAction::Stop
    ));
    assert_eq!(s.catalog().models, vec!["two"]);
    // The previous model is in memory, but not ready: it is loaded once more.
    assert!(matches!(s.use_model("catalog/a", None), UseModel::Load { .. }));
}

#[test]
fn event_out_of_turn_changes_nothing() {
    let mut s = session();
    let mut task = start(&mut s, "catalog/b");
    assert!(matches!(
        s.advance_load(&mut task, LoadEvent::Loaded(Ok(()))),
        LoadAction::Continue
    ));
    assert_eq!(task.step(), LoadStep::Checking);
    assert_eq!(s.loaded_model_id(), None);
    assert!(s.status().is_busy());
}

#[test]
fn deleting_the_loaded_model_leaves_none() {
    let mut s = session();
    make_ready(&mut s, "catalog/b");
    s.send("hello".to_string());
    let (mut task, action) = s.delete_model("catalog/b");
    assert!(matches!(action, DeleteAction::Unload));
    assert_eq!(task.step(), DeleteStep::Unloading);
    assert_eq!(s.loaded_model_id(), Some("catalog/b".to_string()));

    match s.advance_delete(&mut task, DeleteEvent::Unloaded) {
        DeleteAction::Delete(id) => assert_eq!(id, "catalog/b"),
        _ => panic!("the weights are still there"),
    }
    assert_eq!(s.loaded_model_id(), None);
    assert!(s.transcript().is_empty());
    assert!(matches!(s.status(), Status::Idle));
    assert_eq!(s.selected_model_id(), "catalog/b");

    assert!(matches!(
        s.advance_delete(&mut task, DeleteEvent::Deleted(Ok(()))),
        DeleteAction::Rescan
    ));
    assert!(matches!(
        s.advance_delete(&mut task, DeleteEvent::Scanned(scan(Vec::new()))),
        DeleteAction::Stop
    ));
    assert_eq!(task.step(), DeleteStep::Finished);
    assert!(s.catalog().models.is_empty());
    assert!(s.catalog().scanned);
}

#[test]
fn deleting_another_model_keeps_the_loaded_one() {
    let mut s = session();
    make_ready(&mut s, "catalog/b");
    s.send("hello".to_string());
    let (mut task, action) = s.delete_model("catalog/c");
    assert!(matches!(action, DeleteAction::Delete(id) if id == "catalog/c"));
    assert!(matches!(
        s.advance_delete(&mut task, DeleteEvent::Unloaded),
        DeleteAction::Continue
    ));
    s.advance_delete(&mut task, DeleteEvent::Deleted(Ok(())));
    assert_eq!(s.loaded_model_id(), Some("catalog/b".to_string()));
    assert!(s.status().is_ready());
    assert_eq!(s.transcript().len(), 1);
}

#[test]
fn deletion_reports_its_failure_until_one_succeeds() {
    let mut s = session();
    let (mut task, _) = s.delete_model("catalog/b");
    s.advance_delete(&mut task, DeleteEvent::Deleted(Err("in use".to_string())));
    assert_eq!(s.last_error(), Some("in use".to_string()));
    assert_eq!(task.step(), DeleteStep::Rescanning);
    let (mut task, _) = s.delete_model("catalog/b");
    s.advance_delete(&mut task, DeleteEvent::Deleted(Ok(())));
    assert_eq!(s.last_error(), None);
}

#[test]
fn message_and_reply_are_both_shown() {
    let mut s = session();
    make_ready(&mut s, "catalog/b");
    assert_eq!(s.send(" hello ".to_string()), Some(" hello ".to_string()));
    assert!(s.is_generating());
    assert_eq!(s.send("again".to_string()), None);
    s.receive_reply(Ok("hi".to_string()));
    assert!(!s.is_generating());
    assert_eq!(
        lines(&s),
        vec![
            (ChatRole::User, " hello ".to_string()),
            (ChatRole::Assistant, "hi".to_string()),
        ]
    );
    assert_eq!(s.send("again".to_string()), Some("again".to_string()));
}

#[test]
fn failed_generation_is_shown_as_a_line() {
    let mut s = session();
    make_ready(&mut s, "catalog/b");
    s.send("hello".to_string());
    s.receive_reply(Err("out of memory".to_string()));
    assert_eq!(
        lines(&s)[1],
        (ChatRole::Assistant, "Inference failed: out of memory".to_string())
    );
}

#[test]
fn message_is_dropped_unless_ready() {
    let mut s = session();
    assert_eq!(s.send("hello".to_string()), None);
    start(&mut s, "catalog/b");
    assert_eq!(s.send("hello".to_string()), None);
    assert!(s.transcript().is_empty());
    assert!(!s.is_generating());
}

#[test]
fn blank_message_is_dropped() {
    let mut s = session();
    make_ready(&mut s, "catalog/b");
    assert_eq!(s.send(String::new()), None);
    assert_eq!(s.send(" \t\r\n\u{85}\u{a0}\u{1680}\u{2000}\u{3000}".to_string()), None);
    assert!(s.transcript().is_empty());
    assert_eq!(s.send("\u{200b}".to_string()), Some("\u{200b}".to_string()));
}

#[test]
fn white_space_is_what_the_standard_says() {
    let listed = |c: u32| {
        matches!(c, 0x09..=0x0d | 0x20 | 0x85 | 0xa0 | 0x1680 | 0x2000..=0x200a)
            || matches!(c, 0x2028 | 0x2029 | 0x202f | 0x205f | 0x3000)
    };
    for code in 0..=0x10ffffu32 {
        if let Some(c) = char::from_u32(code) {
            assert_eq!(c.is_whitespace(), listed(code));
            let text = format!("{c}x{c}");
            assert_eq!(text.trim() == "x", listed(code));
        }
    }
}

#[test]
fn clearing_keeps_the_model_in_memory() {
    let mut s = session();
    make_ready(&mut s, "catalog/b");
    s.send("hello".to_string());
    assert_eq!(s.clear(), ClearAction::ClearHistory);
    assert!(s.transcript().is_empty());
    assert!(s.status().is_ready());
    assert_eq!(s.loaded_model_id(), Some("catalog/b".to_string()));
    assert!(s.is_generating());
}

#[test]
fn scan_replaces_the_catalog() {
    let mut s = session();
    s.refresh_catalog(scan(vec!["one"]));
    assert_eq!(s.catalog().models, vec!["one"]);
    s.refresh_catalog(scan(Vec::new()));
    assert!(s.catalog().models.is_empty());
    assert!(s.catalog().scanned);
}

#[test]
fn ready_and_busy_statuses() {
    let text = || "x".to_string();
    let all = [
        (Status::Idle, false, false),
        (Status::Downloading { fraction_bits: 0, detail: text() }, false, true),
        (Status::Loading { model: text() }, false, true),
        (Status::Ready { model: text() }, true, false),
        (Status::Failed(text()), false, false),
    ];
    for (status, ready, busy) in all {
        assert_eq!(status.is_ready(), ready);
        assert_eq!(status.is_busy(), busy);
    }
}

#[test]
fn load_in_flight_stays_alone() {
    let mut s = session();
    make_ready(&mut s, "catalog/a");
    s.send("hello".to_string());
    let mut task = start(&mut s, "catalog/b");
    s.receive_reply(Ok("hi".to_string()));
    s.clear();
    s.refresh_catalog(scan(Vec::new()));
    let (mut deletion, _) = s.delete_model("catalog/c");
    s.advance_delete(&mut deletion, DeleteEvent::Deleted(Ok(())));
    assert!(s.status().is_busy());
    assert!(matches!(s.use_model("catalog/c", None), UseModel::Busy));
    assert_eq!(s.loaded_model_id(), Some("catalog/a".to_string()));
    s.advance_load(&mut task, LoadEvent::Supported(supported("catalog/b", true)));
    s.advance_load(&mut task, LoadEvent::Loaded(Ok(())));
    assert_eq!(s.loaded_model_id(), Some("catalog/b".to_string()));
    assert!(matches!(s.use_model("catalog/c", None), UseModel::Load { .. }));
}

#[test]
fn unloading_meanwhile_leaves_the_load_alone() {
    let mut s = session();
    make_ready(&mut s, "catalog/a");
    let mut task = start(&mut s, "catalog/b");
    let (mut deletion, _) = s.delete_model("catalog/a");
    s.advance_delete(&mut deletion, DeleteEvent::Unloaded);
    assert_eq!(s.loaded_model_id(), None);
    assert!(s.status().is_busy());
    assert!(matches!(s.use_model("catalog/c", None), UseModel::Busy));
    assert_eq!(s.send("hello".to_string()), None);
    s.advance_load(&mut task, LoadEvent::Supported(supported("catalog/b", true)));
    s.advance_load(&mut task, LoadEvent::Loaded(Ok(())));
    assert!(matches!(s.status(), Status::Ready { model } if model == "Model b"));
    assert_eq!(s.loaded_model_id(), Some("catalog/b".to_string()));
}

#[test]
fn previous_model_answers_while_another_downloads() {
    let mut s = session();
    make_ready(&mut s, "catalog/a");
    let mut task = start(&mut s, "catalog/b");
    assert_eq!(s.send("hi".to_string()), Some("hi".to_string()));
    s.receive_reply(Ok("hello".to_string()));
    s.advance_load(&mut task, LoadEvent::Supported(supported("catalog/b", false)));
    let progress = LoadEvent::Progress {
        fraction_bits: 0.5f32.to_bits(),
        downloaded_display: "1 GB".to_string(),
        total_display: "2 GB".to_string(),
    };
    s.advance_load(&mut task, progress);
    assert_eq!(s.send("still there?".to_string()), Some("still there?".to_string()));
    assert_eq!(lines(&s).last().unwrap(), &(ChatRole::User, "still there?".to_string()));
    s.receive_reply(Ok("yes".to_string()));
    s.advance_load(&mut task, LoadEvent::Downloaded(Ok(())));
    assert_eq!(s.send("now?".to_string()), None);
    s.advance_load(&mut task, LoadEvent::Loaded(Ok(())));
    assert_eq!(s.send("now?".to_string()), Some("now?".to_string()));
}

#[test]
fn refusal_is_told_until_a_load_succeeds() {
    let refusal = Some("catalog/z cannot be loaded.".to_string());
    let mut s = session();
    s.use_model("catalog/z", None);
    let mut task = start(&mut s, "catalog/b");
    assert_eq!(s.last_error(), refusal);
    s.advance_load(&mut task, LoadEvent::Supported(supported("catalog/b", true)));
    s.advance_load(&mut task, LoadEvent::Loaded(Err("no memory".to_string())));
    s.advance_load(&mut task, LoadEvent::Scanned(scan(Vec::new())));
    assert_eq!(s.last_error(), refusal);
    make_ready(&mut s, "catalog/b");
    assert_eq!(s.last_error(), None);
}

#[test]
fn refusal_is_told_until_the_current_model_is_picked() {
    let mut s = session();
    make_ready(&mut s, "catalog/b");
    s.use_model("catalog/z", None);
    assert!(s.last_error().is_some());
    assert!(matches!(s.use_model("catalog/b", None), UseModel::Current { .. }));
    assert_eq!(s.last_error(), None);
}

#[test]
fn different_ids_find_different_presets() {
    let models = table();
    let a = config_for(&models, "catalog/a").unwrap();
    let b = config_for(&models, "catalog/b").unwrap();
    assert_ne!(a.preset, b.preset);
    assert_eq!((a.model_id.as_str(), b.model_id.as_str()), ("catalog/a", "catalog/b"));
}

#[test]
fn ready_names_the_model_in_memory() {
    let mut s = session();
    make_ready(&mut s, "catalog/a");
    make_ready(&mut s, "catalog/n");
    let id = s.loaded_model_id().unwrap();
    let name = config_for(&table(), &id).unwrap().display_name;
    assert!(matches!(s.status(), Status::Ready { model } if *model == name));
    assert_eq!(name, "Model n");
}

#[test]
fn previous_model_answers_after_a_failed_download() {
    let mut s = session();
    make_ready(&mut s, "catalog/a");
    let mut task = start(&mut s, "catalog/b");
    s.advance_load(&mut task, LoadEvent::Supported(supported("catalog/b", false)));
    s.advance_load(&mut task, LoadEvent::Downloaded(Err("offline".to_string())));
    assert!(matches!(s.status(), Status::Failed(_)));
    assert_eq!(s.send("hi".to_string()), Some("hi".to_string()));
    assert_eq!(lines(&s), vec![(ChatRole::User, "hi".to_string())]);
}

#[test]
fn failed_first_download_answers_nothing() {
    let mut s = session();
    let mut task = start(&mut s, "catalog/b");
    s.advance_load(&mut task, LoadEvent::Supported(supported("catalog/b", false)));
    s.advance_load(&mut task, LoadEvent::Downloaded(Err("offline".to_string())));
    assert_eq!(s.send("hi".to_string()), None);
}
