use servoshell::ios::{
    c_string, servoshell_ios_init, servoshell_ios_load_url, servoshell_ios_notify_vsync,
    servoshell_ios_resize, servoshell_ios_shutdown, servoshell_ios_spin_event_loop,
    servoshell_ios_touch_cancel, servoshell_ios_touch_down, servoshell_ios_touch_move,
    servoshell_ios_touch_up, viewport_rect, window_handle, AppSlot, HostCallbacks, ShellCall,
    start_browser, StartCall, TouchPhase, ViewportRect, WakeupCallback, WindowHandle,
};
use servoshell::menu::{
    install_settings_item, take_settings_request, Installation, MenuEntry, SettingsMenu,
};
use servoshell::settings::{Settings, SettingsFacts, Widget};
use servoshell::storage::{
    model_cache_dir, seed_model_cache_env, selected_model_path, SaveChoice, ONDE_APP_GROUP,
};

fn occupied() -> AppSlot<&'static str> {
    let mut slot = AppSlot::new();
    slot.install("app");
    slot
}

#[test]
fn viewport_keeps_a_real_size() {
    assert_eq!(
        viewport_rect(320, 480),
        ViewportRect { x: 0, y: 0, width: 320, height: 480 }
    );
}

#[test]
fn viewport_is_never_empty() {
    assert_eq!(viewport_rect(0, -5), ViewportRect { x: 0, y: 0, width: 1, height: 1 });
    assert_eq!(
        viewport_rect(i32::MIN, i32::MAX),
        ViewportRect { x: 0, y: 0, width: 1, height: i32::MAX }
    );
}

#[test]
fn c_string_decodes_text() {
    assert_eq!(c_string(None), None);
    assert_eq!(c_string(Some(Vec::new())), Some(String::new()));
    assert_eq!(
        c_string(Some("https://example.org/é€😀".as_bytes().to_vec())),
        Some("https://example.org/é€😀".to_string())
    );
}

#[test]
fn c_string_refuses_what_is_not_text() {
    assert_eq!(c_string(Some(vec![0xff])), None);
    assert_eq!(c_string(Some(vec![b'a', 0xc3])), None);
    assert_eq!(c_string(Some(vec![0xc0, 0x80])), None);
    assert_eq!(c_string(Some(vec![0xed, 0xa0, 0x80])), None);
}

#[test]
fn null_view_has_no_handle() {
    assert!(window_handle(0).is_none());
    assert_eq!(window_handle(0x1000).unwrap().ui_view, 0x1000);
}

#[test]
fn init_without_a_view_does_nothing() {
    assert!(servoshell_ios_init(0, 1, 1, None, Some(7u8), 0).is_none());
}

#[test]
fn init_plans_a_browser() {
    let plan =
        servoshell_ios_init(16, 0, 600, Some(b"about:config".to_vec()), Some(7u8), 99).unwrap();
    assert_eq!(
        plan.calls,
        vec![
            StartCall::AddWindow {
                window: WindowHandle { ui_view: 16 },
                viewport: ViewportRect { x: 0, y: 0, width: 1, height: 600 },
            },
            StartCall::SpinEventLoop,
            StartCall::Install,
        ]
    );
    assert_eq!(plan.initial_url, Some("about:config".to_string()));
    assert_eq!(plan.homepage, "about:blank");
    assert!(plan.js_disable_jit);
    assert_eq!(plan.waker.wake(), Some((7, 99)));
    let plan = servoshell_ios_init(16, 1, 1, Some(vec![0xff]), None::<u8>, 99).unwrap();
    assert_eq!(plan.initial_url, None);
    assert_eq!(plan.waker.wake(), None);
}

#[test]
fn started_browser_replaces_the_one_before() {
    let mut slot = occupied();
    let window = window_handle(16).unwrap();
    for call in start_browser(window, viewport_rect(1, 1)) {
        assert_eq!(*servoshell_ios_notify_vsync(&slot).unwrap().0, "app");
        if call == StartCall::Install {
            slot.install("new");
        }
    }
    assert_eq!(*servoshell_ios_notify_vsync(&slot).unwrap().0, "new");
}

#[test]
fn wake_needs_a_callback() {
    let waker = WakeupCallback { callback: Some("call"), context: 3 };
    assert_eq!(waker.wake(), Some(("call", 3)));
    let waker: WakeupCallback<&str> = WakeupCallback { callback: None, context: 3 };
    assert_eq!(waker.wake(), None);
}

#[test]
fn host_reports_alerts_and_panics() {
    let host = HostCallbacks;
    assert_eq!(host.show_alert("hi"), "Ignoring alert on iOS: hi");
    assert_eq!(host.on_panic("boom", None), vec!["Servo panic: boom".to_string()]);
    assert_eq!(
        host.on_panic("boom", Some("at main".to_string())),
        vec!["Servo panic: boom".to_string(), "at main".to_string()]
    );
}

#[test]
fn calls_reach_the_browser() {
    let slot = occupied();
    assert!(matches!(
        servoshell_ios_spin_event_loop(&slot),
        Some((&"app", ShellCall::SpinEventLoop))
    ));
    assert!(matches!(
        servoshell_ios_notify_vsync(&slot),
        Some((&"app", ShellCall::NotifyVsync))
    ));
    match servoshell_ios_resize(&slot, 10, 0) {
        Some((app, ShellCall::Resize(rect))) => {
            assert_eq!(*app, "app");
            assert_eq!(rect, ViewportRect { x: 0, y: 0, width: 10, height: 1 });
        }
        _ => panic!("no resize"),
    }
    match servoshell_ios_load_url(&slot, Some(b"about:blank".to_vec())) {
        Some((_, ShellCall::LoadUri(url))) => assert_eq!(url, "about:blank"),
        _ => panic!("no load"),
    }
}

#[test]
fn bad_address_loads_nothing() {
    let slot = occupied();
    assert!(servoshell_ios_load_url(&slot, None).is_none());
    assert!(servoshell_ios_load_url(&slot, Some(vec![0xff])).is_none());
}

#[test]
fn touches_reach_the_browser() {
    let slot = occupied();
    let (app, touch) = servoshell_ios_touch_down(&slot, 1.5f32, -2.0, 4).unwrap();
    assert_eq!(*app, "app");
    assert_eq!(touch.phase, TouchPhase::Down);
    assert_eq!((touch.x, touch.y, touch.pointer_id), (1.5, -2.0, 4));
    let (_, touch) = servoshell_ios_touch_move(&slot, 1.0f32, 2.0, 5).unwrap();
    assert_eq!((touch.phase, touch.pointer_id), (TouchPhase::Move, 5));
    let (_, touch) = servoshell_ios_touch_up(&slot, 1.0f32, 2.0, 6).unwrap();
    assert_eq!((touch.phase, touch.pointer_id), (TouchPhase::Up, 6));
    let (_, touch) = servoshell_ios_touch_cancel(&slot, 1.0f32, 2.0, 7).unwrap();
    assert_eq!((touch.phase, touch.pointer_id), (TouchPhase::Cancel, 7));
}

#[test]
fn nothing_is_called_without_a_browser() {
    let slot: AppSlot<&str> = AppSlot::new();
    assert!(servoshell_ios_spin_event_loop(&slot).is_none());
    assert!(servoshell_ios_notify_vsync(&slot).is_none());
    assert!(servoshell_ios_resize(&slot, 1, 1).is_none());
    assert!(servoshell_ios_load_url(&slot, Some(b"a".to_vec())).is_none());
    assert!(servoshell_ios_touch_down(&slot, 1, 1, 1).is_none());
    assert!(servoshell_ios_touch_move(&slot, 1, 1, 1).is_none());
    assert!(servoshell_ios_touch_up(&slot, 1, 1, 1).is_none());
    assert!(servoshell_ios_touch_cancel(&slot, 1, 1, 1).is_none());
}

#[test]
fn shutdown_empties_the_slot() {
    let mut slot = occupied();
    let (app, calls) = servoshell_ios_shutdown(&mut slot).unwrap();
    assert_eq!(app, "app");
    assert_eq!(calls.len(), 2);
    assert!(matches!(calls[0], ShellCall::ScheduleExit));
    assert!(matches!(calls[1], ShellCall::SpinEventLoop));
    assert!(servoshell_ios_spin_event_loop(&slot).is_none());
    assert!(servoshell_ios_shutdown(&mut slot).is_none());
    slot.install("next");
    slot.install("last");
    assert_eq!(*servoshell_ios_notify_vsync(&slot).unwrap().0, "last");
}

#[test]
fn settings_request_is_taken_once() {
    let mut menu = SettingsMenu::default();
    assert!(!take_settings_request(&mut menu));
    menu.open_settings();
    menu.open_settings();
    assert!(take_settings_request(&mut menu));
    assert!(!take_settings_request(&mut menu));
    menu.open_settings();
    assert!(take_settings_request(&mut menu));
}

#[test]
fn settings_item_is_inserted_below_about() {
    let mut menu = SettingsMenu::default();
    let insertions = match install_settings_item(&mut menu, true, true) {
        Installation::Insert(insertions) => insertions,
        _ => panic!("nothing to insert"),
    };
    let mut titles = vec!["About", "-", "Services", "Quit"];
    for insertion in &insertions {
        match &insertion.entry {
            MenuEntry::Separator => titles.insert(insertion.index, "-"),
            MenuEntry::Item { title, action, key_equivalent } => {
                assert_eq!(action, "smbOpenSettings:");
                assert_eq!(key_equivalent, ",");
                titles.insert(insertion.index, title.as_str());
            }
        }
    }
    assert_eq!(titles, vec!["About", "-", "Settings…", "-", "Services", "Quit"]);
    assert!(matches!(
        install_settings_item(&mut menu, true, true),
        Installation::AlreadyDone
    ));
}

#[test]
fn settings_item_needs_the_main_thread() {
    let mut menu = SettingsMenu::default();
    assert!(matches!(
        install_settings_item(&mut menu, false, true),
        Installation::WrongThread
    ));
    assert!(matches!(
        install_settings_item(&mut menu, true, true),
        Installation::Insert(_)
    ));
}

#[test]
fn settings_item_needs_a_menu() {
    let mut menu = SettingsMenu::default();
    assert!(matches!(install_settings_item(&mut menu, true, false), Installation::NoMenu));
    assert!(matches!(
        install_settings_item(&mut menu, true, true),
        Installation::AlreadyDone
    ));
}

fn facts(profile: Option<&str>) -> SettingsFacts {
    SettingsFacts {
        engine_version: "0.0.4".to_string(),
        user_agent: "Mozilla/5.0".to_string(),
        profile_directory: profile.map(|p| p.to_string()),
        web_prefs: vec!["dom_fontface_enabled".to_string(), "dom_other".to_string()],
    }
}

fn outline(widgets: &[Widget]) -> Vec<String> {
    let mut lines = Vec::new();
    for widget in widgets {
        match widget {
            Widget::Heading(text) => lines.push(format!("# {text}")),
            Widget::Note(text) => lines.push(format!("({text})")),
            Widget::Label(text) => lines.push(text.clone()),
            Widget::Space(length) => lines.push(format!("space {length}")),
            Widget::Separator => lines.push("separator".to_string()),
            Widget::Grid(grid) => {
                lines.push(format!(
                    "grid {} {} {} {:?}",
                    grid.id, grid.columns, grid.min_col_width, grid.spacing
                ));
                for row in &grid.rows {
                    lines.push(format!("{}: {}", row.label, row.value));
                }
            }
        }
    }
    lines
}

#[test]
fn closed_window_shows_nothing() {
    let mut settings = Settings::default();
    assert!(settings.show(&facts(None)).is_none());
    settings.open();
    assert!(settings.show(&facts(None)).is_some());
    settings.set_open(false);
    assert!(settings.show(&facts(None)).is_none());
}

#[test]
fn open_window_shows_both_panels() {
    let mut settings = Settings::default();
    settings.open();
    let window = settings.show(&facts(Some("/profile"))).unwrap();
    assert_eq!(window.title, "Settings");
    assert!(!window.collapsible);
    assert_eq!(window.default_size, (560, 480));
    assert_eq!(window.min_width, 420);
    assert_eq!(
        outline(&window.body),
        vec![
            "# About",
            "(Read-only for now. Nothing on this page changes a setting.)",
            "space 8",
            "grid settings-about-grid 2 140 (16, 8)",
            "Application: smbCloud Browser",
            "Engine: Servo 0.0.4",
            "User agent: Mozilla/5.0",
            "Profile folder: /profile",
            "space 12",
            "separator",
            "space 12",
            "# Web platform",
            "(Enabled in every window, rather than left behind the experimental toggle.)",
            "space 8",
            "• FontFace",
            "• dom_other",
        ]
    );
}

#[test]
fn unknown_profile_folder_is_unavailable() {
    let panel = Settings::about_panel("1", "ua", &None);
    assert_eq!(outline(&panel).last().unwrap(), "Profile folder: Unavailable");
}

#[test]
fn preferences_have_readable_titles() {
    let titles = [
        ("dom_adoptedstylesheet_enabled", "Adopted style sheets"),
        ("dom_fontface_enabled", "FontFace"),
        ("dom_indexeddb_enabled", "IndexedDB"),
        ("dom_intersection_observer_enabled", "IntersectionObserver"),
        ("layout_container_queries_enabled", "CSS container queries"),
        ("dom_webgpu_enabled", "dom_webgpu_enabled"),
        ("", ""),
    ];
    for (pref, title) in titles {
        assert_eq!(Settings::humanize_pref(pref), title);
    }
    let row = Settings::row("a", "b");
    assert_eq!((row.label.as_str(), row.value.as_str()), ("a", "b"));
}

#[test]
fn shared_container_is_preferred() {
    let dir = model_cache_dir(Some(Some("/group")), Some("/config"));
    assert_eq!((dir.path, dir.shared), (Some("/group"), true));
    let dir = model_cache_dir(Some(None), Some("/config"));
    assert_eq!((dir.path, dir.shared), (Some("/config"), false));
    let dir = model_cache_dir(None, Some("/config"));
    assert_eq!((dir.path, dir.shared), (Some("/config"), false));
    let dir = model_cache_dir(None, None::<&str>);
    assert_eq!((dir.path, dir.shared), (None, false));
    assert_eq!(ONDE_APP_GROUP, "group.com.ondeinference.apps");
}

#[test]
fn cache_variables_point_below_the_root() {
    assert!(seed_model_cache_env(None::<&str>).is_none());
    let seed = seed_model_cache_env(Some("/group")).unwrap();
    assert_eq!(seed.root, "/group");
    assert_eq!(seed.hf_home, vec!["models"]);
    assert_eq!(seed.hf_hub_cache, vec!["models", "hub"]);
    let variables = seed.variables(true);
    assert_eq!(variables.len(), 2);
    assert_eq!(variables[0].name, "HF_HOME");
    assert_eq!(variables[0].components, vec!["models"]);
    assert_eq!(variables[1].name, "HF_HUB_CACHE");
    assert_eq!(variables[1].components, vec!["models", "hub"]);
}

#[test]
fn no_cache_variables_without_the_directory() {
    let seed = seed_model_cache_env(Some("/group")).unwrap();
    assert!(seed.variables(false).is_empty());
}

#[test]
fn choice_is_kept_in_the_config_dir() {
    assert!(selected_model_path(None::<&str>).is_none());
    let file = selected_model_path(Some("/config")).unwrap();
    assert_eq!(file.directory, "/config");
    assert_eq!(file.name, "selected-model");
    let save = SaveChoice { file, contents: "id".to_string() };
    assert_eq!(save.after_directory(true).unwrap().contents, "id");
    let file = selected_model_path(Some("/config")).unwrap();
    let save = SaveChoice { file, contents: "id".to_string() };
    assert!(save.after_directory(false).is_none());
}
