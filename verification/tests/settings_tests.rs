use rust_rpc::autorun::{
    autorun_change, autorun_key_get, autostart_change, program_key_get, reg_init_check, AutorunAction,
    AUTOSTART_SUB_KEY, PROGRAM_KEY_NAME,
};
use rust_rpc::json_animation::{custom_animation_path, CustomAnimation, CustomAnimations};
use rust_rpc::tray::{
    animation_id_setting, app_id_setting, menu_commands, startup_commands, MenuEntry, TrayCommand,
    DEFAULT_APP_ID,
};

#[test]
fn registry_paths() {
    assert_eq!(autorun_key_get(), vec!["Software", "Microsoft", "Windows", "CurrentVersion", "Run"]);
    assert_eq!(program_key_get(), vec!["Software", "Koliy82RPC"]);
    assert_eq!(PROGRAM_KEY_NAME, "Koliy82RPC");
    assert_eq!(AUTOSTART_SUB_KEY, "autostart");
}

#[test]
fn autostart_toggles_and_initialises() {
    let u = autostart_change(Some("true"));
    assert_eq!(u.value, "false");
    assert!(u.toggled);
    let u = autostart_change(Some("false"));
    assert_eq!(u.value, "true");
    assert!(u.toggled);
    let u = autostart_change(None);
    assert_eq!(u.value, "false");
    assert!(!u.toggled);
    let twice = autostart_change(Some(&autostart_change(Some("true")).value)).value;
    assert_eq!(twice, "true");
}

#[test]
fn autorun_follows_the_wish() {
    assert_eq!(autorun_change(false, Some(true)), AutorunAction::Disable);
    assert_eq!(autorun_change(false, None), AutorunAction::Disable);
    assert_eq!(autorun_change(true, Some(true)), AutorunAction::KeepEnabled);
    assert_eq!(autorun_change(true, Some(false)), AutorunAction::Enable);
    assert_eq!(autorun_change(true, None), AutorunAction::Enable);
}

#[test]
fn start_up_check_reads_both_settings() {
    let c = reg_init_check(Some(true), Some("C:\\rpc.exe"), "C:\\rpc.exe", Some("true"));
    assert!(c.is_autorun && c.is_starting && !c.refresh_autorun && c.autostart_default.is_none());
    let c = reg_init_check(Some(false), Some("C:\\old.exe"), "C:\\rpc.exe", Some("false"));
    assert!(!c.is_autorun && !c.is_starting && c.refresh_autorun);
    let c = reg_init_check(None, Some("C:\\old.exe"), "C:\\rpc.exe", None);
    assert!(!c.is_autorun && !c.is_starting && !c.refresh_autorun);
    assert_eq!(c.autostart_default.as_deref(), Some("false"));
    let c = reg_init_check(Some(true), None, "C:\\rpc.exe", Some("false"));
    assert!(c.is_autorun && !c.refresh_autorun);
}

#[test]
fn settings_from_the_environment() {
    assert_eq!(app_id_setting(None), DEFAULT_APP_ID);
    assert_eq!(app_id_setting(None), 1225132045596885105);
    assert_eq!(app_id_setting(Some("42")), 42);
    assert_eq!(animation_id_setting(None), 1);
    assert_eq!(animation_id_setting(Some("-3")), -3);
}

#[test]
fn menu_clicks() {
    assert_eq!(
        menu_commands(MenuEntry::Enable, true, false, Some("2")),
        vec![TrayCommand::ChangeAutostart, TrayCommand::StartAnimation(2)]
    );
    assert_eq!(
        menu_commands(MenuEntry::Enable, true, false, None),
        vec![TrayCommand::ChangeAutostart, TrayCommand::StartAnimation(1)]
    );
    assert_eq!(
        menu_commands(MenuEntry::Enable, false, true, Some("not read")),
        vec![TrayCommand::ChangeAutostart, TrayCommand::StopAnimation]
    );
    assert_eq!(menu_commands(MenuEntry::Autorun, false, true, None), vec![TrayCommand::SetAutorun(true)]);
    assert_eq!(menu_commands(MenuEntry::Quit, true, true, None), vec![TrayCommand::Exit]);
    assert_eq!(menu_commands(MenuEntry::Other, true, true, None), vec![]);
    assert_eq!(startup_commands(true, Some("3")), vec![TrayCommand::StartAnimation(3)]);
    assert_eq!(startup_commands(false, Some("x")), vec![]);
}

#[test]
fn custom_animation_file_names() {
    assert_eq!(custom_animation_path(None), "custom_animation.json");
    assert_eq!(custom_animation_path(Some("mine")), "mine.json");
}

fn named(d: &str) -> CustomAnimation {
    CustomAnimation {
        details: Some(d.to_string()),
        state: None,
        large_image_text: None,
        large_image_key: None,
        small_image_text: None,
        small_image_key: None,
    }
}

#[test]
fn playlist_keeps_order_unless_randomized() {
    let names = ["a", "b", "c", "d", "e", "f", "g", "h"];
    let anims = CustomAnimations { randomize: None, animations: names.iter().map(|n| named(n)).collect() };
    let list: Vec<String> = anims.playlist().into_iter().map(|a| a.details.unwrap()).collect();
    assert_eq!(list, names);
    let mut seen_other_order = false;
    for _ in 0..50 {
        let anims =
            CustomAnimations { randomize: Some(true), animations: names.iter().map(|n| named(n)).collect() };
        let list: Vec<String> = anims.playlist().into_iter().map(|a| a.details.unwrap()).collect();
        let mut sorted = list.clone();
        sorted.sort();
        assert_eq!(sorted, names);
        if list != names {
            seen_other_order = true;
        }
    }
    assert!(seen_other_order);
}

#[test]
fn custom_frame_fills_in_defaults() {
    let a = named("x");
    let f = a.frame(7);
    assert_eq!(f.details, "x");
    assert_eq!(f.state, "custom_animation_state");
    assert_eq!(f.start_timestamp, Some(7));
}
