use gc_x::config::Config;
use gc_x::settings::LoadNote;
use ini::Ini;

#[test]
fn full_document_loads_every_setting() {
    let text = "[Buttons]\nA=B\nB=A\nX=Guide\nY=LS\nZ=RS\nStart=Back\n\
                [Controller]\nAutoRecenter=true\nDeadzone=12\n\
                [Application]\nCloseToTray=false\n";
    let ini = Ini::load_from_str(text).unwrap();
    let (c, notes) = Config::from_ini(&ini);
    assert_eq!(c.buttons, [1, 0, 10, 8, 9, 6]);
    assert!(c.auto_recenter);
    assert_eq!(c.deadzone, 12);
    assert!(!c.close_to_tray);
    assert!(notes.is_empty());
}

#[test]
fn empty_document_gives_defaults_and_notes() {
    let ini = Ini::load_from_str("").unwrap();
    let (c, notes) = Config::from_ini(&ini);
    assert_eq!(c.buttons, [0, 2, 1, 3, 5, 7]);
    assert!(!c.auto_recenter);
    assert_eq!(c.deadzone, 5);
    assert!(c.close_to_tray);
    assert_eq!(
        notes,
        vec![
            LoadNote::ButtonsSectionMissing,
            LoadNote::ControllerSectionMissing,
            LoadNote::ApplicationSectionMissing
        ]
    );
}

#[test]
fn invalid_and_missing_settings_keep_defaults() {
    let text = "[Buttons]\nA=Q\nX=RB\n[Controller]\nAutoRecenter=yes\nDeadzone=150\n[Application]\n";
    let ini = Ini::load_from_str(text).unwrap();
    let (c, notes) = Config::from_ini(&ini);
    assert_eq!(c.buttons, [0, 2, 5, 3, 5, 7]);
    assert!(!c.auto_recenter);
    assert_eq!(c.deadzone, 5);
    assert!(c.close_to_tray);
    assert_eq!(
        notes,
        vec![
            LoadNote::ButtonInvalid(0),
            LoadNote::ButtonMissing(1),
            LoadNote::ButtonMissing(3),
            LoadNote::ButtonMissing(4),
            LoadNote::ButtonMissing(5),
            LoadNote::AutoRecenterInvalid,
            LoadNote::DeadzoneInvalid,
            LoadNote::CloseToTrayMissing
        ]
    );
}

#[test]
fn missing_controller_keys_are_noted() {
    let ini = Ini::load_from_str("[Controller]\n[Application]\nCloseToTray=maybe\n").unwrap();
    let (_, notes) = Config::from_ini(&ini);
    assert_eq!(
        notes,
        vec![
            LoadNote::ButtonsSectionMissing,
            LoadNote::AutoRecenterMissing,
            LoadNote::DeadzoneMissing,
            LoadNote::CloseToTrayInvalid
        ]
    );
}

#[test]
fn saved_document_holds_names_and_values() {
    let mut c = Config::default();
    c.buttons[4] = 10;
    c.auto_recenter = true;
    c.deadzone = 100;
    c.close_to_tray = false;
    let ini = c.to_ini();
    assert_eq!(ini.get_from(Some("Buttons"), "A"), Some("A"));
    assert_eq!(ini.get_from(Some("Buttons"), "B"), Some("X"));
    assert_eq!(ini.get_from(Some("Buttons"), "Z"), Some("Guide"));
    assert_eq!(ini.get_from(Some("Buttons"), "Start"), Some("Start"));
    assert_eq!(ini.get_from(Some("Controller"), "AutoRecenter"), Some("true"));
    assert_eq!(ini.get_from(Some("Controller"), "Deadzone"), Some("100"));
    assert_eq!(ini.get_from(Some("Application"), "CloseToTray"), Some("false"));
}

#[test]
fn save_then_load_round_trips() {
    for deadzone in [0u8, 7, 42, 100] {
        let mut c = Config::default();
        c.buttons = [10, 9, 8, 7, 6, 5];
        c.deadzone = deadzone;
        c.auto_recenter = deadzone % 2 == 0;
        let mut text = Vec::new();
        c.to_ini().write_to(&mut text).unwrap();
        let ini = Ini::load_from_str(std::str::from_utf8(&text).unwrap()).unwrap();
        let (loaded, notes) = Config::from_ini(&ini);
        assert_eq!(loaded.buttons, c.buttons);
        assert_eq!(loaded.deadzone, c.deadzone);
        assert_eq!(loaded.auto_recenter, c.auto_recenter);
        assert_eq!(loaded.close_to_tray, c.close_to_tray);
        assert!(notes.is_empty());
    }
}
