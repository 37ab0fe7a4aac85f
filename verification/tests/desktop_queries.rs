use rinertia::device_discovery::is_touchpad_candidate;
use rinertia::focused_app::{
    find_journal_class, focus_sources, journal_step, JournalStep, JOURNAL_ATTEMPTS, is_excluded, is_kde_desktop, journal_marker, kwin_nonce,
    kwin_script, kwin_script_path, parse_active_window, parse_script_id, parse_wm_class,
    script_object_path,
};
use rinertia::natural_scroll::{
    kde_input_device_path, libinput_device_node, natural_scroll_sources, parse_gnome_natural_scroll,
    parse_kde_natural_scroll, parse_libinput_natural_scroll,
};

#[test]
fn exclusion_ignores_case() {
    let patterns = vec!["firefox".to_string(), "Kitty".to_string()];
    assert!(is_excluded("Firefox", &patterns));
    assert!(is_excluded("org.mozilla.FIREFOX", &patterns));
    assert!(is_excluded("kitty", &patterns));
    assert!(!is_excluded("Chromium", &patterns));
    assert!(!is_excluded("Firefox", &[]));
}

#[test]
fn desktops() {
    assert!(is_kde_desktop("KDE"));
    assert!(is_kde_desktop("plasma:wayland"));
    assert!(!is_kde_desktop("GNOME"));
    assert_eq!(focus_sources("KDE", true), (true, true));
    assert_eq!(focus_sources("sway", false), (false, false));
    assert_eq!(natural_scroll_sources("ubuntu:GNOME"), (false, true));
    assert_eq!(natural_scroll_sources("KDE"), (true, false));
}

#[test]
fn kwin_bridge_texts() {
    let nonce = kwin_nonce(1234, 987654321000);
    assert_eq!(nonce, "1234_987654321000");
    assert_eq!(kwin_nonce(0, 7), "0_7");
    assert_eq!(
        kwin_script_path("/run/user/1000", &nonce),
        "/run/user/1000/rinertia-focused-app-1234_987654321000.js"
    );
    let template = "var w = workspace.activeWindow;\nprint(\"RINERTIA_AW {NONCE} \" + (w ? w.resourceClass : \"null\"));\n";
    assert_eq!(kwin_script("9_9"), template.replace("{NONCE}", "9_9"));
    assert_eq!(parse_script_id("i 3\n").as_deref(), Some("3"));
    assert_eq!(parse_script_id("i\n"), None);
    assert_eq!(script_object_path("3"), "/Scripting/Script3");
    assert_eq!(journal_marker("1_2"), "RINERTIA_AW 1_2 ");
}

#[test]
fn journal_reading() {
    let marker = "RINERTIA_AW 1_2 ";
    let out = "kwin: started\nRINERTIA_AW 1_2 firefox\nRINERTIA_AW 1_2  org.kde.konsole \r\nother\n";
    assert_eq!(find_journal_class(out, marker), Some(Some("org.kde.konsole".to_string())));
    assert_eq!(find_journal_class("RINERTIA_AW 1_2 null\n", marker), Some(None));
    assert_eq!(find_journal_class("RINERTIA_AW 1_2 \n", marker), Some(None));
    assert_eq!(find_journal_class("RINERTIA_AW 9_9 firefox\n", marker), None);
    assert_eq!(find_journal_class("", marker), None);
}

#[test]
fn xprop_reading() {
    assert_eq!(
        parse_active_window("_NET_ACTIVE_WINDOW(WINDOW): window id # 0x3a00007\n").as_deref(),
        Some("0x3a00007")
    );
    assert_eq!(parse_active_window("_NET_ACTIVE_WINDOW(WINDOW): window id # 0x0\n"), None);
    assert_eq!(
        parse_wm_class("WM_CLASS(STRING) = \"Navigator\", \"firefox\"\n").as_deref(),
        Some("firefox")
    );
    assert_eq!(parse_wm_class("WM_CLASS:  not found.\n"), None);
    assert_eq!(parse_wm_class("a\"b").as_deref(), Some("a"));
}

#[test]
fn natural_scroll_answers() {
    assert_eq!(parse_kde_natural_scroll("b true\n"), Some(true));
    assert_eq!(parse_kde_natural_scroll("b false\n"), Some(false));
    assert_eq!(parse_kde_natural_scroll("Failed to get property\n"), None);
    assert_eq!(parse_gnome_natural_scroll("true\n"), Some(true));
    assert_eq!(parse_gnome_natural_scroll(" false "), Some(false));
    assert_eq!(parse_gnome_natural_scroll("'true'"), None);
    assert_eq!(kde_input_device_path("event5"), "/org/kde/KWin/InputDevice/event5");
    assert_eq!(libinput_device_node("event5"), "/dev/input/event5");
}

#[test]
fn libinput_listing() {
    let out = "Device:           ELAN Touchpad\nKernel:           /dev/input/event5\nTap-to-click:     disabled\nNat.scrolling:    enabled\n\nDevice:           USB Mouse\nKernel:           /dev/input/event7\nNat.scrolling:    disabled\n";
    assert_eq!(parse_libinput_natural_scroll(out, "event5"), Some(true));
    assert_eq!(parse_libinput_natural_scroll(out, "event7"), Some(false));
    assert_eq!(parse_libinput_natural_scroll(out, "event9"), None);
    let no_setting = "Kernel:  /dev/input/event5\nTap:  on\nDevice:  Other\nNat.scrolling: enabled\n";
    assert_eq!(parse_libinput_natural_scroll(no_setting, "event5"), None);
}

#[test]
fn touchpad_choice() {
    assert!(is_touchpad_candidate(Some("ELAN Touchpad"), true, true, None));
    assert!(is_touchpad_candidate(Some("ELAN Touchpad"), true, true, Some("ELAN")));
    assert!(!is_touchpad_candidate(Some("SYNA Touchpad"), true, true, Some("ELAN")));
    assert!(!is_touchpad_candidate(Some("USB Mouse"), false, false, None));
    assert!(!is_touchpad_candidate(None, true, true, Some("ELAN")));
}

#[test]
fn journal_retry_policy() {
    let marker = "RINERTIA_AW 1_2 ";
    assert_eq!(journal_step(0, "nothing yet\n", marker), JournalStep::Retry);
    assert_eq!(journal_step(3, "nothing yet\n", marker), JournalStep::Retry);
    assert_eq!(journal_step(JOURNAL_ATTEMPTS - 1, "nothing yet\n", marker), JournalStep::GiveUp);
    assert_eq!(
        journal_step(4, "RINERTIA_AW 1_2 kitty\n", marker),
        JournalStep::Found(Some("kitty".to_string()))
    );
    assert_eq!(journal_step(0, "RINERTIA_AW 1_2 null\n", marker), JournalStep::Found(None));
}
