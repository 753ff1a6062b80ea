use capture_core::enumerate::{
    background_process, capturable, enumerate_capture_targets, host_process,
    is_capturable_window, list_window, listed_title, monitor_target, window_target,
    MonitorObservation, WindowFacts, WindowObservation, WS_EX_APPWINDOW, WS_EX_TOOLWINDOW,
};
use capture_core::error::CaptureError;
use capture_core::thumbnail::WindowRect;

fn plain() -> WindowFacts {
    WindowFacts { visible: true, cloaked: Some(0), extended_style: 0 }
}

fn window(handle: isize, title: &str, process_name: &str) -> WindowObservation {
    WindowObservation {
        handle,
        title: title.to_string(),
        process_name: process_name.to_string(),
        process_id: 4000 + handle as u32,
        facts: plain(),
        minimized: false,
        rect: Some(WindowRect { left: 0, top: 0, right: 1280, bottom: 720 }),
        thumbnail_jpeg: Some(b"foo".to_vec()),
    }
}

fn monitor(name: Option<&str>, width: u32, height: u32) -> MonitorObservation {
    MonitorObservation {
        device_name: name.map(|n| n.to_string()),
        width: Some(width),
        height: Some(height),
        thumbnail_jpeg: Some(b"fo".to_vec()),
    }
}

#[test]
fn ordinary_windows_are_capturable() {
    assert!(is_capturable_window(&plain(), "notepad.exe"));
    assert!(is_capturable_window(&plain(), ""));
    assert!(capturable(&plain(), "notepad.exe"));
}

#[test]
fn invisible_windows_are_not_capturable() {
    let facts = WindowFacts { visible: false, ..plain() };
    assert!(!is_capturable_window(&facts, "notepad.exe"));
}

#[test]
fn cloaked_windows_are_not_capturable() {
    for value in [1u32, 2, 4, u32::MAX] {
        let facts = WindowFacts { cloaked: Some(value), ..plain() };
        assert!(!is_capturable_window(&facts, "ApplicationFrameHost.exe"));
    }
}

#[test]
fn an_unreadable_cloak_attribute_does_not_hide_a_window() {
    let facts = WindowFacts { cloaked: None, ..plain() };
    assert!(is_capturable_window(&facts, "notepad.exe"));
}

#[test]
fn bare_tool_windows_are_not_capturable() {
    let tool = WindowFacts { extended_style: WS_EX_TOOLWINDOW, ..plain() };
    assert!(!is_capturable_window(&tool, "notepad.exe"));
    let tool_and_more = WindowFacts { extended_style: WS_EX_TOOLWINDOW | 0x0000_0008, ..plain() };
    assert!(!is_capturable_window(&tool_and_more, "notepad.exe"));
}

#[test]
fn tool_windows_forced_onto_the_task_bar_are_capturable() {
    let both = WindowFacts { extended_style: WS_EX_TOOLWINDOW | WS_EX_APPWINDOW, ..plain() };
    assert!(is_capturable_window(&both, "notepad.exe"));
    let app_only = WindowFacts { extended_style: WS_EX_APPWINDOW, ..plain() };
    assert!(is_capturable_window(&app_only, "notepad.exe"));
    assert_eq!(WS_EX_TOOLWINDOW, 0x80);
    assert_eq!(WS_EX_APPWINDOW, 0x40000);
}

#[test]
fn background_processes_are_not_capturable_in_any_case() {
    for name in [
        "textinputhost.exe",
        "TextInputHost.exe",
        "SearchHost.exe",
        "ShellExperienceHost.exe",
        "StartMenuExperienceHost.exe",
        "LockApp.exe",
        "Widgets.exe",
        "GameBar.exe",
        "GameBarFTServer.exe",
        "ms-teams.exe",
        "MSTEAMS.EXE",
    ] {
        let expected = name != "ms-teams.exe";
        assert_eq!(!is_capturable_window(&plain(), name), expected, "{}", name);
    }
}

#[test]
fn the_background_list_matches_whole_names_in_lower_case() {
    assert!(background_process("widgets.exe"));
    assert!(background_process("msteams.exe"));
    assert!(!background_process("Widgets.exe"));
    assert!(!background_process("widgets.exe "));
    assert!(!background_process("mywidgets.exe"));
    assert!(!background_process("widgets"));
    assert!(!background_process(""));
    // the lower-case form is the caller's business
    assert!(capturable(&plain(), "Widgets.exe"));
    assert!(!capturable(&plain(), "widgets.exe"));
}

#[test]
fn the_application_itself_is_recognised() {
    assert!(host_process("nexus.exe"));
    assert!(host_process("my-nexus-helper.exe"));
    assert!(host_process("nexus"));
    assert!(!host_process("nexu.exe"));
    assert!(!host_process("n-exus.exe"));
    assert!(!host_process(""));
    assert!(!host_process("Nexus.exe"));
}

#[test]
fn titles_that_are_listed() {
    assert!(listed_title("Untitled - Notepad"));
    assert!(listed_title("program manager"));
    assert!(listed_title(" "));
    assert!(!listed_title(""));
    assert!(!listed_title("Program Manager"));
}

#[test]
fn own_windows_are_not_listed_whatever_the_case() {
    assert!(!list_window(&window(1, "Nexus", "Nexus.exe")));
    assert!(!list_window(&window(1, "Nexus", "NEXUS.EXE")));
    assert!(!list_window(&window(1, "Nexus", "nexus")));
    assert!(!list_window(&window(1, "Helper", "C:\\Apps\\NeXuS Helper.exe")));
    assert!(list_window(&window(1, "Nexus docs", "notepad.exe")));
}

#[test]
fn windows_without_title_and_the_shell_are_not_listed() {
    assert!(!list_window(&window(1, "", "notepad.exe")));
    assert!(!list_window(&window(1, "Program Manager", "explorer.exe")));
    assert!(list_window(&window(1, "Downloads", "explorer.exe")));
}

#[test]
fn a_window_target_carries_what_was_seen() {
    let target = window_target(&window(42, "Untitled - Notepad", "Notepad.exe"));
    assert_eq!(target.id, "window:42");
    assert_eq!(target.title, "Untitled - Notepad");
    assert_eq!(target.target_type, "window");
    assert_eq!(target.process_name, "Notepad.exe");
    assert_eq!(target.process_id, 4042);
    assert_eq!(target.width, 1280);
    assert_eq!(target.height, 720);
    assert_eq!(target.thumbnail, "Zm9v");
}

#[test]
fn a_window_whose_thumbnail_failed_is_listed_without_one() {
    let mut w = window(42, "Untitled - Notepad", "Notepad.exe");
    w.thumbnail_jpeg = None;
    let target = window_target(&w);
    assert_eq!(target.thumbnail, "");
    assert_eq!((target.width, target.height), (1280, 720));
    assert!(list_window(&w));
}

#[test]
fn a_minimized_window_is_listed_without_size_and_thumbnail() {
    let mut w = window(42, "Untitled - Notepad", "Notepad.exe");
    w.minimized = true;
    let target = window_target(&w);
    assert_eq!(target.thumbnail, "");
    assert_eq!((target.width, target.height), (0, 0));
    w.minimized = false;
    w.rect = None;
    let target = window_target(&w);
    assert_eq!(target.thumbnail, "");
    assert_eq!((target.width, target.height), (0, 0));
}

#[test]
fn a_tiny_window_is_listed_with_its_size_and_no_thumbnail() {
    let mut w = window(42, "Tip", "app.exe");
    w.rect = Some(WindowRect { left: 10, top: 10, right: 15, bottom: 400 });
    let target = window_target(&w);
    assert_eq!((target.width, target.height), (5, 390));
    assert_eq!(target.thumbnail, "");
}

#[test]
fn a_monitor_target_is_numbered_from_one() {
    let target = monitor_target(0, &monitor(Some("\\\\.\\DISPLAY1"), 2560, 1440));
    assert_eq!(target.id, "monitor:0");
    assert_eq!(target.title, "\u{753b}\u{9762} 1 (\\\\.\\DISPLAY1)");
    assert_eq!(target.target_type, "monitor");
    assert_eq!(target.process_name, "");
    assert_eq!(target.process_id, 0);
    assert_eq!(target.width, 2560);
    assert_eq!(target.height, 1440);
    assert_eq!(target.thumbnail, "Zm8=");
}

#[test]
fn a_monitor_without_device_name_gets_a_stand_in() {
    let mut m = monitor(None, 1920, 1080);
    m.width = None;
    m.height = None;
    m.thumbnail_jpeg = None;
    let target = monitor_target(11, &m);
    assert_eq!(target.id, "monitor:11");
    assert_eq!(
        target.title,
        "\u{753b}\u{9762} 12 (\u{30c7}\u{30a3}\u{30b9}\u{30d7}\u{30ec}\u{30a4} 12)"
    );
    assert_eq!((target.width, target.height), (0, 0));
    assert_eq!(target.thumbnail, "");
}

#[test]
fn enumeration_lists_windows_then_monitors() {
    let mut cloaked = window(3, "Settings", "SystemSettings.exe");
    cloaked.facts.cloaked = Some(2);
    let mut tool = window(4, "Palette", "paint.exe");
    tool.facts.extended_style = WS_EX_TOOLWINDOW;
    let mut hidden = window(5, "Hidden", "paint.exe");
    hidden.facts.visible = false;
    let windows = vec![
        window(1, "Untitled - Notepad", "notepad.exe"),
        window(2, "Nexus", "Nexus.exe"),
        cloaked,
        tool,
        hidden,
        window(6, "", "ghost.exe"),
        window(7, "Program Manager", "explorer.exe"),
        window(8, "Search", "SearchHost.exe"),
        window(9, "Paint", "paint.exe"),
    ];
    let monitors = vec![monitor(Some("A"), 1920, 1080), monitor(None, 1280, 1024)];
    let targets = enumerate_capture_targets(true, &windows, &monitors).unwrap();
    let ids: Vec<&str> = targets.iter().map(|t| t.id.as_str()).collect();
    assert_eq!(ids, vec!["window:1", "window:9", "monitor:0", "monitor:1"]);
    let kinds: Vec<&str> = targets.iter().map(|t| t.target_type.as_str()).collect();
    assert_eq!(kinds, vec!["window", "window", "monitor", "monitor"]);
    assert_eq!(targets[1].title, "Paint");
    assert_eq!(targets[1].process_id, 4009);
    assert_eq!(targets[3].title, "\u{753b}\u{9762} 2 (\u{30c7}\u{30a3}\u{30b9}\u{30d7}\u{30ec}\u{30a4} 2)");
    for target in &targets {
        assert!(!target.process_name.to_lowercase().contains("nexus"));
    }
}

#[test]
fn enumeration_of_nothing_is_empty() {
    let targets = enumerate_capture_targets(true, &Vec::new(), &Vec::new()).unwrap();
    assert!(targets.is_empty());
}

#[test]
fn enumeration_fails_without_native_capture() {
    let windows = vec![window(1, "Untitled - Notepad", "notepad.exe")];
    let monitors = vec![monitor(Some("A"), 1920, 1080)];
    match enumerate_capture_targets(false, &windows, &monitors) {
        Err(e) => assert_eq!(e, CaptureError::PlatformUnsupported),
        Ok(_) => panic!("listed targets without native capture"),
    }
}
