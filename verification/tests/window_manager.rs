use securelock::window_manager::{
    enforce_focus, enforcement_sweep, enumerate_window_handles, enumerate_windows, hide_other_windows, process_name_from_path, restore_windows,
    should_hide_window, toggle_desktop, DesktopAction, DesktopClass, FocusAction, ForegroundWindow, SavedWindowState,
    WindowCandidate, WindowInfo, WS_CAPTION, WS_VISIBLE,
};
use std::collections::HashMap;

fn win(hwnd: isize, title: &str, process: &str, class: &str) -> WindowInfo {
    WindowInfo {
        hwnd,
        title: title.to_string(),
        process_name: process.to_string(),
        class_name: class.to_string(),
    }
}

fn candidate(hwnd: isize, visible: bool, style: u32, title: &str) -> WindowCandidate {
    WindowCandidate {
        hwnd,
        visible,
        title_len: title.encode_utf16().count() as i32,
        style,
        title: title.to_string(),
        process_name: "app.exe".to_string(),
        class_name: "AppClass".to_string(),
    }
}

#[test]
fn listing_keeps_visible_titled_captioned_windows() {
    let style = WS_VISIBLE | WS_CAPTION;
    let cs = vec![
        candidate(1, true, style, "Editor"),
        candidate(2, false, style, "Hidden"),
        candidate(3, true, style, ""),
        candidate(4, true, WS_VISIBLE, "No caption"),
        candidate(5, true, WS_CAPTION, "No visible style"),
        candidate(6, true, style, "SecureLock"),
        candidate(7, true, WS_VISIBLE | 0x0040_0000, "Dialog frame only"),
        candidate(8, true, style, "SecureLock settings"),
    ];
    let ws = enumerate_windows(&cs);
    let hs: Vec<isize> = ws.iter().map(|w| w.hwnd).collect();
    assert_eq!(hs, vec![1, 7, 8]);
    assert_eq!(ws[0].title, "Editor");
    assert_eq!(ws[0].process_name, "app.exe");
    assert_eq!(ws[0].class_name, "AppClass");
}

#[test]
fn process_name_is_the_image_file_name() {
    assert_eq!(process_name_from_path(Some("C:\\Windows\\explorer.exe")), "explorer.exe");
    assert_eq!(process_name_from_path(Some("notepad.exe")), "notepad.exe");
    assert_eq!(process_name_from_path(Some("C:\\dir\\")), "");
    assert_eq!(process_name_from_path(Some("")), "");
    assert_eq!(process_name_from_path(None), "unknown");
}

#[test]
fn shell_windows_are_spared_whatever_their_case() {
    let allowed = [10isize];
    assert!(!should_hide_window(&win(1, "Taskbar", "EXPLORER.EXE", "Shell_TrayWnd"), &allowed));
    assert!(should_hide_window(&win(2, "Documents", "Explorer.exe", "CabinetWClass"), &allowed));
    assert!(should_hide_window(&win(3, "Old explorer", "explorer.exe", "ExploreWClass"), &allowed));
    assert!(!should_hide_window(&win(4, "Search", "SearchHost.exe", "Windows.UI.Core.CoreWindow"), &allowed));
    assert!(!should_hide_window(&win(5, "Search", "SearchApp.exe", "X"), &allowed));
    assert!(!should_hide_window(&win(6, "Start", "ShellExperienceHost.exe", "X"), &allowed));
    assert!(!should_hide_window(&win(7, "IME", "TextInputHost.exe", "X"), &allowed));
    assert!(should_hide_window(&win(8, "Browser", "firefox.exe", "MozillaWindowClass"), &allowed));
    assert!(!should_hide_window(&win(10, "Browser", "firefox.exe", "MozillaWindowClass"), &allowed));
    assert!(!should_hide_window(&win(9, "SecureLock", "securelock.exe", "X"), &allowed));
    assert!(!should_hide_window(&win(11, "About SecureLock 1.0", "other.exe", "X"), &allowed));
    // Names are compared lower-cased.
    assert!(!should_hide_window(&win(14, "Search", "SeArChApP.ExE", "X"), &allowed));
    assert!(!should_hide_window(&win(12, "Search", "SEARCHHOST.EXE", "X"), &allowed));
    assert!(should_hide_window(&win(13, "Doc", "EXPLORER.EXE", "CABINETWCLASS"), &allowed));
}

#[test]
fn hiding_remembers_exactly_the_minimized_windows() {
    let windows = vec![
        win(1, "Browser", "firefox.exe", "MozillaWindowClass"),
        win(2, "Allowed", "code.exe", "Chrome_WidgetWin_1"),
        win(3, "Taskbar", "explorer.exe", "Shell_TrayWnd"),
        win(4, "Mail", "outlook.exe", "rctrl_renwnd32"),
    ];
    let mut saved: HashMap<isize, SavedWindowState> = HashMap::new();
    saved.insert(99, SavedWindowState { hwnd: 99 });
    let hs = hide_other_windows(&windows, &[2], &mut saved);
    assert_eq!(hs, vec![1, 4]);
    assert_eq!(saved.len(), 2);
    assert_eq!(saved.get(&1).map(|s| s.hwnd), Some(1));
    assert_eq!(saved.get(&4).map(|s| s.hwnd), Some(4));
    assert_eq!(enforcement_sweep(&windows, &[2]), hs);

    let mut restored = restore_windows(&mut saved);
    restored.sort();
    assert_eq!(restored, vec![1, 4]);
    assert!(saved.is_empty());
    assert!(restore_windows(&mut saved).is_empty());
}

fn fg(hwnd: isize, title: &str, class: &str, process: &str) -> ForegroundWindow {
    ForegroundWindow {
        hwnd,
        title: title.to_string(),
        class_name: class.to_string(),
        process_name: process.to_string(),
    }
}

#[test]
fn focus_is_taken_back_from_foreign_windows() {
    let allowed = [20isize, 30];
    assert_eq!(enforce_focus(&allowed, &fg(0, "", "", "")), FocusAction::Keep);
    assert_eq!(enforce_focus(&allowed, &fg(30, "Allowed", "C", "a.exe")), FocusAction::Keep);
    assert_eq!(enforce_focus(&allowed, &fg(5, "SecureLock", "C", "securelock.exe")), FocusAction::Keep);
    assert_eq!(enforce_focus(&allowed, &fg(6, "Start", "Windows.UI.Core.CoreWindow", "StartMenuExperienceHost.exe")),
        FocusAction::Reclaim { minimize: 6, bring_back: Some(20) });
    assert_eq!(enforce_focus(&allowed, &fg(7, "Taskbar", "Shell_TrayWnd", "Explorer.EXE")), FocusAction::Keep);
    assert_eq!(enforce_focus(&allowed, &fg(8, "", "Progman", "explorer.exe")),
        FocusAction::Reclaim { minimize: 8, bring_back: Some(20) });
    assert_eq!(enforce_focus(&allowed, &fg(9, "", "WorkerW", "explorer.exe")),
        FocusAction::Reclaim { minimize: 9, bring_back: Some(20) });
    assert_eq!(enforce_focus(&allowed, &fg(10, "Docs", "CabinetWClass", "explorer.exe")),
        FocusAction::Reclaim { minimize: 10, bring_back: Some(20) });
    assert_eq!(enforce_focus(&allowed, &fg(11, "IME", "X", "TextInputHost.exe")), FocusAction::Keep);
    assert_eq!(enforce_focus(&[], &fg(12, "Game", "X", "game.exe")),
        FocusAction::Reclaim { minimize: 12, bring_back: None });
}

/// Runs the desktop toggle against a pretend desktop and records what it does.
fn run_toggle(show: bool, find: impl Fn(&DesktopAction) -> isize) -> Vec<DesktopAction> {
    let mut machine = toggle_desktop(show);
    let mut reply = 0;
    let mut done = Vec::new();
    loop {
        let action = machine.next(reply);
        done.push(action);
        match action {
            DesktopAction::Done => break,
            DesktopAction::FindTopLevel { .. } | DesktopAction::FindChild { .. } => reply = find(&action),
            _ => reply = 0,
        }
        assert!(done.len() < 100);
    }
    done
}

#[test]
fn desktop_view_found_under_progman() {
    let actions = run_toggle(false, |a| match a {
        DesktopAction::FindTopLevel { class: DesktopClass::Progman } => 100,
        DesktopAction::FindChild { parent: 100, class: DesktopClass::ShellDefView, .. } => 200,
        DesktopAction::FindChild { parent: 200, class: DesktopClass::SysListView32, folder_view: true, .. } => 300,
        DesktopAction::FindTopLevel { class: DesktopClass::ShellTrayWnd } => 400,
        _ => 0,
    });
    assert_eq!(
        actions,
        vec![
            DesktopAction::FindTopLevel { class: DesktopClass::Progman },
            DesktopAction::FindChild { parent: 100, after: 0, class: DesktopClass::ShellDefView, folder_view: false },
            DesktopAction::FindChild { parent: 200, after: 0, class: DesktopClass::SysListView32, folder_view: true },
            DesktopAction::Show { hwnd: 300, show: false },
            DesktopAction::Enable { hwnd: 200, enable: false },
            DesktopAction::FindTopLevel { class: DesktopClass::ShellTrayWnd },
            DesktopAction::Enable { hwnd: 400, enable: false },
            DesktopAction::Done,
        ]
    );
}

#[test]
fn desktop_view_found_under_second_worker() {
    let actions = run_toggle(true, |a| match a {
        DesktopAction::FindTopLevel { class: DesktopClass::Progman } => 100,
        DesktopAction::FindTopLevel { class: DesktopClass::WorkerW } => 501,
        DesktopAction::FindChild { parent: 0, after: 501, class: DesktopClass::WorkerW, .. } => 502,
        DesktopAction::FindChild { parent: 502, class: DesktopClass::ShellDefView, .. } => 600,
        _ => 0,
    });
    assert_eq!(
        actions,
        vec![
            DesktopAction::FindTopLevel { class: DesktopClass::Progman },
            DesktopAction::FindChild { parent: 100, after: 0, class: DesktopClass::ShellDefView, folder_view: false },
            DesktopAction::FindTopLevel { class: DesktopClass::WorkerW },
            DesktopAction::FindChild { parent: 501, after: 0, class: DesktopClass::ShellDefView, folder_view: false },
            DesktopAction::FindChild { parent: 0, after: 501, class: DesktopClass::WorkerW, folder_view: false },
            DesktopAction::FindChild { parent: 502, after: 0, class: DesktopClass::ShellDefView, folder_view: false },
            DesktopAction::FindChild { parent: 0, after: 502, class: DesktopClass::WorkerW, folder_view: false },
            DesktopAction::FindChild { parent: 600, after: 0, class: DesktopClass::SysListView32, folder_view: true },
            DesktopAction::Enable { hwnd: 600, enable: true },
            DesktopAction::FindTopLevel { class: DesktopClass::ShellTrayWnd },
            DesktopAction::Done,
        ]
    );
}

#[test]
fn no_desktop_found_only_touches_taskbar() {
    let actions = run_toggle(false, |a| match a {
        DesktopAction::FindTopLevel { class: DesktopClass::ShellTrayWnd } => 7,
        _ => 0,
    });
    assert_eq!(
        actions,
        vec![
            DesktopAction::FindTopLevel { class: DesktopClass::Progman },
            DesktopAction::FindTopLevel { class: DesktopClass::WorkerW },
            DesktopAction::FindTopLevel { class: DesktopClass::ShellTrayWnd },
            DesktopAction::Enable { hwnd: 7, enable: false },
            DesktopAction::Done,
        ]
    );
}

#[test]
fn window_handles_in_listing_order() {
    let ws = vec![win(3, "a", "a.exe", "A"), win(1, "b", "b.exe", "B")];
    assert_eq!(enumerate_window_handles(&ws), vec![3, 1]);
    assert!(enumerate_window_handles(&vec![]).is_empty());
}

#[test]
fn restoring_hands_out_every_entry_once() {
    let mut saved: HashMap<isize, SavedWindowState> = HashMap::new();
    saved.insert(1, SavedWindowState { hwnd: 5 });
    saved.insert(2, SavedWindowState { hwnd: 5 });
    saved.insert(3, SavedWindowState { hwnd: 7 });
    let mut restored = restore_windows(&mut saved);
    restored.sort();
    assert_eq!(restored, vec![5, 5, 7]);
    assert!(saved.is_empty());
}
