//! Window policy while a session is locked: which windows are listed to
//! the user, which are minimized and remembered for restoration, and when
//! the foreground has to be taken back for the allowed applications.
//! The operating-system calls that carry these decisions out live outside
//! the library; everything here works on plain descriptions of windows.

use crate::text::{contains_text, text_contains, text_eq, to_lowercase, unicode_lowercase};
use std::collections::HashMap;
use vstd::prelude::*;

verus! {

broadcast use vstd::std_specs::hash::group_hash_axioms;

/// The `WS_VISIBLE` window-style bit.
pub const WS_VISIBLE: u32 = 0x1000_0000;

/// The `WS_CAPTION` window-style bits (border and dialog frame).
pub const WS_CAPTION: u32 = 0x00C0_0000;

/// A visible, titled top-level window.
#[derive(Debug)]
pub struct WindowInfo {
    pub hwnd: isize,
    pub title: String,
    pub process_name: String,
    pub class_name: String,
}

impl Clone for WindowInfo {
    fn clone(&self) -> (r: Self)
        ensures
            r == *self,
    {
        WindowInfo {
            hwnd: self.hwnd,
            title: self.title.clone(),
            process_name: self.process_name.clone(),
            class_name: self.class_name.clone(),
        }
    }
}

/// What is remembered of a window that was minimized, to restore it.
#[derive(Debug, Clone, Copy)]
pub struct SavedWindowState {
    pub hwnd: isize,
}

/// What the operating system reports of a top-level window while the
/// windows are enumerated.
#[derive(Debug)]
pub struct WindowCandidate {
    pub hwnd: isize,
    pub visible: bool,
    pub title_len: i32,
    pub style: u32,
    pub title: String,
    pub process_name: String,
    pub class_name: String,
}

/// A candidate is listed when it is visible, has a caption and a title,
/// and is not SecureLock's own window.
pub open spec fn is_listed(c: WindowCandidate) -> bool {
    &&& c.visible
    &&& c.title_len != 0
    &&& c.style & WS_VISIBLE != 0
    &&& c.style & WS_CAPTION != 0
    &&& c.title@.len() != 0
    &&& c.title@ != "SecureLock"@
}

/// The listing entry of a candidate.
pub open spec fn info_of(c: WindowCandidate) -> WindowInfo {
    WindowInfo { hwnd: c.hwnd, title: c.title, process_name: c.process_name, class_name: c.class_name }
}

/// The windows listed out of `cs`, in enumeration order.
pub open spec fn listed_windows(cs: Seq<WindowCandidate>) -> Seq<WindowInfo>
    decreases cs.len(),
{
    if cs.len() == 0 {
        seq![]
    } else {
        let rest = listed_windows(cs.drop_last());
        if is_listed(cs.last()) {
            rest.push(info_of(cs.last()))
        } else {
            rest
        }
    }
}

/// Lists the visible, titled windows among the enumerated candidates, in
/// enumeration order.
pub fn enumerate_windows(candidates: &Vec<WindowCandidate>) -> (ws: Vec<WindowInfo>)
    ensures
        ws@ == listed_windows(candidates@),
{
    let mut ws: Vec<WindowInfo> = Vec::new();
    let mut i: usize = 0;
    while i < candidates.len()
        invariant
            i <= candidates@.len(),
            ws@ == listed_windows(candidates@.take(i as int)),
        decreases candidates@.len() - i,
    {
        let c = &candidates[i];
        assert(candidates@.take(i + 1).drop_last() =~= candidates@.take(i as int));
        let listed = c.visible && c.title_len != 0 && c.style & WS_VISIBLE != 0 && c.style & WS_CAPTION != 0
            && c.title.as_str().unicode_len() != 0 && !text_eq(c.title.as_str(), "SecureLock");
        if listed {
            ws.push(
                WindowInfo {
                    hwnd: c.hwnd,
                    title: c.title.clone(),
                    process_name: c.process_name.clone(),
                    class_name: c.class_name.clone(),
                },
            );
        }
        i = i + 1;
    }
    assert(candidates@.take(candidates@.len() as int) =~= candidates@);
    ws
}

/// The handles of a window listing, in order.
pub open spec fn handles_of(ws: Seq<WindowInfo>) -> Seq<isize> {
    ws.map_values(|w: WindowInfo| w.hwnd)
}

/// The handles of a window listing, in order.
pub fn enumerate_window_handles(ws: &Vec<WindowInfo>) -> (hs: Vec<isize>)
    ensures
        hs@ == handles_of(ws@),
{
    let mut hs: Vec<isize> = Vec::new();
    let mut i: usize = 0;
    while i < ws.len()
        invariant
            i <= ws@.len(),
            hs@ == handles_of(ws@.take(i as int)),
        decreases ws@.len() - i,
    {
        hs.push(ws[i].hwnd);
        assert(handles_of(ws@.take(i + 1)) =~= handles_of(ws@.take(i as int)).push(ws@[i as int].hwnd));
        i = i + 1;
    }
    assert(ws@.take(ws@.len() as int) =~= ws@);
    hs
}

/// The part of a process image path after its last backslash.
pub open spec fn base_name(path: Seq<char>) -> Seq<char>
    decreases path.len(),
{
    if path.len() == 0 {
        path
    } else if path.last() == '\\' {
        seq![]
    } else {
        base_name(path.drop_last()).push(path.last())
    }
}

/// The process name shown for a window: the file name of its process
/// image, or "unknown" when the image path could not be read.
pub open spec fn process_name_of(path: Option<Seq<char>>) -> Seq<char> {
    match path {
        Some(p) => base_name(p),
        None => "unknown"@,
    }
}

/// The file name of a process image path (what follows its last
/// backslash), or "unknown" when no path could be read.
pub fn process_name_from_path(path: Option<&str>) -> (name: String)
    ensures
        name@ == process_name_of(match path {
            Some(p) => Some(p@),
            None => None,
        }),
{
    match path {
        None => String::from_str("unknown"),
        Some(p) => {
            let n = p.unicode_len();
            let mut i = n;
            assert(p@.subrange(0, n as int) =~= p@);
            assert(base_name(p@) =~= base_name(p@.subrange(0, n as int)) + p@.subrange(n as int, n as int));
            while i > 0 && p.get_char(i - 1) != '\\'
                invariant
                    n == p@.len(),
                    i <= n,
                    base_name(p@) == base_name(p@.subrange(0, i as int)) + p@.subrange(i as int, n as int),
                decreases i,
            {
                let ghost prefix = p@.subrange(0, i as int);
                assert(prefix.drop_last() =~= p@.subrange(0, i - 1));
                assert(p@.subrange(i - 1, n as int) =~= seq![p@[i - 1]] + p@.subrange(i as int, n as int));
                assert(base_name(prefix) == base_name(prefix.drop_last()).push(prefix.last()));
                assert(base_name(p@.subrange(0, i - 1)).push(p@[i - 1]) + p@.subrange(i as int, n as int)
                    =~= base_name(p@.subrange(0, i - 1)) + p@.subrange(i - 1, n as int));
                i = i - 1;
            }
            assert(base_name(p@.subrange(0, i as int)) =~= seq![]);
            assert(p@.subrange(i as int, n as int) =~= base_name(p@));
            String::from_str(p.substring_char(i, n))
        },
    }
}

/// Windows of the desktop shell that the lock leaves alone when sweeping:
/// everything of explorer.exe but its folder windows, and the search,
/// shell-experience and text-input hosts. Names are compared lower-cased.
pub open spec fn is_shell_window(process_lower: Seq<char>, class_lower: Seq<char>) -> bool {
    if process_lower == "explorer.exe"@ {
        class_lower != "cabinetwclass"@ && class_lower != "explorewclass"@
    } else {
        process_lower == "searchapp.exe"@ || process_lower == "searchhost.exe"@
            || process_lower == "shellexperiencehost.exe"@ || process_lower == "textinputhost.exe"@
    }
}

/// A window is minimized while locked unless it is allowed, is
/// SecureLock's own, or belongs to the desktop shell.
pub open spec fn should_hide(w: WindowInfo, allowed: Seq<isize>) -> bool {
    &&& !allowed.contains(w.hwnd)
    &&& !contains_text(w.title@, "SecureLock"@)
    &&& !is_shell_window(unicode_lowercase(w.process_name@), unicode_lowercase(w.class_name@))
}

/// The handles of the windows in `ws` to minimize, in order.
pub open spec fn hide_list(ws: Seq<WindowInfo>, allowed: Seq<isize>) -> Seq<isize>
    decreases ws.len(),
{
    if ws.len() == 0 {
        seq![]
    } else {
        let rest = hide_list(ws.drop_last(), allowed);
        if should_hide(ws.last(), allowed) {
            rest.push(ws.last().hwnd)
        } else {
            rest
        }
    }
}

/// Whether `h` is among the allowed handles.
pub fn is_allowed(allowed: &[isize], h: isize) -> (r: bool)
    ensures
        r == allowed@.contains(h),
{
    let mut i: usize = 0;
    while i < allowed.len()
        invariant
            i <= allowed@.len(),
            forall|j: int| 0 <= j < i ==> allowed@[j] != h,
        decreases allowed@.len() - i,
    {
        if allowed[i] == h {
            return true;
        }
        i = i + 1;
    }
    false
}

fn is_shell_window_exec(process_lower: &str, class_lower: &str) -> (r: bool)
    ensures
        r == is_shell_window(process_lower@, class_lower@),
{
    if text_eq(process_lower, "explorer.exe") {
        !text_eq(class_lower, "cabinetwclass") && !text_eq(class_lower, "explorewclass")
    } else {
        text_eq(process_lower, "searchapp.exe") || text_eq(process_lower, "searchhost.exe")
            || text_eq(process_lower, "shellexperiencehost.exe") || text_eq(process_lower, "textinputhost.exe")
    }
}

/// Whether the lock minimizes `w`.
pub fn should_hide_window(w: &WindowInfo, allowed: &[isize]) -> (r: bool)
    ensures
        r == should_hide(*w, allowed@),
{
    if is_allowed(allowed, w.hwnd) {
        return false;
    }
    if text_contains(w.title.as_str(), "SecureLock") {
        return false;
    }
    let process_lower = to_lowercase(w.process_name.as_str());
    let class_lower = to_lowercase(w.class_name.as_str());
    !is_shell_window_exec(process_lower.as_str(), class_lower.as_str())
}

/// The windows to minimize on a sweep of the enforcement loop: those
/// among `windows` that are neither allowed, SecureLock's own, nor part of
/// the desktop shell, in enumeration order.
pub fn enforcement_sweep(windows: &Vec<WindowInfo>, allowed: &[isize]) -> (hs: Vec<isize>)
    ensures
        hs@ == hide_list(windows@, allowed@),
{
    let mut hs: Vec<isize> = Vec::new();
    let mut i: usize = 0;
    while i < windows.len()
        invariant
            i <= windows@.len(),
            hs@ == hide_list(windows@.take(i as int), allowed@),
        decreases windows@.len() - i,
    {
        assert(windows@.take(i + 1).drop_last() =~= windows@.take(i as int));
        if should_hide_window(&windows[i], allowed) {
            hs.push(windows[i].hwnd);
        }
        i = i + 1;
    }
    assert(windows@.take(windows@.len() as int) =~= windows@);
    hs
}

/// The saved states record exactly the handles in `hs`, each under its own
/// handle.
pub open spec fn saves_exactly(saved: Map<isize, SavedWindowState>, hs: Seq<isize>) -> bool {
    &&& forall|h: isize| #[trigger] saved.contains_key(h) <==> hs.contains(h)
    &&& forall|h: isize| #[trigger] saved.contains_key(h) ==> saved[h].hwnd == h
}

/// Chooses the windows to minimize when a session starts and remembers
/// them (forgetting what was remembered before). Returns their handles, in
/// enumeration order.
pub fn hide_other_windows(windows: &Vec<WindowInfo>, allowed: &[isize], saved: &mut HashMap<isize, SavedWindowState>) -> (hs: Vec<isize>)
    ensures
        hs@ == hide_list(windows@, allowed@),
        saves_exactly(final(saved)@, hs@),
{
    saved.clear();
    let hs = enforcement_sweep(windows, allowed);
    let mut i: usize = 0;
    while i < hs.len()
        invariant
            i <= hs@.len(),
            saves_exactly(saved@, hs@.take(i as int)),
        decreases hs@.len() - i,
    {
        let h = hs[i];
        saved.insert(h, SavedWindowState { hwnd: h });
        assert(hs@.take(i + 1) =~= hs@.take(i as int).push(h));
        assert forall|k: isize| #[trigger] saved@.contains_key(k) <==> hs@.take(i + 1).contains(k) by {
            vstd::seq_lib::lemma_seq_contains_after_push(hs@.take(i as int), h, k);
        }
        i = i + 1;
    }
    assert(hs@.take(hs@.len() as int) =~= hs@);
    hs
}

/// Some window remembered in `saved` has handle `h`.
pub open spec fn remembers(saved: Map<isize, SavedWindowState>, h: isize) -> bool {
    exists|k: isize| #[trigger] saved.contains_key(k) && saved[k].hwnd == h
}

/// `hs` holds the handle of each entry of `saved` exactly once, in some
/// order: the entries' keys, walked without repetition, give `hs`.
pub open spec fn walks_each_entry_once(saved: Map<isize, SavedWindowState>, hs: Seq<isize>) -> bool {
    exists|keys: Seq<isize>|
        #![trigger keys.to_set()]
        keys.len() == hs.len() && keys.no_duplicates() && keys.to_set() == saved.dom() && forall|i: int|
            0 <= i < hs.len() ==> saved.contains_key(#[trigger] keys[i]) && hs[i] == saved[keys[i]].hwnd
}

/// Hands out the windows to restore and forgets them: every remembered
/// window once, in the order the store is walked.
pub fn restore_windows(saved: &mut HashMap<isize, SavedWindowState>) -> (hs: Vec<isize>)
    ensures
        final(saved)@ == Map::<isize, SavedWindowState>::empty(),
        hs@.len() == old(saved)@.len(),
        forall|k: isize| #[trigger] old(saved)@.contains_key(k) ==> hs@.contains(old(saved)@[k].hwnd),
        forall|i: int| 0 <= i < hs@.len() ==> remembers(old(saved)@, #[trigger] hs@[i]),
        walks_each_entry_once(old(saved)@, hs@),
{
    let mut hs: Vec<isize> = Vec::new();
    let ghost m = saved@;
    let ghost items = vstd::std_specs::iter::IteratorSpec::remaining(&vstd::std_specs::hash::spec_hash_map_iter(&*saved));
    for entry in it: saved.iter()
        invariant
            it.seq() == items,
            hs@.len() == it.index(),
            forall|i: int| 0 <= i < it.index() ==> hs@[i] == (*it.seq()[i].1).hwnd,
    {
        let (_, state) = entry;
        hs.push(state.hwnd);
    }
    assert forall|k: isize| #[trigger] m.contains_key(k) implies hs@.contains(m[k].hwnd) by {
        assert(items.contains((&k, &m[k])));
        let j = choose|j: int| 0 <= j < items.len() && items[j] == (&k, &m[k]);
        assert(hs@[j] == m[k].hwnd);
    }
    assert forall|i: int| 0 <= i < hs@.len() implies remembers(m, #[trigger] hs@[i]) by {
        let k = *items[i].0;
        assert(m.contains_key(k) && m[k] == *items[i].1);
    }
    let ghost keys = items.map_values(|e: (&isize, &SavedWindowState)| *e.0);
    assert forall|k: isize| keys.to_set().contains(k) <==> m.dom().contains(k) by {
        if m.dom().contains(k) {
            assert(items.contains((&k, &m[k])));
            let j = choose|j: int| 0 <= j < items.len() && items[j] == (&k, &m[k]);
            assert(keys[j] == k);
        }
        if keys.to_set().contains(k) {
            let j = choose|j: int| 0 <= j < keys.len() && keys[j] == k;
            assert(m.contains_key(*items[j].0));
        }
    }
    assert(keys.to_set() =~= m.dom());
    proof { keys.lemma_no_dup_set_cardinality(); }
    assert forall|i: int| 0 <= i < hs@.len() implies m.contains_key(#[trigger] keys[i]) && hs@[i] == m[keys[i]].hwnd by {
        assert(m.contains_key(*items[i].0) && m[*items[i].0] == *items[i].1);
    }
    assert(walks_each_entry_once(m, hs@));
    saved.clear();
    hs
}

/// What the operating system reports of the foreground window (handle 0
/// when there is none).
#[derive(Debug)]
pub struct ForegroundWindow {
    pub hwnd: isize,
    pub title: String,
    pub class_name: String,
    pub process_name: String,
}

/// What to do about the foreground window.
#[derive(Debug, Clone, Copy, PartialEq, Eq, Structural)]
pub enum FocusAction {
    /// Leave the foreground as it is.
    Keep,
    /// Minimize `minimize` and, when there is one, maximize the first
    /// allowed window `bring_back` and give it the foreground.
    Reclaim { minimize: isize, bring_back: Option<isize> },
}

/// Windows that may hold the foreground for a moment: SecureLock's own
/// window, and the desktop shell's pop-ups (everything of explorer.exe but
/// its folder windows and the desktop itself, and the text-input, search and
/// shell-experience hosts). Names are compared lower-cased.
pub open spec fn may_hold_focus(title: Seq<char>, class_lower: Seq<char>, process_lower: Seq<char>) -> bool {
    if contains_text(title, "SecureLock"@) {
        true
    } else if process_lower == "explorer.exe"@ {
        class_lower != "cabinetwclass"@ && class_lower != "explorewclass"@ && class_lower != "progman"@
            && class_lower != "workerw"@
    } else {
        process_lower == "textinputhost.exe"@ || process_lower == "searchapp.exe"@
            || process_lower == "searchhost.exe"@ || process_lower == "shellexperiencehost.exe"@
    }
}

/// The decision on the foreground window `fg` while the windows `allowed`
/// are pinned.
pub open spec fn focus_decision(allowed: Seq<isize>, fg: ForegroundWindow) -> FocusAction {
    if fg.hwnd == 0 || allowed.contains(fg.hwnd) || may_hold_focus(
        fg.title@,
        unicode_lowercase(fg.class_name@),
        unicode_lowercase(fg.process_name@),
    ) {
        FocusAction::Keep
    } else {
        FocusAction::Reclaim {
            minimize: fg.hwnd,
            bring_back: if allowed.len() > 0 { Some(allowed[0]) } else { None },
        }
    }
}

/// Decides whether the foreground must be taken back for the allowed
/// windows: a foreign window that holds it is minimized and the first
/// allowed window brought back.
pub fn enforce_focus(allowed: &[isize], fg: &ForegroundWindow) -> (a: FocusAction)
    ensures
        a == focus_decision(allowed@, *fg),
{
    if fg.hwnd == 0 {
        return FocusAction::Keep;
    }
    if is_allowed(allowed, fg.hwnd) {
        return FocusAction::Keep;
    }
    if text_contains(fg.title.as_str(), "SecureLock") {
        return FocusAction::Keep;
    }
    let class_lower = to_lowercase(fg.class_name.as_str());
    let process_lower = to_lowercase(fg.process_name.as_str());
    let c = class_lower.as_str();
    let p = process_lower.as_str();
    let exempt = if text_eq(p, "explorer.exe") {
        !text_eq(c, "cabinetwclass") && !text_eq(c, "explorewclass") && !text_eq(c, "progman") && !text_eq(c, "workerw")
    } else {
        text_eq(p, "textinputhost.exe") || text_eq(p, "searchapp.exe") || text_eq(p, "searchhost.exe")
            || text_eq(p, "shellexperiencehost.exe")
    };
    if exempt {
        return FocusAction::Keep;
    }
    let bring_back = if allowed.len() > 0 { Some(allowed[0]) } else { None };
    FocusAction::Reclaim { minimize: fg.hwnd, bring_back }
}

/// Some window of `ws` that the lock minimizes has handle `h`.
pub open spec fn picked_from(ws: Seq<WindowInfo>, allowed: Seq<isize>, h: isize) -> bool {
    exists|j: int| 0 <= j < ws.len() && (#[trigger] ws[j]).hwnd == h && should_hide(ws[j], allowed)
}

/// The sweep never minimizes an allowed window or SecureLock's own window,
/// and every handle it picks comes from the listing.
pub proof fn law_sweep_spares_allowed_and_own(ws: Seq<WindowInfo>, allowed: Seq<isize>)
    ensures
        forall|h: isize| #[trigger] hide_list(ws, allowed).contains(h) ==> !allowed.contains(h),
        forall|i: int| 0 <= i < hide_list(ws, allowed).len() ==> picked_from(ws, allowed, #[trigger] hide_list(ws, allowed)[i]),
    decreases ws.len(),
{
    if ws.len() > 0 {
        let rest = ws.drop_last();
        law_sweep_spares_allowed_and_own(rest, allowed);
        let hl = hide_list(ws, allowed);
        let hr = hide_list(rest, allowed);
        assert forall|h: isize| #[trigger] hl.contains(h) implies !allowed.contains(h) by {
            let i = choose|i: int| 0 <= i < hl.len() && hl[i] == h;
            if i < hr.len() {
                assert(hr[i] == h);
                assert(hr.contains(h));
            }
        }
        assert forall|i: int| 0 <= i < hl.len() implies picked_from(ws, allowed, #[trigger] hl[i]) by {
            if i < hr.len() {
                assert(hl[i] == hr[i]);
                assert(picked_from(rest, allowed, hr[i]));
                let j = choose|j: int| 0 <= j < rest.len() && (#[trigger] rest[j]).hwnd == hr[i] && should_hide(rest[j], allowed);
                assert(ws[j] == rest[j]);
            } else {
                assert(ws[ws.len() - 1].hwnd == hl[i]);
            }
        }
    }
}

/// The focus guard never takes the foreground from an allowed window or
/// from SecureLock's own window, and what it brings back is the first
/// allowed window.
pub proof fn law_focus_spares_allowed_and_own(allowed: Seq<isize>, fg: ForegroundWindow)
    ensures
        allowed.contains(fg.hwnd) ==> focus_decision(allowed, fg) == FocusAction::Keep,
        contains_text(fg.title@, "SecureLock"@) ==> focus_decision(allowed, fg) == FocusAction::Keep,
        fg.hwnd == 0 ==> focus_decision(allowed, fg) == FocusAction::Keep,
        focus_decision(allowed, fg) matches FocusAction::Reclaim { minimize, bring_back } ==> {
            &&& minimize == fg.hwnd
            &&& !allowed.contains(minimize)
            &&& (allowed.len() > 0 ==> bring_back == Some(allowed[0]))
            &&& (allowed.len() == 0 ==> bring_back is None)
        },
{
}

/// The shell's pop-ups may hold the foreground: a window of the text-input
/// host, either search host or the shell-experience host (the network and
/// action-center flyouts) is left where it is, whatever else holds.
pub proof fn law_focus_spares_shell_hosts(allowed: Seq<isize>, fg: ForegroundWindow)
    ensures
        unicode_lowercase(fg.process_name@) == "textinputhost.exe"@ ==> focus_decision(allowed, fg) == FocusAction::Keep,
        unicode_lowercase(fg.process_name@) == "searchapp.exe"@ ==> focus_decision(allowed, fg) == FocusAction::Keep,
        unicode_lowercase(fg.process_name@) == "searchhost.exe"@ ==> focus_decision(allowed, fg) == FocusAction::Keep,
        unicode_lowercase(fg.process_name@) == "shellexperiencehost.exe"@ ==> focus_decision(allowed, fg) == FocusAction::Keep,
{
    reveal_strlit("explorer.exe");
    reveal_strlit("textinputhost.exe");
    reveal_strlit("searchapp.exe");
    reveal_strlit("searchhost.exe");
    reveal_strlit("shellexperiencehost.exe");
    assert("textinputhost.exe"@.len() != "explorer.exe"@.len());
    assert("searchapp.exe"@.len() != "explorer.exe"@.len());
    assert("searchhost.exe"@.len() != "explorer.exe"@.len());
    assert("shellexperiencehost.exe"@.len() != "explorer.exe"@.len());
}

/// Window classes searched for when the desktop is toggled.
#[derive(Debug, Clone, Copy, PartialEq, Eq, Structural)]
pub enum DesktopClass {
    /// "Progman", the desktop's program manager.
    Progman,
    /// "WorkerW", a desktop worker window.
    WorkerW,
    /// "SHELLDLL_DefView", the view that holds the desktop icons.
    ShellDefView,
    /// "SysListView32", the icon list itself.
    SysListView32,
    /// "Shell_TrayWnd", the taskbar.
    ShellTrayWnd,
}

/// One operating-system request of the desktop toggle.
#[derive(Debug, Clone, Copy, PartialEq, Eq, Structural)]
pub enum DesktopAction {
    /// Find a top-level window of `class` (any title); reply with its handle, or 0.
    FindTopLevel { class: DesktopClass },
    /// Find a child of `parent` (0: the desktop) of `class` following `after`
    /// (0: from the first), titled "FolderView" when `folder_view` holds,
    /// else of any title; reply with its handle, or 0.
    FindChild { parent: isize, after: isize, class: DesktopClass, folder_view: bool },
    /// Show (`show`) or hide the window `hwnd`.
    Show { hwnd: isize, show: bool },
    /// Enable (`enable`) or disable input to the window `hwnd`.
    Enable { hwnd: isize, enable: bool },
    /// Nothing is left to do.
    Done,
}

/// Where the desktop toggle stands.
#[derive(Debug, Clone, Copy, PartialEq, Eq, Structural)]
pub enum DesktopStep {
    Start,
    AwaitProgman,
    AwaitDefViewInProgman,
    AwaitFirstWorker,
    AwaitDefViewInWorker { worker: isize },
    AwaitNextWorker { def_view: isize },
    AwaitListView { def_view: isize },
    AfterListViewShown { def_view: isize },
    AfterDefViewEnabled,
    AwaitTaskbar,
    Finished,
}

/// The desktop toggle: shows or hides the desktop icons and enables or
/// disables input to the desktop and the taskbar, by a search for the
/// desktop view under Progman or, failing that, under the WorkerW windows.
#[derive(Debug, Clone, Copy, PartialEq, Eq, Structural)]
pub struct DesktopToggle {
    pub show: bool,
    pub step: DesktopStep,
}

/// The request that looks for the icon list under the desktop view `d`.
pub open spec fn find_list_view(show: bool, d: isize) -> (DesktopToggle, DesktopAction) {
    (
        DesktopToggle { show, step: DesktopStep::AwaitListView { def_view: d } },
        DesktopAction::FindChild { parent: d, after: 0, class: DesktopClass::SysListView32, folder_view: true },
    )
}

/// The request that looks for the taskbar.
pub open spec fn find_taskbar(show: bool) -> (DesktopToggle, DesktopAction) {
    (DesktopToggle { show, step: DesktopStep::AwaitTaskbar }, DesktopAction::FindTopLevel { class: DesktopClass::ShellTrayWnd })
}

/// The request that walks to the WorkerW window following `worker`.
pub open spec fn find_next_worker(show: bool, worker: isize, def_view: isize) -> (DesktopToggle, DesktopAction) {
    (
        DesktopToggle { show, step: DesktopStep::AwaitNextWorker { def_view } },
        DesktopAction::FindChild { parent: 0, after: worker, class: DesktopClass::WorkerW, folder_view: false },
    )
}

/// The request that looks for the desktop view under the WorkerW window `w`.
pub open spec fn find_view_in_worker(show: bool, w: isize) -> (DesktopToggle, DesktopAction) {
    (
        DesktopToggle { show, step: DesktopStep::AwaitDefViewInWorker { worker: w } },
        DesktopAction::FindChild { parent: w, after: 0, class: DesktopClass::ShellDefView, folder_view: false },
    )
}

/// The request that starts the walk over the WorkerW windows.
pub open spec fn find_first_worker(show: bool) -> (DesktopToggle, DesktopAction) {
    (DesktopToggle { show, step: DesktopStep::AwaitFirstWorker }, DesktopAction::FindTopLevel { class: DesktopClass::WorkerW })
}

/// One move of the desktop toggle, given the handle that the previous
/// request found (ignored after requests that find nothing).
pub open spec fn desktop_step(m: DesktopToggle, reply: isize) -> (DesktopToggle, DesktopAction) {
    let show = m.show;
    match m.step {
        DesktopStep::Start => (
            DesktopToggle { show, step: DesktopStep::AwaitProgman },
            DesktopAction::FindTopLevel { class: DesktopClass::Progman },
        ),
        DesktopStep::AwaitProgman => if reply != 0 {
            (
                DesktopToggle { show, step: DesktopStep::AwaitDefViewInProgman },
                DesktopAction::FindChild { parent: reply, after: 0, class: DesktopClass::ShellDefView, folder_view: false },
            )
        } else {
            find_first_worker(show)
        },
        DesktopStep::AwaitDefViewInProgman => if reply != 0 {
            find_list_view(show, reply)
        } else {
            find_first_worker(show)
        },
        DesktopStep::AwaitFirstWorker => if reply != 0 {
            find_view_in_worker(show, reply)
        } else {
            find_taskbar(show)
        },
        DesktopStep::AwaitDefViewInWorker { worker } => find_next_worker(show, worker, reply),
        DesktopStep::AwaitNextWorker { def_view } => if reply != 0 && def_view == 0 {
            find_view_in_worker(show, reply)
        } else if def_view != 0 {
            find_list_view(show, def_view)
        } else {
            find_taskbar(show)
        },
        DesktopStep::AwaitListView { def_view } => if reply != 0 {
            (
                DesktopToggle { show, step: DesktopStep::AfterListViewShown { def_view } },
                DesktopAction::Show { hwnd: reply, show },
            )
        } else {
            (DesktopToggle { show, step: DesktopStep::AfterDefViewEnabled }, DesktopAction::Enable { hwnd: def_view, enable: show })
        },
        DesktopStep::AfterListViewShown { def_view } => (
            DesktopToggle { show, step: DesktopStep::AfterDefViewEnabled },
            DesktopAction::Enable { hwnd: def_view, enable: show },
        ),
        DesktopStep::AfterDefViewEnabled => find_taskbar(show),
        DesktopStep::AwaitTaskbar => if reply != 0 {
            (DesktopToggle { show, step: DesktopStep::Finished }, DesktopAction::Enable { hwnd: reply, enable: show })
        } else {
            (DesktopToggle { show, step: DesktopStep::Finished }, DesktopAction::Done)
        },
        DesktopStep::Finished => (m, DesktopAction::Done),
    }
}

/// Handles the toggle holds on to are ones a search found (never 0).
pub open spec fn desktop_wf(m: DesktopToggle) -> bool {
    match m.step {
        DesktopStep::AwaitDefViewInWorker { worker } => worker != 0,
        DesktopStep::AwaitListView { def_view } => def_view != 0,
        DesktopStep::AfterListViewShown { def_view } => def_view != 0,
        _ => true,
    }
}

/// Starts toggling the desktop: `show` restores the icons and input,
/// otherwise they are hidden and disabled.
pub fn toggle_desktop(show: bool) -> (m: DesktopToggle)
    ensures
        m.show == show,
        m.step == DesktopStep::Start,
{
    DesktopToggle { show, step: DesktopStep::Start }
}

impl DesktopToggle {
    /// The next request, given the handle that the previous one found.
    pub fn next(&mut self, reply: isize) -> (a: DesktopAction)
        ensures
            (*final(self), a) == desktop_step(*old(self), reply),
    {
        let show = self.show;
        let (step, action) = match self.step {
            DesktopStep::Start => (DesktopStep::AwaitProgman, DesktopAction::FindTopLevel { class: DesktopClass::Progman }),
            DesktopStep::AwaitProgman => if reply != 0 {
                (
                    DesktopStep::AwaitDefViewInProgman,
                    DesktopAction::FindChild { parent: reply, after: 0, class: DesktopClass::ShellDefView, folder_view: false },
                )
            } else {
                (DesktopStep::AwaitFirstWorker, DesktopAction::FindTopLevel { class: DesktopClass::WorkerW })
            },
            DesktopStep::AwaitDefViewInProgman => if reply != 0 {
                (
                    DesktopStep::AwaitListView { def_view: reply },
                    DesktopAction::FindChild { parent: reply, after: 0, class: DesktopClass::SysListView32, folder_view: true },
                )
            } else {
                (DesktopStep::AwaitFirstWorker, DesktopAction::FindTopLevel { class: DesktopClass::WorkerW })
            },
            DesktopStep::AwaitFirstWorker => if reply != 0 {
                (
                    DesktopStep::AwaitDefViewInWorker { worker: reply },
                    DesktopAction::FindChild { parent: reply, after: 0, class: DesktopClass::ShellDefView, folder_view: false },
                )
            } else {
                (DesktopStep::AwaitTaskbar, DesktopAction::FindTopLevel { class: DesktopClass::ShellTrayWnd })
            },
            DesktopStep::AwaitDefViewInWorker { worker } => (
                DesktopStep::AwaitNextWorker { def_view: reply },
                DesktopAction::FindChild { parent: 0, after: worker, class: DesktopClass::WorkerW, folder_view: false },
            ),
            DesktopStep::AwaitNextWorker { def_view } => if reply != 0 && def_view == 0 {
                (
                    DesktopStep::AwaitDefViewInWorker { worker: reply },
                    DesktopAction::FindChild { parent: reply, after: 0, class: DesktopClass::ShellDefView, folder_view: false },
                )
            } else if def_view != 0 {
                (
                    DesktopStep::AwaitListView { def_view },
                    DesktopAction::FindChild { parent: def_view, after: 0, class: DesktopClass::SysListView32, folder_view: true },
                )
            } else {
                (DesktopStep::AwaitTaskbar, DesktopAction::FindTopLevel { class: DesktopClass::ShellTrayWnd })
            },
            DesktopStep::AwaitListView { def_view } => if reply != 0 {
                (DesktopStep::AfterListViewShown { def_view }, DesktopAction::Show { hwnd: reply, show })
            } else {
                (DesktopStep::AfterDefViewEnabled, DesktopAction::Enable { hwnd: def_view, enable: show })
            },
            DesktopStep::AfterListViewShown { def_view } => (
                DesktopStep::AfterDefViewEnabled,
                DesktopAction::Enable { hwnd: def_view, enable: show },
            ),
            DesktopStep::AfterDefViewEnabled => (
                DesktopStep::AwaitTaskbar,
                DesktopAction::FindTopLevel { class: DesktopClass::ShellTrayWnd },
            ),
            DesktopStep::AwaitTaskbar => if reply != 0 {
                (DesktopStep::Finished, DesktopAction::Enable { hwnd: reply, enable: show })
            } else {
                (DesktopStep::Finished, DesktopAction::Done)
            },
            DesktopStep::Finished => (DesktopStep::Finished, DesktopAction::Done),
        };
        self.step = step;
        action
    }
}

/// Every move of the desktop toggle keeps the requested flag, shows,
/// hides, enables or disables only with that flag, and only acts on
/// handles that a search found (never on handle 0).
pub proof fn law_desktop_toggle_acts_on_found_windows(m: DesktopToggle, reply: isize)
    requires
        desktop_wf(m),
    ensures
        desktop_step(m, reply).0.show == m.show,
        desktop_wf(desktop_step(m, reply).0),
        desktop_step(m, reply).1 matches DesktopAction::Show { hwnd, show } ==> hwnd != 0 && show == m.show,
        desktop_step(m, reply).1 matches DesktopAction::Enable { hwnd, enable } ==> hwnd != 0 && enable == m.show,
{
}

/// Once the desktop toggle is done it stays done.
pub proof fn law_desktop_toggle_done_is_final(m: DesktopToggle, reply: isize)
    requires
        m.step == DesktopStep::Finished,
    ensures
        desktop_step(m, reply) == (m, DesktopAction::Done),
{
}

/// The walk over the WorkerW windows stops at the first desktop view it
/// finds: once a search under a WorkerW window has found the view `d`, the
/// toggle next looks for the icon list under `d`, whatever the following
/// WorkerW search replies.
pub proof fn law_desktop_walk_stops_at_found_view(show: bool, d: isize, reply: isize)
    requires
        d != 0,
    ensures
        desktop_step(DesktopToggle { show, step: DesktopStep::AwaitNextWorker { def_view: d } }, reply) == (
            DesktopToggle { show, step: DesktopStep::AwaitListView { def_view: d } },
            DesktopAction::FindChild { parent: d, after: 0, class: DesktopClass::SysListView32, folder_view: true },
        ),
{
}

/// Once the desktop view `d` is found, the toggle shows or hides the icon
/// list found under it and then enables or disables `d` itself, with the
/// requested flag; with no icon list found, it enables or disables `d`
/// straight away.
pub proof fn law_desktop_view_toggled(show: bool, d: isize, list: isize)
    requires
        d != 0,
    ensures
        list != 0 ==> desktop_step(DesktopToggle { show, step: DesktopStep::AwaitListView { def_view: d } }, list).1
            == (DesktopAction::Show { hwnd: list, show }),
        list != 0 ==> desktop_step(desktop_step(DesktopToggle { show, step: DesktopStep::AwaitListView { def_view: d } }, list).0, 0).1
            == (DesktopAction::Enable { hwnd: d, enable: show }),
        list == 0 ==> desktop_step(DesktopToggle { show, step: DesktopStep::AwaitListView { def_view: d } }, list).1
            == (DesktopAction::Enable { hwnd: d, enable: show }),
{
}

} // verus!
