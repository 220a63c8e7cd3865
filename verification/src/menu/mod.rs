//! In-emulator menu: a page-based state machine driven by key presses and
//! rendered into the framebuffer with the OSD font.
//!
//! `Up`/`Down` move the selection (wrapping), `Return` activates the
//! selected item or enters a sub-page, `Backspace` goes back to the main
//! page, `Escape` goes back or closes the menu, and `Left`/`Right` adjust
//! the value on the settings pages. On a controller page, activating a
//! button arms rebind mode: the next key (other than `Escape`, which
//! cancels) becomes the button's new binding. Changed settings and
//! bindings are held as pending values that the program collects when the
//! menu closes.
//!
//! Keys are SDL key codes (see [`keys`]). The limits of the adjustable
//! settings are the program's and are handed in as [`MenuLimits`].

pub mod keys;

use vstd::prelude::*;

use crate::osd::{glyph_rows, OSD_BG_ARGB, OSD_FG_ARGB};
use crate::save_state::DEFAULT_REWIND_CAPACITY;
use crate::text::{decimal, push_decimal, texts};
use self::keys::{key_name, keycode_to_name, KEY_BACKSPACE, KEY_DOWN, KEY_ESCAPE, KEY_LEFT, KEY_RETURN, KEY_RIGHT, KEY_UP};

verus! {

/// Which menu page is shown.
#[derive(Clone, Copy, PartialEq, Eq, Debug, Structural)]
pub enum MenuPage {
    /// Root page listing the sub-pages.
    Main,
    /// Debug flag toggles.
    Debug,
    /// Rewind settings.
    Rewind,
    /// Turbo speed selection.
    Turbo,
    /// Controller 1 key bindings.
    Controller1,
    /// Controller 2 key bindings.
    Controller2,
}

/// The program's bounds for the adjustable settings.
#[derive(Clone, Copy, PartialEq, Eq, Debug, Structural)]
pub struct MenuLimits {
    /// Largest rewind buffer capacity, in snapshots.
    pub max_rewind_capacity: usize,
    /// Largest countdown delay, in milliseconds.
    pub max_countdown_delay_ms: u32,
    /// Largest countdown start number.
    pub max_countdown_start: u32,
    /// Frames between two rewind snapshots.
    pub rewind_interval: u32,
    /// Number of selectable turbo speeds.
    pub turbo_speed_count: usize,
    /// Turbo speed index shown before the program sets one.
    pub default_turbo_index: usize,
}

/// Everything the menu remembers apart from the edited key bindings.
#[derive(Clone, Copy, PartialEq, Eq, Debug, Structural)]
pub struct MenuState {
    pub open: bool,
    pub page: MenuPage,
    pub selection: usize,
    /// Button being rebound, when in rebind mode.
    pub rebind_button: Option<u8>,
    /// Controller (0 or 1) whose button is being rebound.
    pub rebind_controller: usize,
    pub slant_corruption: bool,
    pub inaccurate_palette: bool,
    pub nmi_retrigger: bool,
    /// Ring-buffer trace flag as last set by the program.
    pub ring_buffer_trace: bool,
    pub pending_ring_buffer_trace: Option<bool>,
    pub pending_rewind_capacity: Option<usize>,
    pub rewind_capacity_display: usize,
    pub branching_display: bool,
    pub pending_branching: Option<bool>,
    pub timeline_display: bool,
    pub pending_timeline: Option<bool>,
    pub countdown_delay_display: u32,
    pub pending_countdown_delay: Option<u32>,
    pub countdown_start_display: u32,
    pub pending_countdown_start: Option<u32>,
    pub pending_turbo_index: Option<usize>,
    pub turbo_index_display: usize,
}

/// The in-emulator menu.
pub struct Menu {
    pub state: MenuState,
    pub limits: MenuLimits,
    /// Edited bindings, oldest first: (controller, button, key code).
    pub pending_bindings: Vec<(usize, u8, i32)>,
}

/// Number of items on `page`.
pub open spec fn item_count(page: MenuPage) -> nat {
    match page {
        MenuPage::Main => 6,
        MenuPage::Debug => 5,
        MenuPage::Rewind => 6,
        MenuPage::Turbo => 2,
        MenuPage::Controller1 => 9,
        MenuPage::Controller2 => 9,
    }
}

/// The rewind capacity the menu shows: the pending value, else the
/// program's.
pub open spec fn eff_capacity(s: MenuState) -> usize {
    match s.pending_rewind_capacity {
        Some(c) => c,
        None => s.rewind_capacity_display,
    }
}

pub open spec fn eff_turbo_index(s: MenuState) -> usize {
    match s.pending_turbo_index {
        Some(i) => i,
        None => s.turbo_index_display,
    }
}

pub open spec fn eff_ring_buffer_trace(s: MenuState) -> bool {
    match s.pending_ring_buffer_trace {
        Some(b) => b,
        None => s.ring_buffer_trace,
    }
}

pub open spec fn eff_branching(s: MenuState) -> bool {
    match s.pending_branching {
        Some(b) => b,
        None => s.branching_display,
    }
}

pub open spec fn eff_timeline(s: MenuState) -> bool {
    match s.pending_timeline {
        Some(b) => b,
        None => s.timeline_display,
    }
}

pub open spec fn eff_countdown_delay(s: MenuState) -> u32 {
    match s.pending_countdown_delay {
        Some(d) => d,
        None => s.countdown_delay_display,
    }
}

pub open spec fn eff_countdown_start(s: MenuState) -> u32 {
    match s.pending_countdown_start {
        Some(n) => n,
        None => s.countdown_start_display,
    }
}

/// `s` showing `page` with its first item selected.
pub open spec fn enter(s: MenuState, page: MenuPage) -> MenuState {
    MenuState { page: page, selection: 0, ..s }
}

/// `s` closed, leaving rebind mode.
pub open spec fn closed(s: MenuState) -> MenuState {
    MenuState { open: false, rebind_button: None, ..s }
}

/// Rewind capacity after `Left`: down by a step that shrinks with the value
/// (1000, 100, 10), never below 1.
pub open spec fn capacity_down(cap: int) -> int {
    if cap <= 10 {
        1
    } else if cap <= 100 {
        cap - 10
    } else if cap <= 1000 {
        cap - 100
    } else {
        cap - 1000
    }
}

/// Rewind capacity after `Right`: up by a step that grows with the value
/// (1, 10, 100, 1000), never above `max`.
pub open spec fn capacity_up(cap: int, max: int) -> int {
    let step: int = if cap >= 1000 {
        1000
    } else if cap >= 100 {
        100
    } else if cap >= 10 {
        10
    } else {
        1
    };
    if cap + step <= max {
        cap + step
    } else {
        max
    }
}

/// Countdown delay after `Left` (`right == false`) or `Right`: steps of
/// 100 ms within `0..=max`, wrapping at either end.
pub open spec fn delay_adjusted(d: int, max: int, right: bool) -> int {
    if right {
        if d >= max {
            0
        } else if d + 100 <= max {
            d + 100
        } else {
            max
        }
    } else {
        if d == 0 {
            max
        } else if d >= 100 {
            d - 100
        } else {
            0
        }
    }
}

/// Countdown start number after `Left` or `Right`: steps of one within
/// `1..=max`, wrapping at either end.
pub open spec fn start_adjusted(n: int, max: int, right: bool) -> int {
    if right {
        if n >= max {
            1
        } else {
            n + 1
        }
    } else {
        if n <= 1 {
            max
        } else {
            n - 1
        }
    }
}

/// Turbo speed index after `Left` or `Right`, wrapping within `0..count`.
pub open spec fn turbo_adjusted(i: int, count: int, right: bool) -> int {
    if right {
        if i >= count - 1 {
            0
        } else {
            i + 1
        }
    } else {
        if i == 0 {
            count - 1
        } else {
            i - 1
        }
    }
}

/// The state after `Left` (`right == false`) or `Right` on the selected
/// item: only the value items of the rewind and turbo pages react.
pub open spec fn adjust_step(s: MenuState, lim: MenuLimits, right: bool) -> MenuState {
    if s.page == MenuPage::Rewind && s.selection == 0 {
        let cap = eff_capacity(s) as int;
        let c = if right {
            capacity_up(cap, lim.max_rewind_capacity as int)
        } else {
            capacity_down(cap)
        };
        MenuState { pending_rewind_capacity: Some(c as usize), ..s }
    } else if s.page == MenuPage::Rewind && s.selection == 1 {
        MenuState { pending_branching: Some(!eff_branching(s)), ..s }
    } else if s.page == MenuPage::Rewind && s.selection == 2 {
        MenuState { pending_timeline: Some(!eff_timeline(s)), ..s }
    } else if s.page == MenuPage::Rewind && s.selection == 3 {
        let d = delay_adjusted(eff_countdown_delay(s) as int, lim.max_countdown_delay_ms as int, right);
        MenuState { pending_countdown_delay: Some(d as u32), ..s }
    } else if s.page == MenuPage::Rewind && s.selection == 4 {
        let n = start_adjusted(eff_countdown_start(s) as int, lim.max_countdown_start as int, right);
        MenuState { pending_countdown_start: Some(n as u32), ..s }
    } else if s.page == MenuPage::Turbo && s.selection == 0 {
        let i = turbo_adjusted(eff_turbo_index(s) as int, lim.turbo_speed_count as int, right);
        MenuState { pending_turbo_index: Some(i as usize), ..s }
    } else {
        s
    }
}

/// The state after `Return` on the selected item.
pub open spec fn activate_step(s: MenuState) -> MenuState {
    let sel = s.selection;
    match s.page {
        MenuPage::Main => {
            if sel == 0 {
                enter(s, MenuPage::Debug)
            } else if sel == 1 {
                enter(s, MenuPage::Rewind)
            } else if sel == 2 {
                enter(s, MenuPage::Turbo)
            } else if sel == 3 {
                enter(s, MenuPage::Controller1)
            } else if sel == 4 {
                enter(s, MenuPage::Controller2)
            } else if sel == 5 {
                closed(s)
            } else {
                s
            }
        },
        MenuPage::Debug => {
            if sel == 0 {
                MenuState { slant_corruption: !s.slant_corruption, ..s }
            } else if sel == 1 {
                MenuState { inaccurate_palette: !s.inaccurate_palette, ..s }
            } else if sel == 2 {
                MenuState { nmi_retrigger: !s.nmi_retrigger, ..s }
            } else if sel == 3 {
                MenuState { pending_ring_buffer_trace: Some(!eff_ring_buffer_trace(s)), ..s }
            } else if sel == 4 {
                enter(s, MenuPage::Main)
            } else {
                s
            }
        },
        MenuPage::Rewind => {
            if sel == 1 {
                MenuState { pending_branching: Some(!eff_branching(s)), ..s }
            } else if sel == 2 {
                MenuState { pending_timeline: Some(!eff_timeline(s)), ..s }
            } else if sel == 5 {
                enter(s, MenuPage::Main)
            } else {
                s
            }
        },
        MenuPage::Turbo => {
            if sel == 1 {
                enter(s, MenuPage::Main)
            } else {
                s
            }
        },
        MenuPage::Controller1 => {
            if sel < 8 {
                MenuState { rebind_controller: 0, rebind_button: Some(sel as u8), ..s }
            } else {
                enter(s, MenuPage::Main)
            }
        },
        MenuPage::Controller2 => {
            if sel < 8 {
                MenuState { rebind_controller: 1, rebind_button: Some(sel as u8), ..s }
            } else {
                enter(s, MenuPage::Main)
            }
        },
    }
}

/// The state after key `key` is pressed.
pub open spec fn key_step(s: MenuState, lim: MenuLimits, key: i32) -> MenuState {
    if !s.open {
        s
    } else if s.rebind_button is Some {
        MenuState { rebind_button: None, ..s }
    } else if key == KEY_ESCAPE {
        if s.page == MenuPage::Main {
            closed(s)
        } else {
            enter(s, MenuPage::Main)
        }
    } else if key == KEY_UP {
        let n = item_count(s.page) as int;
        MenuState { selection: (if s.selection > 0 { s.selection - 1 } else { n - 1 }) as usize, ..s }
    } else if key == KEY_DOWN {
        let n = item_count(s.page) as int;
        MenuState { selection: (if s.selection < n - 1 { s.selection + 1 } else { 0 }) as usize, ..s }
    } else if key == KEY_RETURN {
        activate_step(s)
    } else if key == KEY_BACKSPACE {
        if s.page != MenuPage::Main {
            enter(s, MenuPage::Main)
        } else {
            s
        }
    } else if key == KEY_LEFT {
        adjust_step(s, lim, false)
    } else if key == KEY_RIGHT {
        adjust_step(s, lim, true)
    } else {
        s
    }
}

/// The binding recorded by pressing `key`: in rebind mode every key but
/// `Escape` binds the armed button.
pub open spec fn binding_added(s: MenuState, key: i32) -> Option<(usize, u8, i32)> {
    if s.open && s.rebind_button is Some && key != KEY_ESCAPE {
        Some((s.rebind_controller, s.rebind_button->0, key))
    } else {
        None
    }
}

/// The countdown delay the menu starts from, in milliseconds.
pub const INITIAL_COUNTDOWN_DELAY_MS: u32 = 500;
/// The countdown start number the menu starts from.
pub const INITIAL_COUNTDOWN_START: u32 = 3;

impl Menu {
    /// The menu's settings limits admit at least one turbo speed.
    pub open spec fn wf(&self) -> bool {
        self.limits.turbo_speed_count >= 1
    }

    /// A closed menu on the main page with nothing pending.
    pub fn new(limits: MenuLimits) -> (m: Self)
        ensures
            m.limits == limits,
            m.pending_bindings@.len() == 0,
            m.state == (MenuState {
                open: false,
                page: MenuPage::Main,
                selection: 0,
                rebind_button: None,
                rebind_controller: 0,
                slant_corruption: false,
                inaccurate_palette: false,
                nmi_retrigger: false,
                ring_buffer_trace: false,
                pending_ring_buffer_trace: None,
                pending_rewind_capacity: None,
                rewind_capacity_display: DEFAULT_REWIND_CAPACITY,
                branching_display: true,
                pending_branching: None,
                timeline_display: true,
                pending_timeline: None,
                countdown_delay_display: INITIAL_COUNTDOWN_DELAY_MS,
                pending_countdown_delay: None,
                countdown_start_display: INITIAL_COUNTDOWN_START,
                pending_countdown_start: None,
                pending_turbo_index: None,
                turbo_index_display: limits.default_turbo_index,
            }),
    {
        Menu {
            state: MenuState {
                open: false,
                page: MenuPage::Main,
                selection: 0,
                rebind_button: None,
                rebind_controller: 0,
                slant_corruption: false,
                inaccurate_palette: false,
                nmi_retrigger: false,
                ring_buffer_trace: false,
                pending_ring_buffer_trace: None,
                pending_rewind_capacity: None,
                rewind_capacity_display: DEFAULT_REWIND_CAPACITY,
                branching_display: true,
                pending_branching: None,
                timeline_display: true,
                pending_timeline: None,
                countdown_delay_display: INITIAL_COUNTDOWN_DELAY_MS,
                pending_countdown_delay: None,
                countdown_start_display: INITIAL_COUNTDOWN_START,
                pending_countdown_start: None,
                pending_turbo_index: None,
                turbo_index_display: limits.default_turbo_index,
            },
            limits: limits,
            pending_bindings: Vec::new(),
        }
    }

    pub fn is_open(&self) -> (r: bool)
        ensures
            r == self.state.open,
    {
        self.state.open
    }

    /// Open on the main page with the first item selected.
    pub fn open(&mut self)
        ensures
            final(self).state == (MenuState {
                open: true,
                page: MenuPage::Main,
                selection: 0,
                rebind_button: None,
                ..old(self).state
            }),
            final(self).limits == old(self).limits,
            final(self).pending_bindings@ == old(self).pending_bindings@,
    {
        self.state.open = true;
        self.state.page = MenuPage::Main;
        self.state.selection = 0;
        self.state.rebind_button = None;
    }

    /// Close, leaving rebind mode.
    pub fn close(&mut self)
        ensures
            final(self).state == closed(old(self).state),
            final(self).limits == old(self).limits,
            final(self).pending_bindings@ == old(self).pending_bindings@,
    {
        self.state.open = false;
        self.state.rebind_button = None;
    }

    pub fn page(&self) -> (r: MenuPage)
        ensures
            r == self.state.page,
    {
        self.state.page
    }

    pub fn selection(&self) -> (r: usize)
        ensures
            r == self.state.selection,
    {
        self.state.selection
    }

    pub fn rebind_button(&self) -> (r: Option<u8>)
        ensures
            r == self.state.rebind_button,
    {
        self.state.rebind_button
    }

    pub fn slant_corruption(&self) -> (r: bool)
        ensures
            r == self.state.slant_corruption,
    {
        self.state.slant_corruption
    }

    pub fn set_slant_corruption(&mut self, v: bool)
        ensures
            final(self).state == (MenuState { slant_corruption: v, ..old(self).state }),
            final(self).limits == old(self).limits,
            final(self).pending_bindings@ == old(self).pending_bindings@,
    {
        self.state.slant_corruption = v;
    }

    pub fn inaccurate_palette(&self) -> (r: bool)
        ensures
            r == self.state.inaccurate_palette,
    {
        self.state.inaccurate_palette
    }

    pub fn set_inaccurate_palette(&mut self, v: bool)
        ensures
            final(self).state == (MenuState { inaccurate_palette: v, ..old(self).state }),
            final(self).limits == old(self).limits,
            final(self).pending_bindings@ == old(self).pending_bindings@,
    {
        self.state.inaccurate_palette = v;
    }

    pub fn nmi_retrigger(&self) -> (r: bool)
        ensures
            r == self.state.nmi_retrigger,
    {
        self.state.nmi_retrigger
    }

    pub fn set_nmi_retrigger(&mut self, v: bool)
        ensures
            final(self).state == (MenuState { nmi_retrigger: v, ..old(self).state }),
            final(self).limits == old(self).limits,
            final(self).pending_bindings@ == old(self).pending_bindings@,
    {
        self.state.nmi_retrigger = v;
    }

    pub fn set_ring_buffer_trace_display(&mut self, v: bool)
        ensures
            final(self).state == (MenuState { ring_buffer_trace: v, ..old(self).state }),
            final(self).limits == old(self).limits,
            final(self).pending_bindings@ == old(self).pending_bindings@,
    {
        self.state.ring_buffer_trace = v;
    }

    pub fn take_pending_ring_buffer_trace(&mut self) -> (r: Option<bool>)
        ensures
            r == old(self).state.pending_ring_buffer_trace,
            final(self).state == (MenuState { pending_ring_buffer_trace: None, ..old(self).state }),
            final(self).limits == old(self).limits,
            final(self).pending_bindings@ == old(self).pending_bindings@,
    {
        let r = self.state.pending_ring_buffer_trace;
        self.state.pending_ring_buffer_trace = None;
        r
    }

    /// Hand out the edited bindings, oldest first, and forget them.
    pub fn take_pending_bindings(&mut self) -> (r: Vec<(usize, u8, i32)>)
        ensures
            r@ == old(self).pending_bindings@,
            final(self).pending_bindings@.len() == 0,
            final(self).state == old(self).state,
            final(self).limits == old(self).limits,
    {
        let mut out: Vec<(usize, u8, i32)> = Vec::new();
        std::mem::swap(&mut out, &mut self.pending_bindings);
        out
    }

    pub fn take_pending_rewind_capacity(&mut self) -> (r: Option<usize>)
        ensures
            r == old(self).state.pending_rewind_capacity,
            final(self).state == (MenuState { pending_rewind_capacity: None, ..old(self).state }),
            final(self).limits == old(self).limits,
            final(self).pending_bindings@ == old(self).pending_bindings@,
    {
        let r = self.state.pending_rewind_capacity;
        self.state.pending_rewind_capacity = None;
        r
    }

    pub fn set_rewind_capacity_display(&mut self, cap: usize)
        ensures
            final(self).state == (MenuState { rewind_capacity_display: cap, ..old(self).state }),
            final(self).limits == old(self).limits,
            final(self).pending_bindings@ == old(self).pending_bindings@,
    {
        self.state.rewind_capacity_display = cap;
    }

    pub fn set_branching_display(&mut self, enabled: bool)
        ensures
            final(self).state == (MenuState { branching_display: enabled, ..old(self).state }),
            final(self).limits == old(self).limits,
            final(self).pending_bindings@ == old(self).pending_bindings@,
    {
        self.state.branching_display = enabled;
    }

    pub fn set_timeline_display(&mut self, enabled: bool)
        ensures
            final(self).state == (MenuState { timeline_display: enabled, ..old(self).state }),
            final(self).limits == old(self).limits,
            final(self).pending_bindings@ == old(self).pending_bindings@,
    {
        self.state.timeline_display = enabled;
    }

    pub fn set_countdown_delay_display(&mut self, ms: u32)
        ensures
            final(self).state == (MenuState { countdown_delay_display: ms, ..old(self).state }),
            final(self).limits == old(self).limits,
            final(self).pending_bindings@ == old(self).pending_bindings@,
    {
        self.state.countdown_delay_display = ms;
    }

    pub fn set_countdown_start_display(&mut self, n: u32)
        ensures
            final(self).state == (MenuState { countdown_start_display: n, ..old(self).state }),
            final(self).limits == old(self).limits,
            final(self).pending_bindings@ == old(self).pending_bindings@,
    {
        self.state.countdown_start_display = n;
    }

    pub fn take_pending_timeline(&mut self) -> (r: Option<bool>)
        ensures
            r == old(self).state.pending_timeline,
            final(self).state == (MenuState { pending_timeline: None, ..old(self).state }),
            final(self).limits == old(self).limits,
            final(self).pending_bindings@ == old(self).pending_bindings@,
    {
        let r = self.state.pending_timeline;
        self.state.pending_timeline = None;
        r
    }

    pub fn take_pending_countdown_delay(&mut self) -> (r: Option<u32>)
        ensures
            r == old(self).state.pending_countdown_delay,
            final(self).state == (MenuState { pending_countdown_delay: None, ..old(self).state }),
            final(self).limits == old(self).limits,
            final(self).pending_bindings@ == old(self).pending_bindings@,
    {
        let r = self.state.pending_countdown_delay;
        self.state.pending_countdown_delay = None;
        r
    }

    pub fn take_pending_countdown_start(&mut self) -> (r: Option<u32>)
        ensures
            r == old(self).state.pending_countdown_start,
            final(self).state == (MenuState { pending_countdown_start: None, ..old(self).state }),
            final(self).limits == old(self).limits,
            final(self).pending_bindings@ == old(self).pending_bindings@,
    {
        let r = self.state.pending_countdown_start;
        self.state.pending_countdown_start = None;
        r
    }

    pub fn take_pending_branching(&mut self) -> (r: Option<bool>)
        ensures
            r == old(self).state.pending_branching,
            final(self).state == (MenuState { pending_branching: None, ..old(self).state }),
            final(self).limits == old(self).limits,
            final(self).pending_bindings@ == old(self).pending_bindings@,
    {
        let r = self.state.pending_branching;
        self.state.pending_branching = None;
        r
    }

    pub fn take_pending_turbo_index(&mut self) -> (r: Option<usize>)
        ensures
            r == old(self).state.pending_turbo_index,
            final(self).state == (MenuState { pending_turbo_index: None, ..old(self).state }),
            final(self).limits == old(self).limits,
            final(self).pending_bindings@ == old(self).pending_bindings@,
    {
        let r = self.state.pending_turbo_index;
        self.state.pending_turbo_index = None;
        r
    }

    pub fn set_turbo_index_display(&mut self, idx: usize)
        ensures
            final(self).state == (MenuState { turbo_index_display: idx, ..old(self).state }),
            final(self).limits == old(self).limits,
            final(self).pending_bindings@ == old(self).pending_bindings@,
    {
        self.state.turbo_index_display = idx;
    }

    /// Number of items on the current page.
    pub fn page_item_count(&self) -> (r: usize)
        ensures
            r == item_count(self.state.page),
    {
        match self.state.page {
            MenuPage::Main => 6,
            MenuPage::Debug => 5,
            MenuPage::Rewind => 6,
            MenuPage::Turbo => 2,
            MenuPage::Controller1 => 9,
            MenuPage::Controller2 => 9,
        }
    }

    pub fn effective_rewind_capacity(&self) -> (r: usize)
        ensures
            r == eff_capacity(self.state),
    {
        match self.state.pending_rewind_capacity {
            Some(c) => c,
            None => self.state.rewind_capacity_display,
        }
    }

    pub fn effective_turbo_index(&self) -> (r: usize)
        ensures
            r == eff_turbo_index(self.state),
    {
        match self.state.pending_turbo_index {
            Some(i) => i,
            None => self.state.turbo_index_display,
        }
    }

    pub fn effective_ring_buffer_trace(&self) -> (r: bool)
        ensures
            r == eff_ring_buffer_trace(self.state),
    {
        match self.state.pending_ring_buffer_trace {
            Some(b) => b,
            None => self.state.ring_buffer_trace,
        }
    }

    pub fn effective_branching(&self) -> (r: bool)
        ensures
            r == eff_branching(self.state),
    {
        match self.state.pending_branching {
            Some(b) => b,
            None => self.state.branching_display,
        }
    }

    pub fn effective_timeline(&self) -> (r: bool)
        ensures
            r == eff_timeline(self.state),
    {
        match self.state.pending_timeline {
            Some(b) => b,
            None => self.state.timeline_display,
        }
    }

    pub fn effective_countdown_delay(&self) -> (r: u32)
        ensures
            r == eff_countdown_delay(self.state),
    {
        match self.state.pending_countdown_delay {
            Some(d) => d,
            None => self.state.countdown_delay_display,
        }
    }

    pub fn effective_countdown_start(&self) -> (r: u32)
        ensures
            r == eff_countdown_start(self.state),
    {
        match self.state.pending_countdown_start {
            Some(n) => n,
            None => self.state.countdown_start_display,
        }
    }

    /// Go to `page` with its first item selected.
    fn enter_page(&mut self, page: MenuPage)
        ensures
            final(self).state == enter(old(self).state, page),
            final(self).limits == old(self).limits,
            final(self).pending_bindings@ == old(self).pending_bindings@,
    {
        self.state.page = page;
        self.state.selection = 0;
    }

    /// Activate the selected item (`Return`).
    #[verifier::spinoff_prover]
    #[verifier::rlimit(60)]
    pub fn activate(&mut self)
        ensures
            final(self).state == activate_step(old(self).state),
            final(self).limits == old(self).limits,
            final(self).pending_bindings@ == old(self).pending_bindings@,
    {
        let sel: usize = self.state.selection;
        match self.state.page {
            MenuPage::Main => {
                if sel == 0 {
                    self.enter_page(MenuPage::Debug);
                } else if sel == 1 {
                    self.enter_page(MenuPage::Rewind);
                } else if sel == 2 {
                    self.enter_page(MenuPage::Turbo);
                } else if sel == 3 {
                    self.enter_page(MenuPage::Controller1);
                } else if sel == 4 {
                    self.enter_page(MenuPage::Controller2);
                } else if sel == 5 {
                    self.close();
                }
            },
            MenuPage::Debug => {
                if sel == 0 {
                    self.state.slant_corruption = !self.state.slant_corruption;
                } else if sel == 1 {
                    self.state.inaccurate_palette = !self.state.inaccurate_palette;
                } else if sel == 2 {
                    self.state.nmi_retrigger = !self.state.nmi_retrigger;
                } else if sel == 3 {
                    let v: bool = !self.effective_ring_buffer_trace();
                    self.state.pending_ring_buffer_trace = Some(v);
                } else if sel == 4 {
                    self.enter_page(MenuPage::Main);
                }
            },
            MenuPage::Rewind => {
                if sel == 1 {
                    let v: bool = !self.effective_branching();
                    self.state.pending_branching = Some(v);
                } else if sel == 2 {
                    let v: bool = !self.effective_timeline();
                    self.state.pending_timeline = Some(v);
                } else if sel == 5 {
                    self.enter_page(MenuPage::Main);
                }
            },
            MenuPage::Turbo => {
                if sel == 1 {
                    self.enter_page(MenuPage::Main);
                }
            },
            MenuPage::Controller1 => {
                if sel < 8 {
                    self.state.rebind_controller = 0;
                    self.state.rebind_button = Some(sel as u8);
                } else {
                    self.enter_page(MenuPage::Main);
                }
            },
            MenuPage::Controller2 => {
                if sel < 8 {
                    self.state.rebind_controller = 1;
                    self.state.rebind_button = Some(sel as u8);
                } else {
                    self.enter_page(MenuPage::Main);
                }
            },
        }
    }

    /// `Left` (`right == false`) or `Right` on the selected item.
    fn adjust(&mut self, right: bool)
        requires
            old(self).wf(),
        ensures
            final(self).state == adjust_step(old(self).state, old(self).limits, right),
            final(self).limits == old(self).limits,
            final(self).pending_bindings@ == old(self).pending_bindings@,
    {
        let page: MenuPage = self.state.page;
        let sel: usize = self.state.selection;
        if page == MenuPage::Rewind && sel == 0 {
            let cap: usize = self.effective_rewind_capacity();
            let new_cap: usize = if right {
                let max: usize = self.limits.max_rewind_capacity;
                let step: usize = if cap >= 1000 {
                    1000
                } else if cap >= 100 {
                    100
                } else if cap >= 10 {
                    10
                } else {
                    1
                };
                if cap < max && max - cap >= step {
                    cap + step
                } else {
                    max
                }
            } else {
                if cap <= 10 {
                    1
                } else if cap <= 100 {
                    cap - 10
                } else if cap <= 1000 {
                    cap - 100
                } else {
                    cap - 1000
                }
            };
            self.state.pending_rewind_capacity = Some(new_cap);
        } else if page == MenuPage::Rewind && sel == 1 {
            let v: bool = !self.effective_branching();
            self.state.pending_branching = Some(v);
        } else if page == MenuPage::Rewind && sel == 2 {
            let v: bool = !self.effective_timeline();
            self.state.pending_timeline = Some(v);
        } else if page == MenuPage::Rewind && sel == 3 {
            let cd: u32 = self.effective_countdown_delay();
            let max: u32 = self.limits.max_countdown_delay_ms;
            let new_cd: u32 = if right {
                if cd >= max {
                    0
                } else if max - cd >= 100 {
                    cd + 100
                } else {
                    max
                }
            } else {
                if cd == 0 {
                    max
                } else if cd >= 100 {
                    cd - 100
                } else {
                    0
                }
            };
            self.state.pending_countdown_delay = Some(new_cd);
        } else if page == MenuPage::Rewind && sel == 4 {
            let n: u32 = self.effective_countdown_start();
            let max: u32 = self.limits.max_countdown_start;
            let new_n: u32 = if right {
                if n >= max {
                    1
                } else {
                    n + 1
                }
            } else {
                if n <= 1 {
                    max
                } else {
                    n - 1
                }
            };
            self.state.pending_countdown_start = Some(new_n);
        } else if page == MenuPage::Turbo && sel == 0 {
            let idx: usize = self.effective_turbo_index();
            let count: usize = self.limits.turbo_speed_count;
            let new_idx: usize = if right {
                if idx >= count - 1 {
                    0
                } else {
                    idx + 1
                }
            } else {
                if idx == 0 {
                    count - 1
                } else {
                    idx - 1
                }
            };
            self.state.pending_turbo_index = Some(new_idx);
        }
    }

    /// Handle a key press. Returns whether the menu consumed it, which it
    /// does with every key while open and with none while closed.
    pub fn handle_key(&mut self, key: i32) -> (consumed: bool)
        requires
            old(self).wf(),
        ensures
            consumed == old(self).state.open,
            final(self).state == key_step(old(self).state, old(self).limits, key),
            final(self).limits == old(self).limits,
            final(self).pending_bindings@ == (match binding_added(old(self).state, key) {
                Some(b) => old(self).pending_bindings@.push(b),
                None => old(self).pending_bindings@,
            }),
    {
        if !self.state.open {
            return false;
        }
        if let Some(btn) = self.state.rebind_button {
            if key != KEY_ESCAPE {
                self.pending_bindings.push((self.state.rebind_controller, btn, key));
            }
            self.state.rebind_button = None;
            return true;
        }
        if key == KEY_ESCAPE {
            if self.state.page == MenuPage::Main {
                self.close();
            } else {
                self.enter_page(MenuPage::Main);
            }
        } else if key == KEY_UP {
            if self.state.selection > 0 {
                self.state.selection = self.state.selection - 1;
            } else {
                self.state.selection = self.page_item_count() - 1;
            }
        } else if key == KEY_DOWN {
            let max: usize = self.page_item_count() - 1;
            if self.state.selection < max {
                self.state.selection = self.state.selection + 1;
            } else {
                self.state.selection = 0;
            }
        } else if key == KEY_RETURN {
            self.activate();
        } else if key == KEY_BACKSPACE {
            if self.state.page != MenuPage::Main {
                self.enter_page(MenuPage::Main);
            }
        } else if key == KEY_LEFT {
            self.adjust(false);
        } else if key == KEY_RIGHT {
            self.adjust(true);
        }
        true
    }
}


/// Every key press keeps the selection on an item of the page shown.
pub proof fn law_selection_stays_on_page(s: MenuState, lim: MenuLimits, key: i32)
    requires
        s.selection < item_count(s.page),
    ensures
        key_step(s, lim, key).selection < item_count(key_step(s, lim, key).page),
{
}

/// `Up` followed by `Down` (and `Down` followed by `Up`) returns to the
/// same state, wrapping included.
pub proof fn law_up_down_cancel(s: MenuState, lim: MenuLimits)
    requires
        s.open,
        s.rebind_button is None,
        s.selection < item_count(s.page),
    ensures
        key_step(key_step(s, lim, KEY_UP), lim, KEY_DOWN) == s,
        key_step(key_step(s, lim, KEY_DOWN), lim, KEY_UP) == s,
{
}

/// `Left` and `Right` keep each adjustable setting within its bounds: the
/// rewind capacity within `1..=max`, the countdown delay within `0..=max`,
/// the countdown start within `1..=max` and the turbo index below the
/// number of speeds.
pub proof fn law_adjusted_settings_stay_in_range(s: MenuState, lim: MenuLimits, key: i32)
    requires
        lim.turbo_speed_count >= 1,
        1 <= lim.max_rewind_capacity,
        1 <= eff_capacity(s) <= lim.max_rewind_capacity,
        eff_countdown_delay(s) <= lim.max_countdown_delay_ms,
        1 <= lim.max_countdown_start,
        1 <= eff_countdown_start(s) <= lim.max_countdown_start,
        eff_turbo_index(s) < lim.turbo_speed_count,
    ensures
        1 <= eff_capacity(key_step(s, lim, key)) <= lim.max_rewind_capacity,
        eff_countdown_delay(key_step(s, lim, key)) <= lim.max_countdown_delay_ms,
        1 <= eff_countdown_start(key_step(s, lim, key)) <= lim.max_countdown_start,
        eff_turbo_index(key_step(s, lim, key)) < lim.turbo_speed_count,
{
}

/// On the rewind page's countdown-start item, `Right` counts up by one
/// (from the largest value back to 1) and `Left` counts down by one (from 1
/// back to the largest value), and one undoes the other.
pub proof fn law_countdown_start_direction(s: MenuState, lim: MenuLimits)
    requires
        s.open,
        s.rebind_button is None,
        s.page == MenuPage::Rewind,
        s.selection == 4,
    ensures
        key_step(s, lim, KEY_RIGHT).pending_countdown_start == Some(
            if eff_countdown_start(s) >= lim.max_countdown_start { 1u32 } else { (eff_countdown_start(s) + 1) as u32 },
        ),
        key_step(s, lim, KEY_LEFT).pending_countdown_start == Some(
            if eff_countdown_start(s) <= 1 { lim.max_countdown_start } else { (eff_countdown_start(s) - 1) as u32 },
        ),
        1 <= eff_countdown_start(s) <= lim.max_countdown_start ==> eff_countdown_start(
            key_step(key_step(s, lim, KEY_RIGHT), lim, KEY_LEFT),
        ) == eff_countdown_start(s),
        1 <= eff_countdown_start(s) <= lim.max_countdown_start ==> eff_countdown_start(
            key_step(key_step(s, lim, KEY_LEFT), lim, KEY_RIGHT),
        ) == eff_countdown_start(s),
{
}

/// On the rewind page's countdown-delay item, `Right` adds 100 ms (up to the
/// largest delay, and from the largest back to 0) and `Left` takes 100 ms
/// off (down to 0, and from 0 back to the largest).
pub proof fn law_countdown_delay_direction(s: MenuState, lim: MenuLimits)
    requires
        s.open,
        s.rebind_button is None,
        s.page == MenuPage::Rewind,
        s.selection == 3,
        eff_countdown_delay(s) <= lim.max_countdown_delay_ms,
    ensures
        eff_countdown_delay(s) + 100 <= lim.max_countdown_delay_ms ==> key_step(s, lim, KEY_RIGHT).pending_countdown_delay
            == Some((eff_countdown_delay(s) + 100) as u32),
        eff_countdown_delay(s) == lim.max_countdown_delay_ms ==> key_step(s, lim, KEY_RIGHT).pending_countdown_delay
            == Some(0u32),
        eff_countdown_delay(s) >= 100 ==> key_step(s, lim, KEY_LEFT).pending_countdown_delay == Some(
            (eff_countdown_delay(s) - 100) as u32,
        ),
        eff_countdown_delay(s) == 0 ==> key_step(s, lim, KEY_LEFT).pending_countdown_delay == Some(
            lim.max_countdown_delay_ms,
        ),
{
}

/// On the rewind page's capacity item, `Right` never lowers the capacity
/// and raises it whenever it is below the largest; `Left` never raises it
/// and lowers it whenever it is above 1.
pub proof fn law_rewind_capacity_direction(s: MenuState, lim: MenuLimits)
    requires
        s.open,
        s.rebind_button is None,
        s.page == MenuPage::Rewind,
        s.selection == 0,
        1 <= eff_capacity(s) <= lim.max_rewind_capacity,
    ensures
        eff_capacity(s) <= eff_capacity(key_step(s, lim, KEY_RIGHT)) <= lim.max_rewind_capacity,
        eff_capacity(s) < lim.max_rewind_capacity ==> eff_capacity(s) < eff_capacity(key_step(s, lim, KEY_RIGHT)),
        1 <= eff_capacity(key_step(s, lim, KEY_LEFT)) <= eff_capacity(s),
        eff_capacity(s) > 1 ==> eff_capacity(key_step(s, lim, KEY_LEFT)) < eff_capacity(s),
{
}

/// On the turbo page, `Right` selects the next speed (from the last back
/// to the first) and `Left` the previous one (from the first back to the
/// last).
pub proof fn law_turbo_speed_direction(s: MenuState, lim: MenuLimits)
    requires
        s.open,
        s.rebind_button is None,
        s.page == MenuPage::Turbo,
        s.selection == 0,
        lim.turbo_speed_count >= 1,
        eff_turbo_index(s) < lim.turbo_speed_count,
    ensures
        key_step(s, lim, KEY_RIGHT).pending_turbo_index == Some(
            if eff_turbo_index(s) + 1 == lim.turbo_speed_count { 0usize } else { (eff_turbo_index(s) + 1) as usize },
        ),
        key_step(s, lim, KEY_LEFT).pending_turbo_index == Some(
            if eff_turbo_index(s) == 0 { (lim.turbo_speed_count - 1) as usize } else { (eff_turbo_index(s) - 1) as usize },
        ),
{
}

} // verus!

verus! {

/// Foreground of the selected row (bright yellow).
pub const MENU_HL_ARGB: u32 = 0xFFFF_FF00;
/// Background of the selected row (dark blue).
pub const MENU_HL_BG_ARGB: u32 = 0xFF00_0010;
/// Colour of the border line along the top of the frame.
pub const MENU_BORDER_ARGB: u32 = 0xFF40_40C0;
/// Foreground of the title row (bright cyan).
pub const MENU_TITLE_ARGB: u32 = 0xFF00_FFFF;
/// Left margin of the menu text, in pixels.
pub const MENU_PAD_X: u32 = 8;
/// Top margin of the menu text, in pixels.
pub const MENU_PAD_Y: u32 = 8;

/// Item `idx` of a page whose selected item is `sel`, marked with `> `
/// when selected and indented by two spaces otherwise.
pub open spec fn item_line(sel: usize, idx: int, text: Seq<char>) -> Seq<char> {
    (if idx == sel { "> "@ } else { "  "@ }) + text
}

pub open spec fn on_off(b: bool) -> Seq<char> {
    if b {
        "ON"@
    } else {
        "OFF"@
    }
}

/// The countdown delay as shown: `OFF` for zero, else milliseconds.
pub open spec fn delay_text(ms: u32) -> Seq<char> {
    if ms == 0 {
        "OFF"@
    } else {
        decimal(ms as nat) + "ms"@
    }
}

/// The key of the latest edited binding of button `btn` of controller
/// `ctrl` in `p`, if any.
pub open spec fn last_binding(p: Seq<(usize, u8, i32)>, ctrl: int, btn: int) -> Option<i32>
    decreases p.len(),
{
    if p.len() == 0 {
        None
    } else if p.last().0 == ctrl && p.last().1 == btn {
        Some(p.last().2)
    } else {
        last_binding(p.drop_last(), ctrl, btn)
    }
}

/// The key shown for a button: its latest edited binding, else its bound
/// key in `bound`, else `---`.
pub open spec fn binding_name(p: Seq<(usize, u8, i32)>, bound: [[Option<i32>; 8]; 2], ctrl: int, btn: int) -> Seq<char> {
    match last_binding(p, ctrl, btn) {
        Some(k) => key_name(k),
        None => match bound@[ctrl]@[btn] {
            Some(k) => key_name(k),
            None => "---"@,
        },
    }
}

/// The row of button `btn` on controller page `ctrl`.
pub open spec fn button_label(
    s: MenuState,
    p: Seq<(usize, u8, i32)>,
    bound: [[Option<i32>; 8]; 2],
    names: Seq<&str>,
    ctrl: int,
    btn: int,
) -> Seq<char> {
    if s.rebind_button == Some(btn as u8) && s.rebind_controller == ctrl {
        names[btn]@ + ": PRESS KEY..."@
    } else {
        names[btn]@ + ": "@ + binding_name(p, bound, ctrl, btn)
    }
}

/// The first `n` button rows of controller page `ctrl`.
pub open spec fn button_rows(
    s: MenuState,
    p: Seq<(usize, u8, i32)>,
    bound: [[Option<i32>; 8]; 2],
    names: Seq<&str>,
    ctrl: int,
    n: int,
) -> Seq<Seq<char>> {
    Seq::new(n as nat, |b: int| item_line(s.selection, b, button_label(s, p, bound, names, ctrl, b)))
}

/// The text rows of the page shown: a title, then one row per item.
/// `bound` holds each controller's bound keys, `names` the button names and
/// `speed` the selected turbo speed as the program spells it.
pub open spec fn menu_lines(
    s: MenuState,
    lim: MenuLimits,
    p: Seq<(usize, u8, i32)>,
    bound: [[Option<i32>; 8]; 2],
    names: Seq<&str>,
    speed: Seq<char>,
) -> Seq<Seq<char>> {
    let sel = s.selection;
    match s.page {
        MenuPage::Main => seq![
            "== NES-EMU MENU =="@,
            item_line(sel, 0, "Debug Options"@),
            item_line(sel, 1, "Rewind Settings"@),
            item_line(sel, 2, "Turbo Speed"@),
            item_line(sel, 3, "Controller 1 Keys"@),
            item_line(sel, 4, "Controller 2 Keys"@),
            item_line(sel, 5, "Close Menu"@),
        ],
        MenuPage::Debug => seq![
            "== DEBUG OPTIONS =="@,
            item_line(sel, 0, "Slant Corruption: "@ + on_off(s.slant_corruption)),
            item_line(sel, 1, "Inaccurate Palette: "@ + on_off(s.inaccurate_palette)),
            item_line(sel, 2, "NMI Retrigger: "@ + on_off(s.nmi_retrigger)),
            item_line(sel, 3, "Ring Buffer Trace: "@ + on_off(eff_ring_buffer_trace(s))),
            item_line(sel, 4, "Back"@),
        ],
        MenuPage::Rewind => seq![
            "== REWIND SETTINGS =="@,
            item_line(
                sel,
                0,
                "Capacity: "@ + decimal(eff_capacity(s) as nat) + " (~"@ + decimal(
                    (eff_capacity(s) * lim.rewind_interval / 60) as nat,
                ) + "s) < >"@,
            ),
            item_line(sel, 1, "Branching: "@ + on_off(eff_branching(s)) + " < >"@),
            item_line(sel, 2, "Timeline: "@ + on_off(eff_timeline(s)) + " < >"@),
            item_line(sel, 3, "Countdown Delay: "@ + delay_text(eff_countdown_delay(s)) + " < >"@),
            item_line(sel, 4, "Countdown Start: "@ + decimal(eff_countdown_start(s) as nat) + " < >"@),
            item_line(sel, 5, "Back"@),
        ],
        MenuPage::Turbo => seq![
            "== TURBO SPEED =="@,
            item_line(sel, 0, "Speed: "@ + speed + "x < >"@),
            item_line(sel, 1, "Back"@),
        ],
        MenuPage::Controller1 => seq!["== CONTROLLER 1 =="@] + button_rows(s, p, bound, names, 0, 8) + seq![
            item_line(sel, 8, "Back"@),
        ],
        MenuPage::Controller2 => seq!["== CONTROLLER 2 =="@] + button_rows(s, p, bound, names, 1, 8) + seq![
            item_line(sel, 8, "Back"@),
        ],
    }
}

fn cat2(a: &str, b: &str) -> (r: String)
    ensures
        r@ == a@ + b@,
{
    let mut t: String = String::from_str(a);
    t.append(b);
    t
}

fn cat3(a: &str, b: &str, c: &str) -> (r: String)
    ensures
        r@ == a@ + b@ + c@,
{
    let mut t: String = String::from_str(a);
    t.append(b);
    t.append(c);
    t
}

fn on_off_str(b: bool) -> (r: &'static str)
    ensures
        r@ == on_off(b),
{
    if b {
        "ON"
    } else {
        "OFF"
    }
}

impl Menu {
    /// Item `idx` of the current page, marked when selected.
    pub fn fmt_item(&self, idx: usize, text: &str) -> (r: String)
        ensures
            r@ == item_line(self.state.selection, idx as int, text@),
    {
        if idx == self.state.selection {
            cat2("> ", text)
        } else {
            cat2("  ", text)
        }
    }

    /// The key of the latest edited binding of button `btn` of controller
    /// `ctrl`, if any.
    fn latest_binding(&self, ctrl: usize, btn: u8) -> (r: Option<i32>)
        ensures
            r == last_binding(self.pending_bindings@, ctrl as int, btn as int),
    {
        let ghost p = self.pending_bindings@;
        let mut i: usize = self.pending_bindings.len();
        assert(p.take(i as int) =~= p);
        while i > 0
            invariant
                i <= p.len(),
                p == self.pending_bindings@,
                last_binding(p, ctrl as int, btn as int) == last_binding(p.take(i as int), ctrl as int, btn as int),
            decreases i,
        {
            let e: (usize, u8, i32) = self.pending_bindings[i - 1];
            assert(p.take(i as int).drop_last() =~= p.take(i - 1));
            if e.0 == ctrl && e.1 == btn {
                return Some(e.2);
            }
            i = i - 1;
        }
        assert(p.take(0) =~= Seq::<(usize, u8, i32)>::empty());
        None
    }

    /// The row of button `btn` on controller page `ctrl`.
    fn button_row(&self, bound: &[[Option<i32>; 8]; 2], names: &[&str; 8], ctrl: usize, btn: u8) -> (r: String)
        requires
            ctrl < 2,
            btn < 8,
        ensures
            r@ == item_line(
                self.state.selection,
                btn as int,
                button_label(self.state, self.pending_bindings@, *bound, names@, ctrl as int, btn as int),
            ),
    {
        let name: &str = names[btn as usize];
        let label: String = if self.state.rebind_button == Some(btn) && self.state.rebind_controller == ctrl {
            cat2(name, ": PRESS KEY...")
        } else {
            let shown: &str = match self.latest_binding(ctrl, btn) {
                Some(k) => keycode_to_name(k),
                None => match bound[ctrl][btn as usize] {
                    Some(k) => keycode_to_name(k),
                    None => "---",
                },
            };
            cat3(name, ": ", shown)
        };
        self.fmt_item(btn as usize, label.as_str())
    }

    /// The text rows of the page shown (see [`menu_lines`]).
    pub fn build_lines(&self, bound: &[[Option<i32>; 8]; 2], names: &[&str; 8], speed_text: &str) -> (r: Vec<String>)
        ensures
            texts(r@) == menu_lines(self.state, self.limits, self.pending_bindings@, *bound, names@, speed_text@),
    {
        let ghost want = menu_lines(self.state, self.limits, self.pending_bindings@, *bound, names@, speed_text@);
        let mut lines: Vec<String> = Vec::new();
        match self.state.page {
            MenuPage::Main => {
                lines.push(String::from_str("== NES-EMU MENU =="));
                lines.push(self.fmt_item(0, "Debug Options"));
                lines.push(self.fmt_item(1, "Rewind Settings"));
                lines.push(self.fmt_item(2, "Turbo Speed"));
                lines.push(self.fmt_item(3, "Controller 1 Keys"));
                lines.push(self.fmt_item(4, "Controller 2 Keys"));
                lines.push(self.fmt_item(5, "Close Menu"));
                assert(texts(lines@) =~= want);
            },
            MenuPage::Debug => {
                lines.push(String::from_str("== DEBUG OPTIONS =="));
                let t: String = cat2("Slant Corruption: ", on_off_str(self.state.slant_corruption));
                lines.push(self.fmt_item(0, t.as_str()));
                let t: String = cat2("Inaccurate Palette: ", on_off_str(self.state.inaccurate_palette));
                lines.push(self.fmt_item(1, t.as_str()));
                let t: String = cat2("NMI Retrigger: ", on_off_str(self.state.nmi_retrigger));
                lines.push(self.fmt_item(2, t.as_str()));
                let t: String = cat2("Ring Buffer Trace: ", on_off_str(self.effective_ring_buffer_trace()));
                lines.push(self.fmt_item(3, t.as_str()));
                lines.push(self.fmt_item(4, "Back"));
                assert(texts(lines@) =~= want);
            },
            MenuPage::Rewind => {
                lines.push(String::from_str("== REWIND SETTINGS =="));
                let cap: usize = self.effective_rewind_capacity();
                let interval: u32 = self.limits.rewind_interval;
                assert((cap as u128) * (interval as u128) <= 0xFFFF_FFFF_FFFF_FFFF_FFFF_FFFFu128) by (nonlinear_arith)
                    requires
                        cap <= usize::MAX,
                        usize::MAX <= 0xFFFF_FFFF_FFFF_FFFFu128,
                        interval <= u32::MAX,
                ;
                let secs: u128 = (cap as u128) * (interval as u128) / 60;
                assert(secs == eff_capacity(self.state) * self.limits.rewind_interval / 60);
                let mut t: String = String::from_str("Capacity: ");
                push_decimal(&mut t, cap as u128);
                t.append(" (~");
                push_decimal(&mut t, secs);
                t.append("s) < >");
                assert(t@ =~= "Capacity: "@ + decimal(eff_capacity(self.state) as nat) + " (~"@ + decimal(
                    (eff_capacity(self.state) * self.limits.rewind_interval / 60) as nat,
                ) + "s) < >"@);
                lines.push(self.fmt_item(0, t.as_str()));
                let t: String = cat3("Branching: ", on_off_str(self.effective_branching()), " < >");
                lines.push(self.fmt_item(1, t.as_str()));
                let t: String = cat3("Timeline: ", on_off_str(self.effective_timeline()), " < >");
                lines.push(self.fmt_item(2, t.as_str()));
                let cd: u32 = self.effective_countdown_delay();
                let mut t: String = String::from_str("Countdown Delay: ");
                if cd == 0 {
                    t.append("OFF");
                } else {
                    push_decimal(&mut t, cd as u128);
                    t.append("ms");
                }
                t.append(" < >");
                assert(t@ =~= "Countdown Delay: "@ + delay_text(eff_countdown_delay(self.state)) + " < >"@);
                lines.push(self.fmt_item(3, t.as_str()));
                let mut t: String = String::from_str("Countdown Start: ");
                push_decimal(&mut t, self.effective_countdown_start() as u128);
                t.append(" < >");
                assert(t@ =~= "Countdown Start: "@ + decimal(eff_countdown_start(self.state) as nat) + " < >"@);
                lines.push(self.fmt_item(4, t.as_str()));
                lines.push(self.fmt_item(5, "Back"));
                assert(texts(lines@) =~= want);
            },
            MenuPage::Turbo => {
                lines.push(String::from_str("== TURBO SPEED =="));
                let t: String = cat3("Speed: ", speed_text, "x < >");
                lines.push(self.fmt_item(0, t.as_str()));
                lines.push(self.fmt_item(1, "Back"));
                assert(texts(lines@) =~= want);
            },
            _ => {
                let ctrl: usize = if self.state.page == MenuPage::Controller1 { 0 } else { 1 };
                if ctrl == 0 {
                    lines.push(String::from_str("== CONTROLLER 1 =="));
                } else {
                    lines.push(String::from_str("== CONTROLLER 2 =="));
                }
                let ghost title = texts(lines@);
                let mut btn: u8 = 0;
                while btn < 8
                    invariant
                        btn <= 8,
                        ctrl < 2,
                        texts(lines@) =~= title + button_rows(
                            self.state,
                            self.pending_bindings@,
                            *bound,
                            names@,
                            ctrl as int,
                            btn as int,
                        ),
                    decreases 8 - btn,
                {
                    let row: String = self.button_row(bound, names, ctrl, btn);
                    let ghost before = lines@;
                    lines.push(row);
                    proof {
                        assert(texts(lines@) =~= texts(before).push(row@));
                        assert(button_rows(self.state, self.pending_bindings@, *bound, names@, ctrl as int, btn + 1)
                            =~= button_rows(self.state, self.pending_bindings@, *bound, names@, ctrl as int, btn as int).push(
                            row@));
                    }
                    btn = btn + 1;
                }
                let ghost rows = texts(lines@);
                let back: String = self.fmt_item(8, "Back");
                lines.push(back);
                proof {
                    assert(texts(lines@) =~= rows.push(back@));
                    if ctrl == 0 {
                        assert(title =~= seq!["== CONTROLLER 1 =="@]);
                    } else {
                        assert(title =~= seq!["== CONTROLLER 2 =="@]);
                    }
                    assert(texts(lines@) =~= want);
                }
            },
        }
        lines
    }
}

/// Whether glyph `c` in `glyphs` has its pixel `(gx, gy)` set.
pub open spec fn glyph_bit(glyphs: Seq<[u8; 8]>, c: char, gx: int, gy: int) -> bool {
    (glyph_rows(glyphs, c)[gy] >> ((7 - gx) as u8)) & 1 != 0
}

/// Whether text row `i` is drawn highlighted: the row of the selected item,
/// among the rows that the page highlights.
pub open spec fn row_selected(page: MenuPage, sel: usize, i: int) -> bool {
    let last: int = match page {
        MenuPage::Main => 6,
        MenuPage::Debug => 4,
        MenuPage::Rewind => 3,
        MenuPage::Turbo => 2,
        MenuPage::Controller1 => 9,
        MenuPage::Controller2 => 9,
    };
    1 <= i <= last && i - 1 == sel
}

/// Text colour of row `i`.
pub open spec fn row_fg(page: MenuPage, sel: usize, i: int) -> u32 {
    if i == 0 {
        MENU_TITLE_ARGB
    } else if row_selected(page, sel, i) {
        MENU_HL_ARGB
    } else {
        OSD_FG_ARGB
    }
}

/// Cell background of row `i`.
pub open spec fn row_bg(page: MenuPage, sel: usize, i: int) -> u32 {
    if row_selected(page, sel, i) {
        MENU_HL_BG_ARGB
    } else {
        OSD_BG_ARGB
    }
}

/// A pixel darkened to 40% of each colour channel, made opaque.
pub open spec fn blend_dark(orig: u32) -> u32 {
    let r = (orig >> 16u32) & 0xFF;
    let g = (orig >> 8u32) & 0xFF;
    let b = orig & 0xFF;
    0xFF00_0000u32 | (((r * 40 / 100) as u32) << 16u32) | (((g * 40 / 100) as u32) << 8u32) | ((b * 40 / 100) as u32)
}

/// The menu pixel at index `idx` of a row-major `width` × `height` frame
/// over the pixel `under`: row `l` of `lines` is drawn from `y = 8 + 8l`
/// (rows that do not fit whole are dropped) and its character `k` from
/// `x = 8 + 8k` (characters that do not fit whole are dropped); the top
/// row of the frame is the border; the rest of the band of `8 + 8n + 8`
/// rows behind the text is darkened; everything else is left alone.
pub open spec fn menu_pixel(
    lines: Seq<Seq<char>>,
    page: MenuPage,
    sel: usize,
    glyphs: Seq<[u8; 8]>,
    width: int,
    height: int,
    idx: int,
    under: u32,
) -> u32 {
    if width <= 0 {
        under
    } else {
        let py = idx / width;
        let px = idx % width;
        let l = (py - 8) / 8;
        let k = (px - 8) / 8;
        if py < height && py >= 8 && px >= 8 && l < lines.len() && 8 * l + 16 <= height
            && k < lines[l].len() && 8 * k + 16 <= width {
            if glyph_bit(glyphs, lines[l][k], (px - 8) % 8, (py - 8) % 8) {
                row_fg(page, sel, l)
            } else {
                row_bg(page, sel, l)
            }
        } else if idx < width {
            MENU_BORDER_ARGB
        } else if py < height && py < 8 * lines.len() + 16 {
            blend_dark(under)
        } else {
            under
        }
    }
}

fn blend_dark_pixel(orig: u32) -> (r: u32)
    ensures
        r == blend_dark(orig),
{
    let r: u32 = (orig >> 16) & 0xFF;
    let g: u32 = (orig >> 8) & 0xFF;
    let b: u32 = orig & 0xFF;
    proof {
        crate::bits::lemma_u32_masks(orig >> 16u32);
        crate::bits::lemma_u32_masks(orig >> 8u32);
        crate::bits::lemma_u32_masks(orig);
    }
    let nr: u32 = r * 40 / 100;
    let ng: u32 = g * 40 / 100;
    let nb: u32 = b * 40 / 100;
    0xFF00_0000u32 | (nr << 16) | (ng << 8) | nb
}

impl Menu {
    /// Draw the open menu into `fb` (`width` × `height`, row-major): each
    /// pixel becomes its [`menu_pixel`] for the page's text rows. A closed
    /// menu draws nothing.
    pub fn render(
        &self,
        fb: &mut [u32],
        width: u32,
        height: u32,
        bound: &[[Option<i32>; 8]; 2],
        names: &[&str; 8],
        speed_text: &str,
        glyphs: &[[u8; 8]],
    )
        ensures
            final(fb)@.len() == old(fb)@.len(),
            !self.state.open ==> final(fb)@ == old(fb)@,
            self.state.open ==> forall|i: int|
                0 <= i < old(fb)@.len() ==> #[trigger] final(fb)@[i] == menu_pixel(
                    menu_lines(self.state, self.limits, self.pending_bindings@, *bound, names@, speed_text@),
                    self.state.page,
                    self.state.selection,
                    glyphs@,
                    width as int,
                    height as int,
                    i,
                    old(fb)@[i],
                ),
    {
        if !self.state.open {
            return;
        }
        let lines: Vec<String> = self.build_lines(bound, names, speed_text);
        let ghost ls = texts(lines@);
        let ghost fb0 = fb@;
        if width == 0 {
            return;
        }
        assert(ls.len() <= 10);
        let n: u128 = lines.len() as u128;
        let w: u128 = width as u128;
        let h: u128 = height as u128;
        let mut idx: usize = 0;
        while idx < fb.len()
            invariant
                fb@.len() == fb0.len(),
                idx <= fb0.len(),
                width > 0,
                w == width,
                h == height,
                n == ls.len(),
                n <= 10,
                ls == texts(lines@),
                forall|j: int| 0 <= j < idx ==> #[trigger] fb@[j] == menu_pixel(
                    ls,
                    self.state.page,
                    self.state.selection,
                    glyphs@,
                    width as int,
                    height as int,
                    j,
                    fb0[j],
                ),
                forall|j: int| idx <= j < fb0.len() ==> #[trigger] fb@[j] == fb0[j],
            decreases fb0.len() - idx,
        {
            let i: u128 = idx as u128;
            let py: u128 = i / w;
            let px: u128 = i % w;
            let under: u32 = fb[idx];
            let mut color: u32 = under;
            let mut drawn: bool = false;
            if py < h && py >= 8 && px >= 8 {
                let l: u128 = (py - 8) / 8;
                let k: u128 = (px - 8) / 8;
                if l < n && 8 * l + 16 <= h {
                    let line: &str = lines[l as usize].as_str();
                    let len: usize = line.unicode_len();
                    if k < len as u128 && 8 * k + 16 <= w {
                        let c: char = line.get_char(k as usize);
                        let gy: usize = ((py - 8) % 8) as usize;
                        let gx: u32 = ((px - 8) % 8) as u32;
                        let code: usize = c as u32 as usize;
                        let row: u8 = if code < glyphs.len() { glyphs[code][gy] } else { 0 };
                        let bit: u8 = (row >> ((7 - gx) as u8)) & 1;
                        let lu: usize = l as usize;
                        let sel: usize = self.state.selection;
                        let last: usize = match self.state.page {
                            MenuPage::Main => 6,
                            MenuPage::Debug => 4,
                            MenuPage::Rewind => 3,
                            MenuPage::Turbo => 2,
                            MenuPage::Controller1 => 9,
                            MenuPage::Controller2 => 9,
                        };
                        let selected: bool = 1 <= lu && lu <= last && lu - 1 == sel;
                        let fg: u32 = if lu == 0 {
                            MENU_TITLE_ARGB
                        } else if selected {
                            MENU_HL_ARGB
                        } else {
                            OSD_FG_ARGB
                        };
                        let bg: u32 = if selected { MENU_HL_BG_ARGB } else { OSD_BG_ARGB };
                        color = if bit != 0 { fg } else { bg };
                        drawn = true;
                    }
                }
            }
            if !drawn {
                if i < w {
                    color = MENU_BORDER_ARGB;
                } else if py < h && py < 8 * n + 16 {
                    color = blend_dark_pixel(under);
                }
            }
            assert(color == menu_pixel(
                ls,
                self.state.page,
                self.state.selection,
                glyphs@,
                width as int,
                height as int,
                idx as int,
                fb0[idx as int],
            ));
            fb[idx] = color;
            idx = idx + 1;
        }
    }
}

} // verus!
