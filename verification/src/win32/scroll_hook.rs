//! The mouse hook of scroll mode and of recording a trigger, and the wheel
//! amounts that wait to be injected.
//!
//! The hook sees every mouse event before anyone else and may swallow it. It
//! never injects input itself: amounts are collected here, and one message is
//! posted to inject them later.

use crate::place::{cursor_inside_window, ScreenRect};
use crate::scroll::{
    clamp_int, notches_out, travel_left, ScrollCfg, ScrollEngine, TriggerBtn, NOTCHES_MAX,
    SCROLL_PX_MAX, SCROLL_PX_MIN,
};
use crate::speed::{clamp, clamped};
use vstd::prelude::*;

verus! {

pub const WM_MOUSEMOVE: u32 = 0x0200;

pub const WM_LBUTTONDOWN: u32 = 0x0201;

pub const WM_LBUTTONUP: u32 = 0x0202;

pub const WM_RBUTTONDOWN: u32 = 0x0204;

pub const WM_RBUTTONUP: u32 = 0x0205;

pub const WM_MBUTTONDOWN: u32 = 0x0207;

pub const WM_MBUTTONUP: u32 = 0x0208;

pub const WM_XBUTTONDOWN: u32 = 0x020B;

pub const WM_XBUTTONUP: u32 = 0x020C;

/// Flag of an event that a program made.
pub const LLMHF_INJECTED: u32 = 1;

/// Most that one injected wheel event carries.
pub const WHEEL_LIMIT: i32 = 32760;

/// What the hook and its host share.
#[derive(Debug, Clone, Copy, PartialEq, Eq, Structural)]
pub struct HookState {
    /// The hook is installed.
    pub installed: bool,
    /// A menu of the tool is open; scroll mode rests meanwhile.
    pub menu_open: bool,
    /// The next button pressed becomes the trigger.
    pub capturing: bool,
    /// Wheel amount collected and not yet injected.
    pub pending_wheel: i32,
    /// A message to inject the amount is on its way.
    pub inject_posted: bool,
    /// Raw movement is being received.
    pub raw_registered: bool,
    /// Time of the event that ended the last recording; `None` before any ended.
    pub capture_end_time: Option<u32>,
}

/// A mouse event as the hook sees it.
#[derive(Debug, Clone, Copy, PartialEq, Eq, Structural)]
pub struct MouseEvent {
    pub msg: u32,
    /// The number of the side button is in the high half.
    pub mouse_data: u32,
    /// A program made the event.
    pub injected: bool,
    pub time: u32,
}

/// What the hook does with an event.
#[derive(Debug, Clone, Copy, PartialEq, Eq, Structural)]
pub enum Verdict {
    /// Lets it through.
    Pass,
    /// Swallows it: it ended the recording without a trigger.
    CancelCapture,
    /// Swallows it: it is the new trigger.
    Record(TriggerBtn),
    /// Swallows it: scroll mode begins.
    ScrollOn,
    /// Swallows it: scroll mode ends.
    ScrollOff,
    /// Swallows it: the pointer stays where it is.
    Freeze,
}

/// The message is a button going down.
pub open spec fn is_down(msg: u32) -> bool {
    msg == WM_LBUTTONDOWN || msg == WM_RBUTTONDOWN || msg == WM_MBUTTONDOWN || msg == WM_XBUTTONDOWN
}

/// The button that goes down; side buttons other than the first two are none.
pub open spec fn pressed_button(msg: u32, mouse_data: u32) -> Option<TriggerBtn> {
    if msg == WM_LBUTTONDOWN {
        Some(TriggerBtn::Left)
    } else if msg == WM_RBUTTONDOWN {
        Some(TriggerBtn::Right)
    } else if msg == WM_MBUTTONDOWN {
        Some(TriggerBtn::Middle)
    } else if msg == WM_XBUTTONDOWN && mouse_data / 0x10000 == 1 {
        Some(TriggerBtn::X1)
    } else if msg == WM_XBUTTONDOWN && mouse_data / 0x10000 == 2 {
        Some(TriggerBtn::X2)
    } else {
        None
    }
}

/// The button that goes up, likewise.
pub open spec fn released_button(msg: u32, mouse_data: u32) -> Option<TriggerBtn> {
    if msg == WM_LBUTTONUP {
        Some(TriggerBtn::Left)
    } else if msg == WM_RBUTTONUP {
        Some(TriggerBtn::Right)
    } else if msg == WM_MBUTTONUP {
        Some(TriggerBtn::Middle)
    } else if msg == WM_XBUTTONUP && mouse_data / 0x10000 == 1 {
        Some(TriggerBtn::X1)
    } else if msg == WM_XBUTTONUP && mouse_data / 0x10000 == 2 {
        Some(TriggerBtn::X2)
    } else {
        None
    }
}

/// What the hook does with an event.
///
/// Injected events pass. While a trigger is recorded, a button going down ends
/// the recording: inside a menu the left and right button, and a button that
/// cannot be a trigger, cancel it; every other button that can be a trigger is
/// recorded. Otherwise, unless a menu is open or scroll mode is off, the
/// trigger begins scroll mode, and while it lasts the trigger going up ends it
/// and movement is held back.
pub open spec fn verdict(
    h: HookState,
    active: bool,
    ev: MouseEvent,
    inside_menu: bool,
    scroll: Option<ScrollCfg>,
) -> Verdict {
    let pressed = pressed_button(ev.msg, ev.mouse_data);
    if ev.injected {
        Verdict::Pass
    } else if h.capturing {
        if !is_down(ev.msg) {
            Verdict::Pass
        } else {
            match pressed {
                Some(t) => if inside_menu && (t == TriggerBtn::Left || t == TriggerBtn::Right) {
                    Verdict::CancelCapture
                } else {
                    Verdict::Record(t)
                },
                None => if inside_menu {
                    Verdict::CancelCapture
                } else {
                    Verdict::Pass
                },
            }
        }
    } else if h.menu_open {
        Verdict::Pass
    } else {
        match scroll {
            Some(cfg) => if pressed == Some(cfg.trigger) {
                Verdict::ScrollOn
            } else if active && released_button(ev.msg, ev.mouse_data) == Some(cfg.trigger) {
                Verdict::ScrollOff
            } else if active && ev.msg == WM_MOUSEMOVE {
                Verdict::Freeze
            } else {
                Verdict::Pass
            },
            None => Verdict::Pass,
        }
    }
}

impl HookState {
    /// Nothing installed, recorded or collected.
    pub open spec fn idle() -> HookState {
        HookState {
            installed: false,
            menu_open: false,
            capturing: false,
            pending_wheel: 0,
            inject_posted: false,
            raw_registered: false,
            capture_end_time: None,
        }
    }

    /// Nothing installed, recorded or collected.
    pub fn new() -> (r: HookState)
        ensures
            r == HookState::idle(),
    {
        HookState {
            installed: false,
            menu_open: false,
            capturing: false,
            pending_wheel: 0,
            inject_posted: false,
            raw_registered: false,
            capture_end_time: None,
        }
    }

    /// A wheel amount was collected: a message to inject it is on its way.
    pub open spec fn with_wheel(self, units: i32) -> HookState {
        HookState {
            pending_wheel: self.pending_wheel.wrapping_add(units),
            inject_posted: true,
            ..self
        }
    }

    /// The message could not be posted.
    pub open spec fn unposted(self) -> HookState {
        HookState { inject_posted: false, ..self }
    }

    /// The amount was taken to be injected.
    pub open spec fn flushed(self) -> HookState {
        HookState { pending_wheel: 0, inject_posted: false, ..self }
    }

    /// The event at `time` ended the recording.
    pub open spec fn recorded_at(self, time: u32) -> HookState {
        HookState { capturing: false, capture_end_time: Some(time), ..self }
    }

    /// A menu opened or closed.
    pub open spec fn with_menu(self, open: bool) -> HookState {
        HookState { menu_open: open, capturing: self.capturing && open, ..self }
    }

    /// A recording began.
    pub open spec fn armed(self) -> HookState {
        HookState { capturing: true, ..self }
    }

    /// The state after an event at `time` that got the verdict `v`.
    pub open spec fn after_event(self, v: Verdict, time: u32) -> HookState {
        match v {
            Verdict::CancelCapture | Verdict::Record(_) => self.recorded_at(time),
            _ => self,
        }
    }

    /// Scroll mode was switched on or off.
    pub open spec fn switched(self, on: bool) -> HookState {
        if on {
            HookState { raw_registered: true, ..self }
        } else {
            HookState {
                installed: false,
                capturing: false,
                pending_wheel: 0,
                inject_posted: false,
                raw_registered: false,
                ..self
            }
        }
    }

    /// What is to be done to switch scroll mode on or off.
    pub open spec fn switch_work(self, on: bool) -> SwitchWork {
        SwitchWork {
            install_hook: on && !self.installed,
            register_raw: on && !self.raw_registered,
            remove_hook: !on && self.installed,
            unregister_raw: !on && self.raw_registered,
        }
    }

    /// The amount to inject, if there is any.
    pub open spec fn wheel_out(self) -> Option<i32> {
        if self.pending_wheel == 0 {
            None
        } else {
            Some(
                clamp_int(
                    self.pending_wheel as int,
                    -WHEEL_LIMIT as int,
                    WHEEL_LIMIT as int,
                ) as i32,
            )
        }
    }

    /// Raw movement is turned into wheel amounts.
    pub open spec fn counts(
        self,
        active: bool,
        absolute: bool,
        last_y: i32,
        lines_per_notch: i32,
    ) -> bool {
        active && !self.menu_open && !absolute && last_y != 0 && lines_per_notch > 0
    }

    /// Where an amount waits, a message to inject it is on its way.
    pub open spec fn wheel_will_flush(self) -> bool {
        self.pending_wheel != 0 ==> self.inject_posted
    }
}

/// Stops recording a trigger.
pub fn cancel_capture(h: &mut HookState)
    ensures
        *final(h) == (HookState { capturing: false, ..*old(h) }),
{
    h.capturing = false;
}

/// The event at `event_time` ended the recording.
pub fn finish_capture(h: &mut HookState, event_time: u32)
    ensures
        *final(h) == old(h).recorded_at(event_time),
{
    h.capture_end_time = Some(event_time);
    cancel_capture(h);
}

/// Whether the event at `event_time` is the one that ended the last recording;
/// before any recording ended, none is. Such a click outside the menu does not
/// close it.
pub fn is_capture_end_event(h: &HookState, event_time: u32) -> (r: bool)
    ensures
        r == (h.capture_end_time == Some(event_time)),
{
    match h.capture_end_time {
        Some(t) => t == event_time,
        None => false,
    }
}

/// Whether a trigger is being recorded.
pub fn is_capturing(h: &HookState) -> (r: bool)
    ensures
        r == h.capturing,
{
    h.capturing
}

/// A menu opened or closed; closing it stops the recording.
pub fn set_menu_open(h: &mut HookState, open: bool)
    ensures
        *final(h) == old(h).with_menu(open),
{
    h.menu_open = open;
    if !open {
        cancel_capture(h);
    }
}

/// Begins recording a trigger; returns whether the hook is to be installed for
/// it first.
pub fn arm_capture(h: &mut HookState) -> (install: bool)
    ensures
        *final(h) == old(h).armed(),
        install == !old(h).installed,
{
    h.capturing = true;
    !h.installed
}

/// Whether the message is a button going down.
pub fn is_button_down_msg(msg: u32) -> (r: bool)
    ensures
        r == is_down(msg),
{
    msg == WM_LBUTTONDOWN || msg == WM_RBUTTONDOWN || msg == WM_MBUTTONDOWN || msg == WM_XBUTTONDOWN
}

/// The button that goes down.
pub fn trigger_from(msg: u32, mouse_data: u32) -> (r: Option<TriggerBtn>)
    ensures
        r == pressed_button(msg, mouse_data),
{
    match msg {
        WM_LBUTTONDOWN => Some(TriggerBtn::Left),
        WM_RBUTTONDOWN => Some(TriggerBtn::Right),
        WM_MBUTTONDOWN => Some(TriggerBtn::Middle),
        WM_XBUTTONDOWN => match mouse_data / 0x10000 {
            1 => Some(TriggerBtn::X1),
            2 => Some(TriggerBtn::X2),
            _ => None,
        },
        _ => None,
    }
}

/// Whether the event is the button `t` going down.
pub fn matches_down(msg: u32, mouse_data: u32, t: TriggerBtn) -> (r: bool)
    ensures
        r == (pressed_button(msg, mouse_data) == Some(t)),
{
    match t {
        TriggerBtn::Left => msg == WM_LBUTTONDOWN,
        TriggerBtn::Right => msg == WM_RBUTTONDOWN,
        TriggerBtn::Middle => msg == WM_MBUTTONDOWN,
        TriggerBtn::X1 => msg == WM_XBUTTONDOWN && mouse_data / 0x10000 == 1,
        TriggerBtn::X2 => msg == WM_XBUTTONDOWN && mouse_data / 0x10000 == 2,
    }
}

/// Whether the event is the button `t` going up.
pub fn matches_up(msg: u32, mouse_data: u32, t: TriggerBtn) -> (r: bool)
    ensures
        r == (released_button(msg, mouse_data) == Some(t)),
{
    match t {
        TriggerBtn::Left => msg == WM_LBUTTONUP,
        TriggerBtn::Right => msg == WM_RBUTTONUP,
        TriggerBtn::Middle => msg == WM_MBUTTONUP,
        TriggerBtn::X1 => msg == WM_XBUTTONUP && mouse_data / 0x10000 == 1,
        TriggerBtn::X2 => msg == WM_XBUTTONUP && mouse_data / 0x10000 == 2,
    }
}

/// The hook saw an event. `inside_menu` is whether it is inside a menu of the
/// tool, and `scroll` the scroll mode settings in force.
pub fn on_mouse_event(
    h: &mut HookState,
    engine: &mut ScrollEngine,
    ev: MouseEvent,
    inside_menu: bool,
    scroll: Option<ScrollCfg>,
) -> (r: Verdict)
    ensures
        r == verdict(*old(h), old(engine).active, ev, inside_menu, scroll),
        *final(h) == old(h).after_event(r, ev.time),
        match r {
            Verdict::ScrollOn => {
                &&& final(engine).accum.pending() == 0
                &&& *final(engine) == (ScrollEngine {
                    active: true,
                    accum: final(engine).accum,
                    ..*old(engine)
                })
            },
            Verdict::ScrollOff => *final(engine) == (ScrollEngine {
                active: false,
                ..*old(engine)
            }),
            _ => *final(engine) == *old(engine),
        },
{
    if ev.injected {
        return Verdict::Pass;
    }
    if h.capturing {
        if !is_button_down_msg(ev.msg) {
            return Verdict::Pass;
        }
        return match trigger_from(ev.msg, ev.mouse_data) {
            Some(t) => {
                finish_capture(h, ev.time);
                if inside_menu && (t == TriggerBtn::Left || t == TriggerBtn::Right) {
                    Verdict::CancelCapture
                } else {
                    Verdict::Record(t)
                }
            },
            None => if inside_menu {
                finish_capture(h, ev.time);
                Verdict::CancelCapture
            } else {
                Verdict::Pass
            },
        };
    }
    if h.menu_open {
        return Verdict::Pass;
    }
    match scroll {
        Some(cfg) => if matches_down(ev.msg, ev.mouse_data, cfg.trigger) {
            engine.accum.reset();
            engine.active = true;
            Verdict::ScrollOn
        } else if engine.active && matches_up(ev.msg, ev.mouse_data, cfg.trigger) {
            engine.active = false;
            Verdict::ScrollOff
        } else if engine.active && ev.msg == WM_MOUSEMOVE {
            Verdict::Freeze
        } else {
            Verdict::Pass
        },
        None => Verdict::Pass,
    }
}

/// Collects a wheel amount; returns whether a message to inject it is to be
/// posted, which is so unless one is on its way already.
pub fn queue_wheel(h: &mut HookState, units: i32) -> (post: bool)
    ensures
        post == !old(h).inject_posted,
        *final(h) == old(h).with_wheel(units),
{
    h.pending_wheel = h.pending_wheel.wrapping_add(units);
    let post = !h.inject_posted;
    h.inject_posted = true;
    post
}

/// Posting the message failed; the next amount tries again.
pub fn post_failed(h: &mut HookState)
    ensures
        *final(h) == old(h).unposted(),
{
    h.inject_posted = false;
}

/// The message to inject arrived: the amount to inject, if there is any.
pub fn flush_pending_wheel(h: &mut HookState) -> (r: Option<i32>)
    ensures
        *final(h) == old(h).flushed(),
        r == old(h).wheel_out(),
{
    h.inject_posted = false;
    let units: i32 = h.pending_wheel;
    h.pending_wheel = 0;
    if units == 0 {
        None
    } else if units < -WHEEL_LIMIT {
        Some(-WHEEL_LIMIT)
    } else if units > WHEEL_LIMIT {
        Some(WHEEL_LIMIT)
    } else {
        Some(units)
    }
}

/// Raw movement arrived: `last_y` pixels down, or a position when `absolute`.
/// While scroll mode is on and no menu is open, relative movement is turned
/// into a wheel amount by the settings `cfg` and the lines per notch of the
/// system. Returns whether a message to inject it is to be posted.
pub fn on_raw_input(
    h: &mut HookState,
    engine: &mut ScrollEngine,
    absolute: bool,
    last_y: i32,
    cfg: ScrollCfg,
    lines_per_notch: i32,
) -> (post: bool)
    ensures
        ({
            let px = clamped(cfg.px_per_line, SCROLL_PX_MIN, SCROLL_PX_MAX);
            let notch = px * lines_per_notch;
            let before = old(engine).accum.pending();
            let n = clamp_int(
                notches_out(before, last_y as int, notch),
                -NOTCHES_MAX as int,
                NOTCHES_MAX as int,
            );
            let counts = old(h).counts(old(engine).active, absolute, last_y, lines_per_notch);
            &&& *final(engine) == (ScrollEngine { accum: final(engine).accum, ..*old(engine) })
            &&& final(engine).accum.pending() == (if counts {
                travel_left(before, last_y as int, notch)
            } else {
                before
            })
            &&& if counts && n != 0 {
                &&& post == !old(h).inject_posted
                &&& *final(h) == old(h).with_wheel((120 * n) as i32)
            } else {
                !post && *final(h) == *old(h)
            }
        }),
{
    if !engine.active || h.menu_open || absolute || last_y == 0 {
        return false;
    }
    let px: u32 = clamp(cfg.px_per_line, SCROLL_PX_MIN, SCROLL_PX_MAX);
    let units: i32 = engine.accum.feed(last_y, px as i32, lines_per_notch);
    if units != 0 {
        queue_wheel(h, units)
    } else {
        false
    }
}

/// What is to be done to switch scroll mode on or off.
#[derive(Debug, Clone, Copy, PartialEq, Eq, Structural)]
pub struct SwitchWork {
    pub install_hook: bool,
    pub register_raw: bool,
    pub remove_hook: bool,
    pub unregister_raw: bool,
}

/// Scroll mode is to be on or off. What is there already is not set up again.
/// Switching off forgets the held trigger, the recording and the amounts that
/// wait.
pub fn set_enabled(h: &mut HookState, engine: &mut ScrollEngine, on: bool) -> (r: SwitchWork)
    ensures
        r == old(h).switch_work(on),
        *final(h) == old(h).switched(on),
        *final(engine) == (if on {
            *old(engine)
        } else {
            ScrollEngine { active: false, ..*old(engine) }
        }),
{
    let work = SwitchWork {
        install_hook: on && !h.installed,
        register_raw: on && !h.raw_registered,
        remove_hook: !on && h.installed,
        unregister_raw: !on && h.raw_registered,
    };
    if on {
        h.raw_registered = true;
    } else {
        engine.active = false;
        h.capturing = false;
        h.pending_wheel = 0;
        h.inject_posted = false;
        h.raw_registered = false;
        h.installed = false;
    }
    work
}

/// Brings scroll mode in line with the settings in force.
pub fn sync(h: &mut HookState, engine: &mut ScrollEngine, scroll: Option<ScrollCfg>) -> (r:
    SwitchWork)
    ensures
        r == old(h).switch_work(scroll is Some),
        *final(h) == old(h).switched(scroll is Some),
        scroll is Some ==> *final(engine) == *old(engine),
        scroll is None ==> *final(engine) == (ScrollEngine { active: false, ..*old(engine) }),
{
    set_enabled(h, engine, scroll.is_some())
}

/// The hook was installed.
pub fn hook_installed(h: &mut HookState)
    ensures
        *final(h) == (HookState { installed: true, ..*old(h) }),
{
    h.installed = true;
}

/// Registering for raw movement failed; switching on again tries anew.
pub fn raw_failed(h: &mut HookState)
    ensures
        *final(h) == (HookState { raw_registered: false, ..*old(h) }),
{
    h.raw_registered = false;
}

/// Whether a point on the screen is inside the menu or the submenu.
pub fn is_pt_in_menu(
    x: i32,
    y: i32,
    menu: Option<ScreenRect>,
    sub: Option<ScreenRect>,
) -> (r: bool)
    ensures
        r == ((menu is Some && (menu->0).has(x, y)) || (sub is Some && (sub->0).has(x, y))),
{
    cursor_inside_window(x, y, menu) || cursor_inside_window(x, y, sub)
}

/// What a program injects always passes, so the tool never swallows the wheel
/// events that it makes itself.
pub proof fn law_injected_events_pass(
    h: HookState,
    active: bool,
    ev: MouseEvent,
    inside_menu: bool,
    scroll: Option<ScrollCfg>,
)
    requires
        ev.injected,
    ensures
        verdict(h, active, ev, inside_menu, scroll) == Verdict::Pass,
{
}

/// While a menu is open and no trigger is recorded, every event passes.
pub proof fn law_open_menu_lets_events_pass(
    h: HookState,
    active: bool,
    ev: MouseEvent,
    inside_menu: bool,
    scroll: Option<ScrollCfg>,
)
    requires
        h.menu_open,
        !h.capturing,
    ensures
        verdict(h, active, ev, inside_menu, scroll) == Verdict::Pass,
{
}

/// Holding the trigger is one visit to scroll mode: pressing it begins the
/// mode, movement is held back while it is down, letting it go ends the mode,
/// and after that movement passes again.
pub proof fn law_trigger_holds_scroll_mode(
    h: HookState,
    cfg: ScrollCfg,
    down: MouseEvent,
    moved: MouseEvent,
    up: MouseEvent,
    active: bool,
    inside: bool,
)
    requires
        !h.capturing,
        !h.menu_open,
        !down.injected && !moved.injected && !up.injected,
        pressed_button(down.msg, down.mouse_data) == Some(cfg.trigger),
        released_button(up.msg, up.mouse_data) == Some(cfg.trigger),
        moved.msg == WM_MOUSEMOVE,
    ensures
        verdict(h, active, down, inside, Some(cfg)) == Verdict::ScrollOn,
        verdict(h, true, moved, inside, Some(cfg)) == Verdict::Freeze,
        verdict(h, true, up, inside, Some(cfg)) == Verdict::ScrollOff,
        verdict(h, false, moved, inside, Some(cfg)) == Verdict::Pass,
{
}

/// A recording takes one button: whatever ended it, no later event is recorded
/// or taken for cancelling it.
pub proof fn law_recording_is_one_shot(
    h: HookState,
    ended_at: u32,
    next: MouseEvent,
    inside: bool,
    active: bool,
    scroll: Option<ScrollCfg>,
)
    ensures
        ({
            let after = h.recorded_at(ended_at);
            let v = verdict(after, active, next, inside, scroll);
            !(v is Record) && !(v is CancelCapture)
        }),
{
}

/// After collecting an amount a message is on its way, and after injecting no
/// amount waits. Where the message could not be posted, the amount waits for the
/// next one: collecting that asks for a message anew, and both are injected.
pub proof fn law_waiting_wheel_is_injected(h: HookState, units: i32)
    ensures
        h.with_wheel(units).wheel_will_flush(),
        h.flushed().wheel_will_flush(),
        h.unposted().pending_wheel == h.pending_wheel,
        !h.unposted().inject_posted,
        h.unposted().with_wheel(units) == h.with_wheel(units),
        h.unposted().with_wheel(units).wheel_will_flush(),
{
}

/// While a trigger is recorded, pressing the middle button or one of the two side
/// buttons records it, inside the menu as well as outside; the left and the right
/// button are recorded outside the menu and cancel the recording inside it. The
/// number of a side button is the high half of the event's data.
pub proof fn law_recording_takes_the_pressed_button(
    h: HookState,
    active: bool,
    ev: MouseEvent,
    inside: bool,
    scroll: Option<ScrollCfg>,
)
    requires
        h.capturing,
        !ev.injected,
    ensures
        ({
            let v = verdict(h, active, ev, inside, scroll);
            &&& ev.msg == WM_MBUTTONDOWN ==> v == Verdict::Record(TriggerBtn::Middle)
            &&& ev.msg == WM_XBUTTONDOWN && 0x10000 <= ev.mouse_data < 0x20000 ==> v
                == Verdict::Record(TriggerBtn::X1)
            &&& ev.msg == WM_XBUTTONDOWN && 0x20000 <= ev.mouse_data < 0x30000 ==> v
                == Verdict::Record(TriggerBtn::X2)
            &&& ev.msg == WM_LBUTTONDOWN && !inside ==> v == Verdict::Record(TriggerBtn::Left)
            &&& ev.msg == WM_RBUTTONDOWN && !inside ==> v == Verdict::Record(TriggerBtn::Right)
            &&& ev.msg == WM_LBUTTONDOWN && inside ==> v == Verdict::CancelCapture
            &&& ev.msg == WM_RBUTTONDOWN && inside ==> v == Verdict::CancelCapture
        }),
{
}

/// While a trigger is recorded, whatever is no button going down passes. A further
/// side button cannot be a trigger: inside the menu it cancels the recording,
/// outside it passes and the recording goes on.
pub proof fn law_recording_lets_the_rest_pass(
    h: HookState,
    active: bool,
    ev: MouseEvent,
    inside: bool,
    scroll: Option<ScrollCfg>,
)
    requires
        h.capturing,
        !ev.injected,
    ensures
        ({
            let v = verdict(h, active, ev, inside, scroll);
            &&& ev.msg != WM_LBUTTONDOWN && ev.msg != WM_RBUTTONDOWN && ev.msg != WM_MBUTTONDOWN
                && ev.msg != WM_XBUTTONDOWN ==> v == Verdict::Pass
            &&& ev.msg == WM_XBUTTONDOWN && (ev.mouse_data < 0x10000 || ev.mouse_data >= 0x30000)
                ==> v == (if inside {
                Verdict::CancelCapture
            } else {
                Verdict::Pass
            })
        }),
{
}

/// Nothing is recorded and nothing cancelled unless a recording goes on, and
/// scroll mode neither begins, ends nor holds anything back while one does.
pub proof fn law_recording_and_scroll_mode_exclude_each_other(
    h: HookState,
    active: bool,
    ev: MouseEvent,
    inside: bool,
    scroll: Option<ScrollCfg>,
)
    ensures
        ({
            let v = verdict(h, active, ev, inside, scroll);
            &&& v is Record || v is CancelCapture ==> h.capturing
            &&& h.capturing ==> v is Record || v is CancelCapture || v is Pass
            &&& v is CancelCapture ==> inside
        }),
{
}

/// Out of a recording the hook holds back nothing but the configured trigger and,
/// while scroll mode lasts, movement. Without scroll mode settings everything
/// passes.
pub proof fn law_only_trigger_and_movement_are_held_back(
    h: HookState,
    active: bool,
    ev: MouseEvent,
    inside: bool,
    scroll: Option<ScrollCfg>,
)
    requires
        !h.capturing,
    ensures
        ({
            let v = verdict(h, active, ev, inside, scroll);
            &&& scroll is None ==> v == Verdict::Pass
            &&& v == Verdict::ScrollOn ==> pressed_button(ev.msg, ev.mouse_data) == Some(
                scroll->0.trigger,
            )
            &&& v == Verdict::ScrollOff ==> active && released_button(ev.msg, ev.mouse_data)
                == Some(scroll->0.trigger)
            &&& v == Verdict::Freeze ==> active && ev.msg == WM_MOUSEMOVE
            &&& !active && pressed_button(ev.msg, ev.mouse_data) is None ==> v == Verdict::Pass
            &&& pressed_button(ev.msg, ev.mouse_data) is None && released_button(
                ev.msg,
                ev.mouse_data,
            ) is None && ev.msg != WM_MOUSEMOVE ==> v == Verdict::Pass
        }),
{
}

/// The number of the message that `t` sends going down; going up it is the next
/// one.
pub open spec fn down_number(t: TriggerBtn) -> u32 {
    match t {
        TriggerBtn::Left => 0x0201,
        TriggerBtn::Right => 0x0204,
        TriggerBtn::Middle => 0x0207,
        TriggerBtn::X1 | TriggerBtn::X2 => 0x020B,
    }
}

/// A button going down and the same button going up are told by their messages,
/// which follow each other; side buttons are told apart by the high half of the
/// event's data, the first being number one and the second number two.
pub proof fn law_buttons_go_by_message_and_number(msg: u32, mouse_data: u32, t: TriggerBtn)
    ensures
        pressed_button(msg, mouse_data) == Some(t) <==> msg == down_number(t) && (t
            == TriggerBtn::X1 ==> 0x10000 <= mouse_data < 0x20000) && (t == TriggerBtn::X2
            ==> 0x20000 <= mouse_data < 0x30000),
        released_button(msg, mouse_data) == Some(t) <==> msg == down_number(t) + 1 && (t
            == TriggerBtn::X1 ==> 0x10000 <= mouse_data < 0x20000) && (t == TriggerBtn::X2
            ==> 0x20000 <= mouse_data < 0x30000),
        pressed_button(msg, mouse_data) is Some ==> is_down(msg) && released_button(
            msg,
            mouse_data,
        ) is None,
        msg < 0xffff_ffff ==> (pressed_button(msg, mouse_data) == Some(t) <==> released_button(
            (msg + 1) as u32,
            mouse_data,
        ) == Some(t)),
{
}

/// The event that ends a recording is remembered by its time, and nothing else
/// changes; an event that ends none leaves the state as it is.
pub proof fn law_end_of_recording_is_remembered(h: HookState, v: Verdict, time: u32)
    ensures
        v is Record || v is CancelCapture ==> {
            let after = h.after_event(v, time);
            &&& !after.capturing
            &&& after.capture_end_time == Some(time)
            &&& after.menu_open == h.menu_open
            &&& after.installed == h.installed
            &&& after.pending_wheel == h.pending_wheel
            &&& after.inject_posted == h.inject_posted
            &&& after.raw_registered == h.raw_registered
        },
        !(v is Record) && !(v is CancelCapture) ==> h.after_event(v, time) == h,
{
}

/// A recording lasts no longer than the menu: closing it ends the recording
/// without remembering an event, opening it starts none, and beginning one
/// changes nothing else.
pub proof fn law_recording_ends_with_the_menu(h: HookState)
    ensures
        !h.with_menu(false).capturing,
        !h.with_menu(false).menu_open,
        h.with_menu(true).menu_open,
        h.with_menu(true).capturing == h.capturing,
        h.armed().with_menu(true).capturing,
        h.armed().with_menu(false) == h.with_menu(false),
        forall|open: bool| #[trigger]
            h.with_menu(open).capture_end_time == h.capture_end_time && h.with_menu(
                open,
            ).pending_wheel == h.pending_wheel && h.with_menu(open).inject_posted
                == h.inject_posted && h.with_menu(open).installed == h.installed && h.with_menu(
                open,
            ).raw_registered == h.raw_registered,
        h.armed().recorded_at(0).armed() == h.recorded_at(0).armed(),
{
}

/// The amount injected has the direction of the amount collected, is that amount
/// where one event can carry it, and else the most that one can; none is injected
/// just where none was collected.
pub proof fn law_injected_amount_is_the_collected_one(h: HookState)
    ensures
        h.wheel_out() is None <==> h.pending_wheel == 0,
        h.wheel_out() matches Some(u) ==> {
            &&& u > 0 <==> h.pending_wheel > 0
            &&& -32760 <= u <= 32760
            &&& -32760 <= h.pending_wheel <= 32760 ==> u == h.pending_wheel
            &&& h.pending_wheel > 32760 ==> u == 32760
            &&& h.pending_wheel < -32760 ==> u == -32760
        },
        h.flushed().wheel_out() is None,
        !h.flushed().inject_posted,
        h.flushed().capture_end_time == h.capture_end_time,
        h.flushed().menu_open == h.menu_open && h.flushed().capturing == h.capturing
            && h.flushed().installed == h.installed && h.flushed().raw_registered
            == h.raw_registered,
{
}

/// Amounts collected one after the other add up until they are injected.
pub proof fn law_collected_amounts_add_up(h: HookState, a: i32, b: i32)
    requires
        i32::MIN <= h.pending_wheel + a <= i32::MAX,
        i32::MIN <= h.pending_wheel + a + b <= i32::MAX,
    ensures
        h.with_wheel(a).with_wheel(b).pending_wheel == h.pending_wheel + a + b,
        h.with_wheel(a).inject_posted,
        h.with_wheel(a).menu_open == h.menu_open && h.with_wheel(a).capturing == h.capturing
            && h.with_wheel(a).installed == h.installed && h.with_wheel(a).raw_registered
            == h.raw_registered,
{
}

/// Raw movement turns the wheel just while the trigger is held and no menu is
/// open, and only movement up or down that is no position.
pub proof fn law_movement_turns_the_wheel_while_held(
    h: HookState,
    active: bool,
    absolute: bool,
    last_y: i32,
    lines: i32,
)
    ensures
        h.counts(active, absolute, last_y, lines) ==> active && !h.menu_open && !absolute,
        !h.counts(active, absolute, 0, lines),
        active && !h.menu_open && !absolute && last_y > 0 && lines > 0 ==> h.counts(
            active,
            absolute,
            last_y,
            lines,
        ),
        active && !h.menu_open && !absolute && last_y < 0 && lines > 0 ==> h.counts(
            active,
            absolute,
            last_y,
            lines,
        ),
        lines <= 0 ==> !h.counts(active, absolute, last_y, lines),
{
}

/// Switching scroll mode on asks for what is missing and drops nothing; switching
/// it off asks to take down what is there and drops the recording and the amounts
/// that wait. Doing either twice asks for nothing more, once what the first asked
/// for was done.
pub proof fn law_switching_asks_for_what_is_missing(h: HookState)
    ensures
        ({
            let on = h.switched(true);
            let up = h.switch_work(true);
            let off = h.switched(false);
            let down = h.switch_work(false);
            &&& up.install_hook <==> !h.installed
            &&& up.register_raw <==> !h.raw_registered
            &&& !up.remove_hook && !up.unregister_raw
            &&& down.remove_hook <==> h.installed
            &&& down.unregister_raw <==> h.raw_registered
            &&& !down.install_hook && !down.register_raw
            &&& on.pending_wheel == h.pending_wheel && on.inject_posted == h.inject_posted
            &&& on.capturing == h.capturing && on.menu_open == h.menu_open
            &&& on.installed == h.installed
            &&& on.capture_end_time == h.capture_end_time
            &&& off.wheel_out() is None && !off.inject_posted
            &&& !off.capturing && off.menu_open == h.menu_open
            &&& off.capture_end_time == h.capture_end_time
            &&& !(HookState { installed: true, ..on }).switch_work(true).install_hook
            &&& !on.switch_work(true).register_raw
            &&& off.switched(false) == off
            &&& !off.switch_work(false).remove_hook && !off.switch_work(false).unregister_raw
            &&& off.switch_work(true).install_hook && off.switch_work(true).register_raw
        }),
{
}

/// At the start nothing is recorded, collected or held back: every event passes
/// until scroll mode is in force, no menu is open, and switching scroll mode on
/// asks for everything, switching it off for nothing.
pub proof fn law_hook_starts_at_rest(ev: MouseEvent, inside: bool)
    ensures
        ({
            let h = HookState::idle();
            &&& verdict(h, false, ev, inside, None) == Verdict::Pass
            &&& !h.menu_open && !h.capturing && !h.inject_posted
            &&& h.wheel_out() is None
            &&& h.capture_end_time is None
            &&& h.switch_work(true) == (SwitchWork {
                install_hook: true,
                register_raw: true,
                remove_hook: false,
                unregister_raw: false,
            })
            &&& h.switch_work(false) == (SwitchWork {
                install_hook: false,
                register_raw: false,
                remove_hook: false,
                unregister_raw: false,
            })
            &&& h.switched(false) == h
        }),
{
}

} // verus!
