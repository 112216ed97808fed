//! The interactive session: the light settings, the editing view, and the
//! transition from one key press to the next state and at most one frame.
use vstd::prelude::*;

use crate::codec::{
    clamp_pattern, color_frame, encode_color, encode_mic, encode_pattern, encode_power, mic_frame,
    pattern_frame, power_frame, Frame, ARG_AT,
};
use crate::controller::Color;

verus! {

/// Step of a color channel adjustment.
pub const COLOR_STEP: u8 = 5;

/// Step of a pattern or sensitivity adjustment.
pub const FINE_STEP: u8 = 1;

/// The settings tab that key presses edit.
#[derive(Clone, Copy, Debug, PartialEq, Eq, Structural)]
pub enum ActiveTab {
    Color,
    Pattern,
    Mic,
}

/// The color channel that the Color tab edits.
#[derive(Clone, Copy, Debug, PartialEq, Eq, Structural)]
pub enum ColorChannel {
    Red,
    Green,
    Blue,
}

/// A key press, as far as the session tells keys apart.
#[derive(Clone, Copy, Debug, PartialEq, Eq, Structural)]
pub enum Key {
    Tab,
    BackTab,
    Up,
    Down,
    Char(char),
    Other,
}

/// What a key press asks of the surrounding loop.
#[derive(Clone, Copy, Debug, PartialEq, Eq)]
pub enum Effect {
    /// End the session.
    Quit,
    /// Hand this frame to the device.
    Emit(Frame),
    /// Nothing to do beyond redrawing.
    Nothing,
}

/// The state of an interactive session.
#[derive(Clone, Copy, Debug, PartialEq, Eq, Structural)]
pub struct App {
    pub power: bool,
    pub color: Color,
    pub pattern: u8,
    pub mic_sensitivity: u8,
    pub active_tab: ActiveTab,
    pub color_selection: ColorChannel,
}

/// The tab after `t` in the rotation Color, Pattern, Mic.
pub open spec fn next_tab(t: ActiveTab) -> ActiveTab {
    match t {
        ActiveTab::Color => ActiveTab::Pattern,
        ActiveTab::Pattern => ActiveTab::Mic,
        ActiveTab::Mic => ActiveTab::Color,
    }
}

/// The tab before `t` in the rotation.
pub open spec fn prev_tab(t: ActiveTab) -> ActiveTab {
    match t {
        ActiveTab::Color => ActiveTab::Mic,
        ActiveTab::Pattern => ActiveTab::Color,
        ActiveTab::Mic => ActiveTab::Pattern,
    }
}

/// `Some(true)` for a key that increments, `Some(false)` for one that
/// decrements.
pub open spec fn direction(k: Key) -> Option<bool> {
    match k {
        Key::Up | Key::Char('k') => Some(true),
        Key::Down | Key::Char('j') => Some(false),
        _ => None,
    }
}

/// `v` moved by `step` up or down, held within the byte range.
pub open spec fn adjusted(v: u8, up: bool, step: u8) -> u8 {
    if up {
        if v + step > 255 { 255 } else { (v + step) as u8 }
    } else {
        if v - step < 0 { 0 } else { (v - step) as u8 }
    }
}

pub open spec fn channel(c: Color, ch: ColorChannel) -> u8 {
    match ch {
        ColorChannel::Red => c.r,
        ColorChannel::Green => c.g,
        ColorChannel::Blue => c.b,
    }
}

/// `c` with channel `ch` set to `v`.
pub open spec fn with_channel(c: Color, ch: ColorChannel, v: u8) -> Color {
    match ch {
        ColorChannel::Red => Color { r: v, ..c },
        ColorChannel::Green => Color { g: v, ..c },
        ColorChannel::Blue => Color { b: v, ..c },
    }
}

/// The state after key `k` is handled as a Color tab key in state `s`:
/// 1, 2 and 3 select a channel, an increment or decrement moves the selected
/// channel by the color step, and any other key changes nothing.
pub open spec fn color_key(s: App, k: Key) -> App {
    match (k, direction(k)) {
        (Key::Char('1'), _) => App { color_selection: ColorChannel::Red, ..s },
        (Key::Char('2'), _) => App { color_selection: ColorChannel::Green, ..s },
        (Key::Char('3'), _) => App { color_selection: ColorChannel::Blue, ..s },
        (_, Some(up)) => App {
            color: with_channel(
                s.color,
                s.color_selection,
                adjusted(channel(s.color, s.color_selection), up, COLOR_STEP),
            ),
            ..s
        },
        _ => s,
    }
}

/// The frame sent for a Color tab key: the whole new color after an
/// increment or decrement, nothing otherwise.
pub open spec fn color_key_emission(s: App, k: Key) -> Option<Seq<u8>> {
    if direction(k) is Some {
        Some(color_frame(color_key(s, k).color))
    } else {
        None
    }
}

/// The state after key `k` is handled as a Pattern tab key in state `s`:
/// an increment or decrement moves the stored index by one within the byte
/// range, unclamped; any other key changes nothing.
pub open spec fn pattern_key(s: App, k: Key) -> App {
    match direction(k) {
        Some(up) => App { pattern: adjusted(s.pattern, up, FINE_STEP), ..s },
        None => s,
    }
}

/// The frame sent for a Pattern tab key; the codec clamps the index.
pub open spec fn pattern_key_emission(s: App, k: Key) -> Option<Seq<u8>> {
    if direction(k) is Some {
        Some(pattern_frame(clamp_pattern(pattern_key(s, k).pattern)))
    } else {
        None
    }
}

/// The state after key `k` is handled as a Mic tab key in state `s`.
pub open spec fn mic_key(s: App, k: Key) -> App {
    match direction(k) {
        Some(up) => App { mic_sensitivity: adjusted(s.mic_sensitivity, up, FINE_STEP), ..s },
        None => s,
    }
}

/// The frame sent for a Mic tab key.
pub open spec fn mic_key_emission(s: App, k: Key) -> Option<Seq<u8>> {
    if direction(k) is Some {
        Some(mic_frame(mic_key(s, k).mic_sensitivity))
    } else {
        None
    }
}

/// The state after key `k` is pressed in state `s`.
pub open spec fn after_key(s: App, k: Key) -> App {
    match k {
        Key::Tab => App { active_tab: next_tab(s.active_tab), ..s },
        Key::BackTab => App { active_tab: prev_tab(s.active_tab), ..s },
        Key::Char('q') => s,
        Key::Char('p') => App { power: !s.power, ..s },
        _ => match s.active_tab {
            ActiveTab::Color => color_key(s, k),
            ActiveTab::Pattern => pattern_key(s, k),
            ActiveTab::Mic => mic_key(s, k),
        },
    }
}

/// The bytes of the frame sent when key `k` is pressed in state `s`, if any.
pub open spec fn emission(s: App, k: Key) -> Option<Seq<u8>> {
    match k {
        Key::Tab | Key::BackTab | Key::Char('q') => None,
        Key::Char('p') => Some(power_frame(!s.power)),
        _ => match s.active_tab {
            ActiveTab::Color => color_key_emission(s, k),
            ActiveTab::Pattern => pattern_key_emission(s, k),
            ActiveTab::Mic => mic_key_emission(s, k),
        },
    }
}

/// The bytes of an optional frame.
pub open spec fn bytes_of(f: Option<Frame>) -> Option<Seq<u8>> {
    match f {
        Some(f) => Some(f@),
        None => None,
    }
}

/// What `effect` says in terms of the key and the state it was pressed in.
pub open spec fn effect_matches(s: App, k: Key, effect: Effect) -> bool {
    match effect {
        Effect::Quit => k == Key::Char('q'),
        Effect::Emit(f) => k != Key::Char('q') && emission(s, k) == Some(f@),
        Effect::Nothing => k != Key::Char('q') && emission(s, k) is None,
    }
}

impl App {
    /// A session's starting state: light on, yellow, first pattern, zero
    /// sensitivity, Color tab with the red channel selected.
    pub fn new() -> (r: App)
        ensures
            r.power,
            r.color == (Color { r: 255, g: 255, b: 0 }),
            r.pattern == 0,
            r.mic_sensitivity == 0,
            r.active_tab == ActiveTab::Color,
            r.color_selection == ColorChannel::Red,
    {
        App {
            power: true,
            color: Color { r: 255, g: 255, b: 0 },
            pattern: 0,
            mic_sensitivity: 0,
            active_tab: ActiveTab::Color,
            color_selection: ColorChannel::Red,
        }
    }

    /// Flips the power and returns the frame that says so.
    fn toggle_power(&mut self) -> (r: Frame)
        ensures
            *final(self) == (App { power: !old(self).power, ..*old(self) }),
            r@ == power_frame(final(self).power),
    {
        self.power = !self.power;
        encode_power(self.power)
    }

    /// Handles a key as the Color tab does, whatever the active tab.
    fn handle_color_input(&mut self, key: Key) -> (r: Option<Frame>)
        ensures
            *final(self) == color_key(*old(self), key),
            bytes_of(r) == color_key_emission(*old(self), key),
    {
        match key {
            Key::Char('1') => {
                self.color_selection = ColorChannel::Red;
                None
            },
            Key::Char('2') => {
                self.color_selection = ColorChannel::Green;
                None
            },
            Key::Char('3') => {
                self.color_selection = ColorChannel::Blue;
                None
            },
            Key::Up | Key::Char('k') => {
                match self.color_selection {
                    ColorChannel::Red => self.color.r = self.color.r.saturating_add(COLOR_STEP),
                    ColorChannel::Green => self.color.g = self.color.g.saturating_add(COLOR_STEP),
                    ColorChannel::Blue => self.color.b = self.color.b.saturating_add(COLOR_STEP),
                }
                Some(encode_color(self.color))
            },
            Key::Down | Key::Char('j') => {
                match self.color_selection {
                    ColorChannel::Red => self.color.r = self.color.r.saturating_sub(COLOR_STEP),
                    ColorChannel::Green => self.color.g = self.color.g.saturating_sub(COLOR_STEP),
                    ColorChannel::Blue => self.color.b = self.color.b.saturating_sub(COLOR_STEP),
                }
                Some(encode_color(self.color))
            },
            _ => None,
        }
    }

    /// Handles a key as the Pattern tab does, whatever the active tab.
    fn handle_pattern_input(&mut self, key: Key) -> (r: Option<Frame>)
        ensures
            *final(self) == pattern_key(*old(self), key),
            bytes_of(r) == pattern_key_emission(*old(self), key),
    {
        match key {
            Key::Up | Key::Char('k') => {
                self.pattern = self.pattern.saturating_add(FINE_STEP);
                Some(encode_pattern(self.pattern))
            },
            Key::Down | Key::Char('j') => {
                self.pattern = self.pattern.saturating_sub(FINE_STEP);
                Some(encode_pattern(self.pattern))
            },
            _ => None,
        }
    }

    /// Handles a key as the Mic tab does, whatever the active tab.
    fn handle_mic_input(&mut self, key: Key) -> (r: Option<Frame>)
        ensures
            *final(self) == mic_key(*old(self), key),
            bytes_of(r) == mic_key_emission(*old(self), key),
    {
        match key {
            Key::Up | Key::Char('k') => {
                self.mic_sensitivity = self.mic_sensitivity.saturating_add(FINE_STEP);
                Some(encode_mic(self.mic_sensitivity))
            },
            Key::Down | Key::Char('j') => {
                self.mic_sensitivity = self.mic_sensitivity.saturating_sub(FINE_STEP);
                Some(encode_mic(self.mic_sensitivity))
            },
            _ => None,
        }
    }

    /// Applies one key press: updates the state and tells the caller whether
    /// to quit, to send a frame, or neither. Every key is accepted.
    pub fn on_key(&mut self, key: Key) -> (r: Effect)
        ensures
            *final(self) == after_key(*old(self), key),
            effect_matches(*old(self), key, r),
    {
        match key {
            Key::Tab => {
                self.active_tab = match self.active_tab {
                    ActiveTab::Color => ActiveTab::Pattern,
                    ActiveTab::Pattern => ActiveTab::Mic,
                    ActiveTab::Mic => ActiveTab::Color,
                };
                Effect::Nothing
            },
            Key::BackTab => {
                self.active_tab = match self.active_tab {
                    ActiveTab::Color => ActiveTab::Mic,
                    ActiveTab::Pattern => ActiveTab::Color,
                    ActiveTab::Mic => ActiveTab::Pattern,
                };
                Effect::Nothing
            },
            Key::Char('q') => Effect::Quit,
            Key::Char('p') => Effect::Emit(self.toggle_power()),
            _ => {
                let sent = match self.active_tab {
                    ActiveTab::Color => self.handle_color_input(key),
                    ActiveTab::Pattern => self.handle_pattern_input(key),
                    ActiveTab::Mic => self.handle_mic_input(key),
                };
                match sent {
                    Some(f) => Effect::Emit(f),
                    None => Effect::Nothing,
                }
            },
        }
    }
}

/// The tabs form a rotation of three: three forward steps, or one forward
/// and one backward step, lead back to the start, so six Tab presses leave
/// the whole state as it was.
pub proof fn lemma_tab_rotation_cycle(s: App)
    ensures
        next_tab(next_tab(next_tab(s.active_tab))) == s.active_tab,
        prev_tab(next_tab(s.active_tab)) == s.active_tab,
        next_tab(prev_tab(s.active_tab)) == s.active_tab,
        after_key(
            after_key(
                after_key(after_key(after_key(after_key(s, Key::Tab), Key::Tab), Key::Tab), Key::Tab),
                Key::Tab,
            ),
            Key::Tab,
        ) == s,
{
}

/// Pressing the power key twice restores the state, and the two frames sent
/// are power frames that differ only in the switch byte.
pub proof fn lemma_power_toggled_twice(s: App)
    ensures
        after_key(after_key(s, Key::Char('p')), Key::Char('p')) == s,
        emission(s, Key::Char('p')) == Some(power_frame(!s.power)),
        emission(after_key(s, Key::Char('p')), Key::Char('p')) == Some(power_frame(s.power)),
        forall|i: int|
            0 <= i < 9 ==> (power_frame(!s.power)[i] != power_frame(s.power)[i] <==> i
                == ARG_AT),
{
}

/// Adjustments saturate: an increment never passes 255 and holds there, a
/// decrement never passes 0 and holds there, and in between they move by
/// exactly the step.
pub proof fn lemma_adjustment_saturates(v: u8, step: u8)
    ensures
        adjusted(255, true, step) == 255,
        adjusted(0, false, step) == 0,
        v + step <= 255 ==> adjusted(v, true, step) == v + step,
        v + step > 255 ==> adjusted(v, true, step) == 255,
        v >= step ==> adjusted(v, false, step) == v - step,
        v < step ==> adjusted(v, false, step) == 0,
{
}

/// On the Color tab, an increment of a channel that is at 255 leaves the
/// state unchanged and sends the unchanged color.
pub proof fn lemma_full_channel_holds(s: App, k: Key)
    requires
        s.active_tab == ActiveTab::Color,
        direction(k) == Some(true),
        channel(s.color, s.color_selection) == 255,
    ensures
        after_key(s, k) == s,
        emission(s, k) == Some(color_frame(s.color)),
{
    assert(with_channel(s.color, s.color_selection, 255) == s.color);
}

} // verus!
