//! Turning input events into operations on the countdown and the entry
//! buffer: hit-testing a click against the buttons, typing while the pointer
//! is over the entry field, and committing the entry.

use vstd::prelude::*;
use crate::config::{RegressivaConfig, TempoConfig, PRESET_COUNT};
use crate::countdown::{Countdown, CountdownModel};
use crate::text_entry::{TextEntry, entry_seconds, typed};

verus! {

/// An axis-aligned rectangle in window pixels: `x` and `y` are the top-left
/// corner, `w` and `h` the size.
#[derive(Clone, Copy, Debug, PartialEq, Eq, Structural)]
pub struct Rect {
    pub x: i32,
    pub y: i32,
    pub w: u32,
    pub h: u32,
}

impl Rect {
    /// Whether the point lies inside: left and top edges included, right and
    /// bottom edges excluded.
    pub open spec fn holds(self, px: int, py: int) -> bool {
        &&& self.x <= px < self.x + self.w
        &&& self.y <= py < self.y + self.h
    }

    /// Whether the point `(px, py)` lies inside the rectangle.
    pub fn contains_point(&self, px: i32, py: i32) -> (r: bool)
        ensures
            r == self.holds(px as int, py as int),
    {
        let right: i64 = self.x as i64 + self.w as i64;
        let bottom: i64 = self.y as i64 + self.h as i64;
        self.x <= px && (px as i64) < right && self.y <= py && (py as i64) < bottom
    }
}

/// Where the buttons of the control window are.
#[derive(Clone, Copy, Debug)]
pub struct ButtonPositions {
    pub start_button: Rect,
    pub pause_button: Rect,
    pub reset_button: Rect,
    pub close_button: Rect,
    pub botao_1: Rect,
    pub botao_2: Rect,
    pub botao_3: Rect,
    pub botao_4: Rect,
    pub botao_5: Rect,
    pub botao_6: Rect,
    pub botao_7: Rect,
    pub botao_8: Rect,
    pub botao_9: Rect,
}

impl ButtonPositions {
    /// The button of preset `index`, 1 to 9.
    pub open spec fn preset(self, index: int) -> Rect
        recommends
            1 <= index <= 9,
    {
        if index == 1 {
            self.botao_1
        } else if index == 2 {
            self.botao_2
        } else if index == 3 {
            self.botao_3
        } else if index == 4 {
            self.botao_4
        } else if index == 5 {
            self.botao_5
        } else if index == 6 {
            self.botao_6
        } else if index == 7 {
            self.botao_7
        } else if index == 8 {
            self.botao_8
        } else {
            self.botao_9
        }
    }

    /// The first preset button from `index` on that holds the point.
    pub open spec fn preset_hit_from(self, px: int, py: int, index: int) -> Option<int>
        decreases 10 - index,
    {
        if index < 1 || index > 9 {
            None
        } else if self.preset(index).holds(px, py) {
            Some(index)
        } else {
            self.preset_hit_from(px, py, index + 1)
        }
    }

    /// The first preset button, in order, that holds the point `(px, py)`.
    pub fn first_preset_hit(&self, px: i32, py: i32) -> (r: Option<usize>)
        ensures
            r matches Some(i) ==> 1 <= i <= PRESET_COUNT && self.preset_hit_from(
                px as int,
                py as int,
                1,
            ) == Some(i as int),
            r is None ==> self.preset_hit_from(px as int, py as int, 1) is None,
    {
        let mut i: usize = 1;
        while i <= PRESET_COUNT
            invariant
                1 <= i <= PRESET_COUNT + 1,
                self.preset_hit_from(px as int, py as int, 1) == self.preset_hit_from(
                    px as int,
                    py as int,
                    i as int,
                ),
            decreases PRESET_COUNT + 1 - i,
        {
            if self.preset_button(i).contains_point(px, py) {
                return Some(i);
            }
            i = i + 1;
        }
        None
    }

    /// The button of preset `index`, 1 to 9.
    pub fn preset_button(&self, index: usize) -> (r: Rect)
        requires
            1 <= index <= PRESET_COUNT,
        ensures
            r == self.preset(index as int),
    {
        match index {
            1 => self.botao_1,
            2 => self.botao_2,
            3 => self.botao_3,
            4 => self.botao_4,
            5 => self.botao_5,
            6 => self.botao_6,
            7 => self.botao_7,
            8 => self.botao_8,
            _ => self.botao_9,
        }
    }
}

/// What a left click asks for.
#[derive(Clone, Copy, Debug, PartialEq, Eq, Structural)]
pub enum ClickAction {
    Start,
    Pause,
    Reset,
    Close,
    /// Preset button `1` to `9`.
    Preset(usize),
    Nothing,
}

/// What a click at `(px, py)` asks for. Start, pause and reset count only
/// where the configuration shows them; they are tried first, then the close
/// button, then the presets in order.
pub open spec fn click_action(
    config: RegressivaConfig,
    buttons: ButtonPositions,
    px: int,
    py: int,
) -> ClickAction {
    if buttons.start_button.holds(px, py) && config.botoes.botao_iniciar {
        ClickAction::Start
    } else if buttons.pause_button.holds(px, py) && config.botoes.botao_pausar {
        ClickAction::Pause
    } else if buttons.reset_button.holds(px, py) && config.botoes.botao_reset {
        ClickAction::Reset
    } else if buttons.close_button.holds(px, py) {
        ClickAction::Close
    } else {
        match buttons.preset_hit_from(px, py, 1) {
            Some(i) => ClickAction::Preset(i as usize),
            None => ClickAction::Nothing,
        }
    }
}

/// The countdown after `action`, taken at clock reading `now`.
pub open spec fn after_click(
    m: CountdownModel,
    action: ClickAction,
    tempo: TempoConfig,
    now: nat,
) -> CountdownModel {
    match action {
        ClickAction::Start => m.started(now),
        ClickAction::Pause => m.paused(),
        ClickAction::Reset => m.set_to(tempo.tempo_reset as nat),
        ClickAction::Preset(i) => m.set_to(tempo.preset_secs(i as int) as nat),
        _ => m,
    }
}

/// Hit-tests a click at `(px, py)`.
pub fn click_target(config: &RegressivaConfig, buttons: &ButtonPositions, px: i32, py: i32) -> (r:
    ClickAction)
    ensures
        r == click_action(*config, *buttons, px as int, py as int),
        r matches ClickAction::Preset(i) ==> 1 <= i <= PRESET_COUNT,
{
    if buttons.start_button.contains_point(px, py) && config.botoes.mostrar_botao_iniciar() {
        ClickAction::Start
    } else if buttons.pause_button.contains_point(px, py) && config.botoes.mostrar_botao_pausar() {
        ClickAction::Pause
    } else if buttons.reset_button.contains_point(px, py) && config.botoes.mostrar_botao_reset() {
        ClickAction::Reset
    } else if buttons.close_button.contains_point(px, py) {
        ClickAction::Close
    } else {
        match buttons.first_preset_hit(px, py) {
            Some(i) => ClickAction::Preset(i),
            None => ClickAction::Nothing,
        }
    }
}

/// Handles a left click at `(px, py)` at clock reading `now`: starts,
/// pauses, resets or sets a preset as the click asks. Returns whether the
/// close button was hit.
pub fn handle_mouse_click(
    px: i32,
    py: i32,
    config: &RegressivaConfig,
    buttons: &ButtonPositions,
    countdown: &mut Countdown,
    now: u128,
) -> (close: bool)
    requires
        old(countdown).wf(),
    ensures
        final(countdown).wf(),
        final(countdown)@ == after_click(
            old(countdown)@,
            click_action(*config, *buttons, px as int, py as int),
            config.tempo,
            now as nat,
        ),
        close == (click_action(*config, *buttons, px as int, py as int) == ClickAction::Close),
{
    match click_target(config, buttons, px, py) {
        ClickAction::Start => {
            countdown.start(now);
            false
        },
        ClickAction::Pause => {
            countdown.pause();
            false
        },
        ClickAction::Reset => {
            countdown.reset(config.tempo.get_tempo_reset());
            false
        },
        ClickAction::Close => true,
        ClickAction::Preset(i) => {
            countdown.select_preset(config.tempo.get_tempo(i));
            false
        },
        ClickAction::Nothing => false,
    }
}

/// Types `text` into the entry buffer when the pointer at `(px, py)` is over
/// the entry field; otherwise the buffer is left as it is.
pub fn handle_text_input(text: &str, input_text: &mut TextEntry, px: i32, py: i32, input_rect: &Rect)
    requires
        old(input_text).wf(),
    ensures
        final(input_text).wf(),
        final(input_text)@ == if input_rect.holds(px as int, py as int) {
            typed(old(input_text)@, text@)
        } else {
            old(input_text)@
        },
{
    if input_rect.contains_point(px, py) {
        input_text.append(text);
    }
}

/// Commits the entry: where it reads as `MM:SS`, the countdown stops with
/// that duration and the buffer empties; otherwise nothing changes.
pub fn handle_enter(input_text: &mut TextEntry, countdown: &mut Countdown)
    requires
        old(input_text).wf(),
        old(countdown).wf(),
    ensures
        final(input_text).wf(),
        final(countdown).wf(),
        match entry_seconds(old(input_text)@) {
            Some(secs) => final(countdown)@ == old(countdown)@.set_to(secs)
                && final(input_text)@ == Seq::<char>::empty(),
            None => final(countdown)@ == old(countdown)@ && final(input_text)@ == old(
                input_text,
            )@,
        },
{
    match input_text.commit() {
        Some(secs) => countdown.select_preset(secs),
        None => {},
    }
}

} // verus!
