//! The terminal presentation's rules: simulation keys, sprite layout and the
//! half-block cells that draw two pixel rows per text row.

use vstd::prelude::*;

use crate::imaging::rgba_len;
use crate::pack::SpriteSheet;
use crate::reading::Reading;
use crate::state::{Battery, State, Weather};
use crate::text::same_text;

verus! {

/// The largest horizontal sprite size in the terminal.
pub const MAX_TERMINAL_SCALE: u16 = 3;

/// The simulated state after a key press in simulation: `b` swaps between low
/// (8 %) and high (85 %) battery, `c` plugs or unplugs the charger, `n` drops or
/// restores the network, `h` swaps between high (98 %) and normal (15 %) CPU, `r`
/// starts or stops rain. Other keys change nothing.
pub open spec fn spec_simulate(s: State, key: char) -> State {
    if key == 'b' {
        let b = s.battery->0;
        State {
            battery: Some(
                Battery {
                    level: if b.level.spec_exceeds(1500) {
                        Reading::Value(800)
                    } else {
                        Reading::Value(8500)
                    },
                    ..b
                },
            ),
            ..s
        }
    } else if key == 'c' {
        let b = s.battery->0;
        State { battery: Some(Battery { charging: !b.charging, ..b }), ..s }
    } else if key == 'n' {
        State {
            connected: Some(
                !match s.connected {
                    Some(c) => c,
                    None => true,
                },
            ),
            ..s
        }
    } else if key == 'h' {
        State {
            cpu: Some(
                if s.cpu matches Some(c) && c.spec_exceeds(8000) {
                    Reading::Value(1500)
                } else {
                    Reading::Value(9800)
                },
            ),
            ..s
        }
    } else if key == 'r' {
        State {
            weather: if s.weather == Some(Weather::Rain) {
                None
            } else {
                Some(Weather::Rain)
            },
            ..s
        }
    } else {
        s
    }
}

/// Applies a simulation key; the battery keys need a simulated battery.
pub fn simulate(s: &mut State, key: char)
    requires
        key == 'b' || key == 'c' ==> old(s).battery is Some,
    ensures
        *final(s) == spec_simulate(*old(s), key),
{
    if key == 'b' {
        if let Some(b) = s.battery {
            let level = if b.level.exceeds(1500) {
                Reading::Value(800)
            } else {
                Reading::Value(8500)
            };
            s.battery = Some(Battery { level, charging: b.charging });
        }
    } else if key == 'c' {
        if let Some(b) = s.battery {
            s.battery = Some(Battery { level: b.level, charging: !b.charging });
        }
    } else if key == 'n' {
        let was = match s.connected {
            Some(c) => c,
            None => true,
        };
        s.connected = Some(!was);
    } else if key == 'h' {
        let busy = match s.cpu {
            Some(c) => c.exceeds(8000),
            None => false,
        };
        s.cpu = Some(
            if busy {
                Reading::Value(1500)
            } else {
                Reading::Value(9800)
            },
        );
    } else if key == 'r' {
        let raining = match s.weather {
            Some(Weather::Rain) => true,
            _ => false,
        };
        s.weather = if raining {
            None
        } else {
            Some(Weather::Rain)
        };
    }
}

/// `+` (or `=`) widens the sprite up to 3, `-` narrows it down to 1.
pub open spec fn spec_rescale(scale: u16, key: char) -> u16 {
    if key == '+' || key == '=' {
        if scale + 1 < MAX_TERMINAL_SCALE {
            (scale + 1) as u16
        } else {
            MAX_TERMINAL_SCALE
        }
    } else if key == '-' {
        if scale <= 1 {
            1
        } else {
            (scale - 1) as u16
        }
    } else {
        scale
    }
}

pub fn rescale(scale: u16, key: char) -> (r: u16)
    ensures
        r == spec_rescale(scale, key),
{
    if key == '+' || key == '=' {
        if scale < MAX_TERMINAL_SCALE - 1 {
            scale + 1
        } else {
            MAX_TERMINAL_SCALE
        }
    } else if key == '-' {
        if scale <= 1 {
            1
        } else {
            scale - 1
        }
    } else {
        scale
    }
}

/// How long to wait for input before the next frame: half a second while paused;
/// otherwise until the frame changes, but never less than the power mode's floor
/// and, above that floor, at most a second.
pub open spec fn spec_frame_wait(paused: bool, delay: u64, floor: u64) -> u64 {
    if paused {
        500
    } else {
        let d = if delay > floor {
            delay
        } else {
            floor
        };
        let ceiling = if floor > 1000 {
            floor
        } else {
            1000
        };
        if d < ceiling {
            d
        } else {
            ceiling
        }
    }
}

pub fn frame_wait(paused: bool, delay: u64, floor: u64) -> (r: u64)
    ensures
        r == spec_frame_wait(paused, delay, floor),
        !paused ==> r >= floor,
{
    if paused {
        500
    } else {
        let d = if delay > floor {
            delay
        } else {
            floor
        };
        let ceiling = if floor > 1000 {
            floor
        } else {
            1000
        };
        if d < ceiling {
            d
        } else {
            ceiling
        }
    }
}

/// Where the sprite goes in a terminal of `cols` x `rows`: its horizontal scale
/// and left column, or nothing when the window is too small for it.
pub open spec fn spec_layout(cols: u16, rows: u16, w: u32, h: u32, scale: u16) -> Option<(u16, u16)> {
    if (cols as int) < w + 4 || (rows as int) < (h + 1) / 2 + 8 {
        None
    } else {
        let fit = if cols as int / w as int >= 1 {
            cols as int / w as int
        } else {
            1
        };
        let s = if scale < fit {
            scale as int
        } else {
            fit
        };
        let used = w * s;
        Some((s as u16, (if cols >= used { (cols - used) / 2 } else { 0 }) as u16))
    }
}

pub fn layout(cols: u16, rows: u16, w: u32, h: u32, scale: u16) -> (r: Option<(u16, u16)>)
    requires
        1 <= w <= 128,
        h <= 128,
    ensures
        r == spec_layout(cols, rows, w, h, scale),
{
    if (cols as u32) < w + 4 || (rows as u32) < (h + 1) / 2 + 8 {
        return None;
    }
    let w16 = w as u16;
    assert(cols / w16 >= 1) by (nonlinear_arith)
        requires
            cols >= w16,
            w16 >= 1,
    ;
    let fit: u16 = if cols / w16 >= 1 {
        cols / w16
    } else {
        1
    };
    let s: u16 = if scale < fit {
        scale
    } else {
        fit
    };
    assert(w * s <= cols) by (nonlinear_arith)
        requires
            s <= cols / w16,
            w16 == w,
            w >= 1,
    ;
    let used: u16 = w16 * s;
    Some((s, (cols - used) / 2))
}

/// An RGB colour, or none for a transparent pixel.
pub open spec fn spec_pixel(sheet: Sheet, frame: u32, w: u32, h: u32, x: u32, y: u32) -> Option<(u8, u8, u8)> {
    let row = if y < h {
        y as int
    } else {
        h - 1
    };
    let i = (row * sheet.width + frame * w + x) * 4;
    if sheet.rgba[i + 3] == 0 {
        None
    } else {
        Some((sheet.rgba[i], sheet.rgba[i + 1], sheet.rgba[i + 2]))
    }
}

use crate::pack::Sheet;

/// The colour at column `x` of frame `frame`, row `y` (rows past the sprite repeat
/// its last row).
pub fn pixel(sheet: &SpriteSheet, frame: u32, w: u32, h: u32, x: u32, y: u32) -> (r: Option<(u8, u8, u8)>)
    requires
        1 <= h <= 128,
        w <= 128,
        x < w,
        sheet.height >= h,
        (frame + 1) * w <= sheet.width,
        sheet.width <= 8192,
        sheet.rgba@.len() == rgba_len(sheet.width, sheet.height),
    ensures
        r == spec_pixel(sheet@, frame, w, h, x, y),
{
    let row: u32 = if y < h {
        y
    } else {
        h - 1
    };
    assert(frame * w + w == (frame + 1) * w) by (nonlinear_arith);
    assert(row * sheet.width + frame * w + x < sheet.width * sheet.height) by (nonlinear_arith)
        requires
            row < h,
            h <= sheet.height,
            x < w,
            frame * w + w == (frame + 1) * w,
            (frame + 1) * w <= sheet.width,
    ;
    assert(row * sheet.width <= 128 * 8192) by (nonlinear_arith)
        requires
            row < 128,
            sheet.width <= 8192,
    ;
    let i: usize = ((row * sheet.width + frame * w + x) as usize) * 4;
    if sheet.rgba[i + 3] == 0 {
        None
    } else {
        Some((sheet.rgba[i], sheet.rgba[i + 1], sheet.rgba[i + 2]))
    }
}

/// One text cell showing two stacked pixels: the glyph, its foreground and its
/// background colour (none means the terminal's own).
pub open spec fn spec_cell(
    top: Option<(u8, u8, u8)>,
    bottom: Option<(u8, u8, u8)>,
    monochrome: bool,
) -> (&'static str, Option<(u8, u8, u8)>, Option<(u8, u8, u8)>) {
    match (top, bottom) {
        (None, None) => (" ", None, None),
        (Some(t), None) => (if monochrome { "#" } else { "▀" }, Some(t), None),
        (None, Some(b)) => (if monochrome { "#" } else { "▄" }, Some(b), None),
        (Some(t), Some(b)) => (if monochrome { "#" } else { "▀" }, Some(t), Some(b)),
    }
}

pub fn cell(top: Option<(u8, u8, u8)>, bottom: Option<(u8, u8, u8)>, monochrome: bool) -> (r: (
    &'static str,
    Option<(u8, u8, u8)>,
    Option<(u8, u8, u8)>,
))
    ensures
        r == spec_cell(top, bottom, monochrome),
{
    match (top, bottom) {
        (None, None) => (" ", None, None),
        (Some(t), None) => (if monochrome { "#" } else { "▀" }, Some(t), None),
        (None, Some(b)) => (if monochrome { "#" } else { "▄" }, Some(b), None),
        (Some(t), Some(b)) => (if monochrome { "#" } else { "▀" }, Some(t), Some(b)),
    }
}

/// Which animation the terminal shows and how far into it, on a monotonic clock in
/// milliseconds.
#[derive(Debug)]
pub struct Playback {
    pub name: String,
    /// When the shown animation (re)started.
    pub changed: u64,
    pub paused: bool,
    /// The position held while paused.
    pub frozen: u64,
}

impl Playback {
    /// Milliseconds into the shown animation at `now`.
    pub open spec fn spec_elapsed(&self, now: u64) -> u64 {
        if self.paused {
            self.frozen
        } else if now >= self.changed {
            (now - self.changed) as u64
        } else {
            0
        }
    }

    /// Nothing shown yet, running.
    pub fn new(now: u64) -> (p: Playback)
        ensures
            p.name@ == Seq::<char>::empty(),
            p.changed == now,
            !p.paused,
            p.frozen == 0,
    {
        Playback { name: String::new(), changed: now, paused: false, frozen: 0 }
    }

    /// Shows `resolved` from its start when it differs from what is shown; a
    /// paused terminal keeps its animation.
    pub fn follow(&mut self, resolved: &str, now: u64)
        ensures
            !old(self).paused && old(self).name@ != resolved@ ==> final(self).name@ == resolved@
                && final(self).changed == now,
            old(self).paused || old(self).name@ == resolved@ ==> final(self).name@ == old(
                self,
            ).name@ && final(self).changed == old(self).changed,
            final(self).paused == old(self).paused,
            final(self).frozen == old(self).frozen,
    {
        if !self.paused && !same_text(self.name.as_str(), resolved) {
            self.name = String::from_str(resolved);
            self.changed = now;
        }
    }

    pub fn elapsed(&self, now: u64) -> (r: u64)
        ensures
            r == self.spec_elapsed(now),
    {
        if self.paused {
            self.frozen
        } else {
            now.saturating_sub(self.changed)
        }
    }

    /// What space does: pausing holds the current position; resuming continues
    /// from it.
    pub open spec fn spec_toggled(self, now: u64) -> Playback {
        if !self.paused {
            Playback { paused: true, frozen: self.spec_elapsed(now), ..self }
        } else {
            Playback {
                paused: false,
                changed: if now >= self.frozen {
                    (now - self.frozen) as u64
                } else {
                    0
                },
                ..self
            }
        }
    }

    pub fn toggle_pause(&mut self, now: u64)
        ensures
            *final(self) == old(self).spec_toggled(now),
    {
        if !self.paused {
            self.frozen = self.elapsed(now);
        } else {
            self.changed = now.saturating_sub(self.frozen);
        }
        self.paused = !self.paused;
    }
}

/// The first line after the title: the source of the state and whether paused.
pub open spec fn spec_status_line(simulation: bool, paused: bool) -> Seq<char> {
    "  "@ + (if simulation {
        "Simulated"@
    } else {
        "Live device state"@
    }) + "  "@ + (if paused {
        "[paused]"@
    } else {
        ""@
    })
}

pub fn status_line(simulation: bool, paused: bool) -> (r: String)
    ensures
        r@ == spec_status_line(simulation, paused),
{
    let mut r = String::from_str("  ");
    r.append(if simulation {
        "Simulated"
    } else {
        "Live device state"
    });
    r.append("  ");
    r.append(if paused {
        "[paused]"
    } else {
        ""
    });
    r
}

/// The key help at the bottom, cut to the terminal's width.
pub open spec fn spec_controls(simulation: bool, cols: u16) -> Seq<char> {
    let full = if simulation {
        "q quit · space pause · d live · b battery · c charger · n network · h load · r rain"@
    } else {
        "q quit · space pause · d simulate · +/- size"@
    };
    if (cols as int) < full.len() {
        full.take(cols as int)
    } else {
        full
    }
}

pub fn controls(simulation: bool, cols: u16) -> (r: &'static str)
    ensures
        r@ == spec_controls(simulation, cols),
{
    let full = if simulation {
        "q quit · space pause · d live · b battery · c charger · n network · h load · r rain"
    } else {
        "q quit · space pause · d simulate · +/- size"
    };
    let n = full.unicode_len();
    if (cols as usize) < n {
        full.substring_char(0, cols as usize)
    } else {
        full
    }
}

} // verus!
