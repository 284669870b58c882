//! The color picker's palette, swatch layout and decision logic. Drawing
//! and the dialog loop are platform work; this module fixes where each
//! swatch sits, what a mouse position hits, and what the picker hands back.

use vstd::prelude::*;
use crate::monitor::Rect;

verus! {

/// The number of preset swatches.
pub const PRESET_COUNT: usize = 16;

/// The picker window's size.
pub const PICKER_WIDTH: i32 = 280;
pub const PICKER_HEIGHT: i32 = 400;

/// The fixed palette: black, white, grays, and a range of warm and cool
/// tints, one swatch each.
pub open spec fn spec_preset_colors() -> Seq<u32> {
    seq![
        0x00000000u32,
        0x00FFFFFFu32,
        0x00303030u32,
        0x00808080u32,
        0x0040A0FFu32,
        0x0060C0FFu32,
        0x0080D0FFu32,
        0x00A0E0FFu32,
        0x00507DCDu32,
        0x00889EDEu32,
        0x008EBCF0u32,
        0x00B5D8F5u32,
        0x00CD9E7Du32,
        0x00E0C090u32,
        0x00F0D8A0u32,
        0x00F5E6C8u32,
    ]
}

/// The fixed palette of preset colors, in swatch order.
pub fn preset_colors() -> (r: Vec<u32>)
    ensures
        r@ == spec_preset_colors(),
        r@.len() == PRESET_COUNT,
{
    let mut r: Vec<u32> = Vec::new();
    r.push(0x00000000);
    r.push(0x00FFFFFF);
    r.push(0x00303030);
    r.push(0x00808080);
    r.push(0x0040A0FF);
    r.push(0x0060C0FF);
    r.push(0x0080D0FF);
    r.push(0x00A0E0FF);
    r.push(0x00507DCD);
    r.push(0x00889EDE);
    r.push(0x008EBCF0);
    r.push(0x00B5D8F5);
    r.push(0x00CD9E7D);
    r.push(0x00E0C090);
    r.push(0x00F0D8A0);
    r.push(0x00F5E6C8);
    proof {
        assert(r@ =~= spec_preset_colors());
    }
    r
}

/// The rectangle of swatch `index`: a 4-wide grid of 50-pixel cells with a
/// 12-pixel gap, below a 70-pixel header.
pub open spec fn spec_color_cell(index: int) -> Rect {
    Rect {
        left: (20 + (index % 4) * 62) as i32,
        top: (70 + (index / 4) * 62) as i32,
        right: (70 + (index % 4) * 62) as i32,
        bottom: (120 + (index / 4) * 62) as i32,
    }
}

/// The rectangle of the swatch at `index` within the picker window.
pub fn get_color_rect(index: usize) -> (r: Rect)
    requires
        index < PRESET_COUNT,
    ensures
        r == spec_color_cell(index as int),
{
    let col = (index % 4) as i32;
    let row = (index / 4) as i32;
    let x = 20 + col * 62;
    let y = 70 + row * 62;
    Rect { left: x, top: y, right: x + 50, bottom: y + 50 }
}

/// The rectangle of the `Custom Color...` button, below the swatch grid.
pub open spec fn spec_custom_button_rect() -> Rect {
    Rect { left: 20, top: 328, right: 260, bottom: 364 }
}

/// The rectangle of the button that opens the system color dialog.
pub fn get_custom_button_rect() -> (r: Rect)
    ensures
        r == spec_custom_button_rect(),
{
    let rows = ((PRESET_COUNT + 3) / 4) as i32;
    let y = 20 + 50 + rows * 62 + 10;
    Rect { left: 20, top: y, right: PICKER_WIDTH - 20, bottom: y + 36 }
}

/// Whether the point lies inside the rectangle, right and bottom edges
/// exclusive.
pub open spec fn spec_in_rect(r: Rect, x: i32, y: i32) -> bool {
    &&& r.left <= x < r.right
    &&& r.top <= y < r.bottom
}

/// The first swatch containing the point, scanning in swatch order from
/// `i`; `-1` where none does.
pub open spec fn spec_hit_from(x: i32, y: i32, i: int) -> int
    decreases PRESET_COUNT - i,
{
    if i >= PRESET_COUNT {
        -1
    } else if spec_in_rect(spec_color_cell(i), x, y) {
        i
    } else {
        spec_hit_from(x, y, i + 1)
    }
}

/// The swatch containing the point, or `-1`.
pub open spec fn spec_hit_test(x: i32, y: i32) -> int {
    spec_hit_from(x, y, 0)
}

/// The index of the swatch under the point, or `-1` where the point lies
/// on no swatch.
pub fn hit_test(x: i32, y: i32) -> (r: i32)
    ensures
        r as int == spec_hit_test(x, y),
        -1 <= r < PRESET_COUNT,
{
    let mut i: usize = 0;
    while i < PRESET_COUNT
        invariant
            i <= PRESET_COUNT,
            spec_hit_test(x, y) == spec_hit_from(x, y, i as int),
        decreases PRESET_COUNT - i,
    {
        let rect = get_color_rect(i);
        if x >= rect.left && x < rect.right && y >= rect.top && y < rect.bottom {
            return i as i32;
        }
        i = i + 1;
    }
    -1
}

/// Whether the point lies on the `Custom Color...` button.
pub fn hit_test_custom(x: i32, y: i32) -> (r: bool)
    ensures
        r == spec_in_rect(spec_custom_button_rect(), x, y),
{
    let rect = get_custom_button_rect();
    x >= rect.left && x < rect.right && y >= rect.top && y < rect.bottom
}

/// Where the picker window goes: centred on a screen of the given size.
pub fn center_origin(screen_w: i32, screen_h: i32) -> (pos: (i32, i32))
    requires
        PICKER_WIDTH <= screen_w,
        PICKER_HEIGHT <= screen_h,
    ensures
        pos.0 == (screen_w - PICKER_WIDTH) / 2,
        pos.1 == (screen_h - PICKER_HEIGHT) / 2,
{
    let x = ((screen_w - PICKER_WIDTH) as u32 / 2) as i32;
    let y = ((screen_h - PICKER_HEIGHT) as u32 / 2) as i32;
    (x, y)
}

/// How the picker ended, once its window is gone.
#[derive(Clone, Copy, Debug, PartialEq, Eq, Structural)]
pub enum PickerOutcome {
    /// Still open, or closed without a choice.
    Pending,
    /// A preset swatch was clicked.
    Preset,
    /// The `Custom Color...` button was clicked.
    Custom,
}

/// What the closed picker asks its caller to do.
#[derive(Clone, Copy, Debug, PartialEq, Eq, Structural)]
pub enum PickerDecision {
    /// Use this color.
    Chosen(u32),
    /// Open the system color dialog and use its answer.
    OpenSystemDialog,
    /// Keep the current color.
    Cancelled,
}

/// The picker's state: what the mouse hovers over, and how it ended.
#[derive(Clone, Copy, Debug, PartialEq, Eq, Structural)]
pub struct PickerState {
    pub selected_color: u32,
    pub outcome: PickerOutcome,
    pub hover_index: i32,
    pub hover_custom: bool,
}

impl PickerState {
    /// A freshly opened picker: nothing hovered, nothing chosen.
    pub fn new() -> (s: PickerState)
        ensures
            s == (PickerState {
                selected_color: 0,
                outcome: PickerOutcome::Pending,
                hover_index: -1i32,
                hover_custom: false,
            }),
    {
        PickerState {
            selected_color: 0,
            outcome: PickerOutcome::Pending,
            hover_index: -1i32,
            hover_custom: false,
        }
    }

    /// Tracks the mouse: records what the pointer is over now, and asks
    /// for a repaint exactly when that changed.
    pub fn mouse_move(&mut self, x: i32, y: i32) -> (repaint: bool)
        ensures
            final(self).hover_index as int == spec_hit_test(x, y),
            final(self).hover_custom == spec_in_rect(spec_custom_button_rect(), x, y),
            final(self).selected_color == old(self).selected_color,
            final(self).outcome == old(self).outcome,
            repaint == (old(self).hover_index != final(self).hover_index || old(
                self,
            ).hover_custom != final(self).hover_custom),
    {
        let new_hover = hit_test(x, y);
        let new_hover_custom = hit_test_custom(x, y);
        let repaint = new_hover != self.hover_index || new_hover_custom != self.hover_custom;
        self.hover_index = new_hover;
        self.hover_custom = new_hover_custom;
        repaint
    }

    /// A primary-button click: a click on a swatch chooses its color, a
    /// click on the custom button defers to the system dialog — either
    /// closes the picker — and a click anywhere else does nothing.
    pub fn click(&mut self, x: i32, y: i32) -> (close: bool)
        ensures
            final(self).hover_index == old(self).hover_index,
            final(self).hover_custom == old(self).hover_custom,
            ({
                let h = spec_hit_test(x, y);
                if h >= 0 {
                    &&& final(self).outcome is Preset
                    &&& final(self).selected_color == spec_preset_colors()[h]
                    &&& close
                } else if spec_in_rect(spec_custom_button_rect(), x, y) {
                    &&& final(self).outcome is Custom
                    &&& final(self).selected_color == old(self).selected_color
                    &&& close
                } else {
                    &&& *final(self) == *old(self)
                    &&& !close
                }
            }),
    {
        let index = hit_test(x, y);
        if index >= 0 {
            let presets = preset_colors();
            self.selected_color = presets[index as usize];
            self.outcome = PickerOutcome::Preset;
            true
        } else if hit_test_custom(x, y) {
            self.outcome = PickerOutcome::Custom;
            true
        } else {
            false
        }
    }

    /// What the closed picker hands back: the clicked preset, a request
    /// for the system dialog, or nothing.
    pub fn decision(&self) -> (d: PickerDecision)
        ensures
            self.outcome is Preset ==> d == PickerDecision::Chosen(self.selected_color),
            self.outcome is Custom ==> d is OpenSystemDialog,
            self.outcome is Pending ==> d is Cancelled,
    {
        match self.outcome {
            PickerOutcome::Preset => PickerDecision::Chosen(self.selected_color),
            PickerOutcome::Custom => PickerDecision::OpenSystemDialog,
            PickerOutcome::Pending => PickerDecision::Cancelled,
        }
    }
}

} // verus!
