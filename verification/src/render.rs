//! The frame renderer: a pure function of the layout cache and the status
//! snapshot, producing the exact ordered sequence of draw primitives that
//! one frame submits to the display, from the buffer clear to the flush.

use vstd::prelude::*;
use crate::layout::{LayoutCache, LINE_OFFSET};
use crate::state::{family_held, is_family_held, ModifierFamily, ModifierMask, StatusState};

verus! {

/// Horizontal distance between two neighbouring modifier icons.
pub const ICON_STEP: i32 = 15;

/// How far an icon moves up while its family is held.
pub const ICON_RAISE: i32 = 4;

/// Vertical distance from the surface center to the underline bar.
pub const BAR_DROP: i32 = 5;

/// Width of the underline bar under a held modifier's icon.
pub const BAR_WIDTH: u32 = 12;

/// Height of the underline bar under a held modifier's icon.
pub const BAR_HEIGHT: u32 = 2;

/// Which of the two label fonts a text primitive uses.
#[derive(Clone, Copy, PartialEq, Eq, Structural, Debug)]
pub enum FontSize {
    Primary,
    Small,
}

/// One draw primitive of a frame. Text and icons are centered on the given
/// point; `Bar` is a filled rectangle centered on its point; the two
/// battery rectangles are given by corner coordinates.
#[derive(Clone, Copy, PartialEq, Eq, Structural, Debug)]
pub enum DrawCommand {
    /// Clear the frame buffer.
    Clear,
    /// Draw the name of the layer at `index`, centered on `(x, y)`.
    Label { index: usize, x: i32, y: i32, font: FontSize },
    /// Draw the family's icon, centered on `(x, y)`.
    Icon { family: ModifierFamily, x: i32, y: i32 },
    /// Draw a filled underline bar, centered on `(x, y)`.
    Bar { x: i32, y: i32, width: u32, height: u32 },
    /// Stroke the battery gauge outline between the two corners.
    Outline { x0: i32, y0: i32, x1: i32, y1: i32 },
    /// Fill the battery gauge between the two corners.
    Fill { x0: i32, y0: i32, x1: i32, y1: i32 },
    /// Commit the frame buffer to the device.
    Flush,
}

/// Fixed slot of a family in the icon row.
pub open spec fn family_slot(f: ModifierFamily) -> int {
    match f {
        ModifierFamily::Shift => 0,
        ModifierFamily::Ctrl => 1,
        ModifierFamily::Alt => 2,
        ModifierFamily::Gui => 3,
    }
}

/// Horizontal position of a family's icon: fixed offsets from the surface
/// center, independent of the modifier mask.
pub open spec fn icon_x(cache: LayoutCache, f: ModifierFamily) -> int {
    cache.center_x + ICON_STEP * family_slot(f)
}

/// Vertical position of an icon: raised while held, resting otherwise.
pub open spec fn icon_y(cache: LayoutCache, held: bool) -> int {
    if held {
        cache.center_y - ICON_RAISE
    } else {
        cache.center_y as int
    }
}

/// A layer-name primitive centered on `(x, y)`.
pub open spec fn label_at(index: int, x: int, y: int, font: FontSize) -> DrawCommand {
    DrawCommand::Label { index: index as usize, x: x as i32, y: y as i32, font }
}

/// An icon primitive centered on `(x, y)`.
pub open spec fn icon_at(f: ModifierFamily, x: int, y: int) -> DrawCommand {
    DrawCommand::Icon { family: f, x: x as i32, y: y as i32 }
}

/// The underline bar primitive of a held family.
pub open spec fn bar_at(x: int, y: int) -> DrawCommand {
    DrawCommand::Bar { x: x as i32, y: y as i32, width: BAR_WIDTH, height: BAR_HEIGHT }
}

/// What one modifier family contributes to the frame: its icon, raised
/// while held, then its underline bar exactly when held.
pub open spec fn icon_cmds(cache: LayoutCache, m: ModifierMask, f: ModifierFamily) -> Seq<
    DrawCommand,
> {
    let held = family_held(m, f);
    let base = seq![icon_at(f, icon_x(cache, f), icon_y(cache, held))];
    if held {
        base + seq![bar_at(icon_x(cache, f), cache.center_y + BAR_DROP)]
    } else {
        base
    }
}

/// The icon row: the four families in their fixed order.
pub open spec fn icon_section(cache: LayoutCache, m: ModifierMask) -> Seq<DrawCommand> {
    icon_cmds(cache, m, ModifierFamily::Shift) + icon_cmds(cache, m, ModifierFamily::Ctrl)
        + icon_cmds(cache, m, ModifierFamily::Alt) + icon_cmds(cache, m, ModifierFamily::Gui)
}

/// The label block: the previous layer's name above the anchor exactly when
/// the layer is not the first, the next layer's name below the anchor
/// exactly when it is not the last, then the active layer's name on the
/// anchor in the primary font.
pub open spec fn label_section(cache: LayoutCache, state: StatusState, num_layers: int) -> Seq<
    DrawCommand,
> {
    let prev = if state.layer > 0 {
        seq![
            label_at(
                state.layer - 1,
                cache.anchor_x as int,
                cache.anchor_y - LINE_OFFSET,
                FontSize::Small,
            ),
        ]
    } else {
        Seq::<DrawCommand>::empty()
    };
    let next = if state.layer + 1 < num_layers {
        seq![
            label_at(
                state.layer + 1,
                cache.anchor_x as int,
                cache.anchor_y + LINE_OFFSET,
                FontSize::Small,
            ),
        ]
    } else {
        Seq::<DrawCommand>::empty()
    };
    prev + next + seq![
        label_at(state.layer as int, cache.anchor_x as int, cache.anchor_y as int, FontSize::Primary),
    ]
}

/// Height in pixels of the filled part of the battery gauge.
pub open spec fn battery_fill_height(battery: int, height: int) -> int {
    battery * height / 100
}

/// The battery gauge: the outline at the right edge, then the fill growing
/// upward from the bottom in proportion to the percentage.
pub open spec fn battery_section(cache: LayoutCache, battery: int) -> Seq<DrawCommand> {
    seq![
        DrawCommand::Outline {
            x0: (cache.width - 5) as i32,
            y0: 0,
            x1: (cache.width - 1) as i32,
            y1: (cache.height - 1) as i32,
        },
        DrawCommand::Fill {
            x0: (cache.width - 4) as i32,
            y0: (cache.height - battery_fill_height(battery, cache.height as int)) as i32,
            x1: (cache.width - 2) as i32,
            y1: (cache.height - 1) as i32,
        },
    ]
}

/// The whole frame, in submission order: clear, labels, icon row, battery
/// gauge, flush.
pub open spec fn spec_frame(cache: LayoutCache, state: StatusState, num_layers: int) -> Seq<
    DrawCommand,
> {
    seq![DrawCommand::Clear] + label_section(cache, state, num_layers) + icon_section(
        cache,
        state.modifiers,
    ) + battery_section(cache, state.battery as int) + seq![DrawCommand::Flush]
}

/// Runtime slot matching `family_slot`.
fn slot_of(f: ModifierFamily) -> (r: i32)
    ensures
        r as int == family_slot(f),
{
    match f {
        ModifierFamily::Shift => 0,
        ModifierFamily::Ctrl => 1,
        ModifierFamily::Alt => 2,
        ModifierFamily::Gui => 3,
    }
}

/// Appends one family's icon, and its underline bar when held.
fn push_icon(frame: &mut Vec<DrawCommand>, cache: &LayoutCache, m: ModifierMask, f: ModifierFamily)
    requires
        cache.wf(),
    ensures
        final(frame)@ == old(frame)@ + icon_cmds(*cache, m, f),
{
    let held = is_family_held(m, f);
    let x: i32 = cache.center_x + ICON_STEP * slot_of(f);
    let y: i32 = if held {
        cache.center_y - ICON_RAISE
    } else {
        cache.center_y
    };
    frame.push(DrawCommand::Icon { family: f, x, y });
    if held {
        frame.push(
            DrawCommand::Bar {
                x,
                y: cache.center_y + BAR_DROP,
                width: BAR_WIDTH,
                height: BAR_HEIGHT,
            },
        );
    }
    assert(frame@ =~= old(frame)@ + icon_cmds(*cache, m, f));
}

/// Renders one frame: the exact command sequence `spec_frame` gives for the
/// snapshot, so the same snapshot always yields bit-identical output.
#[verifier::rlimit(60)]
pub fn render(cache: &LayoutCache, state: &StatusState, num_layers: usize) -> (frame: Vec<
    DrawCommand,
>)
    requires
        cache.wf(),
        0 < num_layers,
        (state.layer as int) < num_layers,
        state.battery <= 100,
    ensures
        frame@ == spec_frame(*cache, *state, num_layers as int),
{
    let mut frame: Vec<DrawCommand> = Vec::new();
    frame.push(DrawCommand::Clear);

    if state.layer > 0 {
        frame.push(
            DrawCommand::Label {
                index: (state.layer - 1) as usize,
                x: cache.anchor_x,
                y: cache.anchor_y - LINE_OFFSET,
                font: FontSize::Small,
            },
        );
    }
    if (state.layer as usize) + 1 < num_layers {
        frame.push(
            DrawCommand::Label {
                index: (state.layer as usize) + 1,
                x: cache.anchor_x,
                y: cache.anchor_y + LINE_OFFSET,
                font: FontSize::Small,
            },
        );
    }
    frame.push(
        DrawCommand::Label {
            index: state.layer as usize,
            x: cache.anchor_x,
            y: cache.anchor_y,
            font: FontSize::Primary,
        },
    );

    push_icon(&mut frame, cache, state.modifiers, ModifierFamily::Shift);
    push_icon(&mut frame, cache, state.modifiers, ModifierFamily::Ctrl);
    push_icon(&mut frame, cache, state.modifiers, ModifierFamily::Alt);
    push_icon(&mut frame, cache, state.modifiers, ModifierFamily::Gui);

    frame.push(
        DrawCommand::Outline {
            x0: (cache.width - 5) as i32,
            y0: 0,
            x1: (cache.width - 1) as i32,
            y1: (cache.height - 1) as i32,
        },
    );
    proof {
        assert((state.battery as int) * (cache.height as int) <= 100 * (cache.height as int)
            && 0 <= (state.battery as int) * (cache.height as int)) by (nonlinear_arith)
            requires
                state.battery <= 100,
                0 <= cache.height as int <= 4096,
        ;
        assert(100 * (cache.height as int) / 100 == cache.height as int);
        vstd::arithmetic::div_mod::lemma_div_is_ordered(
            (state.battery as int) * (cache.height as int),
            100 * (cache.height as int),
            100,
        );
    }
    let fill_h: u32 = (state.battery as u32) * cache.height / 100;
    assert(fill_h == battery_fill_height(state.battery as int, cache.height as int));
    frame.push(
        DrawCommand::Fill {
            x0: (cache.width - 4) as i32,
            y0: (cache.height - fill_h) as i32,
            x1: (cache.width - 2) as i32,
            y1: (cache.height - 1) as i32,
        },
    );
    frame.push(DrawCommand::Flush);

    assert(frame@ =~= spec_frame(*cache, *state, num_layers as int));
    frame
}

} // verus!
