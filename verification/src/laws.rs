//! The rendering laws: what every frame the renderer produces shows, stated
//! over `spec_frame` and proved once for all layouts and snapshots.

use vstd::prelude::*;
use crate::layout::{LayoutCache, LINE_OFFSET};
use crate::render::{
    bar_at, battery_fill_height, battery_section, family_slot, icon_at, icon_cmds, icon_section,
    icon_x, icon_y, label_at, label_section, spec_frame, DrawCommand, FontSize, BAR_DROP,
};
use crate::state::{family_held, ModifierFamily, ModifierMask, StatusState};

verus! {

/// The frame holds a label primitive for layer `index` centered on `(x, y)`
/// in the given font.
pub open spec fn frame_has_label(
    frame: Seq<DrawCommand>,
    index: int,
    x: int,
    y: int,
    font: FontSize,
) -> bool {
    frame.contains(label_at(index, x, y, font))
}

/// Some label primitive stands strictly above the anchor row.
pub open spec fn label_above(frame: Seq<DrawCommand>, y_anchor: int) -> bool {
    exists|k: int|
        0 <= k < frame.len() && ((#[trigger] frame[k]) matches DrawCommand::Label {
            y: yy,
            ..
        } && yy < y_anchor)
}

/// Some label primitive stands strictly below the anchor row.
pub open spec fn label_below(frame: Seq<DrawCommand>, y_anchor: int) -> bool {
    exists|k: int|
        0 <= k < frame.len() && ((#[trigger] frame[k]) matches DrawCommand::Label {
            y: yy,
            ..
        } && yy > y_anchor)
}

/// The frame holds the family's icon centered on `(x, y)`.
pub open spec fn frame_has_icon(
    frame: Seq<DrawCommand>,
    f: ModifierFamily,
    x: int,
    y: int,
) -> bool {
    exists|k: int|
        0 <= k < frame.len() && ((#[trigger] frame[k]) matches DrawCommand::Icon {
            family: g,
            x: xx,
            y: yy,
        } && g == f && xx == x && yy == y)
}

/// The frame holds an underline bar at horizontal position `x`.
pub open spec fn frame_has_bar(frame: Seq<DrawCommand>, x: int) -> bool {
    exists|k: int|
        0 <= k < frame.len() && ((#[trigger] frame[k]) matches DrawCommand::Bar {
            x: xx,
            ..
        } && xx == x)
}

/// Shape of one family's contribution: its icon first, at its fixed slot,
/// raised exactly while held; then the underline bar exactly while held.
proof fn lemma_icon_cmds_shape(cache: LayoutCache, m: ModifierMask, f: ModifierFamily)
    ensures
        ({
            let s = icon_cmds(cache, m, f);
            &&& s.len() == if family_held(m, f) {
                2int
            } else {
                1int
            }
            &&& s[0] == icon_at(f, icon_x(cache, f), icon_y(cache, family_held(m, f)))
            &&& family_held(m, f) ==> s[1] == bar_at(icon_x(cache, f), cache.center_y + BAR_DROP)
        }),
{
}

/// Two families share a horizontal icon position only if they are the same
/// family: the four slots are distinct.
proof fn lemma_icon_x_injective(cache: LayoutCache, f: ModifierFamily, g: ModifierFamily)
    ensures
        icon_x(cache, f) == icon_x(cache, g) ==> f == g,
{
    if icon_x(cache, f) == icon_x(cache, g) {
        assert(family_slot(f) == family_slot(g));
    }
}

/// Every element of the icon row is an icon or an underline bar; the icons
/// sit at their family's fixed slot, raised exactly while held, and a bar
/// stands at a family's slot only while that family is held.
proof fn lemma_icon_section_shape(cache: LayoutCache, m: ModifierMask)
    requires
        cache.wf(),
    ensures
        forall|k: int|
            0 <= k < icon_section(cache, m).len() ==> ((#[trigger] icon_section(cache, m)[k])
                matches DrawCommand::Icon { family: g, x: xx, y: yy } ==> (xx == icon_x(cache, g)
                && yy == icon_y(cache, family_held(m, g)))),
        forall|k: int|
            0 <= k < icon_section(cache, m).len() ==> ((#[trigger] icon_section(cache, m)[k])
                matches DrawCommand::Bar { x: xx, .. } ==> exists|g: ModifierFamily|
                family_held(m, g) && xx == icon_x(cache, g)),
        forall|k: int|
            0 <= k < icon_section(cache, m).len() ==> ((#[trigger] icon_section(cache, m)[k])
                matches DrawCommand::Icon { .. } || icon_section(cache, m)[k] matches
                DrawCommand::Bar { .. }),
        forall|g: ModifierFamily| #[trigger]
            icon_section(cache, m).contains(
                icon_at(g, icon_x(cache, g), icon_y(cache, family_held(m, g))),
            ),
        forall|g: ModifierFamily|
            family_held(m, g) ==> #[trigger] icon_section(cache, m).contains(
                bar_at(icon_x(cache, g), cache.center_y + BAR_DROP),
            ),
{
    lemma_icon_cmds_shape(cache, m, ModifierFamily::Shift);
    lemma_icon_cmds_shape(cache, m, ModifierFamily::Ctrl);
    lemma_icon_cmds_shape(cache, m, ModifierFamily::Alt);
    lemma_icon_cmds_shape(cache, m, ModifierFamily::Gui);
    let s0 = icon_cmds(cache, m, ModifierFamily::Shift);
    let s1 = icon_cmds(cache, m, ModifierFamily::Ctrl);
    let s2 = icon_cmds(cache, m, ModifierFamily::Alt);
    let s3 = icon_cmds(cache, m, ModifierFamily::Gui);
    let sec = icon_section(cache, m);
    assert(sec == s0 + s1 + s2 + s3);
    assert forall|k: int| 0 <= k < sec.len() implies ((k < s0.len() ==> (#[trigger] sec[k])
        == s0[k]) && (s0.len() <= k < s0.len() + s1.len() ==> sec[k] == s1[k - s0.len()]) && (
    s0.len() + s1.len() <= k < s0.len() + s1.len() + s2.len() ==> sec[k] == s2[k - s0.len()
        - s1.len()]) && (s0.len() + s1.len() + s2.len() <= k ==> sec[k] == s3[k - s0.len()
        - s1.len() - s2.len()])) by {
        if k < s0.len() {
            assert(sec[k] == s0[k]);
        } else if k < s0.len() + s1.len() {
            assert(sec[k] == s1[k - s0.len()]);
        } else if k < s0.len() + s1.len() + s2.len() {
            assert(sec[k] == s2[k - s0.len() - s1.len()]);
        } else {
            assert(sec[k] == s3[k - s0.len() - s1.len() - s2.len()]);
        }
    }
    assert forall|g: ModifierFamily| #[trigger]
        sec.contains(icon_at(g, icon_x(cache, g), icon_y(cache, family_held(m, g)))) by {
        let w = match g {
            ModifierFamily::Shift => 0int,
            ModifierFamily::Ctrl => s0.len() as int,
            ModifierFamily::Alt => (s0.len() + s1.len()) as int,
            ModifierFamily::Gui => (s0.len() + s1.len() + s2.len()) as int,
        };
        assert(sec[w] == icon_at(g, icon_x(cache, g), icon_y(cache, family_held(m, g))));
    }
    assert forall|g: ModifierFamily| family_held(m, g) implies #[trigger] sec.contains(
        bar_at(icon_x(cache, g), cache.center_y + BAR_DROP),
    ) by {
        let w = match g {
            ModifierFamily::Shift => 1int,
            ModifierFamily::Ctrl => s0.len() + 1int,
            ModifierFamily::Alt => s0.len() + s1.len() + 1int,
            ModifierFamily::Gui => s0.len() + s1.len() + s2.len() + 1int,
        };
        assert(sec[w] == bar_at(icon_x(cache, g), cache.center_y + BAR_DROP));
    }
}

/// What the display shows about layers — for every layout, snapshot and
/// layer count: the active layer's name stands on the anchor in the primary
/// font; the previous layer's name stands one line above the anchor exactly
/// when the active layer is not the first; the next layer's name stands one
/// line below exactly when it is not the last.
pub proof fn lemma_layer_labels(cache: LayoutCache, state: StatusState, num_layers: int)
    requires
        cache.wf(),
        (state.layer as int) < num_layers,
    ensures
        frame_has_label(
            spec_frame(cache, state, num_layers),
            state.layer as int,
            cache.anchor_x as int,
            cache.anchor_y as int,
            FontSize::Primary,
        ),
        state.layer > 0 ==> frame_has_label(
            spec_frame(cache, state, num_layers),
            state.layer - 1,
            cache.anchor_x as int,
            cache.anchor_y - LINE_OFFSET,
            FontSize::Small,
        ),
        state.layer + 1 < num_layers ==> frame_has_label(
            spec_frame(cache, state, num_layers),
            state.layer + 1,
            cache.anchor_x as int,
            cache.anchor_y + LINE_OFFSET,
            FontSize::Small,
        ),
        label_above(spec_frame(cache, state, num_layers), cache.anchor_y as int) <==> state.layer
            > 0,
        label_below(spec_frame(cache, state, num_layers), cache.anchor_y as int) <==> state.layer
            + 1 < num_layers,
{
    let lab = label_section(cache, state, num_layers);
    let ico = icon_section(cache, state.modifiers);
    let bat = battery_section(cache, state.battery as int);
    let frame = spec_frame(cache, state, num_layers);
    assert(frame == seq![DrawCommand::Clear] + lab + ico + bat + seq![DrawCommand::Flush]);
    lemma_icon_section_shape(cache, state.modifiers);

    // The active layer's label is the last element of the label block.
    let wc = 1 + lab.len() - 1;
    assert(lab[lab.len() - 1] == label_at(
        state.layer as int,
        cache.anchor_x as int,
        cache.anchor_y as int,
        FontSize::Primary,
    ));
    assert(frame[wc] == lab[lab.len() - 1]);

    if state.layer > 0 {
        assert(lab[0] == label_at(
            state.layer - 1,
            cache.anchor_x as int,
            cache.anchor_y - LINE_OFFSET,
            FontSize::Small,
        ));
        assert(frame[1] == lab[0]);
        assert((frame[1] matches DrawCommand::Label { y: yy, .. } && yy < cache.anchor_y));
        assert(label_above(frame, cache.anchor_y as int));
    }
    if state.layer + 1 < num_layers {
        let wn = if state.layer > 0 {
            2int
        } else {
            1int
        };
        assert(lab[wn - 1] == label_at(
            state.layer + 1,
            cache.anchor_x as int,
            cache.anchor_y + LINE_OFFSET,
            FontSize::Small,
        ));
        assert(frame[wn] == lab[wn - 1]);
        assert((frame[wn] matches DrawCommand::Label { y: yy, .. } && yy > cache.anchor_y));
        assert(label_below(frame, cache.anchor_y as int));
    }

    // No label stands above the anchor when the first layer is active, and
    // none below it when the last is: every label of the frame comes from
    // the label block, whose rows are then the anchor row or one side only.
    if state.layer == 0 {
        assert(!label_above(frame, cache.anchor_y as int)) by {
            if label_above(frame, cache.anchor_y as int) {
                let k = choose|k: int|
                    0 <= k < frame.len() && ((#[trigger] frame[k]) matches DrawCommand::Label {
                        y: yy,
                        ..
                    } && yy < cache.anchor_y);
                if 1 <= k < 1 + lab.len() {
                    assert(frame[k] == lab[k - 1]);
                } else if 1 + lab.len() <= k < 1 + lab.len() + ico.len() {
                    assert(frame[k] == ico[k - 1 - lab.len()]);
                } else if 1 + lab.len() + ico.len() <= k < 1 + lab.len() + ico.len() + bat.len() {
                    assert(frame[k] == bat[k - 1 - lab.len() - ico.len()]);
                }
            }
        }
    }
    if state.layer + 1 == num_layers {
        assert(!label_below(frame, cache.anchor_y as int)) by {
            if label_below(frame, cache.anchor_y as int) {
                let k = choose|k: int|
                    0 <= k < frame.len() && ((#[trigger] frame[k]) matches DrawCommand::Label {
                        y: yy,
                        ..
                    } && yy > cache.anchor_y);
                if 1 <= k < 1 + lab.len() {
                    assert(frame[k] == lab[k - 1]);
                } else if 1 + lab.len() <= k < 1 + lab.len() + ico.len() {
                    assert(frame[k] == ico[k - 1 - lab.len()]);
                } else if 1 + lab.len() + ico.len() <= k < 1 + lab.len() + ico.len() + bat.len() {
                    assert(frame[k] == bat[k - 1 - lab.len() - ico.len()]);
                }
            }
        }
    }
}

/// What the display shows about modifiers — for every layout, snapshot and
/// family: the family's icon stands at its fixed horizontal slot, raised
/// exactly while the family is held and at rest otherwise, and at no other
/// position; the underline bar stands under that slot exactly while the
/// family is held.
pub proof fn lemma_modifier_icons(
    cache: LayoutCache,
    state: StatusState,
    num_layers: int,
    f: ModifierFamily,
)
    requires
        cache.wf(),
    ensures
        frame_has_icon(
            spec_frame(cache, state, num_layers),
            f,
            icon_x(cache, f),
            icon_y(cache, family_held(state.modifiers, f)),
        ),
        family_held(state.modifiers, f) <==> frame_has_bar(
            spec_frame(cache, state, num_layers),
            icon_x(cache, f),
        ),
        forall|x: int, y: int|
            #[trigger] frame_has_icon(spec_frame(cache, state, num_layers), f, x, y) ==> (x
                == icon_x(cache, f) && y == icon_y(cache, family_held(state.modifiers, f))),
{
    let m = state.modifiers;
    let lab = label_section(cache, state, num_layers);
    let ico = icon_section(cache, m);
    let bat = battery_section(cache, state.battery as int);
    let frame = spec_frame(cache, state, num_layers);
    assert(frame == seq![DrawCommand::Clear] + lab + ico + bat + seq![DrawCommand::Flush]);
    lemma_icon_section_shape(cache, m);

    // Lift containment from the icon row into the frame.
    assert(ico.contains(icon_at(f, icon_x(cache, f), icon_y(cache, family_held(m, f)))));
    let wi = choose|k: int|
        0 <= k < ico.len() && ico[k] == icon_at(
            f,
            icon_x(cache, f),
            icon_y(cache, family_held(m, f)),
        );
    assert(frame[1 + lab.len() + wi] == ico[wi]);
    assert((frame[1 + lab.len() + wi] matches DrawCommand::Icon { family: g, x: xx, y: yy } && g
        == f && xx == icon_x(cache, f) && yy == icon_y(cache, family_held(m, f))));
    assert(frame_has_icon(frame, f, icon_x(cache, f), icon_y(cache, family_held(m, f))));
    if family_held(m, f) {
        assert(ico.contains(bar_at(icon_x(cache, f), cache.center_y + BAR_DROP)));
        let wb = choose|k: int|
            0 <= k < ico.len() && ico[k] == bar_at(icon_x(cache, f), cache.center_y + BAR_DROP);
        assert(frame[1 + lab.len() + wb] == ico[wb]);
        assert((frame[1 + lab.len() + wb] matches DrawCommand::Bar { x: xx, .. } && xx == icon_x(
            cache,
            f,
        )));
        assert(frame_has_bar(frame, icon_x(cache, f)));
    }

    // Labels and the battery rectangles are neither icons nor bars, so every
    // icon and every bar of the frame comes from the icon row.
    assert forall|k: int|
        0 <= k < frame.len() && ((#[trigger] frame[k]) matches DrawCommand::Icon { .. }
            || frame[k] matches DrawCommand::Bar { .. }) implies (1 + lab.len() <= k < 1
        + lab.len() + ico.len() && frame[k] == ico[k - 1 - lab.len()]) by {
        if 1 <= k < 1 + lab.len() {
            assert(frame[k] == lab[k - 1]);
            assert(frame[k] matches DrawCommand::Label { .. });
        } else if 1 + lab.len() + ico.len() <= k < 1 + lab.len() + ico.len() + bat.len() {
            assert(frame[k] == bat[k - 1 - lab.len() - ico.len()]);
        }
    }

    // A bar at this family's slot can only come from this family being held.
    if frame_has_bar(frame, icon_x(cache, f)) {
        let k = choose|k: int|
            0 <= k < frame.len() && ((#[trigger] frame[k]) matches DrawCommand::Bar {
                x: xx,
                ..
            } && xx == icon_x(cache, f));
        assert(frame[k] == ico[k - 1 - lab.len()]);
        let g = choose|g: ModifierFamily|
            family_held(m, g) && ((frame[k] matches DrawCommand::Bar { x: xx, .. } && xx == icon_x(
                cache,
                g,
            )));
        lemma_icon_x_injective(cache, f, g);
        assert(family_held(m, f));
    }

    // The frame holds no icon of this family anywhere else.
    assert forall|x: int, y: int| #[trigger]
        frame_has_icon(frame, f, x, y) implies (x == icon_x(cache, f) && y == icon_y(
        cache,
        family_held(m, f),
    )) by {
        let k = choose|k: int|
            0 <= k < frame.len() && ((#[trigger] frame[k]) matches DrawCommand::Icon {
                family: g,
                x: xx,
                y: yy,
            } && g == f && xx == x && yy == y);
        assert(frame[k] == ico[k - 1 - lab.len()]);
    }
}

/// What the display shows about the battery — the filled gauge height is
/// monotonically non-decreasing in the percentage, empty at zero percent
/// and the full outline height at one hundred.
pub proof fn lemma_battery_gauge(height: int, b1: int, b2: int)
    requires
        0 < height,
        0 <= b1 <= b2 <= 100,
    ensures
        battery_fill_height(b1, height) <= battery_fill_height(b2, height),
        battery_fill_height(0, height) == 0,
        battery_fill_height(100, height) == height,
{
    assert(b1 * height <= b2 * height) by (nonlinear_arith)
        requires
            0 <= b1 <= b2,
            0 < height,
    ;
    vstd::arithmetic::div_mod::lemma_div_is_ordered(b1 * height, b2 * height, 100);
    assert(100 * height / 100 == height);
}

/// Every frame carries the battery gauge: the fixed outline at the right
/// edge, and the fill whose top edge sits exactly the filled height above
/// the bottom, so the fill grows upward with the percentage.
pub proof fn lemma_battery_fill_in_frame(cache: LayoutCache, state: StatusState, num_layers: int)
    requires
        cache.wf(),
        state.battery <= 100,
    ensures
        spec_frame(cache, state, num_layers).contains(
            (DrawCommand::Outline {
                x0: (cache.width - 5) as i32,
                y0: 0,
                x1: (cache.width - 1) as i32,
                y1: (cache.height - 1) as i32,
            }),
        ),
        spec_frame(cache, state, num_layers).contains(
            (DrawCommand::Fill {
                x0: (cache.width - 4) as i32,
                y0: (cache.height - battery_fill_height(
                    state.battery as int,
                    cache.height as int,
                )) as i32,
                x1: (cache.width - 2) as i32,
                y1: (cache.height - 1) as i32,
            }),
        ),
{
    let lab = label_section(cache, state, num_layers);
    let ico = icon_section(cache, state.modifiers);
    let bat = battery_section(cache, state.battery as int);
    let frame = spec_frame(cache, state, num_layers);
    assert(frame == seq![DrawCommand::Clear] + lab + ico + bat + seq![DrawCommand::Flush]);
    assert(frame[1 + lab.len() + ico.len() as int] == bat[0]);
    assert(frame[2 + lab.len() + ico.len() as int] == bat[1]);
}

/// Rendering is a pure function of the layout and the snapshot: issuing the
/// same snapshot twice yields bit-identical frame content.
pub proof fn lemma_render_idempotent(
    cache: LayoutCache,
    first: StatusState,
    second: StatusState,
    num_layers: int,
)
    requires
        first == second,
    ensures
        spec_frame(cache, first, num_layers) == spec_frame(cache, second, num_layers),
{
}

} // verus!

