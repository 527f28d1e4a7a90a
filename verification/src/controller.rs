//! The polling controller: on each scheduled tick it drains the queued
//! status-change events into the snapshot, then decides — under the
//! backpressure rule — whether this tick may redraw at all. The scheduler,
//! the event subscription and the timed hardware operations live outside;
//! they hand in drained events and queue depths as plain values.

use vstd::prelude::*;
use crate::layout::LayoutCache;
use crate::lifecycle::DisplayLifecycle;
use crate::render::{render, spec_frame, DrawCommand};
use crate::state::{spec_apply, spec_apply_all, ControllerEvent, StatusState};

verus! {

/// Queue depths below this threshold allow a redraw; at or above it the
/// tick skips rendering so event processing keeps up.
pub const REDRAW_QUEUE_LIMIT: usize = 2;

/// Whether a tick that left the event queue at `depth` may redraw: only
/// when the backlog is below the threshold. The decision reads the queue
/// depth alone, never the snapshot.
pub open spec fn redraw_allowed(depth: int) -> bool {
    depth < REDRAW_QUEUE_LIMIT
}

/// An event the controller accepts: a layer index within the configured
/// names, a battery percentage within `[0, 100]` as the upstream producer
/// guarantees, or any other kind.
pub open spec fn event_ok(e: ControllerEvent, num_layers: int) -> bool {
    match e {
        ControllerEvent::Layer(l) => (l as int) < num_layers,
        ControllerEvent::Battery(b) => b <= 100,
        ControllerEvent::Modifier(_) => true,
        ControllerEvent::Ignored => true,
    }
}

/// The display controller: the status snapshot, the layout cache derived
/// once from the surface, the injected ordered layer names, and the
/// lifecycle manager owning the optional display handle.
pub struct DisplayController<H> {
    /// What must be shown.
    pub status: StatusState,
    /// Immutable drawing parameters.
    pub cache: LayoutCache,
    /// The ordered names of the configured layers; `status.layer` always
    /// indexes into it.
    pub layer_names: Vec<String>,
    /// Owner of the optional display handle.
    pub lifecycle: DisplayLifecycle<H>,
}

impl<H> DisplayController<H> {
    /// The controller's invariant: a valid layout, at least one layer, the
    /// active layer a valid index, and the battery within its contract.
    pub open spec fn wf(&self) -> bool {
        &&& self.cache.wf()
        &&& 0 < self.layer_names@.len()
        &&& (self.status.layer as int) < self.layer_names@.len()
        &&& self.status.battery <= 100
    }

    /// The number of configured layers.
    pub open spec fn spec_num_layers(&self) -> int {
        self.layer_names@.len() as int
    }

    /// Builds the controller for a surface of the given size and the given
    /// layer names: initial snapshot, Uninitialized display.
    pub fn new(width: u32, height: u32, layer_names: Vec<String>) -> (r: DisplayController<H>)
        requires
            8 <= width <= 4096,
            8 <= height <= 4096,
            0 < layer_names@.len(),
        ensures
            r.wf(),
            r.status == StatusState::spec_initial(),
            r.cache.width == width,
            r.cache.height == height,
            r.cache.anchor_x as int == crate::layout::text_center_x("GAME 2"@),
            r.layer_names == layer_names,
            !r.lifecycle.is_ready(),
    {
        DisplayController {
            status: StatusState::initial(),
            cache: LayoutCache::new(width, height),
            layer_names,
            lifecycle: DisplayLifecycle::new(),
        }
    }

    /// The number of configured layers.
    pub fn num_layers(&self) -> (n: usize)
        ensures
            n as int == self.spec_num_layers(),
    {
        self.layer_names.len()
    }

    /// The name at a layer index, for whoever carries out the label
    /// commands.
    pub fn layer_name(&self, index: usize) -> (name: &String)
        requires
            (index as int) < self.spec_num_layers(),
        ensures
            name == self.layer_names@[index as int],
    {
        &self.layer_names[index]
    }

    /// Applies one event to the snapshot: exactly the field the event
    /// carries is overwritten, and nothing else of the controller changes.
    pub fn process_event(&mut self, event: ControllerEvent)
        requires
            old(self).wf(),
            event_ok(event, old(self).spec_num_layers()),
        ensures
            final(self).wf(),
            final(self).status == spec_apply(old(self).status, event),
            final(self).cache == old(self).cache,
            final(self).layer_names == old(self).layer_names,
            final(self).lifecycle == old(self).lifecycle,
    {
        self.status.apply(event);
    }

    /// Drains a tick's events in order into the snapshot.
    pub fn drain(&mut self, events: &Vec<ControllerEvent>)
        requires
            old(self).wf(),
            forall|i: int|
                0 <= i < events@.len() ==> event_ok(events@[i], old(self).spec_num_layers()),
        ensures
            final(self).wf(),
            final(self).status == spec_apply_all(old(self).status, events@),
            final(self).cache == old(self).cache,
            final(self).layer_names == old(self).layer_names,
            final(self).lifecycle == old(self).lifecycle,
    {
        let mut i: usize = 0;
        while i < events.len()
            invariant
                i <= events@.len(),
                self.wf(),
                self.status == spec_apply_all(old(self).status, events@.take(i as int)),
                self.cache == old(self).cache,
                self.layer_names == old(self).layer_names,
                self.lifecycle == old(self).lifecycle,
                forall|j: int|
                    0 <= j < events@.len() ==> event_ok(events@[j], old(self).spec_num_layers()),
            decreases events@.len() - i,
        {
            let event = events[i];
            self.status.apply(event);
            proof {
                assert(events@.take(i + 1 as int).drop_last() =~= events@.take(i as int));
                assert(events@.take(i + 1 as int).last() == events@[i as int]);
            }
            i = i + 1;
        }
        proof {
            assert(events@.take(events@.len() as int) =~= events@);
        }
    }

    /// Whether the tick may redraw after draining left `queue_depth` events
    /// pending: the backpressure rule, a function of the depth alone.
    pub fn should_redraw(&self, queue_depth: usize) -> (r: bool)
        ensures
            r == redraw_allowed(queue_depth as int),
    {
        queue_depth < REDRAW_QUEUE_LIMIT
    }

    /// One scheduled tick's event handling: drains the queued events into
    /// the snapshot, then reports whether the lifecycle may be run this
    /// tick. At or above the queue threshold no redraw is issued, whatever
    /// the snapshot now holds.
    pub fn tick(&mut self, events: &Vec<ControllerEvent>, queue_depth: usize) -> (redraw: bool)
        requires
            old(self).wf(),
            forall|i: int|
                0 <= i < events@.len() ==> event_ok(events@[i], old(self).spec_num_layers()),
        ensures
            final(self).wf(),
            final(self).status == spec_apply_all(old(self).status, events@),
            final(self).cache == old(self).cache,
            final(self).layer_names == old(self).layer_names,
            final(self).lifecycle == old(self).lifecycle,
            redraw == redraw_allowed(queue_depth as int),
    {
        self.drain(events);
        self.should_redraw(queue_depth)
    }

    /// Renders the snapshot: exactly the command sequence `spec_frame`
    /// gives for the current snapshot and layout.
    pub fn render_frame(&self) -> (frame: Vec<DrawCommand>)
        requires
            self.wf(),
        ensures
            frame@ == spec_frame(self.cache, self.status, self.spec_num_layers()),
    {
        render(&self.cache, &self.status, self.layer_names.len())
    }
}

/// The backpressure law: whether a tick redraws depends on the remaining
/// queue depth alone — below the threshold it may, at or above it it may
/// not — independent of what the snapshot holds.
pub proof fn lemma_backpressure(depth: int)
    ensures
        redraw_allowed(depth) <==> depth < 2,
{
}

} // verus!
