//! Plain descriptions of scripted overworld events.
//!
//! The rendering layer performs these events frame by frame; here they are
//! data. A warp is the fixed chain fade-out, map switch, fade-in; a parallel
//! group holds events that run side by side until each reports completion.
//! The driving loop owns the world: it performs each step and reports back
//! which events completed, and the bookkeeping here is what can be decided
//! without the world.

use vstd::prelude::*;

use crate::coordinates::MapCoordinates;

verus! {

/// One step of a scripted game event.
#[derive(Clone, Debug)]
pub enum GameEventStep {
    /// Fade the screen to black.
    FadeOut,
    /// Switch to the named map, placing the player at the given tile.
    SwitchMap(String, MapCoordinates),
    /// Fade the screen back in.
    FadeIn,
    /// Show a text box with the given text.
    Text(String),
}

/// A warp: fade out, switch to the target map at the target tile, fade in.
#[derive(Clone, Debug)]
pub struct WarpEvent {
    /// The steps of the warp, in execution order.
    pub steps: Vec<GameEventStep>,
}

impl WarpEvent {
    /// Builds the warp chain for the given map and tile: a fade-out, then
    /// the map switch, then a fade-in.
    pub fn new(map: String, tile: MapCoordinates) -> (r: WarpEvent)
        ensures
            r.steps@.len() == 3,
            (r.steps@[0] is FadeOut),
            r.steps@[1] == GameEventStep::SwitchMap(map, tile),
            (r.steps@[2] is FadeIn),
    {
        let mut steps: Vec<GameEventStep> = Vec::new();
        steps.push(GameEventStep::FadeOut);
        steps.push(GameEventStep::SwitchMap(map, tile));
        steps.push(GameEventStep::FadeIn);
        WarpEvent { steps }
    }
}

/// A group of scripted events that run in parallel: each ticks every frame
/// and leaves the group when it completes; the group is done when empty.
#[derive(Clone, Debug)]
pub struct ParallelEvents {
    /// The events still running.
    pub events: Vec<WarpEvent>,
}

/// The events that remain when those marked complete are dropped, in their
/// prior order.
pub open spec fn spec_incomplete(events: Seq<WarpEvent>, completed: Seq<bool>) -> Seq<WarpEvent>
    decreases events.len(),
{
    if events.len() == 0 {
        Seq::empty()
    } else if completed[0] {
        spec_incomplete(events.drop_first(), completed.drop_first())
    } else {
        seq![events[0]] + spec_incomplete(events.drop_first(), completed.drop_first())
    }
}

impl ParallelEvents {
    pub fn new() -> (r: ParallelEvents)
        ensures
            r.events@.len() == 0,
    {
        ParallelEvents { events: Vec::new() }
    }

    /// Adds the given list of events to this group, after those already
    /// running. It is assumed that the events were already started.
    pub fn add_events(&mut self, events: Vec<WarpEvent>)
        ensures
            final(self).events@ == old(self).events@ + events@,
    {
        let mut incoming = events;
        self.events.append(&mut incoming);
    }

    /// Whether every event of the group has completed and left it.
    pub fn is_complete(&self) -> (r: bool)
        ensures
            r == (self.events@.len() == 0),
    {
        self.events.len() == 0
    }

    /// One frame of bookkeeping: the driving loop reports, per running
    /// event, whether it completed this frame; those events leave the group
    /// and the rest stay, in order.
    pub fn remove_completed(&mut self, completed: &Vec<bool>)
        requires
            completed@.len() == old(self).events@.len(),
        ensures
            final(self).events@ == spec_incomplete(old(self).events@, completed@),
    {
        let ghost orig = self.events@;
        let ghost comp = completed@;
        let n = self.events.len();
        let mut i: usize = n;
        proof {
            assert(orig.subrange(0, n as int) =~= orig);
            assert(orig.skip(n as int) =~= Seq::<WarpEvent>::empty());
            assert(orig =~= orig.subrange(0, n as int) + spec_incomplete(
                orig.skip(n as int),
                comp.skip(n as int),
            ));
        }
        while i > 0
            invariant
                i <= n,
                n == orig.len(),
                comp.len() == n,
                comp == completed@,
                self.events@ == orig.subrange(0, i as int) + spec_incomplete(
                    orig.skip(i as int),
                    comp.skip(i as int),
                ),
            decreases i,
        {
            i = i - 1;
            proof {
                assert(orig.skip(i as int).drop_first() =~= orig.skip(i as int + 1));
                assert(comp.skip(i as int).drop_first() =~= comp.skip(i as int + 1));
                assert(orig.skip(i as int)[0] == orig[i as int]);
                assert(comp.skip(i as int)[0] == comp[i as int]);
            }
            if completed[i] {
                let ghost before = self.events@;
                let _dropped = self.events.remove(i);
                proof {
                    assert(self.events@ =~= orig.subrange(0, i as int) + spec_incomplete(
                        orig.skip(i as int),
                        comp.skip(i as int),
                    ));
                }
            } else {
                proof {
                    assert(orig.subrange(0, i as int + 1) =~= orig.subrange(0, i as int) + seq![
                        orig[i as int],
                    ]);
                    assert(self.events@ =~= orig.subrange(0, i as int) + spec_incomplete(
                        orig.skip(i as int),
                        comp.skip(i as int),
                    ));
                }
            }
        }
        proof {
            assert(orig.subrange(0, 0) =~= Seq::<WarpEvent>::empty());
            assert(orig.skip(0) =~= orig);
            assert(comp.skip(0) =~= comp);
            assert(Seq::<WarpEvent>::empty() + spec_incomplete(orig, comp) =~= spec_incomplete(
                orig,
                comp,
            ));
            assert(self.events@ =~= spec_incomplete(orig, comp));
        }
    }
}

} // verus!
