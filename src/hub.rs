//! The engine together with the event bus that reports on it.

use vstd::prelude::*;
use crate::altimeter::{calculate_progress, progress_of, recommended};
use crate::bus::{enqueue, Delivery, EventBus};
use crate::lifecycle::Engine;

verus! {

pub struct Hub {
    pub engine: Engine,
    pub bus: EventBus,
}

impl Hub {
    pub open spec fn wf(&self) -> bool {
        self.engine.wf() && self.bus.wf()
    }

    /// Sends every subscriber a heartbeat with the progress over the current
    /// cards and the altitude it recommends.
    pub fn heartbeat(&mut self)
        requires
            old(self).wf(),
        ensures
            final(self).wf(),
            final(self).engine == old(self).engine,
            final(self).bus.ids() == old(self).bus.ids(),
            final(self).bus.log() == old(self).bus.log(),
            final(self).bus.beats() == old(self).bus.beats() + 1,
            forall|i: int| 0 <= i < old(self).bus.ids().len() ==> {
                let d = Delivery::Heartbeat {
                    progress: progress_of(old(self).engine.cards()),
                    altitude: recommended(progress_of(old(self).engine.cards())),
                };
                &&& #[trigger] final(self).bus.queue(i) == enqueue(old(self).bus.queue(i), d, old(self).bus.capacity_of())
                &&& final(self).bus.history(i) == old(self).bus.history(i).push(d)
            },
    {
        let ghost old_bus = self.bus;
        let progress = calculate_progress(self.engine.registry().list());
        assert(progress == progress_of(self.engine.cards()));
        self.bus.heartbeat(progress);
        assert forall|i: int| 0 <= i < old_bus.ids().len() implies {
            let d = Delivery::Heartbeat { progress, altitude: recommended(progress) };
            &&& #[trigger] self.bus.queue(i) == enqueue(old_bus.queue(i), d, old_bus.capacity_of())
            &&& self.bus.history(i) == old_bus.history(i).push(d)
        } by {
            assert(self.bus.queue(i) == enqueue(old_bus.queue(i), Delivery::Heartbeat { progress, altitude: recommended(progress) }, old_bus.capacity_of()));
        }
    }
}

} // verus!
