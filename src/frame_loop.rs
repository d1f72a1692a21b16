use vstd::prelude::*;

verus! {

/// The slot holding the one frame loop that may run: its handle, if any,
/// and the handle that the next installed loop receives. Handles are never
/// reused, so a loop of a torn-down canvas never becomes current again.
#[derive(Clone, Copy, Debug, PartialEq, Eq)]
pub struct LoopSlot {
    pub active: Option<u64>,
    pub next: u64,
}

/// Something that happens to the slot.
#[derive(Clone, Copy, Debug, PartialEq, Eq)]
pub enum LoopEvent {
    /// A canvas mounted and installed its loop.
    Install,
    /// The canvas unmounted.
    Cancel,
}

impl LoopSlot {
    /// Every handle in use was issued before `next`.
    pub open spec fn wf(&self) -> bool {
        self.active matches Some(h) ==> h < self.next
    }

    /// Whether the frame callback holding `handle` may run.
    pub open spec fn runs(self, handle: u64) -> bool {
        self.active == Some(handle)
    }

    /// The slot after installing a loop; unchanged once handles run out.
    pub open spec fn installed(self) -> LoopSlot {
        if self.next < u64::MAX {
            LoopSlot { active: Some(self.next), next: (self.next + 1) as u64 }
        } else {
            self
        }
    }

    /// The slot after the canvas unmounted.
    pub open spec fn cancelled(self) -> LoopSlot {
        LoopSlot { active: None, ..self }
    }

    /// The slot after one event.
    pub open spec fn after(self, e: LoopEvent) -> LoopSlot {
        match e {
            LoopEvent::Install => self.installed(),
            LoopEvent::Cancel => self.cancelled(),
        }
    }

    /// The slot after a sequence of events, first to last.
    pub open spec fn after_all(self, events: Seq<LoopEvent>) -> LoopSlot
        decreases events.len(),
    {
        if events.len() == 0 {
            self
        } else {
            self.after(events[0]).after_all(events.subrange(1, events.len() as int))
        }
    }

    /// An empty slot: no loop runs.
    pub fn new() -> (r: LoopSlot)
        ensures
            r.wf(),
            r.active is None,
            r.next == 0,
    {
        LoopSlot { active: None, next: 0 }
    }

    /// Installs a new loop, replacing the previous one, and returns its
    /// handle; `None` once every handle has been issued.
    pub fn install(&mut self) -> (r: Option<u64>)
        ensures
            *final(self) == old(self).installed(),
            old(self).wf() || r is Some ==> final(self).wf(),
            r is Some <==> old(self).next < u64::MAX,
            r matches Some(h) ==> h == old(self).next && final(self).runs(h),
    {
        if self.next < u64::MAX {
            let h = self.next;
            self.active = Some(h);
            self.next = h + 1;
            Some(h)
        } else {
            None
        }
    }

    /// Cancels the running loop, if any.
    pub fn cancel(&mut self)
        ensures
            *final(self) == old(self).cancelled(),
            final(self).wf(),
            forall|h: u64| !final(self).runs(h),
    {
        self.active = None;
    }

    /// Whether the frame callback holding `handle` may run.
    pub fn is_current(&self, handle: u64) -> (r: bool)
        ensures
            r == self.runs(handle),
    {
        match self.active {
            Some(h) => h == handle,
            None => false,
        }
    }
}

/// A handle issued before `next` that does not run now never runs again,
/// whatever is installed or cancelled later.
pub proof fn lemma_stale_handle_stays_stopped(s: LoopSlot, handle: u64, events: Seq<LoopEvent>)
    requires
        s.wf(),
        handle < s.next,
        !s.runs(handle),
    ensures
        !s.after_all(events).runs(handle),
        s.after_all(events).wf(),
    decreases events.len(),
{
    if events.len() > 0 {
        lemma_stale_handle_stays_stopped(
            s.after(events[0]),
            handle,
            events.subrange(1, events.len() as int),
        );
    }
}

/// Once the canvas unmounts, the frame callback of its loop never runs
/// again, whatever loops are installed or cancelled afterwards.
pub proof fn lemma_cancelled_loop_never_runs(s: LoopSlot, handle: u64, events: Seq<LoopEvent>)
    requires
        s.wf(),
        s.runs(handle),
    ensures
        !s.cancelled().after_all(events).runs(handle),
{
    lemma_stale_handle_stays_stopped(s.cancelled(), handle, events);
}

} // verus!
