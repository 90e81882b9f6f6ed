use vstd::prelude::*;

verus! {

/// The kinds of backend resource that a session can publish.
#[derive(PartialEq, Eq, Structural, Clone, Copy, Debug)]
pub enum Slot {
    Window,
    FpsCounter,
    Gl,
    GfxDevice,
    G2d,
    Renderer,
    Output,
}

/// One publication: a handle placed in a slot.
#[derive(PartialEq, Eq, Structural, Clone, Copy, Debug)]
pub struct Entry {
    pub slot: Slot,
    pub handle: u64,
}

/// The handle that is current for `slot` in a stack of publications: the most
/// recent publication into that slot, if any.
pub open spec fn current_in(s: Seq<Entry>, slot: Slot) -> Option<u64>
    decreases s.len(),
{
    if s.len() == 0 {
        None
    } else if s.last().slot == slot {
        Some(s.last().handle)
    } else {
        current_in(s.drop_last(), slot)
    }
}

/// The registry of current handles: a stack of publications, the latest on top.
/// A publication shadows earlier ones in its slot until it is retracted.
pub struct Registry {
    entries: Vec<Entry>,
}

impl View for Registry {
    type V = Seq<Entry>;

    closed spec fn view(&self) -> Seq<Entry> {
        self.entries@
    }
}

impl Registry {
    /// An empty registry: every slot is empty.
    pub fn new() -> (r: Registry)
        ensures
            r@ == Seq::<Entry>::empty(),
    {
        Registry { entries: Vec::new() }
    }

    /// The number of publications in force.
    pub fn depth(&self) -> (r: usize)
        ensures
            r == self@.len(),
    {
        self.entries.len()
    }

    /// Publishes `handle` into `slot`, shadowing what the slot held.
    pub fn publish(&mut self, slot: Slot, handle: u64)
        ensures
            final(self)@ == old(self)@.push(Entry { slot, handle }),
            current_in(final(self)@, slot) == Some(handle),
            forall|k: Slot| k != slot ==> #[trigger] current_in(final(self)@, k) == current_in(old(self)@, k),
    {
        self.entries.push(Entry { slot, handle });
        proof {
            assert(self.entries@.drop_last() =~= old(self).entries@);
        }
    }

    /// Retracts the latest publication and returns it; `None` when nothing is
    /// published.
    pub fn retract(&mut self) -> (r: Option<Entry>)
        ensures
            old(self)@.len() == 0 ==> r is None && final(self)@ == old(self)@,
            old(self)@.len() > 0 ==> r == Some(old(self)@.last()) && final(self)@
                == old(self)@.drop_last(),
            old(self)@.len() > 0 ==> forall|k: Slot| k != old(self)@.last().slot
                ==> #[trigger] current_in(final(self)@, k) == current_in(old(self)@, k),
    {
        self.entries.pop()
    }

    /// The handle current in `slot`, or `None` when the slot is empty.
    pub fn current(&self, slot: Slot) -> (r: Option<u64>)
        ensures
            r == current_in(self@, slot),
    {
        let mut i: usize = self.entries.len();
        proof {
            assert(self.entries@.take(i as int) =~= self.entries@);
        }
        while i > 0
            invariant
                i <= self.entries@.len(),
                current_in(self.entries@, slot) == current_in(self.entries@.take(i as int), slot),
            decreases i,
        {
            let e = self.entries[i - 1];
            proof {
                assert(self.entries@.take(i as int).drop_last() =~= self.entries@.take(i - 1));
            }
            if e.slot == slot {
                return Some(e.handle);
            }
            i = i - 1;
        }
        None
    }

    /// Whether some handle is current in `slot`.
    pub fn is_published(&self, slot: Slot) -> (r: bool)
        ensures
            r == current_in(self@, slot) is Some,
    {
        self.current(slot).is_some()
    }
}

} // verus!
