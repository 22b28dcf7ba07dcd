//! What the module keeps for the process, and the module's entry points for
//! the loader and the host.
use vstd::prelude::*;
use vstd::seq_lib::to_multiset_build;
use crate::factory::ClassFactory;
use crate::guid::{Guid, IID_IRUSTAPO};
use crate::status::{HResult, CLASS_E_CLASSNOTAVAILABLE, S_FALSE, S_OK};

verus! {

/// The reason with which the loader reports that the module was attached to
/// a process.
pub const DLL_PROCESS_ATTACH: u32 = 1;

/// What the module keeps for the life of the process: how many processing
/// objects live, how many locks the host holds on the server, and the handle
/// under which the loader knows the module.
#[derive(Clone, Copy, Debug)]
pub struct ModuleState {
    pub instances: u32,
    pub locks: u32,
    pub handle: Option<isize>,
}

/// The lock count after one request: one more for a lock, one less for an
/// unlock. The count stays within its range: an unlock with no lock
/// outstanding leaves it at zero, and a lock at the upper end leaves it
/// there.
pub open spec fn lock_step(count: u32, lock: bool) -> u32 {
    if lock {
        if count == u32::MAX {
            count
        } else {
            (count + 1) as u32
        }
    } else {
        if count == 0 {
            count
        } else {
            (count - 1) as u32
        }
    }
}

/// The lock count after a sequence of requests, in the order in which they
/// took effect.
pub open spec fn locks_after(count: u32, requests: Seq<bool>) -> u32
    decreases requests.len(),
{
    if requests.len() == 0 {
        count
    } else {
        lock_step(locks_after(count, requests.drop_last()), requests.last())
    }
}

/// The number of locks among the requests.
pub open spec fn locks_among(requests: Seq<bool>) -> nat
    decreases requests.len(),
{
    if requests.len() == 0 {
        0
    } else {
        locks_among(requests.drop_last()) + if requests.last() {
            1nat
        } else {
            0nat
        }
    }
}

/// Locks less unlocks among the requests.
pub open spec fn lock_balance(requests: Seq<bool>) -> int
    decreases requests.len(),
{
    if requests.len() == 0 {
        0
    } else {
        lock_balance(requests.drop_last()) + if requests.last() {
            1int
        } else {
            -1int
        }
    }
}

/// What happens to a processing object: it is created, or its last
/// reference is released.
pub enum Lifetime {
    Created,
    Released,
}

/// Creations less releases among the events.
pub open spec fn live_balance(events: Seq<Lifetime>) -> int
    decreases events.len(),
{
    if events.len() == 0 {
        0
    } else {
        live_balance(events.drop_last()) + if events.last() is Created {
            1int
        } else {
            -1int
        }
    }
}

impl ModuleState {
    /// The state of a module that was just loaded.
    pub fn new() -> (state: Self)
        ensures
            state.instances == 0,
            state.locks == 0,
            state.handle is None,
    {
        ModuleState { instances: 0, locks: 0, handle: None }
    }

    /// Whether a further object may be counted.
    pub open spec fn has_room(self) -> bool {
        self.instances < u32::MAX
    }

    /// The state with one more live object.
    pub open spec fn created(self) -> ModuleState {
        ModuleState { instances: (self.instances + 1) as u32, ..self }
    }

    /// The state with one live object less; none can leave where none lives.
    pub open spec fn released(self) -> ModuleState {
        if self.instances == 0 {
            self
        } else {
            ModuleState { instances: (self.instances - 1) as u32, ..self }
        }
    }

    /// The state after an event. A creation for which there is no room does
    /// not take place.
    pub open spec fn after(self, event: Lifetime) -> ModuleState {
        match event {
            Lifetime::Created => if self.has_room() {
                self.created()
            } else {
                self
            },
            Lifetime::Released => self.released(),
        }
    }

    /// The state after a sequence of events.
    pub open spec fn after_all(self, events: Seq<Lifetime>) -> ModuleState
        decreases events.len(),
    {
        if events.len() == 0 {
            self
        } else {
            self.after_all(events.drop_last()).after(events.last())
        }
    }

    /// Whether the module may be unloaded: no processing object lives. The
    /// lock count has no part in it.
    pub open spec fn can_unload(self) -> bool {
        self.instances == 0
    }

    /// Counts a new object, where there is room for one.
    pub fn instance_created(&mut self) -> (counted: bool)
        ensures
            counted == old(self).has_room(),
            *final(self) == old(self).after(Lifetime::Created),
    {
        if self.instances < u32::MAX {
            self.instances = self.instances + 1;
            true
        } else {
            false
        }
    }

    /// Counts the end of an object.
    pub fn instance_released(&mut self)
        ensures
            *final(self) == old(self).released(),
    {
        if self.instances > 0 {
            self.instances = self.instances - 1;
        }
    }

    /// Takes one lock on the server, or gives one back. Where none is
    /// outstanding there is none to give back, and the count stays at zero.
    pub fn lock_server(&mut self, lock: bool)
        ensures
            *final(self) == (ModuleState { locks: lock_step(old(self).locks, lock), ..*old(self) }),
    {
        if lock {
            if self.locks < u32::MAX {
                self.locks = self.locks + 1;
            }
        } else {
            if self.locks > 0 {
                self.locks = self.locks - 1;
            }
        }
    }

    /// Whether the module may be unloaded.
    pub fn CanUnload(&self) -> (free: bool)
        ensures
            free == self.can_unload(),
    {
        self.instances == 0
    }
}

/// The loader's notification. The first attachment records the module's
/// handle; no later notification changes it. The answer is always yes.
pub fn DllMain(module: &mut ModuleState, ins: isize, reason: u32) -> (accepted: bool)
    ensures
        accepted,
        *final(module) == if reason == DLL_PROCESS_ATTACH && old(module).handle is None {
            ModuleState { handle: Some(ins), ..*old(module) }
        } else {
            *old(module)
        },
{
    if reason == DLL_PROCESS_ATTACH && module.handle.is_none() {
        module.handle = Some(ins);
    }
    true
}

/// Whether the host may unload the module: success where it may, and the
/// success that says "no" while an object lives.
pub fn DllCanUnloadNow(module: &ModuleState) -> (status: HResult)
    ensures
        status == if module.can_unload() {
            HResult(S_OK)
        } else {
            HResult(S_FALSE)
        },
{
    if module.CanUnload() {
        HResult(S_OK)
    } else {
        HResult(S_FALSE)
    }
}

/// The class object for `clsid`: the factory, where the class is the
/// plugin's, and "class not available" for any other class. The interface
/// asked for has no part in the answer.
pub fn DllGetClassObject(clsid: &Guid, _iid: &Guid) -> (class: Result<ClassFactory, HResult>)
    ensures
        *clsid == Guid(IID_IRUSTAPO) ==> class is Ok,
        *clsid != Guid(IID_IRUSTAPO) ==> class == Err::<ClassFactory, HResult>(
            HResult(CLASS_E_CLASSNOTAVAILABLE),
        ),
{
    if *clsid != Guid(IID_IRUSTAPO) {
        return Err(HResult(CLASS_E_CLASSNOTAVAILABLE));
    }
    Ok(ClassFactory::new())
}

/// A lock never lowers the count and an unlock never raises it, and neither
/// moves it by more than one. An unlock with no lock outstanding leaves the
/// count at zero.
pub proof fn lemma_lock_step_bounds(count: u32)
    ensures
        count <= lock_step(count, true) <= count + 1,
        count - 1 <= lock_step(count, false) <= count,
        lock_step(0, false) == 0,
{
}

/// A lock followed by an unlock leaves the count where it was, below the
/// upper end of its range.
pub proof fn lemma_lock_then_unlock(count: u32)
    requires
        count < u32::MAX,
    ensures
        lock_step(lock_step(count, true), false) == count,
{
}

/// An unlock followed by a lock leaves the count where it was, where a lock
/// was outstanding.
pub proof fn lemma_unlock_then_lock(count: u32)
    requires
        count > 0,
    ensures
        lock_step(lock_step(count, false), true) == count,
{
}

/// Whatever is requested and in whatever order, the count never exceeds the
/// count before the requests plus the locks among them: no unlock makes
/// the count larger.
pub proof fn lemma_unlocks_never_raise(count: u32, requests: Seq<bool>)
    ensures
        locks_after(count, requests) <= count + locks_among(requests),
    decreases requests.len(),
{
    if requests.len() > 0 {
        lemma_unlocks_never_raise(count, requests.drop_last());
    }
}

/// Where no unlock comes without a lock outstanding and the count stays
/// within its range, the count ends at the count before the requests, plus
/// the locks, less the unlocks: no request is lost.
pub proof fn lemma_lock_count(count: u32, requests: Seq<bool>)
    requires
        forall|k: int|
            0 <= k <= requests.len() ==> 0 <= count + #[trigger] lock_balance(requests.take(k))
                <= u32::MAX,
    ensures
        locks_after(count, requests) == count + lock_balance(requests),
    decreases requests.len(),
{
    assert(requests.take(requests.len() as int) =~= requests);
    if requests.len() > 0 {
        let front = requests.drop_last();
        assert forall|k: int| 0 <= k <= front.len() implies 0 <= count + #[trigger] lock_balance(
            front.take(k),
        ) <= u32::MAX by {
            assert(front.take(k) =~= requests.take(k));
        }
        lemma_lock_count(count, front);
        assert(front =~= requests.take(requests.len() - 1));
    }
}

/// The balance of requests is the number of locks among them less the number
/// of unlocks.
proof fn lemma_balance_counts(requests: Seq<bool>)
    ensures
        lock_balance(requests) == requests.to_multiset().count(true)
            - requests.to_multiset().count(false),
    decreases requests.len(),
{
    if requests.len() > 0 {
        let front = requests.drop_last();
        lemma_balance_counts(front);
        to_multiset_build(front, requests.last());
        assert(requests =~= front.push(requests.last()));
    } else {
        requests.to_multiset_ensures();
        assert(requests.to_multiset().len() == 0);
    }
}

/// Two orders of the same requests end at the same count, where in neither
/// order an unlock comes without a lock outstanding and the count stays
/// within its range: however the requests of several threads interleave,
/// none is lost and none counts twice.
pub proof fn lemma_lock_order_is_immaterial(count: u32, first: Seq<bool>, second: Seq<bool>)
    requires
        first.to_multiset() == second.to_multiset(),
        forall|k: int|
            0 <= k <= first.len() ==> 0 <= count + #[trigger] lock_balance(first.take(k))
                <= u32::MAX,
        forall|k: int|
            0 <= k <= second.len() ==> 0 <= count + #[trigger] lock_balance(second.take(k))
                <= u32::MAX,
    ensures
        locks_after(count, first) == locks_after(count, second),
{
    lemma_balance_counts(first);
    lemma_balance_counts(second);
    lemma_lock_count(count, first);
    lemma_lock_count(count, second);
}

/// After creations that succeeded and releases, none of them of an object
/// that was not counted, the instance count is the count before them plus
/// the creations less the releases; and the module may be unloaded exactly
/// when that number is zero.
pub proof fn lemma_instance_count(start: ModuleState, events: Seq<Lifetime>)
    requires
        forall|k: int|
            0 <= k <= events.len() ==> 0 <= start.instances + #[trigger] live_balance(
                events.take(k),
            ) <= u32::MAX,
    ensures
        start.after_all(events).instances == start.instances + live_balance(events),
        start.after_all(events).locks == start.locks,
        start.after_all(events).handle == start.handle,
        start.after_all(events).can_unload() <==> start.instances + live_balance(events) == 0,
    decreases events.len(),
{
    assert(events.take(events.len() as int) =~= events);
    if events.len() > 0 {
        let front = events.drop_last();
        assert forall|k: int| 0 <= k <= front.len() implies 0 <= start.instances
            + #[trigger] live_balance(front.take(k)) <= u32::MAX by {
            assert(front.take(k) =~= events.take(k));
        }
        lemma_instance_count(start, front);
        assert(front =~= events.take(events.len() - 1));
    }
}

} // verus!
