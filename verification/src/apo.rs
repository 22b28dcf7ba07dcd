//! The processing object: the roles it plays towards the host, its reference
//! count, and its states from construction to release.
use vstd::prelude::*;
use crate::descriptor::{apo_descriptor, apo_props, DescriptorView, PluginDescriptor};
use crate::guid::{
    Guid, IID_IAUDIOPROCESSINGOBJECT, IID_IAUDIOPROCESSINGOBJECTCONFIGURATION,
    IID_IAUDIOPROCESSINGOBJECTRT, IID_IAUDIOSYSTEMEFFECTS, IID_IRUSTAPO, IID_IUNKNOWN,
};
use crate::module::ModuleState;
use crate::status::{HResult, E_ILLEGAL_METHOD_CALL, E_NOINTERFACE, E_NOTIMPL, S_OK};

verus! {

/// A role that a processing object plays towards the host.
#[derive(Clone, Copy, Debug, PartialEq, Eq, Structural)]
pub enum Role {
    /// The base role: identity and lifetime.
    Identity,
    /// The plugin's own role, which reports a diagnostic value.
    Diagnostic,
    /// The processing object proper, which provides the registration
    /// properties.
    ProcessingObject,
    /// The marker of a system effect.
    SystemEffects,
    /// Configuration before processing: locking and unlocking.
    Configuration,
    /// Real-time processing.
    RealTime,
}

/// Where a processing object stands in its life.
#[derive(Clone, Copy, Debug, PartialEq, Eq, Structural)]
pub enum ApoState {
    /// Made, and not locked for processing yet.
    Constructed,
    /// Locked for processing; the real-time entry point has not run since.
    Configured,
    /// Locked for processing, and the real-time entry point has run.
    Processing,
    /// Unlocked again.
    Unconfigured,
    /// The last reference was given back.
    Released,
}

/// The role that an interface identifier names, if the object plays it.
pub open spec fn role_of(iid: Guid) -> Option<Role> {
    if iid == Guid(IID_IUNKNOWN) {
        Some(Role::Identity)
    } else if iid == Guid(IID_IRUSTAPO) {
        Some(Role::Diagnostic)
    } else if iid == Guid(IID_IAUDIOPROCESSINGOBJECT) {
        Some(Role::ProcessingObject)
    } else if iid == Guid(IID_IAUDIOSYSTEMEFFECTS) {
        Some(Role::SystemEffects)
    } else if iid == Guid(IID_IAUDIOPROCESSINGOBJECTCONFIGURATION) {
        Some(Role::Configuration)
    } else if iid == Guid(IID_IAUDIOPROCESSINGOBJECTRT) {
        Some(Role::RealTime)
    } else {
        None
    }
}

/// A processing object as plain values: its diagnostic value, the number of
/// references that the host holds, and its state.
pub struct ApoView {
    pub my_val: u32,
    pub refs: u32,
    pub state: ApoState,
}

impl ApoView {
    /// An object is released exactly when no reference is left.
    pub open spec fn wf(self) -> bool {
        (self.state is Released) == (self.refs == 0)
    }

    /// Whether the object is locked for processing.
    pub open spec fn locked(self) -> bool {
        self.state is Configured || self.state is Processing
    }

    /// Whether a request to lock the object is accepted: it is neither
    /// locked nor released.
    pub open spec fn accepts_lock(self) -> bool {
        self.state is Constructed || self.state is Unconfigured
    }

    /// The object after a further reference was taken. A released object
    /// takes none, and the count stays at the end of its range.
    pub open spec fn add_ref(self) -> ApoView {
        if self.refs == 0 || self.refs == u32::MAX {
            self
        } else {
            ApoView { refs: (self.refs + 1) as u32, ..self }
        }
    }

    /// The object after a reference was given back: with the last one it is
    /// released. A released object has none to give.
    pub open spec fn release(self) -> ApoView {
        if self.refs == 0 {
            self
        } else if self.refs == 1 {
            ApoView { refs: 0, state: ApoState::Released, ..self }
        } else {
            ApoView { refs: (self.refs - 1) as u32, ..self }
        }
    }

    /// Whether giving back a reference ends the object.
    pub open spec fn last_reference(self) -> bool {
        self.refs == 1
    }

    /// The object after a request to lock it for processing.
    pub open spec fn lock(self) -> ApoView {
        if self.accepts_lock() {
            ApoView { state: ApoState::Configured, ..self }
        } else {
            self
        }
    }

    /// The object after a request to unlock it, which is accepted where it is
    /// locked.
    pub open spec fn unlock(self) -> ApoView {
        if self.locked() {
            ApoView { state: ApoState::Unconfigured, ..self }
        } else {
            self
        }
    }

    /// The object after a call of the real-time entry point, which is
    /// accepted where the object is locked.
    pub open spec fn process(self) -> ApoView {
        if self.locked() {
            ApoView { state: ApoState::Processing, ..self }
        } else {
            self
        }
    }
}

/// A call that the host makes on a processing object and that its state has
/// a part in.
pub enum Call {
    AddRef,
    Release,
    LockForProcess,
    UnlockForProcess,
    Process,
}

impl ApoView {
    /// The object after a call.
    pub open spec fn after(self, call: Call) -> ApoView {
        match call {
            Call::AddRef => self.add_ref(),
            Call::Release => self.release(),
            Call::LockForProcess => self.lock(),
            Call::UnlockForProcess => self.unlock(),
            Call::Process => self.process(),
        }
    }

    /// The object after a sequence of calls.
    pub open spec fn after_all(self, calls: Seq<Call>) -> ApoView
        decreases calls.len(),
    {
        if calls.len() == 0 {
            self
        } else {
            self.after_all(calls.drop_last()).after(calls.last())
        }
    }
}

/// Whatever the host calls, an object stays well formed and keeps its
/// diagnostic value; and once it is released it stays released, with no
/// reference.
pub proof fn lemma_calls_keep_object(apo: ApoView, calls: Seq<Call>)
    requires
        apo.wf(),
    ensures
        apo.after_all(calls).wf(),
        apo.after_all(calls).my_val == apo.my_val,
        apo.state is Released ==> apo.after_all(calls) == apo,
    decreases calls.len(),
{
    if calls.len() > 0 {
        lemma_calls_keep_object(apo, calls.drop_last());
    }
}

/// Until a request to lock it is accepted, a new object is not locked,
/// whatever else the host calls: the real-time entry point is rejected, and
/// so is a request to unlock, and neither changes the object.
pub proof fn lemma_not_locked_before_lock(calls: Seq<Call>)
    requires
        forall|i: int|
            0 <= i < calls.len() && calls[i] is LockForProcess ==> !(
            #[trigger] RustApo::fresh().after_all(calls.take(i))).accepts_lock(),
    ensures
        ({
            let apo = RustApo::fresh().after_all(calls);
            &&& !apo.locked()
            &&& apo.process() == apo
            &&& apo.unlock() == apo
        }),
    decreases calls.len(),
{
    if calls.len() > 0 {
        let front = calls.drop_last();
        assert forall|i: int| 0 <= i < front.len() && front[i] is LockForProcess implies !(
        #[trigger] RustApo::fresh().after_all(front.take(i))).accepts_lock() by {
            assert(front.take(i) =~= calls.take(i));
            assert(front[i] == calls[i]);
        }
        lemma_not_locked_before_lock(front);
        assert(calls.take(calls.len() - 1) =~= front);
    }
}

/// One processing object.
#[derive(Debug)]
pub struct RustApo {
    my_val: u32,
    refs: u32,
    state: ApoState,
}

impl View for RustApo {
    type V = ApoView;

    closed spec fn view(&self) -> ApoView {
        ApoView { my_val: self.my_val, refs: self.refs, state: self.state }
    }
}

impl RustApo {
    #[verifier::type_invariant]
    spec fn released_when_unreferenced(self) -> bool {
        (self.state is Released) == (self.refs == 0)
    }

    /// A new object: one reference, the diagnostic value 5, not yet locked.
    pub open spec fn fresh() -> ApoView {
        ApoView { my_val: 5, refs: 1, state: ApoState::Constructed }
    }

    /// The descriptor that the object hands out: the plugin's, whatever the
    /// object.
    pub open spec fn registration_properties(self) -> DescriptorView {
        apo_descriptor()
    }

    /// Two objects hand out descriptors with the same content, whatever
    /// state each is in.
    pub proof fn lemma_descriptor_is_shared(first: RustApo, second: RustApo)
        ensures
            first.registration_properties() == second.registration_properties(),
            first.registration_properties().clsid == second.registration_properties().clsid,
            first.registration_properties().flags == second.registration_properties().flags,
            first.registration_properties().interfaces
                == second.registration_properties().interfaces,
    {
    }

    /// Makes a new object, as `fresh` describes it, and counts it among the
    /// module's live objects. Where the count is at its limit no object is
    /// made.
    pub fn new(module: &mut ModuleState) -> (apo: Option<Self>)
        ensures
            old(module).has_room() ==> apo is Some && apo->0@ == Self::fresh() && *final(module)
                == old(module).created(),
            !old(module).has_room() ==> apo is None && *final(module) == *old(module),
    {
        if module.instance_created() {
            Some(Self { my_val: 5, refs: 1, state: ApoState::Constructed })
        } else {
            None
        }
    }

    /// The role that an interface identifier names, by a lookup among the
    /// roles that the object plays.
    pub fn role_for(iid: &Guid) -> (role: Option<Role>)
        ensures
            role == role_of(*iid),
    {
        if *iid == Guid(IID_IUNKNOWN) {
            Some(Role::Identity)
        } else if *iid == Guid(IID_IRUSTAPO) {
            Some(Role::Diagnostic)
        } else if *iid == Guid(IID_IAUDIOPROCESSINGOBJECT) {
            Some(Role::ProcessingObject)
        } else if *iid == Guid(IID_IAUDIOSYSTEMEFFECTS) {
            Some(Role::SystemEffects)
        } else if *iid == Guid(IID_IAUDIOPROCESSINGOBJECTCONFIGURATION) {
            Some(Role::Configuration)
        } else if *iid == Guid(IID_IAUDIOPROCESSINGOBJECTRT) {
            Some(Role::RealTime)
        } else {
            None
        }
    }

    /// The object's state.
    pub fn state(&self) -> (state: ApoState)
        ensures
            state == self@.state,
            self@.wf(),
    {
        proof {
            use_type_invariant(self);
        }
        self.state
    }

    /// The number of references that the host holds.
    pub fn references(&self) -> (refs: u32)
        ensures
            refs == self@.refs,
            self@.wf(),
    {
        proof {
            use_type_invariant(self);
        }
        self.refs
    }

    /// Answers whether the object plays the role that `riid` names. Where it
    /// does, the host holds one reference more, and the role is handed out.
    /// Any other identifier is answered with "no such interface", and a
    /// released object answers every request with "invalid state"; neither
    /// changes the object.
    pub fn QueryInterface(&mut self, riid: &Guid) -> (role: Result<Role, HResult>)
        ensures
            final(self)@.wf(),
            old(self)@.state is Released ==> role == Err::<Role, HResult>(
                HResult(E_ILLEGAL_METHOD_CALL),
            ) && final(self)@ == old(self)@,
            !(old(self)@.state is Released) && role_of(*riid) is None ==> role == Err::<
                Role,
                HResult,
            >(HResult(E_NOINTERFACE)) && final(self)@ == old(self)@,
            !(old(self)@.state is Released) && role_of(*riid) is Some ==> role == Ok::<
                Role,
                HResult,
            >(role_of(*riid)->0) && final(self)@ == old(self)@.add_ref(),
    {
        proof {
            use_type_invariant(&*self);
        }
        if self.refs == 0 {
            return Err(HResult(E_ILLEGAL_METHOD_CALL));
        }
        match Self::role_for(riid) {
            Some(role) => {
                self.AddRef();
                Ok(role)
            },
            None => Err(HResult(E_NOINTERFACE)),
        }
    }

    /// Takes a further reference and reports how many the host holds then.
    pub fn AddRef(&mut self) -> (refs: u32)
        ensures
            final(self)@ == old(self)@.add_ref(),
            final(self)@.wf(),
            refs == final(self)@.refs,
    {
        proof {
            use_type_invariant(&*self);
        }
        if self.refs != 0 && self.refs != u32::MAX {
            self.refs = self.refs + 1;
        }
        self.refs
    }

    /// Gives a reference back and reports how many the host holds then. The
    /// last one releases the object, and with it the module counts one live
    /// object less. A released object has no reference to give: nothing
    /// changes then, so that each object leaves the count once.
    pub fn Release(&mut self, module: &mut ModuleState) -> (refs: u32)
        ensures
            final(self)@ == old(self)@.release(),
            final(self)@.wf(),
            refs == final(self)@.refs,
            *final(module) == if old(self)@.last_reference() {
                old(module).released()
            } else {
                *old(module)
            },
    {
        proof {
            use_type_invariant(&*self);
        }
        if self.refs == 0 {
            return 0;
        }
        if self.refs == 1 {
            *self = RustApo { my_val: self.my_val, refs: 0, state: ApoState::Released };
            module.instance_released();
            return 0;
        }
        self.refs = self.refs - 1;
        self.refs
    }

    /// Reports the diagnostic value.
    pub fn MyFunction(&self, out: &mut u32) -> (status: HResult)
        ensures
            *final(out) == self@.my_val,
            status == HResult(S_OK),
    {
        *out = self.my_val;
        HResult(S_OK)
    }

    /// The real-time entry point. It is accepted only while the object is
    /// locked for processing; any other call is rejected with "invalid state"
    /// and changes nothing. What it does to the samples is not defined here.
    pub fn APOProcess(
        &mut self,
        _u32numinputconnections: u32,
        _u32numoutputconnections: u32,
    ) -> (done: Result<(), HResult>)
        ensures
            final(self)@ == old(self)@.process(),
            final(self)@.wf(),
            done == if old(self)@.locked() {
                Ok::<(), HResult>(())
            } else {
                Err::<(), HResult>(HResult(E_ILLEGAL_METHOD_CALL))
            },
    {
        proof {
            use_type_invariant(&*self);
        }
        match self.state {
            ApoState::Configured | ApoState::Processing => {
                self.state = ApoState::Processing;
                Ok(())
            },
            _ => Err(HResult(E_ILLEGAL_METHOD_CALL)),
        }
    }

    /// The number of input frames that a number of output frames needs: the
    /// same number.
    pub fn CalcInputFrames(&self, u32outputframecount: u32) -> (frames: u32)
        ensures
            frames == u32outputframecount,
    {
        u32outputframecount
    }

    /// The number of output frames that a number of input frames gives: the
    /// same number.
    pub fn CalcOutputFrames(&self, u32inputframecount: u32) -> (frames: u32)
        ensures
            frames == u32inputframecount,
    {
        u32inputframecount
    }

    /// Locks the object for processing. A second lock without an unlock
    /// between them is rejected with "invalid state", and so is the lock of a
    /// released object; a rejected call changes nothing.
    pub fn LockForProcess(
        &mut self,
        _u32numinputconnections: u32,
        _u32numoutputconnections: u32,
    ) -> (done: Result<(), HResult>)
        ensures
            final(self)@ == old(self)@.lock(),
            final(self)@.wf(),
            done == if old(self)@.accepts_lock() {
                Ok::<(), HResult>(())
            } else {
                Err::<(), HResult>(HResult(E_ILLEGAL_METHOD_CALL))
            },
    {
        proof {
            use_type_invariant(&*self);
        }
        match self.state {
            ApoState::Constructed | ApoState::Unconfigured => {
                self.state = ApoState::Configured;
                Ok(())
            },
            _ => Err(HResult(E_ILLEGAL_METHOD_CALL)),
        }
    }

    /// Unlocks the object. Without a lock before it the call is rejected with
    /// "invalid state" and changes nothing.
    pub fn UnlockForProcess(&mut self) -> (done: Result<(), HResult>)
        ensures
            final(self)@ == old(self)@.unlock(),
            final(self)@.wf(),
            done == if old(self)@.locked() {
                Ok::<(), HResult>(())
            } else {
                Err::<(), HResult>(HResult(E_ILLEGAL_METHOD_CALL))
            },
    {
        proof {
            use_type_invariant(&*self);
        }
        match self.state {
            ApoState::Configured | ApoState::Processing => {
                self.state = ApoState::Unconfigured;
                Ok(())
            },
            _ => Err(HResult(E_ILLEGAL_METHOD_CALL)),
        }
    }

    /// Resets the object: there is nothing to reset, and the call succeeds.
    pub fn Reset(&self) -> (done: Result<(), HResult>)
        ensures
            done is Ok,
    {
        Ok(())
    }

    /// The object's latency: none.
    pub fn GetLatency(&self) -> (latency: Result<i64, HResult>)
        ensures
            latency == Ok::<i64, HResult>(0),
    {
        Ok(0)
    }

    /// The plugin's descriptor, the same for every object.
    pub fn GetRegistrationProperties(&self) -> (props: Result<PluginDescriptor, HResult>)
        ensures
            props is Ok,
            props->Ok_0@ == self.registration_properties(),
            props->Ok_0@.wf(),
    {
        Ok(apo_props())
    }

    /// Initializes the object: the data is not looked at, and the call
    /// succeeds.
    pub fn Initialize(&self, _cbdatasize: u32, _pbydata: &[u8]) -> (done: Result<(), HResult>)
        ensures
            done is Ok,
    {
        Ok(())
    }

    /// Format negotiation is not implemented: the call is rejected.
    pub fn IsInputFormatSupported(&self) -> (format: Result<(), HResult>)
        ensures
            format == Err::<(), HResult>(HResult(E_NOTIMPL)),
    {
        Err(HResult(E_NOTIMPL))
    }

    /// Format negotiation is not implemented: the call is rejected.
    pub fn IsOutputFormatSupported(&self) -> (format: Result<(), HResult>)
        ensures
            format == Err::<(), HResult>(HResult(E_NOTIMPL)),
    {
        Err(HResult(E_NOTIMPL))
    }

    /// Format negotiation is not implemented: the call is rejected.
    pub fn GetInputChannelCount(&self) -> (count: Result<u32, HResult>)
        ensures
            count == Err::<u32, HResult>(HResult(E_NOTIMPL)),
    {
        Err(HResult(E_NOTIMPL))
    }
}

} // verus!
