//! The class factory, which makes processing objects and holds the host's
//! locks on the server.
use vstd::prelude::*;
use crate::apo::{role_of, Role, RustApo};
use crate::guid::{Guid, IID_IUNKNOWN};
use crate::module::{lock_step, ModuleState};
use crate::status::{HResult, E_NOINTERFACE, E_OUTOFMEMORY};

verus! {

/// The class factory: the host's one entry point for making processing
/// objects.
#[derive(Debug)]
pub struct ClassFactory {}

/// Whether a request for a new object names a role that can be given: there
/// is an identifier, the object plays that role, and a request on behalf of
/// an outer object asks for the base role.
pub open spec fn creatable(has_outer: bool, riid: Option<Guid>) -> bool {
    &&& riid is Some
    &&& role_of(riid->0) is Some
    &&& has_outer ==> riid->0 == Guid(IID_IUNKNOWN)
}

impl ClassFactory {
    /// The factory. It keeps nothing of its own: what it counts is the
    /// module's.
    pub fn new() -> (factory: Self)
        ensures
            factory == (ClassFactory {}),
    {
        Self {}
    }

    /// Makes a processing object and hands it out under the role `riid`.
    ///
    /// `has_outer` says that the host supplied an outer object to aggregate
    /// with. Aggregation is not supported: such a request gets an object only
    /// where it asks for the base role. A request without an identifier, or
    /// for a role that the object does not play, is answered with "no such
    /// interface", and so is a request with an outer object for any role but
    /// the base one; none of them counts an instance. A request that could be
    /// served while the instance count is at its limit is answered with "out
    /// of memory", and counts none either.
    pub fn CreateInstance(
        &self,
        module: &mut ModuleState,
        has_outer: bool,
        riid: Option<Guid>,
    ) -> (object: Result<(RustApo, Role), HResult>)
        ensures
            !creatable(has_outer, riid) ==> object == Err::<(RustApo, Role), HResult>(
                HResult(E_NOINTERFACE),
            ) && *final(module) == *old(module),
            creatable(has_outer, riid) && !old(module).has_room() ==> object == Err::<
                (RustApo, Role),
                HResult,
            >(HResult(E_OUTOFMEMORY)) && *final(module) == *old(module),
            creatable(has_outer, riid) && old(module).has_room() ==> {
                &&& object is Ok
                &&& object->Ok_0.0@ == RustApo::fresh()
                &&& Some(object->Ok_0.1) == role_of(riid->0)
                &&& *final(module) == old(module).created()
            },
    {
        let iid = match riid {
            Some(iid) => iid,
            None => {
                return Err(HResult(E_NOINTERFACE));
            },
        };
        if has_outer && iid != Guid(IID_IUNKNOWN) {
            return Err(HResult(E_NOINTERFACE));
        }
        let role = match RustApo::role_for(&iid) {
            Some(role) => role,
            None => {
                return Err(HResult(E_NOINTERFACE));
            },
        };
        match RustApo::new(module) {
            Some(apo) => Ok((apo, role)),
            None => Err(HResult(E_OUTOFMEMORY)),
        }
    }

    /// Takes a lock on the server for the host, or gives one back. It never
    /// fails, and it leaves the instance count and the handle alone. An
    /// unlock with no lock outstanding leaves the lock count at zero.
    pub fn LockServer(&self, module: &mut ModuleState, flock: bool) -> (done: Result<(), HResult>)
        ensures
            done is Ok,
            *final(module) == (ModuleState {
                locks: lock_step(old(module).locks, flock),
                ..*old(module)
            }),
    {
        module.lock_server(flock);
        Ok(())
    }
}

} // verus!
