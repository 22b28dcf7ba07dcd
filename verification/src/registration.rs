//! Registration and its withdrawal as runs of steps: the library says which
//! step is next and what the operation's status is; the caller performs the
//! steps against the registry and the host.
use vstd::prelude::*;
use vstd::slice::slice_subrange;
use vstd::string::StringExecFns;
use crate::descriptor::{
    apo_descriptor, apo_props, friendly_name, friendly_name_units, DescriptorView,
    PluginDescriptor,
};
use crate::guid::{guid_text, Guid, IID_IRUSTAPO};
use crate::status::{hresult_from_win32, HResult, S_OK};
use crate::wide::{
    as_u8_slice, c_string_units, first_nul, le_bytes, lemma_c_string_units, lemma_first_nul_is,
    u16cstring_from_vec, utf16_units, wide_c_string,
};

verus! {

/// Access to set values under a key.
pub const KEY_SET_VALUE: u32 = 2;

/// The registry's 64-bit view, whatever the width of the process.
pub const KEY_WOW64_64KEY: u32 = 256;

/// The type of a value that holds a terminated string.
pub const REG_SZ: u32 = 1;

/// One step of a registration or of its withdrawal. The keys lie under the
/// local-machine root.
#[derive(Debug)]
pub enum RegistryAction {
    /// Hand the descriptor to the host's registration call.
    RegisterApo { descriptor: PluginDescriptor },
    /// Create the key, or open it where it exists, with the given access. It
    /// is the open key until it is closed.
    CreateKey { path: String, access: u32 },
    /// Write a value of the given type under the open key. The value without
    /// a name is the key's default value.
    SetValue { name: String, kind: u32, data: Vec<u8> },
    /// Close the open key.
    CloseKey,
    /// Delete the key in the registry view that `access` names.
    DeleteKey { path: String, access: u32 },
    /// Hand the identifier to the host's unregistration call.
    UnregisterApo { clsid: Guid },
}

/// A step as plain values.
pub enum ActionView {
    RegisterApo { descriptor: DescriptorView },
    CreateKey { path: Seq<char>, access: u32 },
    SetValue { name: Seq<char>, kind: u32, data: Seq<u8> },
    CloseKey,
    DeleteKey { path: Seq<char>, access: u32 },
    UnregisterApo { clsid: Guid },
}

impl View for RegistryAction {
    type V = ActionView;

    open spec fn view(&self) -> ActionView {
        match self {
            RegistryAction::RegisterApo { descriptor } => ActionView::RegisterApo {
                descriptor: descriptor@,
            },
            RegistryAction::CreateKey { path, access } => ActionView::CreateKey {
                path: path@,
                access: *access,
            },
            RegistryAction::SetValue { name, kind, data } => ActionView::SetValue {
                name: name@,
                kind: *kind,
                data: data@,
            },
            RegistryAction::CloseKey => ActionView::CloseKey,
            RegistryAction::DeleteKey { path, access } => ActionView::DeleteKey {
                path: path@,
                access: *access,
            },
            RegistryAction::UnregisterApo { clsid } => ActionView::UnregisterApo { clsid: *clsid },
        }
    }
}

/// What the host or the registry answered to a step.
#[derive(Clone, Copy, Debug, PartialEq, Eq)]
pub enum Outcome {
    /// The status of a host call.
    Host(HResult),
    /// The error code of a registry call; zero is success.
    Registry(u32),
}

impl Outcome {
    /// Whether the step failed.
    pub open spec fn failed(self) -> bool {
        match self {
            Outcome::Host(status) => status.failed(),
            Outcome::Registry(code) => code != 0,
        }
    }

    /// The answer as a status: a host status as it is, a registry code as the
    /// status that stands for it.
    pub open spec fn status(self) -> HResult {
        match self {
            Outcome::Host(status) => status,
            Outcome::Registry(code) => HResult(hresult_from_win32(code) as i32),
        }
    }

    /// Whether the step failed.
    pub fn is_err(&self) -> (r: bool)
        ensures
            r == self.failed(),
    {
        match self {
            Outcome::Host(status) => status.is_err(),
            Outcome::Registry(code) => *code != 0,
        }
    }

    /// The answer as a status.
    pub fn to_hresult(&self) -> (r: HResult)
        ensures
            r == self.status(),
            r.failed() == self.failed(),
    {
        match self {
            Outcome::Host(status) => *status,
            Outcome::Registry(code) => HResult::from_win32(*code),
        }
    }
}

/// The registry key of a class: `SOFTWARE\Classes\CLSID\{<identifier>}`.
pub open spec fn clsid_key_path(clsid: Guid) -> Seq<char> {
    "SOFTWARE\\Classes\\CLSID\\{"@ + guid_text(clsid.0) + "}"@
}

/// The child key that names the module which serves the class in process.
pub open spec fn inproc_key_path(clsid: Guid) -> Seq<char> {
    clsid_key_path(clsid) + "\\InprocServer32"@
}

/// The access with which registration opens its keys.
pub open spec fn registration_access() -> u32 {
    KEY_SET_VALUE | KEY_WOW64_64KEY
}

/// "Both", terminated: the object may be created from either apartment model.
pub open spec fn threading_model_units() -> Seq<u16> {
    seq![66u16, 111, 116, 104, 0]
}

/// The steps of a registration, in order: publish the descriptor; under the
/// class key the friendly name; under its in-process child the module's path
/// and the threading model.
pub open spec fn register_actions(dll_path: Seq<u16>) -> Seq<ActionView> {
    seq![
        ActionView::RegisterApo { descriptor: apo_descriptor() },
        ActionView::CreateKey {
            path: clsid_key_path(Guid(IID_IRUSTAPO)),
            access: registration_access(),
        },
        ActionView::SetValue {
            name: Seq::empty(),
            kind: REG_SZ,
            data: le_bytes(friendly_name_units()),
        },
        ActionView::CloseKey,
        ActionView::CreateKey {
            path: inproc_key_path(Guid(IID_IRUSTAPO)),
            access: registration_access(),
        },
        ActionView::SetValue { name: Seq::empty(), kind: REG_SZ, data: le_bytes(dll_path) },
        ActionView::SetValue {
            name: "ThreadingModel"@,
            kind: REG_SZ,
            data: le_bytes(threading_model_units()),
        },
        ActionView::CloseKey,
    ]
}

/// The steps that withdraw a registration, in order: delete the in-process
/// key, delete the class key, which is then without a child, and retract the
/// descriptor.
pub open spec fn unregister_actions() -> Seq<ActionView> {
    seq![
        ActionView::DeleteKey {
            path: inproc_key_path(Guid(IID_IRUSTAPO)),
            access: KEY_WOW64_64KEY,
        },
        ActionView::DeleteKey {
            path: clsid_key_path(Guid(IID_IRUSTAPO)),
            access: KEY_WOW64_64KEY,
        },
        ActionView::UnregisterApo { clsid: Guid(IID_IRUSTAPO) },
    ]
}

/// A run of steps as plain values: the plan, how many of its steps have
/// succeeded, the status of the step answered last, and whether a step failed.
pub struct RunView {
    pub plan: Seq<ActionView>,
    pub done: nat,
    pub status: HResult,
    pub stopped: bool,
}

impl RunView {
    /// The run before its first step.
    pub open spec fn start(plan: Seq<ActionView>) -> RunView {
        RunView { plan, done: 0, status: HResult(S_OK), stopped: false }
    }

    /// The step to perform next. There is none once a step has failed or all
    /// have succeeded.
    pub open spec fn pending(self) -> Option<ActionView> {
        if !self.stopped && self.done < self.plan.len() {
            Some(self.plan[self.done as int])
        } else {
            None
        }
    }

    /// The run after the pending step was answered: a failure stops it, a
    /// success moves it on, and either way the answer is the run's status. An
    /// answer to no step changes nothing.
    pub open spec fn after(self, outcome: Outcome) -> RunView {
        if self.pending() is None {
            self
        } else if outcome.failed() {
            RunView { status: outcome.status(), stopped: true, ..self }
        } else {
            RunView { status: outcome.status(), done: self.done + 1, ..self }
        }
    }

    /// The run after a sequence of answers, each to the step then pending.
    pub open spec fn after_all(self, outcomes: Seq<Outcome>) -> RunView
        decreases outcomes.len(),
    {
        if outcomes.len() == 0 {
            self
        } else {
            self.after(outcomes[0]).after_all(outcomes.skip(1))
        }
    }
}

/// The place of the first answer that reports a failure, or the number of
/// answers where none does.
pub open spec fn first_failure(outcomes: Seq<Outcome>) -> int
    decreases outcomes.len(),
{
    if outcomes.len() == 0 || outcomes[0].failed() {
        0
    } else {
        1 + first_failure(outcomes.skip(1))
    }
}

/// A registration or its withdrawal in progress. The caller performs the
/// pending step and records what the host or the registry answered, until no
/// step is pending; the status is then the operation's result.
#[derive(Debug)]
pub struct Registration {
    plan: Vec<RegistryAction>,
    done: usize,
    status: HResult,
    stopped: bool,
}

impl View for Registration {
    type V = RunView;

    closed spec fn view(&self) -> RunView {
        RunView {
            plan: self.plan@.map_values(|action: RegistryAction| action@),
            done: self.done as nat,
            status: self.status,
            stopped: self.stopped,
        }
    }
}

impl Registration {
    #[verifier::type_invariant]
    spec fn within_plan(self) -> bool {
        self.done <= self.plan@.len()
    }

    /// The step to perform next, if the run has not ended.
    pub fn pending(&self) -> (action: Option<&RegistryAction>)
        ensures
            action is Some <==> self@.pending() is Some,
            action matches Some(step) ==> self@.pending() == Some(step@),
    {
        proof {
            use_type_invariant(self);
        }
        if !self.stopped && self.done < self.plan.len() {
            Some(&self.plan[self.done])
        } else {
            None
        }
    }

    /// Records the answer to the pending step.
    pub fn record(&mut self, outcome: Outcome)
        ensures
            final(self)@ == old(self)@.after(outcome),
    {
        proof {
            use_type_invariant(&*self);
        }
        if !self.stopped && self.done < self.plan.len() {
            self.status = outcome.to_hresult();
            if outcome.is_err() {
                self.stopped = true;
            } else {
                self.done = self.done + 1;
            }
        }
    }

    /// The status of the step that was answered last; success before any.
    pub fn status(&self) -> (status: HResult)
        ensures
            status == self@.status,
    {
        self.status
    }

    /// How many steps have succeeded.
    pub fn steps_done(&self) -> (done: usize)
        ensures
            done == self@.done,
    {
        self.done
    }

    /// Whether a step has failed.
    pub fn stopped(&self) -> (stopped: bool)
        ensures
            stopped == self@.stopped,
    {
        self.stopped
    }
}

/// The registry key of a class.
pub fn clsid_key(clsid: &Guid) -> (key: String)
    ensures
        key@ == clsid_key_path(*clsid),
{
    let text = clsid.text();
    let mut key = String::from_str("SOFTWARE\\Classes\\CLSID\\{");
    key.append(text.as_str());
    key.append("}");
    key
}

/// The registry key that names the module which serves a class in process.
pub fn inproc_key(clsid: &Guid) -> (key: String)
    ensures
        key@ == inproc_key_path(*clsid),
{
    let mut key = clsid_key(clsid);
    key.append("\\InprocServer32");
    key
}

/// The registry key of the plugin's class.
pub fn rust_apo_clsid_key() -> (key: String)
    ensures
        key@ == clsid_key_path(Guid(IID_IRUSTAPO)),
{
    let guid = Guid(IID_IRUSTAPO);
    clsid_key(&guid)
}

/// The registry key that names the module which serves the plugin's class.
pub fn rust_inproc_key() -> (key: String)
    ensures
        key@ == inproc_key_path(Guid(IID_IRUSTAPO)),
{
    let guid = Guid(IID_IRUSTAPO);
    inproc_key(&guid)
}

/// The first `written` units of a buffer as a terminated string: the module's
/// path as the loader wrote it. There is none where `written` is more than the
/// buffer holds, or where those units hold a zero before their last place.
pub fn get_dll_path(buffer: &[u16], written: usize) -> (path: Option<Vec<u16>>)
    ensures
        path is Some <==> written <= buffer@.len() && c_string_units(
            buffer@.take(written as int),
        ) is Some,
        path matches Some(string) ==> {
            &&& Some(string@) == c_string_units(buffer@.take(written as int))
            &&& string@.len() >= 1
            &&& string@.last() == 0
            &&& first_nul(string@) == string@.len() - 1
        },
{
    if written > buffer.len() {
        return None;
    }
    let units = slice_subrange(buffer, 0, written);
    assert(units@ == buffer@.take(written as int));
    proof {
        lemma_c_string_units(units@);
    }
    u16cstring_from_vec(units)
}

/// The threading model's value as terminated UTF-16.
pub fn threading_model() -> (value: Vec<u16>)
    ensures
        value@ == threading_model_units(),
{
    proof {
        reveal_strlit("Both");
        let units = seq![66u16, 111, 116, 104];
        reveal_with_fuel(utf16_units, 5);
        assert("Both"@.skip(1).skip(1).skip(1).skip(1).len() == 0);
        assert(utf16_units("Both"@) =~= units);
        lemma_first_nul_is(units, 4);
        assert(units.push(0) =~= threading_model_units());
        assert(c_string_units(utf16_units("Both"@)) == Some(threading_model_units()));
    }
    match wide_c_string("Both") {
        Some(value) => value,
        None => unreached(),
    }
}

/// Begins a registration of the plugin. `dll_path` is the path of the
/// module's file as terminated UTF-16.
pub fn DllRegisterServer(dll_path: &[u16]) -> (run: Registration)
    ensures
        run@ == RunView::start(register_actions(dll_path@)),
{
    let access: u32 = KEY_SET_VALUE | KEY_WOW64_64KEY;
    let name = friendly_name();
    let model = threading_model();
    let mut plan: Vec<RegistryAction> = Vec::new();
    plan.push(RegistryAction::RegisterApo { descriptor: apo_props() });
    plan.push(RegistryAction::CreateKey { path: rust_apo_clsid_key(), access });
    plan.push(
        RegistryAction::SetValue {
            name: String::new(),
            kind: REG_SZ,
            data: as_u8_slice(name.as_slice()),
        },
    );
    plan.push(RegistryAction::CloseKey);
    plan.push(RegistryAction::CreateKey { path: rust_inproc_key(), access });
    plan.push(
        RegistryAction::SetValue {
            name: String::new(),
            kind: REG_SZ,
            data: as_u8_slice(dll_path),
        },
    );
    plan.push(
        RegistryAction::SetValue {
            name: String::from_str("ThreadingModel"),
            kind: REG_SZ,
            data: as_u8_slice(model.as_slice()),
        },
    );
    plan.push(RegistryAction::CloseKey);
    let run = Registration { plan, done: 0, status: HResult(S_OK), stopped: false };
    assert(run@.plan =~= register_actions(dll_path@));
    run
}

/// Begins the withdrawal of the plugin's registration.
pub fn DllUnregisterServer() -> (run: Registration)
    ensures
        run@ == RunView::start(unregister_actions()),
{
    let mut plan: Vec<RegistryAction> = Vec::new();
    plan.push(RegistryAction::DeleteKey { path: rust_inproc_key(), access: KEY_WOW64_64KEY });
    plan.push(RegistryAction::DeleteKey { path: rust_apo_clsid_key(), access: KEY_WOW64_64KEY });
    plan.push(RegistryAction::UnregisterApo { clsid: Guid(IID_IRUSTAPO) });
    let run = Registration { plan, done: 0, status: HResult(S_OK), stopped: false };
    assert(run@.plan =~= unregister_actions());
    run
}

/// An answer to a run that has no step pending changes nothing.
proof fn lemma_ended_run_ignores(run: RunView, outcomes: Seq<Outcome>)
    requires
        run.pending() is None,
    ensures
        run.after_all(outcomes) == run,
    decreases outcomes.len(),
{
    if outcomes.len() > 0 {
        lemma_ended_run_ignores(run, outcomes.skip(1));
    }
}

/// The run that a sequence of answers leads to, from any run that has not
/// stopped and has a step for each answer.
proof fn lemma_after_all(run: RunView, outcomes: Seq<Outcome>)
    requires
        !run.stopped,
        run.done + outcomes.len() <= run.plan.len(),
    ensures
        ({
            let end = run.after_all(outcomes);
            let at = first_failure(outcomes);
            &&& end.plan == run.plan
            &&& 0 <= at <= outcomes.len()
            &&& forall|i: int| 0 <= i < at ==> !outcomes[i].failed()
            &&& at < outcomes.len() ==> outcomes[at].failed()
            &&& end.done == run.done + at
            &&& end.stopped == (at < outcomes.len())
            &&& at < outcomes.len() ==> end.status == outcomes[at].status()
            &&& at == outcomes.len() ==> end.status == if at > 0 {
                outcomes[at - 1].status()
            } else {
                run.status
            }
        }),
    decreases outcomes.len(),
{
    if outcomes.len() > 0 {
        let rest = outcomes.skip(1);
        let next = run.after(outcomes[0]);
        if outcomes[0].failed() {
            lemma_ended_run_ignores(next, rest);
        } else {
            lemma_after_all(next, rest);
            let at = first_failure(outcomes);
            assert forall|i: int| 0 <= i < at implies !outcomes[i].failed() by {
                if i > 0 {
                    assert(outcomes[i] == rest[i - 1]);
                }
            }
            if at < outcomes.len() {
                assert(outcomes[at] == rest[at - 1]);
            }
            if at == outcomes.len() && at > 1 {
                assert(outcomes[at - 1] == rest[at - 2]);
            }
        }
    }
}

/// A run performs the steps of its plan in order and stops at the first step
/// that fails. Its status is then that step's own; where no step fails, it is
/// the status of the step answered last, and success before any answer.
pub proof fn lemma_run_stops_at_first_failure(plan: Seq<ActionView>, outcomes: Seq<Outcome>)
    requires
        outcomes.len() <= plan.len(),
    ensures
        ({
            let end = RunView::start(plan).after_all(outcomes);
            let at = first_failure(outcomes);
            &&& end.plan == plan
            &&& 0 <= at <= outcomes.len()
            &&& forall|i: int| 0 <= i < at ==> !outcomes[i].failed()
            &&& at < outcomes.len() ==> outcomes[at].failed()
            &&& end.done == at
            &&& end.stopped == (at < outcomes.len())
            &&& end.pending() == if at == outcomes.len() && at < plan.len() {
                Some(plan[at])
            } else {
                None
            }
            &&& end.status == if at < outcomes.len() {
                outcomes[at].status()
            } else if at > 0 {
                outcomes[at - 1].status()
            } else {
                HResult(S_OK)
            }
        }),
{
    lemma_after_all(RunView::start(plan), outcomes);
}

/// A registration whose eight steps all succeed ends with success.
pub proof fn lemma_register_succeeds(dll_path: Seq<u16>, outcomes: Seq<Outcome>)
    requires
        outcomes.len() == 8,
        forall|i: int| 0 <= i < 8 ==> !outcomes[i].failed(),
        outcomes[7] is Registry,
    ensures
        ({
            let end = RunView::start(register_actions(dll_path)).after_all(outcomes);
            &&& end.pending() is None
            &&& !end.stopped
            &&& end.done == 8
            &&& end.status == HResult(S_OK)
        }),
{
    lemma_run_stops_at_first_failure(register_actions(dll_path), outcomes);
}

/// A withdrawal whose three steps all succeed ends with the status that the
/// host gave to the last of them.
pub proof fn lemma_unregister_succeeds(outcomes: Seq<Outcome>)
    requires
        outcomes.len() == 3,
        forall|i: int| 0 <= i < 3 ==> !outcomes[i].failed(),
    ensures
        ({
            let end = RunView::start(unregister_actions()).after_all(outcomes);
            &&& end.pending() is None
            &&& !end.stopped
            &&& end.done == 3
            &&& end.status == outcomes[2].status()
        }),
{
    lemma_run_stops_at_first_failure(unregister_actions(), outcomes);
}

} // verus!
