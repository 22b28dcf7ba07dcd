use rust_apo::guid::{
    IID_IAUDIOPROCESSINGOBJECT, IID_IAUDIOPROCESSINGOBJECTCONFIGURATION,
    IID_IAUDIOPROCESSINGOBJECTRT, IID_IAUDIOSYSTEMEFFECTS, IID_IRUSTAPO, IID_IUNKNOWN,
};
use rust_apo::status::{
    CLASS_E_CLASSNOTAVAILABLE, E_ILLEGAL_METHOD_CALL, E_NOINTERFACE, E_NOTIMPL, E_OUTOFMEMORY,
    S_FALSE, S_OK,
};
use rust_apo::{
    ApoState, ClassFactory, DllGetClassObject, Guid, HResult, ModuleState, Role, RustApo,
};
use windows::Win32::Media::Audio::Apo::{
    IAudioProcessingObject, IAudioProcessingObjectConfiguration, IAudioProcessingObjectRT,
    IAudioSystemEffects,
};

const IID_ICLASSFACTORY: u128 = 0x00000001_0000_0000_C000_000000000046;

fn iid<T: windows::core::ComInterface>() -> u128 {
    T::IID.to_u128()
}

#[test]
fn check_interface() {
    let mut module = ModuleState::new();
    let factory = DllGetClassObject(&Guid(IID_IRUSTAPO), &Guid(IID_ICLASSFACTORY)).unwrap();
    let (mut apo, _) = factory
        .CreateInstance(&mut module, false, Some(Guid(IID_IUNKNOWN)))
        .unwrap();

    let res = apo.QueryInterface(&Guid(IID_IRUSTAPO));
    println!("{res:?}");
    if let Ok(_r) = res {
        let mut o: u32 = 0;
        let _ = apo.MyFunction(&mut o);
        println!("my val: {o}");
        assert_eq!(o, 5);
    }
    assert_eq!(res, Ok(Role::Diagnostic));
}

#[test]
fn identifiers_are_those_of_the_host_interfaces() {
    assert_eq!(IID_IUNKNOWN, iid::<windows::core::IUnknown>());
    assert_eq!(IID_IAUDIOPROCESSINGOBJECT, iid::<IAudioProcessingObject>());
    assert_eq!(IID_IAUDIOSYSTEMEFFECTS, iid::<IAudioSystemEffects>());
    assert_eq!(
        IID_IAUDIOPROCESSINGOBJECTCONFIGURATION,
        iid::<IAudioProcessingObjectConfiguration>()
    );
    assert_eq!(IID_IAUDIOPROCESSINGOBJECTRT, iid::<IAudioProcessingObjectRT>());
    assert_eq!(IID_ICLASSFACTORY, iid::<windows::Win32::System::Com::IClassFactory>());
}

#[test]
fn status_codes_are_those_of_the_host() {
    assert_eq!(S_OK, windows::Win32::Foundation::S_OK.0);
    assert_eq!(S_FALSE, windows::Win32::Foundation::S_FALSE.0);
    assert_eq!(E_NOINTERFACE, windows::Win32::Foundation::E_NOINTERFACE.0);
    assert_eq!(E_NOTIMPL, windows::Win32::Foundation::E_NOTIMPL.0);
    assert_eq!(E_OUTOFMEMORY, windows::Win32::Foundation::E_OUTOFMEMORY.0);
    assert_eq!(
        E_ILLEGAL_METHOD_CALL,
        windows::Win32::Foundation::E_ILLEGAL_METHOD_CALL.0
    );
    assert_eq!(
        CLASS_E_CLASSNOTAVAILABLE,
        windows::Win32::Foundation::CLASS_E_CLASSNOTAVAILABLE.0
    );
    assert_eq!(E_NOINTERFACE as u32, 0x80004002);
    assert_eq!(CLASS_E_CLASSNOTAVAILABLE as u32, 0x80040111);
}

#[test]
fn status_failure_is_the_sign() {
    assert!(HResult(E_NOINTERFACE).is_err());
    assert!(!HResult(E_NOINTERFACE).is_ok());
    assert!(HResult(S_OK).is_ok());
    assert!(HResult(S_FALSE).is_ok());
    assert!(!HResult(S_FALSE).is_err());
    assert!(HResult(i32::MIN).is_err());
    assert!(HResult(-1).is_err());
    assert!(HResult(i32::MAX).is_ok());
}

#[test]
fn new_object_has_one_reference_and_is_not_locked() {
    let apo = RustApo::new(&mut ModuleState::new()).unwrap();
    assert_eq!(apo.references(), 1);
    assert_eq!(apo.state(), ApoState::Constructed);
    let mut out: u32 = 0;
    assert_eq!(apo.MyFunction(&mut out), HResult(S_OK));
    assert_eq!(out, 5);
}

#[test]
fn class_factory_new_makes_a_factory() {
    let factory = ClassFactory::new();
    let mut module = ModuleState::new();
    assert!(factory
        .CreateInstance(&mut module, false, Some(Guid(IID_IUNKNOWN)))
        .is_ok());
}

#[test]
fn every_role_is_found_by_its_identifier() {
    let cases = [
        (IID_IUNKNOWN, Role::Identity),
        (IID_IRUSTAPO, Role::Diagnostic),
        (IID_IAUDIOPROCESSINGOBJECT, Role::ProcessingObject),
        (IID_IAUDIOSYSTEMEFFECTS, Role::SystemEffects),
        (IID_IAUDIOPROCESSINGOBJECTCONFIGURATION, Role::Configuration),
        (IID_IAUDIOPROCESSINGOBJECTRT, Role::RealTime),
    ];
    for (iid, role) in cases {
        assert_eq!(RustApo::role_for(&Guid(iid)), Some(role));
        let mut apo = RustApo::new(&mut ModuleState::new()).unwrap();
        assert_eq!(apo.QueryInterface(&Guid(iid)), Ok(role));
        assert_eq!(apo.references(), 2);
    }
}

#[test]
fn unknown_identifier_is_no_interface() {
    let mut apo = RustApo::new(&mut ModuleState::new()).unwrap();
    for iid in [0u128, 1, IID_ICLASSFACTORY, IID_IRUSTAPO + 1, u128::MAX] {
        assert_eq!(RustApo::role_for(&Guid(iid)), None);
        assert_eq!(apo.QueryInterface(&Guid(iid)), Err(HResult(E_NOINTERFACE)));
        assert_eq!(apo.references(), 1);
    }
}

#[test]
fn create_instance_rejects_invalid_identifiers_and_counts_nothing() {
    let factory = ClassFactory::new();
    let mut module = ModuleState::new();
    module.instances = 3;

    let none = factory.CreateInstance(&mut module, false, None);
    assert_eq!(none.err(), Some(HResult(E_NOINTERFACE)));
    assert_eq!(module.instances, 3);

    for iid in [0u128, IID_ICLASSFACTORY, u128::MAX] {
        let made = factory.CreateInstance(&mut module, false, Some(Guid(iid)));
        assert_eq!(made.err(), Some(HResult(E_NOINTERFACE)));
        assert_eq!(module.instances, 3);
    }

    for iid in [
        IID_IRUSTAPO,
        IID_IAUDIOPROCESSINGOBJECT,
        IID_IAUDIOSYSTEMEFFECTS,
        IID_IAUDIOPROCESSINGOBJECTCONFIGURATION,
        IID_IAUDIOPROCESSINGOBJECTRT,
        0,
    ] {
        let made = factory.CreateInstance(&mut module, true, Some(Guid(iid)));
        assert_eq!(made.err(), Some(HResult(E_NOINTERFACE)));
        assert_eq!(module.instances, 3);
    }
    let outer_none = factory.CreateInstance(&mut module, true, None);
    assert_eq!(outer_none.err(), Some(HResult(E_NOINTERFACE)));
    assert_eq!(module.instances, 3);
    assert_eq!(module.locks, 0);
    assert_eq!(module.handle, None);
}

#[test]
fn create_instance_hands_out_the_requested_role() {
    let factory = ClassFactory::new();
    let mut module = ModuleState::new();
    let cases = [
        (IID_IUNKNOWN, Role::Identity),
        (IID_IRUSTAPO, Role::Diagnostic),
        (IID_IAUDIOPROCESSINGOBJECT, Role::ProcessingObject),
        (IID_IAUDIOSYSTEMEFFECTS, Role::SystemEffects),
        (IID_IAUDIOPROCESSINGOBJECTCONFIGURATION, Role::Configuration),
        (IID_IAUDIOPROCESSINGOBJECTRT, Role::RealTime),
    ];
    let mut expected: u32 = 0;
    for (iid, role) in cases {
        let (apo, given) = factory
            .CreateInstance(&mut module, false, Some(Guid(iid)))
            .unwrap();
        expected += 1;
        assert_eq!(given, role);
        assert_eq!(apo.references(), 1);
        assert_eq!(apo.state(), ApoState::Constructed);
        assert_eq!(module.instances, expected);
    }
    let (apo, given) = factory
        .CreateInstance(&mut module, true, Some(Guid(IID_IUNKNOWN)))
        .unwrap();
    assert_eq!(given, Role::Identity);
    assert_eq!(apo.references(), 1);
    assert_eq!(module.instances, 7);
}

#[test]
fn create_instance_at_the_limit_is_out_of_memory() {
    let factory = ClassFactory::new();
    let mut module = ModuleState::new();
    module.instances = u32::MAX;
    let made = factory.CreateInstance(&mut module, false, Some(Guid(IID_IUNKNOWN)));
    assert_eq!(made.err(), Some(HResult(E_OUTOFMEMORY)));
    assert_eq!(module.instances, u32::MAX);
    let bad = factory.CreateInstance(&mut module, false, Some(Guid(0)));
    assert_eq!(bad.err(), Some(HResult(E_NOINTERFACE)));
    module.instances = u32::MAX - 1;
    assert!(factory
        .CreateInstance(&mut module, false, Some(Guid(IID_IUNKNOWN)))
        .is_ok());
    assert_eq!(module.instances, u32::MAX);
}

#[test]
fn real_time_entry_is_rejected_before_lock() {
    let mut apo = RustApo::new(&mut ModuleState::new()).unwrap();
    assert_eq!(apo.APOProcess(1, 1), Err(HResult(E_ILLEGAL_METHOD_CALL)));
    assert_eq!(apo.state(), ApoState::Constructed);
    assert_eq!(apo.LockForProcess(1, 1), Ok(()));
    assert_eq!(apo.state(), ApoState::Configured);
    assert_eq!(apo.APOProcess(1, 1), Ok(()));
    assert_eq!(apo.state(), ApoState::Processing);
    assert_eq!(apo.APOProcess(1, 1), Ok(()));
    assert_eq!(apo.state(), ApoState::Processing);
    assert_eq!(apo.UnlockForProcess(), Ok(()));
    assert_eq!(apo.state(), ApoState::Unconfigured);
    assert_eq!(apo.APOProcess(1, 1), Err(HResult(E_ILLEGAL_METHOD_CALL)));
    assert_eq!(apo.state(), ApoState::Unconfigured);
}

#[test]
fn unlock_without_lock_is_rejected_and_changes_nothing() {
    let mut apo = RustApo::new(&mut ModuleState::new()).unwrap();
    assert_eq!(apo.UnlockForProcess(), Err(HResult(E_ILLEGAL_METHOD_CALL)));
    assert_eq!(apo.state(), ApoState::Constructed);
    assert_eq!(apo.references(), 1);
    assert_eq!(apo.LockForProcess(0, 0), Ok(()));
    assert_eq!(apo.UnlockForProcess(), Ok(()));
    assert_eq!(apo.UnlockForProcess(), Err(HResult(E_ILLEGAL_METHOD_CALL)));
    assert_eq!(apo.state(), ApoState::Unconfigured);
}

#[test]
fn second_lock_without_unlock_is_rejected() {
    let mut apo = RustApo::new(&mut ModuleState::new()).unwrap();
    assert_eq!(apo.LockForProcess(1, 1), Ok(()));
    assert_eq!(apo.LockForProcess(1, 1), Err(HResult(E_ILLEGAL_METHOD_CALL)));
    assert_eq!(apo.state(), ApoState::Configured);
    assert_eq!(apo.APOProcess(1, 1), Ok(()));
    assert_eq!(apo.LockForProcess(1, 1), Err(HResult(E_ILLEGAL_METHOD_CALL)));
    assert_eq!(apo.state(), ApoState::Processing);
    assert_eq!(apo.UnlockForProcess(), Ok(()));
    assert_eq!(apo.LockForProcess(1, 1), Ok(()));
    assert_eq!(apo.state(), ApoState::Configured);
}

#[test]
fn control_operations_succeed() {
    let apo = RustApo::new(&mut ModuleState::new()).unwrap();
    assert_eq!(apo.Reset(), Ok(()));
    assert_eq!(apo.GetLatency(), Ok(0));
    assert_eq!(apo.Initialize(0, &[]), Ok(()));
    assert_eq!(apo.Initialize(3, &[1, 2, 3]), Ok(()));
    assert_eq!(apo.CalcInputFrames(480), 480);
    assert_eq!(apo.CalcOutputFrames(0), 0);
    assert_eq!(apo.CalcOutputFrames(u32::MAX), u32::MAX);
}

#[test]
fn format_negotiation_is_rejected() {
    let apo = RustApo::new(&mut ModuleState::new()).unwrap();
    assert_eq!(apo.IsInputFormatSupported(), Err(HResult(E_NOTIMPL)));
    assert_eq!(apo.IsOutputFormatSupported(), Err(HResult(E_NOTIMPL)));
    assert_eq!(apo.GetInputChannelCount(), Err(HResult(E_NOTIMPL)));
}

#[test]
fn released_object_rejects_calls() {
    let mut module = ModuleState::new();
    let factory = ClassFactory::new();
    let (mut apo, _) = factory
        .CreateInstance(&mut module, false, Some(Guid(IID_IUNKNOWN)))
        .unwrap();
    assert_eq!(apo.Release(&mut module), 0);
    assert_eq!(apo.state(), ApoState::Released);
    assert_eq!(
        apo.QueryInterface(&Guid(IID_IUNKNOWN)),
        Err(HResult(E_ILLEGAL_METHOD_CALL))
    );
    assert_eq!(apo.AddRef(), 0);
    assert_eq!(apo.LockForProcess(1, 1), Err(HResult(E_ILLEGAL_METHOD_CALL)));
    assert_eq!(apo.UnlockForProcess(), Err(HResult(E_ILLEGAL_METHOD_CALL)));
    assert_eq!(apo.APOProcess(1, 1), Err(HResult(E_ILLEGAL_METHOD_CALL)));
    assert_eq!(apo.state(), ApoState::Released);
    assert_eq!(apo.references(), 0);
}

#[test]
fn two_instances_give_the_same_descriptor() {
    let first = RustApo::new(&mut ModuleState::new()).unwrap();
    let mut second = RustApo::new(&mut ModuleState::new()).unwrap();
    second.LockForProcess(1, 1).unwrap();
    let a = first.GetRegistrationProperties().unwrap();
    let b = second.GetRegistrationProperties().unwrap();
    assert_eq!(a.clsid, b.clsid);
    assert_eq!(a.flags, b.flags);
    assert_eq!(a.interfaces, b.interfaces);
    assert_eq!(a.num_interfaces, b.num_interfaces);
    assert_eq!(a.friendly_name, b.friendly_name);
    assert_eq!(a.copyright_info, b.copyright_info);
    assert_eq!(a.clsid, Guid(IID_IRUSTAPO));
    assert_eq!(a.flags, 15);
    assert_eq!(a.interfaces, vec![Guid(IID_IAUDIOPROCESSINGOBJECT)]);
}
