//! The verified core of an in-process audio processing plugin: the class
//! factory, the processing object with its roles and its states, the steps
//! that publish the plugin in the registry and with the host, the reading of
//! the host's list of plugins, and the rule for unloading the module.
//!
//! The library holds no global state and calls neither the registry nor the
//! host. The module's counters are a value that the caller keeps, and what
//! is to be done to the system comes out as steps for the caller to perform.
#![allow(non_snake_case)]

pub mod apo;
pub mod descriptor;
pub mod enumeration;
pub mod factory;
pub mod guid;
pub mod module;
pub mod registration;
pub mod registry;
pub mod status;
pub mod wide;

pub use apo::{ApoState, Role, RustApo};
pub use descriptor::PluginDescriptor;
pub use enumeration::{cb, Apos};
pub use factory::ClassFactory;
pub use guid::Guid;
pub use module::{DllCanUnloadNow, DllGetClassObject, DllMain, ModuleState};
pub use registration::{DllRegisterServer, DllUnregisterServer, Outcome, Registration, RegistryAction};
pub use status::HResult;
