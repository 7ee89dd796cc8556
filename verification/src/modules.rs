//! The check-module capability: the pluggable logic behind a property.
//!
//! A module names its protocol kind, may reject parameters, and builds an
//! instance that poses one challenge and judges the field mapping of the
//! response.  Implementations are bound by name through a registry; the
//! engine is agnostic to how either is implemented, so these methods carry
//! no contracts and the engine states what holds whatever they return.

use vstd::prelude::*;

use crate::adapter::{ChallengeValue, Fields};
use crate::checks::Kwargs;

verus! {

/// The closed set of protocol kinds a module can pick.
#[derive(Clone, Copy, PartialEq, Eq, Structural, Debug)]
pub enum ProtocolKind {
    ConnectTcp,
    RawTcp,
    TextTcp,
    TextUdp,
    HttpTcp,
    HttpsTcp,
}

/// One instantiated module, bound to the parameters it was built with.
pub trait ModuleInstance {
    /// The challenge value to send, if the module poses one.
    fn challenge(&self) -> Option<ChallengeValue>;

    /// The module's verdict on the fields of a response.
    fn check_response(&self, fields: &Fields) -> bool;
}

/// One check module.
pub trait Module {
    type Instance: ModuleInstance;

    /// The protocol kind this module probes over.
    fn protocol(&self) -> ProtocolKind;

    /// The module's opinion of the parameters; the engine notes it but
    /// does not enforce it.
    fn check_args(&self, params: &Kwargs) -> bool;

    /// Builds an instance for one property's parameters.
    fn instantiate(&self, params: &Kwargs) -> Self::Instance;
}

/// Resolves module names to modules.
pub trait ModuleRegistry {
    type M: Module;

    fn resolve<'a>(&'a self, name: &str) -> Option<&'a Self::M>;
}

} // verus!
