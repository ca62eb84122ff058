//! The unrecoverable conditions of the binding.

use vstd::prelude::*;

verus! {

/// A violation of the host's interface contract.
///
/// Each variant marks a value the host may never hand a module: an object
/// type tag outside the published set, a render mode or key code outside its
/// range, or a vessel event whose handle does not resolve to a vessel
/// interface.  Any of them means the module and the host disagree on the
/// interface, a condition the caller cannot recover from: the adapter
/// answers them by aborting the process, never by guessing.
#[derive(Clone, Copy, PartialEq, Eq, Structural, Debug)]
pub enum FatalError {
    /// An object reported the host-internal "generic" type tag, which the
    /// host never exposes to modules.
    GenericObjectType,
    /// An object reported the host-internal "celestial body" type tag,
    /// which the host never exposes to modules.
    CelestialBodyObjectType,
    /// An object reported a type tag outside the published set; the
    /// offending tag is carried along.
    UnknownObjectType(i32),
    /// A handle that must refer to a vessel did not resolve to a vessel
    /// interface.
    VesselInterfaceExpected,
    /// The render mode of a simulation start was none of the three defined
    /// values; the offending value is carried along.
    UnknownRenderMode(i32),
    /// A buffered key code did not fit the key table.
    KeyOutOfRange(u32),
}

} // verus!
