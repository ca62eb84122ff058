//! Vessels: the one kind of object addressed by its own handle type.
//!
//! A generic object handle does not act as a vessel by itself; the host
//! resolves it to a vessel interface, and that resolution fails — returns
//! the null interface — when the entity is not a live vessel.  A
//! [`VesselQuery`] carries one such resolution as plain values, and
//! [`Vessel::from_obj`] decides what it yields.

use vstd::prelude::*;

use crate::object::ObjHandle;

verus! {

/// Opaque handle the host uses for a vessel interface.
///
/// Like a generic object handle it is never dereferenced here: an
/// address-sized identifier handed back to the host, with equality as its
/// only structural operation.  A zero address means the resolution failed.
#[derive(Clone, Copy, PartialEq, Eq, Structural, Debug)]
pub struct VesselHandle(usize);

impl VesselHandle {
    /// The raw address behind the handle.
    pub closed spec fn addr(self) -> int {
        self.0 as int
    }

    /// Whether this is the null interface, a failed resolution.
    pub open spec fn is_null_spec(self) -> bool {
        self.addr() == 0
    }

    /// Wraps a raw vessel interface received from the host.
    pub fn new(addr: usize) -> (h: VesselHandle)
        ensures
            h.addr() == addr,
    {
        VesselHandle(addr)
    }

    /// The null interface: a resolution that failed.
    pub fn null() -> (h: VesselHandle)
        ensures
            h.is_null_spec(),
    {
        VesselHandle(0)
    }

    /// The raw address, for handing the handle back to the host.
    pub fn raw(self) -> (addr: usize)
        ensures
            addr == self.addr(),
    {
        self.0
    }

    /// Tests for the null interface.
    pub fn is_null(self) -> (r: bool)
        ensures
            r == self.is_null_spec(),
    {
        self.0 == 0
    }

    /// Two handles are the same value exactly when their addresses agree.
    pub proof fn lemma_eq_is_addr_eq(h1: VesselHandle, h2: VesselHandle)
        ensures
            (h1 == h2) <==> (h1.addr() == h2.addr()),
    {
    }
}

/// The host's answer to one vessel-interface resolution: the generic
/// object handle that was resolved, and the vessel interface the host
/// returned for it (null where the entity is not a live vessel).
#[derive(Clone, Copy, PartialEq, Eq, Structural, Debug)]
pub struct VesselQuery {
    /// The generic object handle that was resolved.
    pub handle: ObjHandle,
    /// The vessel interface the host returned; null on failure.
    pub iface: VesselHandle,
}

/// Capability of a vessel: it is addressed by a vessel interface handle.
pub trait VesselTrait {
    /// The vessel interface this vessel wraps.
    spec fn vessel_handle_spec(&self) -> VesselHandle;

    /// Returns the vessel's interface handle, for host calls about it.
    fn vessel_handle(&self) -> (h: VesselHandle)
        ensures
            h == self.vessel_handle_spec(),
    ;
}

/// A vessel: a spacecraft, a space station, and the like.
///
/// It wraps the vessel interface its generic handle resolved to; the
/// generic handle itself is not stored and is recovered on demand through
/// a host lookup.
#[derive(Clone, Copy, PartialEq, Eq, Structural, Debug)]
pub struct Vessel {
    /// The vessel interface the host resolved for this vessel.
    pub handle: VesselHandle,
}

impl VesselTrait for Vessel {
    open spec fn vessel_handle_spec(&self) -> VesselHandle {
        self.handle
    }

    fn vessel_handle(&self) -> (h: VesselHandle) {
        self.handle
    }
}

/// What a vessel-interface resolution yields: nothing for a null object
/// handle, nothing where the host returned the null interface, and
/// otherwise the vessel wrapping the resolved interface.
pub open spec fn spec_from_obj(q: VesselQuery) -> Option<Vessel> {
    if q.handle.is_null_spec() {
        None
    } else if q.iface.is_null_spec() {
        None
    } else {
        Some(Vessel { handle: q.iface })
    }
}

impl Vessel {
    /// Builds a vessel from one vessel-interface resolution.
    ///
    /// Yields `None` for the null object handle and for a resolution the
    /// host answered with the null interface; otherwise the vessel
    /// wrapping the resolved interface.
    pub fn from_obj(q: VesselQuery) -> (r: Option<Vessel>)
        ensures
            r == spec_from_obj(q),
    {
        if q.handle.is_null() {
            return None;
        }
        if q.iface.is_null() {
            None
        } else {
            Some(Vessel { handle: q.iface })
        }
    }

    /// Builds the vessel currently receiving input from the host's
    /// focus-object query, resolved like any other object handle.
    ///
    /// The host answers the query with the null handle when no
    /// simulation session is in progress, so this yields a vessel if and
    /// only if a session is running and the focus resolved.
    pub fn focus_vessel(q: VesselQuery) -> (r: Option<Vessel>)
        ensures
            r == spec_from_obj(q),
    {
        Vessel::from_obj(q)
    }
}

} // verus!
