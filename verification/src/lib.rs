//! Safe model of a simulator's plugin interface.
//!
//! The host simulator loads a plugin module, hands it opaque handles to the
//! objects of the running simulation, and drives it through a table of
//! callbacks.  This crate holds the verified decision layer of such a
//! binding: handle classification, vessel resolution, callback-event
//! decoding, and the byte-level encodings, all stated over plain values.
//! The foreign calls themselves live outside the library and feed their
//! results into these functions.

use vstd::prelude::*;

pub mod error;
pub mod module;
pub mod object;
pub mod vessel;

pub use error::FatalError;
pub use module::{
    Action, AdapterState, HostEvent, Key, KeyStates, ModuleEvent, MouseEvent, RenderMode,
};
pub use object::{ObjHandle, Object, ObjectQuery, ObjectTrait, Planet, Star, SurfaceBase};
pub use vessel::{Vessel, VesselHandle, VesselQuery, VesselTrait};

verus! {

/// The bytes of `s` in front of its first zero byte: the portion a
/// C-style consumer reads.  The whole of `s` where no byte is zero.
pub open spec fn nul_cut(s: Seq<u8>) -> Seq<u8>
    decreases s.len(),
{
    if s.len() == 0 {
        Seq::empty()
    } else if s[0] == 0 {
        Seq::empty()
    } else {
        seq![s[0]] + nul_cut(s.drop_first())
    }
}

/// What `nul_cut` keeps: a prefix of zero-free bytes, ended by the end of
/// the input or by its first zero byte.
pub proof fn lemma_nul_cut(s: Seq<u8>)
    ensures
        nul_cut(s).len() <= s.len(),
        forall|i: int| 0 <= i < nul_cut(s).len() ==> nul_cut(s)[i] == s[i] && s[i] != 0,
        nul_cut(s).len() < s.len() ==> s[nul_cut(s).len() as int] == 0,
    decreases s.len(),
{
    if s.len() == 0 {
    } else if s[0] == 0 {
    } else {
        let rest = s.drop_first();
        lemma_nul_cut(rest);
        assert forall|i: int| 0 <= i < nul_cut(s).len() implies nul_cut(s)[i] == s[i] && s[i]
            != 0 by {
            if i > 0 {
                assert(nul_cut(s)[i] == nul_cut(rest)[i - 1]);
                assert(rest[i - 1] == s[i]);
            }
        }
        if nul_cut(s).len() < s.len() {
            assert(s[nul_cut(s).len() as int] == rest[nul_cut(rest).len() as int]);
        }
    }
}

/// The maximum number of message bytes the host's debug channel accepts.
pub const DEBUG_STRING_MAX: usize = 255;

/// The exact bytes transmitted over the host's debug channel for a
/// message: the message up to its first zero byte, clipped to the
/// channel's maximum, with the terminating zero appended.
pub open spec fn spec_debug_payload(text: Seq<u8>) -> Seq<u8> {
    let cut = nul_cut(text);
    let kept = if cut.len() <= DEBUG_STRING_MAX {
        cut
    } else {
        cut.take(DEBUG_STRING_MAX as int)
    };
    kept.push(0)
}

/// Encodes a debug message for the host's fixed 256-byte buffer.
///
/// The message is cut at its first zero byte — the channel carries a
/// zero-terminated string, so an embedded zero cannot travel — and
/// clipped to the channel's 255-byte maximum; the terminating zero is
/// appended.  The payload therefore never exceeds the buffer, whatever
/// the input's length.
pub fn debug_string_bytes(text: &Vec<u8>) -> (payload: Vec<u8>)
    ensures
        payload@ == spec_debug_payload(text@),
        payload@.len() <= 256,
        payload@[payload@.len() - 1] == 0,
        forall|i: int| 0 <= i < payload@.len() - 1 ==> payload@[i] != 0,
{
    proof {
        lemma_nul_cut(text@);
    }
    let mut end: usize = 0;
    while end < text.len() && end < DEBUG_STRING_MAX && text[end] != 0
        invariant
            end <= text@.len(),
            end <= DEBUG_STRING_MAX,
            forall|j: int| 0 <= j < end ==> text@[j] != 0,
        decreases text@.len() - end,
    {
        end = end + 1;
    }
    proof {
        let cut = nul_cut(text@);
        if end < cut.len() && end < text@.len() {
            assert(text@[end as int] != 0);
        }
        if cut.len() < end {
            assert(text@[cut.len() as int] == 0);
        }
        assert(end == cut.len() || (end == DEBUG_STRING_MAX && end <= cut.len()));
    }
    let mut payload: Vec<u8> = Vec::new();
    let mut j: usize = 0;
    while j < end
        invariant
            j <= end,
            end <= text@.len(),
            payload@ =~= text@.subrange(0, j as int),
        decreases end - j,
    {
        payload.push(text[j]);
        j = j + 1;
    }
    proof {
        let cut = nul_cut(text@);
        let kept = if cut.len() <= DEBUG_STRING_MAX {
            cut
        } else {
            cut.take(DEBUG_STRING_MAX as int)
        };
        assert(payload@ =~= kept);
    }
    payload.push(0);
    proof {
        lemma_nul_cut(text@);
        assert(payload@ =~= spec_debug_payload(text@));
    }
    payload
}

/// Handle the host passes to the module's entry points: the identity of this
/// loaded module instance, carried as an opaque address.  It owns nothing and
/// is freely copied.
#[derive(Clone, Copy, PartialEq, Eq, Structural, Debug)]
pub struct InstanceHandle(usize);

impl InstanceHandle {
    /// The raw address behind the handle.
    pub closed spec fn addr(self) -> int {
        self.0 as int
    }

    /// Wraps the raw instance pointer the host supplied.
    pub fn from(ptr: usize) -> (h: InstanceHandle)
        ensures
            h.addr() == ptr,
    {
        InstanceHandle(ptr)
    }

    /// Hands the raw instance pointer back, for the registration call.
    pub fn into_raw(self) -> (ptr: usize)
        ensures
            ptr == self.addr(),
    {
        self.0
    }
}

} // verus!
