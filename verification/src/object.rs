//! The simulation's object model: a tagged union over the four kinds of
//! entity the host exposes, each wrapping the opaque handle the host knows
//! it by.
//!
//! The host answers three questions about an enumeration slot or a name
//! lookup: the object's handle, its integer type tag, and — for vessels —
//! the vessel interface the handle resolves to.  An [`ObjectQuery`] carries
//! those three answers as plain values, and [`Object::from_query`] is the
//! one place where they are classified.

use vstd::prelude::*;

use crate::error::FatalError;
use crate::vessel::{Vessel, VesselHandle, VesselQuery};

verus! {

/// Type tag of a slot that holds no object.
pub const OBJTP_INVALID: i32 = 0;
/// Host-internal "generic" type tag, never exposed to modules.
pub const OBJTP_GENERIC: i32 = 1;
/// Host-internal "celestial body" type tag, never exposed to modules.
pub const OBJTP_CBODY: i32 = 2;
/// Type tag of a star.
pub const OBJTP_STAR: i32 = 3;
/// Type tag of a planet, moon or comet.
pub const OBJTP_PLANET: i32 = 4;
/// Type tag of a vessel.
pub const OBJTP_VESSEL: i32 = 10;
/// Type tag of a surface base.
pub const OBJTP_SURFBASE: i32 = 20;

/// Opaque handle the host uses for a simulation object.
///
/// The binding never dereferences it; it is an address-sized identifier
/// that is only ever handed back to the host, and equality is its only
/// structural operation.  A zero address is the host's "no object".
#[derive(Clone, Copy, PartialEq, Eq, Structural, Debug)]
pub struct ObjHandle(usize);

impl ObjHandle {
    /// The raw address behind the handle.
    pub closed spec fn addr(self) -> int {
        self.0 as int
    }

    /// Whether this is the host's "no object" handle.
    pub open spec fn is_null_spec(self) -> bool {
        self.addr() == 0
    }

    /// Wraps a raw object handle received from the host.
    pub fn new(addr: usize) -> (h: ObjHandle)
        ensures
            h.addr() == addr,
    {
        ObjHandle(addr)
    }

    /// The null handle: the host's "no object".
    pub fn null() -> (h: ObjHandle)
        ensures
            h.is_null_spec(),
    {
        ObjHandle(0)
    }

    /// The raw address, for handing the handle back to the host.
    pub fn raw(self) -> (addr: usize)
        ensures
            addr == self.addr(),
    {
        self.0
    }

    /// Tests for the host's "no object" handle.
    pub fn is_null(self) -> (r: bool)
        ensures
            r == self.is_null_spec(),
    {
        self.0 == 0
    }

    /// Two handles are the same value exactly when their addresses agree.
    pub proof fn lemma_eq_is_addr_eq(h1: ObjHandle, h2: ObjHandle)
        ensures
            (h1 == h2) <==> (h1.addr() == h2.addr()),
    {
    }
}

/// The host's answers about one object: its handle, the type tag the host
/// reports for it, and the vessel interface the handle resolves to (null
/// unless the object is a live vessel).
#[derive(Clone, Copy, PartialEq, Eq, Structural, Debug)]
pub struct ObjectQuery {
    /// The object's handle; null where the slot or lookup found nothing.
    pub handle: ObjHandle,
    /// The type tag the host reports for the handle.
    pub type_tag: i32,
    /// The vessel interface the handle resolves to; null for non-vessels.
    pub vessel_iface: VesselHandle,
}

/// A star.
#[derive(Clone, Copy, PartialEq, Eq, Structural, Debug)]
pub struct Star {
    /// The handle the host knows this star by.
    pub handle: ObjHandle,
}

/// A planet.
///
/// Used for all celestial bodies that are not stars, including moons and
/// comets.
#[derive(Clone, Copy, PartialEq, Eq, Structural, Debug)]
pub struct Planet {
    /// The handle the host knows this planet by.
    pub handle: ObjHandle,
}

/// A surface base, i.e. a spaceport.
#[derive(Clone, Copy, PartialEq, Eq, Structural, Debug)]
pub struct SurfaceBase {
    /// The handle the host knows this base by.
    pub handle: ObjHandle,
}

/// Common capability of every non-vessel object: it is addressed by a
/// generic object handle.  (A vessel is addressed by its own handle type
/// and reaches its generic handle through a host lookup instead.)
pub trait ObjectTrait {
    /// The handle this object wraps.
    spec fn handle_spec(&self) -> ObjHandle;

    /// Returns the object's handle, for host queries about it.
    fn handle(&self) -> (h: ObjHandle)
        ensures
            h == self.handle_spec(),
    ;
}

impl ObjectTrait for Star {
    open spec fn handle_spec(&self) -> ObjHandle {
        self.handle
    }

    fn handle(&self) -> (h: ObjHandle) {
        self.handle
    }
}

impl ObjectTrait for Planet {
    open spec fn handle_spec(&self) -> ObjHandle {
        self.handle
    }

    fn handle(&self) -> (h: ObjHandle) {
        self.handle
    }
}

impl ObjectTrait for SurfaceBase {
    open spec fn handle_spec(&self) -> ObjHandle {
        self.handle
    }

    fn handle(&self) -> (h: ObjHandle) {
        self.handle
    }
}

/// One simulation object, discriminated by the type tag the host reported
/// for its handle.
#[derive(Clone, Copy, PartialEq, Eq, Structural, Debug)]
pub enum Object {
    /// A star.
    Star(Star),
    /// A planet, moon or comet.
    Planet(Planet),
    /// A vessel: a spacecraft, a space station, and the like.
    Vessel(Vessel),
    /// A surface base.
    SurfaceBase(SurfaceBase),
}

/// The type tag that belongs to an object's variant.
pub open spec fn obj_tag(o: Object) -> i32 {
    match o {
        Object::Star(_) => OBJTP_STAR,
        Object::Planet(_) => OBJTP_PLANET,
        Object::Vessel(_) => OBJTP_VESSEL,
        Object::SurfaceBase(_) => OBJTP_SURFBASE,
    }
}

/// Whether an object wraps exactly the handles of the query it was built
/// from: the generic handle for a star, planet or base, and the resolved
/// vessel interface for a vessel.
pub open spec fn wraps_query(o: Object, q: ObjectQuery) -> bool {
    match o {
        Object::Star(s) => s.handle == q.handle,
        Object::Planet(p) => p.handle == q.handle,
        Object::Vessel(v) => v.handle == q.vessel_iface,
        Object::SurfaceBase(b) => b.handle == q.handle,
    }
}

/// The lossy UTF-8 reading of a byte sequence: well-formed sequences as
/// themselves, ill-formed ones through the replacement character.
pub uninterp spec fn lossy_utf8(bytes: Seq<u8>) -> Seq<char>;

/// Relies on std's String::from_utf8_lossy: the decoding is a function of
/// the bytes alone, and of the empty input it is the empty string.
#[verifier::external_body]
fn lossy_decode(bytes: &Vec<u8>) -> (r: String)
    ensures
        r@ == lossy_utf8(bytes@),
        bytes@.len() == 0 ==> r@.len() == 0,
{
    String::from_utf8_lossy(bytes.as_slice()).into_owned()
}

/// What classification makes of the host's answers about one object.
///
/// A null handle or an empty slot yields no object; the four published
/// tags yield their variant (a vessel only where its interface resolved);
/// everything else is an interface violation.
pub open spec fn spec_from_query(q: ObjectQuery) -> Result<Option<Object>, FatalError> {
    if q.handle.is_null_spec() {
        Ok(None)
    } else if q.type_tag == OBJTP_INVALID {
        Ok(None)
    } else if q.type_tag == OBJTP_GENERIC {
        Err(FatalError::GenericObjectType)
    } else if q.type_tag == OBJTP_CBODY {
        Err(FatalError::CelestialBodyObjectType)
    } else if q.type_tag == OBJTP_STAR {
        Ok(Some(Object::Star(Star { handle: q.handle })))
    } else if q.type_tag == OBJTP_PLANET {
        Ok(Some(Object::Planet(Planet { handle: q.handle })))
    } else if q.type_tag == OBJTP_VESSEL {
        match crate::vessel::spec_from_obj(VesselQuery { handle: q.handle, iface: q.vessel_iface }) {
            Some(v) => Ok(Some(Object::Vessel(v))),
            None => Err(FatalError::VesselInterfaceExpected),
        }
    } else if q.type_tag == OBJTP_SURFBASE {
        Ok(Some(Object::SurfaceBase(SurfaceBase { handle: q.handle })))
    } else {
        Err(FatalError::UnknownObjectType(q.type_tag))
    }
}

/// What classifying a whole enumeration snapshot yields, slot by slot in
/// index order: empty slots are left out, every built object is kept, and
/// the first interface violation wins.
pub open spec fn spec_all_objects(s: Seq<ObjectQuery>) -> Result<Seq<Object>, FatalError>
    decreases s.len(),
{
    if s.len() == 0 {
        Ok(Seq::empty())
    } else {
        match spec_from_query(s[0]) {
            Err(e) => Err(e),
            Ok(head) => match spec_all_objects(s.drop_first()) {
                Err(e) => Err(e),
                Ok(rest) => match head {
                    Some(o) => Ok(seq![o] + rest),
                    None => Ok(rest),
                },
            },
        }
    }
}

impl Object {
    /// Classifies the host's answers about one object.
    ///
    /// A null handle, or a slot whose tag says "no object", yields
    /// `Ok(None)`.  The four published tags yield the matching variant;
    /// for a vessel tag the resolved vessel interface is taken, and its
    /// failure to resolve is an interface violation.  The two
    /// host-internal tags and any unrecognized tag are interface
    /// violations as well, reported for the caller to abort on.
    pub fn from_query(q: ObjectQuery) -> (r: Result<Option<Object>, FatalError>)
        ensures
            r == spec_from_query(q),
    {
        if q.handle.is_null() {
            return Ok(None);
        }
        if q.type_tag == OBJTP_INVALID {
            Ok(None)
        } else if q.type_tag == OBJTP_GENERIC {
            Err(FatalError::GenericObjectType)
        } else if q.type_tag == OBJTP_CBODY {
            Err(FatalError::CelestialBodyObjectType)
        } else if q.type_tag == OBJTP_STAR {
            Ok(Some(Object::Star(Star { handle: q.handle })))
        } else if q.type_tag == OBJTP_PLANET {
            Ok(Some(Object::Planet(Planet { handle: q.handle })))
        } else if q.type_tag == OBJTP_VESSEL {
            match Vessel::from_obj(VesselQuery { handle: q.handle, iface: q.vessel_iface }) {
                Some(v) => Ok(Some(Object::Vessel(v))),
                None => Err(FatalError::VesselInterfaceExpected),
            }
        } else if q.type_tag == OBJTP_SURFBASE {
            Ok(Some(Object::SurfaceBase(SurfaceBase { handle: q.handle })))
        } else {
            Err(FatalError::UnknownObjectType(q.type_tag))
        }
    }

    /// Builds the objects of an enumeration snapshot.
    ///
    /// The snapshot is the host's answers for every enumeration slot, in
    /// index order, read once at the time of the call: the slot count,
    /// each slot's handle and tag, and the vessel interface where the tag
    /// asked for one.  Slots that hold no object are left out of the
    /// result — not yielded as empty entries — and the remaining objects
    /// keep the snapshot's index order.  The first slot that violates the
    /// interface contract fails the whole enumeration.
    pub fn all_objects(snapshot: &Vec<ObjectQuery>) -> (r: Result<Vec<Object>, FatalError>)
        ensures
            r matches Ok(objs) ==> spec_all_objects(snapshot@) == Ok::<Seq<Object>, FatalError>(
                objs@,
            ),
            r matches Err(e) ==> spec_all_objects(snapshot@) == Err::<Seq<Object>, FatalError>(e),
    {
        let mut objs: Vec<Object> = Vec::new();
        let mut i: usize = 0;
        proof {
            assert(snapshot@.skip(0) =~= snapshot@);
            if let Ok(rest) = spec_all_objects(snapshot@) {
                assert(Seq::<Object>::empty() + rest =~= rest);
            }
        }
        while i < snapshot.len()
            invariant
                i <= snapshot@.len(),
                spec_all_objects(snapshot@) == (match spec_all_objects(
                    snapshot@.skip(i as int),
                ) {
                    Ok(rest) => Ok::<Seq<Object>, FatalError>(objs@ + rest),
                    Err(e) => Err::<Seq<Object>, FatalError>(e),
                }),
            decreases snapshot@.len() - i,
        {
            proof {
                assert(snapshot@.skip(i as int)[0] == snapshot@[i as int]);
                assert(snapshot@.skip(i as int).drop_first() =~= snapshot@.skip(i + 1));
            }
            match Object::from_query(snapshot[i]) {
                Err(e) => {
                    return Err(e);
                },
                Ok(Some(o)) => {
                    let ghost previous = objs@;
                    objs.push(o);
                    proof {
                        if let Ok(rest) = spec_all_objects(snapshot@.skip(i + 1)) {
                            assert(objs@ + rest =~= previous + (seq![o] + rest));
                        }
                    }
                },
                Ok(None) => {},
            }
            i = i + 1;
        }
        proof {
            assert(snapshot@.skip(i as int) =~= Seq::<ObjectQuery>::empty());
            assert(objs@ + Seq::<Object>::empty() =~= objs@);
        }
        Ok(objs)
    }

    /// Classifies the host's answer to a name lookup.
    ///
    /// The host answers a name with the handle of the matching object, or
    /// the null handle where no object carries the name; this is that
    /// answer classified exactly as [`Object::from_query`] classifies an
    /// enumeration slot.  A name with no match therefore yields
    /// `Ok(None)`, never a fault.
    pub fn find_by_name(lookup: ObjectQuery) -> (r: Result<Option<Object>, FatalError>)
        ensures
            r == spec_from_query(lookup),
            lookup.handle.is_null_spec() ==> r == Ok::<Option<Object>, FatalError>(None),
    {
        Object::from_query(lookup)
    }

    /// Decodes the name the host filled into a lookup buffer for this
    /// object.
    ///
    /// The host writes the name — at most 255 bytes — zero-terminated
    /// into a 256-byte buffer it was handed; the name is the bytes in
    /// front of the buffer's first zero, decoded lossily as UTF-8.
    pub fn name(&self, raw: &Vec<u8>) -> (r: String)
        ensures
            r@ == lossy_utf8(crate::nul_cut(raw@)),
    {
        proof {
            crate::lemma_nul_cut(raw@);
        }
        let mut end: usize = 0;
        while end < raw.len() && raw[end] != 0
            invariant
                end <= raw@.len(),
                forall|j: int| 0 <= j < end ==> raw@[j] != 0,
            decreases raw@.len() - end,
        {
            end = end + 1;
        }
        proof {
            let cut = crate::nul_cut(raw@);
            if end < cut.len() {
                assert(raw@[end as int] != 0);
            }
            if cut.len() < end {
                assert(raw@[cut.len() as int] == 0);
            }
            assert(end == cut.len());
        }
        let mut prefix: Vec<u8> = Vec::new();
        let mut j: usize = 0;
        while j < end
            invariant
                j <= end,
                end <= raw@.len(),
                prefix@ =~= raw@.subrange(0, j as int),
            decreases end - j,
        {
            prefix.push(raw[j]);
            j = j + 1;
        }
        proof {
            assert(prefix@ =~= crate::nul_cut(raw@));
        }
        lossy_decode(&prefix)
    }

    /// The label of the object's variant, as the debug formatting prints
    /// it in front of the object's name.
    pub fn variant_label(&self) -> (r: &'static str)
        ensures
            self is Star ==> r@ == "Star"@,
            self is Planet ==> r@ == "Planet"@,
            self is Vessel ==> r@ == "Vessel"@,
            self is SurfaceBase ==> r@ == "SurfaceBase"@,
    {
        match self {
            Object::Star(_) => "Star",
            Object::Planet(_) => "Planet",
            Object::Vessel(_) => "Vessel",
            Object::SurfaceBase(_) => "SurfaceBase",
        }
    }
}

/// Whether slot `j` of snapshot `s` is one the classification builds `o`
/// from — and whether `o` then carries the slot's own type tag.
pub open spec fn built_from_slot(s: Seq<ObjectQuery>, j: int, o: Object) -> bool {
    &&& 0 <= j < s.len()
    &&& spec_from_query(s[j]) == Ok::<Option<Object>, FatalError>(Some(o))
    &&& obj_tag(o) == s[j].type_tag
}

/// The snapshot slot that the enumeration's output at position `k` was
/// built from: empty slots in front of it are stepped over, every
/// building slot advances the output position by one.
pub open spec fn source_slot(s: Seq<ObjectQuery>, k: int) -> int
    decreases s.len(),
{
    if s.len() == 0 {
        0
    } else {
        match spec_from_query(s[0]) {
            Err(_) => 0,
            Ok(Some(_)) => if k == 0 {
                0
            } else {
                1 + source_slot(s.drop_first(), k - 1)
            },
            Ok(None) => 1 + source_slot(s.drop_first(), k),
        }
    }
}

/// Every object an enumeration yields was built from a slot of the
/// snapshot — the one `source_slot` points at — and its variant matches
/// the type tag the host reported for that slot.
pub proof fn lemma_all_objects_sound(s: Seq<ObjectQuery>, objs: Seq<Object>)
    requires
        spec_all_objects(s) == Ok::<Seq<Object>, FatalError>(objs),
    ensures
        forall|k: int| #![trigger objs[k]]
            0 <= k < objs.len() ==> built_from_slot(s, source_slot(s, k), objs[k]),
    decreases s.len(),
{
    if s.len() == 0 {
    } else {
        match (spec_from_query(s[0]), spec_all_objects(s.drop_first())) {
            (Ok(head), Ok(rest)) => {
                lemma_all_objects_sound(s.drop_first(), rest);
                assert forall|k: int| #![trigger objs[k]] 0 <= k < objs.len() implies
                    built_from_slot(s, source_slot(s, k), objs[k]) by {
                    if head matches Some(o) && k == 0 {
                        lemma_reconstruction_matches_tag(s[0]);
                        assert(built_from_slot(s, 0, objs[0]));
                    } else {
                        let shift: int = if head is Some {
                            1
                        } else {
                            0
                        };
                        assert(objs[k] == rest[k - shift]);
                        let j2 = source_slot(s.drop_first(), k - shift);
                        assert(built_from_slot(s.drop_first(), j2, rest[k - shift]));
                        assert(s.drop_first()[j2] == s[j2 + 1]);
                        assert(source_slot(s, k) == 1 + j2);
                        assert(built_from_slot(s, j2 + 1, objs[k]));
                    }
                }
            },
            _ => {
                assert(false);
            },
        }
    }
}

/// Reconstruction is faithful to the host's type query: a null handle
/// never builds an object, and an object built from a query carries the
/// query's tag and wraps the query's handle.
pub proof fn lemma_reconstruction_matches_tag(q: ObjectQuery)
    ensures
        q.handle.is_null_spec() ==> spec_from_query(q) == Ok::<Option<Object>, FatalError>(None),
        spec_from_query(q) matches Ok(Some(o)) ==> obj_tag(o) == q.type_tag && wraps_query(o, q),
{
}

/// A lookup that found nothing yields no object, never a fault: the host
/// answers a name with no match by the null handle, and classifying a
/// null handle is `Ok(None)` whatever the other answers hold.
pub proof fn lemma_null_query_yields_none(q: ObjectQuery)
    ensures
        q.handle.is_null_spec() ==> spec_from_query(q) == Ok::<Option<Object>, FatalError>(None),
{
}

} // verus!
