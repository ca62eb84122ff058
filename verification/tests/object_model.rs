use orbiter::error::FatalError;
use orbiter::object::{ObjHandle, Object, ObjectQuery, ObjectTrait, Star};
use orbiter::vessel::{Vessel, VesselHandle, VesselQuery, VesselTrait};

fn query(handle: usize, tag: i32, iface: usize) -> ObjectQuery {
    ObjectQuery {
        handle: ObjHandle::new(handle),
        type_tag: tag,
        vessel_iface: VesselHandle::new(iface),
    }
}

#[test]
fn null_handle_yields_none() {
    assert_eq!(Object::from_query(query(0, 3, 0)), Ok(None));
    assert_eq!(Object::from_query(query(0, 99, 0)), Ok(None));
}

#[test]
fn no_object_tag_yields_none() {
    assert_eq!(Object::from_query(query(0x1000, 0, 0)), Ok(None));
}

#[test]
fn star_tag_builds_star() {
    let r = Object::from_query(query(0x1000, 3, 0));
    assert_eq!(
        r,
        Ok(Some(Object::Star(Star {
            handle: ObjHandle::new(0x1000)
        })))
    );
}

#[test]
fn planet_tag_builds_planet() {
    let r = Object::from_query(query(0x2000, 4, 0));
    match r {
        Ok(Some(Object::Planet(p))) => assert_eq!(p.handle().raw(), 0x2000),
        other => panic!("unexpected classification: {:?}", other),
    }
}

#[test]
fn base_tag_builds_surface_base() {
    let r = Object::from_query(query(0x3000, 20, 0));
    match r {
        Ok(Some(Object::SurfaceBase(b))) => assert_eq!(b.handle().raw(), 0x3000),
        other => panic!("unexpected classification: {:?}", other),
    }
}

#[test]
fn vessel_tag_builds_vessel_from_interface() {
    let r = Object::from_query(query(0x4000, 10, 0x4400));
    match r {
        Ok(Some(Object::Vessel(v))) => assert_eq!(v.vessel_handle().raw(), 0x4400),
        other => panic!("unexpected classification: {:?}", other),
    }
}

#[test]
fn vessel_tag_without_interface_is_fatal() {
    let r = Object::from_query(query(0x4000, 10, 0));
    assert_eq!(r, Err(FatalError::VesselInterfaceExpected));
}

#[test]
fn internal_tags_are_fatal() {
    assert_eq!(
        Object::from_query(query(0x5000, 1, 0)),
        Err(FatalError::GenericObjectType)
    );
    assert_eq!(
        Object::from_query(query(0x5000, 2, 0)),
        Err(FatalError::CelestialBodyObjectType)
    );
}

#[test]
fn unknown_tag_is_fatal_and_reported() {
    assert_eq!(
        Object::from_query(query(0x5000, 7, 0)),
        Err(FatalError::UnknownObjectType(7))
    );
    assert_eq!(
        Object::from_query(query(0x5000, -3, 0)),
        Err(FatalError::UnknownObjectType(-3))
    );
}

#[test]
fn enumeration_of_three_slots_keeps_index_order() {
    let snapshot = vec![query(0x10, 3, 0), query(0x20, 10, 0x22), query(0x30, 20, 0)];
    let objs = Object::all_objects(&snapshot).unwrap();
    assert_eq!(objs.len(), 3);
    assert!(matches!(objs[0], Object::Star(_)));
    assert!(matches!(objs[1], Object::Vessel(_)));
    assert!(matches!(objs[2], Object::SurfaceBase(_)));
}

#[test]
fn enumeration_omits_empty_slots() {
    let snapshot = vec![query(0x10, 3, 0), query(0x20, 0, 0), query(0x30, 20, 0)];
    let objs = Object::all_objects(&snapshot).unwrap();
    assert_eq!(objs.len(), 2);
    assert!(matches!(objs[0], Object::Star(_)));
    assert!(matches!(objs[1], Object::SurfaceBase(_)));
}

#[test]
fn enumeration_omits_null_handles() {
    let snapshot = vec![query(0, 3, 0), query(0x30, 4, 0)];
    let objs = Object::all_objects(&snapshot).unwrap();
    assert_eq!(objs.len(), 1);
    assert!(matches!(objs[0], Object::Planet(_)));
}

#[test]
fn enumeration_fails_on_first_violation() {
    let snapshot = vec![query(0x10, 3, 0), query(0x20, 9, 0), query(0x30, 1, 0)];
    assert_eq!(
        Object::all_objects(&snapshot),
        Err(FatalError::UnknownObjectType(9))
    );
}

#[test]
fn empty_enumeration_yields_nothing() {
    let objs = Object::all_objects(&Vec::new()).unwrap();
    assert!(objs.is_empty());
}

#[test]
fn find_by_name_matches_classification() {
    let q = query(0x600, 4, 0);
    assert_eq!(Object::find_by_name(q), Object::from_query(q));
}

#[test]
fn find_by_name_miss_is_none_not_a_fault() {
    assert_eq!(Object::find_by_name(query(0, 0, 0)), Ok(None));
}

#[test]
fn variant_labels() {
    let star = Object::from_query(query(1, 3, 0)).unwrap().unwrap();
    let planet = Object::from_query(query(2, 4, 0)).unwrap().unwrap();
    let vessel = Object::from_query(query(3, 10, 4)).unwrap().unwrap();
    let base = Object::from_query(query(5, 20, 0)).unwrap().unwrap();
    assert_eq!(star.variant_label(), "Star");
    assert_eq!(planet.variant_label(), "Planet");
    assert_eq!(vessel.variant_label(), "Vessel");
    assert_eq!(base.variant_label(), "SurfaceBase");
}

#[test]
fn name_reads_up_to_first_zero() {
    let obj = Object::from_query(query(1, 3, 0)).unwrap().unwrap();
    let mut buffer = b"Moon".to_vec();
    buffer.resize(256, 0);
    assert_eq!(obj.name(&buffer), "Moon");
}

#[test]
fn name_decodes_invalid_bytes_lossily() {
    let obj = Object::from_query(query(1, 3, 0)).unwrap().unwrap();
    let mut buffer = vec![b'M', 0xFF, b'n'];
    buffer.resize(256, 0);
    assert_eq!(obj.name(&buffer), "M\u{FFFD}n");
}

#[test]
fn name_of_empty_buffer_is_empty() {
    let obj = Object::from_query(query(1, 3, 0)).unwrap().unwrap();
    let buffer = vec![0u8; 256];
    assert_eq!(obj.name(&buffer), "");
}

#[test]
fn vessel_from_null_object_is_none() {
    let q = VesselQuery {
        handle: ObjHandle::null(),
        iface: VesselHandle::new(0x700),
    };
    assert_eq!(Vessel::from_obj(q), None);
}

#[test]
fn vessel_from_failed_resolution_is_none() {
    let q = VesselQuery {
        handle: ObjHandle::new(0x700),
        iface: VesselHandle::null(),
    };
    assert_eq!(Vessel::from_obj(q), None);
}

#[test]
fn vessel_wraps_resolved_interface() {
    let q = VesselQuery {
        handle: ObjHandle::new(0x700),
        iface: VesselHandle::new(0x770),
    };
    let v = Vessel::from_obj(q).unwrap();
    assert_eq!(v.vessel_handle().raw(), 0x770);
}

#[test]
fn focus_vessel_resolves_like_any_object() {
    let none = VesselQuery {
        handle: ObjHandle::null(),
        iface: VesselHandle::null(),
    };
    assert_eq!(Vessel::focus_vessel(none), None);
    let some = VesselQuery {
        handle: ObjHandle::new(0x800),
        iface: VesselHandle::new(0x880),
    };
    assert_eq!(Vessel::focus_vessel(some), Vessel::from_obj(some));
}

#[test]
fn handles_compare_by_address() {
    assert_eq!(ObjHandle::new(5), ObjHandle::new(5));
    assert_ne!(ObjHandle::new(5), ObjHandle::new(6));
    assert_eq!(ObjHandle::null(), ObjHandle::new(0));
    assert!(ObjHandle::null().is_null());
    assert!(!ObjHandle::new(1).is_null());
    assert!(VesselHandle::null().is_null());
    assert_eq!(VesselHandle::new(9).raw(), 9);
}
