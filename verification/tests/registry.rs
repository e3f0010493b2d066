use railway::connection::registry::{Registry, RegistryError};
use railway::connection::{Session, WaylandConnection};
use railway::types::id_store::IdStore;
use railway::types::object::Object;

#[test]
fn registry_starts_with_the_display() {
    let r = Registry::new();
    assert_eq!(r.len(), 2);
    assert_eq!(r.lookup(0), None);
    assert_eq!(r.lookup(1), Some(Object::WlDisplay));
    assert_eq!(r.lookup(2), None);
    assert!(r.can_allocate());
}

#[test]
fn allocation_appends_when_nothing_is_free() {
    let mut r = Registry::new();
    assert_eq!(r.allocate(Object::WlRegistry), 2);
    assert_eq!(r.allocate(Object::WlSurface), 3);
    assert_eq!(r.len(), 4);
    assert_eq!(r.lookup(2), Some(Object::WlRegistry));
    assert_eq!(r.lookup(3), Some(Object::WlSurface));
}

#[test]
fn delete_recycle() {
    let mut r = Registry::new();
    let x = r.allocate(Object::WlDisplaySyncCallback);
    assert_eq!(x, 2);
    r.delete(x);
    assert_eq!(r.lookup(x), None);
    let y = r.allocate(Object::WlSurface);
    assert_eq!(y, x);
    assert_eq!(r.lookup(y), Some(Object::WlSurface));
    assert_eq!(r.len(), 3);
}

#[test]
fn freed_ids_are_used_last_in_first_out() {
    let mut r = Registry::new();
    for _ in 0..5 {
        r.allocate(Object::WlBuffer);
    }
    assert_eq!(r.len(), 7);
    r.delete(3);
    r.delete(5);
    assert_eq!(r.allocate(Object::WlRegion), 5);
    assert_eq!(r.allocate(Object::WlSurface), 3);
    assert_eq!(r.len(), 7);
    assert_eq!(r.lookup(5), Some(Object::WlRegion));
    assert_eq!(r.lookup(3), Some(Object::WlSurface));
    assert_eq!(r.lookup(2), Some(Object::WlBuffer));
    assert_eq!(r.lookup(4), Some(Object::WlBuffer));
    assert_eq!(r.lookup(6), Some(Object::WlBuffer));
    assert_eq!(r.allocate(Object::WlOutput), 7);
    assert_eq!(r.len(), 8);
}

#[test]
fn ids_stay_bounded_after_deletes_and_reallocations() {
    let n = 20u32;
    let k = 8u32;
    let mut r = Registry::new();
    for _ in 0..n {
        let id = r.allocate(Object::WlSurface);
        assert!(id <= n + 1);
    }
    for id in 2..2 + k {
        r.delete(id);
    }
    for _ in 0..k {
        let id = r.allocate(Object::WlRegion);
        assert!(id <= n + 1);
        assert_eq!(r.lookup(id), Some(Object::WlRegion));
    }
    assert_eq!(r.len() as u32, n + 2);
    for id in 2 + k..n + 2 {
        assert_eq!(r.lookup(id), Some(Object::WlSurface));
    }
}

#[test]
fn deleting_a_free_slot_changes_nothing() {
    let mut r = Registry::new();
    let a = r.allocate(Object::WlSurface);
    r.delete(a);
    r.delete(a);
    r.delete(0);
    assert_eq!(r.allocate(Object::WlBuffer), a);
    assert_eq!(r.allocate(Object::WlBuffer), a + 1);
    assert_eq!(r.lookup(0), None);
}

#[test]
fn replace_succeeds_only_for_the_same_interface() {
    let mut r = Registry::new();
    let id = r.allocate(Object::WlSurface);
    assert_eq!(r.replace(id, Object::WlSurface), Ok(()));
    assert_eq!(r.replace(id, Object::WlBuffer), Err(RegistryError::TypeMismatch));
    assert_eq!(r.replace(1, Object::WlDisplay), Ok(()));
    assert_eq!(r.replace(0, Object::Null), Ok(()));
    assert_eq!(r.replace(0, Object::WlDisplay), Err(RegistryError::TypeMismatch));
    assert_eq!(r.replace(3, Object::WlSurface), Err(RegistryError::NoSuchId));
    assert_eq!(r.lookup(id), Some(Object::WlSurface));
}

#[test]
fn update_object_checks_the_stored_interface() {
    let mut c = WaylandConnection::new();
    assert_eq!(c.update_object(1, Object::WlDisplay), Ok(()));
    assert_eq!(c.update_object(1, Object::WlShm), Err(RegistryError::TypeMismatch));
    assert_eq!(c.update_object(99, Object::WlShm), Err(RegistryError::NoSuchId));
    assert_eq!(c.session().lookup(1), Some(Object::WlDisplay));
    let mut s = Session::new();
    assert_eq!(s.update_object(1, Object::WlDisplay), Ok(()));
    assert_eq!(s.update_object(0, Object::WlDisplay), Err(RegistryError::TypeMismatch));
    assert_eq!(s.update_object(2, Object::WlDisplay), Err(RegistryError::NoSuchId));
}

#[test]
fn delete_object_frees_the_slot() {
    let mut c = WaylandConnection::new();
    let d = c.get_display();
    assert_eq!(d.id, 1);
    let cb = d.sync(c.session_mut());
    assert_eq!(c.session().lookup(cb.id), Some(Object::WlDisplaySyncCallback));
    c.delete_object(cb.id);
    assert_eq!(c.session().lookup(cb.id), None);
    assert_eq!(c.session().object_count(), 3);
    let again = d.get_registry(c.session_mut());
    assert_eq!(again.id, cb.id);
    assert_eq!(c.session().lookup(again.id), Some(Object::WlRegistry));
}

#[test]
fn id_store_hands_out_ids_in_order() {
    let mut s = IdStore::new();
    assert_eq!(s.lookup_id(0), None);
    assert_eq!(s.lookup_id(1), Some(Object::Null));
    assert_eq!(s.lookup_id(2), Some(Object::WlDisplay));
    assert_eq!(s.lookup_id(3), None);
    assert_eq!(s.get_next_id(Object::Null), 0);
    assert_eq!(s.lookup_id(3), None);
    assert_eq!(s.get_next_id(Object::WlSurface), 3);
    assert_eq!(s.lookup_id(3), Some(Object::WlSurface));
    assert_eq!(s.get_next_id(Object::WlShm), 4);
    assert_eq!(s.lookup_id(4), Some(Object::WlShm));
    assert_eq!(s.lookup_id(0xff00_0000), None);
    assert_eq!(s.lookup_id(u32::MAX), None);
    assert_eq!(s.lookup_id(0xfeff_ffff), None);
}

#[test]
fn object_from_str_knows_the_interfaces() {
    assert_eq!(Object::from_str("wl_compositor"), Some(Object::WlCompositor));
    assert_eq!(Object::from_str("xdg_wm_base"), Some(Object::XdgWmBase));
    assert_eq!(Object::from_str("wl_shm"), Some(Object::WlShm));
    assert_eq!(Object::from_str("wl_shm_pool"), Some(Object::WlShmPool));
    assert_eq!(Object::from_str("wl_subsurface"), Some(Object::WlSubsurface));
    assert_eq!(Object::from_str("zwp_linux_dmabuf_v1"), Some(Object::ZwpLinuxDmabufV1));
    assert_eq!(Object::from_str("wl_callback"), None);
    assert_eq!(Object::from_str(""), None);
    assert_eq!(Object::from_str("WL_SHM"), None);
    assert_eq!(Object::from_str("wl_shm "), None);
}
