use railway::connection::c_ffi::{fd_cmsg_space, hdr_size, SCM_RIGHTS, SOL_SOCKET};
use railway::connection::{Session, TransportError, WaylandConnection, PAYLOAD_CAPACITY};
use railway::types::object::{Object, WlRegistry, WlShm, WlShmPool, XdgToplevel};
use railway::types::requests::Request;

fn word(v: u32) -> [u8; 4] {
    v.to_le_bytes()
}

fn expected_fd_cmsg(fd: i32) -> Vec<u8> {
    let hdr = hdr_size();
    let mut c = Vec::new();
    c.extend_from_slice(&word((hdr + 4) as u32));
    c.extend_from_slice(&SOL_SOCKET.to_le_bytes());
    c.extend_from_slice(&SCM_RIGHTS.to_le_bytes());
    c.resize(hdr, 0);
    c.extend_from_slice(&fd.to_le_bytes());
    c.resize(fd_cmsg_space(), 0);
    c
}

#[test]
fn sync_request_bytes() {
    let mut c = WaylandConnection::new();
    let display = c.get_display();
    let req = Request::WlDisplaySync { sendto: display.id };
    assert!(c.session().check_enqueue(&req));
    let cb = display.sync(c.session_mut());
    assert_eq!(cb.id, 2);
    let (payload, control) = c.outgoing().unwrap();
    assert_eq!(payload, &[1, 0, 0, 0, 0, 0, 12, 0, 2, 0, 0, 0]);
    assert_eq!(control, &[] as &[u8]);
    assert_eq!(c.session().lookup(2), Some(Object::WlDisplaySyncCallback));
}

#[test]
fn enqueue_returns_zero_when_nothing_is_created() {
    let mut c = WaylandConnection::new();
    let id = c.enqueue(Request::XdgWmBasePong { sendto: 7, serial: 42 });
    assert_eq!(id, 0);
    assert_eq!(c.session().object_count(), 2);
    assert_eq!(c.session().payload(), &[7, 0, 0, 0, 3, 0, 12, 0, 42, 0, 0, 0]);
}

#[test]
fn bind_with_interface_string() {
    let mut s = Session::new();
    let registry = s.get_display().get_registry(&mut s);
    assert_eq!(registry.id, 2);
    s.clear_queue();
    let req = Request::WlRegistryBind {
        sendto: registry.id,
        name: 5,
        if_name: "wl_compositor".to_string(),
        if_version: 4,
    };
    assert!(s.check_enqueue(&req));
    let id = registry.bind(&mut s, 5, "wl_compositor".to_string(), 4);
    assert_eq!(id.id, 3);
    let mut expected = vec![2u8, 0, 0, 0, 0, 0, 40, 0];
    expected.extend_from_slice(&word(5));
    expected.extend_from_slice(&word(14));
    expected.extend_from_slice(b"wl_compositor\0\0\0");
    expected.extend_from_slice(&word(4));
    expected.extend_from_slice(&word(3));
    assert_eq!(s.payload(), &expected[..]);
    assert_eq!(s.lookup(3), Some(Object::WlCompositor));
    assert_eq!(s.control(), &[] as &[u8]);
}

#[test]
fn bind_of_an_unknown_interface_cannot_be_queued() {
    let s = Session::new();
    let req = Request::WlRegistryBind {
        sendto: 2,
        name: 1,
        if_name: "wp_viewporter".to_string(),
        if_version: 1,
    };
    assert!(!req.is_valid());
    assert_eq!(req.new_object(), None);
    assert!(!s.check_enqueue(&req));
}

#[test]
fn pool_and_buffer() {
    let mut c = WaylandConnection::new();
    let shm = WlShm { id: 4 };
    let pool = shm.create_pool(c.session_mut(), 11, 8294400);
    assert_eq!(pool.id, 2);
    assert_eq!(c.session().lookup(2), Some(Object::WlShmPool));
    {
        let (payload, control) = c.outgoing().unwrap();
        let mut expected = vec![4u8, 0, 0, 0, 0, 0, 16, 0];
        expected.extend_from_slice(&word(2));
        expected.extend_from_slice(&word(8294400));
        assert_eq!(payload, &expected[..]);
        assert_eq!(control, &expected_fd_cmsg(11)[..]);
        assert_eq!(control.len(), fd_cmsg_space());
    }
    let sent = c.session().payload().len();
    assert_eq!(c.finish_send(sent), Ok(()));
    assert!(c.outgoing().is_none());
    assert_eq!(c.session().control(), &[] as &[u8]);

    let pool = WlShmPool { id: pool.id };
    let buffer = pool.create_buffer(c.session_mut(), 0, 1920, 1080, 7680, 1);
    assert_eq!(buffer.id, 3);
    let (payload, control) = c.outgoing().unwrap();
    let mut expected = vec![2u8, 0, 0, 0, 0, 0, 32, 0];
    for v in [3u32, 0, 1920, 1080, 7680, 1] {
        expected.extend_from_slice(&word(v));
    }
    assert_eq!(payload, &expected[..]);
    assert_eq!(control, &[] as &[u8]);
    assert_eq!(c.session().lookup(3), Some(Object::WlBuffer));
}

#[test]
fn short_send_is_refused_and_keeps_the_queue() {
    let mut c = WaylandConnection::new();
    c.get_display().sync(c.session_mut());
    assert_eq!(c.finish_send(8), Err(TransportError::ShortSend));
    assert_eq!(c.session().payload().len(), 12);
    assert_eq!(c.finish_send(12), Ok(()));
    assert_eq!(c.session().payload().len(), 0);
    assert_eq!(c.finish_send(0), Ok(()));
}

#[test]
fn nothing_queued_means_nothing_to_send() {
    let c = WaylandConnection::new();
    assert!(c.outgoing().is_none());
    assert_eq!(c.session().payload_room(), PAYLOAD_CAPACITY);
}

#[test]
fn requests_are_queued_in_order() {
    let mut s = Session::new();
    let top = XdgToplevel { id: 9 };
    top.set_title(&mut s, "hi".to_string());
    top.set_min_size(&mut s, -1, 600);
    top.destroy(&mut s);
    let mut expected = vec![9u8, 0, 0, 0, 2, 0, 16, 0, 3, 0, 0, 0, b'h', b'i', 0, 0];
    expected.extend_from_slice(&[9, 0, 0, 0, 8, 0, 16, 0, 0xff, 0xff, 0xff, 0xff, 0x58, 2, 0, 0]);
    expected.extend_from_slice(&[9, 0, 0, 0, 0, 0, 8, 0]);
    assert_eq!(s.payload(), &expected[..]);
}

#[test]
fn header_length_matches_the_message() {
    let reqs = vec![
        Request::WlDisplaySync { sendto: 1 },
        Request::WlSurfaceCommit { sendto: 3 },
        Request::XdgToplevelSetAppId { sendto: 5, app_id: "org.example.app".to_string() },
        Request::WlSurfaceDamage { sendto: 3, x: 0, y: 0, width: 10, height: 10 },
        Request::WlDataOfferReceive { sendto: 8, mime_type: "text/plain".to_string(), fd: 4 },
        Request::ZwpLinuxBufferParamsV1Add {
            sendto: 6,
            fd: 9,
            plane_idx: 0,
            offset: 0,
            stride: 256,
            modifier_hi: 1,
            modifier_lo: 2,
        },
    ];
    for req in reqs {
        let mut s = Session::new();
        assert!(s.check_enqueue(&req));
        let size = req.wire_size().unwrap();
        let sendto = req.sendto();
        let opcode = req.opcode();
        s.enqueue(req);
        let p = s.payload();
        assert_eq!(p.len(), size);
        assert_eq!(size % 4, 0);
        assert!(size >= 8);
        assert_eq!(u32::from_le_bytes([p[0], p[1], p[2], p[3]]), sendto);
        assert_eq!(u16::from_le_bytes([p[4], p[5]]), opcode);
        assert_eq!(u16::from_le_bytes([p[6], p[7]]) as usize, size);
    }
}

#[test]
fn request_tables_agree() {
    let r = Request::WlDataOfferReceive { sendto: 8, mime_type: "text/plain".to_string(), fd: 4 };
    assert_eq!(r.sendto(), 8);
    assert_eq!(r.interface(), Object::WlDataOffer);
    assert_eq!(r.opcode(), 1);
    assert_eq!(r.fd(), Some(4));
    assert_eq!(r.new_object(), None);
    assert_eq!(r.wire_size(), Some(8 + 4 + 12));
    let r = Request::WlSurfaceFrame { sendto: 3 };
    assert_eq!(r.new_object(), Some(Object::WlSurfaceFrameCallback));
    assert_eq!(r.fd(), None);
    assert_eq!(r.wire_size(), Some(12));
    let r = Request::ZwpLinuxDmabufV1CreateParams { sendto: 12 };
    assert_eq!(r.interface(), Object::ZwpLinuxDmabufV1);
    assert_eq!(r.new_object(), Some(Object::ZwpLinuxBufferParamsV1));
    let r = Request::WlRegistryBind {
        sendto: 2,
        name: 1,
        if_name: "wl_seat".to_string(),
        if_version: 7,
    };
    assert!(r.is_valid());
    assert_eq!(r.new_object(), Some(Object::WlSeat));
    assert_eq!(r.wire_size(), Some(8 + 4 + 12 + 4 + 4));
}

#[test]
fn a_full_queue_takes_no_more() {
    let mut s = Session::new();
    let req = || Request::WlSurfaceCommit { sendto: 3 };
    let mut n = 0;
    while s.check_enqueue(&req()) {
        s.enqueue(req());
        n += 1;
    }
    assert_eq!(n, PAYLOAD_CAPACITY / 8);
    assert_eq!(s.payload_room(), 0);
    assert!(!s.check_enqueue(&Request::WlDisplaySync { sendto: 1 }));
    s.clear_queue();
    assert!(s.check_enqueue(&Request::WlDisplaySync { sendto: 1 }));
}

#[test]
fn control_buffer_takes_a_bounded_number_of_fds() {
    let mut s = Session::new();
    let req = |fd: i32| Request::WlShmCreatePool { sendto: 4, fd, size: 64 };
    let mut n = 0;
    while s.check_enqueue(&req(n)) {
        s.enqueue(req(n));
        n += 1;
    }
    assert_eq!(n as usize, 512 / fd_cmsg_space());
    let mut expected = Vec::new();
    for fd in 0..n {
        expected.extend_from_slice(&expected_fd_cmsg(fd));
    }
    assert_eq!(s.control(), &expected[..]);
}

#[test]
fn a_string_too_long_for_the_queue_cannot_be_queued() {
    let s = Session::new();
    let req = Request::XdgToplevelSetTitle { sendto: 9, title: "t".repeat(PAYLOAD_CAPACITY) };
    assert_eq!(req.wire_size(), Some(8 + 4 + PAYLOAD_CAPACITY + 4));
    assert!(!s.check_enqueue(&req));
    let req = Request::XdgToplevelSetTitle { sendto: 9, title: "t".repeat(70000) };
    assert_eq!(req.wire_size(), None);
    assert!(!s.check_enqueue(&req));
}

#[test]
fn registry_handle_is_plain_data() {
    let a = WlRegistry { id: 2 };
    let b = a;
    assert_eq!(a, b);
    assert_ne!(a, WlRegistry { id: 3 });
}
