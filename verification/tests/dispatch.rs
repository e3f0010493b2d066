use railway::connection::c_ffi::{
    collect_fds, fd_cmsg_space, hdr_size, process_cmsgs, write_fd, CmsgHdr, MSG_CTRUNC,
    SCM_RIGHTS, SOL_SOCKET,
};
use railway::connection::events::DispatchError;
use railway::connection::{
    Session, TransportError, WaylandConnection, CONTROL_CAPACITY, FD_QUEUE_CAPACITY,
    PAYLOAD_CAPACITY,
};
use railway::types::buffer::{alignptr, Buffer};
use railway::types::enums::{WlKeyboardKeymapFormat, WlShmFormat};
use railway::types::events::{
    Event, WlDisplayDeleteIdEvent, WlDisplayErrorEvent, WlDisplaySyncDoneEvent,
    WlKeyboardKeymapEvent, WlRegistryGlobalEvent, WlShmFormatEvent, XdgToplevelConfigureEvent,
    XdgWmBasePingEvent,
};
use railway::types::handler::{Discard, EventHandler};
use railway::types::object::{Object, XdgWmBase};
use railway::types::requests::Request;
use railway::wire::{Reader, WireError};

fn message(id: u32, opcode: u16, args: &[u8]) -> Vec<u8> {
    let mut m = Vec::new();
    m.extend_from_slice(&id.to_le_bytes());
    m.extend_from_slice(&opcode.to_le_bytes());
    m.extend_from_slice(&((8 + args.len()) as u16).to_le_bytes());
    m.extend_from_slice(args);
    m
}

fn cmsg(level: i32, ty: i32, payload: &[u8]) -> Vec<u8> {
    let hdr = hdr_size();
    let mut c = Vec::new();
    c.extend_from_slice(&((hdr + payload.len()) as u32).to_le_bytes());
    c.extend_from_slice(&level.to_le_bytes());
    c.extend_from_slice(&ty.to_le_bytes());
    c.resize(hdr, 0);
    c.extend_from_slice(payload);
    c.resize(alignptr(c.len()), 0);
    c
}

/// A connection whose registry holds `tags` at the ids 2, 3, ...
fn connection_with(tags: &[Object]) -> WaylandConnection {
    let mut c = WaylandConnection::new();
    for tag in tags {
        let req = match tag {
            Object::XdgWmBase => bind("xdg_wm_base"),
            Object::WlCompositor => bind("wl_compositor"),
            Object::WlShm => bind("wl_shm"),
            Object::WlKeyboard => bind("wl_keyboard"),
            Object::XdgToplevel => bind("xdg_toplevel"),
            Object::WlRegistry => Request::WlDisplayGetRegistry { sendto: 1 },
            Object::WlDisplaySyncCallback => Request::WlDisplaySync { sendto: 1 },
            Object::ZwpLinuxDmabufV1 => bind("zwp_linux_dmabuf_v1"),
            other => panic!("no request for {:?}", other),
        };
        assert!(c.session().check_enqueue(&req));
        c.enqueue(req);
    }
    let sent = c.session().payload().len();
    assert_eq!(c.finish_send(sent), Ok(()));
    c
}

fn bind(name: &str) -> Request {
    Request::WlRegistryBind { sendto: 2, name: 1, if_name: name.to_string(), if_version: 1 }
}

#[derive(Default)]
struct Recorder {
    log: Vec<String>,
    pong: bool,
}

impl EventHandler for Recorder {
    fn on_xdg_wm_base_ping(&mut self, event: XdgWmBasePingEvent, connection: &mut Session) {
        self.log.push(format!("ping {} {}", event.source_id, event.serial));
        if self.pong {
            XdgWmBase { id: event.source_id }.pong(connection, event.serial);
        }
    }

    fn on_wl_display_sync_done(&mut self, event: WlDisplaySyncDoneEvent, _: &mut Session) {
        self.log.push(format!("sync_done {} {}", event.source_id, event.data));
    }

    fn on_wl_display_delete_id(&mut self, event: WlDisplayDeleteIdEvent, s: &mut Session) {
        self.log.push(format!("delete_id {} free={}", event.id, s.lookup(event.id).is_none()));
    }

    fn on_wl_display_error(&mut self, event: WlDisplayErrorEvent, _: &mut Session) {
        self.log.push(format!("error {} {} {}", event.object_id, event.code, event.message));
    }

    fn on_wl_registry_global(&mut self, event: WlRegistryGlobalEvent, _: &mut Session) {
        self.log.push(format!("global {} {} {}", event.name, event.interface, event.version));
    }

    fn on_wl_shm_format(&mut self, event: WlShmFormatEvent, _: &mut Session) {
        self.log.push(format!("format {:?}", event.format));
    }

    fn on_wl_keyboard_keymap(&mut self, event: WlKeyboardKeymapEvent, _: &mut Session) {
        self.log.push(format!("keymap {:?} fd={} {}", event.format, event.fd, event.size));
    }

    fn on_xdg_toplevel_configure(&mut self, event: XdgToplevelConfigureEvent, _: &mut Session) {
        self.log.push(format!("configure {} {} {:?}", event.width, event.height, event.states));
    }
}

struct Silent;

impl EventHandler for Silent {}

#[test]
fn sync_round_trip() {
    let mut c = WaylandConnection::new();
    let cb = c.get_display().sync(c.session_mut());
    assert_eq!(cb.id, 2);
    let sent = c.session().payload().len();
    assert_eq!(c.finish_send(sent), Ok(()));

    let mut batch = message(2, 0, &0x1234u32.to_le_bytes());
    batch.extend_from_slice(&message(1, 1, &2u32.to_le_bytes()));
    assert_eq!(c.load_batch(&batch, &[], 0), Ok(()));
    let mut h = Recorder::default();
    assert_eq!(c.dispatch_events(&mut h), Ok(()));
    assert_eq!(h.log, vec!["sync_done 2 4660", "delete_id 2 free=true"]);
    assert!(!c.has_pending());
    assert_eq!(c.session().lookup(2), None);
    assert_eq!(c.get_display().get_registry(c.session_mut()).id, 2);
}

#[test]
fn ping_is_dispatched_to_its_handler() {
    let mut c = connection_with(&[
        Object::WlRegistry,
        Object::WlCompositor,
        Object::WlShm,
        Object::WlCompositor,
        Object::WlCompositor,
        Object::XdgWmBase,
    ]);
    assert_eq!(c.session().lookup(7), Some(Object::XdgWmBase));
    let batch = [0x07, 0, 0, 0, 0, 0, 0x0c, 0, 0x2a, 0, 0, 0];
    assert_eq!(c.load_batch(&batch, &[], 0), Ok(()));
    let mut h = Recorder::default();
    assert_eq!(c.dispatch_events(&mut h), Ok(()));
    assert_eq!(h.log, vec!["ping 7 42"]);
    assert!(c.outgoing().is_none());
}

#[test]
fn requests_queued_by_a_handler_wait_for_the_next_send() {
    let mut c = connection_with(&[Object::WlRegistry, Object::XdgWmBase]);
    let mut batch = message(3, 0, &42u32.to_le_bytes());
    batch.extend_from_slice(&message(3, 0, &43u32.to_le_bytes()));
    assert_eq!(c.load_batch(&batch, &[], 0), Ok(()));
    let mut h = Recorder { pong: true, ..Recorder::default() };
    assert_eq!(c.dispatch_events(&mut h), Ok(()));
    assert_eq!(h.log, vec!["ping 3 42", "ping 3 43"]);
    let (payload, _) = c.outgoing().unwrap();
    let mut expected = message(3, 3, &42u32.to_le_bytes());
    expected.extend_from_slice(&message(3, 3, &43u32.to_le_bytes()));
    assert_eq!(payload, &expected[..]);
}

#[test]
fn next_event_decodes_one_message_at_a_time() {
    let mut c = connection_with(&[Object::WlRegistry]);
    let mut args = Vec::new();
    args.extend_from_slice(&5u32.to_le_bytes());
    args.extend_from_slice(&7u32.to_le_bytes());
    args.extend_from_slice(b"wl_shm\0\0");
    args.extend_from_slice(&1u32.to_le_bytes());
    let mut batch = message(2, 0, &args);
    batch.extend_from_slice(&message(2, 1, &5u32.to_le_bytes()));
    assert_eq!(c.load_batch(&batch, &[], 0), Ok(()));
    match c.next_event() {
        Ok(Some(Event::WlRegistryGlobal(e))) => {
            assert_eq!(e.source_id, 2);
            assert_eq!(e.name, 5);
            assert_eq!(e.interface, "wl_shm");
            assert_eq!(e.version, 1);
        },
        other => panic!("unexpected {:?}", other),
    }
    assert!(c.has_pending());
    match c.next_event() {
        Ok(Some(ev)) => {
            assert_eq!(ev.source_id(), 2);
            assert!(matches!(ev, Event::WlRegistryGlobalRemove(e) if e.name == 5));
        },
        other => panic!("unexpected {:?}", other),
    }
    assert!(!c.has_pending());
    assert!(matches!(c.next_event(), Err(DispatchError::BadHeader)));
}

#[test]
fn dispatch_of_an_empty_batch_does_nothing() {
    let mut c = WaylandConnection::new();
    assert!(!c.has_pending());
    assert_eq!(c.dispatch_event(&mut Silent), Ok(()));
    assert_eq!(c.dispatch_events(&mut Silent), Ok(()));
    assert_eq!(c.load_batch(&[], &[], 0), Ok(()));
    assert_eq!(c.dispatch_events(&mut Silent), Ok(()));
}

#[test]
fn unknown_opcode_is_skipped() {
    let mut c = connection_with(&[Object::WlRegistry, Object::XdgWmBase]);
    let mut batch = message(3, 9, &[1, 2, 3, 4, 5, 6, 7, 8]);
    batch.extend_from_slice(&message(3, 0, &42u32.to_le_bytes()));
    assert_eq!(c.load_batch(&batch, &[], 0), Ok(()));
    assert!(matches!(c.next_event(), Ok(None)));
    let mut h = Recorder::default();
    assert_eq!(c.dispatch_events(&mut h), Ok(()));
    assert_eq!(h.log, vec!["ping 3 42"]);
}

#[test]
fn events_of_an_interface_without_known_events_are_skipped() {
    let mut c = connection_with(&[Object::WlRegistry, Object::ZwpLinuxDmabufV1]);
    let batch = message(3, 0, &0x3432_5258u32.to_le_bytes());
    assert_eq!(c.load_batch(&batch, &[], 0), Ok(()));
    assert!(matches!(c.next_event(), Ok(None)));
    assert!(!c.has_pending());
}

#[test]
fn trailing_bytes_of_a_message_are_passed_over() {
    let mut c = connection_with(&[Object::WlRegistry, Object::XdgWmBase]);
    let mut batch = message(3, 0, &[42, 0, 0, 0, 9, 9, 9, 9]);
    batch.extend_from_slice(&message(3, 0, &43u32.to_le_bytes()));
    assert_eq!(c.load_batch(&batch, &[], 0), Ok(()));
    let mut h = Recorder::default();
    assert_eq!(c.dispatch_events(&mut h), Ok(()));
    assert_eq!(h.log, vec!["ping 3 42", "ping 3 43"]);
}

#[test]
fn event_with_enum_string_and_array_arguments() {
    let mut c = connection_with(&[Object::WlRegistry, Object::WlShm, Object::XdgToplevel]);
    let mut batch = message(3, 0, &1u32.to_le_bytes());
    batch.extend_from_slice(&message(3, 0, &0x7777u32.to_le_bytes()));
    let mut args = Vec::new();
    args.extend_from_slice(&800i32.to_le_bytes());
    args.extend_from_slice(&(-1i32).to_le_bytes());
    args.extend_from_slice(&[5, 0, 0, 0, 1, 2, 3, 4, 5, 0, 0, 0]);
    batch.extend_from_slice(&message(4, 0, &args));
    let mut err = Vec::new();
    err.extend_from_slice(&4u32.to_le_bytes());
    err.extend_from_slice(&2u32.to_le_bytes());
    err.extend_from_slice(&[4, 0, 0, 0, b'b', b'a', b'd', 0]);
    batch.extend_from_slice(&message(1, 0, &err));
    assert_eq!(c.load_batch(&batch, &[], 0), Ok(()));
    let mut h = Recorder::default();
    assert_eq!(c.dispatch_events(&mut h), Ok(()));
    assert_eq!(
        h.log,
        vec!["format XRGB8888", "format Unexpected", "configure 800 -1 [1, 2, 3, 4, 5]", "error 4 2 bad"]
    );
    assert_eq!(WlShmFormat::from(1), WlShmFormat::XRGB8888);
}

#[test]
fn fds_reach_events_in_wire_order() {
    let mut c = connection_with(&[Object::WlRegistry, Object::WlKeyboard]);
    let mut args = Vec::new();
    args.extend_from_slice(&1u32.to_le_bytes());
    args.extend_from_slice(&4096u32.to_le_bytes());
    let mut batch = message(3, 0, &args);
    batch.extend_from_slice(&message(3, 0, &args));
    let mut control = cmsg(SOL_SOCKET, SCM_RIGHTS, &21i32.to_le_bytes());
    control.extend_from_slice(&cmsg(SOL_SOCKET, 2, &[1, 1, 1, 1]));
    control.extend_from_slice(&cmsg(SOL_SOCKET, SCM_RIGHTS, &22i32.to_le_bytes()));
    assert_eq!(c.load_batch(&batch, &control, 0), Ok(()));
    let mut h = Recorder::default();
    assert_eq!(c.dispatch_events(&mut h), Ok(()));
    assert_eq!(h.log, vec!["keymap XkbV1 fd=21 4096", "keymap XkbV1 fd=22 4096"]);
    assert_eq!(WlKeyboardKeymapFormat::from(1), WlKeyboardKeymapFormat::XkbV1);
}

#[test]
fn several_fds_in_one_control_message() {
    let mut fds: Buffer<256> = Buffer::new();
    let mut payload = Vec::new();
    for fd in [3i32, 4, 5] {
        payload.extend_from_slice(&fd.to_le_bytes());
    }
    let control = cmsg(SOL_SOCKET, SCM_RIGHTS, &payload);
    assert!(process_cmsgs(&control, &mut fds));
    assert_eq!(fds.as_slice(), &payload[..]);
    let mut r = Reader::new(&[], 0, 0, fds.as_slice(), 0);
    assert_eq!(r.get_fd(), Ok(3));
    assert_eq!(r.get_fd(), Ok(4));
    assert_eq!(r.get_fd(), Ok(5));
    assert_eq!(r.get_fd(), Err(WireError::NoFd));
}

#[test]
fn fds_written_are_fds_read() {
    let mut out: Buffer<512> = Buffer::new();
    let sent = [7i32, -1, 0, 1 << 20];
    for fd in sent {
        write_fd(&mut out, fd);
    }
    assert_eq!(out.len(), sent.len() * fd_cmsg_space());
    let mut queue: Buffer<256> = Buffer::new();
    assert!(process_cmsgs(out.as_slice(), &mut queue));
    assert_eq!(queue.len(), 4 * sent.len());
    let mut r = Reader::new(&[], 0, 0, queue.as_slice(), 0);
    for fd in sent {
        assert_eq!(r.get_fd(), Ok(fd));
    }
    assert_eq!(r.get_fd(), Err(WireError::NoFd));
}

#[test]
fn control_walk_stops_at_a_broken_header() {
    let mut queue: Buffer<256> = Buffer::new();
    let mut control = cmsg(SOL_SOCKET, SCM_RIGHTS, &9i32.to_le_bytes());
    let mut broken = cmsg(SOL_SOCKET, SCM_RIGHTS, &10i32.to_le_bytes());
    broken[0] = 4;
    control.extend_from_slice(&broken);
    control.extend_from_slice(&cmsg(SOL_SOCKET, SCM_RIGHTS, &11i32.to_le_bytes()));
    assert!(process_cmsgs(&control, &mut queue));
    assert_eq!(queue.as_slice(), &9i32.to_le_bytes());
    let mut short: Buffer<256> = Buffer::new();
    assert!(process_cmsgs(&control[..hdr_size()], &mut short));
    assert_eq!(short.len(), 0);
}

#[test]
fn too_many_fds_are_refused() {
    let mut small: Buffer<8> = Buffer::new();
    let control = cmsg(SOL_SOCKET, SCM_RIGHTS, &[0u8; 12]);
    assert!(!process_cmsgs(&control, &mut small));
    let mut exact: Buffer<12> = Buffer::new();
    assert!(process_cmsgs(&control, &mut exact));
    assert_eq!(exact.len(), 12);

    let mut c = WaylandConnection::new();
    let big = cmsg(SOL_SOCKET, SCM_RIGHTS, &vec![0u8; FD_QUEUE_CAPACITY + 4]);
    assert!(big.len() <= CONTROL_CAPACITY);
    assert_eq!(c.load_batch(&[], &big, 0), Err(TransportError::TooManyFds));
    let fits = cmsg(SOL_SOCKET, SCM_RIGHTS, &vec![0u8; FD_QUEUE_CAPACITY]);
    assert_eq!(c.load_batch(&[], &fits, 0), Ok(()));
}

#[test]
fn truncation_abort() {
    let mut c = connection_with(&[Object::WlRegistry, Object::XdgWmBase]);
    let mut batch = Vec::new();
    while batch.len() < PAYLOAD_CAPACITY {
        batch.extend_from_slice(&message(3, 0, &42u32.to_le_bytes()));
        batch.extend_from_slice(&message(3, 0, &[]));
        batch.truncate(PAYLOAD_CAPACITY);
    }
    assert_eq!(batch.len(), PAYLOAD_CAPACITY);
    assert_eq!(c.load_batch(&batch, &[], 0), Err(TransportError::Truncated));
    assert!(!c.has_pending());
    let mut h = Recorder::default();
    assert_eq!(c.dispatch_events(&mut h), Ok(()));
    assert!(h.log.is_empty());
    assert_eq!(c.load_batch(&batch[..PAYLOAD_CAPACITY - 4], &[], 0), Ok(()));
    assert!(c.has_pending());
}

#[test]
fn control_truncation_and_misalignment_are_refused() {
    let mut c = WaylandConnection::new();
    let batch = message(1, 1, &2u32.to_le_bytes());
    assert_eq!(c.load_batch(&batch, &[], MSG_CTRUNC), Err(TransportError::ControlTruncated));
    assert!(!c.has_pending());
    assert_eq!(
        c.load_batch(&batch, &vec![0u8; CONTROL_CAPACITY + 1], 0),
        Err(TransportError::ControlTruncated)
    );
    assert_eq!(c.load_batch(&batch[..10], &[], 0), Err(TransportError::Misaligned));
    assert!(!c.has_pending());
    assert_eq!(c.load_batch(&batch, &[], 1), Ok(()));
    assert!(c.has_pending());
}

#[test]
fn a_new_batch_replaces_the_old() {
    let mut c = WaylandConnection::new();
    let first = message(1, 1, &7u32.to_le_bytes());
    assert_eq!(c.load_batch(&first, &cmsg(SOL_SOCKET, SCM_RIGHTS, &[1, 0, 0, 0]), 0), Ok(()));
    assert!(c.has_pending());
    assert_eq!(c.load_batch(&[], &[], 0), Ok(()));
    assert!(!c.has_pending());
}

#[test]
fn bad_headers_are_refused() {
    let mut c = WaylandConnection::new();
    assert_eq!(c.load_batch(&[1, 0, 0, 0], &[], 0), Ok(()));
    assert_eq!(c.dispatch_events(&mut Silent), Err(DispatchError::BadHeader));
    assert!(c.has_pending());
    for len in [0u16, 4, 7, 10, 16] {
        let mut m = message(1, 1, &2u32.to_le_bytes());
        m[6..8].copy_from_slice(&len.to_le_bytes());
        assert_eq!(c.load_batch(&m, &[], 0), Ok(()));
        assert_eq!(c.dispatch_event(&mut Silent), Err(DispatchError::BadHeader));
    }
}

#[test]
fn events_on_missing_objects_are_refused() {
    let mut c = connection_with(&[Object::WlRegistry]);
    for id in [0u32, 3, 99, 0xff00_0000] {
        assert_eq!(c.load_batch(&message(id, 0, &[]), &[], 0), Ok(()));
        assert_eq!(c.dispatch_events(&mut Silent), Err(DispatchError::NullObject));
    }
    c.delete_object(2);
    assert_eq!(c.load_batch(&message(2, 1, &5u32.to_le_bytes()), &[], 0), Ok(()));
    assert_eq!(c.dispatch_events(&mut Silent), Err(DispatchError::NullObject));
}

#[test]
fn events_on_an_interface_without_events_are_refused() {
    let mut c = connection_with(&[Object::WlRegistry, Object::WlCompositor]);
    assert_eq!(c.load_batch(&message(3, 0, &[]), &[], 0), Ok(()));
    assert_eq!(c.dispatch_events(&mut Silent), Err(DispatchError::NoEvents));
    assert!(c.has_pending());
}

#[test]
fn arguments_that_cannot_be_read_are_refused() {
    let mut c =
        connection_with(&[Object::WlRegistry, Object::XdgWmBase, Object::WlKeyboard]);
    assert_eq!(c.load_batch(&message(3, 0, &[]), &[], 0), Ok(()));
    assert_eq!(c.dispatch_events(&mut Silent), Err(DispatchError::Wire(WireError::Overrun)));

    let mut err = Vec::new();
    err.extend_from_slice(&4u32.to_le_bytes());
    err.extend_from_slice(&2u32.to_le_bytes());
    err.extend_from_slice(&[3, 0, 0, 0, 0xc3, 0x28, 0, 0]);
    assert_eq!(c.load_batch(&message(1, 0, &err), &[], 0), Ok(()));
    assert_eq!(c.dispatch_events(&mut Silent), Err(DispatchError::Wire(WireError::InvalidUtf8)));

    let mut args = Vec::new();
    args.extend_from_slice(&1u32.to_le_bytes());
    args.extend_from_slice(&4096u32.to_le_bytes());
    assert_eq!(c.load_batch(&message(4, 0, &args), &[], 0), Ok(()));
    assert_eq!(c.dispatch_events(&mut Silent), Err(DispatchError::Wire(WireError::NoFd)));
    assert!(c.has_pending());
}

#[test]
fn delete_id_beyond_the_registry_is_refused() {
    let mut c = connection_with(&[Object::WlRegistry]);
    assert_eq!(c.load_batch(&message(1, 1, &1000u32.to_le_bytes()), &[], 0), Ok(()));
    let mut h = Recorder::default();
    assert_eq!(c.dispatch_events(&mut h), Err(DispatchError::BadDelete));
    assert!(h.log.is_empty());
    assert_eq!(c.session().object_count(), 3);
    assert_eq!(c.session().lookup(2), Some(Object::WlRegistry));
}

#[test]
fn delete_id_of_a_free_slot_is_harmless() {
    let mut c = connection_with(&[Object::WlRegistry, Object::WlDisplaySyncCallback]);
    let mut batch = message(1, 1, &3u32.to_le_bytes());
    batch.extend_from_slice(&message(1, 1, &3u32.to_le_bytes()));
    batch.extend_from_slice(&message(1, 1, &0u32.to_le_bytes()));
    assert_eq!(c.load_batch(&batch, &[], 0), Ok(()));
    assert_eq!(c.dispatch_events(&mut Silent), Ok(()));
    assert_eq!(c.get_display().sync(c.session_mut()).id, 3);
    assert_eq!(c.get_display().sync(c.session_mut()).id, 4);
}

#[test]
fn dispatch_stops_at_the_first_faulty_message() {
    let mut c = connection_with(&[Object::WlRegistry, Object::XdgWmBase]);
    let mut batch = message(3, 0, &42u32.to_le_bytes());
    batch.extend_from_slice(&message(9, 0, &[]));
    batch.extend_from_slice(&message(3, 0, &43u32.to_le_bytes()));
    assert_eq!(c.load_batch(&batch, &[], 0), Ok(()));
    let mut h = Recorder::default();
    assert_eq!(c.dispatch_events(&mut h), Err(DispatchError::NullObject));
    assert_eq!(h.log, vec!["ping 3 42"]);
    assert!(c.has_pending());
    assert_eq!(c.dispatch_events(&mut h), Err(DispatchError::NullObject));
}

#[test]
fn control_header_is_written_and_read_back() {
    let hdr = CmsgHdr { cmsg_len: (hdr_size() + 4) as u32, cmsg_level: SOL_SOCKET, cmsg_type: SCM_RIGHTS };
    assert!(hdr.is_rights());
    let mut b: Buffer<32> = Buffer::new();
    hdr.write(&mut b);
    assert_eq!(b.len(), hdr_size());
    assert_eq!(&b.as_slice()[..12], &[(hdr_size() + 4) as u8, 0, 0, 0, 0xff, 0xff, 0, 0, 1, 0, 0, 0]);
    let back = CmsgHdr::read(b.as_slice(), 0);
    assert_eq!((back.cmsg_len, back.cmsg_level, back.cmsg_type), (hdr.cmsg_len, SOL_SOCKET, SCM_RIGHTS));
    let other = CmsgHdr { cmsg_len: 20, cmsg_level: 6, cmsg_type: SCM_RIGHTS };
    assert!(!other.is_rights());
    let wrong_type = CmsgHdr { cmsg_len: 20, cmsg_level: SOL_SOCKET, cmsg_type: 2 };
    assert!(!wrong_type.is_rights());

    let mut control = cmsg(6, SCM_RIGHTS, &[9, 9, 9, 9]);
    control.extend_from_slice(&cmsg(SOL_SOCKET, SCM_RIGHTS, &[1, 0, 0, 0, 2, 0, 0, 0]));
    assert_eq!(collect_fds(&control), vec![1, 0, 0, 0, 2, 0, 0, 0]);
    assert_eq!(collect_fds(&[]), Vec::<u8>::new());
}

#[test]
fn discard_drains_the_batch() {
    let mut c = connection_with(&[Object::WlRegistry, Object::XdgWmBase]);
    let mut batch = message(3, 0, &42u32.to_le_bytes());
    batch.extend_from_slice(&message(1, 1, &3u32.to_le_bytes()));
    assert_eq!(c.load_batch(&batch, &[], 0), Ok(()));
    assert_eq!(c.dispatch_events(&mut Discard), Ok(()));
    assert!(!c.has_pending());
    assert_eq!(c.session().lookup(3), None);
    assert!(c.outgoing().is_none());
}

#[test]
fn a_faulty_first_message_reaches_no_handler() {
    let mut c = connection_with(&[Object::WlRegistry, Object::WlCompositor]);
    let mut batch = message(3, 0, &[]);
    batch.extend_from_slice(&message(1, 1, &2u32.to_le_bytes()));
    assert_eq!(c.load_batch(&batch, &[], 0), Ok(()));
    let mut h = Recorder::default();
    assert_eq!(c.dispatch_event(&mut h), Err(DispatchError::NoEvents));
    assert_eq!(c.dispatch_events(&mut h), Err(DispatchError::NoEvents));
    assert!(h.log.is_empty());
    assert_eq!(c.session().lookup(2), Some(Object::WlRegistry));
    assert_eq!(c.session().object_count(), 4);
    assert!(c.outgoing().is_none());
}

#[test]
fn an_unknown_opcode_reaches_no_handler() {
    let mut c = connection_with(&[Object::WlRegistry, Object::XdgWmBase]);
    let batch = message(3, 1, &[1, 0, 0, 0, 2, 0, 0, 0]);
    assert_eq!(c.load_batch(&batch, &[], 0), Ok(()));
    let mut h = Recorder { pong: true, ..Recorder::default() };
    assert_eq!(c.dispatch_event(&mut h), Ok(()));
    assert!(h.log.is_empty());
    assert!(!c.has_pending());
    assert!(c.outgoing().is_none());
    assert_eq!(c.session().lookup(3), Some(Object::XdgWmBase));
    assert_eq!(c.session().object_count(), 4);
}

#[test]
fn one_step_hands_over_one_event() {
    let mut c = connection_with(&[Object::WlRegistry, Object::WlDisplaySyncCallback]);
    let mut batch = message(3, 0, &7u32.to_le_bytes());
    batch.extend_from_slice(&message(1, 1, &3u32.to_le_bytes()));
    assert_eq!(c.load_batch(&batch, &[], 0), Ok(()));
    let mut h = Recorder::default();
    assert_eq!(c.dispatch_event(&mut h), Ok(()));
    assert_eq!(h.log, vec!["sync_done 3 7"]);
    assert_eq!(c.session().lookup(3), Some(Object::WlDisplaySyncCallback));
    assert!(c.has_pending());
    assert_eq!(c.dispatch_event(&mut h), Ok(()));
    assert_eq!(h.log, vec!["sync_done 3 7", "delete_id 3 free=true"]);
    assert!(!c.has_pending());
    assert_eq!(c.dispatch_event(&mut h), Ok(()));
    assert_eq!(h.log.len(), 2);
}
