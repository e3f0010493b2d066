//! The connection: object registry, outbound request queue, inbound event
//! decoding and dispatch.
pub mod c_ffi;
pub mod events;
pub mod registry;
pub mod requests;

use crate::connection::c_ffi::{
    cmsg_fds, fd_cmsg, process_cmsgs, spec_fd_slot, spec_hdr_size, write_fd, MSG_CTRUNC,
};
use crate::connection::registry::{Registry, RegistryError, RegistryView};
use crate::types::buffer::Buffer;
use crate::types::object::{Object, WlDisplay};
use crate::types::requests::Request;
use crate::types::MessageHeader;
use crate::wire::{
    array_bytes, array_size, int_bytes, string_bytes, string_size, word_bytes, write_array,
    write_int, write_string, write_uint, MAX_MSG_SIZE,
};
use vstd::prelude::*;

verus! {

/// Capacity of the buffers that hold requests and events.
pub const PAYLOAD_CAPACITY: usize = 16_384;

/// Capacity of the buffers that hold control messages.
pub const CONTROL_CAPACITY: usize = 512;

/// Capacity of the queue of received file descriptors, in bytes.
pub const FD_QUEUE_CAPACITY: usize = 256;

/// What event handlers and request methods work on: the registry of
/// objects and the requests queued for the next send.
#[derive(Debug)]
pub struct Session {
    objects: Registry,
    send_buf: Buffer<16_384>,
    cmsg_send_buf: Buffer<512>,
}

impl Session {
    /// The object registry.
    pub closed spec fn registry(&self) -> RegistryView {
        self.objects@
    }

    /// The bytes queued for the next send.
    pub closed spec fn outbound(&self) -> Seq<u8> {
        self.send_buf@
    }

    /// The control messages queued for the next send.
    pub closed spec fn ancillary(&self) -> Seq<u8> {
        self.cmsg_send_buf@
    }

    /// The registry is well formed and the queue holds whole words within
    /// its capacity.
    pub open spec fn wf(&self) -> bool {
        &&& self.registry().wf()
        &&& self.outbound().len() % 4 == 0
        &&& self.outbound().len() <= PAYLOAD_CAPACITY
        &&& self.ancillary().len() <= CONTROL_CAPACITY
    }

    /// A session with nothing queued: slot 0 empty, the display at id 1.
    pub fn new() -> (s: Self)
        ensures
            s.wf(),
            s.registry() == RegistryView::initial(),
            s.outbound() == Seq::<u8>::empty(),
            s.ancillary() == Seq::<u8>::empty(),
    {
        Session { objects: Registry::new(), send_buf: Buffer::new(), cmsg_send_buf: Buffer::new() }
    }

    /// The handle of the display, which is always object 1.
    pub fn get_display(&self) -> (d: WlDisplay)
        ensures
            d.id == 1,
    {
        WlDisplay { id: 1 }
    }

    /// The interface of `id`, if it names a live object.
    pub fn lookup(&self, id: u32) -> (r: Option<Object>)
        ensures
            r == self.registry().lookup(id),
    {
        self.objects.lookup(id)
    }

    /// Number of slots in the registry, slot 0 included.
    pub fn object_count(&self) -> (n: usize)
        ensures
            n == self.registry().slots.len(),
    {
        self.objects.len()
    }

    /// Writes `obj` over the slot of `id`. This succeeds exactly when the
    /// slot exists and holds the same interface already, and then as
    /// before changes nothing that can be seen.
    pub fn update_object(&mut self, id: u32, obj: Object) -> (r: Result<(), RegistryError>)
        ensures
            final(self).registry() == old(self).registry(),
            final(self).outbound() == old(self).outbound(),
            final(self).ancillary() == old(self).ancillary(),
            r == old(self).registry().check_replace(id, obj),
    {
        self.objects.replace(id, obj)
    }

    /// Releases `id`: its slot becomes empty and the id is the next to be
    /// handed out. A slot that is empty already stays as it is.
    pub fn delete_object(&mut self, id: u32)
        requires
            old(self).wf(),
            id < old(self).registry().slots.len(),
        ensures
            final(self).wf(),
            final(self).registry() == old(self).registry().delete(id),
            final(self).outbound() == old(self).outbound(),
            final(self).ancillary() == old(self).ancillary(),
    {
        self.objects.delete(id);
    }

    /// The bytes queued for the next send.
    pub fn payload(&self) -> (s: &[u8])
        ensures
            s@ == self.outbound(),
    {
        self.send_buf.as_slice()
    }

    /// The control messages queued for the next send.
    pub fn control(&self) -> (s: &[u8])
        ensures
            s@ == self.ancillary(),
    {
        self.cmsg_send_buf.as_slice()
    }

    /// Empties the queue once it has been sent.
    pub fn clear_queue(&mut self)
        requires
            old(self).wf(),
        ensures
            final(self).wf(),
            final(self).registry() == old(self).registry(),
            final(self).outbound() == Seq::<u8>::empty(),
            final(self).ancillary() == Seq::<u8>::empty(),
    {
        self.send_buf.clear();
        self.cmsg_send_buf.clear();
    }

    /// Bytes of payload that still fit in the queue.
    pub fn payload_room(&self) -> (n: usize)
        ensures
            n == PAYLOAD_CAPACITY - self.outbound().len(),
    {
        self.send_buf.capacity() - self.send_buf.len()
    }

    /// Bytes of control messages that still fit in the queue.
    pub fn control_room(&self) -> (n: usize)
        ensures
            n == CONTROL_CAPACITY - self.ancillary().len(),
    {
        self.cmsg_send_buf.capacity() - self.cmsg_send_buf.len()
    }

    /// Whether the registry has an id left to hand out.
    pub fn can_allocate(&self) -> (b: bool)
        ensures
            b == self.registry().can_allocate(),
    {
        self.objects.can_allocate()
    }

    /// Hands out an id for a new object of interface `obj`.
    pub(crate) fn allocate_id(&mut self, obj: Object) -> (id: u32)
        requires
            old(self).wf(),
            obj !is Null,
            old(self).registry().can_allocate(),
        ensures
            final(self).wf(),
            final(self).registry() == old(self).registry().allocate(obj),
            id == old(self).registry().next_id(),
            final(self).outbound() == old(self).outbound(),
            final(self).ancillary() == old(self).ancillary(),
    {
        self.objects.allocate(obj)
    }

    /// Sets eight bytes aside for a header and returns where they start.
    pub(crate) fn reserve_header(&mut self) -> (pos: usize)
        requires
            old(self).outbound().len() + 8 <= PAYLOAD_CAPACITY,
        ensures
            pos == old(self).outbound().len(),
            final(self).registry() == old(self).registry(),
            final(self).ancillary() == old(self).ancillary(),
            final(self).outbound().len() == pos + 8,
            final(self).outbound().subrange(0, pos as int) == old(self).outbound(),
    {
        let pos = self.send_buf.len();
        let blank = [0u8; 8];
        self.send_buf.extend(blank.as_slice());
        pos
    }

    /// Writes a header over the eight bytes at `pos`.
    pub(crate) fn write_header(&mut self, hdr: MessageHeader, pos: usize)
        requires
            pos + 8 <= old(self).outbound().len(),
        ensures
            final(self).registry() == old(self).registry(),
            final(self).ancillary() == old(self).ancillary(),
            final(self).outbound() == old(self).outbound().subrange(0, pos as int)
                + hdr.spec_bytes() + old(self).outbound().subrange(
                pos + 8,
                old(self).outbound().len() as int,
            ),
    {
        let hdr_bytes = hdr.into_bytes();
        let used = self.send_buf.len();
        let data = self.send_buf.as_storage();
        data[pos] = hdr_bytes[0];
        data[pos + 1] = hdr_bytes[1];
        data[pos + 2] = hdr_bytes[2];
        data[pos + 3] = hdr_bytes[3];
        data[pos + 4] = hdr_bytes[4];
        data[pos + 5] = hdr_bytes[5];
        data[pos + 6] = hdr_bytes[6];
        data[pos + 7] = hdr_bytes[7];
    }

    /// Appends one word to the queue.
    pub(crate) fn write_uint(&mut self, u: u32)
        requires
            old(self).outbound().len() + 4 <= PAYLOAD_CAPACITY,
        ensures
            final(self).registry() == old(self).registry(),
            final(self).ancillary() == old(self).ancillary(),
            final(self).outbound() == old(self).outbound() + word_bytes(u),
    {
        write_uint(&mut self.send_buf, u);
    }

    /// Appends one signed integer to the queue.
    pub(crate) fn write_int(&mut self, i: i32)
        requires
            old(self).outbound().len() + 4 <= PAYLOAD_CAPACITY,
        ensures
            final(self).registry() == old(self).registry(),
            final(self).ancillary() == old(self).ancillary(),
            final(self).outbound() == old(self).outbound() + int_bytes(i),
    {
        write_int(&mut self.send_buf, i);
    }

    /// Appends one string to the queue.
    pub(crate) fn write_string(&mut self, s: &str)
        requires
            string_size(s@) <= MAX_MSG_SIZE,
            old(self).outbound().len() + string_size(s@) <= PAYLOAD_CAPACITY,
        ensures
            final(self).registry() == old(self).registry(),
            final(self).ancillary() == old(self).ancillary(),
            final(self).outbound() == old(self).outbound() + string_bytes(s@),
    {
        write_string(&mut self.send_buf, s);
    }

    /// Appends one byte array to the queue.
    pub(crate) fn write_array(&mut self, v: &[u8])
        requires
            array_size(v@) <= MAX_MSG_SIZE,
            old(self).outbound().len() + array_size(v@) <= PAYLOAD_CAPACITY,
        ensures
            final(self).registry() == old(self).registry(),
            final(self).ancillary() == old(self).ancillary(),
            final(self).outbound() == old(self).outbound() + array_bytes(v@),
    {
        write_array(&mut self.send_buf, v);
    }

    /// Appends the control message that carries `fd`.
    pub(crate) fn write_fd(&mut self, fd: i32)
        requires
            old(self).ancillary().len() + spec_hdr_size() + spec_fd_slot() <= CONTROL_CAPACITY,
        ensures
            final(self).registry() == old(self).registry(),
            final(self).outbound() == old(self).outbound(),
            final(self).ancillary() == old(self).ancillary() + fd_cmsg(fd),
    {
        write_fd(&mut self.cmsg_send_buf, fd);
    }
}

/// Why a batch could not be sent or taken in. None of these can be
/// recovered from: the stream is out of step.
#[derive(Debug, Clone, Copy, PartialEq, Eq, Structural)]
pub enum TransportError {
    /// Fewer bytes went out than were queued.
    ShortSend,
    /// The received bytes fill the whole buffer, so more may have been cut
    /// off.
    Truncated,
    /// The kernel reports that control data was cut off.
    ControlTruncated,
    /// The received bytes are not whole words.
    Misaligned,
    /// More file descriptors arrived than the queue holds.
    TooManyFds,
}

/// One connection to a display server, without its socket: the session
/// that requests are queued on, and the batch of events received last.
#[derive(Debug)]
pub struct WaylandConnection {
    session: Session,
    recv_buf: Buffer<16_384>,
    fd_buf: Buffer<256>,
    cmsg_recv_buf: Buffer<512>,
    recv_pos: usize,
    fd_pos: usize,
}

impl WaylandConnection {
    /// The session as a value.
    pub closed spec fn session_view(&self) -> Session {
        self.session
    }

    /// The bytes of the batch received last.
    pub closed spec fn inbound(&self) -> Seq<u8> {
        self.recv_buf@
    }

    /// The file descriptors of the batch received last, four bytes each, in
    /// the order they arrived.
    pub closed spec fn fd_queue(&self) -> Seq<u8> {
        self.fd_buf@
    }

    /// The control messages of the batch received last.
    pub closed spec fn control_in(&self) -> Seq<u8> {
        self.cmsg_recv_buf@
    }

    /// Offset of the first byte of `inbound` not yet dispatched.
    pub closed spec fn recv_pos(&self) -> int {
        self.recv_pos as int
    }

    /// Offset of the first byte of `fd_queue` not yet handed out.
    pub closed spec fn fd_pos(&self) -> int {
        self.fd_pos as int
    }

    /// The session is well formed, the batch is whole words, and both read
    /// positions lie within what was received.
    pub open spec fn wf(&self) -> bool {
        &&& self.session_view().wf()
        &&& self.inbound().len() % 4 == 0
        &&& self.inbound().len() < PAYLOAD_CAPACITY
        &&& self.recv_pos() % 4 == 0
        &&& 0 <= self.recv_pos() <= self.inbound().len()
        &&& 0 <= self.fd_pos() <= self.fd_queue().len()
    }

    /// Whether `self` differs from `before` in its session at most.
    pub open spec fn same_batch(&self, before: WaylandConnection) -> bool {
        &&& self.inbound() == before.inbound()
        &&& self.fd_queue() == before.fd_queue()
        &&& self.control_in() == before.control_in()
        &&& self.recv_pos() == before.recv_pos()
        &&& self.fd_pos() == before.fd_pos()
    }

    /// Whether `self` and `before` hold the same session.
    pub open spec fn same_session(&self, before: WaylandConnection) -> bool {
        &&& self.session_view().registry() == before.session_view().registry()
        &&& self.session_view().outbound() == before.session_view().outbound()
        &&& self.session_view().ancillary() == before.session_view().ancillary()
    }

    /// A connection with nothing queued and nothing received; the registry
    /// holds the display at id 1.
    pub fn new() -> (c: Self)
        ensures
            c.wf(),
            c.session_view().registry() == RegistryView::initial(),
            c.session_view().outbound() == Seq::<u8>::empty(),
            c.session_view().ancillary() == Seq::<u8>::empty(),
            c.inbound() == Seq::<u8>::empty(),
            c.fd_queue() == Seq::<u8>::empty(),
            c.control_in() == Seq::<u8>::empty(),
            c.recv_pos() == 0,
            c.fd_pos() == 0,
    {
        WaylandConnection {
            session: Session::new(),
            recv_buf: Buffer::new(),
            fd_buf: Buffer::new(),
            cmsg_recv_buf: Buffer::new(),
            recv_pos: 0,
            fd_pos: 0,
        }
    }

    /// The handle of the display, which is always object 1.
    pub fn get_display(&self) -> (d: WlDisplay)
        ensures
            d.id == 1,
    {
        WlDisplay { id: 1 }
    }

    /// The session, to look at.
    pub fn session(&self) -> (s: &Session)
        ensures
            *s == self.session_view(),
    {
        &self.session
    }

    /// The session, to queue requests on.
    pub fn session_mut(&mut self) -> (s: &mut Session)
        ensures
            *s == old(self).session_view(),
            final(self).session_view() == *final(s),
            final(self).same_batch(*old(self)),
    {
        &mut self.session
    }

    /// Queues `req` for the next send and returns the id of the object it
    /// creates, or 0 if it creates none.
    pub fn enqueue(&mut self, req: Request) -> (new_id: u32)
        requires
            old(self).wf(),
            old(self).session_view().can_enqueue(req),
        ensures
            final(self).wf(),
            final(self).same_batch(*old(self)),
            final(self).session_view().enqueued(old(self).session_view(), req),
            new_id == old(self).session_view().new_id_for(req),
    {
        self.session.enqueue(req)
    }

    /// Writes `obj` over the slot of `id`. This succeeds exactly when the
    /// slot exists and holds the same interface already.
    pub fn update_object(&mut self, id: u32, obj: Object) -> (r: Result<(), RegistryError>)
        ensures
            final(self).same_batch(*old(self)),
            final(self).same_session(*old(self)),
            r == old(self).session_view().registry().check_replace(id, obj),
    {
        self.session.update_object(id, obj)
    }

    /// Releases `id`: its slot becomes empty and the id is the next to be
    /// handed out. A slot that is empty already stays as it is.
    pub fn delete_object(&mut self, id: u32)
        requires
            old(self).wf(),
            id < old(self).session_view().registry().slots.len(),
        ensures
            final(self).wf(),
            final(self).same_batch(*old(self)),
            final(self).session_view().registry() == old(self).session_view().registry().delete(id),
            final(self).session_view().outbound() == old(self).session_view().outbound(),
            final(self).session_view().ancillary() == old(self).session_view().ancillary(),
    {
        self.session.delete_object(id);
    }

    /// What the next send has to carry: the queued bytes and the queued
    /// control messages. Nothing when no request is queued.
    pub fn outgoing(&self) -> (r: Option<(&[u8], &[u8])>)
        ensures
            r is None <==> self.session_view().outbound().len() == 0,
            r matches Some((payload, control)) ==> payload@ == self.session_view().outbound()
                && control@ == self.session_view().ancillary(),
    {
        let payload = self.session.payload();
        if payload.len() == 0 {
            None
        } else {
            Some((payload, self.session.control()))
        }
    }

    /// Takes note that the socket sent `sent` bytes of the queue. All of
    /// them must have gone out; the queue and the control messages are then
    /// empty. A short send leaves everything as it was.
    pub fn finish_send(&mut self, sent: usize) -> (r: Result<(), TransportError>)
        requires
            old(self).wf(),
        ensures
            final(self).wf(),
            final(self).same_batch(*old(self)),
            final(self).session_view().registry() == old(self).session_view().registry(),
            r is Ok <==> sent == old(self).session_view().outbound().len(),
            r is Ok ==> final(self).session_view().outbound() == Seq::<u8>::empty() && final(self).session_view().ancillary() == Seq::<u8>::empty(),
            r is Err ==> r == Err::<(), _>(TransportError::ShortSend) && final(self).same_session(
                *old(self),
            ),
    {
        if sent != self.session.payload().len() {
            return Err(TransportError::ShortSend);
        }
        self.session.clear_queue();
        Ok(())
    }

    /// What `load_batch` answers to a batch of `payload` bytes with the
    /// control messages `control` and the message flags `flags`.
    pub open spec fn spec_batch_fault(payload: Seq<u8>, control: Seq<u8>, flags: i32) -> Option<
        TransportError,
    > {
        if payload.len() >= PAYLOAD_CAPACITY {
            Some(TransportError::Truncated)
        } else if flags & MSG_CTRUNC != 0 || control.len() > CONTROL_CAPACITY {
            Some(TransportError::ControlTruncated)
        } else if payload.len() % 4 != 0 {
            Some(TransportError::Misaligned)
        } else if cmsg_fds(control, 0).len() > FD_QUEUE_CAPACITY {
            Some(TransportError::TooManyFds)
        } else {
            None
        }
    }

    /// Takes in one batch as the socket delivered it: `payload` are the
    /// bytes received, `control` the control messages, `flags` the message
    /// flags. Whatever was received before is dropped. A batch that fills
    /// the whole buffer, one whose control data was cut off, and one that
    /// is not whole words are refused, and then nothing is left to
    /// dispatch.
    pub fn load_batch(&mut self, payload: &[u8], control: &[u8], flags: i32) -> (r: Result<
        (),
        TransportError,
    >)
        requires
            old(self).wf(),
        ensures
            final(self).wf(),
            final(self).same_session(*old(self)),
            final(self).recv_pos() == 0,
            final(self).fd_pos() == 0,
            match r {
                Ok(()) => Self::spec_batch_fault(payload@, control@, flags) is None && final(self).inbound() == payload@ && final(self).control_in() == control@ && final(self).fd_queue() == cmsg_fds(control@, 0),
                Err(e) => Self::spec_batch_fault(payload@, control@, flags) == Some(e) && final(self).inbound() == Seq::<u8>::empty() && final(self).fd_queue() == Seq::<u8>::empty()
                    && final(self).control_in() == Seq::<u8>::empty(),
            },
    {
        self.recv_buf.clear();
        self.fd_buf.clear();
        self.cmsg_recv_buf.clear();
        self.recv_pos = 0;
        self.fd_pos = 0;
        if payload.len() >= self.recv_buf.capacity() {
            return Err(TransportError::Truncated);
        }
        if flags & MSG_CTRUNC != 0 || control.len() > self.cmsg_recv_buf.capacity() {
            return Err(TransportError::ControlTruncated);
        }
        if payload.len() % 4 != 0 {
            return Err(TransportError::Misaligned);
        }
        self.cmsg_recv_buf.extend(control);
        if !process_cmsgs(self.cmsg_recv_buf.as_slice(), &mut self.fd_buf) {
            self.cmsg_recv_buf.clear();
            return Err(TransportError::TooManyFds);
        }
        self.recv_buf.extend(payload);
        Ok(())
    }

    /// Whether bytes of the batch are left to dispatch.
    pub fn has_pending(&self) -> (b: bool)
        ensures
            b == (self.recv_pos() < self.inbound().len()),
    {
        self.recv_pos < self.recv_buf.len()
    }
}

} // verus!
