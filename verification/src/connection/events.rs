//! Taking events off the received batch and handing them to the handler.
use crate::connection::{Session, WaylandConnection};
use crate::types::events::Event;
use crate::types::handler::EventHandler;
use crate::types::object::Object;
use crate::types::MessageHeader;
use crate::wire::{word_at, word_from_bytes, Cursor, Reader, WireError};
use vstd::prelude::*;

verus! {

/// Why a message of the batch could not be dispatched. None of these can
/// be recovered from.
#[derive(Debug, Clone, Copy, PartialEq, Eq, Structural)]
pub enum DispatchError {
    /// The header does not fit in what is left of the batch, or the length
    /// it announces is less than a header, not whole words, or more than is
    /// left.
    BadHeader,
    /// The sender is id 0, an id beyond the registry, or an id whose slot
    /// is empty.
    NullObject,
    /// The sender's interface has no events.
    NoEvents,
    /// An argument could not be read.
    Wire(WireError),
    /// A `wl_display.delete_id` names an id beyond the registry.
    BadDelete,
}

/// Opcode of `wl_display.delete_id`.
pub const DELETE_ID: u16 = 1;

/// An event is a `wl_display.delete_id` exactly when the display sent it
/// with that opcode, and the id it names is then its first argument.
proof fn lemma_released(
    ev: Option<Event>,
    tag: Object,
    opcode: u16,
    source_id: u32,
    b: Seq<u8>,
    fds: Seq<u8>,
    c: Cursor,
)
    requires
        match ev {
            Some(e) => Event::spec_known(tag, opcode) && e.spec_decoded(
                tag,
                opcode,
                source_id,
                b,
                fds,
                c,
            ),
            None => !Event::spec_known(tag, opcode),
        },
    ensures
        (ev matches Some(Event::WlDisplayDeleteId(_))) <==> (tag == Object::WlDisplay && opcode
            == DELETE_ID),
        ev matches Some(Event::WlDisplayDeleteId(d)) ==> d.id == word_at(b, c.pos),
{
    reveal(Event::spec_decoded);
}

impl WaylandConnection {
    /// The header of the message that is next to be dispatched.
    pub open spec fn spec_header(&self) -> MessageHeader {
        MessageHeader::spec_at(self.inbound(), self.recv_pos())
    }

    /// Whether a whole message stands at the read position: the header
    /// fits, and its length is at least a header, whole words, and no more
    /// than what is left of the batch.
    pub open spec fn spec_header_ok(&self) -> bool {
        &&& self.recv_pos() + 8 <= self.inbound().len()
        &&& self.spec_header().len >= 8
        &&& self.spec_header().len % 4 == 0
        &&& self.recv_pos() + self.spec_header().len <= self.inbound().len()
    }

    /// The interface of the sender of the next message.
    pub open spec fn spec_sender(&self) -> Option<Object> {
        self.session_view().registry().lookup(self.spec_header().obj_id)
    }

    /// A cursor at the first argument of the next message, bounded by the
    /// end of that message.
    pub open spec fn spec_args(&self) -> Cursor {
        Cursor {
            pos: self.recv_pos() + 8,
            end: self.recv_pos() + self.spec_header().len,
            fd_pos: self.fd_pos(),
            fault: None,
        }
    }

    /// Where the cursor stands behind the arguments of the next message.
    pub open spec fn spec_args_end(&self) -> Cursor {
        Event::spec_end(
            self.spec_sender()->0,
            self.spec_header().opcode,
            self.inbound(),
            self.fd_queue(),
            self.spec_args(),
        )
    }

    /// Whether the next message is an event the library knows.
    pub open spec fn spec_known(&self) -> bool {
        Event::spec_known(self.spec_sender()->0, self.spec_header().opcode)
    }

    /// The id that the next message releases, if it is a
    /// `wl_display.delete_id`.
    pub open spec fn spec_released(&self) -> Option<u32> {
        if self.spec_sender() == Some(Object::WlDisplay) && self.spec_header().opcode == DELETE_ID {
            Some(word_at(self.inbound(), self.recv_pos() + 8))
        } else {
            None
        }
    }

    /// What is wrong with the next message, if anything: the first of the
    /// faults in the order of `DispatchError` that applies.
    pub open spec fn spec_fault(&self) -> Option<DispatchError> {
        if !self.spec_header_ok() {
            Some(DispatchError::BadHeader)
        } else if self.spec_sender() is None {
            Some(DispatchError::NullObject)
        } else if !Event::spec_has_events(self.spec_sender()->0) {
            Some(DispatchError::NoEvents)
        } else if self.spec_known() && self.spec_args_end().fault is Some {
            Some(DispatchError::Wire(self.spec_args_end().fault->0))
        } else if self.spec_released() matches Some(id) && id
            >= self.session_view().registry().slots.len() {
            Some(DispatchError::BadDelete)
        } else {
            None
        }
    }

    /// Whether the batch of `self` is that of `before` read one message
    /// further: the read position at the end of that message, and the
    /// descriptors of its arguments consumed.
    pub open spec fn moved_on(&self, before: WaylandConnection) -> bool {
        &&& self.inbound() == before.inbound()
        &&& self.fd_queue() == before.fd_queue()
        &&& self.control_in() == before.control_in()
        &&& self.recv_pos() == before.recv_pos() + before.spec_header().len
        &&& self.recv_pos() > before.recv_pos()
        &&& self.fd_pos() == if before.spec_known() {
            before.spec_args_end().fd_pos
        } else {
            before.fd_pos()
        }
    }

    /// Whether `self` is `before` with its next message taken off: the
    /// read position at the end of that message, the descriptors of its
    /// arguments consumed, and the id it releases gone from the registry.
    pub open spec fn took_message(&self, before: WaylandConnection) -> bool {
        &&& self.moved_on(before)
        &&& self.session_view().registry() == match before.spec_released() {
            Some(id) => before.session_view().registry().delete(id),
            None => before.session_view().registry(),
        }
        &&& self.session_view().outbound() == before.session_view().outbound()
        &&& self.session_view().ancillary() == before.session_view().ancillary()
    }

    /// Whether anything of the batch is left to dispatch.
    pub open spec fn spec_pending(&self) -> bool {
        self.recv_pos() < self.inbound().len()
    }

    /// Whether `after` is `self` with its next message passed over: a
    /// sound message that holds no event the library knows. Nothing but
    /// the read position changes, and no handler is called.
    pub open spec fn spec_skipped(&self, after: WaylandConnection) -> bool {
        &&& self.spec_pending()
        &&& self.spec_fault() is None
        &&& !self.spec_known()
        &&& after.took_message(*self)
    }

    /// Whether `mid` is `self` with its next message taken off, `ev` the
    /// event that this message holds, and the call that hands `ev` to its
    /// method, on the handler behind `s` and on the session of `mid`
    /// behind `k`, one that the method's contract admits.
    pub open spec fn spec_handled<T: EventHandler>(
        &self,
        mid: WaylandConnection,
        ev: Event,
        s: &mut T,
        k: &mut Session,
    ) -> bool {
        &&& self.spec_pending()
        &&& self.spec_fault() is None
        &&& self.spec_known()
        &&& mid.took_message(*self)
        &&& ev.spec_decoded(
            self.spec_sender()->0,
            self.spec_header().opcode,
            self.spec_header().obj_id,
            self.inbound(),
            self.fd_queue(),
            self.spec_args(),
        )
        &&& *k == mid.session_view()
        &&& ev.spec_handed(s, k)
    }

    /// Whether `cs` and `hs` are the connections and the handlers of a run
    /// from `first` to `last`, one of each for every message boundary the
    /// run stood at.
    pub open spec fn spec_run_ends<T>(
        cs: Seq<WaylandConnection>,
        hs: Seq<T>,
        first: WaylandConnection,
        first_h: T,
        last: WaylandConnection,
        last_h: T,
    ) -> bool {
        &&& cs.len() >= 1
        &&& cs.len() == hs.len()
        &&& cs[0] == first
        &&& hs[0] == first_h
        &&& cs.last() == last
        &&& hs.last() == last_h
    }

    /// Reads the header of the next message and checks the length it
    /// announces against what is left of the batch.
    fn read_header(&self) -> (res: Option<MessageHeader>)
        requires
            self.wf(),
        ensures
            res is Some <==> self.spec_header_ok(),
            res matches Some(h) ==> h == self.spec_header(),
    {
        let buf = self.recv_buf.as_slice();
        let start = self.recv_pos;
        if buf.len() - start < 8 {
            return None;
        }
        let word1 = word_from_bytes(buf[start], buf[start + 1], buf[start + 2], buf[start + 3]);
        let word2 = word_from_bytes(
            buf[start + 4],
            buf[start + 5],
            buf[start + 6],
            buf[start + 7],
        );
        let hdr = MessageHeader::from_words(word1, word2);
        let len = hdr.len as usize;
        if len < 8 || len % 4 != 0 || len > buf.len() - start {
            return None;
        }
        Some(hdr)
    }

    /// Reads the arguments of the next message, whose header is `hdr` and
    /// whose sender has the interface `tag`. Returns the event and where
    /// the queue of file descriptors stands behind it.
    fn read_event(&self, hdr: MessageHeader, tag: Object) -> (res: Result<
        (Option<Event>, usize),
        WireError,
    >)
        requires
            self.wf(),
            self.spec_header_ok(),
            hdr == self.spec_header(),
            self.spec_sender() == Some(tag),
        ensures
            match res {
                Ok((ev, fd_pos)) => (self.spec_known() ==> self.spec_args_end().fault is None)
                    && fd_pos <= self.fd_queue().len()
                    && fd_pos == (if self.spec_known() {
                    self.spec_args_end().fd_pos
                } else {
                    self.fd_pos()
                }) && match ev {
                    Some(ev) => self.spec_known() && ev.spec_decoded(
                        tag,
                        hdr.opcode,
                        hdr.obj_id,
                        self.inbound(),
                        self.fd_queue(),
                        self.spec_args(),
                    ),
                    None => !self.spec_known(),
                },
                Err(e) => self.spec_known() && self.spec_args_end().fault == Some(e),
            },
    {
        let start = self.recv_pos;
        let mut args = Reader::new(
            self.recv_buf.as_slice(),
            start + 8,
            start + hdr.len as usize,
            self.fd_buf.as_slice(),
            self.fd_pos,
        );
        match Event::decode(tag, hdr.opcode, hdr.obj_id, &mut args) {
            Ok(ev) => Ok((ev, args.fd_position())),
            Err(e) => Err(e),
        }
    }

    /// Takes the next message off the batch and decodes it. The length in
    /// its header decides where the next message starts, whatever its
    /// arguments take. A message with an opcode the library does not know is
    /// passed over and yields no event. A `wl_display.delete_id` releases the id it names before it is
    /// returned. A faulty message yields its fault and leaves everything as
    /// it was.
    pub fn next_event(&mut self) -> (res: Result<Option<Event>, DispatchError>)
        requires
            old(self).wf(),
        ensures
            final(self).wf(),
            match res {
                Ok(ev) => old(self).spec_fault() is None && final(self).took_message(*old(self))
                    && match ev {
                    Some(ev) => old(self).spec_known() && ev.spec_decoded(
                        old(self).spec_sender()->0,
                        old(self).spec_header().opcode,
                        old(self).spec_header().obj_id,
                        old(self).inbound(),
                        old(self).fd_queue(),
                        old(self).spec_args(),
                    ),
                    None => !old(self).spec_known(),
                },
                Err(e) => old(self).spec_fault() == Some(e) && *final(self) == *old(self) && final(self).same_batch(*old(self)) && final(self).same_session(*old(self)),
            },
    {
        let hdr = match self.read_header() {
            Some(h) => h,
            None => {
                return Err(DispatchError::BadHeader);
            },
        };
        let tag = match self.session.lookup(hdr.obj_id) {
            Some(tag) => tag,
            None => {
                return Err(DispatchError::NullObject);
            },
        };
        if !Event::has_events(tag) {
            return Err(DispatchError::NoEvents);
        }
        let (event, fd_pos) = match self.read_event(hdr, tag) {
            Ok(r) => r,
            Err(e) => {
                return Err(DispatchError::Wire(e));
            },
        };
        proof {
            lemma_released(
                event,
                tag,
                hdr.opcode,
                hdr.obj_id,
                self.inbound(),
                self.fd_queue(),
                self.spec_args(),
            );
        }
        if let Some(Event::WlDisplayDeleteId(del)) = &event {
            if del.id as usize >= self.session.object_count() {
                return Err(DispatchError::BadDelete);
            }
            self.session.delete_object(del.id);
        }
        self.recv_pos = self.recv_pos + hdr.len as usize;
        self.fd_pos = fd_pos;
        Ok(event)
    }

    /// Takes the next message off the batch and hands its event, if the
    /// library knows it, to `state`. With nothing left in the batch nothing
    /// happens. A faulty message yields its fault, and then nothing has
    /// changed and no handler was called. A message the library does not
    /// know is passed over without a call. A known event is decoded, a
    /// `wl_display.delete_id` releases its id, and then the method meant for
    /// the event is called with it on the session as it then stands.
    pub fn dispatch_event<T: EventHandler>(&mut self, state: &mut T) -> (res: Result<
        (),
        DispatchError,
    >)
        requires
            old(self).wf(),
        ensures
            final(self).wf(),
            final(self).inbound() == old(self).inbound(),
            final(self).fd_queue() == old(self).fd_queue(),
            final(self).control_in() == old(self).control_in(),
            res is Err <==> old(self).spec_pending() && old(self).spec_fault() is Some,
            res matches Err(e) ==> old(self).spec_fault() == Some(e),
            res is Err || !old(self).spec_pending() ==> *final(self) == *old(self) && final(self).same_batch(*old(self)) && final(self).same_session(*old(self)) && *final(state)
                == *old(state),
            res is Ok && old(self).spec_pending() ==> final(self).moved_on(*old(self)),
            res is Ok && old(self).spec_pending() && !old(self).spec_known() ==> old(self).spec_skipped(*final(self)) && *final(state) == *old(state),
            res is Ok && old(self).spec_pending() && old(self).spec_known() ==> exists|
                mid: WaylandConnection,
                ev: Event,
                s: &mut T,
                k: &mut Session,
            |
                #[trigger] old(self).spec_handled(mid, ev, s, k) && final(self).same_batch(mid) && *s
                    == *old(state) && *final(s) == *final(state) && *final(k) == final(self).session_view(),
    {
        if self.recv_pos >= self.recv_buf.len() {
            return Ok(());
        }
        let ghost before = *self;
        match self.next_event() {
            Ok(Some(event)) => {
                let ghost mid = *self;
                let ghost ev = event;
                event.deliver(state, self.session_mut());
                proof {
                    let (s, k) = choose|s: &mut T, k: &mut Session|
                        *s == *old(state) && *final(s) == *state && *k == mid.session_view()
                            && *final(k) == self.session_view() && #[trigger] ev.spec_handed(s, k);
                    assert(before.spec_handled(mid, ev, s, k));
                }
                Ok(())
            },
            Ok(None) => Ok(()),
            Err(e) => Err(e),
        }
    }

    /// Dispatches the batch message by message, in the order of the wire,
    /// until nothing is left of it or a message is faulty. Requests that
    /// handlers queue stay queued for the next send.
    ///
    /// The run is a chain of connections and handlers, one pair for every
    /// message boundary it stood at: from each to the next leads one step
    /// of `dispatch_event`, which either passes over a message the library
    /// does not know or hands a known event to its method. The run ends
    /// where nothing is left, or at the first faulty message, which is
    /// left in place.
    pub fn dispatch_events<T: EventHandler>(&mut self, state: &mut T) -> (res: Result<
        (),
        DispatchError,
    >)
        requires
            old(self).wf(),
        ensures
            final(self).wf(),
            final(self).inbound() == old(self).inbound(),
            final(self).fd_queue() == old(self).fd_queue(),
            final(self).control_in() == old(self).control_in(),
            match res {
                Ok(()) => !final(self).spec_pending(),
                Err(e) => final(self).spec_pending() && final(self).spec_fault() == Some(e),
            },
            !old(self).spec_pending() ==> res is Ok && *final(self) == *old(self) && final(self).same_batch(*old(self)) && final(self).same_session(*old(self)) && *final(state)
                == *old(state),
            old(self).spec_pending() && old(self).spec_fault() is Some ==> res == Err::<
                (),
                DispatchError,
            >(old(self).spec_fault()->0) && *final(self) == *old(self) && final(self).same_batch(
                *old(self),
            ) && final(self).same_session(*old(self)) && *final(state) == *old(state),
            exists|cs: Seq<WaylandConnection>, hs: Seq<T>|
                #[trigger] Self::spec_run_ends(
                    cs,
                    hs,
                    *old(self),
                    *old(state),
                    *final(self),
                    *final(state),
                ) && forall|i: int|
                    #![trigger cs[i]]
                    0 <= i < cs.len() - 1 ==> (cs[i].spec_skipped(cs[i + 1]) && hs[i + 1] == hs[i])
                        || exists|mid: WaylandConnection, ev: Event, s: &mut T, k: &mut Session|
                        #[trigger] cs[i].spec_handled(mid, ev, s, k) && cs[i + 1].same_batch(mid)
                            && *s == hs[i] && *final(s) == hs[i + 1] && *final(k) == cs[i
                            + 1].session_view(),
    {
        let ghost mut cs: Seq<WaylandConnection> = seq![*self];
        let ghost mut hs: Seq<T> = seq![*state];
        while self.recv_pos < self.recv_buf.len()
            invariant
                self.wf(),
                self.inbound() == old(self).inbound(),
                self.fd_queue() == old(self).fd_queue(),
                self.control_in() == old(self).control_in(),
                Self::spec_run_ends(cs, hs, *old(self), *old(state), *self, *state),
                cs.len() > 1 ==> old(self).spec_pending() && old(self).spec_fault() is None,
                forall|i: int|
                    #![trigger cs[i]]
                    0 <= i < cs.len() - 1 ==> (cs[i].spec_skipped(cs[i + 1]) && hs[i + 1] == hs[i])
                        || exists|mid: WaylandConnection, ev: Event, s: &mut T, k: &mut Session|
                        #[trigger] cs[i].spec_handled(mid, ev, s, k) && cs[i + 1].same_batch(mid)
                            && *s == hs[i] && *final(s) == hs[i + 1] && *final(k) == cs[i
                            + 1].session_view(),
            decreases self.inbound().len() - self.recv_pos(),
        {
            let ghost cs0 = cs;
            let ghost hs0 = hs;
            match self.dispatch_event(state) {
                Ok(()) => {
                    proof {
                        cs = cs0.push(*self);
                        hs = hs0.push(*state);
                        assert forall|i: int|
                            #![trigger cs[i]]
                            0 <= i < cs.len() - 1 implies (cs[i].spec_skipped(cs[i + 1]) && hs[i
                                + 1] == hs[i]) || exists|
                            mid: WaylandConnection,
                            ev: Event,
                            s: &mut T,
                            k: &mut Session,
                        |
                            #[trigger] cs[i].spec_handled(mid, ev, s, k) && cs[i + 1].same_batch(mid)
                                && *s == hs[i] && *final(s) == hs[i + 1] && *final(k) == cs[i
                                + 1].session_view() by {
                            if i < cs0.len() - 1 {
                                assert(cs[i] == cs0[i] && cs[i + 1] == cs0[i + 1]);
                                assert(hs[i] == hs0[i] && hs[i + 1] == hs0[i + 1]);
                            }
                        }
                    }
                },
                Err(e) => {
                    return Err(e);
                },
            }
        }
        Ok(())
    }
}

} // verus!
