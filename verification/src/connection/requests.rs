//! Queueing requests: allocate the new object, reserve the header, write
//! the arguments, patch the header.
use crate::connection::c_ffi::{fd_cmsg, fd_cmsg_space, lemma_fd_cmsg_len};
use crate::connection::{Session, CONTROL_CAPACITY, PAYLOAD_CAPACITY};
use crate::types::object::Object;
use crate::types::requests::Request;
use crate::types::MessageHeader;
use crate::wire::lemma_string_bytes;
use vstd::prelude::*;

verus! {

/// The control message that goes with a request: one for its file
/// descriptor, or nothing.
pub open spec fn fd_bytes(fd: Option<i32>) -> Seq<u8> {
    match fd {
        Some(fd) => fd_cmsg(fd),
        None => Seq::empty(),
    }
}

impl Session {
    /// Whether `req` can be queued: it is valid, its message and its
    /// control message fit in what is left of the buffers, and the
    /// registry has an id left if the request creates an object.
    pub open spec fn can_enqueue(&self, req: Request) -> bool {
        &&& req.spec_valid()
        &&& self.outbound().len() + req.spec_size() <= PAYLOAD_CAPACITY
        &&& self.ancillary().len() + fd_bytes(req.spec_fd()).len() <= CONTROL_CAPACITY
        &&& req.spec_new_object() is Some ==> self.registry().can_allocate()
    }

    /// The id that queueing `req` returns: the id of the object it
    /// creates, or 0 if it creates none.
    pub open spec fn new_id_for(&self, req: Request) -> u32 {
        if req.spec_new_object() is Some {
            self.registry().next_id()
        } else {
            0
        }
    }

    /// Whether `self` is `before` with `req` queued: its message behind
    /// the queue, its descriptor behind the control messages, its new
    /// object in the registry.
    pub open spec fn enqueued(&self, before: Session, req: Request) -> bool {
        &&& self.wf()
        &&& self.registry() == match req.spec_new_object() {
            Some(tag) => before.registry().allocate(tag),
            None => before.registry(),
        }
        &&& self.outbound() == before.outbound() + req.spec_message(before.new_id_for(req))
        &&& self.ancillary() == before.ancillary() + fd_bytes(req.spec_fd())
    }

    /// A request that creates an object, once queued, has bound a new id
    /// to the interface of that object: the id is not 0 and named no live
    /// object before, it names one of that interface afterwards, and every
    /// other id names what it named before. For `wl_registry.bind` the
    /// interface is the one its argument spells.
    pub proof fn lemma_new_object(before: Session, after: Session, req: Request)
        requires
            before.wf(),
            before.can_enqueue(req),
            after.enqueued(before, req),
            req.spec_new_object() is Some,
        ensures
            req.spec_new_object() != Some(Object::Null),
            req matches Request::WlRegistryBind { if_name, .. } ==> req.spec_new_object()
                == Object::spec_from_str(if_name@),
            before.new_id_for(req) != 0,
            !before.registry().is_live(before.new_id_for(req)),
            after.registry().lookup(before.new_id_for(req)) == req.spec_new_object(),
            forall|id: u32|
                id != before.new_id_for(req) ==> after.registry().lookup(id)
                    == before.registry().lookup(id),
    {
        reveal(Request::spec_new_object);
        crate::connection::registry::lemma_allocate(before.registry(), req.spec_new_object()->0);
    }

    /// Tests whether `req` can be queued.
    pub fn check_enqueue(&self, req: &Request) -> (ok: bool)
        requires
            self.wf(),
        ensures
            ok == self.can_enqueue(*req),
    {
        if !req.is_valid() {
            return false;
        }
        let size = match req.wire_size() {
            Some(n) => n,
            None => {
                return false;
            },
        };
        if size > self.payload_room() {
            return false;
        }
        if req.fd().is_some() {
            proof {
                lemma_fd_cmsg_len(req.spec_fd()->0);
            }
            if fd_cmsg_space() > self.control_room() {
                return false;
            }
        }
        if req.new_object().is_some() && !self.can_allocate() {
            return false;
        }
        true
    }

    /// What writing the arguments of `req` needs: room for them in the
    /// queue and room for its descriptor among the control messages.
    pub open spec fn has_room(&self, req: Request, new_id: u32) -> bool {
        &&& self.outbound().len() + req.spec_payload(new_id).len() <= PAYLOAD_CAPACITY
        &&& self.ancillary().len() + fd_bytes(req.spec_fd()).len() <= CONTROL_CAPACITY
    }

    /// Whether `self` is `before` with the arguments of `req` written.
    pub open spec fn payload_written(&self, before: Session, req: Request, new_id: u32) -> bool {
        &&& self.registry() == before.registry()
        &&& self.outbound() == before.outbound() + req.spec_payload(new_id)
        &&& self.ancillary() == before.ancillary() + fd_bytes(req.spec_fd())
    }

    /// Writes the arguments of `req` behind the queue and its file
    /// descriptor, if it has one, behind the control messages.
    fn write_payload(&mut self, req: &Request, new_id: u32)
        requires
            old(self).has_room(*req, new_id),
        ensures
            final(self).payload_written(*old(self), *req, new_id),
    {
        proof {
            reveal(Request::spec_interface);
        }
        match req.interface() {
            Object::ZwpLinuxDmabufV1 => self.write_zwp_linux_dmabuf_v1(req, new_id),
            Object::ZwpLinuxBufferParamsV1 => self.write_zwp_linux_buffer_params_v1(req, new_id),
            Object::ZwpLinuxDmabufFeedbackV1 => self.write_zwp_linux_dmabuf_feedback_v1(req, new_id),
            Object::XdgWmBase => self.write_xdg_wm_base(req, new_id),
            Object::XdgPositioner => self.write_xdg_positioner(req, new_id),
            Object::XdgSurface => self.write_xdg_surface(req, new_id),
            Object::XdgToplevel => self.write_xdg_toplevel(req, new_id),
            Object::XdgPopup => self.write_xdg_popup(req, new_id),
            Object::WlDisplay => self.write_wl_display(req, new_id),
            Object::WlRegistry => self.write_wl_registry(req, new_id),
            Object::WlCompositor => self.write_wl_compositor(req, new_id),
            Object::WlShmPool => self.write_wl_shm_pool(req, new_id),
            Object::WlShm => self.write_wl_shm(req, new_id),
            Object::WlBuffer => self.write_wl_buffer(req, new_id),
            Object::WlDataOffer => self.write_wl_data_offer(req, new_id),
            Object::WlDataSource => self.write_wl_data_source(req, new_id),
            Object::WlDataDevice => self.write_wl_data_device(req, new_id),
            Object::WlDataDeviceManager => self.write_wl_data_device_manager(req, new_id),
            Object::WlShell => self.write_wl_shell(req, new_id),
            Object::WlShellSurface => self.write_wl_shell_surface(req, new_id),
            Object::WlSurface => self.write_wl_surface(req, new_id),
            Object::WlSeat => self.write_wl_seat(req, new_id),
            Object::WlPointer => self.write_wl_pointer(req, new_id),
            Object::WlKeyboard => self.write_wl_keyboard(req, new_id),
            Object::WlTouch => self.write_wl_touch(req, new_id),
            Object::WlOutput => self.write_wl_output(req, new_id),
            Object::WlRegion => self.write_wl_region(req, new_id),
            Object::WlSubcompositor => self.write_wl_subcompositor(req, new_id),
            Object::WlSubsurface => self.write_wl_subsurface(req, new_id),
            _ => {},
        }
    }

    /// Writes the arguments of a request of `zwp_linux_dmabuf_v1`.
    fn write_zwp_linux_dmabuf_v1(&mut self, req: &Request, new_id: u32)
        requires
            req.spec_interface() == Object::ZwpLinuxDmabufV1,
            old(self).has_room(*req, new_id),
        ensures
            final(self).payload_written(*old(self), *req, new_id),
    {
        proof {
            reveal(Request::spec_interface);
            reveal(Request::spec_payload);
            reveal(Request::spec_fd);
        }
        match req {
            Request::ZwpLinuxDmabufV1Destroy { .. } => {
            },
            Request::ZwpLinuxDmabufV1CreateParams { .. } => {
                self.write_uint(new_id);
            },
            Request::ZwpLinuxDmabufV1GetDefaultFeedback { .. } => {
                self.write_uint(new_id);
            },
            Request::ZwpLinuxDmabufV1GetSurfaceFeedback { surface, .. } => {
                self.write_uint(new_id);
                self.write_uint(*surface);
            },
            _ => {},
        }
        assert(self.outbound() =~= old(self).outbound() + req.spec_payload(new_id));
        assert(self.ancillary() =~= old(self).ancillary() + fd_bytes(req.spec_fd()));
    }

    /// Writes the arguments of a request of `zwp_linux_buffer_params_v1`.
    fn write_zwp_linux_buffer_params_v1(&mut self, req: &Request, new_id: u32)
        requires
            req.spec_interface() == Object::ZwpLinuxBufferParamsV1,
            old(self).has_room(*req, new_id),
        ensures
            final(self).payload_written(*old(self), *req, new_id),
    {
        proof {
            reveal(Request::spec_interface);
            reveal(Request::spec_payload);
            reveal(Request::spec_fd);
        }
        match req {
            Request::ZwpLinuxBufferParamsV1Destroy { .. } => {
            },
            Request::ZwpLinuxBufferParamsV1Add { fd, plane_idx, offset, stride, modifier_hi, modifier_lo, .. } => {
                proof {
                    lemma_fd_cmsg_len(*fd);
                }
                self.write_fd(*fd);
                self.write_uint(*plane_idx);
                self.write_uint(*offset);
                self.write_uint(*stride);
                self.write_uint(*modifier_hi);
                self.write_uint(*modifier_lo);
            },
            Request::ZwpLinuxBufferParamsV1Create { width, height, format, flags, .. } => {
                self.write_int(*width);
                self.write_int(*height);
                self.write_uint(*format);
                self.write_uint(*flags);
            },
            Request::ZwpLinuxBufferParamsV1CreateImmed { width, height, format, flags, .. } => {
                self.write_uint(new_id);
                self.write_int(*width);
                self.write_int(*height);
                self.write_uint(*format);
                self.write_uint(*flags);
            },
            _ => {},
        }
        assert(self.outbound() =~= old(self).outbound() + req.spec_payload(new_id));
        assert(self.ancillary() =~= old(self).ancillary() + fd_bytes(req.spec_fd()));
    }

    /// Writes the arguments of a request of `zwp_linux_dmabuf_feedback_v1`.
    fn write_zwp_linux_dmabuf_feedback_v1(&mut self, req: &Request, new_id: u32)
        requires
            req.spec_interface() == Object::ZwpLinuxDmabufFeedbackV1,
            old(self).has_room(*req, new_id),
        ensures
            final(self).payload_written(*old(self), *req, new_id),
    {
        proof {
            reveal(Request::spec_interface);
            reveal(Request::spec_payload);
            reveal(Request::spec_fd);
        }
        match req {
            Request::ZwpLinuxDmabufFeedbackV1Destroy { .. } => {
            },
            _ => {},
        }
        assert(self.outbound() =~= old(self).outbound() + req.spec_payload(new_id));
        assert(self.ancillary() =~= old(self).ancillary() + fd_bytes(req.spec_fd()));
    }

    /// Writes the arguments of a request of `xdg_wm_base`.
    fn write_xdg_wm_base(&mut self, req: &Request, new_id: u32)
        requires
            req.spec_interface() == Object::XdgWmBase,
            old(self).has_room(*req, new_id),
        ensures
            final(self).payload_written(*old(self), *req, new_id),
    {
        proof {
            reveal(Request::spec_interface);
            reveal(Request::spec_payload);
            reveal(Request::spec_fd);
        }
        match req {
            Request::XdgWmBaseDestroy { .. } => {
            },
            Request::XdgWmBaseCreatePositioner { .. } => {
                self.write_uint(new_id);
            },
            Request::XdgWmBaseGetXdgSurface { surface, .. } => {
                self.write_uint(new_id);
                self.write_uint(*surface);
            },
            Request::XdgWmBasePong { serial, .. } => {
                self.write_uint(*serial);
            },
            _ => {},
        }
        assert(self.outbound() =~= old(self).outbound() + req.spec_payload(new_id));
        assert(self.ancillary() =~= old(self).ancillary() + fd_bytes(req.spec_fd()));
    }

    /// Writes the arguments of a request of `xdg_positioner`.
    fn write_xdg_positioner(&mut self, req: &Request, new_id: u32)
        requires
            req.spec_interface() == Object::XdgPositioner,
            old(self).has_room(*req, new_id),
        ensures
            final(self).payload_written(*old(self), *req, new_id),
    {
        proof {
            reveal(Request::spec_interface);
            reveal(Request::spec_payload);
            reveal(Request::spec_fd);
        }
        match req {
            Request::XdgPositionerDestroy { .. } => {
            },
            Request::XdgPositionerSetSize { width, height, .. } => {
                self.write_int(*width);
                self.write_int(*height);
            },
            Request::XdgPositionerSetAnchorRect { x, y, width, height, .. } => {
                self.write_int(*x);
                self.write_int(*y);
                self.write_int(*width);
                self.write_int(*height);
            },
            Request::XdgPositionerSetAnchor { anchor, .. } => {
                self.write_uint(*anchor);
            },
            Request::XdgPositionerSetGravity { gravity, .. } => {
                self.write_uint(*gravity);
            },
            Request::XdgPositionerSetConstraintAdjustment { constraint_adjustment, .. } => {
                self.write_uint(*constraint_adjustment);
            },
            Request::XdgPositionerSetOffset { x, y, .. } => {
                self.write_int(*x);
                self.write_int(*y);
            },
            Request::XdgPositionerSetReactive { .. } => {
            },
            Request::XdgPositionerSetParentSize { parent_width, parent_height, .. } => {
                self.write_int(*parent_width);
                self.write_int(*parent_height);
            },
            Request::XdgPositionerSetParentConfigure { serial, .. } => {
                self.write_uint(*serial);
            },
            _ => {},
        }
        assert(self.outbound() =~= old(self).outbound() + req.spec_payload(new_id));
        assert(self.ancillary() =~= old(self).ancillary() + fd_bytes(req.spec_fd()));
    }

    /// Writes the arguments of a request of `xdg_surface`.
    fn write_xdg_surface(&mut self, req: &Request, new_id: u32)
        requires
            req.spec_interface() == Object::XdgSurface,
            old(self).has_room(*req, new_id),
        ensures
            final(self).payload_written(*old(self), *req, new_id),
    {
        proof {
            reveal(Request::spec_interface);
            reveal(Request::spec_payload);
            reveal(Request::spec_fd);
        }
        match req {
            Request::XdgSurfaceDestroy { .. } => {
            },
            Request::XdgSurfaceGetToplevel { .. } => {
                self.write_uint(new_id);
            },
            Request::XdgSurfaceGetPopup { parent, positioner, .. } => {
                self.write_uint(new_id);
                self.write_uint(*parent);
                self.write_uint(*positioner);
            },
            Request::XdgSurfaceSetWindowGeometry { x, y, width, height, .. } => {
                self.write_int(*x);
                self.write_int(*y);
                self.write_int(*width);
                self.write_int(*height);
            },
            Request::XdgSurfaceAckConfigure { serial, .. } => {
                self.write_uint(*serial);
            },
            _ => {},
        }
        assert(self.outbound() =~= old(self).outbound() + req.spec_payload(new_id));
        assert(self.ancillary() =~= old(self).ancillary() + fd_bytes(req.spec_fd()));
    }

    /// Writes the arguments of a request of `xdg_toplevel`.
    fn write_xdg_toplevel(&mut self, req: &Request, new_id: u32)
        requires
            req.spec_interface() == Object::XdgToplevel,
            old(self).has_room(*req, new_id),
        ensures
            final(self).payload_written(*old(self), *req, new_id),
    {
        proof {
            reveal(Request::spec_interface);
            reveal(Request::spec_payload);
            reveal(Request::spec_fd);
        }
        match req {
            Request::XdgToplevelDestroy { .. } => {
            },
            Request::XdgToplevelSetParent { parent, .. } => {
                self.write_uint(*parent);
            },
            Request::XdgToplevelSetTitle { title, .. } => {
                proof {
                    lemma_string_bytes(title@);
                }
                self.write_string(title.as_str());
            },
            Request::XdgToplevelSetAppId { app_id, .. } => {
                proof {
                    lemma_string_bytes(app_id@);
                }
                self.write_string(app_id.as_str());
            },
            Request::XdgToplevelShowWindowMenu { seat, serial, x, y, .. } => {
                self.write_uint(*seat);
                self.write_uint(*serial);
                self.write_int(*x);
                self.write_int(*y);
            },
            Request::XdgToplevelMove { seat, serial, .. } => {
                self.write_uint(*seat);
                self.write_uint(*serial);
            },
            Request::XdgToplevelResize { seat, serial, edges, .. } => {
                self.write_uint(*seat);
                self.write_uint(*serial);
                self.write_uint(*edges);
            },
            Request::XdgToplevelSetMaxSize { width, height, .. } => {
                self.write_int(*width);
                self.write_int(*height);
            },
            Request::XdgToplevelSetMinSize { width, height, .. } => {
                self.write_int(*width);
                self.write_int(*height);
            },
            Request::XdgToplevelSetMaximized { .. } => {
            },
            Request::XdgToplevelUnsetMaximized { .. } => {
            },
            Request::XdgToplevelSetFullscreen { output, .. } => {
                self.write_uint(*output);
            },
            Request::XdgToplevelUnsetFullscreen { .. } => {
            },
            Request::XdgToplevelSetMinimized { .. } => {
            },
            _ => {},
        }
        assert(self.outbound() =~= old(self).outbound() + req.spec_payload(new_id));
        assert(self.ancillary() =~= old(self).ancillary() + fd_bytes(req.spec_fd()));
    }

    /// Writes the arguments of a request of `xdg_popup`.
    fn write_xdg_popup(&mut self, req: &Request, new_id: u32)
        requires
            req.spec_interface() == Object::XdgPopup,
            old(self).has_room(*req, new_id),
        ensures
            final(self).payload_written(*old(self), *req, new_id),
    {
        proof {
            reveal(Request::spec_interface);
            reveal(Request::spec_payload);
            reveal(Request::spec_fd);
        }
        match req {
            Request::XdgPopupDestroy { .. } => {
            },
            Request::XdgPopupGrab { seat, serial, .. } => {
                self.write_uint(*seat);
                self.write_uint(*serial);
            },
            Request::XdgPopupReposition { positioner, token, .. } => {
                self.write_uint(*positioner);
                self.write_uint(*token);
            },
            _ => {},
        }
        assert(self.outbound() =~= old(self).outbound() + req.spec_payload(new_id));
        assert(self.ancillary() =~= old(self).ancillary() + fd_bytes(req.spec_fd()));
    }

    /// Writes the arguments of a request of `wl_display`.
    fn write_wl_display(&mut self, req: &Request, new_id: u32)
        requires
            req.spec_interface() == Object::WlDisplay,
            old(self).has_room(*req, new_id),
        ensures
            final(self).payload_written(*old(self), *req, new_id),
    {
        proof {
            reveal(Request::spec_interface);
            reveal(Request::spec_payload);
            reveal(Request::spec_fd);
        }
        match req {
            Request::WlDisplaySync { .. } => {
                self.write_uint(new_id);
            },
            Request::WlDisplayGetRegistry { .. } => {
                self.write_uint(new_id);
            },
            _ => {},
        }
        assert(self.outbound() =~= old(self).outbound() + req.spec_payload(new_id));
        assert(self.ancillary() =~= old(self).ancillary() + fd_bytes(req.spec_fd()));
    }

    /// Writes the arguments of a request of `wl_registry`.
    fn write_wl_registry(&mut self, req: &Request, new_id: u32)
        requires
            req.spec_interface() == Object::WlRegistry,
            old(self).has_room(*req, new_id),
        ensures
            final(self).payload_written(*old(self), *req, new_id),
    {
        proof {
            reveal(Request::spec_interface);
            reveal(Request::spec_payload);
            reveal(Request::spec_fd);
        }
        match req {
            Request::WlRegistryBind { name, if_name, if_version, .. } => {
                self.write_uint(*name);
                proof {
                    lemma_string_bytes(if_name@);
                }
                self.write_string(if_name.as_str());
                self.write_uint(*if_version);
                self.write_uint(new_id);
            },
            _ => {},
        }
        assert(self.outbound() =~= old(self).outbound() + req.spec_payload(new_id));
        assert(self.ancillary() =~= old(self).ancillary() + fd_bytes(req.spec_fd()));
    }

    /// Writes the arguments of a request of `wl_compositor`.
    fn write_wl_compositor(&mut self, req: &Request, new_id: u32)
        requires
            req.spec_interface() == Object::WlCompositor,
            old(self).has_room(*req, new_id),
        ensures
            final(self).payload_written(*old(self), *req, new_id),
    {
        proof {
            reveal(Request::spec_interface);
            reveal(Request::spec_payload);
            reveal(Request::spec_fd);
        }
        match req {
            Request::WlCompositorCreateSurface { .. } => {
                self.write_uint(new_id);
            },
            Request::WlCompositorCreateRegion { .. } => {
                self.write_uint(new_id);
            },
            _ => {},
        }
        assert(self.outbound() =~= old(self).outbound() + req.spec_payload(new_id));
        assert(self.ancillary() =~= old(self).ancillary() + fd_bytes(req.spec_fd()));
    }

    /// Writes the arguments of a request of `wl_shm_pool`.
    fn write_wl_shm_pool(&mut self, req: &Request, new_id: u32)
        requires
            req.spec_interface() == Object::WlShmPool,
            old(self).has_room(*req, new_id),
        ensures
            final(self).payload_written(*old(self), *req, new_id),
    {
        proof {
            reveal(Request::spec_interface);
            reveal(Request::spec_payload);
            reveal(Request::spec_fd);
        }
        match req {
            Request::WlShmPoolCreateBuffer { offset, width, height, stride, format, .. } => {
                self.write_uint(new_id);
                self.write_int(*offset);
                self.write_int(*width);
                self.write_int(*height);
                self.write_int(*stride);
                self.write_uint(*format);
            },
            Request::WlShmPoolDestroy { .. } => {
            },
            Request::WlShmPoolResize { size, .. } => {
                self.write_int(*size);
            },
            _ => {},
        }
        assert(self.outbound() =~= old(self).outbound() + req.spec_payload(new_id));
        assert(self.ancillary() =~= old(self).ancillary() + fd_bytes(req.spec_fd()));
    }

    /// Writes the arguments of a request of `wl_shm`.
    fn write_wl_shm(&mut self, req: &Request, new_id: u32)
        requires
            req.spec_interface() == Object::WlShm,
            old(self).has_room(*req, new_id),
        ensures
            final(self).payload_written(*old(self), *req, new_id),
    {
        proof {
            reveal(Request::spec_interface);
            reveal(Request::spec_payload);
            reveal(Request::spec_fd);
        }
        match req {
            Request::WlShmCreatePool { fd, size, .. } => {
                self.write_uint(new_id);
                proof {
                    lemma_fd_cmsg_len(*fd);
                }
                self.write_fd(*fd);
                self.write_int(*size);
            },
            _ => {},
        }
        assert(self.outbound() =~= old(self).outbound() + req.spec_payload(new_id));
        assert(self.ancillary() =~= old(self).ancillary() + fd_bytes(req.spec_fd()));
    }

    /// Writes the arguments of a request of `wl_buffer`.
    fn write_wl_buffer(&mut self, req: &Request, new_id: u32)
        requires
            req.spec_interface() == Object::WlBuffer,
            old(self).has_room(*req, new_id),
        ensures
            final(self).payload_written(*old(self), *req, new_id),
    {
        proof {
            reveal(Request::spec_interface);
            reveal(Request::spec_payload);
            reveal(Request::spec_fd);
        }
        match req {
            Request::WlBufferDestroy { .. } => {
            },
            _ => {},
        }
        assert(self.outbound() =~= old(self).outbound() + req.spec_payload(new_id));
        assert(self.ancillary() =~= old(self).ancillary() + fd_bytes(req.spec_fd()));
    }

    /// Writes the arguments of a request of `wl_data_offer`.
    fn write_wl_data_offer(&mut self, req: &Request, new_id: u32)
        requires
            req.spec_interface() == Object::WlDataOffer,
            old(self).has_room(*req, new_id),
        ensures
            final(self).payload_written(*old(self), *req, new_id),
    {
        proof {
            reveal(Request::spec_interface);
            reveal(Request::spec_payload);
            reveal(Request::spec_fd);
        }
        match req {
            Request::WlDataOfferAccept { serial, mime_type, .. } => {
                self.write_uint(*serial);
                proof {
                    lemma_string_bytes(mime_type@);
                }
                self.write_string(mime_type.as_str());
            },
            Request::WlDataOfferReceive { mime_type, fd, .. } => {
                proof {
                    lemma_string_bytes(mime_type@);
                }
                self.write_string(mime_type.as_str());
                proof {
                    lemma_fd_cmsg_len(*fd);
                }
                self.write_fd(*fd);
            },
            Request::WlDataOfferDestroy { .. } => {
            },
            Request::WlDataOfferFinish { .. } => {
            },
            Request::WlDataOfferSetActions { dnd_actions, preferred_action, .. } => {
                self.write_uint(*dnd_actions);
                self.write_uint(*preferred_action);
            },
            _ => {},
        }
        assert(self.outbound() =~= old(self).outbound() + req.spec_payload(new_id));
        assert(self.ancillary() =~= old(self).ancillary() + fd_bytes(req.spec_fd()));
    }

    /// Writes the arguments of a request of `wl_data_source`.
    fn write_wl_data_source(&mut self, req: &Request, new_id: u32)
        requires
            req.spec_interface() == Object::WlDataSource,
            old(self).has_room(*req, new_id),
        ensures
            final(self).payload_written(*old(self), *req, new_id),
    {
        proof {
            reveal(Request::spec_interface);
            reveal(Request::spec_payload);
            reveal(Request::spec_fd);
        }
        match req {
            Request::WlDataSourceOffer { mime_type, .. } => {
                proof {
                    lemma_string_bytes(mime_type@);
                }
                self.write_string(mime_type.as_str());
            },
            Request::WlDataSourceDestroy { .. } => {
            },
            Request::WlDataSourceSetActions { dnd_actions, .. } => {
                self.write_uint(*dnd_actions);
            },
            _ => {},
        }
        assert(self.outbound() =~= old(self).outbound() + req.spec_payload(new_id));
        assert(self.ancillary() =~= old(self).ancillary() + fd_bytes(req.spec_fd()));
    }

    /// Writes the arguments of a request of `wl_data_device`.
    fn write_wl_data_device(&mut self, req: &Request, new_id: u32)
        requires
            req.spec_interface() == Object::WlDataDevice,
            old(self).has_room(*req, new_id),
        ensures
            final(self).payload_written(*old(self), *req, new_id),
    {
        proof {
            reveal(Request::spec_interface);
            reveal(Request::spec_payload);
            reveal(Request::spec_fd);
        }
        match req {
            Request::WlDataDeviceStartDrag { source, origin, icon, serial, .. } => {
                self.write_uint(*source);
                self.write_uint(*origin);
                self.write_uint(*icon);
                self.write_uint(*serial);
            },
            Request::WlDataDeviceSetSelection { source, serial, .. } => {
                self.write_uint(*source);
                self.write_uint(*serial);
            },
            Request::WlDataDeviceRelease { .. } => {
            },
            _ => {},
        }
        assert(self.outbound() =~= old(self).outbound() + req.spec_payload(new_id));
        assert(self.ancillary() =~= old(self).ancillary() + fd_bytes(req.spec_fd()));
    }

    /// Writes the arguments of a request of `wl_data_device_manager`.
    fn write_wl_data_device_manager(&mut self, req: &Request, new_id: u32)
        requires
            req.spec_interface() == Object::WlDataDeviceManager,
            old(self).has_room(*req, new_id),
        ensures
            final(self).payload_written(*old(self), *req, new_id),
    {
        proof {
            reveal(Request::spec_interface);
            reveal(Request::spec_payload);
            reveal(Request::spec_fd);
        }
        match req {
            Request::WlDataDeviceManagerCreateDataSource { .. } => {
                self.write_uint(new_id);
            },
            Request::WlDataDeviceManagerGetDataDevice { seat, .. } => {
                self.write_uint(new_id);
                self.write_uint(*seat);
            },
            _ => {},
        }
        assert(self.outbound() =~= old(self).outbound() + req.spec_payload(new_id));
        assert(self.ancillary() =~= old(self).ancillary() + fd_bytes(req.spec_fd()));
    }

    /// Writes the arguments of a request of `wl_shell`.
    fn write_wl_shell(&mut self, req: &Request, new_id: u32)
        requires
            req.spec_interface() == Object::WlShell,
            old(self).has_room(*req, new_id),
        ensures
            final(self).payload_written(*old(self), *req, new_id),
    {
        proof {
            reveal(Request::spec_interface);
            reveal(Request::spec_payload);
            reveal(Request::spec_fd);
        }
        match req {
            Request::WlShellGetShellSurface { surface, .. } => {
                self.write_uint(new_id);
                self.write_uint(*surface);
            },
            _ => {},
        }
        assert(self.outbound() =~= old(self).outbound() + req.spec_payload(new_id));
        assert(self.ancillary() =~= old(self).ancillary() + fd_bytes(req.spec_fd()));
    }

    /// Writes the arguments of a request of `wl_shell_surface`.
    fn write_wl_shell_surface(&mut self, req: &Request, new_id: u32)
        requires
            req.spec_interface() == Object::WlShellSurface,
            old(self).has_room(*req, new_id),
        ensures
            final(self).payload_written(*old(self), *req, new_id),
    {
        proof {
            reveal(Request::spec_interface);
            reveal(Request::spec_payload);
            reveal(Request::spec_fd);
        }
        match req {
            Request::WlShellSurfacePong { serial, .. } => {
                self.write_uint(*serial);
            },
            Request::WlShellSurfaceMove { seat, serial, .. } => {
                self.write_uint(*seat);
                self.write_uint(*serial);
            },
            Request::WlShellSurfaceResize { seat, serial, edges, .. } => {
                self.write_uint(*seat);
                self.write_uint(*serial);
                self.write_uint(*edges);
            },
            Request::WlShellSurfaceSetToplevel { .. } => {
            },
            Request::WlShellSurfaceSetTransient { parent, x, y, flags, .. } => {
                self.write_uint(*parent);
                self.write_int(*x);
                self.write_int(*y);
                self.write_uint(*flags);
            },
            Request::WlShellSurfaceSetFullscreen { method, framerate, output, .. } => {
                self.write_uint(*method);
                self.write_uint(*framerate);
                self.write_uint(*output);
            },
            Request::WlShellSurfaceSetPopup { seat, serial, parent, x, y, flags, .. } => {
                self.write_uint(*seat);
                self.write_uint(*serial);
                self.write_uint(*parent);
                self.write_int(*x);
                self.write_int(*y);
                self.write_uint(*flags);
            },
            Request::WlShellSurfaceSetMaximized { output, .. } => {
                self.write_uint(*output);
            },
            Request::WlShellSurfaceSetTitle { title, .. } => {
                proof {
                    lemma_string_bytes(title@);
                }
                self.write_string(title.as_str());
            },
            Request::WlShellSurfaceSetClass { class_, .. } => {
                proof {
                    lemma_string_bytes(class_@);
                }
                self.write_string(class_.as_str());
            },
            _ => {},
        }
        assert(self.outbound() =~= old(self).outbound() + req.spec_payload(new_id));
        assert(self.ancillary() =~= old(self).ancillary() + fd_bytes(req.spec_fd()));
    }

    /// Writes the arguments of a request of `wl_surface`.
    fn write_wl_surface(&mut self, req: &Request, new_id: u32)
        requires
            req.spec_interface() == Object::WlSurface,
            old(self).has_room(*req, new_id),
        ensures
            final(self).payload_written(*old(self), *req, new_id),
    {
        proof {
            reveal(Request::spec_interface);
            reveal(Request::spec_payload);
            reveal(Request::spec_fd);
        }
        match req {
            Request::WlSurfaceDestroy { .. } => {
            },
            Request::WlSurfaceAttach { buffer, x, y, .. } => {
                self.write_uint(*buffer);
                self.write_int(*x);
                self.write_int(*y);
            },
            Request::WlSurfaceDamage { x, y, width, height, .. } => {
                self.write_int(*x);
                self.write_int(*y);
                self.write_int(*width);
                self.write_int(*height);
            },
            Request::WlSurfaceFrame { .. } => {
                self.write_uint(new_id);
            },
            Request::WlSurfaceSetOpaqueRegion { region, .. } => {
                self.write_uint(*region);
            },
            Request::WlSurfaceSetInputRegion { region, .. } => {
                self.write_uint(*region);
            },
            Request::WlSurfaceCommit { .. } => {
            },
            Request::WlSurfaceSetBufferTransform { transform, .. } => {
                self.write_int(*transform);
            },
            Request::WlSurfaceSetBufferScale { scale, .. } => {
                self.write_int(*scale);
            },
            Request::WlSurfaceDamageBuffer { x, y, width, height, .. } => {
                self.write_int(*x);
                self.write_int(*y);
                self.write_int(*width);
                self.write_int(*height);
            },
            Request::WlSurfaceOffset { x, y, .. } => {
                self.write_int(*x);
                self.write_int(*y);
            },
            _ => {},
        }
        assert(self.outbound() =~= old(self).outbound() + req.spec_payload(new_id));
        assert(self.ancillary() =~= old(self).ancillary() + fd_bytes(req.spec_fd()));
    }

    /// Writes the arguments of a request of `wl_seat`.
    fn write_wl_seat(&mut self, req: &Request, new_id: u32)
        requires
            req.spec_interface() == Object::WlSeat,
            old(self).has_room(*req, new_id),
        ensures
            final(self).payload_written(*old(self), *req, new_id),
    {
        proof {
            reveal(Request::spec_interface);
            reveal(Request::spec_payload);
            reveal(Request::spec_fd);
        }
        match req {
            Request::WlSeatGetPointer { .. } => {
                self.write_uint(new_id);
            },
            Request::WlSeatGetKeyboard { .. } => {
                self.write_uint(new_id);
            },
            Request::WlSeatGetTouch { .. } => {
                self.write_uint(new_id);
            },
            Request::WlSeatRelease { .. } => {
            },
            _ => {},
        }
        assert(self.outbound() =~= old(self).outbound() + req.spec_payload(new_id));
        assert(self.ancillary() =~= old(self).ancillary() + fd_bytes(req.spec_fd()));
    }

    /// Writes the arguments of a request of `wl_pointer`.
    fn write_wl_pointer(&mut self, req: &Request, new_id: u32)
        requires
            req.spec_interface() == Object::WlPointer,
            old(self).has_room(*req, new_id),
        ensures
            final(self).payload_written(*old(self), *req, new_id),
    {
        proof {
            reveal(Request::spec_interface);
            reveal(Request::spec_payload);
            reveal(Request::spec_fd);
        }
        match req {
            Request::WlPointerSetCursor { serial, surface, hotspot_x, hotspot_y, .. } => {
                self.write_uint(*serial);
                self.write_uint(*surface);
                self.write_int(*hotspot_x);
                self.write_int(*hotspot_y);
            },
            Request::WlPointerRelease { .. } => {
            },
            _ => {},
        }
        assert(self.outbound() =~= old(self).outbound() + req.spec_payload(new_id));
        assert(self.ancillary() =~= old(self).ancillary() + fd_bytes(req.spec_fd()));
    }

    /// Writes the arguments of a request of `wl_keyboard`.
    fn write_wl_keyboard(&mut self, req: &Request, new_id: u32)
        requires
            req.spec_interface() == Object::WlKeyboard,
            old(self).has_room(*req, new_id),
        ensures
            final(self).payload_written(*old(self), *req, new_id),
    {
        proof {
            reveal(Request::spec_interface);
            reveal(Request::spec_payload);
            reveal(Request::spec_fd);
        }
        match req {
            Request::WlKeyboardRelease { .. } => {
            },
            _ => {},
        }
        assert(self.outbound() =~= old(self).outbound() + req.spec_payload(new_id));
        assert(self.ancillary() =~= old(self).ancillary() + fd_bytes(req.spec_fd()));
    }

    /// Writes the arguments of a request of `wl_touch`.
    fn write_wl_touch(&mut self, req: &Request, new_id: u32)
        requires
            req.spec_interface() == Object::WlTouch,
            old(self).has_room(*req, new_id),
        ensures
            final(self).payload_written(*old(self), *req, new_id),
    {
        proof {
            reveal(Request::spec_interface);
            reveal(Request::spec_payload);
            reveal(Request::spec_fd);
        }
        match req {
            Request::WlTouchRelease { .. } => {
            },
            _ => {},
        }
        assert(self.outbound() =~= old(self).outbound() + req.spec_payload(new_id));
        assert(self.ancillary() =~= old(self).ancillary() + fd_bytes(req.spec_fd()));
    }

    /// Writes the arguments of a request of `wl_output`.
    fn write_wl_output(&mut self, req: &Request, new_id: u32)
        requires
            req.spec_interface() == Object::WlOutput,
            old(self).has_room(*req, new_id),
        ensures
            final(self).payload_written(*old(self), *req, new_id),
    {
        proof {
            reveal(Request::spec_interface);
            reveal(Request::spec_payload);
            reveal(Request::spec_fd);
        }
        match req {
            Request::WlOutputRelease { .. } => {
            },
            _ => {},
        }
        assert(self.outbound() =~= old(self).outbound() + req.spec_payload(new_id));
        assert(self.ancillary() =~= old(self).ancillary() + fd_bytes(req.spec_fd()));
    }

    /// Writes the arguments of a request of `wl_region`.
    fn write_wl_region(&mut self, req: &Request, new_id: u32)
        requires
            req.spec_interface() == Object::WlRegion,
            old(self).has_room(*req, new_id),
        ensures
            final(self).payload_written(*old(self), *req, new_id),
    {
        proof {
            reveal(Request::spec_interface);
            reveal(Request::spec_payload);
            reveal(Request::spec_fd);
        }
        match req {
            Request::WlRegionDestroy { .. } => {
            },
            Request::WlRegionAdd { x, y, width, height, .. } => {
                self.write_int(*x);
                self.write_int(*y);
                self.write_int(*width);
                self.write_int(*height);
            },
            Request::WlRegionSubtract { x, y, width, height, .. } => {
                self.write_int(*x);
                self.write_int(*y);
                self.write_int(*width);
                self.write_int(*height);
            },
            _ => {},
        }
        assert(self.outbound() =~= old(self).outbound() + req.spec_payload(new_id));
        assert(self.ancillary() =~= old(self).ancillary() + fd_bytes(req.spec_fd()));
    }

    /// Writes the arguments of a request of `wl_subcompositor`.
    fn write_wl_subcompositor(&mut self, req: &Request, new_id: u32)
        requires
            req.spec_interface() == Object::WlSubcompositor,
            old(self).has_room(*req, new_id),
        ensures
            final(self).payload_written(*old(self), *req, new_id),
    {
        proof {
            reveal(Request::spec_interface);
            reveal(Request::spec_payload);
            reveal(Request::spec_fd);
        }
        match req {
            Request::WlSubcompositorDestroy { .. } => {
            },
            Request::WlSubcompositorGetSubsurface { surface, parent, .. } => {
                self.write_uint(new_id);
                self.write_uint(*surface);
                self.write_uint(*parent);
            },
            _ => {},
        }
        assert(self.outbound() =~= old(self).outbound() + req.spec_payload(new_id));
        assert(self.ancillary() =~= old(self).ancillary() + fd_bytes(req.spec_fd()));
    }

    /// Writes the arguments of a request of `wl_subsurface`.
    fn write_wl_subsurface(&mut self, req: &Request, new_id: u32)
        requires
            req.spec_interface() == Object::WlSubsurface,
            old(self).has_room(*req, new_id),
        ensures
            final(self).payload_written(*old(self), *req, new_id),
    {
        proof {
            reveal(Request::spec_interface);
            reveal(Request::spec_payload);
            reveal(Request::spec_fd);
        }
        match req {
            Request::WlSubsurfaceDestroy { .. } => {
            },
            Request::WlSubsurfaceSetPosition { x, y, .. } => {
                self.write_int(*x);
                self.write_int(*y);
            },
            Request::WlSubsurfacePlaceAbove { sibling, .. } => {
                self.write_uint(*sibling);
            },
            Request::WlSubsurfacePlaceBelow { sibling, .. } => {
                self.write_uint(*sibling);
            },
            Request::WlSubsurfaceSetSync { .. } => {
            },
            Request::WlSubsurfaceSetDesync { .. } => {
            },
            _ => {},
        }
        assert(self.outbound() =~= old(self).outbound() + req.spec_payload(new_id));
        assert(self.ancillary() =~= old(self).ancillary() + fd_bytes(req.spec_fd()));
    }

    /// Queues `req` for the next send and returns the id of the object it
    /// creates, or 0 if it creates none.
    pub fn enqueue(&mut self, req: Request) -> (new_id: u32)
        requires
            old(self).wf(),
            old(self).can_enqueue(req),
        ensures
            final(self).enqueued(*old(self), req),
            new_id == old(self).new_id_for(req),
    {
        // No object has the id 0, so 0 is what a request that creates
        // nothing returns.
        let new_id: u32 = match req.new_object() {
            Some(tag) => self.allocate_id(tag),
            None => 0,
        };
        proof {
            req.lemma_message_len(new_id);
        }
        let hdr_pos = self.reserve_header();
        self.write_payload(&req, new_id);
        let room = self.payload_room();
        let hdr = MessageHeader {
            obj_id: req.sendto(),
            opcode: req.opcode(),
            len: (PAYLOAD_CAPACITY - room - hdr_pos) as u16,
        };
        self.write_header(hdr, hdr_pos);
        assert(self.outbound() =~= old(self).outbound() + req.spec_message(new_id));
        new_id
    }
}

} // verus!
