//! The closed set of interfaces and the typed handles of their objects.
use crate::connection::Session;
use crate::types::requests::Request;
use crate::types::Id;
use crate::wire::str_eq;
use vstd::prelude::*;

verus! {

/// The interface of an object, or `Null` for a slot that holds none.
#[derive(Debug, Clone, Copy, PartialEq, Eq, Structural)]
pub enum Object {
    /// No object: what slot 0 and every freed slot hold.
    Null,
    /// The xdg_wm_base interface is exposed as a global object enabling clients
    /// to turn their wl_surfaces into windows in a desktop environment.
    XdgWmBase,
    /// The xdg_positioner provides a collection of rules for the placement of a
    /// child surface relative to a parent surface.
    XdgPositioner,
    /// An interface that may be implemented by a wl_surface, for
    /// implementations that provide a desktop-style user interface.
    XdgSurface,
    /// This interface defines an xdg_surface role which allows a surface to,
    /// among other things, set window-like properties such as maximize,
    /// fullscreen, and minimize, set application-specific metadata like title
    /// and id, and well as trigger user interactive operations such as
    /// interactive resize and move.
    XdgToplevel,
    /// A popup surface is a short-lived, temporary surface. It can be used to
    /// implement for example menus, popovers, tooltips and other similar user
    /// interface concepts.
    XdgPopup,
    /// The core global object. This is a special singleton object. It is used
    /// for internal Wayland protocol features.
    WlDisplay,
    /// The callback of a `wl_display.sync` request.
    WlDisplaySyncCallback,
    /// The singleton global registry object. The server has a number of global
    /// objects that are available to all clients.
    WlRegistry,
    /// A compositor. This object is a singleton global. The compositor is in
    /// charge of combining the contents of multiple surfaces into one
    /// displayable output.
    WlCompositor,
    /// The wl_shm_pool object encapsulates a piece of memory shared between the
    /// compositor and client. Through the wl_shm_pool object, the client can
    /// allocate shared memory wl_buffer objects.
    WlShmPool,
    /// A singleton global object that provides support for shared memory.
    WlShm,
    /// A buffer provides the content for a wl_surface. Buffers are created
    /// through factory interfaces such as wl_shm, wp_linux_buffer_params (from
    /// the linux-dmabuf protocol extension) or similar.
    WlBuffer,
    /// A wl_data_offer represents a piece of data offered for transfer by
    /// another client (the source client). It is used by the copy-and-paste and
    /// drag-and-drop mechanisms.
    WlDataOffer,
    /// The wl_data_source object is the source side of a wl_data_offer.
    WlDataSource,
    /// There is one wl_data_device per seat which can be obtained from the
    /// global wl_data_device_manager singleton.
    WlDataDevice,
    /// The wl_data_device_manager is a singleton global object that provides
    /// access to inter-client data transfer mechanisms such as copy-and-paste
    /// and drag-and-drop.
    WlDataDeviceManager,
    /// This interface is implemented by servers that provide desktop-style user
    /// interfaces.
    WlShell,
    /// An interface that may be implemented by a wl_surface, for
    /// implementations that provide a desktop-style user interface.
    WlShellSurface,
    /// A surface is a rectangular area that may be displayed on zero or more
    /// outputs, and shown any number of times at the compositor's discretion.
    WlSurface,
    /// The callback of a `wl_surface.frame` request.
    WlSurfaceFrameCallback,
    /// A seat is a group of keyboards, pointer and touch devices. This object
    /// is published as a global during start up, or when such a device is hot
    /// plugged.
    WlSeat,
    /// The wl_pointer interface represents one or more input devices, such as
    /// mice, which control the pointer location and pointer_focus of a seat.
    WlPointer,
    /// The wl_keyboard interface represents one or more keyboards associated
    /// with a seat.
    WlKeyboard,
    /// The wl_touch interface represents a touchscreen associated with a seat.
    WlTouch,
    /// An output describes part of the compositor geometry. The compositor
    /// works in the 'compositor coordinate system' and an output corresponds to
    /// a rectangular area in that space that is actually visible.
    WlOutput,
    /// A region object describes an area.
    WlRegion,
    /// The global interface exposing sub-surface compositing capabilities. A
    /// wl_surface, that has sub-surfaces associated, is called the parent
    /// surface.
    WlSubcompositor,
    /// An additional interface to a wl_surface object, which has been made a
    /// sub-surface. A sub-surface has one parent surface. A sub-surface's size
    /// and position are not limited to that of the parent.
    WlSubsurface,
    /// Factory for buffers backed by dmabufs.
    ZwpLinuxDmabufV1,
    /// Collects the planes of one dmabuf-backed buffer before it is created.
    ZwpLinuxBufferParamsV1,
    /// Reports which formats and devices suit dmabuf buffers.
    ZwpLinuxDmabufFeedbackV1,
}

impl Object {
    /// The interface that goes by the protocol name `s`, if there is one.
    pub open spec fn spec_from_str(s: Seq<char>) -> Option<Object> {
        if s == "xdg_wm_base"@ {
            Some(Object::XdgWmBase)
        } else if s == "xdg_positioner"@ {
            Some(Object::XdgPositioner)
        } else if s == "xdg_surface"@ {
            Some(Object::XdgSurface)
        } else if s == "xdg_toplevel"@ {
            Some(Object::XdgToplevel)
        } else if s == "xdg_popup"@ {
            Some(Object::XdgPopup)
        } else if s == "wl_display"@ {
            Some(Object::WlDisplay)
        } else if s == "wl_registry"@ {
            Some(Object::WlRegistry)
        } else if s == "wl_compositor"@ {
            Some(Object::WlCompositor)
        } else if s == "wl_shm_pool"@ {
            Some(Object::WlShmPool)
        } else if s == "wl_shm"@ {
            Some(Object::WlShm)
        } else if s == "wl_buffer"@ {
            Some(Object::WlBuffer)
        } else if s == "wl_data_offer"@ {
            Some(Object::WlDataOffer)
        } else if s == "wl_data_source"@ {
            Some(Object::WlDataSource)
        } else if s == "wl_data_device"@ {
            Some(Object::WlDataDevice)
        } else if s == "wl_data_device_manager"@ {
            Some(Object::WlDataDeviceManager)
        } else if s == "wl_shell"@ {
            Some(Object::WlShell)
        } else if s == "wl_shell_surface"@ {
            Some(Object::WlShellSurface)
        } else if s == "wl_surface"@ {
            Some(Object::WlSurface)
        } else if s == "wl_seat"@ {
            Some(Object::WlSeat)
        } else if s == "wl_pointer"@ {
            Some(Object::WlPointer)
        } else if s == "wl_keyboard"@ {
            Some(Object::WlKeyboard)
        } else if s == "wl_touch"@ {
            Some(Object::WlTouch)
        } else if s == "wl_output"@ {
            Some(Object::WlOutput)
        } else if s == "wl_region"@ {
            Some(Object::WlRegion)
        } else if s == "wl_subcompositor"@ {
            Some(Object::WlSubcompositor)
        } else if s == "wl_subsurface"@ {
            Some(Object::WlSubsurface)
        } else if s == "zwp_linux_dmabuf_v1"@ {
            Some(Object::ZwpLinuxDmabufV1)
        } else if s == "zwp_linux_buffer_params_v1"@ {
            Some(Object::ZwpLinuxBufferParamsV1)
        } else if s == "zwp_linux_dmabuf_feedback_v1"@ {
            Some(Object::ZwpLinuxDmabufFeedbackV1)
        } else {
            None
        }
    }

    /// Parses the protocol name of an interface, as the registry announces
    /// it. Callbacks have no name of their own and are never the answer.
    pub fn from_str(s: &str) -> (r: Option<Self>)
        ensures
            r == Self::spec_from_str(s@),
            !(r matches Some(Object::Null)),
    {
        if str_eq(s, "xdg_wm_base") {
            Some(Object::XdgWmBase)
        } else if str_eq(s, "xdg_positioner") {
            Some(Object::XdgPositioner)
        } else if str_eq(s, "xdg_surface") {
            Some(Object::XdgSurface)
        } else if str_eq(s, "xdg_toplevel") {
            Some(Object::XdgToplevel)
        } else if str_eq(s, "xdg_popup") {
            Some(Object::XdgPopup)
        } else if str_eq(s, "wl_display") {
            Some(Object::WlDisplay)
        } else if str_eq(s, "wl_registry") {
            Some(Object::WlRegistry)
        } else if str_eq(s, "wl_compositor") {
            Some(Object::WlCompositor)
        } else if str_eq(s, "wl_shm_pool") {
            Some(Object::WlShmPool)
        } else if str_eq(s, "wl_shm") {
            Some(Object::WlShm)
        } else if str_eq(s, "wl_buffer") {
            Some(Object::WlBuffer)
        } else if str_eq(s, "wl_data_offer") {
            Some(Object::WlDataOffer)
        } else if str_eq(s, "wl_data_source") {
            Some(Object::WlDataSource)
        } else if str_eq(s, "wl_data_device") {
            Some(Object::WlDataDevice)
        } else if str_eq(s, "wl_data_device_manager") {
            Some(Object::WlDataDeviceManager)
        } else if str_eq(s, "wl_shell") {
            Some(Object::WlShell)
        } else if str_eq(s, "wl_shell_surface") {
            Some(Object::WlShellSurface)
        } else if str_eq(s, "wl_surface") {
            Some(Object::WlSurface)
        } else if str_eq(s, "wl_seat") {
            Some(Object::WlSeat)
        } else if str_eq(s, "wl_pointer") {
            Some(Object::WlPointer)
        } else if str_eq(s, "wl_keyboard") {
            Some(Object::WlKeyboard)
        } else if str_eq(s, "wl_touch") {
            Some(Object::WlTouch)
        } else if str_eq(s, "wl_output") {
            Some(Object::WlOutput)
        } else if str_eq(s, "wl_region") {
            Some(Object::WlRegion)
        } else if str_eq(s, "wl_subcompositor") {
            Some(Object::WlSubcompositor)
        } else if str_eq(s, "wl_subsurface") {
            Some(Object::WlSubsurface)
        } else if str_eq(s, "zwp_linux_dmabuf_v1") {
            Some(Object::ZwpLinuxDmabufV1)
        } else if str_eq(s, "zwp_linux_buffer_params_v1") {
            Some(Object::ZwpLinuxBufferParamsV1)
        } else if str_eq(s, "zwp_linux_dmabuf_feedback_v1") {
            Some(Object::ZwpLinuxDmabufFeedbackV1)
        } else {
            None
        }
    }
}

/// The xdg_wm_base interface is exposed as a global object enabling clients to
/// turn their wl_surfaces into windows in a desktop environment.
#[derive(Debug, Clone, Copy, PartialEq, Eq, Structural)]
pub struct XdgWmBase {
    pub id: u32,
}

impl XdgWmBase {
    /// Queues `xdg_wm_base.destroy`.
    ///
    /// Destroy this xdg_wm_base object.
    pub fn destroy(&self, connection: &mut Session)
        requires
            old(connection).wf(),
            old(connection).can_enqueue((Request::XdgWmBaseDestroy { sendto: self.id })),
        ensures
            final(connection).enqueued(*old(connection), (Request::XdgWmBaseDestroy { sendto: self.id })),
    {
        connection.enqueue(Request::XdgWmBaseDestroy { sendto: self.id });
    }

    /// Queues `xdg_wm_base.create_positioner`.
    ///
    /// Create a positioner object. A positioner object is used to position
    /// surfaces relative to some parent surface. See the interface description
    /// and xdg_surface.get_popup for details.
    pub fn create_positioner(&self, connection: &mut Session) -> (r: XdgPositioner)
        requires
            old(connection).wf(),
            old(connection).can_enqueue((Request::XdgWmBaseCreatePositioner { sendto: self.id })),
        ensures
            final(connection).enqueued(*old(connection), (Request::XdgWmBaseCreatePositioner { sendto: self.id })),
            r.id == old(connection).new_id_for((Request::XdgWmBaseCreatePositioner { sendto: self.id })),
    {
        let id = connection.enqueue(Request::XdgWmBaseCreatePositioner { sendto: self.id });
        XdgPositioner { id }
    }

    /// Queues `xdg_wm_base.get_xdg_surface`.
    ///
    /// This creates an xdg_surface for the given surface. While xdg_surface
    /// itself is not a role, the corresponding surface may only be assigned a
    /// role extending xdg_surface, such as xdg_toplevel or xdg_popup.
    pub fn get_xdg_surface(&self, connection: &mut Session, surface: WlSurface) -> (r: XdgSurface)
        requires
            old(connection).wf(),
            old(connection).can_enqueue((Request::XdgWmBaseGetXdgSurface { sendto: self.id, surface: surface.id })),
        ensures
            final(connection).enqueued(*old(connection), (Request::XdgWmBaseGetXdgSurface { sendto: self.id, surface: surface.id })),
            r.id == old(connection).new_id_for((Request::XdgWmBaseGetXdgSurface { sendto: self.id, surface: surface.id })),
    {
        let id = connection.enqueue(Request::XdgWmBaseGetXdgSurface { sendto: self.id, surface: surface.id });
        XdgSurface { id }
    }

    /// Queues `xdg_wm_base.pong`.
    ///
    /// A client must respond to a ping event with a pong request or the client
    /// may be deemed unresponsive. See xdg_wm_base.ping and
    /// xdg_wm_base.error.unresponsive.
    pub fn pong(&self, connection: &mut Session, serial: u32)
        requires
            old(connection).wf(),
            old(connection).can_enqueue((Request::XdgWmBasePong { sendto: self.id, serial })),
        ensures
            final(connection).enqueued(*old(connection), (Request::XdgWmBasePong { sendto: self.id, serial })),
    {
        connection.enqueue(Request::XdgWmBasePong { sendto: self.id, serial });
    }
}

/// The xdg_positioner provides a collection of rules for the placement of a
/// child surface relative to a parent surface.
#[derive(Debug, Clone, Copy, PartialEq, Eq, Structural)]
pub struct XdgPositioner {
    pub id: u32,
}

impl XdgPositioner {
    /// Queues `xdg_positioner.destroy`.
    ///
    /// Notify the compositor that the xdg_positioner will no longer be used.
    pub fn destroy(&self, connection: &mut Session)
        requires
            old(connection).wf(),
            old(connection).can_enqueue((Request::XdgPositionerDestroy { sendto: self.id })),
        ensures
            final(connection).enqueued(*old(connection), (Request::XdgPositionerDestroy { sendto: self.id })),
    {
        connection.enqueue(Request::XdgPositionerDestroy { sendto: self.id });
    }

    /// Queues `xdg_positioner.set_size`.
    ///
    /// Set the size of the surface that is to be positioned with the positioner
    /// object. The size is in surface-local coordinates and corresponds to the
    /// window geometry.
    pub fn set_size(&self, connection: &mut Session, width: i32, height: i32)
        requires
            old(connection).wf(),
            old(connection).can_enqueue((Request::XdgPositionerSetSize { sendto: self.id, width, height })),
        ensures
            final(connection).enqueued(*old(connection), (Request::XdgPositionerSetSize { sendto: self.id, width, height })),
    {
        connection.enqueue(Request::XdgPositionerSetSize { sendto: self.id, width, height });
    }

    /// Queues `xdg_positioner.set_anchor_rect`.
    ///
    /// Specify the anchor rectangle within the parent surface that the child
    /// surface will be placed relative to.
    pub fn set_anchor_rect(&self, connection: &mut Session, x: i32, y: i32, width: i32, height: i32)
        requires
            old(connection).wf(),
            old(connection).can_enqueue((Request::XdgPositionerSetAnchorRect { sendto: self.id, x, y, width, height })),
        ensures
            final(connection).enqueued(*old(connection), (Request::XdgPositionerSetAnchorRect { sendto: self.id, x, y, width, height })),
    {
        connection.enqueue(Request::XdgPositionerSetAnchorRect { sendto: self.id, x, y, width, height });
    }

    /// Queues `xdg_positioner.set_anchor`.
    ///
    /// Defines the anchor point for the anchor rectangle. The specified anchor
    /// is used derive an anchor point that the child surface will be positioned
    /// relative to.
    pub fn set_anchor(&self, connection: &mut Session, anchor: u32)
        requires
            old(connection).wf(),
            old(connection).can_enqueue((Request::XdgPositionerSetAnchor { sendto: self.id, anchor })),
        ensures
            final(connection).enqueued(*old(connection), (Request::XdgPositionerSetAnchor { sendto: self.id, anchor })),
    {
        connection.enqueue(Request::XdgPositionerSetAnchor { sendto: self.id, anchor });
    }

    /// Queues `xdg_positioner.set_gravity`.
    ///
    /// Defines in what direction a surface should be positioned, relative to
    /// the anchor point of the parent surface.
    pub fn set_gravity(&self, connection: &mut Session, gravity: u32)
        requires
            old(connection).wf(),
            old(connection).can_enqueue((Request::XdgPositionerSetGravity { sendto: self.id, gravity })),
        ensures
            final(connection).enqueued(*old(connection), (Request::XdgPositionerSetGravity { sendto: self.id, gravity })),
    {
        connection.enqueue(Request::XdgPositionerSetGravity { sendto: self.id, gravity });
    }

    /// Queues `xdg_positioner.set_constraint_adjustment`.
    ///
    /// Specify how the window should be positioned if the originally intended
    /// position caused the surface to be constrained, meaning at least
    /// partially outside positioning boundaries set by the compositor.
    pub fn set_constraint_adjustment(&self, connection: &mut Session, constraint_adjustment: u32)
        requires
            old(connection).wf(),
            old(connection).can_enqueue((Request::XdgPositionerSetConstraintAdjustment { sendto: self.id, constraint_adjustment })),
        ensures
            final(connection).enqueued(*old(connection), (Request::XdgPositionerSetConstraintAdjustment { sendto: self.id, constraint_adjustment })),
    {
        connection.enqueue(Request::XdgPositionerSetConstraintAdjustment { sendto: self.id, constraint_adjustment });
    }

    /// Queues `xdg_positioner.set_offset`.
    ///
    /// Specify the surface position offset relative to the position of the
    /// anchor on the anchor rectangle and the anchor on the surface.
    pub fn set_offset(&self, connection: &mut Session, x: i32, y: i32)
        requires
            old(connection).wf(),
            old(connection).can_enqueue((Request::XdgPositionerSetOffset { sendto: self.id, x, y })),
        ensures
            final(connection).enqueued(*old(connection), (Request::XdgPositionerSetOffset { sendto: self.id, x, y })),
    {
        connection.enqueue(Request::XdgPositionerSetOffset { sendto: self.id, x, y });
    }

    /// Queues `xdg_positioner.set_reactive`.
    ///
    /// When set reactive, the surface is reconstrained if the conditions used
    /// for constraining changed, e.g. the parent window moved.
    pub fn set_reactive(&self, connection: &mut Session)
        requires
            old(connection).wf(),
            old(connection).can_enqueue((Request::XdgPositionerSetReactive { sendto: self.id })),
        ensures
            final(connection).enqueued(*old(connection), (Request::XdgPositionerSetReactive { sendto: self.id })),
    {
        connection.enqueue(Request::XdgPositionerSetReactive { sendto: self.id });
    }

    /// Queues `xdg_positioner.set_parent_size`.
    ///
    /// Set the parent window geometry the compositor should use when
    /// positioning the popup. The compositor may use this information to
    /// determine the future state the popup should be constrained using.
    pub fn set_parent_size(&self, connection: &mut Session, parent_width: i32, parent_height: i32)
        requires
            old(connection).wf(),
            old(connection).can_enqueue((Request::XdgPositionerSetParentSize { sendto: self.id, parent_width, parent_height })),
        ensures
            final(connection).enqueued(*old(connection), (Request::XdgPositionerSetParentSize { sendto: self.id, parent_width, parent_height })),
    {
        connection.enqueue(Request::XdgPositionerSetParentSize { sendto: self.id, parent_width, parent_height });
    }

    /// Queues `xdg_positioner.set_parent_configure`.
    ///
    /// Set the serial of an xdg_surface.configure event this positioner will be
    /// used in response to.
    pub fn set_parent_configure(&self, connection: &mut Session, serial: u32)
        requires
            old(connection).wf(),
            old(connection).can_enqueue((Request::XdgPositionerSetParentConfigure { sendto: self.id, serial })),
        ensures
            final(connection).enqueued(*old(connection), (Request::XdgPositionerSetParentConfigure { sendto: self.id, serial })),
    {
        connection.enqueue(Request::XdgPositionerSetParentConfigure { sendto: self.id, serial });
    }
}

/// An interface that may be implemented by a wl_surface, for implementations
/// that provide a desktop-style user interface.
#[derive(Debug, Clone, Copy, PartialEq, Eq, Structural)]
pub struct XdgSurface {
    pub id: u32,
}

impl XdgSurface {
    /// Queues `xdg_surface.destroy`.
    ///
    /// Destroy the xdg_surface object. An xdg_surface must only be destroyed
    /// after its role object has been destroyed, otherwise a
    /// defunct_role_object error is raised.
    pub fn destroy(&self, connection: &mut Session)
        requires
            old(connection).wf(),
            old(connection).can_enqueue((Request::XdgSurfaceDestroy { sendto: self.id })),
        ensures
            final(connection).enqueued(*old(connection), (Request::XdgSurfaceDestroy { sendto: self.id })),
    {
        connection.enqueue(Request::XdgSurfaceDestroy { sendto: self.id });
    }

    /// Queues `xdg_surface.get_toplevel`.
    ///
    /// This creates an xdg_toplevel object for the given xdg_surface and gives
    /// the associated wl_surface the xdg_toplevel role.
    pub fn get_toplevel(&self, connection: &mut Session) -> (r: XdgToplevel)
        requires
            old(connection).wf(),
            old(connection).can_enqueue((Request::XdgSurfaceGetToplevel { sendto: self.id })),
        ensures
            final(connection).enqueued(*old(connection), (Request::XdgSurfaceGetToplevel { sendto: self.id })),
            r.id == old(connection).new_id_for((Request::XdgSurfaceGetToplevel { sendto: self.id })),
    {
        let id = connection.enqueue(Request::XdgSurfaceGetToplevel { sendto: self.id });
        XdgToplevel { id }
    }

    /// Queues `xdg_surface.get_popup`.
    ///
    /// This creates an xdg_popup object for the given xdg_surface and gives the
    /// associated wl_surface the xdg_popup role.
    pub fn get_popup(&self, connection: &mut Session, parent: XdgSurface, positioner: XdgPositioner) -> (r: XdgPopup)
        requires
            old(connection).wf(),
            old(connection).can_enqueue((Request::XdgSurfaceGetPopup { sendto: self.id, parent: parent.id, positioner: positioner.id })),
        ensures
            final(connection).enqueued(*old(connection), (Request::XdgSurfaceGetPopup { sendto: self.id, parent: parent.id, positioner: positioner.id })),
            r.id == old(connection).new_id_for((Request::XdgSurfaceGetPopup { sendto: self.id, parent: parent.id, positioner: positioner.id })),
    {
        let id = connection.enqueue(Request::XdgSurfaceGetPopup { sendto: self.id, parent: parent.id, positioner: positioner.id });
        XdgPopup { id }
    }

    /// Queues `xdg_surface.set_window_geometry`.
    ///
    /// The window geometry of a surface is its "visible bounds" from the user's
    /// perspective.
    pub fn set_window_geometry(&self, connection: &mut Session, x: i32, y: i32, width: i32, height: i32)
        requires
            old(connection).wf(),
            old(connection).can_enqueue((Request::XdgSurfaceSetWindowGeometry { sendto: self.id, x, y, width, height })),
        ensures
            final(connection).enqueued(*old(connection), (Request::XdgSurfaceSetWindowGeometry { sendto: self.id, x, y, width, height })),
    {
        connection.enqueue(Request::XdgSurfaceSetWindowGeometry { sendto: self.id, x, y, width, height });
    }

    /// Queues `xdg_surface.ack_configure`.
    ///
    /// When a configure event is received, if a client commits the surface in
    /// response to the configure event, then the client must make an
    /// ack_configure request sometime before the commit request, passing along
    /// the serial of the configure event.
    pub fn ack_configure(&self, connection: &mut Session, serial: u32)
        requires
            old(connection).wf(),
            old(connection).can_enqueue((Request::XdgSurfaceAckConfigure { sendto: self.id, serial })),
        ensures
            final(connection).enqueued(*old(connection), (Request::XdgSurfaceAckConfigure { sendto: self.id, serial })),
    {
        connection.enqueue(Request::XdgSurfaceAckConfigure { sendto: self.id, serial });
    }
}

/// This interface defines an xdg_surface role which allows a surface to, among
/// other things, set window-like properties such as maximize, fullscreen, and
/// minimize, set application-specific metadata like title and id, and well as
/// trigger user interactive operations such as interactive resize and move.
#[derive(Debug, Clone, Copy, PartialEq, Eq, Structural)]
pub struct XdgToplevel {
    pub id: u32,
}

impl XdgToplevel {
    /// Queues `xdg_toplevel.destroy`.
    ///
    /// This request destroys the role surface and unmaps the surface; see
    /// "Unmapping" behavior in interface section for details.
    pub fn destroy(&self, connection: &mut Session)
        requires
            old(connection).wf(),
            old(connection).can_enqueue((Request::XdgToplevelDestroy { sendto: self.id })),
        ensures
            final(connection).enqueued(*old(connection), (Request::XdgToplevelDestroy { sendto: self.id })),
    {
        connection.enqueue(Request::XdgToplevelDestroy { sendto: self.id });
    }

    /// Queues `xdg_toplevel.set_parent`.
    ///
    /// Set the "parent" of this surface. This surface should be stacked above
    /// the parent surface and all other ancestor surfaces.
    pub fn set_parent(&self, connection: &mut Session, parent: XdgToplevel)
        requires
            old(connection).wf(),
            old(connection).can_enqueue((Request::XdgToplevelSetParent { sendto: self.id, parent: parent.id })),
        ensures
            final(connection).enqueued(*old(connection), (Request::XdgToplevelSetParent { sendto: self.id, parent: parent.id })),
    {
        connection.enqueue(Request::XdgToplevelSetParent { sendto: self.id, parent: parent.id });
    }

    /// Queues `xdg_toplevel.set_title`.
    ///
    /// Set a short title for the surface.
    pub fn set_title(&self, connection: &mut Session, title: String)
        requires
            old(connection).wf(),
            old(connection).can_enqueue((Request::XdgToplevelSetTitle { sendto: self.id, title })),
        ensures
            final(connection).enqueued(*old(connection), (Request::XdgToplevelSetTitle { sendto: self.id, title })),
    {
        connection.enqueue(Request::XdgToplevelSetTitle { sendto: self.id, title });
    }

    /// Queues `xdg_toplevel.set_app_id`.
    ///
    /// Set an application identifier for the surface.
    pub fn set_app_id(&self, connection: &mut Session, app_id: String)
        requires
            old(connection).wf(),
            old(connection).can_enqueue((Request::XdgToplevelSetAppId { sendto: self.id, app_id })),
        ensures
            final(connection).enqueued(*old(connection), (Request::XdgToplevelSetAppId { sendto: self.id, app_id })),
    {
        connection.enqueue(Request::XdgToplevelSetAppId { sendto: self.id, app_id });
    }

    /// Queues `xdg_toplevel.show_window_menu`.
    ///
    /// Clients implementing client-side decorations might want to show a
    /// context menu when right-clicking on the decorations, giving the user a
    /// menu that they can use to maximize or minimize the window.
    pub fn show_window_menu(&self, connection: &mut Session, seat: WlSeat, serial: u32, x: i32, y: i32)
        requires
            old(connection).wf(),
            old(connection).can_enqueue((Request::XdgToplevelShowWindowMenu { sendto: self.id, seat: seat.id, serial, x, y })),
        ensures
            final(connection).enqueued(*old(connection), (Request::XdgToplevelShowWindowMenu { sendto: self.id, seat: seat.id, serial, x, y })),
    {
        connection.enqueue(Request::XdgToplevelShowWindowMenu { sendto: self.id, seat: seat.id, serial, x, y });
    }

    /// Queues `xdg_toplevel.move`.
    ///
    /// Start an interactive, user-driven move of the surface.
    pub fn move_(&self, connection: &mut Session, seat: WlSeat, serial: u32)
        requires
            old(connection).wf(),
            old(connection).can_enqueue((Request::XdgToplevelMove { sendto: self.id, seat: seat.id, serial })),
        ensures
            final(connection).enqueued(*old(connection), (Request::XdgToplevelMove { sendto: self.id, seat: seat.id, serial })),
    {
        connection.enqueue(Request::XdgToplevelMove { sendto: self.id, seat: seat.id, serial });
    }

    /// Queues `xdg_toplevel.resize`.
    ///
    /// Start a user-driven, interactive resize of the surface.
    pub fn resize(&self, connection: &mut Session, seat: WlSeat, serial: u32, edges: u32)
        requires
            old(connection).wf(),
            old(connection).can_enqueue((Request::XdgToplevelResize { sendto: self.id, seat: seat.id, serial, edges })),
        ensures
            final(connection).enqueued(*old(connection), (Request::XdgToplevelResize { sendto: self.id, seat: seat.id, serial, edges })),
    {
        connection.enqueue(Request::XdgToplevelResize { sendto: self.id, seat: seat.id, serial, edges });
    }

    /// Queues `xdg_toplevel.set_max_size`.
    ///
    /// Set a maximum size for the window.
    pub fn set_max_size(&self, connection: &mut Session, width: i32, height: i32)
        requires
            old(connection).wf(),
            old(connection).can_enqueue((Request::XdgToplevelSetMaxSize { sendto: self.id, width, height })),
        ensures
            final(connection).enqueued(*old(connection), (Request::XdgToplevelSetMaxSize { sendto: self.id, width, height })),
    {
        connection.enqueue(Request::XdgToplevelSetMaxSize { sendto: self.id, width, height });
    }

    /// Queues `xdg_toplevel.set_min_size`.
    ///
    /// Set a minimum size for the window.
    pub fn set_min_size(&self, connection: &mut Session, width: i32, height: i32)
        requires
            old(connection).wf(),
            old(connection).can_enqueue((Request::XdgToplevelSetMinSize { sendto: self.id, width, height })),
        ensures
            final(connection).enqueued(*old(connection), (Request::XdgToplevelSetMinSize { sendto: self.id, width, height })),
    {
        connection.enqueue(Request::XdgToplevelSetMinSize { sendto: self.id, width, height });
    }

    /// Queues `xdg_toplevel.set_maximized`.
    ///
    /// Maximize the surface.
    pub fn set_maximized(&self, connection: &mut Session)
        requires
            old(connection).wf(),
            old(connection).can_enqueue((Request::XdgToplevelSetMaximized { sendto: self.id })),
        ensures
            final(connection).enqueued(*old(connection), (Request::XdgToplevelSetMaximized { sendto: self.id })),
    {
        connection.enqueue(Request::XdgToplevelSetMaximized { sendto: self.id });
    }

    /// Queues `xdg_toplevel.unset_maximized`.
    ///
    /// Unmaximize the surface.
    pub fn unset_maximized(&self, connection: &mut Session)
        requires
            old(connection).wf(),
            old(connection).can_enqueue((Request::XdgToplevelUnsetMaximized { sendto: self.id })),
        ensures
            final(connection).enqueued(*old(connection), (Request::XdgToplevelUnsetMaximized { sendto: self.id })),
    {
        connection.enqueue(Request::XdgToplevelUnsetMaximized { sendto: self.id });
    }

    /// Queues `xdg_toplevel.set_fullscreen`.
    ///
    /// Make the surface fullscreen.
    pub fn set_fullscreen(&self, connection: &mut Session, output: WlOutput)
        requires
            old(connection).wf(),
            old(connection).can_enqueue((Request::XdgToplevelSetFullscreen { sendto: self.id, output: output.id })),
        ensures
            final(connection).enqueued(*old(connection), (Request::XdgToplevelSetFullscreen { sendto: self.id, output: output.id })),
    {
        connection.enqueue(Request::XdgToplevelSetFullscreen { sendto: self.id, output: output.id });
    }

    /// Queues `xdg_toplevel.unset_fullscreen`.
    ///
    /// Make the surface no longer fullscreen.
    pub fn unset_fullscreen(&self, connection: &mut Session)
        requires
            old(connection).wf(),
            old(connection).can_enqueue((Request::XdgToplevelUnsetFullscreen { sendto: self.id })),
        ensures
            final(connection).enqueued(*old(connection), (Request::XdgToplevelUnsetFullscreen { sendto: self.id })),
    {
        connection.enqueue(Request::XdgToplevelUnsetFullscreen { sendto: self.id });
    }

    /// Queues `xdg_toplevel.set_minimized`.
    ///
    /// Request that the compositor minimize your surface. There is no way to
    /// know if the surface is currently minimized, nor is there any way to
    /// unset minimization on this surface.
    pub fn set_minimized(&self, connection: &mut Session)
        requires
            old(connection).wf(),
            old(connection).can_enqueue((Request::XdgToplevelSetMinimized { sendto: self.id })),
        ensures
            final(connection).enqueued(*old(connection), (Request::XdgToplevelSetMinimized { sendto: self.id })),
    {
        connection.enqueue(Request::XdgToplevelSetMinimized { sendto: self.id });
    }
}

/// A popup surface is a short-lived, temporary surface. It can be used to
/// implement for example menus, popovers, tooltips and other similar user
/// interface concepts.
#[derive(Debug, Clone, Copy, PartialEq, Eq, Structural)]
pub struct XdgPopup {
    pub id: u32,
}

impl XdgPopup {
    /// Queues `xdg_popup.destroy`.
    ///
    /// This destroys the popup. Explicitly destroying the xdg_popup object will
    /// also dismiss the popup, and unmap the surface.
    pub fn destroy(&self, connection: &mut Session)
        requires
            old(connection).wf(),
            old(connection).can_enqueue((Request::XdgPopupDestroy { sendto: self.id })),
        ensures
            final(connection).enqueued(*old(connection), (Request::XdgPopupDestroy { sendto: self.id })),
    {
        connection.enqueue(Request::XdgPopupDestroy { sendto: self.id });
    }

    /// Queues `xdg_popup.grab`.
    ///
    /// This request makes the created popup take an explicit grab. An explicit
    /// grab will be dismissed when the user dismisses the popup, or when the
    /// client destroys the xdg_popup.
    pub fn grab(&self, connection: &mut Session, seat: WlSeat, serial: u32)
        requires
            old(connection).wf(),
            old(connection).can_enqueue((Request::XdgPopupGrab { sendto: self.id, seat: seat.id, serial })),
        ensures
            final(connection).enqueued(*old(connection), (Request::XdgPopupGrab { sendto: self.id, seat: seat.id, serial })),
    {
        connection.enqueue(Request::XdgPopupGrab { sendto: self.id, seat: seat.id, serial });
    }

    /// Queues `xdg_popup.reposition`.
    ///
    /// Reposition an already-mapped popup.
    pub fn reposition(&self, connection: &mut Session, positioner: XdgPositioner, token: u32)
        requires
            old(connection).wf(),
            old(connection).can_enqueue((Request::XdgPopupReposition { sendto: self.id, positioner: positioner.id, token })),
        ensures
            final(connection).enqueued(*old(connection), (Request::XdgPopupReposition { sendto: self.id, positioner: positioner.id, token })),
    {
        connection.enqueue(Request::XdgPopupReposition { sendto: self.id, positioner: positioner.id, token });
    }
}

/// The callback of a `wl_display.sync` request.
#[derive(Debug, Clone, Copy, PartialEq, Eq, Structural)]
pub struct WlDisplaySyncCallback {
    pub id: u32,
}

/// The core global object. This is a special singleton object. It is used for
/// internal Wayland protocol features.
#[derive(Debug, Clone, Copy, PartialEq, Eq, Structural)]
pub struct WlDisplay {
    pub id: u32,
}

impl WlDisplay {
    /// Queues `wl_display.sync`.
    ///
    /// The sync request asks the server to emit the 'done' event on the
    /// returned wl_callback object.
    pub fn sync(&self, connection: &mut Session) -> (r: WlDisplaySyncCallback)
        requires
            old(connection).wf(),
            old(connection).can_enqueue((Request::WlDisplaySync { sendto: self.id })),
        ensures
            final(connection).enqueued(*old(connection), (Request::WlDisplaySync { sendto: self.id })),
            r.id == old(connection).new_id_for((Request::WlDisplaySync { sendto: self.id })),
    {
        let id = connection.enqueue(Request::WlDisplaySync { sendto: self.id });
        WlDisplaySyncCallback { id }
    }

    /// Queues `wl_display.get_registry`.
    ///
    /// This request creates a registry object that allows the client to list
    /// and bind the global objects available from the compositor.
    pub fn get_registry(&self, connection: &mut Session) -> (r: WlRegistry)
        requires
            old(connection).wf(),
            old(connection).can_enqueue((Request::WlDisplayGetRegistry { sendto: self.id })),
        ensures
            final(connection).enqueued(*old(connection), (Request::WlDisplayGetRegistry { sendto: self.id })),
            r.id == old(connection).new_id_for((Request::WlDisplayGetRegistry { sendto: self.id })),
    {
        let id = connection.enqueue(Request::WlDisplayGetRegistry { sendto: self.id });
        WlRegistry { id }
    }
}

/// The singleton global registry object. The server has a number of global
/// objects that are available to all clients.
#[derive(Debug, Clone, Copy, PartialEq, Eq, Structural)]
pub struct WlRegistry {
    pub id: u32,
}

impl WlRegistry {
    /// Queues `wl_registry.bind`.
    ///
    /// Binds a new, client-created object to the server using the specified
    /// name as the identifier.
    pub fn bind(&self, connection: &mut Session, name: u32, if_name: String, if_version: u32) -> (r: Id)
        requires
            old(connection).wf(),
            old(connection).can_enqueue((Request::WlRegistryBind { sendto: self.id, name, if_name, if_version })),
        ensures
            final(connection).enqueued(*old(connection), (Request::WlRegistryBind { sendto: self.id, name, if_name, if_version })),
            r.id == old(connection).new_id_for((Request::WlRegistryBind { sendto: self.id, name, if_name, if_version })),
    {
        let id = connection.enqueue(Request::WlRegistryBind { sendto: self.id, name, if_name, if_version });
        Id { id }
    }
}

/// A compositor. This object is a singleton global. The compositor is in charge
/// of combining the contents of multiple surfaces into one displayable output.
#[derive(Debug, Clone, Copy, PartialEq, Eq, Structural)]
pub struct WlCompositor {
    pub id: u32,
}

impl WlCompositor {
    /// Queues `wl_compositor.create_surface`.
    ///
    /// Ask the compositor to create a new surface.
    pub fn create_surface(&self, connection: &mut Session) -> (r: WlSurface)
        requires
            old(connection).wf(),
            old(connection).can_enqueue((Request::WlCompositorCreateSurface { sendto: self.id })),
        ensures
            final(connection).enqueued(*old(connection), (Request::WlCompositorCreateSurface { sendto: self.id })),
            r.id == old(connection).new_id_for((Request::WlCompositorCreateSurface { sendto: self.id })),
    {
        let id = connection.enqueue(Request::WlCompositorCreateSurface { sendto: self.id });
        WlSurface { id }
    }

    /// Queues `wl_compositor.create_region`.
    ///
    /// Ask the compositor to create a new region.
    pub fn create_region(&self, connection: &mut Session) -> (r: WlRegion)
        requires
            old(connection).wf(),
            old(connection).can_enqueue((Request::WlCompositorCreateRegion { sendto: self.id })),
        ensures
            final(connection).enqueued(*old(connection), (Request::WlCompositorCreateRegion { sendto: self.id })),
            r.id == old(connection).new_id_for((Request::WlCompositorCreateRegion { sendto: self.id })),
    {
        let id = connection.enqueue(Request::WlCompositorCreateRegion { sendto: self.id });
        WlRegion { id }
    }
}

/// The wl_shm_pool object encapsulates a piece of memory shared between the
/// compositor and client. Through the wl_shm_pool object, the client can
/// allocate shared memory wl_buffer objects.
#[derive(Debug, Clone, Copy, PartialEq, Eq, Structural)]
pub struct WlShmPool {
    pub id: u32,
}

impl WlShmPool {
    /// Queues `wl_shm_pool.create_buffer`.
    ///
    /// Create a wl_buffer object from the pool.
    pub fn create_buffer(&self, connection: &mut Session, offset: i32, width: i32, height: i32, stride: i32, format: u32) -> (r: WlBuffer)
        requires
            old(connection).wf(),
            old(connection).can_enqueue((Request::WlShmPoolCreateBuffer { sendto: self.id, offset, width, height, stride, format })),
        ensures
            final(connection).enqueued(*old(connection), (Request::WlShmPoolCreateBuffer { sendto: self.id, offset, width, height, stride, format })),
            r.id == old(connection).new_id_for((Request::WlShmPoolCreateBuffer { sendto: self.id, offset, width, height, stride, format })),
    {
        let id = connection.enqueue(Request::WlShmPoolCreateBuffer { sendto: self.id, offset, width, height, stride, format });
        WlBuffer { id }
    }

    /// Queues `wl_shm_pool.destroy`.
    ///
    /// Destroy the shared memory pool.
    pub fn destroy(&self, connection: &mut Session)
        requires
            old(connection).wf(),
            old(connection).can_enqueue((Request::WlShmPoolDestroy { sendto: self.id })),
        ensures
            final(connection).enqueued(*old(connection), (Request::WlShmPoolDestroy { sendto: self.id })),
    {
        connection.enqueue(Request::WlShmPoolDestroy { sendto: self.id });
    }

    /// Queues `wl_shm_pool.resize`.
    ///
    /// This request will cause the server to remap the backing memory for the
    /// pool from the file descriptor passed when the pool was created, but
    /// using the new size.
    pub fn resize(&self, connection: &mut Session, size: i32)
        requires
            old(connection).wf(),
            old(connection).can_enqueue((Request::WlShmPoolResize { sendto: self.id, size })),
        ensures
            final(connection).enqueued(*old(connection), (Request::WlShmPoolResize { sendto: self.id, size })),
    {
        connection.enqueue(Request::WlShmPoolResize { sendto: self.id, size });
    }
}

/// A singleton global object that provides support for shared memory.
#[derive(Debug, Clone, Copy, PartialEq, Eq, Structural)]
pub struct WlShm {
    pub id: u32,
}

impl WlShm {
    /// Queues `wl_shm.create_pool`.
    ///
    /// Create a new wl_shm_pool object.
    pub fn create_pool(&self, connection: &mut Session, fd: i32, size: i32) -> (r: WlShmPool)
        requires
            old(connection).wf(),
            old(connection).can_enqueue((Request::WlShmCreatePool { sendto: self.id, fd, size })),
        ensures
            final(connection).enqueued(*old(connection), (Request::WlShmCreatePool { sendto: self.id, fd, size })),
            r.id == old(connection).new_id_for((Request::WlShmCreatePool { sendto: self.id, fd, size })),
    {
        let id = connection.enqueue(Request::WlShmCreatePool { sendto: self.id, fd, size });
        WlShmPool { id }
    }
}

/// A buffer provides the content for a wl_surface. Buffers are created through
/// factory interfaces such as wl_shm, wp_linux_buffer_params (from the linux-
/// dmabuf protocol extension) or similar.
#[derive(Debug, Clone, Copy, PartialEq, Eq, Structural)]
pub struct WlBuffer {
    pub id: u32,
}

impl WlBuffer {
    /// Queues `wl_buffer.destroy`.
    ///
    /// Destroy a buffer. If and how you need to release the backing storage is
    /// defined by the buffer factory interface.
    pub fn destroy(&self, connection: &mut Session)
        requires
            old(connection).wf(),
            old(connection).can_enqueue((Request::WlBufferDestroy { sendto: self.id })),
        ensures
            final(connection).enqueued(*old(connection), (Request::WlBufferDestroy { sendto: self.id })),
    {
        connection.enqueue(Request::WlBufferDestroy { sendto: self.id });
    }
}

/// A wl_data_offer represents a piece of data offered for transfer by another
/// client (the source client). It is used by the copy-and-paste and drag-and-
/// drop mechanisms.
#[derive(Debug, Clone, Copy, PartialEq, Eq, Structural)]
pub struct WlDataOffer {
    pub id: u32,
}

impl WlDataOffer {
    /// Queues `wl_data_offer.accept`.
    ///
    /// Indicate that the client can accept the given mime type, or NULL for not
    /// accepted.
    pub fn accept(&self, connection: &mut Session, serial: u32, mime_type: String)
        requires
            old(connection).wf(),
            old(connection).can_enqueue((Request::WlDataOfferAccept { sendto: self.id, serial, mime_type })),
        ensures
            final(connection).enqueued(*old(connection), (Request::WlDataOfferAccept { sendto: self.id, serial, mime_type })),
    {
        connection.enqueue(Request::WlDataOfferAccept { sendto: self.id, serial, mime_type });
    }

    /// Queues `wl_data_offer.receive`.
    ///
    /// To transfer the offered data, the client issues this request and
    /// indicates the mime type it wants to receive.
    pub fn receive(&self, connection: &mut Session, mime_type: String, fd: i32)
        requires
            old(connection).wf(),
            old(connection).can_enqueue((Request::WlDataOfferReceive { sendto: self.id, mime_type, fd })),
        ensures
            final(connection).enqueued(*old(connection), (Request::WlDataOfferReceive { sendto: self.id, mime_type, fd })),
    {
        connection.enqueue(Request::WlDataOfferReceive { sendto: self.id, mime_type, fd });
    }

    /// Queues `wl_data_offer.destroy`.
    ///
    /// Destroy the data offer.
    pub fn destroy(&self, connection: &mut Session)
        requires
            old(connection).wf(),
            old(connection).can_enqueue((Request::WlDataOfferDestroy { sendto: self.id })),
        ensures
            final(connection).enqueued(*old(connection), (Request::WlDataOfferDestroy { sendto: self.id })),
    {
        connection.enqueue(Request::WlDataOfferDestroy { sendto: self.id });
    }

    /// Queues `wl_data_offer.finish`.
    ///
    /// Notifies the compositor that the drag destination successfully finished
    /// the drag-and-drop operation.
    pub fn finish(&self, connection: &mut Session)
        requires
            old(connection).wf(),
            old(connection).can_enqueue((Request::WlDataOfferFinish { sendto: self.id })),
        ensures
            final(connection).enqueued(*old(connection), (Request::WlDataOfferFinish { sendto: self.id })),
    {
        connection.enqueue(Request::WlDataOfferFinish { sendto: self.id });
    }

    /// Queues `wl_data_offer.set_actions`.
    ///
    /// Sets the actions that the destination side client supports for this
    /// operation.
    pub fn set_actions(&self, connection: &mut Session, dnd_actions: u32, preferred_action: u32)
        requires
            old(connection).wf(),
            old(connection).can_enqueue((Request::WlDataOfferSetActions { sendto: self.id, dnd_actions, preferred_action })),
        ensures
            final(connection).enqueued(*old(connection), (Request::WlDataOfferSetActions { sendto: self.id, dnd_actions, preferred_action })),
    {
        connection.enqueue(Request::WlDataOfferSetActions { sendto: self.id, dnd_actions, preferred_action });
    }
}

/// The wl_data_source object is the source side of a wl_data_offer.
#[derive(Debug, Clone, Copy, PartialEq, Eq, Structural)]
pub struct WlDataSource {
    pub id: u32,
}

impl WlDataSource {
    /// Queues `wl_data_source.offer`.
    ///
    /// This request adds a mime type to the set of mime types advertised to
    /// targets. Can be called several times to offer multiple types.
    pub fn offer(&self, connection: &mut Session, mime_type: String)
        requires
            old(connection).wf(),
            old(connection).can_enqueue((Request::WlDataSourceOffer { sendto: self.id, mime_type })),
        ensures
            final(connection).enqueued(*old(connection), (Request::WlDataSourceOffer { sendto: self.id, mime_type })),
    {
        connection.enqueue(Request::WlDataSourceOffer { sendto: self.id, mime_type });
    }

    /// Queues `wl_data_source.destroy`.
    ///
    /// Destroy the data source.
    pub fn destroy(&self, connection: &mut Session)
        requires
            old(connection).wf(),
            old(connection).can_enqueue((Request::WlDataSourceDestroy { sendto: self.id })),
        ensures
            final(connection).enqueued(*old(connection), (Request::WlDataSourceDestroy { sendto: self.id })),
    {
        connection.enqueue(Request::WlDataSourceDestroy { sendto: self.id });
    }

    /// Queues `wl_data_source.set_actions`.
    ///
    /// Sets the actions that the source side client supports for this
    /// operation.
    pub fn set_actions(&self, connection: &mut Session, dnd_actions: u32)
        requires
            old(connection).wf(),
            old(connection).can_enqueue((Request::WlDataSourceSetActions { sendto: self.id, dnd_actions })),
        ensures
            final(connection).enqueued(*old(connection), (Request::WlDataSourceSetActions { sendto: self.id, dnd_actions })),
    {
        connection.enqueue(Request::WlDataSourceSetActions { sendto: self.id, dnd_actions });
    }
}

/// There is one wl_data_device per seat which can be obtained from the global
/// wl_data_device_manager singleton.
#[derive(Debug, Clone, Copy, PartialEq, Eq, Structural)]
pub struct WlDataDevice {
    pub id: u32,
}

impl WlDataDevice {
    /// Queues `wl_data_device.start_drag`.
    ///
    /// This request asks the compositor to start a drag-and-drop operation on
    /// behalf of the client.
    pub fn start_drag(&self, connection: &mut Session, source: WlDataSource, origin: WlSurface, icon: WlSurface, serial: u32)
        requires
            old(connection).wf(),
            old(connection).can_enqueue((Request::WlDataDeviceStartDrag { sendto: self.id, source: source.id, origin: origin.id, icon: icon.id, serial })),
        ensures
            final(connection).enqueued(*old(connection), (Request::WlDataDeviceStartDrag { sendto: self.id, source: source.id, origin: origin.id, icon: icon.id, serial })),
    {
        connection.enqueue(Request::WlDataDeviceStartDrag { sendto: self.id, source: source.id, origin: origin.id, icon: icon.id, serial });
    }

    /// Queues `wl_data_device.set_selection`.
    ///
    /// This request asks the compositor to set the selection to the data from
    /// the source on behalf of the client.
    pub fn set_selection(&self, connection: &mut Session, source: WlDataSource, serial: u32)
        requires
            old(connection).wf(),
            old(connection).can_enqueue((Request::WlDataDeviceSetSelection { sendto: self.id, source: source.id, serial })),
        ensures
            final(connection).enqueued(*old(connection), (Request::WlDataDeviceSetSelection { sendto: self.id, source: source.id, serial })),
    {
        connection.enqueue(Request::WlDataDeviceSetSelection { sendto: self.id, source: source.id, serial });
    }

    /// Queues `wl_data_device.release`.
    ///
    /// This request destroys the data device.
    pub fn release(&self, connection: &mut Session)
        requires
            old(connection).wf(),
            old(connection).can_enqueue((Request::WlDataDeviceRelease { sendto: self.id })),
        ensures
            final(connection).enqueued(*old(connection), (Request::WlDataDeviceRelease { sendto: self.id })),
    {
        connection.enqueue(Request::WlDataDeviceRelease { sendto: self.id });
    }
}

/// The wl_data_device_manager is a singleton global object that provides access
/// to inter-client data transfer mechanisms such as copy-and-paste and drag-
/// and-drop.
#[derive(Debug, Clone, Copy, PartialEq, Eq, Structural)]
pub struct WlDataDeviceManager {
    pub id: u32,
}

impl WlDataDeviceManager {
    /// Queues `wl_data_device_manager.create_data_source`.
    ///
    /// Create a new data source.
    pub fn create_data_source(&self, connection: &mut Session) -> (r: WlDataSource)
        requires
            old(connection).wf(),
            old(connection).can_enqueue((Request::WlDataDeviceManagerCreateDataSource { sendto: self.id })),
        ensures
            final(connection).enqueued(*old(connection), (Request::WlDataDeviceManagerCreateDataSource { sendto: self.id })),
            r.id == old(connection).new_id_for((Request::WlDataDeviceManagerCreateDataSource { sendto: self.id })),
    {
        let id = connection.enqueue(Request::WlDataDeviceManagerCreateDataSource { sendto: self.id });
        WlDataSource { id }
    }

    /// Queues `wl_data_device_manager.get_data_device`.
    ///
    /// Create a new data device for a given seat.
    pub fn get_data_device(&self, connection: &mut Session, seat: WlSeat) -> (r: WlDataDevice)
        requires
            old(connection).wf(),
            old(connection).can_enqueue((Request::WlDataDeviceManagerGetDataDevice { sendto: self.id, seat: seat.id })),
        ensures
            final(connection).enqueued(*old(connection), (Request::WlDataDeviceManagerGetDataDevice { sendto: self.id, seat: seat.id })),
            r.id == old(connection).new_id_for((Request::WlDataDeviceManagerGetDataDevice { sendto: self.id, seat: seat.id })),
    {
        let id = connection.enqueue(Request::WlDataDeviceManagerGetDataDevice { sendto: self.id, seat: seat.id });
        WlDataDevice { id }
    }
}

/// This interface is implemented by servers that provide desktop-style user
/// interfaces.
#[derive(Debug, Clone, Copy, PartialEq, Eq, Structural)]
pub struct WlShell {
    pub id: u32,
}

impl WlShell {
    /// Queues `wl_shell.get_shell_surface`.
    ///
    /// Create a shell surface for an existing surface. This gives the
    /// wl_surface the role of a shell surface. If the wl_surface already has
    /// another role, it raises a protocol error.
    pub fn get_shell_surface(&self, connection: &mut Session, surface: WlSurface) -> (r: WlShellSurface)
        requires
            old(connection).wf(),
            old(connection).can_enqueue((Request::WlShellGetShellSurface { sendto: self.id, surface: surface.id })),
        ensures
            final(connection).enqueued(*old(connection), (Request::WlShellGetShellSurface { sendto: self.id, surface: surface.id })),
            r.id == old(connection).new_id_for((Request::WlShellGetShellSurface { sendto: self.id, surface: surface.id })),
    {
        let id = connection.enqueue(Request::WlShellGetShellSurface { sendto: self.id, surface: surface.id });
        WlShellSurface { id }
    }
}

/// An interface that may be implemented by a wl_surface, for implementations
/// that provide a desktop-style user interface.
#[derive(Debug, Clone, Copy, PartialEq, Eq, Structural)]
pub struct WlShellSurface {
    pub id: u32,
}

impl WlShellSurface {
    /// Queues `wl_shell_surface.pong`.
    ///
    /// A client must respond to a ping event with a pong request or the client
    /// may be deemed unresponsive.
    pub fn pong(&self, connection: &mut Session, serial: u32)
        requires
            old(connection).wf(),
            old(connection).can_enqueue((Request::WlShellSurfacePong { sendto: self.id, serial })),
        ensures
            final(connection).enqueued(*old(connection), (Request::WlShellSurfacePong { sendto: self.id, serial })),
    {
        connection.enqueue(Request::WlShellSurfacePong { sendto: self.id, serial });
    }

    /// Queues `wl_shell_surface.move`.
    ///
    /// Start a pointer-driven move of the surface.
    pub fn move_(&self, connection: &mut Session, seat: WlSeat, serial: u32)
        requires
            old(connection).wf(),
            old(connection).can_enqueue((Request::WlShellSurfaceMove { sendto: self.id, seat: seat.id, serial })),
        ensures
            final(connection).enqueued(*old(connection), (Request::WlShellSurfaceMove { sendto: self.id, seat: seat.id, serial })),
    {
        connection.enqueue(Request::WlShellSurfaceMove { sendto: self.id, seat: seat.id, serial });
    }

    /// Queues `wl_shell_surface.resize`.
    ///
    /// Start a pointer-driven resizing of the surface.
    pub fn resize(&self, connection: &mut Session, seat: WlSeat, serial: u32, edges: u32)
        requires
            old(connection).wf(),
            old(connection).can_enqueue((Request::WlShellSurfaceResize { sendto: self.id, seat: seat.id, serial, edges })),
        ensures
            final(connection).enqueued(*old(connection), (Request::WlShellSurfaceResize { sendto: self.id, seat: seat.id, serial, edges })),
    {
        connection.enqueue(Request::WlShellSurfaceResize { sendto: self.id, seat: seat.id, serial, edges });
    }

    /// Queues `wl_shell_surface.set_toplevel`.
    ///
    /// Map the surface as a toplevel surface.
    pub fn set_toplevel(&self, connection: &mut Session)
        requires
            old(connection).wf(),
            old(connection).can_enqueue((Request::WlShellSurfaceSetToplevel { sendto: self.id })),
        ensures
            final(connection).enqueued(*old(connection), (Request::WlShellSurfaceSetToplevel { sendto: self.id })),
    {
        connection.enqueue(Request::WlShellSurfaceSetToplevel { sendto: self.id });
    }

    /// Queues `wl_shell_surface.set_transient`.
    ///
    /// Map the surface relative to an existing surface.
    pub fn set_transient(&self, connection: &mut Session, parent: WlSurface, x: i32, y: i32, flags: u32)
        requires
            old(connection).wf(),
            old(connection).can_enqueue((Request::WlShellSurfaceSetTransient { sendto: self.id, parent: parent.id, x, y, flags })),
        ensures
            final(connection).enqueued(*old(connection), (Request::WlShellSurfaceSetTransient { sendto: self.id, parent: parent.id, x, y, flags })),
    {
        connection.enqueue(Request::WlShellSurfaceSetTransient { sendto: self.id, parent: parent.id, x, y, flags });
    }

    /// Queues `wl_shell_surface.set_fullscreen`.
    ///
    /// Map the surface as a fullscreen surface.
    pub fn set_fullscreen(&self, connection: &mut Session, method: u32, framerate: u32, output: WlOutput)
        requires
            old(connection).wf(),
            old(connection).can_enqueue((Request::WlShellSurfaceSetFullscreen { sendto: self.id, method, framerate, output: output.id })),
        ensures
            final(connection).enqueued(*old(connection), (Request::WlShellSurfaceSetFullscreen { sendto: self.id, method, framerate, output: output.id })),
    {
        connection.enqueue(Request::WlShellSurfaceSetFullscreen { sendto: self.id, method, framerate, output: output.id });
    }

    /// Queues `wl_shell_surface.set_popup`.
    ///
    /// Map the surface as a popup.
    pub fn set_popup(&self, connection: &mut Session, seat: WlSeat, serial: u32, parent: WlSurface, x: i32, y: i32, flags: u32)
        requires
            old(connection).wf(),
            old(connection).can_enqueue((Request::WlShellSurfaceSetPopup { sendto: self.id, seat: seat.id, serial, parent: parent.id, x, y, flags })),
        ensures
            final(connection).enqueued(*old(connection), (Request::WlShellSurfaceSetPopup { sendto: self.id, seat: seat.id, serial, parent: parent.id, x, y, flags })),
    {
        connection.enqueue(Request::WlShellSurfaceSetPopup { sendto: self.id, seat: seat.id, serial, parent: parent.id, x, y, flags });
    }

    /// Queues `wl_shell_surface.set_maximized`.
    ///
    /// Map the surface as a maximized surface.
    pub fn set_maximized(&self, connection: &mut Session, output: WlOutput)
        requires
            old(connection).wf(),
            old(connection).can_enqueue((Request::WlShellSurfaceSetMaximized { sendto: self.id, output: output.id })),
        ensures
            final(connection).enqueued(*old(connection), (Request::WlShellSurfaceSetMaximized { sendto: self.id, output: output.id })),
    {
        connection.enqueue(Request::WlShellSurfaceSetMaximized { sendto: self.id, output: output.id });
    }

    /// Queues `wl_shell_surface.set_title`.
    ///
    /// Set a short title for the surface.
    pub fn set_title(&self, connection: &mut Session, title: String)
        requires
            old(connection).wf(),
            old(connection).can_enqueue((Request::WlShellSurfaceSetTitle { sendto: self.id, title })),
        ensures
            final(connection).enqueued(*old(connection), (Request::WlShellSurfaceSetTitle { sendto: self.id, title })),
    {
        connection.enqueue(Request::WlShellSurfaceSetTitle { sendto: self.id, title });
    }

    /// Queues `wl_shell_surface.set_class`.
    ///
    /// Set a class for the surface.
    pub fn set_class(&self, connection: &mut Session, class_: String)
        requires
            old(connection).wf(),
            old(connection).can_enqueue((Request::WlShellSurfaceSetClass { sendto: self.id, class_ })),
        ensures
            final(connection).enqueued(*old(connection), (Request::WlShellSurfaceSetClass { sendto: self.id, class_ })),
    {
        connection.enqueue(Request::WlShellSurfaceSetClass { sendto: self.id, class_ });
    }
}

/// The callback of a `wl_surface.frame` request.
#[derive(Debug, Clone, Copy, PartialEq, Eq, Structural)]
pub struct WlSurfaceFrameCallback {
    pub id: u32,
}

/// A surface is a rectangular area that may be displayed on zero or more
/// outputs, and shown any number of times at the compositor's discretion.
#[derive(Debug, Clone, Copy, PartialEq, Eq, Structural)]
pub struct WlSurface {
    pub id: u32,
}

impl WlSurface {
    /// Queues `wl_surface.destroy`.
    ///
    /// Deletes the surface and invalidates its object ID.
    pub fn destroy(&self, connection: &mut Session)
        requires
            old(connection).wf(),
            old(connection).can_enqueue((Request::WlSurfaceDestroy { sendto: self.id })),
        ensures
            final(connection).enqueued(*old(connection), (Request::WlSurfaceDestroy { sendto: self.id })),
    {
        connection.enqueue(Request::WlSurfaceDestroy { sendto: self.id });
    }

    /// Queues `wl_surface.attach`.
    ///
    /// Set a buffer as the content of this surface.
    pub fn attach(&self, connection: &mut Session, buffer: WlBuffer, x: i32, y: i32)
        requires
            old(connection).wf(),
            old(connection).can_enqueue((Request::WlSurfaceAttach { sendto: self.id, buffer: buffer.id, x, y })),
        ensures
            final(connection).enqueued(*old(connection), (Request::WlSurfaceAttach { sendto: self.id, buffer: buffer.id, x, y })),
    {
        connection.enqueue(Request::WlSurfaceAttach { sendto: self.id, buffer: buffer.id, x, y });
    }

    /// Queues `wl_surface.damage`.
    ///
    /// This request is used to describe the regions where the pending buffer is
    /// different from the current surface contents, and where the surface
    /// therefore needs to be repainted.
    pub fn damage(&self, connection: &mut Session, x: i32, y: i32, width: i32, height: i32)
        requires
            old(connection).wf(),
            old(connection).can_enqueue((Request::WlSurfaceDamage { sendto: self.id, x, y, width, height })),
        ensures
            final(connection).enqueued(*old(connection), (Request::WlSurfaceDamage { sendto: self.id, x, y, width, height })),
    {
        connection.enqueue(Request::WlSurfaceDamage { sendto: self.id, x, y, width, height });
    }

    /// Queues `wl_surface.frame`.
    ///
    /// Request a notification when it is a good time to start drawing a new
    /// frame, by creating a frame callback. This is useful for throttling
    /// redrawing operations, and driving animations.
    pub fn frame(&self, connection: &mut Session) -> (r: WlSurfaceFrameCallback)
        requires
            old(connection).wf(),
            old(connection).can_enqueue((Request::WlSurfaceFrame { sendto: self.id })),
        ensures
            final(connection).enqueued(*old(connection), (Request::WlSurfaceFrame { sendto: self.id })),
            r.id == old(connection).new_id_for((Request::WlSurfaceFrame { sendto: self.id })),
    {
        let id = connection.enqueue(Request::WlSurfaceFrame { sendto: self.id });
        WlSurfaceFrameCallback { id }
    }

    /// Queues `wl_surface.set_opaque_region`.
    ///
    /// This request sets the region of the surface that contains opaque
    /// content.
    pub fn set_opaque_region(&self, connection: &mut Session, region: WlRegion)
        requires
            old(connection).wf(),
            old(connection).can_enqueue((Request::WlSurfaceSetOpaqueRegion { sendto: self.id, region: region.id })),
        ensures
            final(connection).enqueued(*old(connection), (Request::WlSurfaceSetOpaqueRegion { sendto: self.id, region: region.id })),
    {
        connection.enqueue(Request::WlSurfaceSetOpaqueRegion { sendto: self.id, region: region.id });
    }

    /// Queues `wl_surface.set_input_region`.
    ///
    /// This request sets the region of the surface that can receive pointer and
    /// touch events.
    pub fn set_input_region(&self, connection: &mut Session, region: WlRegion)
        requires
            old(connection).wf(),
            old(connection).can_enqueue((Request::WlSurfaceSetInputRegion { sendto: self.id, region: region.id })),
        ensures
            final(connection).enqueued(*old(connection), (Request::WlSurfaceSetInputRegion { sendto: self.id, region: region.id })),
    {
        connection.enqueue(Request::WlSurfaceSetInputRegion { sendto: self.id, region: region.id });
    }

    /// Queues `wl_surface.commit`.
    ///
    /// Surface state (input, opaque, and damage regions, attached buffers,
    /// etc.) is double-buffered. Protocol requests modify the pending state, as
    /// opposed to the current state in use by the compositor.
    pub fn commit(&self, connection: &mut Session)
        requires
            old(connection).wf(),
            old(connection).can_enqueue((Request::WlSurfaceCommit { sendto: self.id })),
        ensures
            final(connection).enqueued(*old(connection), (Request::WlSurfaceCommit { sendto: self.id })),
    {
        connection.enqueue(Request::WlSurfaceCommit { sendto: self.id });
    }

    /// Queues `wl_surface.set_buffer_transform`.
    ///
    /// This request sets an optional transformation on how the compositor
    /// interprets the contents of the buffer attached to the surface.
    pub fn set_buffer_transform(&self, connection: &mut Session, transform: i32)
        requires
            old(connection).wf(),
            old(connection).can_enqueue((Request::WlSurfaceSetBufferTransform { sendto: self.id, transform })),
        ensures
            final(connection).enqueued(*old(connection), (Request::WlSurfaceSetBufferTransform { sendto: self.id, transform })),
    {
        connection.enqueue(Request::WlSurfaceSetBufferTransform { sendto: self.id, transform });
    }

    /// Queues `wl_surface.set_buffer_scale`.
    ///
    /// This request sets an optional scaling factor on how the compositor
    /// interprets the contents of the buffer attached to the window.
    pub fn set_buffer_scale(&self, connection: &mut Session, scale: i32)
        requires
            old(connection).wf(),
            old(connection).can_enqueue((Request::WlSurfaceSetBufferScale { sendto: self.id, scale })),
        ensures
            final(connection).enqueued(*old(connection), (Request::WlSurfaceSetBufferScale { sendto: self.id, scale })),
    {
        connection.enqueue(Request::WlSurfaceSetBufferScale { sendto: self.id, scale });
    }

    /// Queues `wl_surface.damage_buffer`.
    ///
    /// This request is used to describe the regions where the pending buffer is
    /// different from the current surface contents, and where the surface
    /// therefore needs to be repainted.
    pub fn damage_buffer(&self, connection: &mut Session, x: i32, y: i32, width: i32, height: i32)
        requires
            old(connection).wf(),
            old(connection).can_enqueue((Request::WlSurfaceDamageBuffer { sendto: self.id, x, y, width, height })),
        ensures
            final(connection).enqueued(*old(connection), (Request::WlSurfaceDamageBuffer { sendto: self.id, x, y, width, height })),
    {
        connection.enqueue(Request::WlSurfaceDamageBuffer { sendto: self.id, x, y, width, height });
    }

    /// Queues `wl_surface.offset`.
    ///
    /// The x and y arguments specify the location of the new pending buffer's
    /// upper left corner, relative to the current buffer's upper left corner,
    /// in surface-local coordinates.
    pub fn offset(&self, connection: &mut Session, x: i32, y: i32)
        requires
            old(connection).wf(),
            old(connection).can_enqueue((Request::WlSurfaceOffset { sendto: self.id, x, y })),
        ensures
            final(connection).enqueued(*old(connection), (Request::WlSurfaceOffset { sendto: self.id, x, y })),
    {
        connection.enqueue(Request::WlSurfaceOffset { sendto: self.id, x, y });
    }
}

/// A seat is a group of keyboards, pointer and touch devices. This object is
/// published as a global during start up, or when such a device is hot plugged.
#[derive(Debug, Clone, Copy, PartialEq, Eq, Structural)]
pub struct WlSeat {
    pub id: u32,
}

impl WlSeat {
    /// Queues `wl_seat.get_pointer`.
    ///
    /// The ID provided will be initialized to the wl_pointer interface for this
    /// seat.
    pub fn get_pointer(&self, connection: &mut Session) -> (r: WlPointer)
        requires
            old(connection).wf(),
            old(connection).can_enqueue((Request::WlSeatGetPointer { sendto: self.id })),
        ensures
            final(connection).enqueued(*old(connection), (Request::WlSeatGetPointer { sendto: self.id })),
            r.id == old(connection).new_id_for((Request::WlSeatGetPointer { sendto: self.id })),
    {
        let id = connection.enqueue(Request::WlSeatGetPointer { sendto: self.id });
        WlPointer { id }
    }

    /// Queues `wl_seat.get_keyboard`.
    ///
    /// The ID provided will be initialized to the wl_keyboard interface for
    /// this seat.
    pub fn get_keyboard(&self, connection: &mut Session) -> (r: WlKeyboard)
        requires
            old(connection).wf(),
            old(connection).can_enqueue((Request::WlSeatGetKeyboard { sendto: self.id })),
        ensures
            final(connection).enqueued(*old(connection), (Request::WlSeatGetKeyboard { sendto: self.id })),
            r.id == old(connection).new_id_for((Request::WlSeatGetKeyboard { sendto: self.id })),
    {
        let id = connection.enqueue(Request::WlSeatGetKeyboard { sendto: self.id });
        WlKeyboard { id }
    }

    /// Queues `wl_seat.get_touch`.
    ///
    /// The ID provided will be initialized to the wl_touch interface for this
    /// seat.
    pub fn get_touch(&self, connection: &mut Session) -> (r: WlTouch)
        requires
            old(connection).wf(),
            old(connection).can_enqueue((Request::WlSeatGetTouch { sendto: self.id })),
        ensures
            final(connection).enqueued(*old(connection), (Request::WlSeatGetTouch { sendto: self.id })),
            r.id == old(connection).new_id_for((Request::WlSeatGetTouch { sendto: self.id })),
    {
        let id = connection.enqueue(Request::WlSeatGetTouch { sendto: self.id });
        WlTouch { id }
    }

    /// Queues `wl_seat.release`.
    ///
    /// Using this request a client can tell the server that it is not going to
    /// use the seat object anymore.
    pub fn release(&self, connection: &mut Session)
        requires
            old(connection).wf(),
            old(connection).can_enqueue((Request::WlSeatRelease { sendto: self.id })),
        ensures
            final(connection).enqueued(*old(connection), (Request::WlSeatRelease { sendto: self.id })),
    {
        connection.enqueue(Request::WlSeatRelease { sendto: self.id });
    }
}

/// The wl_pointer interface represents one or more input devices, such as mice,
/// which control the pointer location and pointer_focus of a seat.
#[derive(Debug, Clone, Copy, PartialEq, Eq, Structural)]
pub struct WlPointer {
    pub id: u32,
}

impl WlPointer {
    /// Queues `wl_pointer.set_cursor`.
    ///
    /// Set the pointer surface, i.e., the surface that contains the pointer
    /// image (cursor). This request gives the surface the role of a cursor. If
    /// the surface already has another role, it raises a protocol error.
    pub fn set_cursor(&self, connection: &mut Session, serial: u32, surface: WlSurface, hotspot_x: i32, hotspot_y: i32)
        requires
            old(connection).wf(),
            old(connection).can_enqueue((Request::WlPointerSetCursor { sendto: self.id, serial, surface: surface.id, hotspot_x, hotspot_y })),
        ensures
            final(connection).enqueued(*old(connection), (Request::WlPointerSetCursor { sendto: self.id, serial, surface: surface.id, hotspot_x, hotspot_y })),
    {
        connection.enqueue(Request::WlPointerSetCursor { sendto: self.id, serial, surface: surface.id, hotspot_x, hotspot_y });
    }

    /// Queues `wl_pointer.release`.
    ///
    /// Using this request a client can tell the server that it is not going to
    /// use the pointer object anymore.
    pub fn release(&self, connection: &mut Session)
        requires
            old(connection).wf(),
            old(connection).can_enqueue((Request::WlPointerRelease { sendto: self.id })),
        ensures
            final(connection).enqueued(*old(connection), (Request::WlPointerRelease { sendto: self.id })),
    {
        connection.enqueue(Request::WlPointerRelease { sendto: self.id });
    }
}

/// The wl_keyboard interface represents one or more keyboards associated with a
/// seat.
#[derive(Debug, Clone, Copy, PartialEq, Eq, Structural)]
pub struct WlKeyboard {
    pub id: u32,
}

impl WlKeyboard {
    /// Queues `wl_keyboard.release`.
    pub fn release(&self, connection: &mut Session)
        requires
            old(connection).wf(),
            old(connection).can_enqueue((Request::WlKeyboardRelease { sendto: self.id })),
        ensures
            final(connection).enqueued(*old(connection), (Request::WlKeyboardRelease { sendto: self.id })),
    {
        connection.enqueue(Request::WlKeyboardRelease { sendto: self.id });
    }
}

/// The wl_touch interface represents a touchscreen associated with a seat.
#[derive(Debug, Clone, Copy, PartialEq, Eq, Structural)]
pub struct WlTouch {
    pub id: u32,
}

impl WlTouch {
    /// Queues `wl_touch.release`.
    pub fn release(&self, connection: &mut Session)
        requires
            old(connection).wf(),
            old(connection).can_enqueue((Request::WlTouchRelease { sendto: self.id })),
        ensures
            final(connection).enqueued(*old(connection), (Request::WlTouchRelease { sendto: self.id })),
    {
        connection.enqueue(Request::WlTouchRelease { sendto: self.id });
    }
}

/// An output describes part of the compositor geometry. The compositor works in
/// the 'compositor coordinate system' and an output corresponds to a
/// rectangular area in that space that is actually visible.
#[derive(Debug, Clone, Copy, PartialEq, Eq, Structural)]
pub struct WlOutput {
    pub id: u32,
}

impl WlOutput {
    /// Queues `wl_output.release`.
    ///
    /// Using this request a client can tell the server that it is not going to
    /// use the output object anymore.
    pub fn release(&self, connection: &mut Session)
        requires
            old(connection).wf(),
            old(connection).can_enqueue((Request::WlOutputRelease { sendto: self.id })),
        ensures
            final(connection).enqueued(*old(connection), (Request::WlOutputRelease { sendto: self.id })),
    {
        connection.enqueue(Request::WlOutputRelease { sendto: self.id });
    }
}

/// A region object describes an area.
#[derive(Debug, Clone, Copy, PartialEq, Eq, Structural)]
pub struct WlRegion {
    pub id: u32,
}

impl WlRegion {
    /// Queues `wl_region.destroy`.
    ///
    /// Destroy the region. This will invalidate the object ID.
    pub fn destroy(&self, connection: &mut Session)
        requires
            old(connection).wf(),
            old(connection).can_enqueue((Request::WlRegionDestroy { sendto: self.id })),
        ensures
            final(connection).enqueued(*old(connection), (Request::WlRegionDestroy { sendto: self.id })),
    {
        connection.enqueue(Request::WlRegionDestroy { sendto: self.id });
    }

    /// Queues `wl_region.add`.
    ///
    /// Add the specified rectangle to the region.
    pub fn add(&self, connection: &mut Session, x: i32, y: i32, width: i32, height: i32)
        requires
            old(connection).wf(),
            old(connection).can_enqueue((Request::WlRegionAdd { sendto: self.id, x, y, width, height })),
        ensures
            final(connection).enqueued(*old(connection), (Request::WlRegionAdd { sendto: self.id, x, y, width, height })),
    {
        connection.enqueue(Request::WlRegionAdd { sendto: self.id, x, y, width, height });
    }

    /// Queues `wl_region.subtract`.
    ///
    /// Subtract the specified rectangle from the region.
    pub fn subtract(&self, connection: &mut Session, x: i32, y: i32, width: i32, height: i32)
        requires
            old(connection).wf(),
            old(connection).can_enqueue((Request::WlRegionSubtract { sendto: self.id, x, y, width, height })),
        ensures
            final(connection).enqueued(*old(connection), (Request::WlRegionSubtract { sendto: self.id, x, y, width, height })),
    {
        connection.enqueue(Request::WlRegionSubtract { sendto: self.id, x, y, width, height });
    }
}

/// The global interface exposing sub-surface compositing capabilities. A
/// wl_surface, that has sub-surfaces associated, is called the parent surface.
/// Sub-surfaces can be arbitrarily nested and create a tree of sub-surfaces.
#[derive(Debug, Clone, Copy, PartialEq, Eq, Structural)]
pub struct WlSubcompositor {
    pub id: u32,
}

impl WlSubcompositor {
    /// Queues `wl_subcompositor.destroy`.
    ///
    /// Informs the server that the client will not be using this protocol
    /// object anymore. This does not affect any other objects, wl_subsurface
    /// objects included.
    pub fn destroy(&self, connection: &mut Session)
        requires
            old(connection).wf(),
            old(connection).can_enqueue((Request::WlSubcompositorDestroy { sendto: self.id })),
        ensures
            final(connection).enqueued(*old(connection), (Request::WlSubcompositorDestroy { sendto: self.id })),
    {
        connection.enqueue(Request::WlSubcompositorDestroy { sendto: self.id });
    }

    /// Queues `wl_subcompositor.get_subsurface`.
    ///
    /// Create a sub-surface interface for the given surface, and associate it
    /// with the given parent surface. This turns a plain wl_surface into a sub-
    /// surface.
    pub fn get_subsurface(&self, connection: &mut Session, surface: WlSurface, parent: WlSurface) -> (r: WlSubsurface)
        requires
            old(connection).wf(),
            old(connection).can_enqueue((Request::WlSubcompositorGetSubsurface { sendto: self.id, surface: surface.id, parent: parent.id })),
        ensures
            final(connection).enqueued(*old(connection), (Request::WlSubcompositorGetSubsurface { sendto: self.id, surface: surface.id, parent: parent.id })),
            r.id == old(connection).new_id_for((Request::WlSubcompositorGetSubsurface { sendto: self.id, surface: surface.id, parent: parent.id })),
    {
        let id = connection.enqueue(Request::WlSubcompositorGetSubsurface { sendto: self.id, surface: surface.id, parent: parent.id });
        WlSubsurface { id }
    }
}

/// An additional interface to a wl_surface object, which has been made a sub-
/// surface. A sub-surface has one parent surface. A sub-surface's size and
/// position are not limited to that of the parent.
#[derive(Debug, Clone, Copy, PartialEq, Eq, Structural)]
pub struct WlSubsurface {
    pub id: u32,
}

impl WlSubsurface {
    /// Queues `wl_subsurface.destroy`.
    ///
    /// The sub-surface interface is removed from the wl_surface object that was
    /// turned into a sub-surface with a wl_subcompositor.get_subsurface
    /// request.
    pub fn destroy(&self, connection: &mut Session)
        requires
            old(connection).wf(),
            old(connection).can_enqueue((Request::WlSubsurfaceDestroy { sendto: self.id })),
        ensures
            final(connection).enqueued(*old(connection), (Request::WlSubsurfaceDestroy { sendto: self.id })),
    {
        connection.enqueue(Request::WlSubsurfaceDestroy { sendto: self.id });
    }

    /// Queues `wl_subsurface.set_position`.
    ///
    /// This schedules a sub-surface position change. The sub-surface will be
    /// moved so that its origin (top left corner pixel) will be at the location
    /// x, y of the parent surface coordinate system.
    pub fn set_position(&self, connection: &mut Session, x: i32, y: i32)
        requires
            old(connection).wf(),
            old(connection).can_enqueue((Request::WlSubsurfaceSetPosition { sendto: self.id, x, y })),
        ensures
            final(connection).enqueued(*old(connection), (Request::WlSubsurfaceSetPosition { sendto: self.id, x, y })),
    {
        connection.enqueue(Request::WlSubsurfaceSetPosition { sendto: self.id, x, y });
    }

    /// Queues `wl_subsurface.place_above`.
    ///
    /// This sub-surface is taken from the stack, and put back just above the
    /// reference surface, changing the z-order of the sub-surfaces.
    pub fn place_above(&self, connection: &mut Session, sibling: WlSurface)
        requires
            old(connection).wf(),
            old(connection).can_enqueue((Request::WlSubsurfacePlaceAbove { sendto: self.id, sibling: sibling.id })),
        ensures
            final(connection).enqueued(*old(connection), (Request::WlSubsurfacePlaceAbove { sendto: self.id, sibling: sibling.id })),
    {
        connection.enqueue(Request::WlSubsurfacePlaceAbove { sendto: self.id, sibling: sibling.id });
    }

    /// Queues `wl_subsurface.place_below`.
    ///
    /// The sub-surface is placed just below the reference surface. See
    /// wl_subsurface.place_above.
    pub fn place_below(&self, connection: &mut Session, sibling: WlSurface)
        requires
            old(connection).wf(),
            old(connection).can_enqueue((Request::WlSubsurfacePlaceBelow { sendto: self.id, sibling: sibling.id })),
        ensures
            final(connection).enqueued(*old(connection), (Request::WlSubsurfacePlaceBelow { sendto: self.id, sibling: sibling.id })),
    {
        connection.enqueue(Request::WlSubsurfacePlaceBelow { sendto: self.id, sibling: sibling.id });
    }

    /// Queues `wl_subsurface.set_sync`.
    ///
    /// Change the commit behaviour of the sub-surface to synchronized mode,
    /// also described as the parent dependent mode.
    pub fn set_sync(&self, connection: &mut Session)
        requires
            old(connection).wf(),
            old(connection).can_enqueue((Request::WlSubsurfaceSetSync { sendto: self.id })),
        ensures
            final(connection).enqueued(*old(connection), (Request::WlSubsurfaceSetSync { sendto: self.id })),
    {
        connection.enqueue(Request::WlSubsurfaceSetSync { sendto: self.id });
    }

    /// Queues `wl_subsurface.set_desync`.
    ///
    /// Change the commit behaviour of the sub-surface to desynchronized mode,
    /// also described as independent or freely running mode.
    pub fn set_desync(&self, connection: &mut Session)
        requires
            old(connection).wf(),
            old(connection).can_enqueue((Request::WlSubsurfaceSetDesync { sendto: self.id })),
        ensures
            final(connection).enqueued(*old(connection), (Request::WlSubsurfaceSetDesync { sendto: self.id })),
    {
        connection.enqueue(Request::WlSubsurfaceSetDesync { sendto: self.id });
    }
}

/// Factory for buffers backed by dmabufs.
#[derive(Debug, Clone, Copy, PartialEq, Eq, Structural)]
pub struct ZwpLinuxDmabufV1 {
    pub id: u32,
}

impl ZwpLinuxDmabufV1 {
    /// Queues `zwp_linux_dmabuf_v1.destroy`.
    ///
    /// Objects created through this interface, especially wl_buffers, will
    /// remain valid.
    pub fn destroy(&self, connection: &mut Session)
        requires
            old(connection).wf(),
            old(connection).can_enqueue((Request::ZwpLinuxDmabufV1Destroy { sendto: self.id })),
        ensures
            final(connection).enqueued(*old(connection), (Request::ZwpLinuxDmabufV1Destroy { sendto: self.id })),
    {
        connection.enqueue(Request::ZwpLinuxDmabufV1Destroy { sendto: self.id });
    }

    /// Queues `zwp_linux_dmabuf_v1.create_params`.
    ///
    /// This temporary object is used to collect multiple dmabuf handles into a
    /// single batch to create a wl_buffer. It can only be used once and should
    /// be destroyed after a 'created' or 'failed' event has been received.
    pub fn create_params(&self, connection: &mut Session) -> (r: ZwpLinuxBufferParamsV1)
        requires
            old(connection).wf(),
            old(connection).can_enqueue((Request::ZwpLinuxDmabufV1CreateParams { sendto: self.id })),
        ensures
            final(connection).enqueued(*old(connection), (Request::ZwpLinuxDmabufV1CreateParams { sendto: self.id })),
            r.id == old(connection).new_id_for((Request::ZwpLinuxDmabufV1CreateParams { sendto: self.id })),
    {
        let id = connection.enqueue(Request::ZwpLinuxDmabufV1CreateParams { sendto: self.id });
        ZwpLinuxBufferParamsV1 { id }
    }

    /// Queues `zwp_linux_dmabuf_v1.get_default_feedback`.
    ///
    /// This request creates a new wp_linux_dmabuf_feedback object not bound to
    /// a particular surface.
    pub fn get_default_feedback(&self, connection: &mut Session) -> (r: ZwpLinuxDmabufFeedbackV1)
        requires
            old(connection).wf(),
            old(connection).can_enqueue((Request::ZwpLinuxDmabufV1GetDefaultFeedback { sendto: self.id })),
        ensures
            final(connection).enqueued(*old(connection), (Request::ZwpLinuxDmabufV1GetDefaultFeedback { sendto: self.id })),
            r.id == old(connection).new_id_for((Request::ZwpLinuxDmabufV1GetDefaultFeedback { sendto: self.id })),
    {
        let id = connection.enqueue(Request::ZwpLinuxDmabufV1GetDefaultFeedback { sendto: self.id });
        ZwpLinuxDmabufFeedbackV1 { id }
    }

    /// Queues `zwp_linux_dmabuf_v1.get_surface_feedback`.
    ///
    /// This request creates a new wp_linux_dmabuf_feedback object for the
    /// specified wl_surface. This object will deliver feedback about dmabuf
    /// parameters to use for buffers attached to this surface.
    pub fn get_surface_feedback(&self, connection: &mut Session, surface: WlSurface) -> (r: ZwpLinuxDmabufFeedbackV1)
        requires
            old(connection).wf(),
            old(connection).can_enqueue((Request::ZwpLinuxDmabufV1GetSurfaceFeedback { sendto: self.id, surface: surface.id })),
        ensures
            final(connection).enqueued(*old(connection), (Request::ZwpLinuxDmabufV1GetSurfaceFeedback { sendto: self.id, surface: surface.id })),
            r.id == old(connection).new_id_for((Request::ZwpLinuxDmabufV1GetSurfaceFeedback { sendto: self.id, surface: surface.id })),
    {
        let id = connection.enqueue(Request::ZwpLinuxDmabufV1GetSurfaceFeedback { sendto: self.id, surface: surface.id });
        ZwpLinuxDmabufFeedbackV1 { id }
    }
}

/// Collects the planes of one dmabuf-backed buffer before it is created.
#[derive(Debug, Clone, Copy, PartialEq, Eq, Structural)]
pub struct ZwpLinuxBufferParamsV1 {
    pub id: u32,
}

impl ZwpLinuxBufferParamsV1 {
    /// Queues `zwp_linux_buffer_params_v1.destroy`.
    ///
    /// Cleans up the temporary data sent to the server for dmabuf-based
    /// wl_buffer creation.
    pub fn destroy(&self, connection: &mut Session)
        requires
            old(connection).wf(),
            old(connection).can_enqueue((Request::ZwpLinuxBufferParamsV1Destroy { sendto: self.id })),
        ensures
            final(connection).enqueued(*old(connection), (Request::ZwpLinuxBufferParamsV1Destroy { sendto: self.id })),
    {
        connection.enqueue(Request::ZwpLinuxBufferParamsV1Destroy { sendto: self.id });
    }

    /// Queues `zwp_linux_buffer_params_v1.add`.
    ///
    /// This request adds one dmabuf to the set in this
    /// zwp_linux_buffer_params_v1.
    pub fn add(&self, connection: &mut Session, fd: i32, plane_idx: u32, offset: u32, stride: u32, modifier_hi: u32, modifier_lo: u32)
        requires
            old(connection).wf(),
            old(connection).can_enqueue((Request::ZwpLinuxBufferParamsV1Add { sendto: self.id, fd, plane_idx, offset, stride, modifier_hi, modifier_lo })),
        ensures
            final(connection).enqueued(*old(connection), (Request::ZwpLinuxBufferParamsV1Add { sendto: self.id, fd, plane_idx, offset, stride, modifier_hi, modifier_lo })),
    {
        connection.enqueue(Request::ZwpLinuxBufferParamsV1Add { sendto: self.id, fd, plane_idx, offset, stride, modifier_hi, modifier_lo });
    }

    /// Queues `zwp_linux_buffer_params_v1.create`.
    ///
    /// This asks for creation of a wl_buffer from the added dmabuf buffers. The
    /// wl_buffer is not created immediately but returned via the 'created'
    /// event if the dmabuf sharing succeeds.
    pub fn create(&self, connection: &mut Session, width: i32, height: i32, format: u32, flags: u32)
        requires
            old(connection).wf(),
            old(connection).can_enqueue((Request::ZwpLinuxBufferParamsV1Create { sendto: self.id, width, height, format, flags })),
        ensures
            final(connection).enqueued(*old(connection), (Request::ZwpLinuxBufferParamsV1Create { sendto: self.id, width, height, format, flags })),
    {
        connection.enqueue(Request::ZwpLinuxBufferParamsV1Create { sendto: self.id, width, height, format, flags });
    }

    /// Queues `zwp_linux_buffer_params_v1.create_immed`.
    ///
    /// This asks for immediate creation of a wl_buffer by importing the added
    /// dmabufs.
    pub fn create_immed(&self, connection: &mut Session, width: i32, height: i32, format: u32, flags: u32) -> (r: WlBuffer)
        requires
            old(connection).wf(),
            old(connection).can_enqueue((Request::ZwpLinuxBufferParamsV1CreateImmed { sendto: self.id, width, height, format, flags })),
        ensures
            final(connection).enqueued(*old(connection), (Request::ZwpLinuxBufferParamsV1CreateImmed { sendto: self.id, width, height, format, flags })),
            r.id == old(connection).new_id_for((Request::ZwpLinuxBufferParamsV1CreateImmed { sendto: self.id, width, height, format, flags })),
    {
        let id = connection.enqueue(Request::ZwpLinuxBufferParamsV1CreateImmed { sendto: self.id, width, height, format, flags });
        WlBuffer { id }
    }
}

/// Reports which formats and devices suit dmabuf buffers.
#[derive(Debug, Clone, Copy, PartialEq, Eq, Structural)]
pub struct ZwpLinuxDmabufFeedbackV1 {
    pub id: u32,
}

impl ZwpLinuxDmabufFeedbackV1 {
    /// Queues `zwp_linux_dmabuf_feedback_v1.destroy`.
    ///
    /// Using this request a client can tell the server that it is not going to
    /// use the wp_linux_dmabuf_feedback object anymore.
    pub fn destroy(&self, connection: &mut Session)
        requires
            old(connection).wf(),
            old(connection).can_enqueue((Request::ZwpLinuxDmabufFeedbackV1Destroy { sendto: self.id })),
        ensures
            final(connection).enqueued(*old(connection), (Request::ZwpLinuxDmabufFeedbackV1Destroy { sendto: self.id })),
    {
        connection.enqueue(Request::ZwpLinuxDmabufFeedbackV1Destroy { sendto: self.id });
    }
}

} // verus!
