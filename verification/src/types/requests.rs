//! Requests: one variant for each request of each interface, with the
//! layout of its message.
use crate::types::object::Object;
use crate::types::MessageHeader;
use crate::wire::{
    int_bytes, lemma_string_bytes, string_bytes, string_size, string_wire_len, word_bytes,
    MAX_MSG_SIZE,
};
use vstd::prelude::*;

verus! {

/// A request to an object of the server. `sendto` is the id of that
/// object; the other fields are the arguments in the order of the protocol.
/// A file descriptor travels beside the message, not in it.
#[derive(Debug)]
#[allow(inconsistent_fields)]
pub enum Request {
    /// `zwp_linux_dmabuf_v1.destroy`
    ///
    /// Objects created through this interface, especially wl_buffers, will
    /// remain valid.
    ZwpLinuxDmabufV1Destroy {
        sendto: u32,
    },
    /// `zwp_linux_dmabuf_v1.create_params`
    ///
    /// This temporary object is used to collect multiple dmabuf handles into a
    /// single batch to create a wl_buffer. It can only be used once and should
    /// be destroyed after a 'created' or 'failed' event has been received.
    ZwpLinuxDmabufV1CreateParams {
        sendto: u32,
    },
    /// `zwp_linux_dmabuf_v1.get_default_feedback`
    ///
    /// This request creates a new wp_linux_dmabuf_feedback object not bound to
    /// a particular surface.
    ZwpLinuxDmabufV1GetDefaultFeedback {
        sendto: u32,
    },
    /// `zwp_linux_dmabuf_v1.get_surface_feedback`
    ///
    /// This request creates a new wp_linux_dmabuf_feedback object for the
    /// specified wl_surface. This object will deliver feedback about dmabuf
    /// parameters to use for buffers attached to this surface.
    ZwpLinuxDmabufV1GetSurfaceFeedback {
        sendto: u32,
        surface: u32,
    },
    /// `zwp_linux_buffer_params_v1.destroy`
    ///
    /// Cleans up the temporary data sent to the server for dmabuf-based
    /// wl_buffer creation.
    ZwpLinuxBufferParamsV1Destroy {
        sendto: u32,
    },
    /// `zwp_linux_buffer_params_v1.add`
    ///
    /// This request adds one dmabuf to the set in this
    /// zwp_linux_buffer_params_v1.
    ZwpLinuxBufferParamsV1Add {
        sendto: u32,
        /// Dmabuf fd.
        fd: i32,
        /// Plane index.
        plane_idx: u32,
        /// Offset in bytes.
        offset: u32,
        /// Stride in bytes.
        stride: u32,
        /// High 32 bits of layout modifier.
        modifier_hi: u32,
        /// Low 32 bits of layout modifier.
        modifier_lo: u32,
    },
    /// `zwp_linux_buffer_params_v1.create`
    ///
    /// This asks for creation of a wl_buffer from the added dmabuf buffers. The
    /// wl_buffer is not created immediately but returned via the 'created'
    /// event if the dmabuf sharing succeeds.
    ZwpLinuxBufferParamsV1Create {
        sendto: u32,
        /// Base plane width in pixels.
        width: i32,
        /// Base plane height in pixels.
        height: i32,
        /// DRM_FORMAT code.
        format: u32,
        /// See enum flags.
        flags: u32,
    },
    /// `zwp_linux_buffer_params_v1.create_immed`
    ///
    /// This asks for immediate creation of a wl_buffer by importing the added
    /// dmabufs.
    ZwpLinuxBufferParamsV1CreateImmed {
        sendto: u32,
        /// Base plane width in pixels.
        width: i32,
        /// Base plane height in pixels.
        height: i32,
        /// DRM_FORMAT code.
        format: u32,
        /// See enum flags.
        flags: u32,
    },
    /// `zwp_linux_dmabuf_feedback_v1.destroy`
    ///
    /// Using this request a client can tell the server that it is not going to
    /// use the wp_linux_dmabuf_feedback object anymore.
    ZwpLinuxDmabufFeedbackV1Destroy {
        sendto: u32,
    },
    /// `xdg_wm_base.destroy`
    ///
    /// Destroy this xdg_wm_base object.
    XdgWmBaseDestroy {
        sendto: u32,
    },
    /// `xdg_wm_base.create_positioner`
    ///
    /// Create a positioner object. A positioner object is used to position
    /// surfaces relative to some parent surface. See the interface description
    /// and xdg_surface.get_popup for details.
    XdgWmBaseCreatePositioner {
        sendto: u32,
    },
    /// `xdg_wm_base.get_xdg_surface`
    ///
    /// This creates an xdg_surface for the given surface. While xdg_surface
    /// itself is not a role, the corresponding surface may only be assigned a
    /// role extending xdg_surface, such as xdg_toplevel or xdg_popup.
    XdgWmBaseGetXdgSurface {
        sendto: u32,
        surface: u32,
    },
    /// `xdg_wm_base.pong`
    ///
    /// A client must respond to a ping event with a pong request or the client
    /// may be deemed unresponsive. See xdg_wm_base.ping and
    /// xdg_wm_base.error.unresponsive.
    XdgWmBasePong {
        sendto: u32,
        /// Serial of the ping event.
        serial: u32,
    },
    /// `xdg_positioner.destroy`
    ///
    /// Notify the compositor that the xdg_positioner will no longer be used.
    XdgPositionerDestroy {
        sendto: u32,
    },
    /// `xdg_positioner.set_size`
    ///
    /// Set the size of the surface that is to be positioned with the positioner
    /// object. The size is in surface-local coordinates and corresponds to the
    /// window geometry.
    XdgPositionerSetSize {
        sendto: u32,
        /// Width of positioned rectangle.
        width: i32,
        /// Height of positioned rectangle.
        height: i32,
    },
    /// `xdg_positioner.set_anchor_rect`
    ///
    /// Specify the anchor rectangle within the parent surface that the child
    /// surface will be placed relative to.
    XdgPositionerSetAnchorRect {
        sendto: u32,
        /// X position of anchor rectangle.
        x: i32,
        /// Y position of anchor rectangle.
        y: i32,
        /// Width of anchor rectangle.
        width: i32,
        /// Height of anchor rectangle.
        height: i32,
    },
    /// `xdg_positioner.set_anchor`
    ///
    /// Defines the anchor point for the anchor rectangle. The specified anchor
    /// is used derive an anchor point that the child surface will be positioned
    /// relative to.
    XdgPositionerSetAnchor {
        sendto: u32,
        /// Anchor.
        anchor: u32,
    },
    /// `xdg_positioner.set_gravity`
    ///
    /// Defines in what direction a surface should be positioned, relative to
    /// the anchor point of the parent surface.
    XdgPositionerSetGravity {
        sendto: u32,
        /// Gravity direction.
        gravity: u32,
    },
    /// `xdg_positioner.set_constraint_adjustment`
    ///
    /// Specify how the window should be positioned if the originally intended
    /// position caused the surface to be constrained, meaning at least
    /// partially outside positioning boundaries set by the compositor.
    XdgPositionerSetConstraintAdjustment {
        sendto: u32,
        /// Bit mask of constraint adjustments.
        constraint_adjustment: u32,
    },
    /// `xdg_positioner.set_offset`
    ///
    /// Specify the surface position offset relative to the position of the
    /// anchor on the anchor rectangle and the anchor on the surface.
    XdgPositionerSetOffset {
        sendto: u32,
        /// Surface position x offset.
        x: i32,
        /// Surface position y offset.
        y: i32,
    },
    /// `xdg_positioner.set_reactive`
    ///
    /// When set reactive, the surface is reconstrained if the conditions used
    /// for constraining changed, e.g. the parent window moved.
    XdgPositionerSetReactive {
        sendto: u32,
    },
    /// `xdg_positioner.set_parent_size`
    ///
    /// Set the parent window geometry the compositor should use when
    /// positioning the popup. The compositor may use this information to
    /// determine the future state the popup should be constrained using.
    XdgPositionerSetParentSize {
        sendto: u32,
        /// Future window geometry width of parent.
        parent_width: i32,
        /// Future window geometry height of parent.
        parent_height: i32,
    },
    /// `xdg_positioner.set_parent_configure`
    ///
    /// Set the serial of an xdg_surface.configure event this positioner will be
    /// used in response to.
    XdgPositionerSetParentConfigure {
        sendto: u32,
        /// Serial of parent configure event.
        serial: u32,
    },
    /// `xdg_surface.destroy`
    ///
    /// Destroy the xdg_surface object. An xdg_surface must only be destroyed
    /// after its role object has been destroyed, otherwise a
    /// defunct_role_object error is raised.
    XdgSurfaceDestroy {
        sendto: u32,
    },
    /// `xdg_surface.get_toplevel`
    ///
    /// This creates an xdg_toplevel object for the given xdg_surface and gives
    /// the associated wl_surface the xdg_toplevel role.
    XdgSurfaceGetToplevel {
        sendto: u32,
    },
    /// `xdg_surface.get_popup`
    ///
    /// This creates an xdg_popup object for the given xdg_surface and gives the
    /// associated wl_surface the xdg_popup role.
    XdgSurfaceGetPopup {
        sendto: u32,
        parent: u32,
        positioner: u32,
    },
    /// `xdg_surface.set_window_geometry`
    ///
    /// The window geometry of a surface is its "visible bounds" from the user's
    /// perspective.
    XdgSurfaceSetWindowGeometry {
        sendto: u32,
        x: i32,
        y: i32,
        width: i32,
        height: i32,
    },
    /// `xdg_surface.ack_configure`
    ///
    /// When a configure event is received, if a client commits the surface in
    /// response to the configure event, then the client must make an
    /// ack_configure request sometime before the commit request, passing along
    /// the serial of the configure event.
    XdgSurfaceAckConfigure {
        sendto: u32,
        /// The serial from the configure event.
        serial: u32,
    },
    /// `xdg_toplevel.destroy`
    ///
    /// This request destroys the role surface and unmaps the surface; see
    /// "Unmapping" behavior in interface section for details.
    XdgToplevelDestroy {
        sendto: u32,
    },
    /// `xdg_toplevel.set_parent`
    ///
    /// Set the "parent" of this surface. This surface should be stacked above
    /// the parent surface and all other ancestor surfaces.
    XdgToplevelSetParent {
        sendto: u32,
        parent: u32,
    },
    /// `xdg_toplevel.set_title`
    ///
    /// Set a short title for the surface.
    XdgToplevelSetTitle {
        sendto: u32,
        title: String,
    },
    /// `xdg_toplevel.set_app_id`
    ///
    /// Set an application identifier for the surface.
    XdgToplevelSetAppId {
        sendto: u32,
        app_id: String,
    },
    /// `xdg_toplevel.show_window_menu`
    ///
    /// Clients implementing client-side decorations might want to show a
    /// context menu when right-clicking on the decorations, giving the user a
    /// menu that they can use to maximize or minimize the window.
    XdgToplevelShowWindowMenu {
        sendto: u32,
        /// The wl_seat of the user event.
        seat: u32,
        /// The serial of the user event.
        serial: u32,
        /// The x position to pop up the window menu at.
        x: i32,
        /// The y position to pop up the window menu at.
        y: i32,
    },
    /// `xdg_toplevel.move`
    ///
    /// Start an interactive, user-driven move of the surface.
    XdgToplevelMove {
        sendto: u32,
        /// The wl_seat of the user event.
        seat: u32,
        /// The serial of the user event.
        serial: u32,
    },
    /// `xdg_toplevel.resize`
    ///
    /// Start a user-driven, interactive resize of the surface.
    XdgToplevelResize {
        sendto: u32,
        /// The wl_seat of the user event.
        seat: u32,
        /// The serial of the user event.
        serial: u32,
        /// Which edge or corner is being dragged.
        edges: u32,
    },
    /// `xdg_toplevel.set_max_size`
    ///
    /// Set a maximum size for the window.
    XdgToplevelSetMaxSize {
        sendto: u32,
        width: i32,
        height: i32,
    },
    /// `xdg_toplevel.set_min_size`
    ///
    /// Set a minimum size for the window.
    XdgToplevelSetMinSize {
        sendto: u32,
        width: i32,
        height: i32,
    },
    /// `xdg_toplevel.set_maximized`
    ///
    /// Maximize the surface.
    XdgToplevelSetMaximized {
        sendto: u32,
    },
    /// `xdg_toplevel.unset_maximized`
    ///
    /// Unmaximize the surface.
    XdgToplevelUnsetMaximized {
        sendto: u32,
    },
    /// `xdg_toplevel.set_fullscreen`
    ///
    /// Make the surface fullscreen.
    XdgToplevelSetFullscreen {
        sendto: u32,
        output: u32,
    },
    /// `xdg_toplevel.unset_fullscreen`
    ///
    /// Make the surface no longer fullscreen.
    XdgToplevelUnsetFullscreen {
        sendto: u32,
    },
    /// `xdg_toplevel.set_minimized`
    ///
    /// Request that the compositor minimize your surface. There is no way to
    /// know if the surface is currently minimized, nor is there any way to
    /// unset minimization on this surface.
    XdgToplevelSetMinimized {
        sendto: u32,
    },
    /// `xdg_popup.destroy`
    ///
    /// This destroys the popup. Explicitly destroying the xdg_popup object will
    /// also dismiss the popup, and unmap the surface.
    XdgPopupDestroy {
        sendto: u32,
    },
    /// `xdg_popup.grab`
    ///
    /// This request makes the created popup take an explicit grab. An explicit
    /// grab will be dismissed when the user dismisses the popup, or when the
    /// client destroys the xdg_popup.
    XdgPopupGrab {
        sendto: u32,
        /// The wl_seat of the user event.
        seat: u32,
        /// The serial of the user event.
        serial: u32,
    },
    /// `xdg_popup.reposition`
    ///
    /// Reposition an already-mapped popup.
    XdgPopupReposition {
        sendto: u32,
        positioner: u32,
        /// Reposition request token.
        token: u32,
    },
    /// `wl_display.sync`
    ///
    /// The sync request asks the server to emit the 'done' event on the
    /// returned wl_callback object.
    WlDisplaySync {
        sendto: u32,
    },
    /// `wl_display.get_registry`
    ///
    /// This request creates a registry object that allows the client to list
    /// and bind the global objects available from the compositor.
    WlDisplayGetRegistry {
        sendto: u32,
    },
    /// `wl_registry.bind`
    ///
    /// Binds a new, client-created object to the server using the specified
    /// name as the identifier.
    WlRegistryBind {
        sendto: u32,
        /// Unique numeric name of the object.
        name: u32,
        /// Interface of the object to bind.
        if_name: String,
        /// Version of the interface to bind.
        if_version: u32,
    },
    /// `wl_compositor.create_surface`
    ///
    /// Ask the compositor to create a new surface.
    WlCompositorCreateSurface {
        sendto: u32,
    },
    /// `wl_compositor.create_region`
    ///
    /// Ask the compositor to create a new region.
    WlCompositorCreateRegion {
        sendto: u32,
    },
    /// `wl_shm_pool.create_buffer`
    ///
    /// Create a wl_buffer object from the pool.
    WlShmPoolCreateBuffer {
        sendto: u32,
        /// Buffer byte offset within the pool.
        offset: i32,
        /// Buffer width, in pixels.
        width: i32,
        /// Buffer height, in pixels.
        height: i32,
        /// Number of bytes from the beginning of one row to the beginning of
        /// the next row.
        stride: i32,
        /// Buffer pixel format.
        format: u32,
    },
    /// `wl_shm_pool.destroy`
    ///
    /// Destroy the shared memory pool.
    WlShmPoolDestroy {
        sendto: u32,
    },
    /// `wl_shm_pool.resize`
    ///
    /// This request will cause the server to remap the backing memory for the
    /// pool from the file descriptor passed when the pool was created, but
    /// using the new size.
    WlShmPoolResize {
        sendto: u32,
        /// New size of the pool, in bytes.
        size: i32,
    },
    /// `wl_shm.create_pool`
    ///
    /// Create a new wl_shm_pool object.
    WlShmCreatePool {
        sendto: u32,
        /// File descriptor for the pool.
        fd: i32,
        /// Pool size, in bytes.
        size: i32,
    },
    /// `wl_buffer.destroy`
    ///
    /// Destroy a buffer. If and how you need to release the backing storage is
    /// defined by the buffer factory interface.
    WlBufferDestroy {
        sendto: u32,
    },
    /// `wl_data_offer.accept`
    ///
    /// Indicate that the client can accept the given mime type, or NULL for not
    /// accepted.
    WlDataOfferAccept {
        sendto: u32,
        /// Serial number of the accept request.
        serial: u32,
        /// Mime type accepted by the client.
        mime_type: String,
    },
    /// `wl_data_offer.receive`
    ///
    /// To transfer the offered data, the client issues this request and
    /// indicates the mime type it wants to receive.
    WlDataOfferReceive {
        sendto: u32,
        /// Mime type desired by receiver.
        mime_type: String,
        /// File descriptor for data transfer.
        fd: i32,
    },
    /// `wl_data_offer.destroy`
    ///
    /// Destroy the data offer.
    WlDataOfferDestroy {
        sendto: u32,
    },
    /// `wl_data_offer.finish`
    ///
    /// Notifies the compositor that the drag destination successfully finished
    /// the drag-and-drop operation.
    WlDataOfferFinish {
        sendto: u32,
    },
    /// `wl_data_offer.set_actions`
    ///
    /// Sets the actions that the destination side client supports for this
    /// operation.
    WlDataOfferSetActions {
        sendto: u32,
        /// Actions supported by the destination client.
        dnd_actions: u32,
        /// Action preferred by the destination client.
        preferred_action: u32,
    },
    /// `wl_data_source.offer`
    ///
    /// This request adds a mime type to the set of mime types advertised to
    /// targets. Can be called several times to offer multiple types.
    WlDataSourceOffer {
        sendto: u32,
        /// Mime type offered by the data source.
        mime_type: String,
    },
    /// `wl_data_source.destroy`
    ///
    /// Destroy the data source.
    WlDataSourceDestroy {
        sendto: u32,
    },
    /// `wl_data_source.set_actions`
    ///
    /// Sets the actions that the source side client supports for this
    /// operation.
    WlDataSourceSetActions {
        sendto: u32,
        /// Actions supported by the data source.
        dnd_actions: u32,
    },
    /// `wl_data_device.start_drag`
    ///
    /// This request asks the compositor to start a drag-and-drop operation on
    /// behalf of the client.
    WlDataDeviceStartDrag {
        sendto: u32,
        /// Data source for the eventual transfer.
        source: u32,
        /// Surface where the drag originates.
        origin: u32,
        /// Drag-and-drop icon surface.
        icon: u32,
        /// Serial number of the implicit grab on the origin.
        serial: u32,
    },
    /// `wl_data_device.set_selection`
    ///
    /// This request asks the compositor to set the selection to the data from
    /// the source on behalf of the client.
    WlDataDeviceSetSelection {
        sendto: u32,
        /// Data source for the selection.
        source: u32,
        /// Serial number of the event that triggered this request.
        serial: u32,
    },
    /// `wl_data_device.release`
    ///
    /// This request destroys the data device.
    WlDataDeviceRelease {
        sendto: u32,
    },
    /// `wl_data_device_manager.create_data_source`
    ///
    /// Create a new data source.
    WlDataDeviceManagerCreateDataSource {
        sendto: u32,
    },
    /// `wl_data_device_manager.get_data_device`
    ///
    /// Create a new data device for a given seat.
    WlDataDeviceManagerGetDataDevice {
        sendto: u32,
        /// Seat associated with the data device.
        seat: u32,
    },
    /// `wl_shell.get_shell_surface`
    ///
    /// Create a shell surface for an existing surface. This gives the
    /// wl_surface the role of a shell surface. If the wl_surface already has
    /// another role, it raises a protocol error.
    WlShellGetShellSurface {
        sendto: u32,
        /// Surface to be given the shell surface role.
        surface: u32,
    },
    /// `wl_shell_surface.pong`
    ///
    /// A client must respond to a ping event with a pong request or the client
    /// may be deemed unresponsive.
    WlShellSurfacePong {
        sendto: u32,
        /// Serial number of the ping event.
        serial: u32,
    },
    /// `wl_shell_surface.move`
    ///
    /// Start a pointer-driven move of the surface.
    WlShellSurfaceMove {
        sendto: u32,
        /// Seat whose pointer is used.
        seat: u32,
        /// Serial number of the implicit grab on the pointer.
        serial: u32,
    },
    /// `wl_shell_surface.resize`
    ///
    /// Start a pointer-driven resizing of the surface.
    WlShellSurfaceResize {
        sendto: u32,
        /// Seat whose pointer is used.
        seat: u32,
        /// Serial number of the implicit grab on the pointer.
        serial: u32,
        /// Which edge or corner is being dragged.
        edges: u32,
    },
    /// `wl_shell_surface.set_toplevel`
    ///
    /// Map the surface as a toplevel surface.
    WlShellSurfaceSetToplevel {
        sendto: u32,
    },
    /// `wl_shell_surface.set_transient`
    ///
    /// Map the surface relative to an existing surface.
    WlShellSurfaceSetTransient {
        sendto: u32,
        /// Parent surface.
        parent: u32,
        /// Surface-local x coordinate.
        x: i32,
        /// Surface-local y coordinate.
        y: i32,
        /// Transient surface behavior.
        flags: u32,
    },
    /// `wl_shell_surface.set_fullscreen`
    ///
    /// Map the surface as a fullscreen surface.
    WlShellSurfaceSetFullscreen {
        sendto: u32,
        /// Method for resolving size conflict.
        method: u32,
        /// Framerate in mHz.
        framerate: u32,
        /// Output on which the surface is to be fullscreen.
        output: u32,
    },
    /// `wl_shell_surface.set_popup`
    ///
    /// Map the surface as a popup.
    WlShellSurfaceSetPopup {
        sendto: u32,
        /// Seat whose pointer is used.
        seat: u32,
        /// Serial number of the implicit grab on the pointer.
        serial: u32,
        /// Parent surface.
        parent: u32,
        /// Surface-local x coordinate.
        x: i32,
        /// Surface-local y coordinate.
        y: i32,
        /// Transient surface behavior.
        flags: u32,
    },
    /// `wl_shell_surface.set_maximized`
    ///
    /// Map the surface as a maximized surface.
    WlShellSurfaceSetMaximized {
        sendto: u32,
        /// Output on which the surface is to be maximized.
        output: u32,
    },
    /// `wl_shell_surface.set_title`
    ///
    /// Set a short title for the surface.
    WlShellSurfaceSetTitle {
        sendto: u32,
        /// Surface title.
        title: String,
    },
    /// `wl_shell_surface.set_class`
    ///
    /// Set a class for the surface.
    WlShellSurfaceSetClass {
        sendto: u32,
        /// Surface class.
        class_: String,
    },
    /// `wl_surface.destroy`
    ///
    /// Deletes the surface and invalidates its object ID.
    WlSurfaceDestroy {
        sendto: u32,
    },
    /// `wl_surface.attach`
    ///
    /// Set a buffer as the content of this surface.
    WlSurfaceAttach {
        sendto: u32,
        /// Buffer of surface contents.
        buffer: u32,
        /// Surface-local x coordinate.
        x: i32,
        /// Surface-local y coordinate.
        y: i32,
    },
    /// `wl_surface.damage`
    ///
    /// This request is used to describe the regions where the pending buffer is
    /// different from the current surface contents, and where the surface
    /// therefore needs to be repainted.
    WlSurfaceDamage {
        sendto: u32,
        /// Surface-local x coordinate.
        x: i32,
        /// Surface-local y coordinate.
        y: i32,
        /// Width of damage rectangle.
        width: i32,
        /// Height of damage rectangle.
        height: i32,
    },
    /// `wl_surface.frame`
    ///
    /// Request a notification when it is a good time to start drawing a new
    /// frame, by creating a frame callback. This is useful for throttling
    /// redrawing operations, and driving animations.
    WlSurfaceFrame {
        sendto: u32,
    },
    /// `wl_surface.set_opaque_region`
    ///
    /// This request sets the region of the surface that contains opaque
    /// content.
    WlSurfaceSetOpaqueRegion {
        sendto: u32,
        /// Opaque region of the surface.
        region: u32,
    },
    /// `wl_surface.set_input_region`
    ///
    /// This request sets the region of the surface that can receive pointer and
    /// touch events.
    WlSurfaceSetInputRegion {
        sendto: u32,
        /// Input region of the surface.
        region: u32,
    },
    /// `wl_surface.commit`
    ///
    /// Surface state (input, opaque, and damage regions, attached buffers,
    /// etc.) is double-buffered. Protocol requests modify the pending state, as
    /// opposed to the current state in use by the compositor.
    WlSurfaceCommit {
        sendto: u32,
    },
    /// `wl_surface.set_buffer_transform`
    ///
    /// This request sets an optional transformation on how the compositor
    /// interprets the contents of the buffer attached to the surface.
    WlSurfaceSetBufferTransform {
        sendto: u32,
        /// Transform for interpreting buffer contents.
        transform: i32,
    },
    /// `wl_surface.set_buffer_scale`
    ///
    /// This request sets an optional scaling factor on how the compositor
    /// interprets the contents of the buffer attached to the window.
    WlSurfaceSetBufferScale {
        sendto: u32,
        /// Positive scale for interpreting buffer contents.
        scale: i32,
    },
    /// `wl_surface.damage_buffer`
    ///
    /// This request is used to describe the regions where the pending buffer is
    /// different from the current surface contents, and where the surface
    /// therefore needs to be repainted.
    WlSurfaceDamageBuffer {
        sendto: u32,
        /// Buffer-local x coordinate.
        x: i32,
        /// Buffer-local y coordinate.
        y: i32,
        /// Width of damage rectangle.
        width: i32,
        /// Height of damage rectangle.
        height: i32,
    },
    /// `wl_surface.offset`
    ///
    /// The x and y arguments specify the location of the new pending buffer's
    /// upper left corner, relative to the current buffer's upper left corner,
    /// in surface-local coordinates.
    WlSurfaceOffset {
        sendto: u32,
        /// Surface-local x coordinate.
        x: i32,
        /// Surface-local y coordinate.
        y: i32,
    },
    /// `wl_seat.get_pointer`
    ///
    /// The ID provided will be initialized to the wl_pointer interface for this
    /// seat.
    WlSeatGetPointer {
        sendto: u32,
    },
    /// `wl_seat.get_keyboard`
    ///
    /// The ID provided will be initialized to the wl_keyboard interface for
    /// this seat.
    WlSeatGetKeyboard {
        sendto: u32,
    },
    /// `wl_seat.get_touch`
    ///
    /// The ID provided will be initialized to the wl_touch interface for this
    /// seat.
    WlSeatGetTouch {
        sendto: u32,
    },
    /// `wl_seat.release`
    ///
    /// Using this request a client can tell the server that it is not going to
    /// use the seat object anymore.
    WlSeatRelease {
        sendto: u32,
    },
    /// `wl_pointer.set_cursor`
    ///
    /// Set the pointer surface, i.e., the surface that contains the pointer
    /// image (cursor). This request gives the surface the role of a cursor. If
    /// the surface already has another role, it raises a protocol error.
    WlPointerSetCursor {
        sendto: u32,
        /// Serial number of the enter event.
        serial: u32,
        /// Pointer surface.
        surface: u32,
        /// Surface-local x coordinate.
        hotspot_x: i32,
        /// Surface-local y coordinate.
        hotspot_y: i32,
    },
    /// `wl_pointer.release`
    ///
    /// Using this request a client can tell the server that it is not going to
    /// use the pointer object anymore.
    WlPointerRelease {
        sendto: u32,
    },
    /// `wl_keyboard.release`
    WlKeyboardRelease {
        sendto: u32,
    },
    /// `wl_touch.release`
    WlTouchRelease {
        sendto: u32,
    },
    /// `wl_output.release`
    ///
    /// Using this request a client can tell the server that it is not going to
    /// use the output object anymore.
    WlOutputRelease {
        sendto: u32,
    },
    /// `wl_region.destroy`
    ///
    /// Destroy the region. This will invalidate the object ID.
    WlRegionDestroy {
        sendto: u32,
    },
    /// `wl_region.add`
    ///
    /// Add the specified rectangle to the region.
    WlRegionAdd {
        sendto: u32,
        /// Region-local x coordinate.
        x: i32,
        /// Region-local y coordinate.
        y: i32,
        /// Rectangle width.
        width: i32,
        /// Rectangle height.
        height: i32,
    },
    /// `wl_region.subtract`
    ///
    /// Subtract the specified rectangle from the region.
    WlRegionSubtract {
        sendto: u32,
        /// Region-local x coordinate.
        x: i32,
        /// Region-local y coordinate.
        y: i32,
        /// Rectangle width.
        width: i32,
        /// Rectangle height.
        height: i32,
    },
    /// `wl_subcompositor.destroy`
    ///
    /// Informs the server that the client will not be using this protocol
    /// object anymore. This does not affect any other objects, wl_subsurface
    /// objects included.
    WlSubcompositorDestroy {
        sendto: u32,
    },
    /// `wl_subcompositor.get_subsurface`
    ///
    /// Create a sub-surface interface for the given surface, and associate it
    /// with the given parent surface. This turns a plain wl_surface into a sub-
    /// surface.
    WlSubcompositorGetSubsurface {
        sendto: u32,
        /// The surface to be turned into a sub-surface.
        surface: u32,
        /// The parent surface.
        parent: u32,
    },
    /// `wl_subsurface.destroy`
    ///
    /// The sub-surface interface is removed from the wl_surface object that was
    /// turned into a sub-surface with a wl_subcompositor.get_subsurface
    /// request.
    WlSubsurfaceDestroy {
        sendto: u32,
    },
    /// `wl_subsurface.set_position`
    ///
    /// This schedules a sub-surface position change. The sub-surface will be
    /// moved so that its origin (top left corner pixel) will be at the location
    /// x, y of the parent surface coordinate system.
    WlSubsurfaceSetPosition {
        sendto: u32,
        /// X coordinate in the parent surface.
        x: i32,
        /// Y coordinate in the parent surface.
        y: i32,
    },
    /// `wl_subsurface.place_above`
    ///
    /// This sub-surface is taken from the stack, and put back just above the
    /// reference surface, changing the z-order of the sub-surfaces.
    WlSubsurfacePlaceAbove {
        sendto: u32,
        /// The reference surface.
        sibling: u32,
    },
    /// `wl_subsurface.place_below`
    ///
    /// The sub-surface is placed just below the reference surface. See
    /// wl_subsurface.place_above.
    WlSubsurfacePlaceBelow {
        sendto: u32,
        /// The reference surface.
        sibling: u32,
    },
    /// `wl_subsurface.set_sync`
    ///
    /// Change the commit behaviour of the sub-surface to synchronized mode,
    /// also described as the parent dependent mode.
    WlSubsurfaceSetSync {
        sendto: u32,
    },
    /// `wl_subsurface.set_desync`
    ///
    /// Change the commit behaviour of the sub-surface to desynchronized mode,
    /// also described as independent or freely running mode.
    WlSubsurfaceSetDesync {
        sendto: u32,
    },
}

impl Request {
    /// The object the request is sent to.
    #[verifier::opaque]
    pub open spec fn spec_sendto(self) -> u32 {
        match self {
            Request::ZwpLinuxDmabufV1Destroy { sendto } => sendto,
            Request::ZwpLinuxDmabufV1CreateParams { sendto } => sendto,
            Request::ZwpLinuxDmabufV1GetDefaultFeedback { sendto } => sendto,
            Request::ZwpLinuxDmabufV1GetSurfaceFeedback { sendto, .. } => sendto,
            Request::ZwpLinuxBufferParamsV1Destroy { sendto } => sendto,
            Request::ZwpLinuxBufferParamsV1Add { sendto, .. } => sendto,
            Request::ZwpLinuxBufferParamsV1Create { sendto, .. } => sendto,
            Request::ZwpLinuxBufferParamsV1CreateImmed { sendto, .. } => sendto,
            Request::ZwpLinuxDmabufFeedbackV1Destroy { sendto } => sendto,
            Request::XdgWmBaseDestroy { sendto } => sendto,
            Request::XdgWmBaseCreatePositioner { sendto } => sendto,
            Request::XdgWmBaseGetXdgSurface { sendto, .. } => sendto,
            Request::XdgWmBasePong { sendto, .. } => sendto,
            Request::XdgPositionerDestroy { sendto } => sendto,
            Request::XdgPositionerSetSize { sendto, .. } => sendto,
            Request::XdgPositionerSetAnchorRect { sendto, .. } => sendto,
            Request::XdgPositionerSetAnchor { sendto, .. } => sendto,
            Request::XdgPositionerSetGravity { sendto, .. } => sendto,
            Request::XdgPositionerSetConstraintAdjustment { sendto, .. } => sendto,
            Request::XdgPositionerSetOffset { sendto, .. } => sendto,
            Request::XdgPositionerSetReactive { sendto } => sendto,
            Request::XdgPositionerSetParentSize { sendto, .. } => sendto,
            Request::XdgPositionerSetParentConfigure { sendto, .. } => sendto,
            Request::XdgSurfaceDestroy { sendto } => sendto,
            Request::XdgSurfaceGetToplevel { sendto } => sendto,
            Request::XdgSurfaceGetPopup { sendto, .. } => sendto,
            Request::XdgSurfaceSetWindowGeometry { sendto, .. } => sendto,
            Request::XdgSurfaceAckConfigure { sendto, .. } => sendto,
            Request::XdgToplevelDestroy { sendto } => sendto,
            Request::XdgToplevelSetParent { sendto, .. } => sendto,
            Request::XdgToplevelSetTitle { sendto, .. } => sendto,
            Request::XdgToplevelSetAppId { sendto, .. } => sendto,
            Request::XdgToplevelShowWindowMenu { sendto, .. } => sendto,
            Request::XdgToplevelMove { sendto, .. } => sendto,
            Request::XdgToplevelResize { sendto, .. } => sendto,
            Request::XdgToplevelSetMaxSize { sendto, .. } => sendto,
            Request::XdgToplevelSetMinSize { sendto, .. } => sendto,
            Request::XdgToplevelSetMaximized { sendto } => sendto,
            Request::XdgToplevelUnsetMaximized { sendto } => sendto,
            Request::XdgToplevelSetFullscreen { sendto, .. } => sendto,
            Request::XdgToplevelUnsetFullscreen { sendto } => sendto,
            Request::XdgToplevelSetMinimized { sendto } => sendto,
            Request::XdgPopupDestroy { sendto } => sendto,
            Request::XdgPopupGrab { sendto, .. } => sendto,
            Request::XdgPopupReposition { sendto, .. } => sendto,
            Request::WlDisplaySync { sendto } => sendto,
            Request::WlDisplayGetRegistry { sendto } => sendto,
            Request::WlRegistryBind { sendto, .. } => sendto,
            Request::WlCompositorCreateSurface { sendto } => sendto,
            Request::WlCompositorCreateRegion { sendto } => sendto,
            Request::WlShmPoolCreateBuffer { sendto, .. } => sendto,
            Request::WlShmPoolDestroy { sendto } => sendto,
            Request::WlShmPoolResize { sendto, .. } => sendto,
            Request::WlShmCreatePool { sendto, .. } => sendto,
            Request::WlBufferDestroy { sendto } => sendto,
            Request::WlDataOfferAccept { sendto, .. } => sendto,
            Request::WlDataOfferReceive { sendto, .. } => sendto,
            Request::WlDataOfferDestroy { sendto } => sendto,
            Request::WlDataOfferFinish { sendto } => sendto,
            Request::WlDataOfferSetActions { sendto, .. } => sendto,
            Request::WlDataSourceOffer { sendto, .. } => sendto,
            Request::WlDataSourceDestroy { sendto } => sendto,
            Request::WlDataSourceSetActions { sendto, .. } => sendto,
            Request::WlDataDeviceStartDrag { sendto, .. } => sendto,
            Request::WlDataDeviceSetSelection { sendto, .. } => sendto,
            Request::WlDataDeviceRelease { sendto } => sendto,
            Request::WlDataDeviceManagerCreateDataSource { sendto } => sendto,
            Request::WlDataDeviceManagerGetDataDevice { sendto, .. } => sendto,
            Request::WlShellGetShellSurface { sendto, .. } => sendto,
            Request::WlShellSurfacePong { sendto, .. } => sendto,
            Request::WlShellSurfaceMove { sendto, .. } => sendto,
            Request::WlShellSurfaceResize { sendto, .. } => sendto,
            Request::WlShellSurfaceSetToplevel { sendto } => sendto,
            Request::WlShellSurfaceSetTransient { sendto, .. } => sendto,
            Request::WlShellSurfaceSetFullscreen { sendto, .. } => sendto,
            Request::WlShellSurfaceSetPopup { sendto, .. } => sendto,
            Request::WlShellSurfaceSetMaximized { sendto, .. } => sendto,
            Request::WlShellSurfaceSetTitle { sendto, .. } => sendto,
            Request::WlShellSurfaceSetClass { sendto, .. } => sendto,
            Request::WlSurfaceDestroy { sendto } => sendto,
            Request::WlSurfaceAttach { sendto, .. } => sendto,
            Request::WlSurfaceDamage { sendto, .. } => sendto,
            Request::WlSurfaceFrame { sendto } => sendto,
            Request::WlSurfaceSetOpaqueRegion { sendto, .. } => sendto,
            Request::WlSurfaceSetInputRegion { sendto, .. } => sendto,
            Request::WlSurfaceCommit { sendto } => sendto,
            Request::WlSurfaceSetBufferTransform { sendto, .. } => sendto,
            Request::WlSurfaceSetBufferScale { sendto, .. } => sendto,
            Request::WlSurfaceDamageBuffer { sendto, .. } => sendto,
            Request::WlSurfaceOffset { sendto, .. } => sendto,
            Request::WlSeatGetPointer { sendto } => sendto,
            Request::WlSeatGetKeyboard { sendto } => sendto,
            Request::WlSeatGetTouch { sendto } => sendto,
            Request::WlSeatRelease { sendto } => sendto,
            Request::WlPointerSetCursor { sendto, .. } => sendto,
            Request::WlPointerRelease { sendto } => sendto,
            Request::WlKeyboardRelease { sendto } => sendto,
            Request::WlTouchRelease { sendto } => sendto,
            Request::WlOutputRelease { sendto } => sendto,
            Request::WlRegionDestroy { sendto } => sendto,
            Request::WlRegionAdd { sendto, .. } => sendto,
            Request::WlRegionSubtract { sendto, .. } => sendto,
            Request::WlSubcompositorDestroy { sendto } => sendto,
            Request::WlSubcompositorGetSubsurface { sendto, .. } => sendto,
            Request::WlSubsurfaceDestroy { sendto } => sendto,
            Request::WlSubsurfaceSetPosition { sendto, .. } => sendto,
            Request::WlSubsurfacePlaceAbove { sendto, .. } => sendto,
            Request::WlSubsurfacePlaceBelow { sendto, .. } => sendto,
            Request::WlSubsurfaceSetSync { sendto } => sendto,
            Request::WlSubsurfaceSetDesync { sendto } => sendto,
        }
    }

    /// The interface the request belongs to: that of the object it is sent
    /// to.
    #[verifier::opaque]
    pub open spec fn spec_interface(self) -> Object {
        match self {
            Request::ZwpLinuxDmabufV1Destroy { .. } => Object::ZwpLinuxDmabufV1,
            Request::ZwpLinuxDmabufV1CreateParams { .. } => Object::ZwpLinuxDmabufV1,
            Request::ZwpLinuxDmabufV1GetDefaultFeedback { .. } => Object::ZwpLinuxDmabufV1,
            Request::ZwpLinuxDmabufV1GetSurfaceFeedback { .. } => Object::ZwpLinuxDmabufV1,
            Request::ZwpLinuxBufferParamsV1Destroy { .. } => Object::ZwpLinuxBufferParamsV1,
            Request::ZwpLinuxBufferParamsV1Add { .. } => Object::ZwpLinuxBufferParamsV1,
            Request::ZwpLinuxBufferParamsV1Create { .. } => Object::ZwpLinuxBufferParamsV1,
            Request::ZwpLinuxBufferParamsV1CreateImmed { .. } => Object::ZwpLinuxBufferParamsV1,
            Request::ZwpLinuxDmabufFeedbackV1Destroy { .. } => Object::ZwpLinuxDmabufFeedbackV1,
            Request::XdgWmBaseDestroy { .. } => Object::XdgWmBase,
            Request::XdgWmBaseCreatePositioner { .. } => Object::XdgWmBase,
            Request::XdgWmBaseGetXdgSurface { .. } => Object::XdgWmBase,
            Request::XdgWmBasePong { .. } => Object::XdgWmBase,
            Request::XdgPositionerDestroy { .. } => Object::XdgPositioner,
            Request::XdgPositionerSetSize { .. } => Object::XdgPositioner,
            Request::XdgPositionerSetAnchorRect { .. } => Object::XdgPositioner,
            Request::XdgPositionerSetAnchor { .. } => Object::XdgPositioner,
            Request::XdgPositionerSetGravity { .. } => Object::XdgPositioner,
            Request::XdgPositionerSetConstraintAdjustment { .. } => Object::XdgPositioner,
            Request::XdgPositionerSetOffset { .. } => Object::XdgPositioner,
            Request::XdgPositionerSetReactive { .. } => Object::XdgPositioner,
            Request::XdgPositionerSetParentSize { .. } => Object::XdgPositioner,
            Request::XdgPositionerSetParentConfigure { .. } => Object::XdgPositioner,
            Request::XdgSurfaceDestroy { .. } => Object::XdgSurface,
            Request::XdgSurfaceGetToplevel { .. } => Object::XdgSurface,
            Request::XdgSurfaceGetPopup { .. } => Object::XdgSurface,
            Request::XdgSurfaceSetWindowGeometry { .. } => Object::XdgSurface,
            Request::XdgSurfaceAckConfigure { .. } => Object::XdgSurface,
            Request::XdgToplevelDestroy { .. } => Object::XdgToplevel,
            Request::XdgToplevelSetParent { .. } => Object::XdgToplevel,
            Request::XdgToplevelSetTitle { .. } => Object::XdgToplevel,
            Request::XdgToplevelSetAppId { .. } => Object::XdgToplevel,
            Request::XdgToplevelShowWindowMenu { .. } => Object::XdgToplevel,
            Request::XdgToplevelMove { .. } => Object::XdgToplevel,
            Request::XdgToplevelResize { .. } => Object::XdgToplevel,
            Request::XdgToplevelSetMaxSize { .. } => Object::XdgToplevel,
            Request::XdgToplevelSetMinSize { .. } => Object::XdgToplevel,
            Request::XdgToplevelSetMaximized { .. } => Object::XdgToplevel,
            Request::XdgToplevelUnsetMaximized { .. } => Object::XdgToplevel,
            Request::XdgToplevelSetFullscreen { .. } => Object::XdgToplevel,
            Request::XdgToplevelUnsetFullscreen { .. } => Object::XdgToplevel,
            Request::XdgToplevelSetMinimized { .. } => Object::XdgToplevel,
            Request::XdgPopupDestroy { .. } => Object::XdgPopup,
            Request::XdgPopupGrab { .. } => Object::XdgPopup,
            Request::XdgPopupReposition { .. } => Object::XdgPopup,
            Request::WlDisplaySync { .. } => Object::WlDisplay,
            Request::WlDisplayGetRegistry { .. } => Object::WlDisplay,
            Request::WlRegistryBind { .. } => Object::WlRegistry,
            Request::WlCompositorCreateSurface { .. } => Object::WlCompositor,
            Request::WlCompositorCreateRegion { .. } => Object::WlCompositor,
            Request::WlShmPoolCreateBuffer { .. } => Object::WlShmPool,
            Request::WlShmPoolDestroy { .. } => Object::WlShmPool,
            Request::WlShmPoolResize { .. } => Object::WlShmPool,
            Request::WlShmCreatePool { .. } => Object::WlShm,
            Request::WlBufferDestroy { .. } => Object::WlBuffer,
            Request::WlDataOfferAccept { .. } => Object::WlDataOffer,
            Request::WlDataOfferReceive { .. } => Object::WlDataOffer,
            Request::WlDataOfferDestroy { .. } => Object::WlDataOffer,
            Request::WlDataOfferFinish { .. } => Object::WlDataOffer,
            Request::WlDataOfferSetActions { .. } => Object::WlDataOffer,
            Request::WlDataSourceOffer { .. } => Object::WlDataSource,
            Request::WlDataSourceDestroy { .. } => Object::WlDataSource,
            Request::WlDataSourceSetActions { .. } => Object::WlDataSource,
            Request::WlDataDeviceStartDrag { .. } => Object::WlDataDevice,
            Request::WlDataDeviceSetSelection { .. } => Object::WlDataDevice,
            Request::WlDataDeviceRelease { .. } => Object::WlDataDevice,
            Request::WlDataDeviceManagerCreateDataSource { .. } => Object::WlDataDeviceManager,
            Request::WlDataDeviceManagerGetDataDevice { .. } => Object::WlDataDeviceManager,
            Request::WlShellGetShellSurface { .. } => Object::WlShell,
            Request::WlShellSurfacePong { .. } => Object::WlShellSurface,
            Request::WlShellSurfaceMove { .. } => Object::WlShellSurface,
            Request::WlShellSurfaceResize { .. } => Object::WlShellSurface,
            Request::WlShellSurfaceSetToplevel { .. } => Object::WlShellSurface,
            Request::WlShellSurfaceSetTransient { .. } => Object::WlShellSurface,
            Request::WlShellSurfaceSetFullscreen { .. } => Object::WlShellSurface,
            Request::WlShellSurfaceSetPopup { .. } => Object::WlShellSurface,
            Request::WlShellSurfaceSetMaximized { .. } => Object::WlShellSurface,
            Request::WlShellSurfaceSetTitle { .. } => Object::WlShellSurface,
            Request::WlShellSurfaceSetClass { .. } => Object::WlShellSurface,
            Request::WlSurfaceDestroy { .. } => Object::WlSurface,
            Request::WlSurfaceAttach { .. } => Object::WlSurface,
            Request::WlSurfaceDamage { .. } => Object::WlSurface,
            Request::WlSurfaceFrame { .. } => Object::WlSurface,
            Request::WlSurfaceSetOpaqueRegion { .. } => Object::WlSurface,
            Request::WlSurfaceSetInputRegion { .. } => Object::WlSurface,
            Request::WlSurfaceCommit { .. } => Object::WlSurface,
            Request::WlSurfaceSetBufferTransform { .. } => Object::WlSurface,
            Request::WlSurfaceSetBufferScale { .. } => Object::WlSurface,
            Request::WlSurfaceDamageBuffer { .. } => Object::WlSurface,
            Request::WlSurfaceOffset { .. } => Object::WlSurface,
            Request::WlSeatGetPointer { .. } => Object::WlSeat,
            Request::WlSeatGetKeyboard { .. } => Object::WlSeat,
            Request::WlSeatGetTouch { .. } => Object::WlSeat,
            Request::WlSeatRelease { .. } => Object::WlSeat,
            Request::WlPointerSetCursor { .. } => Object::WlPointer,
            Request::WlPointerRelease { .. } => Object::WlPointer,
            Request::WlKeyboardRelease { .. } => Object::WlKeyboard,
            Request::WlTouchRelease { .. } => Object::WlTouch,
            Request::WlOutputRelease { .. } => Object::WlOutput,
            Request::WlRegionDestroy { .. } => Object::WlRegion,
            Request::WlRegionAdd { .. } => Object::WlRegion,
            Request::WlRegionSubtract { .. } => Object::WlRegion,
            Request::WlSubcompositorDestroy { .. } => Object::WlSubcompositor,
            Request::WlSubcompositorGetSubsurface { .. } => Object::WlSubcompositor,
            Request::WlSubsurfaceDestroy { .. } => Object::WlSubsurface,
            Request::WlSubsurfaceSetPosition { .. } => Object::WlSubsurface,
            Request::WlSubsurfacePlaceAbove { .. } => Object::WlSubsurface,
            Request::WlSubsurfacePlaceBelow { .. } => Object::WlSubsurface,
            Request::WlSubsurfaceSetSync { .. } => Object::WlSubsurface,
            Request::WlSubsurfaceSetDesync { .. } => Object::WlSubsurface,
        }
    }

    /// The number of the request within its interface.
    #[verifier::opaque]
    pub open spec fn spec_opcode(self) -> u16 {
        match self {
            Request::ZwpLinuxDmabufV1Destroy { .. } => 0,
            Request::ZwpLinuxDmabufV1CreateParams { .. } => 1,
            Request::ZwpLinuxDmabufV1GetDefaultFeedback { .. } => 2,
            Request::ZwpLinuxDmabufV1GetSurfaceFeedback { .. } => 3,
            Request::ZwpLinuxBufferParamsV1Destroy { .. } => 0,
            Request::ZwpLinuxBufferParamsV1Add { .. } => 1,
            Request::ZwpLinuxBufferParamsV1Create { .. } => 2,
            Request::ZwpLinuxBufferParamsV1CreateImmed { .. } => 3,
            Request::ZwpLinuxDmabufFeedbackV1Destroy { .. } => 0,
            Request::XdgWmBaseDestroy { .. } => 0,
            Request::XdgWmBaseCreatePositioner { .. } => 1,
            Request::XdgWmBaseGetXdgSurface { .. } => 2,
            Request::XdgWmBasePong { .. } => 3,
            Request::XdgPositionerDestroy { .. } => 0,
            Request::XdgPositionerSetSize { .. } => 1,
            Request::XdgPositionerSetAnchorRect { .. } => 2,
            Request::XdgPositionerSetAnchor { .. } => 3,
            Request::XdgPositionerSetGravity { .. } => 4,
            Request::XdgPositionerSetConstraintAdjustment { .. } => 5,
            Request::XdgPositionerSetOffset { .. } => 6,
            Request::XdgPositionerSetReactive { .. } => 7,
            Request::XdgPositionerSetParentSize { .. } => 8,
            Request::XdgPositionerSetParentConfigure { .. } => 9,
            Request::XdgSurfaceDestroy { .. } => 0,
            Request::XdgSurfaceGetToplevel { .. } => 1,
            Request::XdgSurfaceGetPopup { .. } => 2,
            Request::XdgSurfaceSetWindowGeometry { .. } => 3,
            Request::XdgSurfaceAckConfigure { .. } => 4,
            Request::XdgToplevelDestroy { .. } => 0,
            Request::XdgToplevelSetParent { .. } => 1,
            Request::XdgToplevelSetTitle { .. } => 2,
            Request::XdgToplevelSetAppId { .. } => 3,
            Request::XdgToplevelShowWindowMenu { .. } => 4,
            Request::XdgToplevelMove { .. } => 5,
            Request::XdgToplevelResize { .. } => 6,
            Request::XdgToplevelSetMaxSize { .. } => 7,
            Request::XdgToplevelSetMinSize { .. } => 8,
            Request::XdgToplevelSetMaximized { .. } => 9,
            Request::XdgToplevelUnsetMaximized { .. } => 10,
            Request::XdgToplevelSetFullscreen { .. } => 11,
            Request::XdgToplevelUnsetFullscreen { .. } => 12,
            Request::XdgToplevelSetMinimized { .. } => 13,
            Request::XdgPopupDestroy { .. } => 0,
            Request::XdgPopupGrab { .. } => 1,
            Request::XdgPopupReposition { .. } => 2,
            Request::WlDisplaySync { .. } => 0,
            Request::WlDisplayGetRegistry { .. } => 1,
            Request::WlRegistryBind { .. } => 0,
            Request::WlCompositorCreateSurface { .. } => 0,
            Request::WlCompositorCreateRegion { .. } => 1,
            Request::WlShmPoolCreateBuffer { .. } => 0,
            Request::WlShmPoolDestroy { .. } => 1,
            Request::WlShmPoolResize { .. } => 2,
            Request::WlShmCreatePool { .. } => 0,
            Request::WlBufferDestroy { .. } => 0,
            Request::WlDataOfferAccept { .. } => 0,
            Request::WlDataOfferReceive { .. } => 1,
            Request::WlDataOfferDestroy { .. } => 2,
            Request::WlDataOfferFinish { .. } => 3,
            Request::WlDataOfferSetActions { .. } => 4,
            Request::WlDataSourceOffer { .. } => 0,
            Request::WlDataSourceDestroy { .. } => 1,
            Request::WlDataSourceSetActions { .. } => 2,
            Request::WlDataDeviceStartDrag { .. } => 0,
            Request::WlDataDeviceSetSelection { .. } => 1,
            Request::WlDataDeviceRelease { .. } => 2,
            Request::WlDataDeviceManagerCreateDataSource { .. } => 0,
            Request::WlDataDeviceManagerGetDataDevice { .. } => 1,
            Request::WlShellGetShellSurface { .. } => 0,
            Request::WlShellSurfacePong { .. } => 0,
            Request::WlShellSurfaceMove { .. } => 1,
            Request::WlShellSurfaceResize { .. } => 2,
            Request::WlShellSurfaceSetToplevel { .. } => 3,
            Request::WlShellSurfaceSetTransient { .. } => 4,
            Request::WlShellSurfaceSetFullscreen { .. } => 5,
            Request::WlShellSurfaceSetPopup { .. } => 6,
            Request::WlShellSurfaceSetMaximized { .. } => 7,
            Request::WlShellSurfaceSetTitle { .. } => 8,
            Request::WlShellSurfaceSetClass { .. } => 9,
            Request::WlSurfaceDestroy { .. } => 0,
            Request::WlSurfaceAttach { .. } => 1,
            Request::WlSurfaceDamage { .. } => 2,
            Request::WlSurfaceFrame { .. } => 3,
            Request::WlSurfaceSetOpaqueRegion { .. } => 4,
            Request::WlSurfaceSetInputRegion { .. } => 5,
            Request::WlSurfaceCommit { .. } => 6,
            Request::WlSurfaceSetBufferTransform { .. } => 7,
            Request::WlSurfaceSetBufferScale { .. } => 8,
            Request::WlSurfaceDamageBuffer { .. } => 9,
            Request::WlSurfaceOffset { .. } => 10,
            Request::WlSeatGetPointer { .. } => 0,
            Request::WlSeatGetKeyboard { .. } => 1,
            Request::WlSeatGetTouch { .. } => 2,
            Request::WlSeatRelease { .. } => 3,
            Request::WlPointerSetCursor { .. } => 0,
            Request::WlPointerRelease { .. } => 1,
            Request::WlKeyboardRelease { .. } => 0,
            Request::WlTouchRelease { .. } => 0,
            Request::WlOutputRelease { .. } => 0,
            Request::WlRegionDestroy { .. } => 0,
            Request::WlRegionAdd { .. } => 1,
            Request::WlRegionSubtract { .. } => 2,
            Request::WlSubcompositorDestroy { .. } => 0,
            Request::WlSubcompositorGetSubsurface { .. } => 1,
            Request::WlSubsurfaceDestroy { .. } => 0,
            Request::WlSubsurfaceSetPosition { .. } => 1,
            Request::WlSubsurfacePlaceAbove { .. } => 2,
            Request::WlSubsurfacePlaceBelow { .. } => 3,
            Request::WlSubsurfaceSetSync { .. } => 4,
            Request::WlSubsurfaceSetDesync { .. } => 5,
        }
    }

    /// The interface of the object the request creates, if it creates one.
    /// For `wl_registry.bind` that is the interface its argument names.
    #[verifier::opaque]
    pub open spec fn spec_new_object(self) -> Option<Object> {
        match self {
            Request::ZwpLinuxDmabufV1CreateParams { .. } => Some(Object::ZwpLinuxBufferParamsV1),
            Request::ZwpLinuxDmabufV1GetDefaultFeedback { .. } => Some(Object::ZwpLinuxDmabufFeedbackV1),
            Request::ZwpLinuxDmabufV1GetSurfaceFeedback { .. } => Some(Object::ZwpLinuxDmabufFeedbackV1),
            Request::ZwpLinuxBufferParamsV1CreateImmed { .. } => Some(Object::WlBuffer),
            Request::XdgWmBaseCreatePositioner { .. } => Some(Object::XdgPositioner),
            Request::XdgWmBaseGetXdgSurface { .. } => Some(Object::XdgSurface),
            Request::XdgSurfaceGetToplevel { .. } => Some(Object::XdgToplevel),
            Request::XdgSurfaceGetPopup { .. } => Some(Object::XdgPopup),
            Request::WlDisplaySync { .. } => Some(Object::WlDisplaySyncCallback),
            Request::WlDisplayGetRegistry { .. } => Some(Object::WlRegistry),
            Request::WlRegistryBind { if_name, .. } => Object::spec_from_str(if_name@),
            Request::WlCompositorCreateSurface { .. } => Some(Object::WlSurface),
            Request::WlCompositorCreateRegion { .. } => Some(Object::WlRegion),
            Request::WlShmPoolCreateBuffer { .. } => Some(Object::WlBuffer),
            Request::WlShmCreatePool { .. } => Some(Object::WlShmPool),
            Request::WlDataDeviceManagerCreateDataSource { .. } => Some(Object::WlDataSource),
            Request::WlDataDeviceManagerGetDataDevice { .. } => Some(Object::WlDataDevice),
            Request::WlShellGetShellSurface { .. } => Some(Object::WlShellSurface),
            Request::WlSurfaceFrame { .. } => Some(Object::WlSurfaceFrameCallback),
            Request::WlSeatGetPointer { .. } => Some(Object::WlPointer),
            Request::WlSeatGetKeyboard { .. } => Some(Object::WlKeyboard),
            Request::WlSeatGetTouch { .. } => Some(Object::WlTouch),
            Request::WlSubcompositorGetSubsurface { .. } => Some(Object::WlSubsurface),
            _ => None,
        }
    }

    /// Whether the request can be sent at all: a bind has to name an
    /// interface this library knows.
    pub open spec fn spec_valid(self) -> bool {
        self is WlRegistryBind ==> self.spec_new_object() is Some
    }

    /// The arguments as they stand on the wire, `new_id` being the id of the
    /// object the request creates.
    #[verifier::opaque]
    pub open spec fn spec_payload(self, new_id: u32) -> Seq<u8> {
        match self {
            Request::ZwpLinuxDmabufV1Destroy { .. } => Seq::empty(),
            Request::ZwpLinuxDmabufV1CreateParams { .. } => word_bytes(new_id),
            Request::ZwpLinuxDmabufV1GetDefaultFeedback { .. } => word_bytes(new_id),
            Request::ZwpLinuxDmabufV1GetSurfaceFeedback { surface, .. } => word_bytes(new_id) + word_bytes(surface),
            Request::ZwpLinuxBufferParamsV1Destroy { .. } => Seq::empty(),
            Request::ZwpLinuxBufferParamsV1Add { plane_idx, offset, stride, modifier_hi, modifier_lo, .. } => word_bytes(plane_idx) + word_bytes(offset) + word_bytes(stride) + word_bytes(modifier_hi) + word_bytes(modifier_lo),
            Request::ZwpLinuxBufferParamsV1Create { width, height, format, flags, .. } => int_bytes(width) + int_bytes(height) + word_bytes(format) + word_bytes(flags),
            Request::ZwpLinuxBufferParamsV1CreateImmed { width, height, format, flags, .. } => word_bytes(new_id) + int_bytes(width) + int_bytes(height) + word_bytes(format) + word_bytes(flags),
            Request::ZwpLinuxDmabufFeedbackV1Destroy { .. } => Seq::empty(),
            Request::XdgWmBaseDestroy { .. } => Seq::empty(),
            Request::XdgWmBaseCreatePositioner { .. } => word_bytes(new_id),
            Request::XdgWmBaseGetXdgSurface { surface, .. } => word_bytes(new_id) + word_bytes(surface),
            Request::XdgWmBasePong { serial, .. } => word_bytes(serial),
            Request::XdgPositionerDestroy { .. } => Seq::empty(),
            Request::XdgPositionerSetSize { width, height, .. } => int_bytes(width) + int_bytes(height),
            Request::XdgPositionerSetAnchorRect { x, y, width, height, .. } => int_bytes(x) + int_bytes(y) + int_bytes(width) + int_bytes(height),
            Request::XdgPositionerSetAnchor { anchor, .. } => word_bytes(anchor),
            Request::XdgPositionerSetGravity { gravity, .. } => word_bytes(gravity),
            Request::XdgPositionerSetConstraintAdjustment { constraint_adjustment, .. } => word_bytes(constraint_adjustment),
            Request::XdgPositionerSetOffset { x, y, .. } => int_bytes(x) + int_bytes(y),
            Request::XdgPositionerSetReactive { .. } => Seq::empty(),
            Request::XdgPositionerSetParentSize { parent_width, parent_height, .. } => int_bytes(parent_width) + int_bytes(parent_height),
            Request::XdgPositionerSetParentConfigure { serial, .. } => word_bytes(serial),
            Request::XdgSurfaceDestroy { .. } => Seq::empty(),
            Request::XdgSurfaceGetToplevel { .. } => word_bytes(new_id),
            Request::XdgSurfaceGetPopup { parent, positioner, .. } => word_bytes(new_id) + word_bytes(parent) + word_bytes(positioner),
            Request::XdgSurfaceSetWindowGeometry { x, y, width, height, .. } => int_bytes(x) + int_bytes(y) + int_bytes(width) + int_bytes(height),
            Request::XdgSurfaceAckConfigure { serial, .. } => word_bytes(serial),
            Request::XdgToplevelDestroy { .. } => Seq::empty(),
            Request::XdgToplevelSetParent { parent, .. } => word_bytes(parent),
            Request::XdgToplevelSetTitle { title, .. } => string_bytes(title@),
            Request::XdgToplevelSetAppId { app_id, .. } => string_bytes(app_id@),
            Request::XdgToplevelShowWindowMenu { seat, serial, x, y, .. } => word_bytes(seat) + word_bytes(serial) + int_bytes(x) + int_bytes(y),
            Request::XdgToplevelMove { seat, serial, .. } => word_bytes(seat) + word_bytes(serial),
            Request::XdgToplevelResize { seat, serial, edges, .. } => word_bytes(seat) + word_bytes(serial) + word_bytes(edges),
            Request::XdgToplevelSetMaxSize { width, height, .. } => int_bytes(width) + int_bytes(height),
            Request::XdgToplevelSetMinSize { width, height, .. } => int_bytes(width) + int_bytes(height),
            Request::XdgToplevelSetMaximized { .. } => Seq::empty(),
            Request::XdgToplevelUnsetMaximized { .. } => Seq::empty(),
            Request::XdgToplevelSetFullscreen { output, .. } => word_bytes(output),
            Request::XdgToplevelUnsetFullscreen { .. } => Seq::empty(),
            Request::XdgToplevelSetMinimized { .. } => Seq::empty(),
            Request::XdgPopupDestroy { .. } => Seq::empty(),
            Request::XdgPopupGrab { seat, serial, .. } => word_bytes(seat) + word_bytes(serial),
            Request::XdgPopupReposition { positioner, token, .. } => word_bytes(positioner) + word_bytes(token),
            Request::WlDisplaySync { .. } => word_bytes(new_id),
            Request::WlDisplayGetRegistry { .. } => word_bytes(new_id),
            Request::WlRegistryBind { name, if_name, if_version, .. } => word_bytes(name) + string_bytes(if_name@) + word_bytes(if_version) + word_bytes(new_id),
            Request::WlCompositorCreateSurface { .. } => word_bytes(new_id),
            Request::WlCompositorCreateRegion { .. } => word_bytes(new_id),
            Request::WlShmPoolCreateBuffer { offset, width, height, stride, format, .. } => word_bytes(new_id) + int_bytes(offset) + int_bytes(width) + int_bytes(height) + int_bytes(stride) + word_bytes(format),
            Request::WlShmPoolDestroy { .. } => Seq::empty(),
            Request::WlShmPoolResize { size, .. } => int_bytes(size),
            Request::WlShmCreatePool { size, .. } => word_bytes(new_id) + int_bytes(size),
            Request::WlBufferDestroy { .. } => Seq::empty(),
            Request::WlDataOfferAccept { serial, mime_type, .. } => word_bytes(serial) + string_bytes(mime_type@),
            Request::WlDataOfferReceive { mime_type, .. } => string_bytes(mime_type@),
            Request::WlDataOfferDestroy { .. } => Seq::empty(),
            Request::WlDataOfferFinish { .. } => Seq::empty(),
            Request::WlDataOfferSetActions { dnd_actions, preferred_action, .. } => word_bytes(dnd_actions) + word_bytes(preferred_action),
            Request::WlDataSourceOffer { mime_type, .. } => string_bytes(mime_type@),
            Request::WlDataSourceDestroy { .. } => Seq::empty(),
            Request::WlDataSourceSetActions { dnd_actions, .. } => word_bytes(dnd_actions),
            Request::WlDataDeviceStartDrag { source, origin, icon, serial, .. } => word_bytes(source) + word_bytes(origin) + word_bytes(icon) + word_bytes(serial),
            Request::WlDataDeviceSetSelection { source, serial, .. } => word_bytes(source) + word_bytes(serial),
            Request::WlDataDeviceRelease { .. } => Seq::empty(),
            Request::WlDataDeviceManagerCreateDataSource { .. } => word_bytes(new_id),
            Request::WlDataDeviceManagerGetDataDevice { seat, .. } => word_bytes(new_id) + word_bytes(seat),
            Request::WlShellGetShellSurface { surface, .. } => word_bytes(new_id) + word_bytes(surface),
            Request::WlShellSurfacePong { serial, .. } => word_bytes(serial),
            Request::WlShellSurfaceMove { seat, serial, .. } => word_bytes(seat) + word_bytes(serial),
            Request::WlShellSurfaceResize { seat, serial, edges, .. } => word_bytes(seat) + word_bytes(serial) + word_bytes(edges),
            Request::WlShellSurfaceSetToplevel { .. } => Seq::empty(),
            Request::WlShellSurfaceSetTransient { parent, x, y, flags, .. } => word_bytes(parent) + int_bytes(x) + int_bytes(y) + word_bytes(flags),
            Request::WlShellSurfaceSetFullscreen { method, framerate, output, .. } => word_bytes(method) + word_bytes(framerate) + word_bytes(output),
            Request::WlShellSurfaceSetPopup { seat, serial, parent, x, y, flags, .. } => word_bytes(seat) + word_bytes(serial) + word_bytes(parent) + int_bytes(x) + int_bytes(y) + word_bytes(flags),
            Request::WlShellSurfaceSetMaximized { output, .. } => word_bytes(output),
            Request::WlShellSurfaceSetTitle { title, .. } => string_bytes(title@),
            Request::WlShellSurfaceSetClass { class_, .. } => string_bytes(class_@),
            Request::WlSurfaceDestroy { .. } => Seq::empty(),
            Request::WlSurfaceAttach { buffer, x, y, .. } => word_bytes(buffer) + int_bytes(x) + int_bytes(y),
            Request::WlSurfaceDamage { x, y, width, height, .. } => int_bytes(x) + int_bytes(y) + int_bytes(width) + int_bytes(height),
            Request::WlSurfaceFrame { .. } => word_bytes(new_id),
            Request::WlSurfaceSetOpaqueRegion { region, .. } => word_bytes(region),
            Request::WlSurfaceSetInputRegion { region, .. } => word_bytes(region),
            Request::WlSurfaceCommit { .. } => Seq::empty(),
            Request::WlSurfaceSetBufferTransform { transform, .. } => int_bytes(transform),
            Request::WlSurfaceSetBufferScale { scale, .. } => int_bytes(scale),
            Request::WlSurfaceDamageBuffer { x, y, width, height, .. } => int_bytes(x) + int_bytes(y) + int_bytes(width) + int_bytes(height),
            Request::WlSurfaceOffset { x, y, .. } => int_bytes(x) + int_bytes(y),
            Request::WlSeatGetPointer { .. } => word_bytes(new_id),
            Request::WlSeatGetKeyboard { .. } => word_bytes(new_id),
            Request::WlSeatGetTouch { .. } => word_bytes(new_id),
            Request::WlSeatRelease { .. } => Seq::empty(),
            Request::WlPointerSetCursor { serial, surface, hotspot_x, hotspot_y, .. } => word_bytes(serial) + word_bytes(surface) + int_bytes(hotspot_x) + int_bytes(hotspot_y),
            Request::WlPointerRelease { .. } => Seq::empty(),
            Request::WlKeyboardRelease { .. } => Seq::empty(),
            Request::WlTouchRelease { .. } => Seq::empty(),
            Request::WlOutputRelease { .. } => Seq::empty(),
            Request::WlRegionDestroy { .. } => Seq::empty(),
            Request::WlRegionAdd { x, y, width, height, .. } => int_bytes(x) + int_bytes(y) + int_bytes(width) + int_bytes(height),
            Request::WlRegionSubtract { x, y, width, height, .. } => int_bytes(x) + int_bytes(y) + int_bytes(width) + int_bytes(height),
            Request::WlSubcompositorDestroy { .. } => Seq::empty(),
            Request::WlSubcompositorGetSubsurface { surface, parent, .. } => word_bytes(new_id) + word_bytes(surface) + word_bytes(parent),
            Request::WlSubsurfaceDestroy { .. } => Seq::empty(),
            Request::WlSubsurfaceSetPosition { x, y, .. } => int_bytes(x) + int_bytes(y),
            Request::WlSubsurfacePlaceAbove { sibling, .. } => word_bytes(sibling),
            Request::WlSubsurfacePlaceBelow { sibling, .. } => word_bytes(sibling),
            Request::WlSubsurfaceSetSync { .. } => Seq::empty(),
            Request::WlSubsurfaceSetDesync { .. } => Seq::empty(),
        }
    }

    /// The file descriptor that goes with the request, if any.
    #[verifier::opaque]
    pub open spec fn spec_fd(self) -> Option<i32> {
        match self {
            Request::ZwpLinuxBufferParamsV1Add { fd, .. } => Some(fd),
            Request::WlShmCreatePool { fd, .. } => Some(fd),
            Request::WlDataOfferReceive { fd, .. } => Some(fd),
            _ => None,
        }
    }

    /// Length of the whole message in bytes, header included.
    #[verifier::opaque]
    pub open spec fn spec_size(self) -> int {
        match self {
            Request::ZwpLinuxDmabufV1Destroy { .. } => 8,
            Request::ZwpLinuxDmabufV1CreateParams { .. } => 12,
            Request::ZwpLinuxDmabufV1GetDefaultFeedback { .. } => 12,
            Request::ZwpLinuxDmabufV1GetSurfaceFeedback { .. } => 16,
            Request::ZwpLinuxBufferParamsV1Destroy { .. } => 8,
            Request::ZwpLinuxBufferParamsV1Add { .. } => 28,
            Request::ZwpLinuxBufferParamsV1Create { .. } => 24,
            Request::ZwpLinuxBufferParamsV1CreateImmed { .. } => 28,
            Request::ZwpLinuxDmabufFeedbackV1Destroy { .. } => 8,
            Request::XdgWmBaseDestroy { .. } => 8,
            Request::XdgWmBaseCreatePositioner { .. } => 12,
            Request::XdgWmBaseGetXdgSurface { .. } => 16,
            Request::XdgWmBasePong { .. } => 12,
            Request::XdgPositionerDestroy { .. } => 8,
            Request::XdgPositionerSetSize { .. } => 16,
            Request::XdgPositionerSetAnchorRect { .. } => 24,
            Request::XdgPositionerSetAnchor { .. } => 12,
            Request::XdgPositionerSetGravity { .. } => 12,
            Request::XdgPositionerSetConstraintAdjustment { .. } => 12,
            Request::XdgPositionerSetOffset { .. } => 16,
            Request::XdgPositionerSetReactive { .. } => 8,
            Request::XdgPositionerSetParentSize { .. } => 16,
            Request::XdgPositionerSetParentConfigure { .. } => 12,
            Request::XdgSurfaceDestroy { .. } => 8,
            Request::XdgSurfaceGetToplevel { .. } => 12,
            Request::XdgSurfaceGetPopup { .. } => 20,
            Request::XdgSurfaceSetWindowGeometry { .. } => 24,
            Request::XdgSurfaceAckConfigure { .. } => 12,
            Request::XdgToplevelDestroy { .. } => 8,
            Request::XdgToplevelSetParent { .. } => 12,
            Request::XdgToplevelSetTitle { title, .. } => 8 + string_size(title@),
            Request::XdgToplevelSetAppId { app_id, .. } => 8 + string_size(app_id@),
            Request::XdgToplevelShowWindowMenu { .. } => 24,
            Request::XdgToplevelMove { .. } => 16,
            Request::XdgToplevelResize { .. } => 20,
            Request::XdgToplevelSetMaxSize { .. } => 16,
            Request::XdgToplevelSetMinSize { .. } => 16,
            Request::XdgToplevelSetMaximized { .. } => 8,
            Request::XdgToplevelUnsetMaximized { .. } => 8,
            Request::XdgToplevelSetFullscreen { .. } => 12,
            Request::XdgToplevelUnsetFullscreen { .. } => 8,
            Request::XdgToplevelSetMinimized { .. } => 8,
            Request::XdgPopupDestroy { .. } => 8,
            Request::XdgPopupGrab { .. } => 16,
            Request::XdgPopupReposition { .. } => 16,
            Request::WlDisplaySync { .. } => 12,
            Request::WlDisplayGetRegistry { .. } => 12,
            Request::WlRegistryBind { if_name, .. } => 20 + string_size(if_name@),
            Request::WlCompositorCreateSurface { .. } => 12,
            Request::WlCompositorCreateRegion { .. } => 12,
            Request::WlShmPoolCreateBuffer { .. } => 32,
            Request::WlShmPoolDestroy { .. } => 8,
            Request::WlShmPoolResize { .. } => 12,
            Request::WlShmCreatePool { .. } => 16,
            Request::WlBufferDestroy { .. } => 8,
            Request::WlDataOfferAccept { mime_type, .. } => 12 + string_size(mime_type@),
            Request::WlDataOfferReceive { mime_type, .. } => 8 + string_size(mime_type@),
            Request::WlDataOfferDestroy { .. } => 8,
            Request::WlDataOfferFinish { .. } => 8,
            Request::WlDataOfferSetActions { .. } => 16,
            Request::WlDataSourceOffer { mime_type, .. } => 8 + string_size(mime_type@),
            Request::WlDataSourceDestroy { .. } => 8,
            Request::WlDataSourceSetActions { .. } => 12,
            Request::WlDataDeviceStartDrag { .. } => 24,
            Request::WlDataDeviceSetSelection { .. } => 16,
            Request::WlDataDeviceRelease { .. } => 8,
            Request::WlDataDeviceManagerCreateDataSource { .. } => 12,
            Request::WlDataDeviceManagerGetDataDevice { .. } => 16,
            Request::WlShellGetShellSurface { .. } => 16,
            Request::WlShellSurfacePong { .. } => 12,
            Request::WlShellSurfaceMove { .. } => 16,
            Request::WlShellSurfaceResize { .. } => 20,
            Request::WlShellSurfaceSetToplevel { .. } => 8,
            Request::WlShellSurfaceSetTransient { .. } => 24,
            Request::WlShellSurfaceSetFullscreen { .. } => 20,
            Request::WlShellSurfaceSetPopup { .. } => 32,
            Request::WlShellSurfaceSetMaximized { .. } => 12,
            Request::WlShellSurfaceSetTitle { title, .. } => 8 + string_size(title@),
            Request::WlShellSurfaceSetClass { class_, .. } => 8 + string_size(class_@),
            Request::WlSurfaceDestroy { .. } => 8,
            Request::WlSurfaceAttach { .. } => 20,
            Request::WlSurfaceDamage { .. } => 24,
            Request::WlSurfaceFrame { .. } => 12,
            Request::WlSurfaceSetOpaqueRegion { .. } => 12,
            Request::WlSurfaceSetInputRegion { .. } => 12,
            Request::WlSurfaceCommit { .. } => 8,
            Request::WlSurfaceSetBufferTransform { .. } => 12,
            Request::WlSurfaceSetBufferScale { .. } => 12,
            Request::WlSurfaceDamageBuffer { .. } => 24,
            Request::WlSurfaceOffset { .. } => 16,
            Request::WlSeatGetPointer { .. } => 12,
            Request::WlSeatGetKeyboard { .. } => 12,
            Request::WlSeatGetTouch { .. } => 12,
            Request::WlSeatRelease { .. } => 8,
            Request::WlPointerSetCursor { .. } => 24,
            Request::WlPointerRelease { .. } => 8,
            Request::WlKeyboardRelease { .. } => 8,
            Request::WlTouchRelease { .. } => 8,
            Request::WlOutputRelease { .. } => 8,
            Request::WlRegionDestroy { .. } => 8,
            Request::WlRegionAdd { .. } => 24,
            Request::WlRegionSubtract { .. } => 24,
            Request::WlSubcompositorDestroy { .. } => 8,
            Request::WlSubcompositorGetSubsurface { .. } => 20,
            Request::WlSubsurfaceDestroy { .. } => 8,
            Request::WlSubsurfaceSetPosition { .. } => 16,
            Request::WlSubsurfacePlaceAbove { .. } => 12,
            Request::WlSubsurfacePlaceBelow { .. } => 12,
            Request::WlSubsurfaceSetSync { .. } => 8,
            Request::WlSubsurfaceSetDesync { .. } => 8,
        }
    }

    /// The message: the header with the final length, then the arguments.
    pub open spec fn spec_message(self, new_id: u32) -> Seq<u8> {
        (MessageHeader {
            obj_id: self.spec_sendto(),
            opcode: self.spec_opcode(),
            len: self.spec_size() as u16,
        }).spec_bytes() + self.spec_payload(new_id)
    }

    /// What holds of the length of a message: it is what the header
    /// announces, a whole number of words, and never less than the header.
    pub open spec fn spec_framed(self, new_id: u32) -> bool {
        &&& self.spec_payload(new_id).len() + 8 == self.spec_size()
        &&& self.spec_message(new_id).len() == self.spec_size()
        &&& self.spec_size() % 4 == 0
        &&& self.spec_size() >= 8
    }

    /// Every request is framed as `spec_framed` says.
    pub proof fn lemma_message_len(self, new_id: u32)
        ensures
            self.spec_framed(new_id),
    {
        reveal(Request::spec_interface);
        match self.spec_interface() {
            Object::ZwpLinuxDmabufV1 => lemma_len_zwp_linux_dmabuf_v1(self, new_id),
            Object::ZwpLinuxBufferParamsV1 => lemma_len_zwp_linux_buffer_params_v1(self, new_id),
            Object::ZwpLinuxDmabufFeedbackV1 => lemma_len_zwp_linux_dmabuf_feedback_v1(self, new_id),
            Object::XdgWmBase => lemma_len_xdg_wm_base(self, new_id),
            Object::XdgPositioner => lemma_len_xdg_positioner(self, new_id),
            Object::XdgSurface => lemma_len_xdg_surface(self, new_id),
            Object::XdgToplevel => lemma_len_xdg_toplevel(self, new_id),
            Object::XdgPopup => lemma_len_xdg_popup(self, new_id),
            Object::WlDisplay => lemma_len_wl_display(self, new_id),
            Object::WlRegistry => lemma_len_wl_registry(self, new_id),
            Object::WlCompositor => lemma_len_wl_compositor(self, new_id),
            Object::WlShmPool => lemma_len_wl_shm_pool(self, new_id),
            Object::WlShm => lemma_len_wl_shm(self, new_id),
            Object::WlBuffer => lemma_len_wl_buffer(self, new_id),
            Object::WlDataOffer => lemma_len_wl_data_offer(self, new_id),
            Object::WlDataSource => lemma_len_wl_data_source(self, new_id),
            Object::WlDataDevice => lemma_len_wl_data_device(self, new_id),
            Object::WlDataDeviceManager => lemma_len_wl_data_device_manager(self, new_id),
            Object::WlShell => lemma_len_wl_shell(self, new_id),
            Object::WlShellSurface => lemma_len_wl_shell_surface(self, new_id),
            Object::WlSurface => lemma_len_wl_surface(self, new_id),
            Object::WlSeat => lemma_len_wl_seat(self, new_id),
            Object::WlPointer => lemma_len_wl_pointer(self, new_id),
            Object::WlKeyboard => lemma_len_wl_keyboard(self, new_id),
            Object::WlTouch => lemma_len_wl_touch(self, new_id),
            Object::WlOutput => lemma_len_wl_output(self, new_id),
            Object::WlRegion => lemma_len_wl_region(self, new_id),
            Object::WlSubcompositor => lemma_len_wl_subcompositor(self, new_id),
            Object::WlSubsurface => lemma_len_wl_subsurface(self, new_id),
            _ => {},
        }
    }

    /// The header of a queued message names the object and the opcode of
    /// the request and announces the length of that very message.
    pub proof fn lemma_message_header(self, new_id: u32)
        requires
            self.spec_size() <= MAX_MSG_SIZE,
        ensures
            MessageHeader::spec_at(self.spec_message(new_id), 0).obj_id == self.spec_sendto(),
            MessageHeader::spec_at(self.spec_message(new_id), 0).opcode == self.spec_opcode(),
            MessageHeader::spec_at(self.spec_message(new_id), 0).len == self.spec_message(
                new_id,
            ).len(),
            MessageHeader::spec_at(self.spec_message(new_id), 0).len % 4 == 0,
            MessageHeader::spec_at(self.spec_message(new_id), 0).len >= 8,
    {
        self.lemma_message_len(new_id);
        let h = MessageHeader {
            obj_id: self.spec_sendto(),
            opcode: self.spec_opcode(),
            len: self.spec_size() as u16,
        };
        h.lemma_round_trip(self.spec_payload(new_id));
    }

    /// The object the request is sent to.
    pub fn sendto(&self) -> (r: u32)
        ensures
            r == self.spec_sendto(),
    {
        proof {
            reveal(Request::spec_sendto);
        }
        match self {
            Request::ZwpLinuxDmabufV1Destroy { sendto } => *sendto,
            Request::ZwpLinuxDmabufV1CreateParams { sendto } => *sendto,
            Request::ZwpLinuxDmabufV1GetDefaultFeedback { sendto } => *sendto,
            Request::ZwpLinuxDmabufV1GetSurfaceFeedback { sendto, .. } => *sendto,
            Request::ZwpLinuxBufferParamsV1Destroy { sendto } => *sendto,
            Request::ZwpLinuxBufferParamsV1Add { sendto, .. } => *sendto,
            Request::ZwpLinuxBufferParamsV1Create { sendto, .. } => *sendto,
            Request::ZwpLinuxBufferParamsV1CreateImmed { sendto, .. } => *sendto,
            Request::ZwpLinuxDmabufFeedbackV1Destroy { sendto } => *sendto,
            Request::XdgWmBaseDestroy { sendto } => *sendto,
            Request::XdgWmBaseCreatePositioner { sendto } => *sendto,
            Request::XdgWmBaseGetXdgSurface { sendto, .. } => *sendto,
            Request::XdgWmBasePong { sendto, .. } => *sendto,
            Request::XdgPositionerDestroy { sendto } => *sendto,
            Request::XdgPositionerSetSize { sendto, .. } => *sendto,
            Request::XdgPositionerSetAnchorRect { sendto, .. } => *sendto,
            Request::XdgPositionerSetAnchor { sendto, .. } => *sendto,
            Request::XdgPositionerSetGravity { sendto, .. } => *sendto,
            Request::XdgPositionerSetConstraintAdjustment { sendto, .. } => *sendto,
            Request::XdgPositionerSetOffset { sendto, .. } => *sendto,
            Request::XdgPositionerSetReactive { sendto } => *sendto,
            Request::XdgPositionerSetParentSize { sendto, .. } => *sendto,
            Request::XdgPositionerSetParentConfigure { sendto, .. } => *sendto,
            Request::XdgSurfaceDestroy { sendto } => *sendto,
            Request::XdgSurfaceGetToplevel { sendto } => *sendto,
            Request::XdgSurfaceGetPopup { sendto, .. } => *sendto,
            Request::XdgSurfaceSetWindowGeometry { sendto, .. } => *sendto,
            Request::XdgSurfaceAckConfigure { sendto, .. } => *sendto,
            Request::XdgToplevelDestroy { sendto } => *sendto,
            Request::XdgToplevelSetParent { sendto, .. } => *sendto,
            Request::XdgToplevelSetTitle { sendto, .. } => *sendto,
            Request::XdgToplevelSetAppId { sendto, .. } => *sendto,
            Request::XdgToplevelShowWindowMenu { sendto, .. } => *sendto,
            Request::XdgToplevelMove { sendto, .. } => *sendto,
            Request::XdgToplevelResize { sendto, .. } => *sendto,
            Request::XdgToplevelSetMaxSize { sendto, .. } => *sendto,
            Request::XdgToplevelSetMinSize { sendto, .. } => *sendto,
            Request::XdgToplevelSetMaximized { sendto } => *sendto,
            Request::XdgToplevelUnsetMaximized { sendto } => *sendto,
            Request::XdgToplevelSetFullscreen { sendto, .. } => *sendto,
            Request::XdgToplevelUnsetFullscreen { sendto } => *sendto,
            Request::XdgToplevelSetMinimized { sendto } => *sendto,
            Request::XdgPopupDestroy { sendto } => *sendto,
            Request::XdgPopupGrab { sendto, .. } => *sendto,
            Request::XdgPopupReposition { sendto, .. } => *sendto,
            Request::WlDisplaySync { sendto } => *sendto,
            Request::WlDisplayGetRegistry { sendto } => *sendto,
            Request::WlRegistryBind { sendto, .. } => *sendto,
            Request::WlCompositorCreateSurface { sendto } => *sendto,
            Request::WlCompositorCreateRegion { sendto } => *sendto,
            Request::WlShmPoolCreateBuffer { sendto, .. } => *sendto,
            Request::WlShmPoolDestroy { sendto } => *sendto,
            Request::WlShmPoolResize { sendto, .. } => *sendto,
            Request::WlShmCreatePool { sendto, .. } => *sendto,
            Request::WlBufferDestroy { sendto } => *sendto,
            Request::WlDataOfferAccept { sendto, .. } => *sendto,
            Request::WlDataOfferReceive { sendto, .. } => *sendto,
            Request::WlDataOfferDestroy { sendto } => *sendto,
            Request::WlDataOfferFinish { sendto } => *sendto,
            Request::WlDataOfferSetActions { sendto, .. } => *sendto,
            Request::WlDataSourceOffer { sendto, .. } => *sendto,
            Request::WlDataSourceDestroy { sendto } => *sendto,
            Request::WlDataSourceSetActions { sendto, .. } => *sendto,
            Request::WlDataDeviceStartDrag { sendto, .. } => *sendto,
            Request::WlDataDeviceSetSelection { sendto, .. } => *sendto,
            Request::WlDataDeviceRelease { sendto } => *sendto,
            Request::WlDataDeviceManagerCreateDataSource { sendto } => *sendto,
            Request::WlDataDeviceManagerGetDataDevice { sendto, .. } => *sendto,
            Request::WlShellGetShellSurface { sendto, .. } => *sendto,
            Request::WlShellSurfacePong { sendto, .. } => *sendto,
            Request::WlShellSurfaceMove { sendto, .. } => *sendto,
            Request::WlShellSurfaceResize { sendto, .. } => *sendto,
            Request::WlShellSurfaceSetToplevel { sendto } => *sendto,
            Request::WlShellSurfaceSetTransient { sendto, .. } => *sendto,
            Request::WlShellSurfaceSetFullscreen { sendto, .. } => *sendto,
            Request::WlShellSurfaceSetPopup { sendto, .. } => *sendto,
            Request::WlShellSurfaceSetMaximized { sendto, .. } => *sendto,
            Request::WlShellSurfaceSetTitle { sendto, .. } => *sendto,
            Request::WlShellSurfaceSetClass { sendto, .. } => *sendto,
            Request::WlSurfaceDestroy { sendto } => *sendto,
            Request::WlSurfaceAttach { sendto, .. } => *sendto,
            Request::WlSurfaceDamage { sendto, .. } => *sendto,
            Request::WlSurfaceFrame { sendto } => *sendto,
            Request::WlSurfaceSetOpaqueRegion { sendto, .. } => *sendto,
            Request::WlSurfaceSetInputRegion { sendto, .. } => *sendto,
            Request::WlSurfaceCommit { sendto } => *sendto,
            Request::WlSurfaceSetBufferTransform { sendto, .. } => *sendto,
            Request::WlSurfaceSetBufferScale { sendto, .. } => *sendto,
            Request::WlSurfaceDamageBuffer { sendto, .. } => *sendto,
            Request::WlSurfaceOffset { sendto, .. } => *sendto,
            Request::WlSeatGetPointer { sendto } => *sendto,
            Request::WlSeatGetKeyboard { sendto } => *sendto,
            Request::WlSeatGetTouch { sendto } => *sendto,
            Request::WlSeatRelease { sendto } => *sendto,
            Request::WlPointerSetCursor { sendto, .. } => *sendto,
            Request::WlPointerRelease { sendto } => *sendto,
            Request::WlKeyboardRelease { sendto } => *sendto,
            Request::WlTouchRelease { sendto } => *sendto,
            Request::WlOutputRelease { sendto } => *sendto,
            Request::WlRegionDestroy { sendto } => *sendto,
            Request::WlRegionAdd { sendto, .. } => *sendto,
            Request::WlRegionSubtract { sendto, .. } => *sendto,
            Request::WlSubcompositorDestroy { sendto } => *sendto,
            Request::WlSubcompositorGetSubsurface { sendto, .. } => *sendto,
            Request::WlSubsurfaceDestroy { sendto } => *sendto,
            Request::WlSubsurfaceSetPosition { sendto, .. } => *sendto,
            Request::WlSubsurfacePlaceAbove { sendto, .. } => *sendto,
            Request::WlSubsurfacePlaceBelow { sendto, .. } => *sendto,
            Request::WlSubsurfaceSetSync { sendto } => *sendto,
            Request::WlSubsurfaceSetDesync { sendto } => *sendto,
        }
    }

    /// The interface the request belongs to.
    pub fn interface(&self) -> (r: Object)
        ensures
            r == self.spec_interface(),
    {
        proof {
            reveal(Request::spec_interface);
        }
        match self {
            Request::ZwpLinuxDmabufV1Destroy { .. } => Object::ZwpLinuxDmabufV1,
            Request::ZwpLinuxDmabufV1CreateParams { .. } => Object::ZwpLinuxDmabufV1,
            Request::ZwpLinuxDmabufV1GetDefaultFeedback { .. } => Object::ZwpLinuxDmabufV1,
            Request::ZwpLinuxDmabufV1GetSurfaceFeedback { .. } => Object::ZwpLinuxDmabufV1,
            Request::ZwpLinuxBufferParamsV1Destroy { .. } => Object::ZwpLinuxBufferParamsV1,
            Request::ZwpLinuxBufferParamsV1Add { .. } => Object::ZwpLinuxBufferParamsV1,
            Request::ZwpLinuxBufferParamsV1Create { .. } => Object::ZwpLinuxBufferParamsV1,
            Request::ZwpLinuxBufferParamsV1CreateImmed { .. } => Object::ZwpLinuxBufferParamsV1,
            Request::ZwpLinuxDmabufFeedbackV1Destroy { .. } => Object::ZwpLinuxDmabufFeedbackV1,
            Request::XdgWmBaseDestroy { .. } => Object::XdgWmBase,
            Request::XdgWmBaseCreatePositioner { .. } => Object::XdgWmBase,
            Request::XdgWmBaseGetXdgSurface { .. } => Object::XdgWmBase,
            Request::XdgWmBasePong { .. } => Object::XdgWmBase,
            Request::XdgPositionerDestroy { .. } => Object::XdgPositioner,
            Request::XdgPositionerSetSize { .. } => Object::XdgPositioner,
            Request::XdgPositionerSetAnchorRect { .. } => Object::XdgPositioner,
            Request::XdgPositionerSetAnchor { .. } => Object::XdgPositioner,
            Request::XdgPositionerSetGravity { .. } => Object::XdgPositioner,
            Request::XdgPositionerSetConstraintAdjustment { .. } => Object::XdgPositioner,
            Request::XdgPositionerSetOffset { .. } => Object::XdgPositioner,
            Request::XdgPositionerSetReactive { .. } => Object::XdgPositioner,
            Request::XdgPositionerSetParentSize { .. } => Object::XdgPositioner,
            Request::XdgPositionerSetParentConfigure { .. } => Object::XdgPositioner,
            Request::XdgSurfaceDestroy { .. } => Object::XdgSurface,
            Request::XdgSurfaceGetToplevel { .. } => Object::XdgSurface,
            Request::XdgSurfaceGetPopup { .. } => Object::XdgSurface,
            Request::XdgSurfaceSetWindowGeometry { .. } => Object::XdgSurface,
            Request::XdgSurfaceAckConfigure { .. } => Object::XdgSurface,
            Request::XdgToplevelDestroy { .. } => Object::XdgToplevel,
            Request::XdgToplevelSetParent { .. } => Object::XdgToplevel,
            Request::XdgToplevelSetTitle { .. } => Object::XdgToplevel,
            Request::XdgToplevelSetAppId { .. } => Object::XdgToplevel,
            Request::XdgToplevelShowWindowMenu { .. } => Object::XdgToplevel,
            Request::XdgToplevelMove { .. } => Object::XdgToplevel,
            Request::XdgToplevelResize { .. } => Object::XdgToplevel,
            Request::XdgToplevelSetMaxSize { .. } => Object::XdgToplevel,
            Request::XdgToplevelSetMinSize { .. } => Object::XdgToplevel,
            Request::XdgToplevelSetMaximized { .. } => Object::XdgToplevel,
            Request::XdgToplevelUnsetMaximized { .. } => Object::XdgToplevel,
            Request::XdgToplevelSetFullscreen { .. } => Object::XdgToplevel,
            Request::XdgToplevelUnsetFullscreen { .. } => Object::XdgToplevel,
            Request::XdgToplevelSetMinimized { .. } => Object::XdgToplevel,
            Request::XdgPopupDestroy { .. } => Object::XdgPopup,
            Request::XdgPopupGrab { .. } => Object::XdgPopup,
            Request::XdgPopupReposition { .. } => Object::XdgPopup,
            Request::WlDisplaySync { .. } => Object::WlDisplay,
            Request::WlDisplayGetRegistry { .. } => Object::WlDisplay,
            Request::WlRegistryBind { .. } => Object::WlRegistry,
            Request::WlCompositorCreateSurface { .. } => Object::WlCompositor,
            Request::WlCompositorCreateRegion { .. } => Object::WlCompositor,
            Request::WlShmPoolCreateBuffer { .. } => Object::WlShmPool,
            Request::WlShmPoolDestroy { .. } => Object::WlShmPool,
            Request::WlShmPoolResize { .. } => Object::WlShmPool,
            Request::WlShmCreatePool { .. } => Object::WlShm,
            Request::WlBufferDestroy { .. } => Object::WlBuffer,
            Request::WlDataOfferAccept { .. } => Object::WlDataOffer,
            Request::WlDataOfferReceive { .. } => Object::WlDataOffer,
            Request::WlDataOfferDestroy { .. } => Object::WlDataOffer,
            Request::WlDataOfferFinish { .. } => Object::WlDataOffer,
            Request::WlDataOfferSetActions { .. } => Object::WlDataOffer,
            Request::WlDataSourceOffer { .. } => Object::WlDataSource,
            Request::WlDataSourceDestroy { .. } => Object::WlDataSource,
            Request::WlDataSourceSetActions { .. } => Object::WlDataSource,
            Request::WlDataDeviceStartDrag { .. } => Object::WlDataDevice,
            Request::WlDataDeviceSetSelection { .. } => Object::WlDataDevice,
            Request::WlDataDeviceRelease { .. } => Object::WlDataDevice,
            Request::WlDataDeviceManagerCreateDataSource { .. } => Object::WlDataDeviceManager,
            Request::WlDataDeviceManagerGetDataDevice { .. } => Object::WlDataDeviceManager,
            Request::WlShellGetShellSurface { .. } => Object::WlShell,
            Request::WlShellSurfacePong { .. } => Object::WlShellSurface,
            Request::WlShellSurfaceMove { .. } => Object::WlShellSurface,
            Request::WlShellSurfaceResize { .. } => Object::WlShellSurface,
            Request::WlShellSurfaceSetToplevel { .. } => Object::WlShellSurface,
            Request::WlShellSurfaceSetTransient { .. } => Object::WlShellSurface,
            Request::WlShellSurfaceSetFullscreen { .. } => Object::WlShellSurface,
            Request::WlShellSurfaceSetPopup { .. } => Object::WlShellSurface,
            Request::WlShellSurfaceSetMaximized { .. } => Object::WlShellSurface,
            Request::WlShellSurfaceSetTitle { .. } => Object::WlShellSurface,
            Request::WlShellSurfaceSetClass { .. } => Object::WlShellSurface,
            Request::WlSurfaceDestroy { .. } => Object::WlSurface,
            Request::WlSurfaceAttach { .. } => Object::WlSurface,
            Request::WlSurfaceDamage { .. } => Object::WlSurface,
            Request::WlSurfaceFrame { .. } => Object::WlSurface,
            Request::WlSurfaceSetOpaqueRegion { .. } => Object::WlSurface,
            Request::WlSurfaceSetInputRegion { .. } => Object::WlSurface,
            Request::WlSurfaceCommit { .. } => Object::WlSurface,
            Request::WlSurfaceSetBufferTransform { .. } => Object::WlSurface,
            Request::WlSurfaceSetBufferScale { .. } => Object::WlSurface,
            Request::WlSurfaceDamageBuffer { .. } => Object::WlSurface,
            Request::WlSurfaceOffset { .. } => Object::WlSurface,
            Request::WlSeatGetPointer { .. } => Object::WlSeat,
            Request::WlSeatGetKeyboard { .. } => Object::WlSeat,
            Request::WlSeatGetTouch { .. } => Object::WlSeat,
            Request::WlSeatRelease { .. } => Object::WlSeat,
            Request::WlPointerSetCursor { .. } => Object::WlPointer,
            Request::WlPointerRelease { .. } => Object::WlPointer,
            Request::WlKeyboardRelease { .. } => Object::WlKeyboard,
            Request::WlTouchRelease { .. } => Object::WlTouch,
            Request::WlOutputRelease { .. } => Object::WlOutput,
            Request::WlRegionDestroy { .. } => Object::WlRegion,
            Request::WlRegionAdd { .. } => Object::WlRegion,
            Request::WlRegionSubtract { .. } => Object::WlRegion,
            Request::WlSubcompositorDestroy { .. } => Object::WlSubcompositor,
            Request::WlSubcompositorGetSubsurface { .. } => Object::WlSubcompositor,
            Request::WlSubsurfaceDestroy { .. } => Object::WlSubsurface,
            Request::WlSubsurfaceSetPosition { .. } => Object::WlSubsurface,
            Request::WlSubsurfacePlaceAbove { .. } => Object::WlSubsurface,
            Request::WlSubsurfacePlaceBelow { .. } => Object::WlSubsurface,
            Request::WlSubsurfaceSetSync { .. } => Object::WlSubsurface,
            Request::WlSubsurfaceSetDesync { .. } => Object::WlSubsurface,
        }
    }

    /// The number of the request within its interface.
    pub fn opcode(&self) -> (r: u16)
        ensures
            r == self.spec_opcode(),
    {
        proof {
            reveal(Request::spec_opcode);
        }
        match self {
            Request::ZwpLinuxDmabufV1Destroy { .. } => 0,
            Request::ZwpLinuxDmabufV1CreateParams { .. } => 1,
            Request::ZwpLinuxDmabufV1GetDefaultFeedback { .. } => 2,
            Request::ZwpLinuxDmabufV1GetSurfaceFeedback { .. } => 3,
            Request::ZwpLinuxBufferParamsV1Destroy { .. } => 0,
            Request::ZwpLinuxBufferParamsV1Add { .. } => 1,
            Request::ZwpLinuxBufferParamsV1Create { .. } => 2,
            Request::ZwpLinuxBufferParamsV1CreateImmed { .. } => 3,
            Request::ZwpLinuxDmabufFeedbackV1Destroy { .. } => 0,
            Request::XdgWmBaseDestroy { .. } => 0,
            Request::XdgWmBaseCreatePositioner { .. } => 1,
            Request::XdgWmBaseGetXdgSurface { .. } => 2,
            Request::XdgWmBasePong { .. } => 3,
            Request::XdgPositionerDestroy { .. } => 0,
            Request::XdgPositionerSetSize { .. } => 1,
            Request::XdgPositionerSetAnchorRect { .. } => 2,
            Request::XdgPositionerSetAnchor { .. } => 3,
            Request::XdgPositionerSetGravity { .. } => 4,
            Request::XdgPositionerSetConstraintAdjustment { .. } => 5,
            Request::XdgPositionerSetOffset { .. } => 6,
            Request::XdgPositionerSetReactive { .. } => 7,
            Request::XdgPositionerSetParentSize { .. } => 8,
            Request::XdgPositionerSetParentConfigure { .. } => 9,
            Request::XdgSurfaceDestroy { .. } => 0,
            Request::XdgSurfaceGetToplevel { .. } => 1,
            Request::XdgSurfaceGetPopup { .. } => 2,
            Request::XdgSurfaceSetWindowGeometry { .. } => 3,
            Request::XdgSurfaceAckConfigure { .. } => 4,
            Request::XdgToplevelDestroy { .. } => 0,
            Request::XdgToplevelSetParent { .. } => 1,
            Request::XdgToplevelSetTitle { .. } => 2,
            Request::XdgToplevelSetAppId { .. } => 3,
            Request::XdgToplevelShowWindowMenu { .. } => 4,
            Request::XdgToplevelMove { .. } => 5,
            Request::XdgToplevelResize { .. } => 6,
            Request::XdgToplevelSetMaxSize { .. } => 7,
            Request::XdgToplevelSetMinSize { .. } => 8,
            Request::XdgToplevelSetMaximized { .. } => 9,
            Request::XdgToplevelUnsetMaximized { .. } => 10,
            Request::XdgToplevelSetFullscreen { .. } => 11,
            Request::XdgToplevelUnsetFullscreen { .. } => 12,
            Request::XdgToplevelSetMinimized { .. } => 13,
            Request::XdgPopupDestroy { .. } => 0,
            Request::XdgPopupGrab { .. } => 1,
            Request::XdgPopupReposition { .. } => 2,
            Request::WlDisplaySync { .. } => 0,
            Request::WlDisplayGetRegistry { .. } => 1,
            Request::WlRegistryBind { .. } => 0,
            Request::WlCompositorCreateSurface { .. } => 0,
            Request::WlCompositorCreateRegion { .. } => 1,
            Request::WlShmPoolCreateBuffer { .. } => 0,
            Request::WlShmPoolDestroy { .. } => 1,
            Request::WlShmPoolResize { .. } => 2,
            Request::WlShmCreatePool { .. } => 0,
            Request::WlBufferDestroy { .. } => 0,
            Request::WlDataOfferAccept { .. } => 0,
            Request::WlDataOfferReceive { .. } => 1,
            Request::WlDataOfferDestroy { .. } => 2,
            Request::WlDataOfferFinish { .. } => 3,
            Request::WlDataOfferSetActions { .. } => 4,
            Request::WlDataSourceOffer { .. } => 0,
            Request::WlDataSourceDestroy { .. } => 1,
            Request::WlDataSourceSetActions { .. } => 2,
            Request::WlDataDeviceStartDrag { .. } => 0,
            Request::WlDataDeviceSetSelection { .. } => 1,
            Request::WlDataDeviceRelease { .. } => 2,
            Request::WlDataDeviceManagerCreateDataSource { .. } => 0,
            Request::WlDataDeviceManagerGetDataDevice { .. } => 1,
            Request::WlShellGetShellSurface { .. } => 0,
            Request::WlShellSurfacePong { .. } => 0,
            Request::WlShellSurfaceMove { .. } => 1,
            Request::WlShellSurfaceResize { .. } => 2,
            Request::WlShellSurfaceSetToplevel { .. } => 3,
            Request::WlShellSurfaceSetTransient { .. } => 4,
            Request::WlShellSurfaceSetFullscreen { .. } => 5,
            Request::WlShellSurfaceSetPopup { .. } => 6,
            Request::WlShellSurfaceSetMaximized { .. } => 7,
            Request::WlShellSurfaceSetTitle { .. } => 8,
            Request::WlShellSurfaceSetClass { .. } => 9,
            Request::WlSurfaceDestroy { .. } => 0,
            Request::WlSurfaceAttach { .. } => 1,
            Request::WlSurfaceDamage { .. } => 2,
            Request::WlSurfaceFrame { .. } => 3,
            Request::WlSurfaceSetOpaqueRegion { .. } => 4,
            Request::WlSurfaceSetInputRegion { .. } => 5,
            Request::WlSurfaceCommit { .. } => 6,
            Request::WlSurfaceSetBufferTransform { .. } => 7,
            Request::WlSurfaceSetBufferScale { .. } => 8,
            Request::WlSurfaceDamageBuffer { .. } => 9,
            Request::WlSurfaceOffset { .. } => 10,
            Request::WlSeatGetPointer { .. } => 0,
            Request::WlSeatGetKeyboard { .. } => 1,
            Request::WlSeatGetTouch { .. } => 2,
            Request::WlSeatRelease { .. } => 3,
            Request::WlPointerSetCursor { .. } => 0,
            Request::WlPointerRelease { .. } => 1,
            Request::WlKeyboardRelease { .. } => 0,
            Request::WlTouchRelease { .. } => 0,
            Request::WlOutputRelease { .. } => 0,
            Request::WlRegionDestroy { .. } => 0,
            Request::WlRegionAdd { .. } => 1,
            Request::WlRegionSubtract { .. } => 2,
            Request::WlSubcompositorDestroy { .. } => 0,
            Request::WlSubcompositorGetSubsurface { .. } => 1,
            Request::WlSubsurfaceDestroy { .. } => 0,
            Request::WlSubsurfaceSetPosition { .. } => 1,
            Request::WlSubsurfacePlaceAbove { .. } => 2,
            Request::WlSubsurfacePlaceBelow { .. } => 3,
            Request::WlSubsurfaceSetSync { .. } => 4,
            Request::WlSubsurfaceSetDesync { .. } => 5,
        }
    }

    /// The interface of the object the request creates, if it creates one.
    pub fn new_object(&self) -> (r: Option<Object>)
        ensures
            r == self.spec_new_object(),
            !(r matches Some(Object::Null)),
    {
        proof {
            reveal(Request::spec_new_object);
        }
        match self {
            Request::ZwpLinuxDmabufV1CreateParams { .. } => Some(Object::ZwpLinuxBufferParamsV1),
            Request::ZwpLinuxDmabufV1GetDefaultFeedback { .. } => Some(Object::ZwpLinuxDmabufFeedbackV1),
            Request::ZwpLinuxDmabufV1GetSurfaceFeedback { .. } => Some(Object::ZwpLinuxDmabufFeedbackV1),
            Request::ZwpLinuxBufferParamsV1CreateImmed { .. } => Some(Object::WlBuffer),
            Request::XdgWmBaseCreatePositioner { .. } => Some(Object::XdgPositioner),
            Request::XdgWmBaseGetXdgSurface { .. } => Some(Object::XdgSurface),
            Request::XdgSurfaceGetToplevel { .. } => Some(Object::XdgToplevel),
            Request::XdgSurfaceGetPopup { .. } => Some(Object::XdgPopup),
            Request::WlDisplaySync { .. } => Some(Object::WlDisplaySyncCallback),
            Request::WlDisplayGetRegistry { .. } => Some(Object::WlRegistry),
            Request::WlRegistryBind { if_name, .. } => Object::from_str(if_name.as_str()),
            Request::WlCompositorCreateSurface { .. } => Some(Object::WlSurface),
            Request::WlCompositorCreateRegion { .. } => Some(Object::WlRegion),
            Request::WlShmPoolCreateBuffer { .. } => Some(Object::WlBuffer),
            Request::WlShmCreatePool { .. } => Some(Object::WlShmPool),
            Request::WlDataDeviceManagerCreateDataSource { .. } => Some(Object::WlDataSource),
            Request::WlDataDeviceManagerGetDataDevice { .. } => Some(Object::WlDataDevice),
            Request::WlShellGetShellSurface { .. } => Some(Object::WlShellSurface),
            Request::WlSurfaceFrame { .. } => Some(Object::WlSurfaceFrameCallback),
            Request::WlSeatGetPointer { .. } => Some(Object::WlPointer),
            Request::WlSeatGetKeyboard { .. } => Some(Object::WlKeyboard),
            Request::WlSeatGetTouch { .. } => Some(Object::WlTouch),
            Request::WlSubcompositorGetSubsurface { .. } => Some(Object::WlSubsurface),
            _ => None,
        }
    }

    /// Whether the request can be sent at all.
    pub fn is_valid(&self) -> (r: bool)
        ensures
            r == self.spec_valid(),
    {
        proof {
            reveal(Request::spec_new_object);
        }
        match self {
            Request::WlRegistryBind { if_name, .. } => Object::from_str(if_name.as_str()).is_some(),
            _ => true,
        }
    }

    /// The file descriptor that goes with the request, if any.
    pub fn fd(&self) -> (r: Option<i32>)
        ensures
            r == self.spec_fd(),
    {
        proof {
            reveal(Request::spec_fd);
        }
        match self {
            Request::ZwpLinuxBufferParamsV1Add { fd, .. } => Some(*fd),
            Request::WlShmCreatePool { fd, .. } => Some(*fd),
            Request::WlDataOfferReceive { fd, .. } => Some(*fd),
            _ => None,
        }
    }

    /// Length of the whole message in bytes, if a header can announce it.
    pub fn wire_size(&self) -> (r: Option<usize>)
        ensures
            r matches Some(n) ==> n == self.spec_size() && n <= MAX_MSG_SIZE,
            r is None <==> self.spec_size() > MAX_MSG_SIZE,
    {
        proof {
            reveal(Request::spec_size);
        }
        match self {
            Request::ZwpLinuxDmabufV1Destroy { .. } => Some(8),
            Request::ZwpLinuxDmabufV1CreateParams { .. } => Some(12),
            Request::ZwpLinuxDmabufV1GetDefaultFeedback { .. } => Some(12),
            Request::ZwpLinuxDmabufV1GetSurfaceFeedback { .. } => Some(16),
            Request::ZwpLinuxBufferParamsV1Destroy { .. } => Some(8),
            Request::ZwpLinuxBufferParamsV1Add { .. } => Some(28),
            Request::ZwpLinuxBufferParamsV1Create { .. } => Some(24),
            Request::ZwpLinuxBufferParamsV1CreateImmed { .. } => Some(28),
            Request::ZwpLinuxDmabufFeedbackV1Destroy { .. } => Some(8),
            Request::XdgWmBaseDestroy { .. } => Some(8),
            Request::XdgWmBaseCreatePositioner { .. } => Some(12),
            Request::XdgWmBaseGetXdgSurface { .. } => Some(16),
            Request::XdgWmBasePong { .. } => Some(12),
            Request::XdgPositionerDestroy { .. } => Some(8),
            Request::XdgPositionerSetSize { .. } => Some(16),
            Request::XdgPositionerSetAnchorRect { .. } => Some(24),
            Request::XdgPositionerSetAnchor { .. } => Some(12),
            Request::XdgPositionerSetGravity { .. } => Some(12),
            Request::XdgPositionerSetConstraintAdjustment { .. } => Some(12),
            Request::XdgPositionerSetOffset { .. } => Some(16),
            Request::XdgPositionerSetReactive { .. } => Some(8),
            Request::XdgPositionerSetParentSize { .. } => Some(16),
            Request::XdgPositionerSetParentConfigure { .. } => Some(12),
            Request::XdgSurfaceDestroy { .. } => Some(8),
            Request::XdgSurfaceGetToplevel { .. } => Some(12),
            Request::XdgSurfaceGetPopup { .. } => Some(20),
            Request::XdgSurfaceSetWindowGeometry { .. } => Some(24),
            Request::XdgSurfaceAckConfigure { .. } => Some(12),
            Request::XdgToplevelDestroy { .. } => Some(8),
            Request::XdgToplevelSetParent { .. } => Some(12),
            Request::XdgToplevelSetTitle { title, .. } => sized(8, string_wire_len(title.as_str())),
            Request::XdgToplevelSetAppId { app_id, .. } => sized(8, string_wire_len(app_id.as_str())),
            Request::XdgToplevelShowWindowMenu { .. } => Some(24),
            Request::XdgToplevelMove { .. } => Some(16),
            Request::XdgToplevelResize { .. } => Some(20),
            Request::XdgToplevelSetMaxSize { .. } => Some(16),
            Request::XdgToplevelSetMinSize { .. } => Some(16),
            Request::XdgToplevelSetMaximized { .. } => Some(8),
            Request::XdgToplevelUnsetMaximized { .. } => Some(8),
            Request::XdgToplevelSetFullscreen { .. } => Some(12),
            Request::XdgToplevelUnsetFullscreen { .. } => Some(8),
            Request::XdgToplevelSetMinimized { .. } => Some(8),
            Request::XdgPopupDestroy { .. } => Some(8),
            Request::XdgPopupGrab { .. } => Some(16),
            Request::XdgPopupReposition { .. } => Some(16),
            Request::WlDisplaySync { .. } => Some(12),
            Request::WlDisplayGetRegistry { .. } => Some(12),
            Request::WlRegistryBind { if_name, .. } => sized(20, string_wire_len(if_name.as_str())),
            Request::WlCompositorCreateSurface { .. } => Some(12),
            Request::WlCompositorCreateRegion { .. } => Some(12),
            Request::WlShmPoolCreateBuffer { .. } => Some(32),
            Request::WlShmPoolDestroy { .. } => Some(8),
            Request::WlShmPoolResize { .. } => Some(12),
            Request::WlShmCreatePool { .. } => Some(16),
            Request::WlBufferDestroy { .. } => Some(8),
            Request::WlDataOfferAccept { mime_type, .. } => sized(12, string_wire_len(mime_type.as_str())),
            Request::WlDataOfferReceive { mime_type, .. } => sized(8, string_wire_len(mime_type.as_str())),
            Request::WlDataOfferDestroy { .. } => Some(8),
            Request::WlDataOfferFinish { .. } => Some(8),
            Request::WlDataOfferSetActions { .. } => Some(16),
            Request::WlDataSourceOffer { mime_type, .. } => sized(8, string_wire_len(mime_type.as_str())),
            Request::WlDataSourceDestroy { .. } => Some(8),
            Request::WlDataSourceSetActions { .. } => Some(12),
            Request::WlDataDeviceStartDrag { .. } => Some(24),
            Request::WlDataDeviceSetSelection { .. } => Some(16),
            Request::WlDataDeviceRelease { .. } => Some(8),
            Request::WlDataDeviceManagerCreateDataSource { .. } => Some(12),
            Request::WlDataDeviceManagerGetDataDevice { .. } => Some(16),
            Request::WlShellGetShellSurface { .. } => Some(16),
            Request::WlShellSurfacePong { .. } => Some(12),
            Request::WlShellSurfaceMove { .. } => Some(16),
            Request::WlShellSurfaceResize { .. } => Some(20),
            Request::WlShellSurfaceSetToplevel { .. } => Some(8),
            Request::WlShellSurfaceSetTransient { .. } => Some(24),
            Request::WlShellSurfaceSetFullscreen { .. } => Some(20),
            Request::WlShellSurfaceSetPopup { .. } => Some(32),
            Request::WlShellSurfaceSetMaximized { .. } => Some(12),
            Request::WlShellSurfaceSetTitle { title, .. } => sized(8, string_wire_len(title.as_str())),
            Request::WlShellSurfaceSetClass { class_, .. } => sized(8, string_wire_len(class_.as_str())),
            Request::WlSurfaceDestroy { .. } => Some(8),
            Request::WlSurfaceAttach { .. } => Some(20),
            Request::WlSurfaceDamage { .. } => Some(24),
            Request::WlSurfaceFrame { .. } => Some(12),
            Request::WlSurfaceSetOpaqueRegion { .. } => Some(12),
            Request::WlSurfaceSetInputRegion { .. } => Some(12),
            Request::WlSurfaceCommit { .. } => Some(8),
            Request::WlSurfaceSetBufferTransform { .. } => Some(12),
            Request::WlSurfaceSetBufferScale { .. } => Some(12),
            Request::WlSurfaceDamageBuffer { .. } => Some(24),
            Request::WlSurfaceOffset { .. } => Some(16),
            Request::WlSeatGetPointer { .. } => Some(12),
            Request::WlSeatGetKeyboard { .. } => Some(12),
            Request::WlSeatGetTouch { .. } => Some(12),
            Request::WlSeatRelease { .. } => Some(8),
            Request::WlPointerSetCursor { .. } => Some(24),
            Request::WlPointerRelease { .. } => Some(8),
            Request::WlKeyboardRelease { .. } => Some(8),
            Request::WlTouchRelease { .. } => Some(8),
            Request::WlOutputRelease { .. } => Some(8),
            Request::WlRegionDestroy { .. } => Some(8),
            Request::WlRegionAdd { .. } => Some(24),
            Request::WlRegionSubtract { .. } => Some(24),
            Request::WlSubcompositorDestroy { .. } => Some(8),
            Request::WlSubcompositorGetSubsurface { .. } => Some(20),
            Request::WlSubsurfaceDestroy { .. } => Some(8),
            Request::WlSubsurfaceSetPosition { .. } => Some(16),
            Request::WlSubsurfacePlaceAbove { .. } => Some(12),
            Request::WlSubsurfacePlaceBelow { .. } => Some(12),
            Request::WlSubsurfaceSetSync { .. } => Some(8),
            Request::WlSubsurfaceSetDesync { .. } => Some(8),
        }
    }
}

proof fn lemma_len_zwp_linux_dmabuf_v1(req: Request, new_id: u32)
    requires
        req.spec_interface() == Object::ZwpLinuxDmabufV1,
    ensures
        req.spec_framed(new_id),
{
    reveal(Request::spec_interface);
    reveal(Request::spec_payload);
    reveal(Request::spec_size);
}

proof fn lemma_len_zwp_linux_buffer_params_v1(req: Request, new_id: u32)
    requires
        req.spec_interface() == Object::ZwpLinuxBufferParamsV1,
    ensures
        req.spec_framed(new_id),
{
    reveal(Request::spec_interface);
    reveal(Request::spec_payload);
    reveal(Request::spec_size);
}

proof fn lemma_len_zwp_linux_dmabuf_feedback_v1(req: Request, new_id: u32)
    requires
        req.spec_interface() == Object::ZwpLinuxDmabufFeedbackV1,
    ensures
        req.spec_framed(new_id),
{
    reveal(Request::spec_interface);
    reveal(Request::spec_payload);
    reveal(Request::spec_size);
}

proof fn lemma_len_xdg_wm_base(req: Request, new_id: u32)
    requires
        req.spec_interface() == Object::XdgWmBase,
    ensures
        req.spec_framed(new_id),
{
    reveal(Request::spec_interface);
    reveal(Request::spec_payload);
    reveal(Request::spec_size);
}

proof fn lemma_len_xdg_positioner(req: Request, new_id: u32)
    requires
        req.spec_interface() == Object::XdgPositioner,
    ensures
        req.spec_framed(new_id),
{
    reveal(Request::spec_interface);
    reveal(Request::spec_payload);
    reveal(Request::spec_size);
}

proof fn lemma_len_xdg_surface(req: Request, new_id: u32)
    requires
        req.spec_interface() == Object::XdgSurface,
    ensures
        req.spec_framed(new_id),
{
    reveal(Request::spec_interface);
    reveal(Request::spec_payload);
    reveal(Request::spec_size);
}

proof fn lemma_len_xdg_toplevel(req: Request, new_id: u32)
    requires
        req.spec_interface() == Object::XdgToplevel,
    ensures
        req.spec_framed(new_id),
{
    reveal(Request::spec_interface);
    reveal(Request::spec_payload);
    reveal(Request::spec_size);
    match req {
        Request::XdgToplevelSetTitle { title, .. } => {
            lemma_string_bytes(title@);
        },
        Request::XdgToplevelSetAppId { app_id, .. } => {
            lemma_string_bytes(app_id@);
        },
        _ => {},
    }
}

proof fn lemma_len_xdg_popup(req: Request, new_id: u32)
    requires
        req.spec_interface() == Object::XdgPopup,
    ensures
        req.spec_framed(new_id),
{
    reveal(Request::spec_interface);
    reveal(Request::spec_payload);
    reveal(Request::spec_size);
}

proof fn lemma_len_wl_display(req: Request, new_id: u32)
    requires
        req.spec_interface() == Object::WlDisplay,
    ensures
        req.spec_framed(new_id),
{
    reveal(Request::spec_interface);
    reveal(Request::spec_payload);
    reveal(Request::spec_size);
}

proof fn lemma_len_wl_registry(req: Request, new_id: u32)
    requires
        req.spec_interface() == Object::WlRegistry,
    ensures
        req.spec_framed(new_id),
{
    reveal(Request::spec_interface);
    reveal(Request::spec_payload);
    reveal(Request::spec_size);
    match req {
        Request::WlRegistryBind { if_name, .. } => {
            lemma_string_bytes(if_name@);
        },
        _ => {},
    }
}

proof fn lemma_len_wl_compositor(req: Request, new_id: u32)
    requires
        req.spec_interface() == Object::WlCompositor,
    ensures
        req.spec_framed(new_id),
{
    reveal(Request::spec_interface);
    reveal(Request::spec_payload);
    reveal(Request::spec_size);
}

proof fn lemma_len_wl_shm_pool(req: Request, new_id: u32)
    requires
        req.spec_interface() == Object::WlShmPool,
    ensures
        req.spec_framed(new_id),
{
    reveal(Request::spec_interface);
    reveal(Request::spec_payload);
    reveal(Request::spec_size);
}

proof fn lemma_len_wl_shm(req: Request, new_id: u32)
    requires
        req.spec_interface() == Object::WlShm,
    ensures
        req.spec_framed(new_id),
{
    reveal(Request::spec_interface);
    reveal(Request::spec_payload);
    reveal(Request::spec_size);
}

proof fn lemma_len_wl_buffer(req: Request, new_id: u32)
    requires
        req.spec_interface() == Object::WlBuffer,
    ensures
        req.spec_framed(new_id),
{
    reveal(Request::spec_interface);
    reveal(Request::spec_payload);
    reveal(Request::spec_size);
}

proof fn lemma_len_wl_data_offer(req: Request, new_id: u32)
    requires
        req.spec_interface() == Object::WlDataOffer,
    ensures
        req.spec_framed(new_id),
{
    reveal(Request::spec_interface);
    reveal(Request::spec_payload);
    reveal(Request::spec_size);
    match req {
        Request::WlDataOfferAccept { mime_type, .. } => {
            lemma_string_bytes(mime_type@);
        },
        Request::WlDataOfferReceive { mime_type, .. } => {
            lemma_string_bytes(mime_type@);
        },
        _ => {},
    }
}

proof fn lemma_len_wl_data_source(req: Request, new_id: u32)
    requires
        req.spec_interface() == Object::WlDataSource,
    ensures
        req.spec_framed(new_id),
{
    reveal(Request::spec_interface);
    reveal(Request::spec_payload);
    reveal(Request::spec_size);
    match req {
        Request::WlDataSourceOffer { mime_type, .. } => {
            lemma_string_bytes(mime_type@);
        },
        _ => {},
    }
}

proof fn lemma_len_wl_data_device(req: Request, new_id: u32)
    requires
        req.spec_interface() == Object::WlDataDevice,
    ensures
        req.spec_framed(new_id),
{
    reveal(Request::spec_interface);
    reveal(Request::spec_payload);
    reveal(Request::spec_size);
}

proof fn lemma_len_wl_data_device_manager(req: Request, new_id: u32)
    requires
        req.spec_interface() == Object::WlDataDeviceManager,
    ensures
        req.spec_framed(new_id),
{
    reveal(Request::spec_interface);
    reveal(Request::spec_payload);
    reveal(Request::spec_size);
}

proof fn lemma_len_wl_shell(req: Request, new_id: u32)
    requires
        req.spec_interface() == Object::WlShell,
    ensures
        req.spec_framed(new_id),
{
    reveal(Request::spec_interface);
    reveal(Request::spec_payload);
    reveal(Request::spec_size);
}

proof fn lemma_len_wl_shell_surface(req: Request, new_id: u32)
    requires
        req.spec_interface() == Object::WlShellSurface,
    ensures
        req.spec_framed(new_id),
{
    reveal(Request::spec_interface);
    reveal(Request::spec_payload);
    reveal(Request::spec_size);
    match req {
        Request::WlShellSurfaceSetTitle { title, .. } => {
            lemma_string_bytes(title@);
        },
        Request::WlShellSurfaceSetClass { class_, .. } => {
            lemma_string_bytes(class_@);
        },
        _ => {},
    }
}

proof fn lemma_len_wl_surface(req: Request, new_id: u32)
    requires
        req.spec_interface() == Object::WlSurface,
    ensures
        req.spec_framed(new_id),
{
    reveal(Request::spec_interface);
    reveal(Request::spec_payload);
    reveal(Request::spec_size);
}

proof fn lemma_len_wl_seat(req: Request, new_id: u32)
    requires
        req.spec_interface() == Object::WlSeat,
    ensures
        req.spec_framed(new_id),
{
    reveal(Request::spec_interface);
    reveal(Request::spec_payload);
    reveal(Request::spec_size);
}

proof fn lemma_len_wl_pointer(req: Request, new_id: u32)
    requires
        req.spec_interface() == Object::WlPointer,
    ensures
        req.spec_framed(new_id),
{
    reveal(Request::spec_interface);
    reveal(Request::spec_payload);
    reveal(Request::spec_size);
}

proof fn lemma_len_wl_keyboard(req: Request, new_id: u32)
    requires
        req.spec_interface() == Object::WlKeyboard,
    ensures
        req.spec_framed(new_id),
{
    reveal(Request::spec_interface);
    reveal(Request::spec_payload);
    reveal(Request::spec_size);
}

proof fn lemma_len_wl_touch(req: Request, new_id: u32)
    requires
        req.spec_interface() == Object::WlTouch,
    ensures
        req.spec_framed(new_id),
{
    reveal(Request::spec_interface);
    reveal(Request::spec_payload);
    reveal(Request::spec_size);
}

proof fn lemma_len_wl_output(req: Request, new_id: u32)
    requires
        req.spec_interface() == Object::WlOutput,
    ensures
        req.spec_framed(new_id),
{
    reveal(Request::spec_interface);
    reveal(Request::spec_payload);
    reveal(Request::spec_size);
}

proof fn lemma_len_wl_region(req: Request, new_id: u32)
    requires
        req.spec_interface() == Object::WlRegion,
    ensures
        req.spec_framed(new_id),
{
    reveal(Request::spec_interface);
    reveal(Request::spec_payload);
    reveal(Request::spec_size);
}

proof fn lemma_len_wl_subcompositor(req: Request, new_id: u32)
    requires
        req.spec_interface() == Object::WlSubcompositor,
    ensures
        req.spec_framed(new_id),
{
    reveal(Request::spec_interface);
    reveal(Request::spec_payload);
    reveal(Request::spec_size);
}

proof fn lemma_len_wl_subsurface(req: Request, new_id: u32)
    requires
        req.spec_interface() == Object::WlSubsurface,
    ensures
        req.spec_framed(new_id),
{
    reveal(Request::spec_interface);
    reveal(Request::spec_payload);
    reveal(Request::spec_size);
}

/// The sum of a fixed part and a variable part, if both stay within one
/// message.
fn sized(fixed: usize, var: Option<usize>) -> (r: Option<usize>)
    requires
        fixed <= 64,
        var matches Some(n) ==> n <= MAX_MSG_SIZE,
    ensures
        r matches Some(n) ==> var matches Some(v) && n == fixed + v && n <= MAX_MSG_SIZE,
        r is None <==> (var matches Some(v) ==> fixed + v > MAX_MSG_SIZE),
{
    match var {
        Some(v) => if v > 65532 - fixed {
            None
        } else {
            Some(fixed + v)
        },
        None => None,
    }
}

} // verus!
