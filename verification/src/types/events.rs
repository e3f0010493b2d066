//! Events: one structure for each event of each interface, and how each
//! is read from the wire.
use crate::types::enums;
use crate::types::object::Object;
use crate::types::Fixed;
use crate::wire::{Cursor, Reader, WireError};
use vstd::prelude::*;

verus! {

/// `xdg_wm_base.ping`
///
/// The ping event asks the client if it's still alive. Pass the serial
/// specified in the event back to the compositor by sending a "pong" request
/// back with the specified serial.
#[derive(Debug)]
pub struct XdgWmBasePingEvent {
    /// The object the event came from.
    pub source_id: u32,
    /// Pass this to the pong request.
    pub serial: u32,
}

impl XdgWmBasePingEvent {
    /// Where a cursor that stood at the first argument stands after the last.
    pub open spec fn spec_end(b: Seq<u8>, fds: Seq<u8>, c: Cursor) -> Cursor {
        c.word()
    }

    /// Whether `self` is what the arguments under the cursor `c` decode to.
    pub open spec fn spec_decoded(&self, source_id: u32, b: Seq<u8>, fds: Seq<u8>, c: Cursor) -> bool {
        &&& self.source_id == source_id
        &&& self.serial == c.word_val(b)
    }

    /// Reads the arguments of the event at the reader's place.
    pub fn decode(r: &mut Reader, source_id: u32) -> (res: Result<Self, WireError>)
        requires
            old(r).wf(),
        ensures
            final(r).wf(),
            final(r).bytes() == old(r).bytes(),
            final(r).fd_bytes() == old(r).fd_bytes(),
            match res {
                Ok(e) => final(r).cursor() == Self::spec_end(
                    old(r).bytes(),
                    old(r).fd_bytes(),
                    old(r).cursor(),
                ) && e.spec_decoded(source_id, old(r).bytes(), old(r).fd_bytes(), old(r).cursor()),
                Err(e) => Self::spec_end(old(r).bytes(), old(r).fd_bytes(), old(r).cursor()).fault
                    == Some(e),
            },
    {
        let serial = r.get_uint()?;
        Ok(XdgWmBasePingEvent { source_id, serial })
    }
}

/// `xdg_surface.configure`
///
/// The configure event marks the end of a configure sequence. A configure
/// sequence is a set of one or more events configuring the state of the
/// xdg_surface, including the final xdg_surface.configure event.
#[derive(Debug)]
pub struct XdgSurfaceConfigureEvent {
    /// The object the event came from.
    pub source_id: u32,
    /// Serial of the configure event.
    pub serial: u32,
}

impl XdgSurfaceConfigureEvent {
    /// Where a cursor that stood at the first argument stands after the last.
    pub open spec fn spec_end(b: Seq<u8>, fds: Seq<u8>, c: Cursor) -> Cursor {
        c.word()
    }

    /// Whether `self` is what the arguments under the cursor `c` decode to.
    pub open spec fn spec_decoded(&self, source_id: u32, b: Seq<u8>, fds: Seq<u8>, c: Cursor) -> bool {
        &&& self.source_id == source_id
        &&& self.serial == c.word_val(b)
    }

    /// Reads the arguments of the event at the reader's place.
    pub fn decode(r: &mut Reader, source_id: u32) -> (res: Result<Self, WireError>)
        requires
            old(r).wf(),
        ensures
            final(r).wf(),
            final(r).bytes() == old(r).bytes(),
            final(r).fd_bytes() == old(r).fd_bytes(),
            match res {
                Ok(e) => final(r).cursor() == Self::spec_end(
                    old(r).bytes(),
                    old(r).fd_bytes(),
                    old(r).cursor(),
                ) && e.spec_decoded(source_id, old(r).bytes(), old(r).fd_bytes(), old(r).cursor()),
                Err(e) => Self::spec_end(old(r).bytes(), old(r).fd_bytes(), old(r).cursor()).fault
                    == Some(e),
            },
    {
        let serial = r.get_uint()?;
        Ok(XdgSurfaceConfigureEvent { source_id, serial })
    }
}

/// `xdg_toplevel.configure`
///
/// This configure event asks the client to resize its toplevel surface or to
/// change its state. The configured state should not be applied immediately.
/// See xdg_surface.configure for details.
#[derive(Debug)]
pub struct XdgToplevelConfigureEvent {
    /// The object the event came from.
    pub source_id: u32,
    pub width: i32,
    pub height: i32,
    pub states: Vec<u8>,
}

impl XdgToplevelConfigureEvent {
    /// Where a cursor that stood at the first argument stands after the last.
    pub open spec fn spec_end(b: Seq<u8>, fds: Seq<u8>, c: Cursor) -> Cursor {
        c.word().word().array(b)
    }

    /// Whether `self` is what the arguments under the cursor `c` decode to.
    pub open spec fn spec_decoded(&self, source_id: u32, b: Seq<u8>, fds: Seq<u8>, c: Cursor) -> bool {
        &&& self.source_id == source_id
        &&& self.width == c.int_val(b)
        &&& self.height == c.word().int_val(b)
        &&& self.states@ == c.word().word().array_val(b)
    }

    /// Reads the arguments of the event at the reader's place.
    pub fn decode(r: &mut Reader, source_id: u32) -> (res: Result<Self, WireError>)
        requires
            old(r).wf(),
        ensures
            final(r).wf(),
            final(r).bytes() == old(r).bytes(),
            final(r).fd_bytes() == old(r).fd_bytes(),
            match res {
                Ok(e) => final(r).cursor() == Self::spec_end(
                    old(r).bytes(),
                    old(r).fd_bytes(),
                    old(r).cursor(),
                ) && e.spec_decoded(source_id, old(r).bytes(), old(r).fd_bytes(), old(r).cursor()),
                Err(e) => Self::spec_end(old(r).bytes(), old(r).fd_bytes(), old(r).cursor()).fault
                    == Some(e),
            },
    {
        let width = r.get_int()?;
        let height = r.get_int()?;
        let states = r.get_vec()?;
        Ok(XdgToplevelConfigureEvent { source_id, width, height, states })
    }
}

/// `xdg_toplevel.close`
///
/// The close event is sent by the compositor when the user wants the surface to
/// be closed. This should be equivalent to the user clicking the close button
/// in client-side decorations, if your application has any.
#[derive(Debug)]
pub struct XdgToplevelCloseEvent {
    /// The object the event came from.
    pub source_id: u32,
}

impl XdgToplevelCloseEvent {
    /// Where a cursor that stood at the first argument stands after the last.
    pub open spec fn spec_end(b: Seq<u8>, fds: Seq<u8>, c: Cursor) -> Cursor {
        c
    }

    /// Whether `self` is what the arguments under the cursor `c` decode to.
    pub open spec fn spec_decoded(&self, source_id: u32, b: Seq<u8>, fds: Seq<u8>, c: Cursor) -> bool {
        &&& self.source_id == source_id
    }

    /// Reads the arguments of the event at the reader's place.
    pub fn decode(r: &mut Reader, source_id: u32) -> (res: Result<Self, WireError>)
        requires
            old(r).wf(),
        ensures
            final(r).wf(),
            final(r).bytes() == old(r).bytes(),
            final(r).fd_bytes() == old(r).fd_bytes(),
            match res {
                Ok(e) => final(r).cursor() == Self::spec_end(
                    old(r).bytes(),
                    old(r).fd_bytes(),
                    old(r).cursor(),
                ) && e.spec_decoded(source_id, old(r).bytes(), old(r).fd_bytes(), old(r).cursor()),
                Err(e) => Self::spec_end(old(r).bytes(), old(r).fd_bytes(), old(r).cursor()).fault
                    == Some(e),
            },
    {
        Ok(XdgToplevelCloseEvent { source_id })
    }
}

/// `xdg_toplevel.configure_bounds`
///
/// The configure_bounds event may be sent prior to a xdg_toplevel.configure
/// event to communicate the bounds a window geometry size is recommended to
/// constrain to.
#[derive(Debug)]
pub struct XdgToplevelConfigureBoundsEvent {
    /// The object the event came from.
    pub source_id: u32,
    pub width: i32,
    pub height: i32,
}

impl XdgToplevelConfigureBoundsEvent {
    /// Where a cursor that stood at the first argument stands after the last.
    pub open spec fn spec_end(b: Seq<u8>, fds: Seq<u8>, c: Cursor) -> Cursor {
        c.word().word()
    }

    /// Whether `self` is what the arguments under the cursor `c` decode to.
    pub open spec fn spec_decoded(&self, source_id: u32, b: Seq<u8>, fds: Seq<u8>, c: Cursor) -> bool {
        &&& self.source_id == source_id
        &&& self.width == c.int_val(b)
        &&& self.height == c.word().int_val(b)
    }

    /// Reads the arguments of the event at the reader's place.
    pub fn decode(r: &mut Reader, source_id: u32) -> (res: Result<Self, WireError>)
        requires
            old(r).wf(),
        ensures
            final(r).wf(),
            final(r).bytes() == old(r).bytes(),
            final(r).fd_bytes() == old(r).fd_bytes(),
            match res {
                Ok(e) => final(r).cursor() == Self::spec_end(
                    old(r).bytes(),
                    old(r).fd_bytes(),
                    old(r).cursor(),
                ) && e.spec_decoded(source_id, old(r).bytes(), old(r).fd_bytes(), old(r).cursor()),
                Err(e) => Self::spec_end(old(r).bytes(), old(r).fd_bytes(), old(r).cursor()).fault
                    == Some(e),
            },
    {
        let width = r.get_int()?;
        let height = r.get_int()?;
        Ok(XdgToplevelConfigureBoundsEvent { source_id, width, height })
    }
}

/// `xdg_toplevel.wm_capabilities`
///
/// This event advertises the capabilities supported by the compositor. If a
/// capability isn't supported, clients should hide or disable the UI elements
/// that expose this functionality.
#[derive(Debug)]
pub struct XdgToplevelWmCapabilitiesEvent {
    /// The object the event came from.
    pub source_id: u32,
    /// Array of 32-bit capabilities.
    pub capabilities: Vec<u8>,
}

impl XdgToplevelWmCapabilitiesEvent {
    /// Where a cursor that stood at the first argument stands after the last.
    pub open spec fn spec_end(b: Seq<u8>, fds: Seq<u8>, c: Cursor) -> Cursor {
        c.array(b)
    }

    /// Whether `self` is what the arguments under the cursor `c` decode to.
    pub open spec fn spec_decoded(&self, source_id: u32, b: Seq<u8>, fds: Seq<u8>, c: Cursor) -> bool {
        &&& self.source_id == source_id
        &&& self.capabilities@ == c.array_val(b)
    }

    /// Reads the arguments of the event at the reader's place.
    pub fn decode(r: &mut Reader, source_id: u32) -> (res: Result<Self, WireError>)
        requires
            old(r).wf(),
        ensures
            final(r).wf(),
            final(r).bytes() == old(r).bytes(),
            final(r).fd_bytes() == old(r).fd_bytes(),
            match res {
                Ok(e) => final(r).cursor() == Self::spec_end(
                    old(r).bytes(),
                    old(r).fd_bytes(),
                    old(r).cursor(),
                ) && e.spec_decoded(source_id, old(r).bytes(), old(r).fd_bytes(), old(r).cursor()),
                Err(e) => Self::spec_end(old(r).bytes(), old(r).fd_bytes(), old(r).cursor()).fault
                    == Some(e),
            },
    {
        let capabilities = r.get_vec()?;
        Ok(XdgToplevelWmCapabilitiesEvent { source_id, capabilities })
    }
}

/// `xdg_popup.configure`
///
/// This event asks the popup surface to configure itself given the
/// configuration. The configured state should not be applied immediately. See
/// xdg_surface.configure for details.
#[derive(Debug)]
pub struct XdgPopupConfigureEvent {
    /// The object the event came from.
    pub source_id: u32,
    /// X position relative to parent surface window geometry.
    pub x: i32,
    /// Y position relative to parent surface window geometry.
    pub y: i32,
    /// Window geometry width.
    pub width: i32,
    /// Window geometry height.
    pub height: i32,
}

impl XdgPopupConfigureEvent {
    /// Where a cursor that stood at the first argument stands after the last.
    pub open spec fn spec_end(b: Seq<u8>, fds: Seq<u8>, c: Cursor) -> Cursor {
        c.word().word().word().word()
    }

    /// Whether `self` is what the arguments under the cursor `c` decode to.
    pub open spec fn spec_decoded(&self, source_id: u32, b: Seq<u8>, fds: Seq<u8>, c: Cursor) -> bool {
        &&& self.source_id == source_id
        &&& self.x == c.int_val(b)
        &&& self.y == c.word().int_val(b)
        &&& self.width == c.word().word().int_val(b)
        &&& self.height == c.word().word().word().int_val(b)
    }

    /// Reads the arguments of the event at the reader's place.
    pub fn decode(r: &mut Reader, source_id: u32) -> (res: Result<Self, WireError>)
        requires
            old(r).wf(),
        ensures
            final(r).wf(),
            final(r).bytes() == old(r).bytes(),
            final(r).fd_bytes() == old(r).fd_bytes(),
            match res {
                Ok(e) => final(r).cursor() == Self::spec_end(
                    old(r).bytes(),
                    old(r).fd_bytes(),
                    old(r).cursor(),
                ) && e.spec_decoded(source_id, old(r).bytes(), old(r).fd_bytes(), old(r).cursor()),
                Err(e) => Self::spec_end(old(r).bytes(), old(r).fd_bytes(), old(r).cursor()).fault
                    == Some(e),
            },
    {
        let x = r.get_int()?;
        let y = r.get_int()?;
        let width = r.get_int()?;
        let height = r.get_int()?;
        Ok(XdgPopupConfigureEvent { source_id, x, y, width, height })
    }
}

/// `xdg_popup.popup_done`
///
/// The popup_done event is sent out when a popup is dismissed by the
/// compositor. The client should destroy the xdg_popup object at this point.
#[derive(Debug)]
pub struct XdgPopupPopupDoneEvent {
    /// The object the event came from.
    pub source_id: u32,
}

impl XdgPopupPopupDoneEvent {
    /// Where a cursor that stood at the first argument stands after the last.
    pub open spec fn spec_end(b: Seq<u8>, fds: Seq<u8>, c: Cursor) -> Cursor {
        c
    }

    /// Whether `self` is what the arguments under the cursor `c` decode to.
    pub open spec fn spec_decoded(&self, source_id: u32, b: Seq<u8>, fds: Seq<u8>, c: Cursor) -> bool {
        &&& self.source_id == source_id
    }

    /// Reads the arguments of the event at the reader's place.
    pub fn decode(r: &mut Reader, source_id: u32) -> (res: Result<Self, WireError>)
        requires
            old(r).wf(),
        ensures
            final(r).wf(),
            final(r).bytes() == old(r).bytes(),
            final(r).fd_bytes() == old(r).fd_bytes(),
            match res {
                Ok(e) => final(r).cursor() == Self::spec_end(
                    old(r).bytes(),
                    old(r).fd_bytes(),
                    old(r).cursor(),
                ) && e.spec_decoded(source_id, old(r).bytes(), old(r).fd_bytes(), old(r).cursor()),
                Err(e) => Self::spec_end(old(r).bytes(), old(r).fd_bytes(), old(r).cursor()).fault
                    == Some(e),
            },
    {
        Ok(XdgPopupPopupDoneEvent { source_id })
    }
}

/// `xdg_popup.repositioned`
///
/// The repositioned event is sent as part of a popup configuration sequence,
/// together with xdg_popup.configure and lastly xdg_surface.configure to notify
/// the completion of a reposition request.
#[derive(Debug)]
pub struct XdgPopupRepositionedEvent {
    /// The object the event came from.
    pub source_id: u32,
    /// Reposition request token.
    pub token: u32,
}

impl XdgPopupRepositionedEvent {
    /// Where a cursor that stood at the first argument stands after the last.
    pub open spec fn spec_end(b: Seq<u8>, fds: Seq<u8>, c: Cursor) -> Cursor {
        c.word()
    }

    /// Whether `self` is what the arguments under the cursor `c` decode to.
    pub open spec fn spec_decoded(&self, source_id: u32, b: Seq<u8>, fds: Seq<u8>, c: Cursor) -> bool {
        &&& self.source_id == source_id
        &&& self.token == c.word_val(b)
    }

    /// Reads the arguments of the event at the reader's place.
    pub fn decode(r: &mut Reader, source_id: u32) -> (res: Result<Self, WireError>)
        requires
            old(r).wf(),
        ensures
            final(r).wf(),
            final(r).bytes() == old(r).bytes(),
            final(r).fd_bytes() == old(r).fd_bytes(),
            match res {
                Ok(e) => final(r).cursor() == Self::spec_end(
                    old(r).bytes(),
                    old(r).fd_bytes(),
                    old(r).cursor(),
                ) && e.spec_decoded(source_id, old(r).bytes(), old(r).fd_bytes(), old(r).cursor()),
                Err(e) => Self::spec_end(old(r).bytes(), old(r).fd_bytes(), old(r).cursor()).fault
                    == Some(e),
            },
    {
        let token = r.get_uint()?;
        Ok(XdgPopupRepositionedEvent { source_id, token })
    }
}

/// `wl_callback.done` for the callback of a `wl_display.sync`.
///
/// Callback event.
#[derive(Debug)]
pub struct WlDisplaySyncDoneEvent {
    /// The object the event came from.
    pub source_id: u32,
    /// Event specific data.
    pub data: u32,
}

impl WlDisplaySyncDoneEvent {
    /// Where a cursor that stood at the first argument stands after the last.
    pub open spec fn spec_end(b: Seq<u8>, fds: Seq<u8>, c: Cursor) -> Cursor {
        c.word()
    }

    /// Whether `self` is what the arguments under the cursor `c` decode to.
    pub open spec fn spec_decoded(&self, source_id: u32, b: Seq<u8>, fds: Seq<u8>, c: Cursor) -> bool {
        &&& self.source_id == source_id
        &&& self.data == c.word_val(b)
    }

    /// Reads the arguments of the event at the reader's place.
    pub fn decode(r: &mut Reader, source_id: u32) -> (res: Result<Self, WireError>)
        requires
            old(r).wf(),
        ensures
            final(r).wf(),
            final(r).bytes() == old(r).bytes(),
            final(r).fd_bytes() == old(r).fd_bytes(),
            match res {
                Ok(e) => final(r).cursor() == Self::spec_end(
                    old(r).bytes(),
                    old(r).fd_bytes(),
                    old(r).cursor(),
                ) && e.spec_decoded(source_id, old(r).bytes(), old(r).fd_bytes(), old(r).cursor()),
                Err(e) => Self::spec_end(old(r).bytes(), old(r).fd_bytes(), old(r).cursor()).fault
                    == Some(e),
            },
    {
        let data = r.get_uint()?;
        Ok(WlDisplaySyncDoneEvent { source_id, data })
    }
}

/// `wl_display.error`
///
/// The error event is sent out when a fatal (non-recoverable) error has
/// occurred. The object_id argument is the object where the error occurred,
/// most often in response to a request to that object.
#[derive(Debug)]
pub struct WlDisplayErrorEvent {
    /// The object the event came from.
    pub source_id: u32,
    /// Object where the error occurred.
    pub object_id: u32,
    /// Error code.
    pub code: u32,
    /// Error description.
    pub message: String,
}

impl WlDisplayErrorEvent {
    /// Where a cursor that stood at the first argument stands after the last.
    pub open spec fn spec_end(b: Seq<u8>, fds: Seq<u8>, c: Cursor) -> Cursor {
        c.word().word().string(b)
    }

    /// Whether `self` is what the arguments under the cursor `c` decode to.
    pub open spec fn spec_decoded(&self, source_id: u32, b: Seq<u8>, fds: Seq<u8>, c: Cursor) -> bool {
        &&& self.source_id == source_id
        &&& self.object_id == c.word_val(b)
        &&& self.code == c.word().word_val(b)
        &&& self.message@ == c.word().word().string_val(b)
    }

    /// Reads the arguments of the event at the reader's place.
    pub fn decode(r: &mut Reader, source_id: u32) -> (res: Result<Self, WireError>)
        requires
            old(r).wf(),
        ensures
            final(r).wf(),
            final(r).bytes() == old(r).bytes(),
            final(r).fd_bytes() == old(r).fd_bytes(),
            match res {
                Ok(e) => final(r).cursor() == Self::spec_end(
                    old(r).bytes(),
                    old(r).fd_bytes(),
                    old(r).cursor(),
                ) && e.spec_decoded(source_id, old(r).bytes(), old(r).fd_bytes(), old(r).cursor()),
                Err(e) => Self::spec_end(old(r).bytes(), old(r).fd_bytes(), old(r).cursor()).fault
                    == Some(e),
            },
    {
        let object_id = r.get_uint()?;
        let code = r.get_uint()?;
        let message = r.get_str()?;
        Ok(WlDisplayErrorEvent { source_id, object_id, code, message })
    }
}

/// `wl_display.delete_id`
///
/// This event is used internally by the object ID management logic. When a
/// client deletes an object that it had created, the server will send this
/// event to acknowledge that it has seen the delete request.
#[derive(Debug)]
pub struct WlDisplayDeleteIdEvent {
    /// The object the event came from.
    pub source_id: u32,
    /// Deleted object ID.
    pub id: u32,
}

impl WlDisplayDeleteIdEvent {
    /// Where a cursor that stood at the first argument stands after the last.
    pub open spec fn spec_end(b: Seq<u8>, fds: Seq<u8>, c: Cursor) -> Cursor {
        c.word()
    }

    /// Whether `self` is what the arguments under the cursor `c` decode to.
    pub open spec fn spec_decoded(&self, source_id: u32, b: Seq<u8>, fds: Seq<u8>, c: Cursor) -> bool {
        &&& self.source_id == source_id
        &&& self.id == c.word_val(b)
    }

    /// Reads the arguments of the event at the reader's place.
    pub fn decode(r: &mut Reader, source_id: u32) -> (res: Result<Self, WireError>)
        requires
            old(r).wf(),
        ensures
            final(r).wf(),
            final(r).bytes() == old(r).bytes(),
            final(r).fd_bytes() == old(r).fd_bytes(),
            match res {
                Ok(e) => final(r).cursor() == Self::spec_end(
                    old(r).bytes(),
                    old(r).fd_bytes(),
                    old(r).cursor(),
                ) && e.spec_decoded(source_id, old(r).bytes(), old(r).fd_bytes(), old(r).cursor()),
                Err(e) => Self::spec_end(old(r).bytes(), old(r).fd_bytes(), old(r).cursor()).fault
                    == Some(e),
            },
    {
        let id = r.get_uint()?;
        Ok(WlDisplayDeleteIdEvent { source_id, id })
    }
}

/// `wl_registry.global`
///
/// Notify the client of global objects.
#[derive(Debug)]
pub struct WlRegistryGlobalEvent {
    /// The object the event came from.
    pub source_id: u32,
    /// Numeric name of the global object.
    pub name: u32,
    /// Interface implemented by the object.
    pub interface: String,
    /// Interface version.
    pub version: u32,
}

impl WlRegistryGlobalEvent {
    /// Where a cursor that stood at the first argument stands after the last.
    pub open spec fn spec_end(b: Seq<u8>, fds: Seq<u8>, c: Cursor) -> Cursor {
        c.word().string(b).word()
    }

    /// Whether `self` is what the arguments under the cursor `c` decode to.
    pub open spec fn spec_decoded(&self, source_id: u32, b: Seq<u8>, fds: Seq<u8>, c: Cursor) -> bool {
        &&& self.source_id == source_id
        &&& self.name == c.word_val(b)
        &&& self.interface@ == c.word().string_val(b)
        &&& self.version == c.word().string(b).word_val(b)
    }

    /// Reads the arguments of the event at the reader's place.
    pub fn decode(r: &mut Reader, source_id: u32) -> (res: Result<Self, WireError>)
        requires
            old(r).wf(),
        ensures
            final(r).wf(),
            final(r).bytes() == old(r).bytes(),
            final(r).fd_bytes() == old(r).fd_bytes(),
            match res {
                Ok(e) => final(r).cursor() == Self::spec_end(
                    old(r).bytes(),
                    old(r).fd_bytes(),
                    old(r).cursor(),
                ) && e.spec_decoded(source_id, old(r).bytes(), old(r).fd_bytes(), old(r).cursor()),
                Err(e) => Self::spec_end(old(r).bytes(), old(r).fd_bytes(), old(r).cursor()).fault
                    == Some(e),
            },
    {
        let name = r.get_uint()?;
        let interface = r.get_str()?;
        let version = r.get_uint()?;
        Ok(WlRegistryGlobalEvent { source_id, name, interface, version })
    }
}

/// `wl_registry.global_remove`
///
/// Notify the client of removed global objects.
#[derive(Debug)]
pub struct WlRegistryGlobalRemoveEvent {
    /// The object the event came from.
    pub source_id: u32,
    /// Numeric name of the global object.
    pub name: u32,
}

impl WlRegistryGlobalRemoveEvent {
    /// Where a cursor that stood at the first argument stands after the last.
    pub open spec fn spec_end(b: Seq<u8>, fds: Seq<u8>, c: Cursor) -> Cursor {
        c.word()
    }

    /// Whether `self` is what the arguments under the cursor `c` decode to.
    pub open spec fn spec_decoded(&self, source_id: u32, b: Seq<u8>, fds: Seq<u8>, c: Cursor) -> bool {
        &&& self.source_id == source_id
        &&& self.name == c.word_val(b)
    }

    /// Reads the arguments of the event at the reader's place.
    pub fn decode(r: &mut Reader, source_id: u32) -> (res: Result<Self, WireError>)
        requires
            old(r).wf(),
        ensures
            final(r).wf(),
            final(r).bytes() == old(r).bytes(),
            final(r).fd_bytes() == old(r).fd_bytes(),
            match res {
                Ok(e) => final(r).cursor() == Self::spec_end(
                    old(r).bytes(),
                    old(r).fd_bytes(),
                    old(r).cursor(),
                ) && e.spec_decoded(source_id, old(r).bytes(), old(r).fd_bytes(), old(r).cursor()),
                Err(e) => Self::spec_end(old(r).bytes(), old(r).fd_bytes(), old(r).cursor()).fault
                    == Some(e),
            },
    {
        let name = r.get_uint()?;
        Ok(WlRegistryGlobalRemoveEvent { source_id, name })
    }
}

/// `wl_callback.done`
///
/// Notify the client when the related request is done.
#[derive(Debug)]
pub struct WlCallbackDoneEvent {
    /// The object the event came from.
    pub source_id: u32,
    /// Request-specific data for the callback.
    pub callback_data: u32,
}

impl WlCallbackDoneEvent {
    /// Where a cursor that stood at the first argument stands after the last.
    pub open spec fn spec_end(b: Seq<u8>, fds: Seq<u8>, c: Cursor) -> Cursor {
        c.word()
    }

    /// Whether `self` is what the arguments under the cursor `c` decode to.
    pub open spec fn spec_decoded(&self, source_id: u32, b: Seq<u8>, fds: Seq<u8>, c: Cursor) -> bool {
        &&& self.source_id == source_id
        &&& self.callback_data == c.word_val(b)
    }

    /// Reads the arguments of the event at the reader's place.
    pub fn decode(r: &mut Reader, source_id: u32) -> (res: Result<Self, WireError>)
        requires
            old(r).wf(),
        ensures
            final(r).wf(),
            final(r).bytes() == old(r).bytes(),
            final(r).fd_bytes() == old(r).fd_bytes(),
            match res {
                Ok(e) => final(r).cursor() == Self::spec_end(
                    old(r).bytes(),
                    old(r).fd_bytes(),
                    old(r).cursor(),
                ) && e.spec_decoded(source_id, old(r).bytes(), old(r).fd_bytes(), old(r).cursor()),
                Err(e) => Self::spec_end(old(r).bytes(), old(r).fd_bytes(), old(r).cursor()).fault
                    == Some(e),
            },
    {
        let callback_data = r.get_uint()?;
        Ok(WlCallbackDoneEvent { source_id, callback_data })
    }
}

/// `wl_shm.format`
///
/// Informs the client about a valid pixel format that can be used for buffers.
/// Known formats include argb8888 and xrgb8888.
#[derive(Debug)]
pub struct WlShmFormatEvent {
    /// The object the event came from.
    pub source_id: u32,
    /// Buffer pixel format.
    pub format: enums::WlShmFormat,
}

impl WlShmFormatEvent {
    /// Where a cursor that stood at the first argument stands after the last.
    pub open spec fn spec_end(b: Seq<u8>, fds: Seq<u8>, c: Cursor) -> Cursor {
        c.word()
    }

    /// Whether `self` is what the arguments under the cursor `c` decode to.
    pub open spec fn spec_decoded(&self, source_id: u32, b: Seq<u8>, fds: Seq<u8>, c: Cursor) -> bool {
        &&& self.source_id == source_id
        &&& self.format == enums::WlShmFormat::spec_from(c.word_val(b))
    }

    /// Reads the arguments of the event at the reader's place.
    pub fn decode(r: &mut Reader, source_id: u32) -> (res: Result<Self, WireError>)
        requires
            old(r).wf(),
        ensures
            final(r).wf(),
            final(r).bytes() == old(r).bytes(),
            final(r).fd_bytes() == old(r).fd_bytes(),
            match res {
                Ok(e) => final(r).cursor() == Self::spec_end(
                    old(r).bytes(),
                    old(r).fd_bytes(),
                    old(r).cursor(),
                ) && e.spec_decoded(source_id, old(r).bytes(), old(r).fd_bytes(), old(r).cursor()),
                Err(e) => Self::spec_end(old(r).bytes(), old(r).fd_bytes(), old(r).cursor()).fault
                    == Some(e),
            },
    {
        let format_word = r.get_uint()?;
        let format = enums::WlShmFormat::from(format_word);
        Ok(WlShmFormatEvent { source_id, format })
    }
}

/// `wl_buffer.release`
///
/// Sent when this wl_buffer is no longer used by the compositor. The client is
/// now free to reuse or destroy this buffer and its backing storage.
#[derive(Debug)]
pub struct WlBufferReleaseEvent {
    /// The object the event came from.
    pub source_id: u32,
}

impl WlBufferReleaseEvent {
    /// Where a cursor that stood at the first argument stands after the last.
    pub open spec fn spec_end(b: Seq<u8>, fds: Seq<u8>, c: Cursor) -> Cursor {
        c
    }

    /// Whether `self` is what the arguments under the cursor `c` decode to.
    pub open spec fn spec_decoded(&self, source_id: u32, b: Seq<u8>, fds: Seq<u8>, c: Cursor) -> bool {
        &&& self.source_id == source_id
    }

    /// Reads the arguments of the event at the reader's place.
    pub fn decode(r: &mut Reader, source_id: u32) -> (res: Result<Self, WireError>)
        requires
            old(r).wf(),
        ensures
            final(r).wf(),
            final(r).bytes() == old(r).bytes(),
            final(r).fd_bytes() == old(r).fd_bytes(),
            match res {
                Ok(e) => final(r).cursor() == Self::spec_end(
                    old(r).bytes(),
                    old(r).fd_bytes(),
                    old(r).cursor(),
                ) && e.spec_decoded(source_id, old(r).bytes(), old(r).fd_bytes(), old(r).cursor()),
                Err(e) => Self::spec_end(old(r).bytes(), old(r).fd_bytes(), old(r).cursor()).fault
                    == Some(e),
            },
    {
        Ok(WlBufferReleaseEvent { source_id })
    }
}

/// `wl_data_offer.offer`
///
/// Sent immediately after creating the wl_data_offer object. One event per
/// offered mime type.
#[derive(Debug)]
pub struct WlDataOfferOfferEvent {
    /// The object the event came from.
    pub source_id: u32,
    /// Offered mime type.
    pub mime_type: String,
}

impl WlDataOfferOfferEvent {
    /// Where a cursor that stood at the first argument stands after the last.
    pub open spec fn spec_end(b: Seq<u8>, fds: Seq<u8>, c: Cursor) -> Cursor {
        c.string(b)
    }

    /// Whether `self` is what the arguments under the cursor `c` decode to.
    pub open spec fn spec_decoded(&self, source_id: u32, b: Seq<u8>, fds: Seq<u8>, c: Cursor) -> bool {
        &&& self.source_id == source_id
        &&& self.mime_type@ == c.string_val(b)
    }

    /// Reads the arguments of the event at the reader's place.
    pub fn decode(r: &mut Reader, source_id: u32) -> (res: Result<Self, WireError>)
        requires
            old(r).wf(),
        ensures
            final(r).wf(),
            final(r).bytes() == old(r).bytes(),
            final(r).fd_bytes() == old(r).fd_bytes(),
            match res {
                Ok(e) => final(r).cursor() == Self::spec_end(
                    old(r).bytes(),
                    old(r).fd_bytes(),
                    old(r).cursor(),
                ) && e.spec_decoded(source_id, old(r).bytes(), old(r).fd_bytes(), old(r).cursor()),
                Err(e) => Self::spec_end(old(r).bytes(), old(r).fd_bytes(), old(r).cursor()).fault
                    == Some(e),
            },
    {
        let mime_type = r.get_str()?;
        Ok(WlDataOfferOfferEvent { source_id, mime_type })
    }
}

/// `wl_data_offer.source_actions`
///
/// This event indicates the actions offered by the data source. It will be sent
/// immediately after creating the wl_data_offer object, or anytime the source
/// side changes its offered actions through wl_data_source.set_actions.
#[derive(Debug)]
pub struct WlDataOfferSourceActionsEvent {
    /// The object the event came from.
    pub source_id: u32,
    /// Actions offered by the data source.
    pub source_actions: enums::WlDataDeviceManagerDndAction,
}

impl WlDataOfferSourceActionsEvent {
    /// Where a cursor that stood at the first argument stands after the last.
    pub open spec fn spec_end(b: Seq<u8>, fds: Seq<u8>, c: Cursor) -> Cursor {
        c.word()
    }

    /// Whether `self` is what the arguments under the cursor `c` decode to.
    pub open spec fn spec_decoded(&self, source_id: u32, b: Seq<u8>, fds: Seq<u8>, c: Cursor) -> bool {
        &&& self.source_id == source_id
        &&& self.source_actions.bits() == c.word_val(b)
    }

    /// Reads the arguments of the event at the reader's place.
    pub fn decode(r: &mut Reader, source_id: u32) -> (res: Result<Self, WireError>)
        requires
            old(r).wf(),
        ensures
            final(r).wf(),
            final(r).bytes() == old(r).bytes(),
            final(r).fd_bytes() == old(r).fd_bytes(),
            match res {
                Ok(e) => final(r).cursor() == Self::spec_end(
                    old(r).bytes(),
                    old(r).fd_bytes(),
                    old(r).cursor(),
                ) && e.spec_decoded(source_id, old(r).bytes(), old(r).fd_bytes(), old(r).cursor()),
                Err(e) => Self::spec_end(old(r).bytes(), old(r).fd_bytes(), old(r).cursor()).fault
                    == Some(e),
            },
    {
        let source_actions_word = r.get_uint()?;
        let source_actions = enums::WlDataDeviceManagerDndAction::from_bits(source_actions_word);
        Ok(WlDataOfferSourceActionsEvent { source_id, source_actions })
    }
}

/// `wl_data_offer.action`
///
/// This event indicates the action selected by the compositor after matching
/// the source/destination side actions. Only one action (or none) will be
/// offered here.
#[derive(Debug)]
pub struct WlDataOfferActionEvent {
    /// The object the event came from.
    pub source_id: u32,
    /// Action selected by the compositor.
    pub dnd_action: enums::WlDataDeviceManagerDndAction,
}

impl WlDataOfferActionEvent {
    /// Where a cursor that stood at the first argument stands after the last.
    pub open spec fn spec_end(b: Seq<u8>, fds: Seq<u8>, c: Cursor) -> Cursor {
        c.word()
    }

    /// Whether `self` is what the arguments under the cursor `c` decode to.
    pub open spec fn spec_decoded(&self, source_id: u32, b: Seq<u8>, fds: Seq<u8>, c: Cursor) -> bool {
        &&& self.source_id == source_id
        &&& self.dnd_action.bits() == c.word_val(b)
    }

    /// Reads the arguments of the event at the reader's place.
    pub fn decode(r: &mut Reader, source_id: u32) -> (res: Result<Self, WireError>)
        requires
            old(r).wf(),
        ensures
            final(r).wf(),
            final(r).bytes() == old(r).bytes(),
            final(r).fd_bytes() == old(r).fd_bytes(),
            match res {
                Ok(e) => final(r).cursor() == Self::spec_end(
                    old(r).bytes(),
                    old(r).fd_bytes(),
                    old(r).cursor(),
                ) && e.spec_decoded(source_id, old(r).bytes(), old(r).fd_bytes(), old(r).cursor()),
                Err(e) => Self::spec_end(old(r).bytes(), old(r).fd_bytes(), old(r).cursor()).fault
                    == Some(e),
            },
    {
        let dnd_action_word = r.get_uint()?;
        let dnd_action = enums::WlDataDeviceManagerDndAction::from_bits(dnd_action_word);
        Ok(WlDataOfferActionEvent { source_id, dnd_action })
    }
}

/// `wl_data_source.target`
///
/// Sent when a target accepts pointer_focus or motion events. If a target does
/// not accept any of the offered types, type is NULL.
#[derive(Debug)]
pub struct WlDataSourceTargetEvent {
    /// The object the event came from.
    pub source_id: u32,
    /// Mime type accepted by the target.
    pub mime_type: String,
}

impl WlDataSourceTargetEvent {
    /// Where a cursor that stood at the first argument stands after the last.
    pub open spec fn spec_end(b: Seq<u8>, fds: Seq<u8>, c: Cursor) -> Cursor {
        c.string(b)
    }

    /// Whether `self` is what the arguments under the cursor `c` decode to.
    pub open spec fn spec_decoded(&self, source_id: u32, b: Seq<u8>, fds: Seq<u8>, c: Cursor) -> bool {
        &&& self.source_id == source_id
        &&& self.mime_type@ == c.string_val(b)
    }

    /// Reads the arguments of the event at the reader's place.
    pub fn decode(r: &mut Reader, source_id: u32) -> (res: Result<Self, WireError>)
        requires
            old(r).wf(),
        ensures
            final(r).wf(),
            final(r).bytes() == old(r).bytes(),
            final(r).fd_bytes() == old(r).fd_bytes(),
            match res {
                Ok(e) => final(r).cursor() == Self::spec_end(
                    old(r).bytes(),
                    old(r).fd_bytes(),
                    old(r).cursor(),
                ) && e.spec_decoded(source_id, old(r).bytes(), old(r).fd_bytes(), old(r).cursor()),
                Err(e) => Self::spec_end(old(r).bytes(), old(r).fd_bytes(), old(r).cursor()).fault
                    == Some(e),
            },
    {
        let mime_type = r.get_str()?;
        Ok(WlDataSourceTargetEvent { source_id, mime_type })
    }
}

/// `wl_data_source.send`
///
/// Request for data from the client. Send the data as the specified mime type
/// over the passed file descriptor, then close it.
#[derive(Debug)]
pub struct WlDataSourceSendEvent {
    /// The object the event came from.
    pub source_id: u32,
    /// Mime type for the data.
    pub mime_type: String,
    /// File descriptor for the data.
    pub fd: i32,
}

impl WlDataSourceSendEvent {
    /// Where a cursor that stood at the first argument stands after the last.
    pub open spec fn spec_end(b: Seq<u8>, fds: Seq<u8>, c: Cursor) -> Cursor {
        c.string(b).fd(fds)
    }

    /// Whether `self` is what the arguments under the cursor `c` decode to.
    pub open spec fn spec_decoded(&self, source_id: u32, b: Seq<u8>, fds: Seq<u8>, c: Cursor) -> bool {
        &&& self.source_id == source_id
        &&& self.mime_type@ == c.string_val(b)
        &&& self.fd == c.string(b).fd_val(fds)
    }

    /// Reads the arguments of the event at the reader's place.
    pub fn decode(r: &mut Reader, source_id: u32) -> (res: Result<Self, WireError>)
        requires
            old(r).wf(),
        ensures
            final(r).wf(),
            final(r).bytes() == old(r).bytes(),
            final(r).fd_bytes() == old(r).fd_bytes(),
            match res {
                Ok(e) => final(r).cursor() == Self::spec_end(
                    old(r).bytes(),
                    old(r).fd_bytes(),
                    old(r).cursor(),
                ) && e.spec_decoded(source_id, old(r).bytes(), old(r).fd_bytes(), old(r).cursor()),
                Err(e) => Self::spec_end(old(r).bytes(), old(r).fd_bytes(), old(r).cursor()).fault
                    == Some(e),
            },
    {
        let mime_type = r.get_str()?;
        let fd = r.get_fd()?;
        Ok(WlDataSourceSendEvent { source_id, mime_type, fd })
    }
}

/// `wl_data_source.cancelled`
///
/// This data source is no longer valid. There are several reasons why this
/// could happen.
#[derive(Debug)]
pub struct WlDataSourceCancelledEvent {
    /// The object the event came from.
    pub source_id: u32,
}

impl WlDataSourceCancelledEvent {
    /// Where a cursor that stood at the first argument stands after the last.
    pub open spec fn spec_end(b: Seq<u8>, fds: Seq<u8>, c: Cursor) -> Cursor {
        c
    }

    /// Whether `self` is what the arguments under the cursor `c` decode to.
    pub open spec fn spec_decoded(&self, source_id: u32, b: Seq<u8>, fds: Seq<u8>, c: Cursor) -> bool {
        &&& self.source_id == source_id
    }

    /// Reads the arguments of the event at the reader's place.
    pub fn decode(r: &mut Reader, source_id: u32) -> (res: Result<Self, WireError>)
        requires
            old(r).wf(),
        ensures
            final(r).wf(),
            final(r).bytes() == old(r).bytes(),
            final(r).fd_bytes() == old(r).fd_bytes(),
            match res {
                Ok(e) => final(r).cursor() == Self::spec_end(
                    old(r).bytes(),
                    old(r).fd_bytes(),
                    old(r).cursor(),
                ) && e.spec_decoded(source_id, old(r).bytes(), old(r).fd_bytes(), old(r).cursor()),
                Err(e) => Self::spec_end(old(r).bytes(), old(r).fd_bytes(), old(r).cursor()).fault
                    == Some(e),
            },
    {
        Ok(WlDataSourceCancelledEvent { source_id })
    }
}

/// `wl_data_source.dnd_drop_performed`
///
/// The user performed the drop action. This event does not indicate acceptance,
/// wl_data_source.cancelled may still be emitted afterwards if the drop
/// destination does not accept any mime type.
#[derive(Debug)]
pub struct WlDataSourceDndDropPerformedEvent {
    /// The object the event came from.
    pub source_id: u32,
}

impl WlDataSourceDndDropPerformedEvent {
    /// Where a cursor that stood at the first argument stands after the last.
    pub open spec fn spec_end(b: Seq<u8>, fds: Seq<u8>, c: Cursor) -> Cursor {
        c
    }

    /// Whether `self` is what the arguments under the cursor `c` decode to.
    pub open spec fn spec_decoded(&self, source_id: u32, b: Seq<u8>, fds: Seq<u8>, c: Cursor) -> bool {
        &&& self.source_id == source_id
    }

    /// Reads the arguments of the event at the reader's place.
    pub fn decode(r: &mut Reader, source_id: u32) -> (res: Result<Self, WireError>)
        requires
            old(r).wf(),
        ensures
            final(r).wf(),
            final(r).bytes() == old(r).bytes(),
            final(r).fd_bytes() == old(r).fd_bytes(),
            match res {
                Ok(e) => final(r).cursor() == Self::spec_end(
                    old(r).bytes(),
                    old(r).fd_bytes(),
                    old(r).cursor(),
                ) && e.spec_decoded(source_id, old(r).bytes(), old(r).fd_bytes(), old(r).cursor()),
                Err(e) => Self::spec_end(old(r).bytes(), old(r).fd_bytes(), old(r).cursor()).fault
                    == Some(e),
            },
    {
        Ok(WlDataSourceDndDropPerformedEvent { source_id })
    }
}

/// `wl_data_source.dnd_finished`
///
/// The drop destination finished interoperating with this data source, so the
/// client is now free to destroy this data source and free all associated data.
#[derive(Debug)]
pub struct WlDataSourceDndFinishedEvent {
    /// The object the event came from.
    pub source_id: u32,
}

impl WlDataSourceDndFinishedEvent {
    /// Where a cursor that stood at the first argument stands after the last.
    pub open spec fn spec_end(b: Seq<u8>, fds: Seq<u8>, c: Cursor) -> Cursor {
        c
    }

    /// Whether `self` is what the arguments under the cursor `c` decode to.
    pub open spec fn spec_decoded(&self, source_id: u32, b: Seq<u8>, fds: Seq<u8>, c: Cursor) -> bool {
        &&& self.source_id == source_id
    }

    /// Reads the arguments of the event at the reader's place.
    pub fn decode(r: &mut Reader, source_id: u32) -> (res: Result<Self, WireError>)
        requires
            old(r).wf(),
        ensures
            final(r).wf(),
            final(r).bytes() == old(r).bytes(),
            final(r).fd_bytes() == old(r).fd_bytes(),
            match res {
                Ok(e) => final(r).cursor() == Self::spec_end(
                    old(r).bytes(),
                    old(r).fd_bytes(),
                    old(r).cursor(),
                ) && e.spec_decoded(source_id, old(r).bytes(), old(r).fd_bytes(), old(r).cursor()),
                Err(e) => Self::spec_end(old(r).bytes(), old(r).fd_bytes(), old(r).cursor()).fault
                    == Some(e),
            },
    {
        Ok(WlDataSourceDndFinishedEvent { source_id })
    }
}

/// `wl_data_source.action`
///
/// This event indicates the action selected by the compositor after matching
/// the source/destination side actions. Only one action (or none) will be
/// offered here.
#[derive(Debug)]
pub struct WlDataSourceActionEvent {
    /// The object the event came from.
    pub source_id: u32,
    /// Action selected by the compositor.
    pub dnd_action: enums::WlDataDeviceManagerDndAction,
}

impl WlDataSourceActionEvent {
    /// Where a cursor that stood at the first argument stands after the last.
    pub open spec fn spec_end(b: Seq<u8>, fds: Seq<u8>, c: Cursor) -> Cursor {
        c.word()
    }

    /// Whether `self` is what the arguments under the cursor `c` decode to.
    pub open spec fn spec_decoded(&self, source_id: u32, b: Seq<u8>, fds: Seq<u8>, c: Cursor) -> bool {
        &&& self.source_id == source_id
        &&& self.dnd_action.bits() == c.word_val(b)
    }

    /// Reads the arguments of the event at the reader's place.
    pub fn decode(r: &mut Reader, source_id: u32) -> (res: Result<Self, WireError>)
        requires
            old(r).wf(),
        ensures
            final(r).wf(),
            final(r).bytes() == old(r).bytes(),
            final(r).fd_bytes() == old(r).fd_bytes(),
            match res {
                Ok(e) => final(r).cursor() == Self::spec_end(
                    old(r).bytes(),
                    old(r).fd_bytes(),
                    old(r).cursor(),
                ) && e.spec_decoded(source_id, old(r).bytes(), old(r).fd_bytes(), old(r).cursor()),
                Err(e) => Self::spec_end(old(r).bytes(), old(r).fd_bytes(), old(r).cursor()).fault
                    == Some(e),
            },
    {
        let dnd_action_word = r.get_uint()?;
        let dnd_action = enums::WlDataDeviceManagerDndAction::from_bits(dnd_action_word);
        Ok(WlDataSourceActionEvent { source_id, dnd_action })
    }
}

/// `wl_data_device.data_offer`
///
/// The data_offer event introduces a new wl_data_offer object, which will
/// subsequently be used in either the data_device.enter event (for drag-and-
/// drop) or the data_device.selection event (for selections).
#[derive(Debug)]
pub struct WlDataDeviceDataOfferEvent {
    /// The object the event came from.
    pub source_id: u32,
    /// The new data_offer object.
    pub id: u32,
}

impl WlDataDeviceDataOfferEvent {
    /// Where a cursor that stood at the first argument stands after the last.
    pub open spec fn spec_end(b: Seq<u8>, fds: Seq<u8>, c: Cursor) -> Cursor {
        c.word()
    }

    /// Whether `self` is what the arguments under the cursor `c` decode to.
    pub open spec fn spec_decoded(&self, source_id: u32, b: Seq<u8>, fds: Seq<u8>, c: Cursor) -> bool {
        &&& self.source_id == source_id
        &&& self.id == c.word_val(b)
    }

    /// Reads the arguments of the event at the reader's place.
    pub fn decode(r: &mut Reader, source_id: u32) -> (res: Result<Self, WireError>)
        requires
            old(r).wf(),
        ensures
            final(r).wf(),
            final(r).bytes() == old(r).bytes(),
            final(r).fd_bytes() == old(r).fd_bytes(),
            match res {
                Ok(e) => final(r).cursor() == Self::spec_end(
                    old(r).bytes(),
                    old(r).fd_bytes(),
                    old(r).cursor(),
                ) && e.spec_decoded(source_id, old(r).bytes(), old(r).fd_bytes(), old(r).cursor()),
                Err(e) => Self::spec_end(old(r).bytes(), old(r).fd_bytes(), old(r).cursor()).fault
                    == Some(e),
            },
    {
        let id = r.get_uint()?;
        Ok(WlDataDeviceDataOfferEvent { source_id, id })
    }
}

/// `wl_data_device.enter`
///
/// This event is sent when an active drag-and-drop pointer enters a surface
/// owned by the client. The position of the pointer at enter time is provided
/// by the x and y arguments, in surface-local coordinates.
#[derive(Debug)]
pub struct WlDataDeviceEnterEvent {
    /// The object the event came from.
    pub source_id: u32,
    /// Serial number of the enter event.
    pub serial: u32,
    /// Client surface entered.
    pub surface: u32,
    /// Surface-local x coordinate.
    pub x: Fixed,
    /// Surface-local y coordinate.
    pub y: Fixed,
    /// Source data_offer object.
    pub id: u32,
}

impl WlDataDeviceEnterEvent {
    /// Where a cursor that stood at the first argument stands after the last.
    pub open spec fn spec_end(b: Seq<u8>, fds: Seq<u8>, c: Cursor) -> Cursor {
        c.word().word().word().word().word()
    }

    /// Whether `self` is what the arguments under the cursor `c` decode to.
    pub open spec fn spec_decoded(&self, source_id: u32, b: Seq<u8>, fds: Seq<u8>, c: Cursor) -> bool {
        &&& self.source_id == source_id
        &&& self.serial == c.word_val(b)
        &&& self.surface == c.word().word_val(b)
        &&& self.x.0 == c.word().word().word_val(b)
        &&& self.y.0 == c.word().word().word().word_val(b)
        &&& self.id == c.word().word().word().word().word_val(b)
    }

    /// Reads the arguments of the event at the reader's place.
    pub fn decode(r: &mut Reader, source_id: u32) -> (res: Result<Self, WireError>)
        requires
            old(r).wf(),
        ensures
            final(r).wf(),
            final(r).bytes() == old(r).bytes(),
            final(r).fd_bytes() == old(r).fd_bytes(),
            match res {
                Ok(e) => final(r).cursor() == Self::spec_end(
                    old(r).bytes(),
                    old(r).fd_bytes(),
                    old(r).cursor(),
                ) && e.spec_decoded(source_id, old(r).bytes(), old(r).fd_bytes(), old(r).cursor()),
                Err(e) => Self::spec_end(old(r).bytes(), old(r).fd_bytes(), old(r).cursor()).fault
                    == Some(e),
            },
    {
        let serial = r.get_uint()?;
        let surface = r.get_uint()?;
        let x_word = r.get_uint()?;
        let x = Fixed::new(x_word);
        let y_word = r.get_uint()?;
        let y = Fixed::new(y_word);
        let id = r.get_uint()?;
        Ok(WlDataDeviceEnterEvent { source_id, serial, surface, x, y, id })
    }
}

/// `wl_data_device.leave`
///
/// This event is sent when the drag-and-drop pointer leaves the surface and the
/// session ends. The client must destroy the wl_data_offer introduced at enter
/// time at this point.
#[derive(Debug)]
pub struct WlDataDeviceLeaveEvent {
    /// The object the event came from.
    pub source_id: u32,
}

impl WlDataDeviceLeaveEvent {
    /// Where a cursor that stood at the first argument stands after the last.
    pub open spec fn spec_end(b: Seq<u8>, fds: Seq<u8>, c: Cursor) -> Cursor {
        c
    }

    /// Whether `self` is what the arguments under the cursor `c` decode to.
    pub open spec fn spec_decoded(&self, source_id: u32, b: Seq<u8>, fds: Seq<u8>, c: Cursor) -> bool {
        &&& self.source_id == source_id
    }

    /// Reads the arguments of the event at the reader's place.
    pub fn decode(r: &mut Reader, source_id: u32) -> (res: Result<Self, WireError>)
        requires
            old(r).wf(),
        ensures
            final(r).wf(),
            final(r).bytes() == old(r).bytes(),
            final(r).fd_bytes() == old(r).fd_bytes(),
            match res {
                Ok(e) => final(r).cursor() == Self::spec_end(
                    old(r).bytes(),
                    old(r).fd_bytes(),
                    old(r).cursor(),
                ) && e.spec_decoded(source_id, old(r).bytes(), old(r).fd_bytes(), old(r).cursor()),
                Err(e) => Self::spec_end(old(r).bytes(), old(r).fd_bytes(), old(r).cursor()).fault
                    == Some(e),
            },
    {
        Ok(WlDataDeviceLeaveEvent { source_id })
    }
}

/// `wl_data_device.motion`
///
/// This event is sent when the drag-and-drop pointer moves within the currently
/// focused surface. The new position of the pointer is provided by the x and y
/// arguments, in surface-local coordinates.
#[derive(Debug)]
pub struct WlDataDeviceMotionEvent {
    /// The object the event came from.
    pub source_id: u32,
    /// Timestamp with millisecond granularity.
    pub time: u32,
    /// Surface-local x coordinate.
    pub x: Fixed,
    /// Surface-local y coordinate.
    pub y: Fixed,
}

impl WlDataDeviceMotionEvent {
    /// Where a cursor that stood at the first argument stands after the last.
    pub open spec fn spec_end(b: Seq<u8>, fds: Seq<u8>, c: Cursor) -> Cursor {
        c.word().word().word()
    }

    /// Whether `self` is what the arguments under the cursor `c` decode to.
    pub open spec fn spec_decoded(&self, source_id: u32, b: Seq<u8>, fds: Seq<u8>, c: Cursor) -> bool {
        &&& self.source_id == source_id
        &&& self.time == c.word_val(b)
        &&& self.x.0 == c.word().word_val(b)
        &&& self.y.0 == c.word().word().word_val(b)
    }

    /// Reads the arguments of the event at the reader's place.
    pub fn decode(r: &mut Reader, source_id: u32) -> (res: Result<Self, WireError>)
        requires
            old(r).wf(),
        ensures
            final(r).wf(),
            final(r).bytes() == old(r).bytes(),
            final(r).fd_bytes() == old(r).fd_bytes(),
            match res {
                Ok(e) => final(r).cursor() == Self::spec_end(
                    old(r).bytes(),
                    old(r).fd_bytes(),
                    old(r).cursor(),
                ) && e.spec_decoded(source_id, old(r).bytes(), old(r).fd_bytes(), old(r).cursor()),
                Err(e) => Self::spec_end(old(r).bytes(), old(r).fd_bytes(), old(r).cursor()).fault
                    == Some(e),
            },
    {
        let time = r.get_uint()?;
        let x_word = r.get_uint()?;
        let x = Fixed::new(x_word);
        let y_word = r.get_uint()?;
        let y = Fixed::new(y_word);
        Ok(WlDataDeviceMotionEvent { source_id, time, x, y })
    }
}

/// `wl_data_device.drop`
///
/// The event is sent when a drag-and-drop operation is ended because the
/// implicit grab is removed.
#[derive(Debug)]
pub struct WlDataDeviceDropEvent {
    /// The object the event came from.
    pub source_id: u32,
}

impl WlDataDeviceDropEvent {
    /// Where a cursor that stood at the first argument stands after the last.
    pub open spec fn spec_end(b: Seq<u8>, fds: Seq<u8>, c: Cursor) -> Cursor {
        c
    }

    /// Whether `self` is what the arguments under the cursor `c` decode to.
    pub open spec fn spec_decoded(&self, source_id: u32, b: Seq<u8>, fds: Seq<u8>, c: Cursor) -> bool {
        &&& self.source_id == source_id
    }

    /// Reads the arguments of the event at the reader's place.
    pub fn decode(r: &mut Reader, source_id: u32) -> (res: Result<Self, WireError>)
        requires
            old(r).wf(),
        ensures
            final(r).wf(),
            final(r).bytes() == old(r).bytes(),
            final(r).fd_bytes() == old(r).fd_bytes(),
            match res {
                Ok(e) => final(r).cursor() == Self::spec_end(
                    old(r).bytes(),
                    old(r).fd_bytes(),
                    old(r).cursor(),
                ) && e.spec_decoded(source_id, old(r).bytes(), old(r).fd_bytes(), old(r).cursor()),
                Err(e) => Self::spec_end(old(r).bytes(), old(r).fd_bytes(), old(r).cursor()).fault
                    == Some(e),
            },
    {
        Ok(WlDataDeviceDropEvent { source_id })
    }
}

/// `wl_data_device.selection`
///
/// The selection event is sent out to notify the client of a new wl_data_offer
/// for the selection for this device.
#[derive(Debug)]
pub struct WlDataDeviceSelectionEvent {
    /// The object the event came from.
    pub source_id: u32,
    /// Selection data_offer object.
    pub id: u32,
}

impl WlDataDeviceSelectionEvent {
    /// Where a cursor that stood at the first argument stands after the last.
    pub open spec fn spec_end(b: Seq<u8>, fds: Seq<u8>, c: Cursor) -> Cursor {
        c.word()
    }

    /// Whether `self` is what the arguments under the cursor `c` decode to.
    pub open spec fn spec_decoded(&self, source_id: u32, b: Seq<u8>, fds: Seq<u8>, c: Cursor) -> bool {
        &&& self.source_id == source_id
        &&& self.id == c.word_val(b)
    }

    /// Reads the arguments of the event at the reader's place.
    pub fn decode(r: &mut Reader, source_id: u32) -> (res: Result<Self, WireError>)
        requires
            old(r).wf(),
        ensures
            final(r).wf(),
            final(r).bytes() == old(r).bytes(),
            final(r).fd_bytes() == old(r).fd_bytes(),
            match res {
                Ok(e) => final(r).cursor() == Self::spec_end(
                    old(r).bytes(),
                    old(r).fd_bytes(),
                    old(r).cursor(),
                ) && e.spec_decoded(source_id, old(r).bytes(), old(r).fd_bytes(), old(r).cursor()),
                Err(e) => Self::spec_end(old(r).bytes(), old(r).fd_bytes(), old(r).cursor()).fault
                    == Some(e),
            },
    {
        let id = r.get_uint()?;
        Ok(WlDataDeviceSelectionEvent { source_id, id })
    }
}

/// `wl_shell_surface.ping`
///
/// Ping a client to check if it is receiving events and sending requests. A
/// client is expected to reply with a pong request.
#[derive(Debug)]
pub struct WlShellSurfacePingEvent {
    /// The object the event came from.
    pub source_id: u32,
    /// Serial number of the ping.
    pub serial: u32,
}

impl WlShellSurfacePingEvent {
    /// Where a cursor that stood at the first argument stands after the last.
    pub open spec fn spec_end(b: Seq<u8>, fds: Seq<u8>, c: Cursor) -> Cursor {
        c.word()
    }

    /// Whether `self` is what the arguments under the cursor `c` decode to.
    pub open spec fn spec_decoded(&self, source_id: u32, b: Seq<u8>, fds: Seq<u8>, c: Cursor) -> bool {
        &&& self.source_id == source_id
        &&& self.serial == c.word_val(b)
    }

    /// Reads the arguments of the event at the reader's place.
    pub fn decode(r: &mut Reader, source_id: u32) -> (res: Result<Self, WireError>)
        requires
            old(r).wf(),
        ensures
            final(r).wf(),
            final(r).bytes() == old(r).bytes(),
            final(r).fd_bytes() == old(r).fd_bytes(),
            match res {
                Ok(e) => final(r).cursor() == Self::spec_end(
                    old(r).bytes(),
                    old(r).fd_bytes(),
                    old(r).cursor(),
                ) && e.spec_decoded(source_id, old(r).bytes(), old(r).fd_bytes(), old(r).cursor()),
                Err(e) => Self::spec_end(old(r).bytes(), old(r).fd_bytes(), old(r).cursor()).fault
                    == Some(e),
            },
    {
        let serial = r.get_uint()?;
        Ok(WlShellSurfacePingEvent { source_id, serial })
    }
}

/// `wl_shell_surface.configure`
///
/// The configure event asks the client to resize its surface.
#[derive(Debug)]
pub struct WlShellSurfaceConfigureEvent {
    /// The object the event came from.
    pub source_id: u32,
    /// How the surface was resized.
    pub edges: enums::WlShellSurfaceResize,
    /// New width of the surface.
    pub width: i32,
    /// New height of the surface.
    pub height: i32,
}

impl WlShellSurfaceConfigureEvent {
    /// Where a cursor that stood at the first argument stands after the last.
    pub open spec fn spec_end(b: Seq<u8>, fds: Seq<u8>, c: Cursor) -> Cursor {
        c.word().word().word()
    }

    /// Whether `self` is what the arguments under the cursor `c` decode to.
    pub open spec fn spec_decoded(&self, source_id: u32, b: Seq<u8>, fds: Seq<u8>, c: Cursor) -> bool {
        &&& self.source_id == source_id
        &&& self.edges.bits() == c.word_val(b)
        &&& self.width == c.word().int_val(b)
        &&& self.height == c.word().word().int_val(b)
    }

    /// Reads the arguments of the event at the reader's place.
    pub fn decode(r: &mut Reader, source_id: u32) -> (res: Result<Self, WireError>)
        requires
            old(r).wf(),
        ensures
            final(r).wf(),
            final(r).bytes() == old(r).bytes(),
            final(r).fd_bytes() == old(r).fd_bytes(),
            match res {
                Ok(e) => final(r).cursor() == Self::spec_end(
                    old(r).bytes(),
                    old(r).fd_bytes(),
                    old(r).cursor(),
                ) && e.spec_decoded(source_id, old(r).bytes(), old(r).fd_bytes(), old(r).cursor()),
                Err(e) => Self::spec_end(old(r).bytes(), old(r).fd_bytes(), old(r).cursor()).fault
                    == Some(e),
            },
    {
        let edges_word = r.get_uint()?;
        let edges = enums::WlShellSurfaceResize::from_bits(edges_word);
        let width = r.get_int()?;
        let height = r.get_int()?;
        Ok(WlShellSurfaceConfigureEvent { source_id, edges, width, height })
    }
}

/// `wl_shell_surface.popup_done`
///
/// The popup_done event is sent out when a popup grab is broken, that is, when
/// the user clicks a surface that doesn't belong to the client owning the popup
/// surface.
#[derive(Debug)]
pub struct WlShellSurfacePopupDoneEvent {
    /// The object the event came from.
    pub source_id: u32,
}

impl WlShellSurfacePopupDoneEvent {
    /// Where a cursor that stood at the first argument stands after the last.
    pub open spec fn spec_end(b: Seq<u8>, fds: Seq<u8>, c: Cursor) -> Cursor {
        c
    }

    /// Whether `self` is what the arguments under the cursor `c` decode to.
    pub open spec fn spec_decoded(&self, source_id: u32, b: Seq<u8>, fds: Seq<u8>, c: Cursor) -> bool {
        &&& self.source_id == source_id
    }

    /// Reads the arguments of the event at the reader's place.
    pub fn decode(r: &mut Reader, source_id: u32) -> (res: Result<Self, WireError>)
        requires
            old(r).wf(),
        ensures
            final(r).wf(),
            final(r).bytes() == old(r).bytes(),
            final(r).fd_bytes() == old(r).fd_bytes(),
            match res {
                Ok(e) => final(r).cursor() == Self::spec_end(
                    old(r).bytes(),
                    old(r).fd_bytes(),
                    old(r).cursor(),
                ) && e.spec_decoded(source_id, old(r).bytes(), old(r).fd_bytes(), old(r).cursor()),
                Err(e) => Self::spec_end(old(r).bytes(), old(r).fd_bytes(), old(r).cursor()).fault
                    == Some(e),
            },
    {
        Ok(WlShellSurfacePopupDoneEvent { source_id })
    }
}

/// `wl_callback.done` for the callback of a `wl_surface.frame`.
///
/// Callback event.
#[derive(Debug)]
pub struct WlSurfaceFrameDoneEvent {
    /// The object the event came from.
    pub source_id: u32,
    /// Event specific data.
    pub data: u32,
}

impl WlSurfaceFrameDoneEvent {
    /// Where a cursor that stood at the first argument stands after the last.
    pub open spec fn spec_end(b: Seq<u8>, fds: Seq<u8>, c: Cursor) -> Cursor {
        c.word()
    }

    /// Whether `self` is what the arguments under the cursor `c` decode to.
    pub open spec fn spec_decoded(&self, source_id: u32, b: Seq<u8>, fds: Seq<u8>, c: Cursor) -> bool {
        &&& self.source_id == source_id
        &&& self.data == c.word_val(b)
    }

    /// Reads the arguments of the event at the reader's place.
    pub fn decode(r: &mut Reader, source_id: u32) -> (res: Result<Self, WireError>)
        requires
            old(r).wf(),
        ensures
            final(r).wf(),
            final(r).bytes() == old(r).bytes(),
            final(r).fd_bytes() == old(r).fd_bytes(),
            match res {
                Ok(e) => final(r).cursor() == Self::spec_end(
                    old(r).bytes(),
                    old(r).fd_bytes(),
                    old(r).cursor(),
                ) && e.spec_decoded(source_id, old(r).bytes(), old(r).fd_bytes(), old(r).cursor()),
                Err(e) => Self::spec_end(old(r).bytes(), old(r).fd_bytes(), old(r).cursor()).fault
                    == Some(e),
            },
    {
        let data = r.get_uint()?;
        Ok(WlSurfaceFrameDoneEvent { source_id, data })
    }
}

/// `wl_surface.enter`
///
/// This is emitted whenever a surface's creation, movement, or resizing results
/// in some part of it being within the scanout region of an output.
#[derive(Debug)]
pub struct WlSurfaceEnterEvent {
    /// The object the event came from.
    pub source_id: u32,
    /// Output entered by the surface.
    pub output: u32,
}

impl WlSurfaceEnterEvent {
    /// Where a cursor that stood at the first argument stands after the last.
    pub open spec fn spec_end(b: Seq<u8>, fds: Seq<u8>, c: Cursor) -> Cursor {
        c.word()
    }

    /// Whether `self` is what the arguments under the cursor `c` decode to.
    pub open spec fn spec_decoded(&self, source_id: u32, b: Seq<u8>, fds: Seq<u8>, c: Cursor) -> bool {
        &&& self.source_id == source_id
        &&& self.output == c.word_val(b)
    }

    /// Reads the arguments of the event at the reader's place.
    pub fn decode(r: &mut Reader, source_id: u32) -> (res: Result<Self, WireError>)
        requires
            old(r).wf(),
        ensures
            final(r).wf(),
            final(r).bytes() == old(r).bytes(),
            final(r).fd_bytes() == old(r).fd_bytes(),
            match res {
                Ok(e) => final(r).cursor() == Self::spec_end(
                    old(r).bytes(),
                    old(r).fd_bytes(),
                    old(r).cursor(),
                ) && e.spec_decoded(source_id, old(r).bytes(), old(r).fd_bytes(), old(r).cursor()),
                Err(e) => Self::spec_end(old(r).bytes(), old(r).fd_bytes(), old(r).cursor()).fault
                    == Some(e),
            },
    {
        let output = r.get_uint()?;
        Ok(WlSurfaceEnterEvent { source_id, output })
    }
}

/// `wl_surface.leave`
///
/// This is emitted whenever a surface's creation, movement, or resizing results
/// in it no longer having any part of it within the scanout region of an
/// output.
#[derive(Debug)]
pub struct WlSurfaceLeaveEvent {
    /// The object the event came from.
    pub source_id: u32,
    /// Output left by the surface.
    pub output: u32,
}

impl WlSurfaceLeaveEvent {
    /// Where a cursor that stood at the first argument stands after the last.
    pub open spec fn spec_end(b: Seq<u8>, fds: Seq<u8>, c: Cursor) -> Cursor {
        c.word()
    }

    /// Whether `self` is what the arguments under the cursor `c` decode to.
    pub open spec fn spec_decoded(&self, source_id: u32, b: Seq<u8>, fds: Seq<u8>, c: Cursor) -> bool {
        &&& self.source_id == source_id
        &&& self.output == c.word_val(b)
    }

    /// Reads the arguments of the event at the reader's place.
    pub fn decode(r: &mut Reader, source_id: u32) -> (res: Result<Self, WireError>)
        requires
            old(r).wf(),
        ensures
            final(r).wf(),
            final(r).bytes() == old(r).bytes(),
            final(r).fd_bytes() == old(r).fd_bytes(),
            match res {
                Ok(e) => final(r).cursor() == Self::spec_end(
                    old(r).bytes(),
                    old(r).fd_bytes(),
                    old(r).cursor(),
                ) && e.spec_decoded(source_id, old(r).bytes(), old(r).fd_bytes(), old(r).cursor()),
                Err(e) => Self::spec_end(old(r).bytes(), old(r).fd_bytes(), old(r).cursor()).fault
                    == Some(e),
            },
    {
        let output = r.get_uint()?;
        Ok(WlSurfaceLeaveEvent { source_id, output })
    }
}

/// `wl_surface.preferred_buffer_scale`
///
/// This event indicates the preferred buffer scale for this surface. It is sent
/// whenever the compositor's preference changes.
#[derive(Debug)]
pub struct WlSurfacePreferredBufferScaleEvent {
    /// The object the event came from.
    pub source_id: u32,
    /// Preferred scaling factor.
    pub factor: i32,
}

impl WlSurfacePreferredBufferScaleEvent {
    /// Where a cursor that stood at the first argument stands after the last.
    pub open spec fn spec_end(b: Seq<u8>, fds: Seq<u8>, c: Cursor) -> Cursor {
        c.word()
    }

    /// Whether `self` is what the arguments under the cursor `c` decode to.
    pub open spec fn spec_decoded(&self, source_id: u32, b: Seq<u8>, fds: Seq<u8>, c: Cursor) -> bool {
        &&& self.source_id == source_id
        &&& self.factor == c.int_val(b)
    }

    /// Reads the arguments of the event at the reader's place.
    pub fn decode(r: &mut Reader, source_id: u32) -> (res: Result<Self, WireError>)
        requires
            old(r).wf(),
        ensures
            final(r).wf(),
            final(r).bytes() == old(r).bytes(),
            final(r).fd_bytes() == old(r).fd_bytes(),
            match res {
                Ok(e) => final(r).cursor() == Self::spec_end(
                    old(r).bytes(),
                    old(r).fd_bytes(),
                    old(r).cursor(),
                ) && e.spec_decoded(source_id, old(r).bytes(), old(r).fd_bytes(), old(r).cursor()),
                Err(e) => Self::spec_end(old(r).bytes(), old(r).fd_bytes(), old(r).cursor()).fault
                    == Some(e),
            },
    {
        let factor = r.get_int()?;
        Ok(WlSurfacePreferredBufferScaleEvent { source_id, factor })
    }
}

/// `wl_surface.preferred_buffer_transform`
///
/// This event indicates the preferred buffer transform for this surface. It is
/// sent whenever the compositor's preference changes.
#[derive(Debug)]
pub struct WlSurfacePreferredBufferTransformEvent {
    /// The object the event came from.
    pub source_id: u32,
    /// Preferred transform.
    pub transform: enums::WlOutputTransform,
}

impl WlSurfacePreferredBufferTransformEvent {
    /// Where a cursor that stood at the first argument stands after the last.
    pub open spec fn spec_end(b: Seq<u8>, fds: Seq<u8>, c: Cursor) -> Cursor {
        c.word()
    }

    /// Whether `self` is what the arguments under the cursor `c` decode to.
    pub open spec fn spec_decoded(&self, source_id: u32, b: Seq<u8>, fds: Seq<u8>, c: Cursor) -> bool {
        &&& self.source_id == source_id
        &&& self.transform == enums::WlOutputTransform::spec_from(c.word_val(b))
    }

    /// Reads the arguments of the event at the reader's place.
    pub fn decode(r: &mut Reader, source_id: u32) -> (res: Result<Self, WireError>)
        requires
            old(r).wf(),
        ensures
            final(r).wf(),
            final(r).bytes() == old(r).bytes(),
            final(r).fd_bytes() == old(r).fd_bytes(),
            match res {
                Ok(e) => final(r).cursor() == Self::spec_end(
                    old(r).bytes(),
                    old(r).fd_bytes(),
                    old(r).cursor(),
                ) && e.spec_decoded(source_id, old(r).bytes(), old(r).fd_bytes(), old(r).cursor()),
                Err(e) => Self::spec_end(old(r).bytes(), old(r).fd_bytes(), old(r).cursor()).fault
                    == Some(e),
            },
    {
        let transform_word = r.get_uint()?;
        let transform = enums::WlOutputTransform::from(transform_word);
        Ok(WlSurfacePreferredBufferTransformEvent { source_id, transform })
    }
}

/// `wl_seat.capabilities`
///
/// This is emitted whenever a seat gains or loses the pointer, keyboard or
/// touch capabilities. The argument is a capability enum containing the
/// complete set of capabilities this seat has.
#[derive(Debug)]
pub struct WlSeatCapabilitiesEvent {
    /// The object the event came from.
    pub source_id: u32,
    /// Capabilities of the seat.
    pub capabilities: enums::WlSeatCapability,
}

impl WlSeatCapabilitiesEvent {
    /// Where a cursor that stood at the first argument stands after the last.
    pub open spec fn spec_end(b: Seq<u8>, fds: Seq<u8>, c: Cursor) -> Cursor {
        c.word()
    }

    /// Whether `self` is what the arguments under the cursor `c` decode to.
    pub open spec fn spec_decoded(&self, source_id: u32, b: Seq<u8>, fds: Seq<u8>, c: Cursor) -> bool {
        &&& self.source_id == source_id
        &&& self.capabilities.bits() == c.word_val(b)
    }

    /// Reads the arguments of the event at the reader's place.
    pub fn decode(r: &mut Reader, source_id: u32) -> (res: Result<Self, WireError>)
        requires
            old(r).wf(),
        ensures
            final(r).wf(),
            final(r).bytes() == old(r).bytes(),
            final(r).fd_bytes() == old(r).fd_bytes(),
            match res {
                Ok(e) => final(r).cursor() == Self::spec_end(
                    old(r).bytes(),
                    old(r).fd_bytes(),
                    old(r).cursor(),
                ) && e.spec_decoded(source_id, old(r).bytes(), old(r).fd_bytes(), old(r).cursor()),
                Err(e) => Self::spec_end(old(r).bytes(), old(r).fd_bytes(), old(r).cursor()).fault
                    == Some(e),
            },
    {
        let capabilities_word = r.get_uint()?;
        let capabilities = enums::WlSeatCapability::from_bits(capabilities_word);
        Ok(WlSeatCapabilitiesEvent { source_id, capabilities })
    }
}

/// `wl_seat.name`
///
/// In a multi-seat configuration the seat name can be used by clients to help
/// identify which physical devices the seat represents.
#[derive(Debug)]
pub struct WlSeatNameEvent {
    /// The object the event came from.
    pub source_id: u32,
    /// Seat identifier.
    pub name: String,
}

impl WlSeatNameEvent {
    /// Where a cursor that stood at the first argument stands after the last.
    pub open spec fn spec_end(b: Seq<u8>, fds: Seq<u8>, c: Cursor) -> Cursor {
        c.string(b)
    }

    /// Whether `self` is what the arguments under the cursor `c` decode to.
    pub open spec fn spec_decoded(&self, source_id: u32, b: Seq<u8>, fds: Seq<u8>, c: Cursor) -> bool {
        &&& self.source_id == source_id
        &&& self.name@ == c.string_val(b)
    }

    /// Reads the arguments of the event at the reader's place.
    pub fn decode(r: &mut Reader, source_id: u32) -> (res: Result<Self, WireError>)
        requires
            old(r).wf(),
        ensures
            final(r).wf(),
            final(r).bytes() == old(r).bytes(),
            final(r).fd_bytes() == old(r).fd_bytes(),
            match res {
                Ok(e) => final(r).cursor() == Self::spec_end(
                    old(r).bytes(),
                    old(r).fd_bytes(),
                    old(r).cursor(),
                ) && e.spec_decoded(source_id, old(r).bytes(), old(r).fd_bytes(), old(r).cursor()),
                Err(e) => Self::spec_end(old(r).bytes(), old(r).fd_bytes(), old(r).cursor()).fault
                    == Some(e),
            },
    {
        let name = r.get_str()?;
        Ok(WlSeatNameEvent { source_id, name })
    }
}

/// `wl_pointer.enter`
///
/// Notification that this seat's pointer is focused on a certain surface.
#[derive(Debug)]
pub struct WlPointerEnterEvent {
    /// The object the event came from.
    pub source_id: u32,
    /// Serial number of the enter event.
    pub serial: u32,
    /// Surface entered by the pointer.
    pub surface: u32,
    /// Surface-local x coordinate.
    pub surface_x: Fixed,
    /// Surface-local y coordinate.
    pub surface_y: Fixed,
}

impl WlPointerEnterEvent {
    /// Where a cursor that stood at the first argument stands after the last.
    pub open spec fn spec_end(b: Seq<u8>, fds: Seq<u8>, c: Cursor) -> Cursor {
        c.word().word().word().word()
    }

    /// Whether `self` is what the arguments under the cursor `c` decode to.
    pub open spec fn spec_decoded(&self, source_id: u32, b: Seq<u8>, fds: Seq<u8>, c: Cursor) -> bool {
        &&& self.source_id == source_id
        &&& self.serial == c.word_val(b)
        &&& self.surface == c.word().word_val(b)
        &&& self.surface_x.0 == c.word().word().word_val(b)
        &&& self.surface_y.0 == c.word().word().word().word_val(b)
    }

    /// Reads the arguments of the event at the reader's place.
    pub fn decode(r: &mut Reader, source_id: u32) -> (res: Result<Self, WireError>)
        requires
            old(r).wf(),
        ensures
            final(r).wf(),
            final(r).bytes() == old(r).bytes(),
            final(r).fd_bytes() == old(r).fd_bytes(),
            match res {
                Ok(e) => final(r).cursor() == Self::spec_end(
                    old(r).bytes(),
                    old(r).fd_bytes(),
                    old(r).cursor(),
                ) && e.spec_decoded(source_id, old(r).bytes(), old(r).fd_bytes(), old(r).cursor()),
                Err(e) => Self::spec_end(old(r).bytes(), old(r).fd_bytes(), old(r).cursor()).fault
                    == Some(e),
            },
    {
        let serial = r.get_uint()?;
        let surface = r.get_uint()?;
        let surface_x_word = r.get_uint()?;
        let surface_x = Fixed::new(surface_x_word);
        let surface_y_word = r.get_uint()?;
        let surface_y = Fixed::new(surface_y_word);
        Ok(WlPointerEnterEvent { source_id, serial, surface, surface_x, surface_y })
    }
}

/// `wl_pointer.leave`
///
/// Notification that this seat's pointer is no longer focused on a certain
/// surface.
#[derive(Debug)]
pub struct WlPointerLeaveEvent {
    /// The object the event came from.
    pub source_id: u32,
    /// Serial number of the leave event.
    pub serial: u32,
    /// Surface left by the pointer.
    pub surface: u32,
}

impl WlPointerLeaveEvent {
    /// Where a cursor that stood at the first argument stands after the last.
    pub open spec fn spec_end(b: Seq<u8>, fds: Seq<u8>, c: Cursor) -> Cursor {
        c.word().word()
    }

    /// Whether `self` is what the arguments under the cursor `c` decode to.
    pub open spec fn spec_decoded(&self, source_id: u32, b: Seq<u8>, fds: Seq<u8>, c: Cursor) -> bool {
        &&& self.source_id == source_id
        &&& self.serial == c.word_val(b)
        &&& self.surface == c.word().word_val(b)
    }

    /// Reads the arguments of the event at the reader's place.
    pub fn decode(r: &mut Reader, source_id: u32) -> (res: Result<Self, WireError>)
        requires
            old(r).wf(),
        ensures
            final(r).wf(),
            final(r).bytes() == old(r).bytes(),
            final(r).fd_bytes() == old(r).fd_bytes(),
            match res {
                Ok(e) => final(r).cursor() == Self::spec_end(
                    old(r).bytes(),
                    old(r).fd_bytes(),
                    old(r).cursor(),
                ) && e.spec_decoded(source_id, old(r).bytes(), old(r).fd_bytes(), old(r).cursor()),
                Err(e) => Self::spec_end(old(r).bytes(), old(r).fd_bytes(), old(r).cursor()).fault
                    == Some(e),
            },
    {
        let serial = r.get_uint()?;
        let surface = r.get_uint()?;
        Ok(WlPointerLeaveEvent { source_id, serial, surface })
    }
}

/// `wl_pointer.motion`
///
/// Notification of pointer location change. The arguments surface_x and
/// surface_y are the location relative to the focused surface.
#[derive(Debug)]
pub struct WlPointerMotionEvent {
    /// The object the event came from.
    pub source_id: u32,
    /// Timestamp with millisecond granularity.
    pub time: u32,
    /// Surface-local x coordinate.
    pub surface_x: Fixed,
    /// Surface-local y coordinate.
    pub surface_y: Fixed,
}

impl WlPointerMotionEvent {
    /// Where a cursor that stood at the first argument stands after the last.
    pub open spec fn spec_end(b: Seq<u8>, fds: Seq<u8>, c: Cursor) -> Cursor {
        c.word().word().word()
    }

    /// Whether `self` is what the arguments under the cursor `c` decode to.
    pub open spec fn spec_decoded(&self, source_id: u32, b: Seq<u8>, fds: Seq<u8>, c: Cursor) -> bool {
        &&& self.source_id == source_id
        &&& self.time == c.word_val(b)
        &&& self.surface_x.0 == c.word().word_val(b)
        &&& self.surface_y.0 == c.word().word().word_val(b)
    }

    /// Reads the arguments of the event at the reader's place.
    pub fn decode(r: &mut Reader, source_id: u32) -> (res: Result<Self, WireError>)
        requires
            old(r).wf(),
        ensures
            final(r).wf(),
            final(r).bytes() == old(r).bytes(),
            final(r).fd_bytes() == old(r).fd_bytes(),
            match res {
                Ok(e) => final(r).cursor() == Self::spec_end(
                    old(r).bytes(),
                    old(r).fd_bytes(),
                    old(r).cursor(),
                ) && e.spec_decoded(source_id, old(r).bytes(), old(r).fd_bytes(), old(r).cursor()),
                Err(e) => Self::spec_end(old(r).bytes(), old(r).fd_bytes(), old(r).cursor()).fault
                    == Some(e),
            },
    {
        let time = r.get_uint()?;
        let surface_x_word = r.get_uint()?;
        let surface_x = Fixed::new(surface_x_word);
        let surface_y_word = r.get_uint()?;
        let surface_y = Fixed::new(surface_y_word);
        Ok(WlPointerMotionEvent { source_id, time, surface_x, surface_y })
    }
}

/// `wl_pointer.button`
///
/// Mouse button click and release notifications.
#[derive(Debug)]
pub struct WlPointerButtonEvent {
    /// The object the event came from.
    pub source_id: u32,
    /// Serial number of the button event.
    pub serial: u32,
    /// Timestamp with millisecond granularity.
    pub time: u32,
    /// Button that produced the event.
    pub button: u32,
    /// Physical state of the button.
    pub state: enums::WlPointerButtonState,
}

impl WlPointerButtonEvent {
    /// Where a cursor that stood at the first argument stands after the last.
    pub open spec fn spec_end(b: Seq<u8>, fds: Seq<u8>, c: Cursor) -> Cursor {
        c.word().word().word().word()
    }

    /// Whether `self` is what the arguments under the cursor `c` decode to.
    pub open spec fn spec_decoded(&self, source_id: u32, b: Seq<u8>, fds: Seq<u8>, c: Cursor) -> bool {
        &&& self.source_id == source_id
        &&& self.serial == c.word_val(b)
        &&& self.time == c.word().word_val(b)
        &&& self.button == c.word().word().word_val(b)
        &&& self.state == enums::WlPointerButtonState::spec_from(c.word().word().word().word_val(b))
    }

    /// Reads the arguments of the event at the reader's place.
    pub fn decode(r: &mut Reader, source_id: u32) -> (res: Result<Self, WireError>)
        requires
            old(r).wf(),
        ensures
            final(r).wf(),
            final(r).bytes() == old(r).bytes(),
            final(r).fd_bytes() == old(r).fd_bytes(),
            match res {
                Ok(e) => final(r).cursor() == Self::spec_end(
                    old(r).bytes(),
                    old(r).fd_bytes(),
                    old(r).cursor(),
                ) && e.spec_decoded(source_id, old(r).bytes(), old(r).fd_bytes(), old(r).cursor()),
                Err(e) => Self::spec_end(old(r).bytes(), old(r).fd_bytes(), old(r).cursor()).fault
                    == Some(e),
            },
    {
        let serial = r.get_uint()?;
        let time = r.get_uint()?;
        let button = r.get_uint()?;
        let state_word = r.get_uint()?;
        let state = enums::WlPointerButtonState::from(state_word);
        Ok(WlPointerButtonEvent { source_id, serial, time, button, state })
    }
}

/// `wl_pointer.axis`
///
/// Scroll and other axis notifications.
#[derive(Debug)]
pub struct WlPointerAxisEvent {
    /// The object the event came from.
    pub source_id: u32,
    /// Timestamp with millisecond granularity.
    pub time: u32,
    /// Axis type.
    pub axis: enums::WlPointerAxis,
    /// Length of vector in surface-local coordinate space.
    pub value: Fixed,
}

impl WlPointerAxisEvent {
    /// Where a cursor that stood at the first argument stands after the last.
    pub open spec fn spec_end(b: Seq<u8>, fds: Seq<u8>, c: Cursor) -> Cursor {
        c.word().word().word()
    }

    /// Whether `self` is what the arguments under the cursor `c` decode to.
    pub open spec fn spec_decoded(&self, source_id: u32, b: Seq<u8>, fds: Seq<u8>, c: Cursor) -> bool {
        &&& self.source_id == source_id
        &&& self.time == c.word_val(b)
        &&& self.axis == enums::WlPointerAxis::spec_from(c.word().word_val(b))
        &&& self.value.0 == c.word().word().word_val(b)
    }

    /// Reads the arguments of the event at the reader's place.
    pub fn decode(r: &mut Reader, source_id: u32) -> (res: Result<Self, WireError>)
        requires
            old(r).wf(),
        ensures
            final(r).wf(),
            final(r).bytes() == old(r).bytes(),
            final(r).fd_bytes() == old(r).fd_bytes(),
            match res {
                Ok(e) => final(r).cursor() == Self::spec_end(
                    old(r).bytes(),
                    old(r).fd_bytes(),
                    old(r).cursor(),
                ) && e.spec_decoded(source_id, old(r).bytes(), old(r).fd_bytes(), old(r).cursor()),
                Err(e) => Self::spec_end(old(r).bytes(), old(r).fd_bytes(), old(r).cursor()).fault
                    == Some(e),
            },
    {
        let time = r.get_uint()?;
        let axis_word = r.get_uint()?;
        let axis = enums::WlPointerAxis::from(axis_word);
        let value_word = r.get_uint()?;
        let value = Fixed::new(value_word);
        Ok(WlPointerAxisEvent { source_id, time, axis, value })
    }
}

/// `wl_pointer.frame`
///
/// Indicates the end of a set of events that logically belong together. A
/// client is expected to accumulate the data in all events within the frame
/// before proceeding.
#[derive(Debug)]
pub struct WlPointerFrameEvent {
    /// The object the event came from.
    pub source_id: u32,
}

impl WlPointerFrameEvent {
    /// Where a cursor that stood at the first argument stands after the last.
    pub open spec fn spec_end(b: Seq<u8>, fds: Seq<u8>, c: Cursor) -> Cursor {
        c
    }

    /// Whether `self` is what the arguments under the cursor `c` decode to.
    pub open spec fn spec_decoded(&self, source_id: u32, b: Seq<u8>, fds: Seq<u8>, c: Cursor) -> bool {
        &&& self.source_id == source_id
    }

    /// Reads the arguments of the event at the reader's place.
    pub fn decode(r: &mut Reader, source_id: u32) -> (res: Result<Self, WireError>)
        requires
            old(r).wf(),
        ensures
            final(r).wf(),
            final(r).bytes() == old(r).bytes(),
            final(r).fd_bytes() == old(r).fd_bytes(),
            match res {
                Ok(e) => final(r).cursor() == Self::spec_end(
                    old(r).bytes(),
                    old(r).fd_bytes(),
                    old(r).cursor(),
                ) && e.spec_decoded(source_id, old(r).bytes(), old(r).fd_bytes(), old(r).cursor()),
                Err(e) => Self::spec_end(old(r).bytes(), old(r).fd_bytes(), old(r).cursor()).fault
                    == Some(e),
            },
    {
        Ok(WlPointerFrameEvent { source_id })
    }
}

/// `wl_pointer.axis_source`
///
/// Source information for scroll and other axes.
#[derive(Debug)]
pub struct WlPointerAxisSourceEvent {
    /// The object the event came from.
    pub source_id: u32,
    /// Source of the axis event.
    pub axis_source: enums::WlPointerAxisSource,
}

impl WlPointerAxisSourceEvent {
    /// Where a cursor that stood at the first argument stands after the last.
    pub open spec fn spec_end(b: Seq<u8>, fds: Seq<u8>, c: Cursor) -> Cursor {
        c.word()
    }

    /// Whether `self` is what the arguments under the cursor `c` decode to.
    pub open spec fn spec_decoded(&self, source_id: u32, b: Seq<u8>, fds: Seq<u8>, c: Cursor) -> bool {
        &&& self.source_id == source_id
        &&& self.axis_source == enums::WlPointerAxisSource::spec_from(c.word_val(b))
    }

    /// Reads the arguments of the event at the reader's place.
    pub fn decode(r: &mut Reader, source_id: u32) -> (res: Result<Self, WireError>)
        requires
            old(r).wf(),
        ensures
            final(r).wf(),
            final(r).bytes() == old(r).bytes(),
            final(r).fd_bytes() == old(r).fd_bytes(),
            match res {
                Ok(e) => final(r).cursor() == Self::spec_end(
                    old(r).bytes(),
                    old(r).fd_bytes(),
                    old(r).cursor(),
                ) && e.spec_decoded(source_id, old(r).bytes(), old(r).fd_bytes(), old(r).cursor()),
                Err(e) => Self::spec_end(old(r).bytes(), old(r).fd_bytes(), old(r).cursor()).fault
                    == Some(e),
            },
    {
        let axis_source_word = r.get_uint()?;
        let axis_source = enums::WlPointerAxisSource::from(axis_source_word);
        Ok(WlPointerAxisSourceEvent { source_id, axis_source })
    }
}

/// `wl_pointer.axis_stop`
///
/// Stop notification for scroll and other axes.
#[derive(Debug)]
pub struct WlPointerAxisStopEvent {
    /// The object the event came from.
    pub source_id: u32,
    /// Timestamp with millisecond granularity.
    pub time: u32,
    /// The axis stopped with this event.
    pub axis: enums::WlPointerAxis,
}

impl WlPointerAxisStopEvent {
    /// Where a cursor that stood at the first argument stands after the last.
    pub open spec fn spec_end(b: Seq<u8>, fds: Seq<u8>, c: Cursor) -> Cursor {
        c.word().word()
    }

    /// Whether `self` is what the arguments under the cursor `c` decode to.
    pub open spec fn spec_decoded(&self, source_id: u32, b: Seq<u8>, fds: Seq<u8>, c: Cursor) -> bool {
        &&& self.source_id == source_id
        &&& self.time == c.word_val(b)
        &&& self.axis == enums::WlPointerAxis::spec_from(c.word().word_val(b))
    }

    /// Reads the arguments of the event at the reader's place.
    pub fn decode(r: &mut Reader, source_id: u32) -> (res: Result<Self, WireError>)
        requires
            old(r).wf(),
        ensures
            final(r).wf(),
            final(r).bytes() == old(r).bytes(),
            final(r).fd_bytes() == old(r).fd_bytes(),
            match res {
                Ok(e) => final(r).cursor() == Self::spec_end(
                    old(r).bytes(),
                    old(r).fd_bytes(),
                    old(r).cursor(),
                ) && e.spec_decoded(source_id, old(r).bytes(), old(r).fd_bytes(), old(r).cursor()),
                Err(e) => Self::spec_end(old(r).bytes(), old(r).fd_bytes(), old(r).cursor()).fault
                    == Some(e),
            },
    {
        let time = r.get_uint()?;
        let axis_word = r.get_uint()?;
        let axis = enums::WlPointerAxis::from(axis_word);
        Ok(WlPointerAxisStopEvent { source_id, time, axis })
    }
}

/// `wl_pointer.axis_discrete`
///
/// Discrete step information for scroll and other axes.
#[derive(Debug)]
pub struct WlPointerAxisDiscreteEvent {
    /// The object the event came from.
    pub source_id: u32,
    /// Axis type.
    pub axis: enums::WlPointerAxis,
    /// Number of steps.
    pub discrete: i32,
}

impl WlPointerAxisDiscreteEvent {
    /// Where a cursor that stood at the first argument stands after the last.
    pub open spec fn spec_end(b: Seq<u8>, fds: Seq<u8>, c: Cursor) -> Cursor {
        c.word().word()
    }

    /// Whether `self` is what the arguments under the cursor `c` decode to.
    pub open spec fn spec_decoded(&self, source_id: u32, b: Seq<u8>, fds: Seq<u8>, c: Cursor) -> bool {
        &&& self.source_id == source_id
        &&& self.axis == enums::WlPointerAxis::spec_from(c.word_val(b))
        &&& self.discrete == c.word().int_val(b)
    }

    /// Reads the arguments of the event at the reader's place.
    pub fn decode(r: &mut Reader, source_id: u32) -> (res: Result<Self, WireError>)
        requires
            old(r).wf(),
        ensures
            final(r).wf(),
            final(r).bytes() == old(r).bytes(),
            final(r).fd_bytes() == old(r).fd_bytes(),
            match res {
                Ok(e) => final(r).cursor() == Self::spec_end(
                    old(r).bytes(),
                    old(r).fd_bytes(),
                    old(r).cursor(),
                ) && e.spec_decoded(source_id, old(r).bytes(), old(r).fd_bytes(), old(r).cursor()),
                Err(e) => Self::spec_end(old(r).bytes(), old(r).fd_bytes(), old(r).cursor()).fault
                    == Some(e),
            },
    {
        let axis_word = r.get_uint()?;
        let axis = enums::WlPointerAxis::from(axis_word);
        let discrete = r.get_int()?;
        Ok(WlPointerAxisDiscreteEvent { source_id, axis, discrete })
    }
}

/// `wl_pointer.axis_value120`
///
/// Discrete high-resolution scroll information.
#[derive(Debug)]
pub struct WlPointerAxisValue120Event {
    /// The object the event came from.
    pub source_id: u32,
    /// Axis type.
    pub axis: enums::WlPointerAxis,
    /// Scroll distance as fraction of 120.
    pub value120: i32,
}

impl WlPointerAxisValue120Event {
    /// Where a cursor that stood at the first argument stands after the last.
    pub open spec fn spec_end(b: Seq<u8>, fds: Seq<u8>, c: Cursor) -> Cursor {
        c.word().word()
    }

    /// Whether `self` is what the arguments under the cursor `c` decode to.
    pub open spec fn spec_decoded(&self, source_id: u32, b: Seq<u8>, fds: Seq<u8>, c: Cursor) -> bool {
        &&& self.source_id == source_id
        &&& self.axis == enums::WlPointerAxis::spec_from(c.word_val(b))
        &&& self.value120 == c.word().int_val(b)
    }

    /// Reads the arguments of the event at the reader's place.
    pub fn decode(r: &mut Reader, source_id: u32) -> (res: Result<Self, WireError>)
        requires
            old(r).wf(),
        ensures
            final(r).wf(),
            final(r).bytes() == old(r).bytes(),
            final(r).fd_bytes() == old(r).fd_bytes(),
            match res {
                Ok(e) => final(r).cursor() == Self::spec_end(
                    old(r).bytes(),
                    old(r).fd_bytes(),
                    old(r).cursor(),
                ) && e.spec_decoded(source_id, old(r).bytes(), old(r).fd_bytes(), old(r).cursor()),
                Err(e) => Self::spec_end(old(r).bytes(), old(r).fd_bytes(), old(r).cursor()).fault
                    == Some(e),
            },
    {
        let axis_word = r.get_uint()?;
        let axis = enums::WlPointerAxis::from(axis_word);
        let value120 = r.get_int()?;
        Ok(WlPointerAxisValue120Event { source_id, axis, value120 })
    }
}

/// `wl_pointer.axis_relative_direction`
///
/// Relative directional information of the entity causing the axis motion.
#[derive(Debug)]
pub struct WlPointerAxisRelativeDirectionEvent {
    /// The object the event came from.
    pub source_id: u32,
    /// Axis type.
    pub axis: enums::WlPointerAxis,
    /// Physical direction relative to axis motion.
    pub direction: enums::WlPointerAxisRelativeDirection,
}

impl WlPointerAxisRelativeDirectionEvent {
    /// Where a cursor that stood at the first argument stands after the last.
    pub open spec fn spec_end(b: Seq<u8>, fds: Seq<u8>, c: Cursor) -> Cursor {
        c.word().word()
    }

    /// Whether `self` is what the arguments under the cursor `c` decode to.
    pub open spec fn spec_decoded(&self, source_id: u32, b: Seq<u8>, fds: Seq<u8>, c: Cursor) -> bool {
        &&& self.source_id == source_id
        &&& self.axis == enums::WlPointerAxis::spec_from(c.word_val(b))
        &&& self.direction == enums::WlPointerAxisRelativeDirection::spec_from(c.word().word_val(b))
    }

    /// Reads the arguments of the event at the reader's place.
    pub fn decode(r: &mut Reader, source_id: u32) -> (res: Result<Self, WireError>)
        requires
            old(r).wf(),
        ensures
            final(r).wf(),
            final(r).bytes() == old(r).bytes(),
            final(r).fd_bytes() == old(r).fd_bytes(),
            match res {
                Ok(e) => final(r).cursor() == Self::spec_end(
                    old(r).bytes(),
                    old(r).fd_bytes(),
                    old(r).cursor(),
                ) && e.spec_decoded(source_id, old(r).bytes(), old(r).fd_bytes(), old(r).cursor()),
                Err(e) => Self::spec_end(old(r).bytes(), old(r).fd_bytes(), old(r).cursor()).fault
                    == Some(e),
            },
    {
        let axis_word = r.get_uint()?;
        let axis = enums::WlPointerAxis::from(axis_word);
        let direction_word = r.get_uint()?;
        let direction = enums::WlPointerAxisRelativeDirection::from(direction_word);
        Ok(WlPointerAxisRelativeDirectionEvent { source_id, axis, direction })
    }
}

/// `wl_keyboard.keymap`
///
/// This event provides a file descriptor to the client which can be memory-
/// mapped in read-only mode to provide a keyboard mapping description.
#[derive(Debug)]
pub struct WlKeyboardKeymapEvent {
    /// The object the event came from.
    pub source_id: u32,
    /// Keymap format.
    pub format: enums::WlKeyboardKeymapFormat,
    /// Keymap file descriptor.
    pub fd: i32,
    /// Keymap size, in bytes.
    pub size: u32,
}

impl WlKeyboardKeymapEvent {
    /// Where a cursor that stood at the first argument stands after the last.
    pub open spec fn spec_end(b: Seq<u8>, fds: Seq<u8>, c: Cursor) -> Cursor {
        c.word().fd(fds).word()
    }

    /// Whether `self` is what the arguments under the cursor `c` decode to.
    pub open spec fn spec_decoded(&self, source_id: u32, b: Seq<u8>, fds: Seq<u8>, c: Cursor) -> bool {
        &&& self.source_id == source_id
        &&& self.format == enums::WlKeyboardKeymapFormat::spec_from(c.word_val(b))
        &&& self.fd == c.word().fd_val(fds)
        &&& self.size == c.word().fd(fds).word_val(b)
    }

    /// Reads the arguments of the event at the reader's place.
    pub fn decode(r: &mut Reader, source_id: u32) -> (res: Result<Self, WireError>)
        requires
            old(r).wf(),
        ensures
            final(r).wf(),
            final(r).bytes() == old(r).bytes(),
            final(r).fd_bytes() == old(r).fd_bytes(),
            match res {
                Ok(e) => final(r).cursor() == Self::spec_end(
                    old(r).bytes(),
                    old(r).fd_bytes(),
                    old(r).cursor(),
                ) && e.spec_decoded(source_id, old(r).bytes(), old(r).fd_bytes(), old(r).cursor()),
                Err(e) => Self::spec_end(old(r).bytes(), old(r).fd_bytes(), old(r).cursor()).fault
                    == Some(e),
            },
    {
        let format_word = r.get_uint()?;
        let format = enums::WlKeyboardKeymapFormat::from(format_word);
        let fd = r.get_fd()?;
        let size = r.get_uint()?;
        Ok(WlKeyboardKeymapEvent { source_id, format, fd, size })
    }
}

/// `wl_keyboard.enter`
///
/// Notification that this seat's keyboard focus is on a certain surface.
#[derive(Debug)]
pub struct WlKeyboardEnterEvent {
    /// The object the event came from.
    pub source_id: u32,
    /// Serial number of the enter event.
    pub serial: u32,
    /// Surface gaining keyboard focus.
    pub surface: u32,
    /// The currently pressed keys.
    pub keys: Vec<u8>,
}

impl WlKeyboardEnterEvent {
    /// Where a cursor that stood at the first argument stands after the last.
    pub open spec fn spec_end(b: Seq<u8>, fds: Seq<u8>, c: Cursor) -> Cursor {
        c.word().word().array(b)
    }

    /// Whether `self` is what the arguments under the cursor `c` decode to.
    pub open spec fn spec_decoded(&self, source_id: u32, b: Seq<u8>, fds: Seq<u8>, c: Cursor) -> bool {
        &&& self.source_id == source_id
        &&& self.serial == c.word_val(b)
        &&& self.surface == c.word().word_val(b)
        &&& self.keys@ == c.word().word().array_val(b)
    }

    /// Reads the arguments of the event at the reader's place.
    pub fn decode(r: &mut Reader, source_id: u32) -> (res: Result<Self, WireError>)
        requires
            old(r).wf(),
        ensures
            final(r).wf(),
            final(r).bytes() == old(r).bytes(),
            final(r).fd_bytes() == old(r).fd_bytes(),
            match res {
                Ok(e) => final(r).cursor() == Self::spec_end(
                    old(r).bytes(),
                    old(r).fd_bytes(),
                    old(r).cursor(),
                ) && e.spec_decoded(source_id, old(r).bytes(), old(r).fd_bytes(), old(r).cursor()),
                Err(e) => Self::spec_end(old(r).bytes(), old(r).fd_bytes(), old(r).cursor()).fault
                    == Some(e),
            },
    {
        let serial = r.get_uint()?;
        let surface = r.get_uint()?;
        let keys = r.get_vec()?;
        Ok(WlKeyboardEnterEvent { source_id, serial, surface, keys })
    }
}

/// `wl_keyboard.leave`
///
/// Notification that this seat's keyboard focus is no longer on a certain
/// surface.
#[derive(Debug)]
pub struct WlKeyboardLeaveEvent {
    /// The object the event came from.
    pub source_id: u32,
    /// Serial number of the leave event.
    pub serial: u32,
    /// Surface that lost keyboard focus.
    pub surface: u32,
}

impl WlKeyboardLeaveEvent {
    /// Where a cursor that stood at the first argument stands after the last.
    pub open spec fn spec_end(b: Seq<u8>, fds: Seq<u8>, c: Cursor) -> Cursor {
        c.word().word()
    }

    /// Whether `self` is what the arguments under the cursor `c` decode to.
    pub open spec fn spec_decoded(&self, source_id: u32, b: Seq<u8>, fds: Seq<u8>, c: Cursor) -> bool {
        &&& self.source_id == source_id
        &&& self.serial == c.word_val(b)
        &&& self.surface == c.word().word_val(b)
    }

    /// Reads the arguments of the event at the reader's place.
    pub fn decode(r: &mut Reader, source_id: u32) -> (res: Result<Self, WireError>)
        requires
            old(r).wf(),
        ensures
            final(r).wf(),
            final(r).bytes() == old(r).bytes(),
            final(r).fd_bytes() == old(r).fd_bytes(),
            match res {
                Ok(e) => final(r).cursor() == Self::spec_end(
                    old(r).bytes(),
                    old(r).fd_bytes(),
                    old(r).cursor(),
                ) && e.spec_decoded(source_id, old(r).bytes(), old(r).fd_bytes(), old(r).cursor()),
                Err(e) => Self::spec_end(old(r).bytes(), old(r).fd_bytes(), old(r).cursor()).fault
                    == Some(e),
            },
    {
        let serial = r.get_uint()?;
        let surface = r.get_uint()?;
        Ok(WlKeyboardLeaveEvent { source_id, serial, surface })
    }
}

/// `wl_keyboard.key`
///
/// A key was pressed or released. The time argument is a timestamp with
/// millisecond granularity, with an undefined base.
#[derive(Debug)]
pub struct WlKeyboardKeyEvent {
    /// The object the event came from.
    pub source_id: u32,
    /// Serial number of the key event.
    pub serial: u32,
    /// Timestamp with millisecond granularity.
    pub time: u32,
    /// Key that produced the event.
    pub key: u32,
    /// Physical state of the key.
    pub state: enums::WlKeyboardKeyState,
}

impl WlKeyboardKeyEvent {
    /// Where a cursor that stood at the first argument stands after the last.
    pub open spec fn spec_end(b: Seq<u8>, fds: Seq<u8>, c: Cursor) -> Cursor {
        c.word().word().word().word()
    }

    /// Whether `self` is what the arguments under the cursor `c` decode to.
    pub open spec fn spec_decoded(&self, source_id: u32, b: Seq<u8>, fds: Seq<u8>, c: Cursor) -> bool {
        &&& self.source_id == source_id
        &&& self.serial == c.word_val(b)
        &&& self.time == c.word().word_val(b)
        &&& self.key == c.word().word().word_val(b)
        &&& self.state == enums::WlKeyboardKeyState::spec_from(c.word().word().word().word_val(b))
    }

    /// Reads the arguments of the event at the reader's place.
    pub fn decode(r: &mut Reader, source_id: u32) -> (res: Result<Self, WireError>)
        requires
            old(r).wf(),
        ensures
            final(r).wf(),
            final(r).bytes() == old(r).bytes(),
            final(r).fd_bytes() == old(r).fd_bytes(),
            match res {
                Ok(e) => final(r).cursor() == Self::spec_end(
                    old(r).bytes(),
                    old(r).fd_bytes(),
                    old(r).cursor(),
                ) && e.spec_decoded(source_id, old(r).bytes(), old(r).fd_bytes(), old(r).cursor()),
                Err(e) => Self::spec_end(old(r).bytes(), old(r).fd_bytes(), old(r).cursor()).fault
                    == Some(e),
            },
    {
        let serial = r.get_uint()?;
        let time = r.get_uint()?;
        let key = r.get_uint()?;
        let state_word = r.get_uint()?;
        let state = enums::WlKeyboardKeyState::from(state_word);
        Ok(WlKeyboardKeyEvent { source_id, serial, time, key, state })
    }
}

/// `wl_keyboard.modifiers`
///
/// Notifies clients that the modifier and/or group state has changed, and it
/// should update its local state.
#[derive(Debug)]
pub struct WlKeyboardModifiersEvent {
    /// The object the event came from.
    pub source_id: u32,
    /// Serial number of the modifiers event.
    pub serial: u32,
    /// Depressed modifiers.
    pub mods_depressed: u32,
    /// Latched modifiers.
    pub mods_latched: u32,
    /// Locked modifiers.
    pub mods_locked: u32,
    /// Keyboard layout.
    pub group: u32,
}

impl WlKeyboardModifiersEvent {
    /// Where a cursor that stood at the first argument stands after the last.
    pub open spec fn spec_end(b: Seq<u8>, fds: Seq<u8>, c: Cursor) -> Cursor {
        c.word().word().word().word().word()
    }

    /// Whether `self` is what the arguments under the cursor `c` decode to.
    pub open spec fn spec_decoded(&self, source_id: u32, b: Seq<u8>, fds: Seq<u8>, c: Cursor) -> bool {
        &&& self.source_id == source_id
        &&& self.serial == c.word_val(b)
        &&& self.mods_depressed == c.word().word_val(b)
        &&& self.mods_latched == c.word().word().word_val(b)
        &&& self.mods_locked == c.word().word().word().word_val(b)
        &&& self.group == c.word().word().word().word().word_val(b)
    }

    /// Reads the arguments of the event at the reader's place.
    pub fn decode(r: &mut Reader, source_id: u32) -> (res: Result<Self, WireError>)
        requires
            old(r).wf(),
        ensures
            final(r).wf(),
            final(r).bytes() == old(r).bytes(),
            final(r).fd_bytes() == old(r).fd_bytes(),
            match res {
                Ok(e) => final(r).cursor() == Self::spec_end(
                    old(r).bytes(),
                    old(r).fd_bytes(),
                    old(r).cursor(),
                ) && e.spec_decoded(source_id, old(r).bytes(), old(r).fd_bytes(), old(r).cursor()),
                Err(e) => Self::spec_end(old(r).bytes(), old(r).fd_bytes(), old(r).cursor()).fault
                    == Some(e),
            },
    {
        let serial = r.get_uint()?;
        let mods_depressed = r.get_uint()?;
        let mods_latched = r.get_uint()?;
        let mods_locked = r.get_uint()?;
        let group = r.get_uint()?;
        Ok(WlKeyboardModifiersEvent { source_id, serial, mods_depressed, mods_latched, mods_locked, group })
    }
}

/// `wl_keyboard.repeat_info`
///
/// Informs the client about the keyboard's repeat rate and delay.
#[derive(Debug)]
pub struct WlKeyboardRepeatInfoEvent {
    /// The object the event came from.
    pub source_id: u32,
    /// The rate of repeating keys in characters per second.
    pub rate: i32,
    /// Delay in milliseconds since key down until repeating starts.
    pub delay: i32,
}

impl WlKeyboardRepeatInfoEvent {
    /// Where a cursor that stood at the first argument stands after the last.
    pub open spec fn spec_end(b: Seq<u8>, fds: Seq<u8>, c: Cursor) -> Cursor {
        c.word().word()
    }

    /// Whether `self` is what the arguments under the cursor `c` decode to.
    pub open spec fn spec_decoded(&self, source_id: u32, b: Seq<u8>, fds: Seq<u8>, c: Cursor) -> bool {
        &&& self.source_id == source_id
        &&& self.rate == c.int_val(b)
        &&& self.delay == c.word().int_val(b)
    }

    /// Reads the arguments of the event at the reader's place.
    pub fn decode(r: &mut Reader, source_id: u32) -> (res: Result<Self, WireError>)
        requires
            old(r).wf(),
        ensures
            final(r).wf(),
            final(r).bytes() == old(r).bytes(),
            final(r).fd_bytes() == old(r).fd_bytes(),
            match res {
                Ok(e) => final(r).cursor() == Self::spec_end(
                    old(r).bytes(),
                    old(r).fd_bytes(),
                    old(r).cursor(),
                ) && e.spec_decoded(source_id, old(r).bytes(), old(r).fd_bytes(), old(r).cursor()),
                Err(e) => Self::spec_end(old(r).bytes(), old(r).fd_bytes(), old(r).cursor()).fault
                    == Some(e),
            },
    {
        let rate = r.get_int()?;
        let delay = r.get_int()?;
        Ok(WlKeyboardRepeatInfoEvent { source_id, rate, delay })
    }
}

/// `wl_touch.down`
///
/// A new touch point has appeared on the surface. This touch point is assigned
/// a unique ID. Future events from this touch point reference this ID. The ID
/// ceases to be valid after a touch up event and may be reused in the future.
#[derive(Debug)]
pub struct WlTouchDownEvent {
    /// The object the event came from.
    pub source_id: u32,
    /// Serial number of the touch down event.
    pub serial: u32,
    /// Timestamp with millisecond granularity.
    pub time: u32,
    /// Surface touched.
    pub surface: u32,
    /// The unique ID of this touch point.
    pub id: i32,
    /// Surface-local x coordinate.
    pub x: Fixed,
    /// Surface-local y coordinate.
    pub y: Fixed,
}

impl WlTouchDownEvent {
    /// Where a cursor that stood at the first argument stands after the last.
    pub open spec fn spec_end(b: Seq<u8>, fds: Seq<u8>, c: Cursor) -> Cursor {
        c.word().word().word().word().word().word()
    }

    /// Whether `self` is what the arguments under the cursor `c` decode to.
    pub open spec fn spec_decoded(&self, source_id: u32, b: Seq<u8>, fds: Seq<u8>, c: Cursor) -> bool {
        &&& self.source_id == source_id
        &&& self.serial == c.word_val(b)
        &&& self.time == c.word().word_val(b)
        &&& self.surface == c.word().word().word_val(b)
        &&& self.id == c.word().word().word().int_val(b)
        &&& self.x.0 == c.word().word().word().word().word_val(b)
        &&& self.y.0 == c.word().word().word().word().word().word_val(b)
    }

    /// Reads the arguments of the event at the reader's place.
    pub fn decode(r: &mut Reader, source_id: u32) -> (res: Result<Self, WireError>)
        requires
            old(r).wf(),
        ensures
            final(r).wf(),
            final(r).bytes() == old(r).bytes(),
            final(r).fd_bytes() == old(r).fd_bytes(),
            match res {
                Ok(e) => final(r).cursor() == Self::spec_end(
                    old(r).bytes(),
                    old(r).fd_bytes(),
                    old(r).cursor(),
                ) && e.spec_decoded(source_id, old(r).bytes(), old(r).fd_bytes(), old(r).cursor()),
                Err(e) => Self::spec_end(old(r).bytes(), old(r).fd_bytes(), old(r).cursor()).fault
                    == Some(e),
            },
    {
        let serial = r.get_uint()?;
        let time = r.get_uint()?;
        let surface = r.get_uint()?;
        let id = r.get_int()?;
        let x_word = r.get_uint()?;
        let x = Fixed::new(x_word);
        let y_word = r.get_uint()?;
        let y = Fixed::new(y_word);
        Ok(WlTouchDownEvent { source_id, serial, time, surface, id, x, y })
    }
}

/// `wl_touch.up`
///
/// The touch point has disappeared. No further events will be sent for this
/// touch point and the touch point's ID is released and may be reused in a
/// future touch down event.
#[derive(Debug)]
pub struct WlTouchUpEvent {
    /// The object the event came from.
    pub source_id: u32,
    /// Serial number of the touch up event.
    pub serial: u32,
    /// Timestamp with millisecond granularity.
    pub time: u32,
    /// The unique ID of this touch point.
    pub id: i32,
}

impl WlTouchUpEvent {
    /// Where a cursor that stood at the first argument stands after the last.
    pub open spec fn spec_end(b: Seq<u8>, fds: Seq<u8>, c: Cursor) -> Cursor {
        c.word().word().word()
    }

    /// Whether `self` is what the arguments under the cursor `c` decode to.
    pub open spec fn spec_decoded(&self, source_id: u32, b: Seq<u8>, fds: Seq<u8>, c: Cursor) -> bool {
        &&& self.source_id == source_id
        &&& self.serial == c.word_val(b)
        &&& self.time == c.word().word_val(b)
        &&& self.id == c.word().word().int_val(b)
    }

    /// Reads the arguments of the event at the reader's place.
    pub fn decode(r: &mut Reader, source_id: u32) -> (res: Result<Self, WireError>)
        requires
            old(r).wf(),
        ensures
            final(r).wf(),
            final(r).bytes() == old(r).bytes(),
            final(r).fd_bytes() == old(r).fd_bytes(),
            match res {
                Ok(e) => final(r).cursor() == Self::spec_end(
                    old(r).bytes(),
                    old(r).fd_bytes(),
                    old(r).cursor(),
                ) && e.spec_decoded(source_id, old(r).bytes(), old(r).fd_bytes(), old(r).cursor()),
                Err(e) => Self::spec_end(old(r).bytes(), old(r).fd_bytes(), old(r).cursor()).fault
                    == Some(e),
            },
    {
        let serial = r.get_uint()?;
        let time = r.get_uint()?;
        let id = r.get_int()?;
        Ok(WlTouchUpEvent { source_id, serial, time, id })
    }
}

/// `wl_touch.motion`
///
/// A touch point has changed coordinates.
#[derive(Debug)]
pub struct WlTouchMotionEvent {
    /// The object the event came from.
    pub source_id: u32,
    /// Timestamp with millisecond granularity.
    pub time: u32,
    /// The unique ID of this touch point.
    pub id: i32,
    /// Surface-local x coordinate.
    pub x: Fixed,
    /// Surface-local y coordinate.
    pub y: Fixed,
}

impl WlTouchMotionEvent {
    /// Where a cursor that stood at the first argument stands after the last.
    pub open spec fn spec_end(b: Seq<u8>, fds: Seq<u8>, c: Cursor) -> Cursor {
        c.word().word().word().word()
    }

    /// Whether `self` is what the arguments under the cursor `c` decode to.
    pub open spec fn spec_decoded(&self, source_id: u32, b: Seq<u8>, fds: Seq<u8>, c: Cursor) -> bool {
        &&& self.source_id == source_id
        &&& self.time == c.word_val(b)
        &&& self.id == c.word().int_val(b)
        &&& self.x.0 == c.word().word().word_val(b)
        &&& self.y.0 == c.word().word().word().word_val(b)
    }

    /// Reads the arguments of the event at the reader's place.
    pub fn decode(r: &mut Reader, source_id: u32) -> (res: Result<Self, WireError>)
        requires
            old(r).wf(),
        ensures
            final(r).wf(),
            final(r).bytes() == old(r).bytes(),
            final(r).fd_bytes() == old(r).fd_bytes(),
            match res {
                Ok(e) => final(r).cursor() == Self::spec_end(
                    old(r).bytes(),
                    old(r).fd_bytes(),
                    old(r).cursor(),
                ) && e.spec_decoded(source_id, old(r).bytes(), old(r).fd_bytes(), old(r).cursor()),
                Err(e) => Self::spec_end(old(r).bytes(), old(r).fd_bytes(), old(r).cursor()).fault
                    == Some(e),
            },
    {
        let time = r.get_uint()?;
        let id = r.get_int()?;
        let x_word = r.get_uint()?;
        let x = Fixed::new(x_word);
        let y_word = r.get_uint()?;
        let y = Fixed::new(y_word);
        Ok(WlTouchMotionEvent { source_id, time, id, x, y })
    }
}

/// `wl_touch.frame`
///
/// Indicates the end of a set of events that logically belong together. A
/// client is expected to accumulate the data in all events within the frame
/// before proceeding.
#[derive(Debug)]
pub struct WlTouchFrameEvent {
    /// The object the event came from.
    pub source_id: u32,
}

impl WlTouchFrameEvent {
    /// Where a cursor that stood at the first argument stands after the last.
    pub open spec fn spec_end(b: Seq<u8>, fds: Seq<u8>, c: Cursor) -> Cursor {
        c
    }

    /// Whether `self` is what the arguments under the cursor `c` decode to.
    pub open spec fn spec_decoded(&self, source_id: u32, b: Seq<u8>, fds: Seq<u8>, c: Cursor) -> bool {
        &&& self.source_id == source_id
    }

    /// Reads the arguments of the event at the reader's place.
    pub fn decode(r: &mut Reader, source_id: u32) -> (res: Result<Self, WireError>)
        requires
            old(r).wf(),
        ensures
            final(r).wf(),
            final(r).bytes() == old(r).bytes(),
            final(r).fd_bytes() == old(r).fd_bytes(),
            match res {
                Ok(e) => final(r).cursor() == Self::spec_end(
                    old(r).bytes(),
                    old(r).fd_bytes(),
                    old(r).cursor(),
                ) && e.spec_decoded(source_id, old(r).bytes(), old(r).fd_bytes(), old(r).cursor()),
                Err(e) => Self::spec_end(old(r).bytes(), old(r).fd_bytes(), old(r).cursor()).fault
                    == Some(e),
            },
    {
        Ok(WlTouchFrameEvent { source_id })
    }
}

/// `wl_touch.cancel`
///
/// Sent if the compositor decides the touch stream is a global gesture. No
/// further events are sent to the clients from that particular gesture.
#[derive(Debug)]
pub struct WlTouchCancelEvent {
    /// The object the event came from.
    pub source_id: u32,
}

impl WlTouchCancelEvent {
    /// Where a cursor that stood at the first argument stands after the last.
    pub open spec fn spec_end(b: Seq<u8>, fds: Seq<u8>, c: Cursor) -> Cursor {
        c
    }

    /// Whether `self` is what the arguments under the cursor `c` decode to.
    pub open spec fn spec_decoded(&self, source_id: u32, b: Seq<u8>, fds: Seq<u8>, c: Cursor) -> bool {
        &&& self.source_id == source_id
    }

    /// Reads the arguments of the event at the reader's place.
    pub fn decode(r: &mut Reader, source_id: u32) -> (res: Result<Self, WireError>)
        requires
            old(r).wf(),
        ensures
            final(r).wf(),
            final(r).bytes() == old(r).bytes(),
            final(r).fd_bytes() == old(r).fd_bytes(),
            match res {
                Ok(e) => final(r).cursor() == Self::spec_end(
                    old(r).bytes(),
                    old(r).fd_bytes(),
                    old(r).cursor(),
                ) && e.spec_decoded(source_id, old(r).bytes(), old(r).fd_bytes(), old(r).cursor()),
                Err(e) => Self::spec_end(old(r).bytes(), old(r).fd_bytes(), old(r).cursor()).fault
                    == Some(e),
            },
    {
        Ok(WlTouchCancelEvent { source_id })
    }
}

/// `wl_touch.shape`
///
/// Sent when a touchpoint has changed its shape.
#[derive(Debug)]
pub struct WlTouchShapeEvent {
    /// The object the event came from.
    pub source_id: u32,
    /// The unique ID of this touch point.
    pub id: i32,
    /// Length of the major axis in surface-local coordinates.
    pub major: Fixed,
    /// Length of the minor axis in surface-local coordinates.
    pub minor: Fixed,
}

impl WlTouchShapeEvent {
    /// Where a cursor that stood at the first argument stands after the last.
    pub open spec fn spec_end(b: Seq<u8>, fds: Seq<u8>, c: Cursor) -> Cursor {
        c.word().word().word()
    }

    /// Whether `self` is what the arguments under the cursor `c` decode to.
    pub open spec fn spec_decoded(&self, source_id: u32, b: Seq<u8>, fds: Seq<u8>, c: Cursor) -> bool {
        &&& self.source_id == source_id
        &&& self.id == c.int_val(b)
        &&& self.major.0 == c.word().word_val(b)
        &&& self.minor.0 == c.word().word().word_val(b)
    }

    /// Reads the arguments of the event at the reader's place.
    pub fn decode(r: &mut Reader, source_id: u32) -> (res: Result<Self, WireError>)
        requires
            old(r).wf(),
        ensures
            final(r).wf(),
            final(r).bytes() == old(r).bytes(),
            final(r).fd_bytes() == old(r).fd_bytes(),
            match res {
                Ok(e) => final(r).cursor() == Self::spec_end(
                    old(r).bytes(),
                    old(r).fd_bytes(),
                    old(r).cursor(),
                ) && e.spec_decoded(source_id, old(r).bytes(), old(r).fd_bytes(), old(r).cursor()),
                Err(e) => Self::spec_end(old(r).bytes(), old(r).fd_bytes(), old(r).cursor()).fault
                    == Some(e),
            },
    {
        let id = r.get_int()?;
        let major_word = r.get_uint()?;
        let major = Fixed::new(major_word);
        let minor_word = r.get_uint()?;
        let minor = Fixed::new(minor_word);
        Ok(WlTouchShapeEvent { source_id, id, major, minor })
    }
}

/// `wl_touch.orientation`
///
/// Sent when a touchpoint has changed its orientation.
#[derive(Debug)]
pub struct WlTouchOrientationEvent {
    /// The object the event came from.
    pub source_id: u32,
    /// The unique ID of this touch point.
    pub id: i32,
    /// Angle between major axis and positive surface y-axis in degrees.
    pub orientation: Fixed,
}

impl WlTouchOrientationEvent {
    /// Where a cursor that stood at the first argument stands after the last.
    pub open spec fn spec_end(b: Seq<u8>, fds: Seq<u8>, c: Cursor) -> Cursor {
        c.word().word()
    }

    /// Whether `self` is what the arguments under the cursor `c` decode to.
    pub open spec fn spec_decoded(&self, source_id: u32, b: Seq<u8>, fds: Seq<u8>, c: Cursor) -> bool {
        &&& self.source_id == source_id
        &&& self.id == c.int_val(b)
        &&& self.orientation.0 == c.word().word_val(b)
    }

    /// Reads the arguments of the event at the reader's place.
    pub fn decode(r: &mut Reader, source_id: u32) -> (res: Result<Self, WireError>)
        requires
            old(r).wf(),
        ensures
            final(r).wf(),
            final(r).bytes() == old(r).bytes(),
            final(r).fd_bytes() == old(r).fd_bytes(),
            match res {
                Ok(e) => final(r).cursor() == Self::spec_end(
                    old(r).bytes(),
                    old(r).fd_bytes(),
                    old(r).cursor(),
                ) && e.spec_decoded(source_id, old(r).bytes(), old(r).fd_bytes(), old(r).cursor()),
                Err(e) => Self::spec_end(old(r).bytes(), old(r).fd_bytes(), old(r).cursor()).fault
                    == Some(e),
            },
    {
        let id = r.get_int()?;
        let orientation_word = r.get_uint()?;
        let orientation = Fixed::new(orientation_word);
        Ok(WlTouchOrientationEvent { source_id, id, orientation })
    }
}

/// `wl_output.geometry`
///
/// The geometry event describes geometric properties of the output. The event
/// is sent when binding to the output object and whenever any of the properties
/// change.
#[derive(Debug)]
pub struct WlOutputGeometryEvent {
    /// The object the event came from.
    pub source_id: u32,
    /// X position within the global compositor space.
    pub x: i32,
    /// Y position within the global compositor space.
    pub y: i32,
    /// Width in millimeters of the output.
    pub physical_width: i32,
    /// Height in millimeters of the output.
    pub physical_height: i32,
    /// Subpixel orientation of the output.
    pub subpixel: enums::WlOutputSubpixel,
    /// Textual description of the manufacturer.
    pub make: String,
    /// Textual description of the model.
    pub model: String,
    /// Transform that maps framebuffer to output.
    pub transform: enums::WlOutputTransform,
}

impl WlOutputGeometryEvent {
    /// Where a cursor that stood at the first argument stands after the last.
    pub open spec fn spec_end(b: Seq<u8>, fds: Seq<u8>, c: Cursor) -> Cursor {
        c.word().word().word().word().word().string(b).string(b).word()
    }

    /// Whether `self` is what the arguments under the cursor `c` decode to.
    pub open spec fn spec_decoded(&self, source_id: u32, b: Seq<u8>, fds: Seq<u8>, c: Cursor) -> bool {
        &&& self.source_id == source_id
        &&& self.x == c.int_val(b)
        &&& self.y == c.word().int_val(b)
        &&& self.physical_width == c.word().word().int_val(b)
        &&& self.physical_height == c.word().word().word().int_val(b)
        &&& self.subpixel == enums::WlOutputSubpixel::spec_from(c.word().word().word().word().word_val(b))
        &&& self.make@ == c.word().word().word().word().word().string_val(b)
        &&& self.model@ == c.word().word().word().word().word().string(b).string_val(b)
        &&& self.transform == enums::WlOutputTransform::spec_from(c.word().word().word().word().word().string(b).string(b).word_val(b))
    }

    /// Reads the arguments of the event at the reader's place.
    pub fn decode(r: &mut Reader, source_id: u32) -> (res: Result<Self, WireError>)
        requires
            old(r).wf(),
        ensures
            final(r).wf(),
            final(r).bytes() == old(r).bytes(),
            final(r).fd_bytes() == old(r).fd_bytes(),
            match res {
                Ok(e) => final(r).cursor() == Self::spec_end(
                    old(r).bytes(),
                    old(r).fd_bytes(),
                    old(r).cursor(),
                ) && e.spec_decoded(source_id, old(r).bytes(), old(r).fd_bytes(), old(r).cursor()),
                Err(e) => Self::spec_end(old(r).bytes(), old(r).fd_bytes(), old(r).cursor()).fault
                    == Some(e),
            },
    {
        let x = r.get_int()?;
        let y = r.get_int()?;
        let physical_width = r.get_int()?;
        let physical_height = r.get_int()?;
        let subpixel_word = r.get_uint()?;
        let subpixel = enums::WlOutputSubpixel::from(subpixel_word);
        let make = r.get_str()?;
        let model = r.get_str()?;
        let transform_word = r.get_uint()?;
        let transform = enums::WlOutputTransform::from(transform_word);
        Ok(WlOutputGeometryEvent { source_id, x, y, physical_width, physical_height, subpixel, make, model, transform })
    }
}

/// `wl_output.mode`
///
/// The mode event describes an available mode for the output.
#[derive(Debug)]
pub struct WlOutputModeEvent {
    /// The object the event came from.
    pub source_id: u32,
    /// Bitfield of mode flags.
    pub flags: enums::WlOutputMode,
    /// Width of the mode in hardware units.
    pub width: i32,
    /// Height of the mode in hardware units.
    pub height: i32,
    /// Vertical refresh rate in mHz.
    pub refresh: i32,
}

impl WlOutputModeEvent {
    /// Where a cursor that stood at the first argument stands after the last.
    pub open spec fn spec_end(b: Seq<u8>, fds: Seq<u8>, c: Cursor) -> Cursor {
        c.word().word().word().word()
    }

    /// Whether `self` is what the arguments under the cursor `c` decode to.
    pub open spec fn spec_decoded(&self, source_id: u32, b: Seq<u8>, fds: Seq<u8>, c: Cursor) -> bool {
        &&& self.source_id == source_id
        &&& self.flags.bits() == c.word_val(b)
        &&& self.width == c.word().int_val(b)
        &&& self.height == c.word().word().int_val(b)
        &&& self.refresh == c.word().word().word().int_val(b)
    }

    /// Reads the arguments of the event at the reader's place.
    pub fn decode(r: &mut Reader, source_id: u32) -> (res: Result<Self, WireError>)
        requires
            old(r).wf(),
        ensures
            final(r).wf(),
            final(r).bytes() == old(r).bytes(),
            final(r).fd_bytes() == old(r).fd_bytes(),
            match res {
                Ok(e) => final(r).cursor() == Self::spec_end(
                    old(r).bytes(),
                    old(r).fd_bytes(),
                    old(r).cursor(),
                ) && e.spec_decoded(source_id, old(r).bytes(), old(r).fd_bytes(), old(r).cursor()),
                Err(e) => Self::spec_end(old(r).bytes(), old(r).fd_bytes(), old(r).cursor()).fault
                    == Some(e),
            },
    {
        let flags_word = r.get_uint()?;
        let flags = enums::WlOutputMode::from_bits(flags_word);
        let width = r.get_int()?;
        let height = r.get_int()?;
        let refresh = r.get_int()?;
        Ok(WlOutputModeEvent { source_id, flags, width, height, refresh })
    }
}

/// `wl_output.done`
///
/// This event is sent after all other properties have been sent after binding
/// to the output object and after any other property changes done after that.
#[derive(Debug)]
pub struct WlOutputDoneEvent {
    /// The object the event came from.
    pub source_id: u32,
}

impl WlOutputDoneEvent {
    /// Where a cursor that stood at the first argument stands after the last.
    pub open spec fn spec_end(b: Seq<u8>, fds: Seq<u8>, c: Cursor) -> Cursor {
        c
    }

    /// Whether `self` is what the arguments under the cursor `c` decode to.
    pub open spec fn spec_decoded(&self, source_id: u32, b: Seq<u8>, fds: Seq<u8>, c: Cursor) -> bool {
        &&& self.source_id == source_id
    }

    /// Reads the arguments of the event at the reader's place.
    pub fn decode(r: &mut Reader, source_id: u32) -> (res: Result<Self, WireError>)
        requires
            old(r).wf(),
        ensures
            final(r).wf(),
            final(r).bytes() == old(r).bytes(),
            final(r).fd_bytes() == old(r).fd_bytes(),
            match res {
                Ok(e) => final(r).cursor() == Self::spec_end(
                    old(r).bytes(),
                    old(r).fd_bytes(),
                    old(r).cursor(),
                ) && e.spec_decoded(source_id, old(r).bytes(), old(r).fd_bytes(), old(r).cursor()),
                Err(e) => Self::spec_end(old(r).bytes(), old(r).fd_bytes(), old(r).cursor()).fault
                    == Some(e),
            },
    {
        Ok(WlOutputDoneEvent { source_id })
    }
}

/// `wl_output.scale`
///
/// This event contains scaling geometry information that is not in the geometry
/// event. It may be sent after binding the output object or if the output scale
/// changes later.
#[derive(Debug)]
pub struct WlOutputScaleEvent {
    /// The object the event came from.
    pub source_id: u32,
    /// Scaling factor of output.
    pub factor: i32,
}

impl WlOutputScaleEvent {
    /// Where a cursor that stood at the first argument stands after the last.
    pub open spec fn spec_end(b: Seq<u8>, fds: Seq<u8>, c: Cursor) -> Cursor {
        c.word()
    }

    /// Whether `self` is what the arguments under the cursor `c` decode to.
    pub open spec fn spec_decoded(&self, source_id: u32, b: Seq<u8>, fds: Seq<u8>, c: Cursor) -> bool {
        &&& self.source_id == source_id
        &&& self.factor == c.int_val(b)
    }

    /// Reads the arguments of the event at the reader's place.
    pub fn decode(r: &mut Reader, source_id: u32) -> (res: Result<Self, WireError>)
        requires
            old(r).wf(),
        ensures
            final(r).wf(),
            final(r).bytes() == old(r).bytes(),
            final(r).fd_bytes() == old(r).fd_bytes(),
            match res {
                Ok(e) => final(r).cursor() == Self::spec_end(
                    old(r).bytes(),
                    old(r).fd_bytes(),
                    old(r).cursor(),
                ) && e.spec_decoded(source_id, old(r).bytes(), old(r).fd_bytes(), old(r).cursor()),
                Err(e) => Self::spec_end(old(r).bytes(), old(r).fd_bytes(), old(r).cursor()).fault
                    == Some(e),
            },
    {
        let factor = r.get_int()?;
        Ok(WlOutputScaleEvent { source_id, factor })
    }
}

/// `wl_output.name`
///
/// Many compositors will assign user-friendly names to their outputs, show them
/// to the user, allow the user to refer to an output, etc. The client may wish
/// to know this name as well to offer the user similar behaviors.
#[derive(Debug)]
pub struct WlOutputNameEvent {
    /// The object the event came from.
    pub source_id: u32,
    /// Output name.
    pub name: String,
}

impl WlOutputNameEvent {
    /// Where a cursor that stood at the first argument stands after the last.
    pub open spec fn spec_end(b: Seq<u8>, fds: Seq<u8>, c: Cursor) -> Cursor {
        c.string(b)
    }

    /// Whether `self` is what the arguments under the cursor `c` decode to.
    pub open spec fn spec_decoded(&self, source_id: u32, b: Seq<u8>, fds: Seq<u8>, c: Cursor) -> bool {
        &&& self.source_id == source_id
        &&& self.name@ == c.string_val(b)
    }

    /// Reads the arguments of the event at the reader's place.
    pub fn decode(r: &mut Reader, source_id: u32) -> (res: Result<Self, WireError>)
        requires
            old(r).wf(),
        ensures
            final(r).wf(),
            final(r).bytes() == old(r).bytes(),
            final(r).fd_bytes() == old(r).fd_bytes(),
            match res {
                Ok(e) => final(r).cursor() == Self::spec_end(
                    old(r).bytes(),
                    old(r).fd_bytes(),
                    old(r).cursor(),
                ) && e.spec_decoded(source_id, old(r).bytes(), old(r).fd_bytes(), old(r).cursor()),
                Err(e) => Self::spec_end(old(r).bytes(), old(r).fd_bytes(), old(r).cursor()).fault
                    == Some(e),
            },
    {
        let name = r.get_str()?;
        Ok(WlOutputNameEvent { source_id, name })
    }
}

/// `wl_output.description`
///
/// Many compositors can produce human-readable descriptions of their outputs.
/// The client may wish to know this description as well, e.g. for output
/// selection purposes.
#[derive(Debug)]
pub struct WlOutputDescriptionEvent {
    /// The object the event came from.
    pub source_id: u32,
    /// Output description.
    pub description: String,
}

impl WlOutputDescriptionEvent {
    /// Where a cursor that stood at the first argument stands after the last.
    pub open spec fn spec_end(b: Seq<u8>, fds: Seq<u8>, c: Cursor) -> Cursor {
        c.string(b)
    }

    /// Whether `self` is what the arguments under the cursor `c` decode to.
    pub open spec fn spec_decoded(&self, source_id: u32, b: Seq<u8>, fds: Seq<u8>, c: Cursor) -> bool {
        &&& self.source_id == source_id
        &&& self.description@ == c.string_val(b)
    }

    /// Reads the arguments of the event at the reader's place.
    pub fn decode(r: &mut Reader, source_id: u32) -> (res: Result<Self, WireError>)
        requires
            old(r).wf(),
        ensures
            final(r).wf(),
            final(r).bytes() == old(r).bytes(),
            final(r).fd_bytes() == old(r).fd_bytes(),
            match res {
                Ok(e) => final(r).cursor() == Self::spec_end(
                    old(r).bytes(),
                    old(r).fd_bytes(),
                    old(r).cursor(),
                ) && e.spec_decoded(source_id, old(r).bytes(), old(r).fd_bytes(), old(r).cursor()),
                Err(e) => Self::spec_end(old(r).bytes(), old(r).fd_bytes(), old(r).cursor()).fault
                    == Some(e),
            },
    {
        let description = r.get_str()?;
        Ok(WlOutputDescriptionEvent { source_id, description })
    }
}

/// Any event the library knows.
#[derive(Debug)]
pub enum Event {
    XdgWmBasePing(XdgWmBasePingEvent),
    XdgSurfaceConfigure(XdgSurfaceConfigureEvent),
    XdgToplevelConfigure(XdgToplevelConfigureEvent),
    XdgToplevelClose(XdgToplevelCloseEvent),
    XdgToplevelConfigureBounds(XdgToplevelConfigureBoundsEvent),
    XdgToplevelWmCapabilities(XdgToplevelWmCapabilitiesEvent),
    XdgPopupConfigure(XdgPopupConfigureEvent),
    XdgPopupPopupDone(XdgPopupPopupDoneEvent),
    XdgPopupRepositioned(XdgPopupRepositionedEvent),
    WlDisplaySyncDone(WlDisplaySyncDoneEvent),
    WlDisplayError(WlDisplayErrorEvent),
    WlDisplayDeleteId(WlDisplayDeleteIdEvent),
    WlRegistryGlobal(WlRegistryGlobalEvent),
    WlRegistryGlobalRemove(WlRegistryGlobalRemoveEvent),
    WlShmFormat(WlShmFormatEvent),
    WlBufferRelease(WlBufferReleaseEvent),
    WlDataOfferOffer(WlDataOfferOfferEvent),
    WlDataOfferSourceActions(WlDataOfferSourceActionsEvent),
    WlDataOfferAction(WlDataOfferActionEvent),
    WlDataSourceTarget(WlDataSourceTargetEvent),
    WlDataSourceSend(WlDataSourceSendEvent),
    WlDataSourceCancelled(WlDataSourceCancelledEvent),
    WlDataSourceDndDropPerformed(WlDataSourceDndDropPerformedEvent),
    WlDataSourceDndFinished(WlDataSourceDndFinishedEvent),
    WlDataSourceAction(WlDataSourceActionEvent),
    WlDataDeviceDataOffer(WlDataDeviceDataOfferEvent),
    WlDataDeviceEnter(WlDataDeviceEnterEvent),
    WlDataDeviceLeave(WlDataDeviceLeaveEvent),
    WlDataDeviceMotion(WlDataDeviceMotionEvent),
    WlDataDeviceDrop(WlDataDeviceDropEvent),
    WlDataDeviceSelection(WlDataDeviceSelectionEvent),
    WlShellSurfacePing(WlShellSurfacePingEvent),
    WlShellSurfaceConfigure(WlShellSurfaceConfigureEvent),
    WlShellSurfacePopupDone(WlShellSurfacePopupDoneEvent),
    WlSurfaceFrameDone(WlSurfaceFrameDoneEvent),
    WlSurfaceEnter(WlSurfaceEnterEvent),
    WlSurfaceLeave(WlSurfaceLeaveEvent),
    WlSurfacePreferredBufferScale(WlSurfacePreferredBufferScaleEvent),
    WlSurfacePreferredBufferTransform(WlSurfacePreferredBufferTransformEvent),
    WlSeatCapabilities(WlSeatCapabilitiesEvent),
    WlSeatName(WlSeatNameEvent),
    WlPointerEnter(WlPointerEnterEvent),
    WlPointerLeave(WlPointerLeaveEvent),
    WlPointerMotion(WlPointerMotionEvent),
    WlPointerButton(WlPointerButtonEvent),
    WlPointerAxis(WlPointerAxisEvent),
    WlPointerFrame(WlPointerFrameEvent),
    WlPointerAxisSource(WlPointerAxisSourceEvent),
    WlPointerAxisStop(WlPointerAxisStopEvent),
    WlPointerAxisDiscrete(WlPointerAxisDiscreteEvent),
    WlPointerAxisValue120(WlPointerAxisValue120Event),
    WlPointerAxisRelativeDirection(WlPointerAxisRelativeDirectionEvent),
    WlKeyboardKeymap(WlKeyboardKeymapEvent),
    WlKeyboardEnter(WlKeyboardEnterEvent),
    WlKeyboardLeave(WlKeyboardLeaveEvent),
    WlKeyboardKey(WlKeyboardKeyEvent),
    WlKeyboardModifiers(WlKeyboardModifiersEvent),
    WlKeyboardRepeatInfo(WlKeyboardRepeatInfoEvent),
    WlTouchDown(WlTouchDownEvent),
    WlTouchUp(WlTouchUpEvent),
    WlTouchMotion(WlTouchMotionEvent),
    WlTouchFrame(WlTouchFrameEvent),
    WlTouchCancel(WlTouchCancelEvent),
    WlTouchShape(WlTouchShapeEvent),
    WlTouchOrientation(WlTouchOrientationEvent),
    WlOutputGeometry(WlOutputGeometryEvent),
    WlOutputMode(WlOutputModeEvent),
    WlOutputDone(WlOutputDoneEvent),
    WlOutputScale(WlOutputScaleEvent),
    WlOutputName(WlOutputNameEvent),
    WlOutputDescription(WlOutputDescriptionEvent),
}

impl Event {
    /// Whether objects of the interface `tag` send events at all.
    pub open spec fn spec_has_events(tag: Object) -> bool {
        match tag {
            Object::Null => false,
            Object::XdgPositioner => false,
            Object::WlCompositor => false,
            Object::WlShmPool => false,
            Object::WlDataDeviceManager => false,
            Object::WlShell => false,
            Object::WlRegion => false,
            Object::WlSubcompositor => false,
            Object::WlSubsurface => false,
            _ => true,
        }
    }

    /// Whether `opcode` numbers an event of the interface `tag` that the
    /// library knows.
    pub open spec fn spec_known(tag: Object, opcode: u16) -> bool {
        match tag {
            Object::XdgWmBase => opcode < 1,
            Object::XdgSurface => opcode < 1,
            Object::XdgToplevel => opcode < 4,
            Object::XdgPopup => opcode < 3,
            Object::WlDisplaySyncCallback => opcode < 1,
            Object::WlDisplay => opcode < 2,
            Object::WlRegistry => opcode < 2,
            Object::WlShm => opcode < 1,
            Object::WlBuffer => opcode < 1,
            Object::WlDataOffer => opcode < 3,
            Object::WlDataSource => opcode < 6,
            Object::WlDataDevice => opcode < 6,
            Object::WlShellSurface => opcode < 3,
            Object::WlSurfaceFrameCallback => opcode < 1,
            Object::WlSurface => opcode < 4,
            Object::WlSeat => opcode < 2,
            Object::WlPointer => opcode < 11,
            Object::WlKeyboard => opcode < 6,
            Object::WlTouch => opcode < 7,
            Object::WlOutput => opcode < 6,
            _ => false,
        }
    }

    /// Where a cursor that stood at the first argument of the event
    /// `opcode` of `tag` stands after the last.
    #[verifier::opaque]
    pub open spec fn spec_end(tag: Object, opcode: u16, b: Seq<u8>, fds: Seq<u8>, c: Cursor) -> Cursor {
        match tag {
            Object::XdgWmBase => match opcode {
                0 => XdgWmBasePingEvent::spec_end(b, fds, c),
                _ => c,
            },
            Object::XdgSurface => match opcode {
                0 => XdgSurfaceConfigureEvent::spec_end(b, fds, c),
                _ => c,
            },
            Object::XdgToplevel => match opcode {
                0 => XdgToplevelConfigureEvent::spec_end(b, fds, c),
                1 => XdgToplevelCloseEvent::spec_end(b, fds, c),
                2 => XdgToplevelConfigureBoundsEvent::spec_end(b, fds, c),
                3 => XdgToplevelWmCapabilitiesEvent::spec_end(b, fds, c),
                _ => c,
            },
            Object::XdgPopup => match opcode {
                0 => XdgPopupConfigureEvent::spec_end(b, fds, c),
                1 => XdgPopupPopupDoneEvent::spec_end(b, fds, c),
                2 => XdgPopupRepositionedEvent::spec_end(b, fds, c),
                _ => c,
            },
            Object::WlDisplaySyncCallback => match opcode {
                0 => WlDisplaySyncDoneEvent::spec_end(b, fds, c),
                _ => c,
            },
            Object::WlDisplay => match opcode {
                0 => WlDisplayErrorEvent::spec_end(b, fds, c),
                1 => WlDisplayDeleteIdEvent::spec_end(b, fds, c),
                _ => c,
            },
            Object::WlRegistry => match opcode {
                0 => WlRegistryGlobalEvent::spec_end(b, fds, c),
                1 => WlRegistryGlobalRemoveEvent::spec_end(b, fds, c),
                _ => c,
            },
            Object::WlShm => match opcode {
                0 => WlShmFormatEvent::spec_end(b, fds, c),
                _ => c,
            },
            Object::WlBuffer => match opcode {
                0 => WlBufferReleaseEvent::spec_end(b, fds, c),
                _ => c,
            },
            Object::WlDataOffer => match opcode {
                0 => WlDataOfferOfferEvent::spec_end(b, fds, c),
                1 => WlDataOfferSourceActionsEvent::spec_end(b, fds, c),
                2 => WlDataOfferActionEvent::spec_end(b, fds, c),
                _ => c,
            },
            Object::WlDataSource => match opcode {
                0 => WlDataSourceTargetEvent::spec_end(b, fds, c),
                1 => WlDataSourceSendEvent::spec_end(b, fds, c),
                2 => WlDataSourceCancelledEvent::spec_end(b, fds, c),
                3 => WlDataSourceDndDropPerformedEvent::spec_end(b, fds, c),
                4 => WlDataSourceDndFinishedEvent::spec_end(b, fds, c),
                5 => WlDataSourceActionEvent::spec_end(b, fds, c),
                _ => c,
            },
            Object::WlDataDevice => match opcode {
                0 => WlDataDeviceDataOfferEvent::spec_end(b, fds, c),
                1 => WlDataDeviceEnterEvent::spec_end(b, fds, c),
                2 => WlDataDeviceLeaveEvent::spec_end(b, fds, c),
                3 => WlDataDeviceMotionEvent::spec_end(b, fds, c),
                4 => WlDataDeviceDropEvent::spec_end(b, fds, c),
                5 => WlDataDeviceSelectionEvent::spec_end(b, fds, c),
                _ => c,
            },
            Object::WlShellSurface => match opcode {
                0 => WlShellSurfacePingEvent::spec_end(b, fds, c),
                1 => WlShellSurfaceConfigureEvent::spec_end(b, fds, c),
                2 => WlShellSurfacePopupDoneEvent::spec_end(b, fds, c),
                _ => c,
            },
            Object::WlSurfaceFrameCallback => match opcode {
                0 => WlSurfaceFrameDoneEvent::spec_end(b, fds, c),
                _ => c,
            },
            Object::WlSurface => match opcode {
                0 => WlSurfaceEnterEvent::spec_end(b, fds, c),
                1 => WlSurfaceLeaveEvent::spec_end(b, fds, c),
                2 => WlSurfacePreferredBufferScaleEvent::spec_end(b, fds, c),
                3 => WlSurfacePreferredBufferTransformEvent::spec_end(b, fds, c),
                _ => c,
            },
            Object::WlSeat => match opcode {
                0 => WlSeatCapabilitiesEvent::spec_end(b, fds, c),
                1 => WlSeatNameEvent::spec_end(b, fds, c),
                _ => c,
            },
            Object::WlPointer => match opcode {
                0 => WlPointerEnterEvent::spec_end(b, fds, c),
                1 => WlPointerLeaveEvent::spec_end(b, fds, c),
                2 => WlPointerMotionEvent::spec_end(b, fds, c),
                3 => WlPointerButtonEvent::spec_end(b, fds, c),
                4 => WlPointerAxisEvent::spec_end(b, fds, c),
                5 => WlPointerFrameEvent::spec_end(b, fds, c),
                6 => WlPointerAxisSourceEvent::spec_end(b, fds, c),
                7 => WlPointerAxisStopEvent::spec_end(b, fds, c),
                8 => WlPointerAxisDiscreteEvent::spec_end(b, fds, c),
                9 => WlPointerAxisValue120Event::spec_end(b, fds, c),
                10 => WlPointerAxisRelativeDirectionEvent::spec_end(b, fds, c),
                _ => c,
            },
            Object::WlKeyboard => match opcode {
                0 => WlKeyboardKeymapEvent::spec_end(b, fds, c),
                1 => WlKeyboardEnterEvent::spec_end(b, fds, c),
                2 => WlKeyboardLeaveEvent::spec_end(b, fds, c),
                3 => WlKeyboardKeyEvent::spec_end(b, fds, c),
                4 => WlKeyboardModifiersEvent::spec_end(b, fds, c),
                5 => WlKeyboardRepeatInfoEvent::spec_end(b, fds, c),
                _ => c,
            },
            Object::WlTouch => match opcode {
                0 => WlTouchDownEvent::spec_end(b, fds, c),
                1 => WlTouchUpEvent::spec_end(b, fds, c),
                2 => WlTouchMotionEvent::spec_end(b, fds, c),
                3 => WlTouchFrameEvent::spec_end(b, fds, c),
                4 => WlTouchCancelEvent::spec_end(b, fds, c),
                5 => WlTouchShapeEvent::spec_end(b, fds, c),
                6 => WlTouchOrientationEvent::spec_end(b, fds, c),
                _ => c,
            },
            Object::WlOutput => match opcode {
                0 => WlOutputGeometryEvent::spec_end(b, fds, c),
                1 => WlOutputModeEvent::spec_end(b, fds, c),
                2 => WlOutputDoneEvent::spec_end(b, fds, c),
                3 => WlOutputScaleEvent::spec_end(b, fds, c),
                4 => WlOutputNameEvent::spec_end(b, fds, c),
                5 => WlOutputDescriptionEvent::spec_end(b, fds, c),
                _ => c,
            },
            _ => c,
        }
    }

    /// Whether `self` is the event `opcode` of the interface `tag` with the
    /// arguments under the cursor `c`, sent by `source_id`.
    #[verifier::opaque]
    pub open spec fn spec_decoded(
        &self,
        tag: Object,
        opcode: u16,
        source_id: u32,
        b: Seq<u8>,
        fds: Seq<u8>,
        c: Cursor,
    ) -> bool {
        match self {
            Event::XdgWmBasePing(e) => tag == Object::XdgWmBase && opcode == 0 && e.spec_decoded(
                source_id,
                b,
                fds,
                c,
            ),
            Event::XdgSurfaceConfigure(e) => tag == Object::XdgSurface && opcode == 0 && e.spec_decoded(
                source_id,
                b,
                fds,
                c,
            ),
            Event::XdgToplevelConfigure(e) => tag == Object::XdgToplevel && opcode == 0 && e.spec_decoded(
                source_id,
                b,
                fds,
                c,
            ),
            Event::XdgToplevelClose(e) => tag == Object::XdgToplevel && opcode == 1 && e.spec_decoded(
                source_id,
                b,
                fds,
                c,
            ),
            Event::XdgToplevelConfigureBounds(e) => tag == Object::XdgToplevel && opcode == 2 && e.spec_decoded(
                source_id,
                b,
                fds,
                c,
            ),
            Event::XdgToplevelWmCapabilities(e) => tag == Object::XdgToplevel && opcode == 3 && e.spec_decoded(
                source_id,
                b,
                fds,
                c,
            ),
            Event::XdgPopupConfigure(e) => tag == Object::XdgPopup && opcode == 0 && e.spec_decoded(
                source_id,
                b,
                fds,
                c,
            ),
            Event::XdgPopupPopupDone(e) => tag == Object::XdgPopup && opcode == 1 && e.spec_decoded(
                source_id,
                b,
                fds,
                c,
            ),
            Event::XdgPopupRepositioned(e) => tag == Object::XdgPopup && opcode == 2 && e.spec_decoded(
                source_id,
                b,
                fds,
                c,
            ),
            Event::WlDisplaySyncDone(e) => tag == Object::WlDisplaySyncCallback && opcode == 0 && e.spec_decoded(
                source_id,
                b,
                fds,
                c,
            ),
            Event::WlDisplayError(e) => tag == Object::WlDisplay && opcode == 0 && e.spec_decoded(
                source_id,
                b,
                fds,
                c,
            ),
            Event::WlDisplayDeleteId(e) => tag == Object::WlDisplay && opcode == 1 && e.spec_decoded(
                source_id,
                b,
                fds,
                c,
            ),
            Event::WlRegistryGlobal(e) => tag == Object::WlRegistry && opcode == 0 && e.spec_decoded(
                source_id,
                b,
                fds,
                c,
            ),
            Event::WlRegistryGlobalRemove(e) => tag == Object::WlRegistry && opcode == 1 && e.spec_decoded(
                source_id,
                b,
                fds,
                c,
            ),
            Event::WlShmFormat(e) => tag == Object::WlShm && opcode == 0 && e.spec_decoded(
                source_id,
                b,
                fds,
                c,
            ),
            Event::WlBufferRelease(e) => tag == Object::WlBuffer && opcode == 0 && e.spec_decoded(
                source_id,
                b,
                fds,
                c,
            ),
            Event::WlDataOfferOffer(e) => tag == Object::WlDataOffer && opcode == 0 && e.spec_decoded(
                source_id,
                b,
                fds,
                c,
            ),
            Event::WlDataOfferSourceActions(e) => tag == Object::WlDataOffer && opcode == 1 && e.spec_decoded(
                source_id,
                b,
                fds,
                c,
            ),
            Event::WlDataOfferAction(e) => tag == Object::WlDataOffer && opcode == 2 && e.spec_decoded(
                source_id,
                b,
                fds,
                c,
            ),
            Event::WlDataSourceTarget(e) => tag == Object::WlDataSource && opcode == 0 && e.spec_decoded(
                source_id,
                b,
                fds,
                c,
            ),
            Event::WlDataSourceSend(e) => tag == Object::WlDataSource && opcode == 1 && e.spec_decoded(
                source_id,
                b,
                fds,
                c,
            ),
            Event::WlDataSourceCancelled(e) => tag == Object::WlDataSource && opcode == 2 && e.spec_decoded(
                source_id,
                b,
                fds,
                c,
            ),
            Event::WlDataSourceDndDropPerformed(e) => tag == Object::WlDataSource && opcode == 3 && e.spec_decoded(
                source_id,
                b,
                fds,
                c,
            ),
            Event::WlDataSourceDndFinished(e) => tag == Object::WlDataSource && opcode == 4 && e.spec_decoded(
                source_id,
                b,
                fds,
                c,
            ),
            Event::WlDataSourceAction(e) => tag == Object::WlDataSource && opcode == 5 && e.spec_decoded(
                source_id,
                b,
                fds,
                c,
            ),
            Event::WlDataDeviceDataOffer(e) => tag == Object::WlDataDevice && opcode == 0 && e.spec_decoded(
                source_id,
                b,
                fds,
                c,
            ),
            Event::WlDataDeviceEnter(e) => tag == Object::WlDataDevice && opcode == 1 && e.spec_decoded(
                source_id,
                b,
                fds,
                c,
            ),
            Event::WlDataDeviceLeave(e) => tag == Object::WlDataDevice && opcode == 2 && e.spec_decoded(
                source_id,
                b,
                fds,
                c,
            ),
            Event::WlDataDeviceMotion(e) => tag == Object::WlDataDevice && opcode == 3 && e.spec_decoded(
                source_id,
                b,
                fds,
                c,
            ),
            Event::WlDataDeviceDrop(e) => tag == Object::WlDataDevice && opcode == 4 && e.spec_decoded(
                source_id,
                b,
                fds,
                c,
            ),
            Event::WlDataDeviceSelection(e) => tag == Object::WlDataDevice && opcode == 5 && e.spec_decoded(
                source_id,
                b,
                fds,
                c,
            ),
            Event::WlShellSurfacePing(e) => tag == Object::WlShellSurface && opcode == 0 && e.spec_decoded(
                source_id,
                b,
                fds,
                c,
            ),
            Event::WlShellSurfaceConfigure(e) => tag == Object::WlShellSurface && opcode == 1 && e.spec_decoded(
                source_id,
                b,
                fds,
                c,
            ),
            Event::WlShellSurfacePopupDone(e) => tag == Object::WlShellSurface && opcode == 2 && e.spec_decoded(
                source_id,
                b,
                fds,
                c,
            ),
            Event::WlSurfaceFrameDone(e) => tag == Object::WlSurfaceFrameCallback && opcode == 0 && e.spec_decoded(
                source_id,
                b,
                fds,
                c,
            ),
            Event::WlSurfaceEnter(e) => tag == Object::WlSurface && opcode == 0 && e.spec_decoded(
                source_id,
                b,
                fds,
                c,
            ),
            Event::WlSurfaceLeave(e) => tag == Object::WlSurface && opcode == 1 && e.spec_decoded(
                source_id,
                b,
                fds,
                c,
            ),
            Event::WlSurfacePreferredBufferScale(e) => tag == Object::WlSurface && opcode == 2 && e.spec_decoded(
                source_id,
                b,
                fds,
                c,
            ),
            Event::WlSurfacePreferredBufferTransform(e) => tag == Object::WlSurface && opcode == 3 && e.spec_decoded(
                source_id,
                b,
                fds,
                c,
            ),
            Event::WlSeatCapabilities(e) => tag == Object::WlSeat && opcode == 0 && e.spec_decoded(
                source_id,
                b,
                fds,
                c,
            ),
            Event::WlSeatName(e) => tag == Object::WlSeat && opcode == 1 && e.spec_decoded(
                source_id,
                b,
                fds,
                c,
            ),
            Event::WlPointerEnter(e) => tag == Object::WlPointer && opcode == 0 && e.spec_decoded(
                source_id,
                b,
                fds,
                c,
            ),
            Event::WlPointerLeave(e) => tag == Object::WlPointer && opcode == 1 && e.spec_decoded(
                source_id,
                b,
                fds,
                c,
            ),
            Event::WlPointerMotion(e) => tag == Object::WlPointer && opcode == 2 && e.spec_decoded(
                source_id,
                b,
                fds,
                c,
            ),
            Event::WlPointerButton(e) => tag == Object::WlPointer && opcode == 3 && e.spec_decoded(
                source_id,
                b,
                fds,
                c,
            ),
            Event::WlPointerAxis(e) => tag == Object::WlPointer && opcode == 4 && e.spec_decoded(
                source_id,
                b,
                fds,
                c,
            ),
            Event::WlPointerFrame(e) => tag == Object::WlPointer && opcode == 5 && e.spec_decoded(
                source_id,
                b,
                fds,
                c,
            ),
            Event::WlPointerAxisSource(e) => tag == Object::WlPointer && opcode == 6 && e.spec_decoded(
                source_id,
                b,
                fds,
                c,
            ),
            Event::WlPointerAxisStop(e) => tag == Object::WlPointer && opcode == 7 && e.spec_decoded(
                source_id,
                b,
                fds,
                c,
            ),
            Event::WlPointerAxisDiscrete(e) => tag == Object::WlPointer && opcode == 8 && e.spec_decoded(
                source_id,
                b,
                fds,
                c,
            ),
            Event::WlPointerAxisValue120(e) => tag == Object::WlPointer && opcode == 9 && e.spec_decoded(
                source_id,
                b,
                fds,
                c,
            ),
            Event::WlPointerAxisRelativeDirection(e) => tag == Object::WlPointer && opcode == 10 && e.spec_decoded(
                source_id,
                b,
                fds,
                c,
            ),
            Event::WlKeyboardKeymap(e) => tag == Object::WlKeyboard && opcode == 0 && e.spec_decoded(
                source_id,
                b,
                fds,
                c,
            ),
            Event::WlKeyboardEnter(e) => tag == Object::WlKeyboard && opcode == 1 && e.spec_decoded(
                source_id,
                b,
                fds,
                c,
            ),
            Event::WlKeyboardLeave(e) => tag == Object::WlKeyboard && opcode == 2 && e.spec_decoded(
                source_id,
                b,
                fds,
                c,
            ),
            Event::WlKeyboardKey(e) => tag == Object::WlKeyboard && opcode == 3 && e.spec_decoded(
                source_id,
                b,
                fds,
                c,
            ),
            Event::WlKeyboardModifiers(e) => tag == Object::WlKeyboard && opcode == 4 && e.spec_decoded(
                source_id,
                b,
                fds,
                c,
            ),
            Event::WlKeyboardRepeatInfo(e) => tag == Object::WlKeyboard && opcode == 5 && e.spec_decoded(
                source_id,
                b,
                fds,
                c,
            ),
            Event::WlTouchDown(e) => tag == Object::WlTouch && opcode == 0 && e.spec_decoded(
                source_id,
                b,
                fds,
                c,
            ),
            Event::WlTouchUp(e) => tag == Object::WlTouch && opcode == 1 && e.spec_decoded(
                source_id,
                b,
                fds,
                c,
            ),
            Event::WlTouchMotion(e) => tag == Object::WlTouch && opcode == 2 && e.spec_decoded(
                source_id,
                b,
                fds,
                c,
            ),
            Event::WlTouchFrame(e) => tag == Object::WlTouch && opcode == 3 && e.spec_decoded(
                source_id,
                b,
                fds,
                c,
            ),
            Event::WlTouchCancel(e) => tag == Object::WlTouch && opcode == 4 && e.spec_decoded(
                source_id,
                b,
                fds,
                c,
            ),
            Event::WlTouchShape(e) => tag == Object::WlTouch && opcode == 5 && e.spec_decoded(
                source_id,
                b,
                fds,
                c,
            ),
            Event::WlTouchOrientation(e) => tag == Object::WlTouch && opcode == 6 && e.spec_decoded(
                source_id,
                b,
                fds,
                c,
            ),
            Event::WlOutputGeometry(e) => tag == Object::WlOutput && opcode == 0 && e.spec_decoded(
                source_id,
                b,
                fds,
                c,
            ),
            Event::WlOutputMode(e) => tag == Object::WlOutput && opcode == 1 && e.spec_decoded(
                source_id,
                b,
                fds,
                c,
            ),
            Event::WlOutputDone(e) => tag == Object::WlOutput && opcode == 2 && e.spec_decoded(
                source_id,
                b,
                fds,
                c,
            ),
            Event::WlOutputScale(e) => tag == Object::WlOutput && opcode == 3 && e.spec_decoded(
                source_id,
                b,
                fds,
                c,
            ),
            Event::WlOutputName(e) => tag == Object::WlOutput && opcode == 4 && e.spec_decoded(
                source_id,
                b,
                fds,
                c,
            ),
            Event::WlOutputDescription(e) => tag == Object::WlOutput && opcode == 5 && e.spec_decoded(
                source_id,
                b,
                fds,
                c,
            ),
        }
    }

    /// The object the event came from.
    pub open spec fn spec_source_id(&self) -> u32 {
        match self {
            Event::XdgWmBasePing(e) => e.source_id,
            Event::XdgSurfaceConfigure(e) => e.source_id,
            Event::XdgToplevelConfigure(e) => e.source_id,
            Event::XdgToplevelClose(e) => e.source_id,
            Event::XdgToplevelConfigureBounds(e) => e.source_id,
            Event::XdgToplevelWmCapabilities(e) => e.source_id,
            Event::XdgPopupConfigure(e) => e.source_id,
            Event::XdgPopupPopupDone(e) => e.source_id,
            Event::XdgPopupRepositioned(e) => e.source_id,
            Event::WlDisplaySyncDone(e) => e.source_id,
            Event::WlDisplayError(e) => e.source_id,
            Event::WlDisplayDeleteId(e) => e.source_id,
            Event::WlRegistryGlobal(e) => e.source_id,
            Event::WlRegistryGlobalRemove(e) => e.source_id,
            Event::WlShmFormat(e) => e.source_id,
            Event::WlBufferRelease(e) => e.source_id,
            Event::WlDataOfferOffer(e) => e.source_id,
            Event::WlDataOfferSourceActions(e) => e.source_id,
            Event::WlDataOfferAction(e) => e.source_id,
            Event::WlDataSourceTarget(e) => e.source_id,
            Event::WlDataSourceSend(e) => e.source_id,
            Event::WlDataSourceCancelled(e) => e.source_id,
            Event::WlDataSourceDndDropPerformed(e) => e.source_id,
            Event::WlDataSourceDndFinished(e) => e.source_id,
            Event::WlDataSourceAction(e) => e.source_id,
            Event::WlDataDeviceDataOffer(e) => e.source_id,
            Event::WlDataDeviceEnter(e) => e.source_id,
            Event::WlDataDeviceLeave(e) => e.source_id,
            Event::WlDataDeviceMotion(e) => e.source_id,
            Event::WlDataDeviceDrop(e) => e.source_id,
            Event::WlDataDeviceSelection(e) => e.source_id,
            Event::WlShellSurfacePing(e) => e.source_id,
            Event::WlShellSurfaceConfigure(e) => e.source_id,
            Event::WlShellSurfacePopupDone(e) => e.source_id,
            Event::WlSurfaceFrameDone(e) => e.source_id,
            Event::WlSurfaceEnter(e) => e.source_id,
            Event::WlSurfaceLeave(e) => e.source_id,
            Event::WlSurfacePreferredBufferScale(e) => e.source_id,
            Event::WlSurfacePreferredBufferTransform(e) => e.source_id,
            Event::WlSeatCapabilities(e) => e.source_id,
            Event::WlSeatName(e) => e.source_id,
            Event::WlPointerEnter(e) => e.source_id,
            Event::WlPointerLeave(e) => e.source_id,
            Event::WlPointerMotion(e) => e.source_id,
            Event::WlPointerButton(e) => e.source_id,
            Event::WlPointerAxis(e) => e.source_id,
            Event::WlPointerFrame(e) => e.source_id,
            Event::WlPointerAxisSource(e) => e.source_id,
            Event::WlPointerAxisStop(e) => e.source_id,
            Event::WlPointerAxisDiscrete(e) => e.source_id,
            Event::WlPointerAxisValue120(e) => e.source_id,
            Event::WlPointerAxisRelativeDirection(e) => e.source_id,
            Event::WlKeyboardKeymap(e) => e.source_id,
            Event::WlKeyboardEnter(e) => e.source_id,
            Event::WlKeyboardLeave(e) => e.source_id,
            Event::WlKeyboardKey(e) => e.source_id,
            Event::WlKeyboardModifiers(e) => e.source_id,
            Event::WlKeyboardRepeatInfo(e) => e.source_id,
            Event::WlTouchDown(e) => e.source_id,
            Event::WlTouchUp(e) => e.source_id,
            Event::WlTouchMotion(e) => e.source_id,
            Event::WlTouchFrame(e) => e.source_id,
            Event::WlTouchCancel(e) => e.source_id,
            Event::WlTouchShape(e) => e.source_id,
            Event::WlTouchOrientation(e) => e.source_id,
            Event::WlOutputGeometry(e) => e.source_id,
            Event::WlOutputMode(e) => e.source_id,
            Event::WlOutputDone(e) => e.source_id,
            Event::WlOutputScale(e) => e.source_id,
            Event::WlOutputName(e) => e.source_id,
            Event::WlOutputDescription(e) => e.source_id,
        }
    }

    /// The object the event came from.
    pub fn source_id(&self) -> (id: u32)
        ensures
            id == self.spec_source_id(),
    {
        match self {
            Event::XdgWmBasePing(e) => e.source_id,
            Event::XdgSurfaceConfigure(e) => e.source_id,
            Event::XdgToplevelConfigure(e) => e.source_id,
            Event::XdgToplevelClose(e) => e.source_id,
            Event::XdgToplevelConfigureBounds(e) => e.source_id,
            Event::XdgToplevelWmCapabilities(e) => e.source_id,
            Event::XdgPopupConfigure(e) => e.source_id,
            Event::XdgPopupPopupDone(e) => e.source_id,
            Event::XdgPopupRepositioned(e) => e.source_id,
            Event::WlDisplaySyncDone(e) => e.source_id,
            Event::WlDisplayError(e) => e.source_id,
            Event::WlDisplayDeleteId(e) => e.source_id,
            Event::WlRegistryGlobal(e) => e.source_id,
            Event::WlRegistryGlobalRemove(e) => e.source_id,
            Event::WlShmFormat(e) => e.source_id,
            Event::WlBufferRelease(e) => e.source_id,
            Event::WlDataOfferOffer(e) => e.source_id,
            Event::WlDataOfferSourceActions(e) => e.source_id,
            Event::WlDataOfferAction(e) => e.source_id,
            Event::WlDataSourceTarget(e) => e.source_id,
            Event::WlDataSourceSend(e) => e.source_id,
            Event::WlDataSourceCancelled(e) => e.source_id,
            Event::WlDataSourceDndDropPerformed(e) => e.source_id,
            Event::WlDataSourceDndFinished(e) => e.source_id,
            Event::WlDataSourceAction(e) => e.source_id,
            Event::WlDataDeviceDataOffer(e) => e.source_id,
            Event::WlDataDeviceEnter(e) => e.source_id,
            Event::WlDataDeviceLeave(e) => e.source_id,
            Event::WlDataDeviceMotion(e) => e.source_id,
            Event::WlDataDeviceDrop(e) => e.source_id,
            Event::WlDataDeviceSelection(e) => e.source_id,
            Event::WlShellSurfacePing(e) => e.source_id,
            Event::WlShellSurfaceConfigure(e) => e.source_id,
            Event::WlShellSurfacePopupDone(e) => e.source_id,
            Event::WlSurfaceFrameDone(e) => e.source_id,
            Event::WlSurfaceEnter(e) => e.source_id,
            Event::WlSurfaceLeave(e) => e.source_id,
            Event::WlSurfacePreferredBufferScale(e) => e.source_id,
            Event::WlSurfacePreferredBufferTransform(e) => e.source_id,
            Event::WlSeatCapabilities(e) => e.source_id,
            Event::WlSeatName(e) => e.source_id,
            Event::WlPointerEnter(e) => e.source_id,
            Event::WlPointerLeave(e) => e.source_id,
            Event::WlPointerMotion(e) => e.source_id,
            Event::WlPointerButton(e) => e.source_id,
            Event::WlPointerAxis(e) => e.source_id,
            Event::WlPointerFrame(e) => e.source_id,
            Event::WlPointerAxisSource(e) => e.source_id,
            Event::WlPointerAxisStop(e) => e.source_id,
            Event::WlPointerAxisDiscrete(e) => e.source_id,
            Event::WlPointerAxisValue120(e) => e.source_id,
            Event::WlPointerAxisRelativeDirection(e) => e.source_id,
            Event::WlKeyboardKeymap(e) => e.source_id,
            Event::WlKeyboardEnter(e) => e.source_id,
            Event::WlKeyboardLeave(e) => e.source_id,
            Event::WlKeyboardKey(e) => e.source_id,
            Event::WlKeyboardModifiers(e) => e.source_id,
            Event::WlKeyboardRepeatInfo(e) => e.source_id,
            Event::WlTouchDown(e) => e.source_id,
            Event::WlTouchUp(e) => e.source_id,
            Event::WlTouchMotion(e) => e.source_id,
            Event::WlTouchFrame(e) => e.source_id,
            Event::WlTouchCancel(e) => e.source_id,
            Event::WlTouchShape(e) => e.source_id,
            Event::WlTouchOrientation(e) => e.source_id,
            Event::WlOutputGeometry(e) => e.source_id,
            Event::WlOutputMode(e) => e.source_id,
            Event::WlOutputDone(e) => e.source_id,
            Event::WlOutputScale(e) => e.source_id,
            Event::WlOutputName(e) => e.source_id,
            Event::WlOutputDescription(e) => e.source_id,
        }
    }

    /// Whether objects of the interface `tag` send events at all.
    pub fn has_events(tag: Object) -> (r: bool)
        ensures
            r == Self::spec_has_events(tag),
    {
        match tag {
            Object::Null => false,
            Object::XdgPositioner => false,
            Object::WlCompositor => false,
            Object::WlShmPool => false,
            Object::WlDataDeviceManager => false,
            Object::WlShell => false,
            Object::WlRegion => false,
            Object::WlSubcompositor => false,
            Object::WlSubsurface => false,
            _ => true,
        }
    }

    /// What decoding the event `opcode` of the interface `tag` comes to: the
    /// event with the arguments under `c` and the cursor behind them; no
    /// event and the cursor where it was, for an opcode the library does not
    /// know; or the first fault met.
    pub open spec fn spec_decode_post(
        tag: Object,
        opcode: u16,
        source_id: u32,
        b: Seq<u8>,
        fds: Seq<u8>,
        c: Cursor,
        after: Cursor,
        res: Result<Option<Event>, WireError>,
    ) -> bool {
        match res {
            Ok(Some(ev)) => Self::spec_known(tag, opcode) && after == Self::spec_end(
                tag,
                opcode,
                b,
                fds,
                c,
            ) && ev.spec_decoded(tag, opcode, source_id, b, fds, c),
            Ok(None) => !Self::spec_known(tag, opcode) && after == c,
            Err(e) => Self::spec_known(tag, opcode) && Self::spec_end(tag, opcode, b, fds, c).fault
                == Some(e),
        }
    }

    /// Reads the arguments of the event `opcode` of the interface `tag`.
    /// An opcode the library does not know yields no event and reads
    /// nothing.
    pub fn decode(tag: Object, opcode: u16, source_id: u32, r: &mut Reader) -> (res: Result<
        Option<Event>,
        WireError,
    >)
        requires
            old(r).wf(),
        ensures
            final(r).wf(),
            final(r).bytes() == old(r).bytes(),
            final(r).fd_bytes() == old(r).fd_bytes(),
            Self::spec_decode_post(
                tag,
                opcode,
                source_id,
                old(r).bytes(),
                old(r).fd_bytes(),
                old(r).cursor(),
                final(r).cursor(),
                res,
            ),
    {
        match tag {
            Object::XdgWmBase => decode_xdg_wm_base(opcode, source_id, r),
            Object::XdgSurface => decode_xdg_surface(opcode, source_id, r),
            Object::XdgToplevel => decode_xdg_toplevel(opcode, source_id, r),
            Object::XdgPopup => decode_xdg_popup(opcode, source_id, r),
            Object::WlDisplaySyncCallback => decode_wl_display_sync_callback(opcode, source_id, r),
            Object::WlDisplay => decode_wl_display(opcode, source_id, r),
            Object::WlRegistry => decode_wl_registry(opcode, source_id, r),
            Object::WlShm => decode_wl_shm(opcode, source_id, r),
            Object::WlBuffer => decode_wl_buffer(opcode, source_id, r),
            Object::WlDataOffer => decode_wl_data_offer(opcode, source_id, r),
            Object::WlDataSource => decode_wl_data_source(opcode, source_id, r),
            Object::WlDataDevice => decode_wl_data_device(opcode, source_id, r),
            Object::WlShellSurface => decode_wl_shell_surface(opcode, source_id, r),
            Object::WlSurfaceFrameCallback => decode_wl_surface_frame_callback(opcode, source_id, r),
            Object::WlSurface => decode_wl_surface(opcode, source_id, r),
            Object::WlSeat => decode_wl_seat(opcode, source_id, r),
            Object::WlPointer => decode_wl_pointer(opcode, source_id, r),
            Object::WlKeyboard => decode_wl_keyboard(opcode, source_id, r),
            Object::WlTouch => decode_wl_touch(opcode, source_id, r),
            Object::WlOutput => decode_wl_output(opcode, source_id, r),
            _ => Ok(None),
        }
    }
}

/// Reads one event of `xdg_wm_base`.
fn decode_xdg_wm_base(opcode: u16, source_id: u32, r: &mut Reader) -> (res: Result<
    Option<Event>,
    WireError,
>)
    requires
        old(r).wf(),
    ensures
        final(r).wf(),
        final(r).bytes() == old(r).bytes(),
        final(r).fd_bytes() == old(r).fd_bytes(),
        Event::spec_decode_post(
            Object::XdgWmBase,
            opcode,
            source_id,
            old(r).bytes(),
            old(r).fd_bytes(),
            old(r).cursor(),
            final(r).cursor(),
            res,
        ),
{
    reveal(Event::spec_end);
    reveal(Event::spec_decoded);
    match opcode {
        0 => match XdgWmBasePingEvent::decode(r, source_id) {
            Ok(e) => Ok(Some(Event::XdgWmBasePing(e))),
            Err(e) => Err(e),
        },
        _ => Ok(None),
    }
}

/// Reads one event of `xdg_surface`.
fn decode_xdg_surface(opcode: u16, source_id: u32, r: &mut Reader) -> (res: Result<
    Option<Event>,
    WireError,
>)
    requires
        old(r).wf(),
    ensures
        final(r).wf(),
        final(r).bytes() == old(r).bytes(),
        final(r).fd_bytes() == old(r).fd_bytes(),
        Event::spec_decode_post(
            Object::XdgSurface,
            opcode,
            source_id,
            old(r).bytes(),
            old(r).fd_bytes(),
            old(r).cursor(),
            final(r).cursor(),
            res,
        ),
{
    reveal(Event::spec_end);
    reveal(Event::spec_decoded);
    match opcode {
        0 => match XdgSurfaceConfigureEvent::decode(r, source_id) {
            Ok(e) => Ok(Some(Event::XdgSurfaceConfigure(e))),
            Err(e) => Err(e),
        },
        _ => Ok(None),
    }
}

/// Reads one event of `xdg_toplevel`.
fn decode_xdg_toplevel(opcode: u16, source_id: u32, r: &mut Reader) -> (res: Result<
    Option<Event>,
    WireError,
>)
    requires
        old(r).wf(),
    ensures
        final(r).wf(),
        final(r).bytes() == old(r).bytes(),
        final(r).fd_bytes() == old(r).fd_bytes(),
        Event::spec_decode_post(
            Object::XdgToplevel,
            opcode,
            source_id,
            old(r).bytes(),
            old(r).fd_bytes(),
            old(r).cursor(),
            final(r).cursor(),
            res,
        ),
{
    reveal(Event::spec_end);
    reveal(Event::spec_decoded);
    match opcode {
        0 => match XdgToplevelConfigureEvent::decode(r, source_id) {
            Ok(e) => Ok(Some(Event::XdgToplevelConfigure(e))),
            Err(e) => Err(e),
        },
        1 => match XdgToplevelCloseEvent::decode(r, source_id) {
            Ok(e) => Ok(Some(Event::XdgToplevelClose(e))),
            Err(e) => Err(e),
        },
        2 => match XdgToplevelConfigureBoundsEvent::decode(r, source_id) {
            Ok(e) => Ok(Some(Event::XdgToplevelConfigureBounds(e))),
            Err(e) => Err(e),
        },
        3 => match XdgToplevelWmCapabilitiesEvent::decode(r, source_id) {
            Ok(e) => Ok(Some(Event::XdgToplevelWmCapabilities(e))),
            Err(e) => Err(e),
        },
        _ => Ok(None),
    }
}

/// Reads one event of `xdg_popup`.
fn decode_xdg_popup(opcode: u16, source_id: u32, r: &mut Reader) -> (res: Result<
    Option<Event>,
    WireError,
>)
    requires
        old(r).wf(),
    ensures
        final(r).wf(),
        final(r).bytes() == old(r).bytes(),
        final(r).fd_bytes() == old(r).fd_bytes(),
        Event::spec_decode_post(
            Object::XdgPopup,
            opcode,
            source_id,
            old(r).bytes(),
            old(r).fd_bytes(),
            old(r).cursor(),
            final(r).cursor(),
            res,
        ),
{
    reveal(Event::spec_end);
    reveal(Event::spec_decoded);
    match opcode {
        0 => match XdgPopupConfigureEvent::decode(r, source_id) {
            Ok(e) => Ok(Some(Event::XdgPopupConfigure(e))),
            Err(e) => Err(e),
        },
        1 => match XdgPopupPopupDoneEvent::decode(r, source_id) {
            Ok(e) => Ok(Some(Event::XdgPopupPopupDone(e))),
            Err(e) => Err(e),
        },
        2 => match XdgPopupRepositionedEvent::decode(r, source_id) {
            Ok(e) => Ok(Some(Event::XdgPopupRepositioned(e))),
            Err(e) => Err(e),
        },
        _ => Ok(None),
    }
}

/// Reads one event of `wl_callback`.
fn decode_wl_display_sync_callback(opcode: u16, source_id: u32, r: &mut Reader) -> (res: Result<
    Option<Event>,
    WireError,
>)
    requires
        old(r).wf(),
    ensures
        final(r).wf(),
        final(r).bytes() == old(r).bytes(),
        final(r).fd_bytes() == old(r).fd_bytes(),
        Event::spec_decode_post(
            Object::WlDisplaySyncCallback,
            opcode,
            source_id,
            old(r).bytes(),
            old(r).fd_bytes(),
            old(r).cursor(),
            final(r).cursor(),
            res,
        ),
{
    reveal(Event::spec_end);
    reveal(Event::spec_decoded);
    match opcode {
        0 => match WlDisplaySyncDoneEvent::decode(r, source_id) {
            Ok(e) => Ok(Some(Event::WlDisplaySyncDone(e))),
            Err(e) => Err(e),
        },
        _ => Ok(None),
    }
}

/// Reads one event of `wl_display`.
fn decode_wl_display(opcode: u16, source_id: u32, r: &mut Reader) -> (res: Result<
    Option<Event>,
    WireError,
>)
    requires
        old(r).wf(),
    ensures
        final(r).wf(),
        final(r).bytes() == old(r).bytes(),
        final(r).fd_bytes() == old(r).fd_bytes(),
        Event::spec_decode_post(
            Object::WlDisplay,
            opcode,
            source_id,
            old(r).bytes(),
            old(r).fd_bytes(),
            old(r).cursor(),
            final(r).cursor(),
            res,
        ),
{
    reveal(Event::spec_end);
    reveal(Event::spec_decoded);
    match opcode {
        0 => match WlDisplayErrorEvent::decode(r, source_id) {
            Ok(e) => Ok(Some(Event::WlDisplayError(e))),
            Err(e) => Err(e),
        },
        1 => match WlDisplayDeleteIdEvent::decode(r, source_id) {
            Ok(e) => Ok(Some(Event::WlDisplayDeleteId(e))),
            Err(e) => Err(e),
        },
        _ => Ok(None),
    }
}

/// Reads one event of `wl_registry`.
fn decode_wl_registry(opcode: u16, source_id: u32, r: &mut Reader) -> (res: Result<
    Option<Event>,
    WireError,
>)
    requires
        old(r).wf(),
    ensures
        final(r).wf(),
        final(r).bytes() == old(r).bytes(),
        final(r).fd_bytes() == old(r).fd_bytes(),
        Event::spec_decode_post(
            Object::WlRegistry,
            opcode,
            source_id,
            old(r).bytes(),
            old(r).fd_bytes(),
            old(r).cursor(),
            final(r).cursor(),
            res,
        ),
{
    reveal(Event::spec_end);
    reveal(Event::spec_decoded);
    match opcode {
        0 => match WlRegistryGlobalEvent::decode(r, source_id) {
            Ok(e) => Ok(Some(Event::WlRegistryGlobal(e))),
            Err(e) => Err(e),
        },
        1 => match WlRegistryGlobalRemoveEvent::decode(r, source_id) {
            Ok(e) => Ok(Some(Event::WlRegistryGlobalRemove(e))),
            Err(e) => Err(e),
        },
        _ => Ok(None),
    }
}

/// Reads one event of `wl_shm`.
fn decode_wl_shm(opcode: u16, source_id: u32, r: &mut Reader) -> (res: Result<
    Option<Event>,
    WireError,
>)
    requires
        old(r).wf(),
    ensures
        final(r).wf(),
        final(r).bytes() == old(r).bytes(),
        final(r).fd_bytes() == old(r).fd_bytes(),
        Event::spec_decode_post(
            Object::WlShm,
            opcode,
            source_id,
            old(r).bytes(),
            old(r).fd_bytes(),
            old(r).cursor(),
            final(r).cursor(),
            res,
        ),
{
    reveal(Event::spec_end);
    reveal(Event::spec_decoded);
    match opcode {
        0 => match WlShmFormatEvent::decode(r, source_id) {
            Ok(e) => Ok(Some(Event::WlShmFormat(e))),
            Err(e) => Err(e),
        },
        _ => Ok(None),
    }
}

/// Reads one event of `wl_buffer`.
fn decode_wl_buffer(opcode: u16, source_id: u32, r: &mut Reader) -> (res: Result<
    Option<Event>,
    WireError,
>)
    requires
        old(r).wf(),
    ensures
        final(r).wf(),
        final(r).bytes() == old(r).bytes(),
        final(r).fd_bytes() == old(r).fd_bytes(),
        Event::spec_decode_post(
            Object::WlBuffer,
            opcode,
            source_id,
            old(r).bytes(),
            old(r).fd_bytes(),
            old(r).cursor(),
            final(r).cursor(),
            res,
        ),
{
    reveal(Event::spec_end);
    reveal(Event::spec_decoded);
    match opcode {
        0 => match WlBufferReleaseEvent::decode(r, source_id) {
            Ok(e) => Ok(Some(Event::WlBufferRelease(e))),
            Err(e) => Err(e),
        },
        _ => Ok(None),
    }
}

/// Reads one event of `wl_data_offer`.
fn decode_wl_data_offer(opcode: u16, source_id: u32, r: &mut Reader) -> (res: Result<
    Option<Event>,
    WireError,
>)
    requires
        old(r).wf(),
    ensures
        final(r).wf(),
        final(r).bytes() == old(r).bytes(),
        final(r).fd_bytes() == old(r).fd_bytes(),
        Event::spec_decode_post(
            Object::WlDataOffer,
            opcode,
            source_id,
            old(r).bytes(),
            old(r).fd_bytes(),
            old(r).cursor(),
            final(r).cursor(),
            res,
        ),
{
    reveal(Event::spec_end);
    reveal(Event::spec_decoded);
    match opcode {
        0 => match WlDataOfferOfferEvent::decode(r, source_id) {
            Ok(e) => Ok(Some(Event::WlDataOfferOffer(e))),
            Err(e) => Err(e),
        },
        1 => match WlDataOfferSourceActionsEvent::decode(r, source_id) {
            Ok(e) => Ok(Some(Event::WlDataOfferSourceActions(e))),
            Err(e) => Err(e),
        },
        2 => match WlDataOfferActionEvent::decode(r, source_id) {
            Ok(e) => Ok(Some(Event::WlDataOfferAction(e))),
            Err(e) => Err(e),
        },
        _ => Ok(None),
    }
}

/// Reads one event of `wl_data_source`.
fn decode_wl_data_source(opcode: u16, source_id: u32, r: &mut Reader) -> (res: Result<
    Option<Event>,
    WireError,
>)
    requires
        old(r).wf(),
    ensures
        final(r).wf(),
        final(r).bytes() == old(r).bytes(),
        final(r).fd_bytes() == old(r).fd_bytes(),
        Event::spec_decode_post(
            Object::WlDataSource,
            opcode,
            source_id,
            old(r).bytes(),
            old(r).fd_bytes(),
            old(r).cursor(),
            final(r).cursor(),
            res,
        ),
{
    reveal(Event::spec_end);
    reveal(Event::spec_decoded);
    match opcode {
        0 => match WlDataSourceTargetEvent::decode(r, source_id) {
            Ok(e) => Ok(Some(Event::WlDataSourceTarget(e))),
            Err(e) => Err(e),
        },
        1 => match WlDataSourceSendEvent::decode(r, source_id) {
            Ok(e) => Ok(Some(Event::WlDataSourceSend(e))),
            Err(e) => Err(e),
        },
        2 => match WlDataSourceCancelledEvent::decode(r, source_id) {
            Ok(e) => Ok(Some(Event::WlDataSourceCancelled(e))),
            Err(e) => Err(e),
        },
        3 => match WlDataSourceDndDropPerformedEvent::decode(r, source_id) {
            Ok(e) => Ok(Some(Event::WlDataSourceDndDropPerformed(e))),
            Err(e) => Err(e),
        },
        4 => match WlDataSourceDndFinishedEvent::decode(r, source_id) {
            Ok(e) => Ok(Some(Event::WlDataSourceDndFinished(e))),
            Err(e) => Err(e),
        },
        5 => match WlDataSourceActionEvent::decode(r, source_id) {
            Ok(e) => Ok(Some(Event::WlDataSourceAction(e))),
            Err(e) => Err(e),
        },
        _ => Ok(None),
    }
}

/// Reads one event of `wl_data_device`.
fn decode_wl_data_device(opcode: u16, source_id: u32, r: &mut Reader) -> (res: Result<
    Option<Event>,
    WireError,
>)
    requires
        old(r).wf(),
    ensures
        final(r).wf(),
        final(r).bytes() == old(r).bytes(),
        final(r).fd_bytes() == old(r).fd_bytes(),
        Event::spec_decode_post(
            Object::WlDataDevice,
            opcode,
            source_id,
            old(r).bytes(),
            old(r).fd_bytes(),
            old(r).cursor(),
            final(r).cursor(),
            res,
        ),
{
    reveal(Event::spec_end);
    reveal(Event::spec_decoded);
    match opcode {
        0 => match WlDataDeviceDataOfferEvent::decode(r, source_id) {
            Ok(e) => Ok(Some(Event::WlDataDeviceDataOffer(e))),
            Err(e) => Err(e),
        },
        1 => match WlDataDeviceEnterEvent::decode(r, source_id) {
            Ok(e) => Ok(Some(Event::WlDataDeviceEnter(e))),
            Err(e) => Err(e),
        },
        2 => match WlDataDeviceLeaveEvent::decode(r, source_id) {
            Ok(e) => Ok(Some(Event::WlDataDeviceLeave(e))),
            Err(e) => Err(e),
        },
        3 => match WlDataDeviceMotionEvent::decode(r, source_id) {
            Ok(e) => Ok(Some(Event::WlDataDeviceMotion(e))),
            Err(e) => Err(e),
        },
        4 => match WlDataDeviceDropEvent::decode(r, source_id) {
            Ok(e) => Ok(Some(Event::WlDataDeviceDrop(e))),
            Err(e) => Err(e),
        },
        5 => match WlDataDeviceSelectionEvent::decode(r, source_id) {
            Ok(e) => Ok(Some(Event::WlDataDeviceSelection(e))),
            Err(e) => Err(e),
        },
        _ => Ok(None),
    }
}

/// Reads one event of `wl_shell_surface`.
fn decode_wl_shell_surface(opcode: u16, source_id: u32, r: &mut Reader) -> (res: Result<
    Option<Event>,
    WireError,
>)
    requires
        old(r).wf(),
    ensures
        final(r).wf(),
        final(r).bytes() == old(r).bytes(),
        final(r).fd_bytes() == old(r).fd_bytes(),
        Event::spec_decode_post(
            Object::WlShellSurface,
            opcode,
            source_id,
            old(r).bytes(),
            old(r).fd_bytes(),
            old(r).cursor(),
            final(r).cursor(),
            res,
        ),
{
    reveal(Event::spec_end);
    reveal(Event::spec_decoded);
    match opcode {
        0 => match WlShellSurfacePingEvent::decode(r, source_id) {
            Ok(e) => Ok(Some(Event::WlShellSurfacePing(e))),
            Err(e) => Err(e),
        },
        1 => match WlShellSurfaceConfigureEvent::decode(r, source_id) {
            Ok(e) => Ok(Some(Event::WlShellSurfaceConfigure(e))),
            Err(e) => Err(e),
        },
        2 => match WlShellSurfacePopupDoneEvent::decode(r, source_id) {
            Ok(e) => Ok(Some(Event::WlShellSurfacePopupDone(e))),
            Err(e) => Err(e),
        },
        _ => Ok(None),
    }
}

/// Reads one event of `wl_callback`.
fn decode_wl_surface_frame_callback(opcode: u16, source_id: u32, r: &mut Reader) -> (res: Result<
    Option<Event>,
    WireError,
>)
    requires
        old(r).wf(),
    ensures
        final(r).wf(),
        final(r).bytes() == old(r).bytes(),
        final(r).fd_bytes() == old(r).fd_bytes(),
        Event::spec_decode_post(
            Object::WlSurfaceFrameCallback,
            opcode,
            source_id,
            old(r).bytes(),
            old(r).fd_bytes(),
            old(r).cursor(),
            final(r).cursor(),
            res,
        ),
{
    reveal(Event::spec_end);
    reveal(Event::spec_decoded);
    match opcode {
        0 => match WlSurfaceFrameDoneEvent::decode(r, source_id) {
            Ok(e) => Ok(Some(Event::WlSurfaceFrameDone(e))),
            Err(e) => Err(e),
        },
        _ => Ok(None),
    }
}

/// Reads one event of `wl_surface`.
fn decode_wl_surface(opcode: u16, source_id: u32, r: &mut Reader) -> (res: Result<
    Option<Event>,
    WireError,
>)
    requires
        old(r).wf(),
    ensures
        final(r).wf(),
        final(r).bytes() == old(r).bytes(),
        final(r).fd_bytes() == old(r).fd_bytes(),
        Event::spec_decode_post(
            Object::WlSurface,
            opcode,
            source_id,
            old(r).bytes(),
            old(r).fd_bytes(),
            old(r).cursor(),
            final(r).cursor(),
            res,
        ),
{
    reveal(Event::spec_end);
    reveal(Event::spec_decoded);
    match opcode {
        0 => match WlSurfaceEnterEvent::decode(r, source_id) {
            Ok(e) => Ok(Some(Event::WlSurfaceEnter(e))),
            Err(e) => Err(e),
        },
        1 => match WlSurfaceLeaveEvent::decode(r, source_id) {
            Ok(e) => Ok(Some(Event::WlSurfaceLeave(e))),
            Err(e) => Err(e),
        },
        2 => match WlSurfacePreferredBufferScaleEvent::decode(r, source_id) {
            Ok(e) => Ok(Some(Event::WlSurfacePreferredBufferScale(e))),
            Err(e) => Err(e),
        },
        3 => match WlSurfacePreferredBufferTransformEvent::decode(r, source_id) {
            Ok(e) => Ok(Some(Event::WlSurfacePreferredBufferTransform(e))),
            Err(e) => Err(e),
        },
        _ => Ok(None),
    }
}

/// Reads one event of `wl_seat`.
fn decode_wl_seat(opcode: u16, source_id: u32, r: &mut Reader) -> (res: Result<
    Option<Event>,
    WireError,
>)
    requires
        old(r).wf(),
    ensures
        final(r).wf(),
        final(r).bytes() == old(r).bytes(),
        final(r).fd_bytes() == old(r).fd_bytes(),
        Event::spec_decode_post(
            Object::WlSeat,
            opcode,
            source_id,
            old(r).bytes(),
            old(r).fd_bytes(),
            old(r).cursor(),
            final(r).cursor(),
            res,
        ),
{
    reveal(Event::spec_end);
    reveal(Event::spec_decoded);
    match opcode {
        0 => match WlSeatCapabilitiesEvent::decode(r, source_id) {
            Ok(e) => Ok(Some(Event::WlSeatCapabilities(e))),
            Err(e) => Err(e),
        },
        1 => match WlSeatNameEvent::decode(r, source_id) {
            Ok(e) => Ok(Some(Event::WlSeatName(e))),
            Err(e) => Err(e),
        },
        _ => Ok(None),
    }
}

/// Reads one event of `wl_pointer`.
fn decode_wl_pointer(opcode: u16, source_id: u32, r: &mut Reader) -> (res: Result<
    Option<Event>,
    WireError,
>)
    requires
        old(r).wf(),
    ensures
        final(r).wf(),
        final(r).bytes() == old(r).bytes(),
        final(r).fd_bytes() == old(r).fd_bytes(),
        Event::spec_decode_post(
            Object::WlPointer,
            opcode,
            source_id,
            old(r).bytes(),
            old(r).fd_bytes(),
            old(r).cursor(),
            final(r).cursor(),
            res,
        ),
{
    reveal(Event::spec_end);
    reveal(Event::spec_decoded);
    match opcode {
        0 => match WlPointerEnterEvent::decode(r, source_id) {
            Ok(e) => Ok(Some(Event::WlPointerEnter(e))),
            Err(e) => Err(e),
        },
        1 => match WlPointerLeaveEvent::decode(r, source_id) {
            Ok(e) => Ok(Some(Event::WlPointerLeave(e))),
            Err(e) => Err(e),
        },
        2 => match WlPointerMotionEvent::decode(r, source_id) {
            Ok(e) => Ok(Some(Event::WlPointerMotion(e))),
            Err(e) => Err(e),
        },
        3 => match WlPointerButtonEvent::decode(r, source_id) {
            Ok(e) => Ok(Some(Event::WlPointerButton(e))),
            Err(e) => Err(e),
        },
        4 => match WlPointerAxisEvent::decode(r, source_id) {
            Ok(e) => Ok(Some(Event::WlPointerAxis(e))),
            Err(e) => Err(e),
        },
        5 => match WlPointerFrameEvent::decode(r, source_id) {
            Ok(e) => Ok(Some(Event::WlPointerFrame(e))),
            Err(e) => Err(e),
        },
        6 => match WlPointerAxisSourceEvent::decode(r, source_id) {
            Ok(e) => Ok(Some(Event::WlPointerAxisSource(e))),
            Err(e) => Err(e),
        },
        7 => match WlPointerAxisStopEvent::decode(r, source_id) {
            Ok(e) => Ok(Some(Event::WlPointerAxisStop(e))),
            Err(e) => Err(e),
        },
        8 => match WlPointerAxisDiscreteEvent::decode(r, source_id) {
            Ok(e) => Ok(Some(Event::WlPointerAxisDiscrete(e))),
            Err(e) => Err(e),
        },
        9 => match WlPointerAxisValue120Event::decode(r, source_id) {
            Ok(e) => Ok(Some(Event::WlPointerAxisValue120(e))),
            Err(e) => Err(e),
        },
        10 => match WlPointerAxisRelativeDirectionEvent::decode(r, source_id) {
            Ok(e) => Ok(Some(Event::WlPointerAxisRelativeDirection(e))),
            Err(e) => Err(e),
        },
        _ => Ok(None),
    }
}

/// Reads one event of `wl_keyboard`.
fn decode_wl_keyboard(opcode: u16, source_id: u32, r: &mut Reader) -> (res: Result<
    Option<Event>,
    WireError,
>)
    requires
        old(r).wf(),
    ensures
        final(r).wf(),
        final(r).bytes() == old(r).bytes(),
        final(r).fd_bytes() == old(r).fd_bytes(),
        Event::spec_decode_post(
            Object::WlKeyboard,
            opcode,
            source_id,
            old(r).bytes(),
            old(r).fd_bytes(),
            old(r).cursor(),
            final(r).cursor(),
            res,
        ),
{
    reveal(Event::spec_end);
    reveal(Event::spec_decoded);
    match opcode {
        0 => match WlKeyboardKeymapEvent::decode(r, source_id) {
            Ok(e) => Ok(Some(Event::WlKeyboardKeymap(e))),
            Err(e) => Err(e),
        },
        1 => match WlKeyboardEnterEvent::decode(r, source_id) {
            Ok(e) => Ok(Some(Event::WlKeyboardEnter(e))),
            Err(e) => Err(e),
        },
        2 => match WlKeyboardLeaveEvent::decode(r, source_id) {
            Ok(e) => Ok(Some(Event::WlKeyboardLeave(e))),
            Err(e) => Err(e),
        },
        3 => match WlKeyboardKeyEvent::decode(r, source_id) {
            Ok(e) => Ok(Some(Event::WlKeyboardKey(e))),
            Err(e) => Err(e),
        },
        4 => match WlKeyboardModifiersEvent::decode(r, source_id) {
            Ok(e) => Ok(Some(Event::WlKeyboardModifiers(e))),
            Err(e) => Err(e),
        },
        5 => match WlKeyboardRepeatInfoEvent::decode(r, source_id) {
            Ok(e) => Ok(Some(Event::WlKeyboardRepeatInfo(e))),
            Err(e) => Err(e),
        },
        _ => Ok(None),
    }
}

/// Reads one event of `wl_touch`.
fn decode_wl_touch(opcode: u16, source_id: u32, r: &mut Reader) -> (res: Result<
    Option<Event>,
    WireError,
>)
    requires
        old(r).wf(),
    ensures
        final(r).wf(),
        final(r).bytes() == old(r).bytes(),
        final(r).fd_bytes() == old(r).fd_bytes(),
        Event::spec_decode_post(
            Object::WlTouch,
            opcode,
            source_id,
            old(r).bytes(),
            old(r).fd_bytes(),
            old(r).cursor(),
            final(r).cursor(),
            res,
        ),
{
    reveal(Event::spec_end);
    reveal(Event::spec_decoded);
    match opcode {
        0 => match WlTouchDownEvent::decode(r, source_id) {
            Ok(e) => Ok(Some(Event::WlTouchDown(e))),
            Err(e) => Err(e),
        },
        1 => match WlTouchUpEvent::decode(r, source_id) {
            Ok(e) => Ok(Some(Event::WlTouchUp(e))),
            Err(e) => Err(e),
        },
        2 => match WlTouchMotionEvent::decode(r, source_id) {
            Ok(e) => Ok(Some(Event::WlTouchMotion(e))),
            Err(e) => Err(e),
        },
        3 => match WlTouchFrameEvent::decode(r, source_id) {
            Ok(e) => Ok(Some(Event::WlTouchFrame(e))),
            Err(e) => Err(e),
        },
        4 => match WlTouchCancelEvent::decode(r, source_id) {
            Ok(e) => Ok(Some(Event::WlTouchCancel(e))),
            Err(e) => Err(e),
        },
        5 => match WlTouchShapeEvent::decode(r, source_id) {
            Ok(e) => Ok(Some(Event::WlTouchShape(e))),
            Err(e) => Err(e),
        },
        6 => match WlTouchOrientationEvent::decode(r, source_id) {
            Ok(e) => Ok(Some(Event::WlTouchOrientation(e))),
            Err(e) => Err(e),
        },
        _ => Ok(None),
    }
}

/// Reads one event of `wl_output`.
fn decode_wl_output(opcode: u16, source_id: u32, r: &mut Reader) -> (res: Result<
    Option<Event>,
    WireError,
>)
    requires
        old(r).wf(),
    ensures
        final(r).wf(),
        final(r).bytes() == old(r).bytes(),
        final(r).fd_bytes() == old(r).fd_bytes(),
        Event::spec_decode_post(
            Object::WlOutput,
            opcode,
            source_id,
            old(r).bytes(),
            old(r).fd_bytes(),
            old(r).cursor(),
            final(r).cursor(),
            res,
        ),
{
    reveal(Event::spec_end);
    reveal(Event::spec_decoded);
    match opcode {
        0 => match WlOutputGeometryEvent::decode(r, source_id) {
            Ok(e) => Ok(Some(Event::WlOutputGeometry(e))),
            Err(e) => Err(e),
        },
        1 => match WlOutputModeEvent::decode(r, source_id) {
            Ok(e) => Ok(Some(Event::WlOutputMode(e))),
            Err(e) => Err(e),
        },
        2 => match WlOutputDoneEvent::decode(r, source_id) {
            Ok(e) => Ok(Some(Event::WlOutputDone(e))),
            Err(e) => Err(e),
        },
        3 => match WlOutputScaleEvent::decode(r, source_id) {
            Ok(e) => Ok(Some(Event::WlOutputScale(e))),
            Err(e) => Err(e),
        },
        4 => match WlOutputNameEvent::decode(r, source_id) {
            Ok(e) => Ok(Some(Event::WlOutputName(e))),
            Err(e) => Err(e),
        },
        5 => match WlOutputDescriptionEvent::decode(r, source_id) {
            Ok(e) => Ok(Some(Event::WlOutputDescription(e))),
            Err(e) => Err(e),
        },
        _ => Ok(None),
    }
}

} // verus!
