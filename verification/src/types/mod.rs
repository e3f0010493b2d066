//! Plain data types shared by the codec and the connection.
pub mod buffer;
pub mod enums;
pub mod events;
pub mod handler;
pub mod id_store;
pub mod mempool;
pub mod object;
pub mod requests;

pub use crate::types::enums::{
    ZwpLinuxBufferParamsV1Error, ZwpLinuxBufferParamsV1Flags,
    ZwpLinuxDmabufFeedbackV1TrancheFlags, XdgWmBaseError, XdgPositionerError,
    XdgPositionerAnchor, XdgPositionerGravity, XdgPositionerConstraintAdjustment,
    XdgSurfaceError, XdgToplevelError, XdgToplevelResizeEdge, XdgToplevelState,
    XdgToplevelWmCapabilities, XdgPopupError, WlDisplayError, WlShmError, WlShmFormat,
    WlDataOfferError, WlDataSourceError, WlDataDeviceError, WlDataDeviceManagerDndAction,
    WlShellError, WlShellSurfaceResize, WlShellSurfaceTransient,
    WlShellSurfaceFullscreenMethod, WlSurfaceError, WlSeatCapability, WlSeatError,
    WlPointerError, WlPointerButtonState, WlPointerAxis, WlPointerAxisSource,
    WlPointerAxisRelativeDirection, WlKeyboardKeymapFormat, WlKeyboardKeyState,
    WlOutputSubpixel, WlOutputTransform, WlOutputMode, WlSubcompositorError,
    WlSubsurfaceError,
};
pub use crate::types::events::{
    XdgWmBasePingEvent, XdgSurfaceConfigureEvent, XdgToplevelConfigureEvent,
    XdgToplevelCloseEvent, XdgToplevelConfigureBoundsEvent, XdgToplevelWmCapabilitiesEvent,
    XdgPopupConfigureEvent, XdgPopupPopupDoneEvent, XdgPopupRepositionedEvent,
    WlDisplaySyncDoneEvent, WlDisplayErrorEvent, WlDisplayDeleteIdEvent,
    WlRegistryGlobalEvent, WlRegistryGlobalRemoveEvent, WlCallbackDoneEvent,
    WlShmFormatEvent, WlBufferReleaseEvent, WlDataOfferOfferEvent,
    WlDataOfferSourceActionsEvent, WlDataOfferActionEvent, WlDataSourceTargetEvent,
    WlDataSourceSendEvent, WlDataSourceCancelledEvent, WlDataSourceDndDropPerformedEvent,
    WlDataSourceDndFinishedEvent, WlDataSourceActionEvent, WlDataDeviceDataOfferEvent,
    WlDataDeviceEnterEvent, WlDataDeviceLeaveEvent, WlDataDeviceMotionEvent,
    WlDataDeviceDropEvent, WlDataDeviceSelectionEvent, WlShellSurfacePingEvent,
    WlShellSurfaceConfigureEvent, WlShellSurfacePopupDoneEvent, WlSurfaceFrameDoneEvent,
    WlSurfaceEnterEvent, WlSurfaceLeaveEvent, WlSurfacePreferredBufferScaleEvent,
    WlSurfacePreferredBufferTransformEvent, WlSeatCapabilitiesEvent, WlSeatNameEvent,
    WlPointerEnterEvent, WlPointerLeaveEvent, WlPointerMotionEvent, WlPointerButtonEvent,
    WlPointerAxisEvent, WlPointerFrameEvent, WlPointerAxisSourceEvent,
    WlPointerAxisStopEvent, WlPointerAxisDiscreteEvent, WlPointerAxisValue120Event,
    WlPointerAxisRelativeDirectionEvent, WlKeyboardKeymapEvent, WlKeyboardEnterEvent,
    WlKeyboardLeaveEvent, WlKeyboardKeyEvent, WlKeyboardModifiersEvent,
    WlKeyboardRepeatInfoEvent, WlTouchDownEvent, WlTouchUpEvent, WlTouchMotionEvent,
    WlTouchFrameEvent, WlTouchCancelEvent, WlTouchShapeEvent, WlTouchOrientationEvent,
    WlOutputGeometryEvent, WlOutputModeEvent, WlOutputDoneEvent, WlOutputScaleEvent,
    WlOutputNameEvent, WlOutputDescriptionEvent, Event,
};
pub use crate::types::object::{
    Object, XdgWmBase, XdgPositioner, XdgSurface, XdgToplevel, XdgPopup,
    WlDisplaySyncCallback, WlDisplay, WlRegistry, WlCompositor, WlShmPool, WlShm, WlBuffer,
    WlDataOffer, WlDataSource, WlDataDevice, WlDataDeviceManager, WlShell, WlShellSurface,
    WlSurfaceFrameCallback, WlSurface, WlSeat, WlPointer, WlKeyboard, WlTouch, WlOutput,
    WlRegion, WlSubcompositor, WlSubsurface, ZwpLinuxDmabufV1, ZwpLinuxBufferParamsV1,
    ZwpLinuxDmabufFeedbackV1,
};
pub use crate::types::requests::Request;
use crate::wire::{lemma_word_round_trip, word_at, word_bytes, word_to_bytes};
use vstd::prelude::*;

verus! {

/// An object id with no interface attached.
#[derive(Debug, Clone, Copy, PartialEq, Eq, Structural)]
pub struct Id {
    pub id: u32,
}

/// The two words in front of every message.
#[derive(Debug, Clone, Copy)]
pub struct MessageHeader {
    /// The object the message is sent to or comes from.
    pub obj_id: u32,
    /// Which request or event of the object's interface this is.
    pub opcode: u16,
    /// Length of the whole message in bytes, header included.
    pub len: u16,
}

/// The second header word: the length in the upper half, the opcode in the
/// lower.
pub open spec fn spec_opcode_len(opcode: u16, msg_size: u16) -> u32 {
    ((msg_size as u32) << 16) | (opcode as u32)
}

impl MessageHeader {
    /// Longest message a header can announce.
    pub const MAX_MSG_SIZE: u16 = 65532;

    /// The header as it stands on the wire.
    pub open spec fn spec_bytes(self) -> Seq<u8> {
        word_bytes(self.obj_id) + word_bytes(spec_opcode_len(self.opcode, self.len))
    }

    /// Packs opcode and length into the second header word.
    #[inline]
    pub fn opcode_len(opcode: u16, msg_size: u16) -> (w: u32)
        ensures
            w == spec_opcode_len(opcode, msg_size),
    {
        ((msg_size as u32) << 16) | (opcode as u32)
    }

    /// The header made of the two words read from the wire.
    pub fn from_words(word1: u32, word2: u32) -> (h: MessageHeader)
        ensures
            h.obj_id == word1,
            h.opcode == (word2 & 0xFFFF) as u16,
            h.len == (word2 >> 16) as u16,
    {
        let opcode: u16 = #[verifier::truncate]
        ((word2 & 0xFFFF) as u16);
        let len: u16 = #[verifier::truncate]
        ((word2 >> 16) as u16);
        MessageHeader { obj_id: word1, opcode, len }
    }

    /// The eight bytes of the header.
    pub fn into_bytes(self) -> (b: [u8; 8])
        ensures
            b@ == self.spec_bytes(),
    {
        let w1 = word_to_bytes(self.obj_id);
        let w2 = word_to_bytes(Self::opcode_len(self.opcode, self.len));
        let b = [w1[0], w1[1], w1[2], w1[3], w2[0], w2[1], w2[2], w2[3]];
        b
    }

    /// The header that stands at `pos` in `b`.
    pub open spec fn spec_at(b: Seq<u8>, pos: int) -> MessageHeader {
        MessageHeader {
            obj_id: word_at(b, pos),
            opcode: (word_at(b, pos + 4) & 0xFFFF) as u16,
            len: (word_at(b, pos + 4) >> 16) as u16,
        }
    }

    /// A header written in front of anything and read back is the same
    /// header.
    pub proof fn lemma_round_trip(self, rest: Seq<u8>)
        ensures
            self.spec_bytes().len() == 8,
            Self::spec_at(self.spec_bytes() + rest, 0) == self,
    {
        lemma_word_round_trip(self.obj_id);
        lemma_word_round_trip(spec_opcode_len(self.opcode, self.len));
        Self::lemma_words_round_trip(self.obj_id, self.opcode, self.len);
    }

    /// Packing opcode and length and unpacking them gives both back.
    pub proof fn lemma_words_round_trip(obj_id: u32, opcode: u16, len: u16)
        ensures
            (spec_opcode_len(opcode, len) & 0xFFFF) as u16 == opcode,
            (spec_opcode_len(opcode, len) >> 16) as u16 == len,
    {
        assert(((((len as u32) << 16) | (opcode as u32)) & 0xFFFF) as u16 == opcode
            && ((((len as u32) << 16) | (opcode as u32)) >> 16) as u16 == len) by (bit_vector);
    }
}

/// A signed 24.8 fixed-point number, carried as the word it travels in.
#[derive(Debug, Copy, Clone)]
pub struct Fixed(pub u32);

impl Fixed {
    /// Wraps the word read from or written to the wire.
    pub fn new(value: u32) -> (f: Fixed)
        ensures
            f.0 == value,
    {
        Fixed(value)
    }
}

} // verus!
