//! Protocol enumerations and bit fields.
//!
//! An enumeration read from the wire maps every value it does not know to
//! its variant `Unexpected`.
use vstd::prelude::*;
use vstd::std_specs::convert::FromSpecImpl;
use vstd::std_specs::ops::{BitAndSpecImpl, BitOrSpecImpl};

verus! {

/// Zwp_linux_buffer_params_v1:error enum.
#[allow(non_camel_case_types)]
#[derive(Debug, Clone, Copy, PartialEq, Eq, Structural)]
pub enum ZwpLinuxBufferParamsV1Error {
    /// The dmabuf_batch object has already been used to create a wl_buffer.
    AlreadyUsed,
    /// Plane index out of bounds.
    PlaneIdx,
    /// The plane index was already set.
    PlaneSet,
    /// Missing or too many planes to create a buffer.
    Incomplete,
    /// Format not supported.
    InvalidFormat,
    /// Invalid width or height.
    InvalidDimensions,
    /// Offset + stride * height goes out of dmabuf bounds.
    OutOfBounds,
    /// Invalid wl_buffer resulted from importing dmabufs via the create_immed
    /// request on given buffer_params.
    InvalidWlBuffer,
    /// Any value the protocol does not name.
    Unexpected,
}

impl ZwpLinuxBufferParamsV1Error {
    /// The variant that the wire value `value` stands for.
    pub open spec fn spec_from(value: u32) -> Self {
        match value {
            0 => Self::AlreadyUsed,
            1 => Self::PlaneIdx,
            2 => Self::PlaneSet,
            3 => Self::Incomplete,
            4 => Self::InvalidFormat,
            5 => Self::InvalidDimensions,
            6 => Self::OutOfBounds,
            7 => Self::InvalidWlBuffer,
            _ => Self::Unexpected,
        }
    }
}

impl From<u32> for ZwpLinuxBufferParamsV1Error {
    fn from(value: u32) -> (r: Self) {
        match value {
            0 => Self::AlreadyUsed,
            1 => Self::PlaneIdx,
            2 => Self::PlaneSet,
            3 => Self::Incomplete,
            4 => Self::InvalidFormat,
            5 => Self::InvalidDimensions,
            6 => Self::OutOfBounds,
            7 => Self::InvalidWlBuffer,
            _ => Self::Unexpected,
        }
    }
}

impl FromSpecImpl<u32> for ZwpLinuxBufferParamsV1Error {
    open spec fn obeys_from_spec() -> bool {
        true
    }

    open spec fn from_spec(value: u32) -> Self {
        Self::spec_from(value)
    }
}

/// Zwp_linux_buffer_params_v1:flags enum.
#[derive(Debug, Clone, Copy, PartialEq, Eq, Structural)]
pub struct ZwpLinuxBufferParamsV1Flags {
    value: u32,
}

impl From<u32> for ZwpLinuxBufferParamsV1Flags {
    fn from(value: u32) -> (r: Self)
        ensures
            r.bits() == value,
    {
        Self { value }
    }
}

impl FromSpecImpl<u32> for ZwpLinuxBufferParamsV1Flags {
    open spec fn obeys_from_spec() -> bool {
        true
    }

    closed spec fn from_spec(value: u32) -> Self {
        Self { value }
    }
}

impl ZwpLinuxBufferParamsV1Flags {
    /// The bits that are set.
    pub closed spec fn bits(self) -> u32 {
        self.value
    }

    /// Two bit fields with the same bits set are the same value.
    pub proof fn lemma_bits_eq(a: Self, b: Self)
        requires
            a.bits() == b.bits(),
        ensures
            a == b,
    {
    }

    /// The bit field read from the wire keeps every bit of the word.
    pub proof fn lemma_from_bits(value: u32)
        ensures
            <Self as vstd::std_specs::convert::FromSpec<u32>>::from_spec(value).bits() == value,
    {
    }

    /// Contents are y-inverted.
    pub fn yinvert() -> (r: Self)
        ensures
            r.bits() == 1,
    {
        ZwpLinuxBufferParamsV1Flags { value: 1 }
    }

    /// Content is interlaced.
    pub fn interlaced() -> (r: Self)
        ensures
            r.bits() == 2,
    {
        ZwpLinuxBufferParamsV1Flags { value: 2 }
    }

    /// Bottom field first.
    pub fn bottomfirst() -> (r: Self)
        ensures
            r.bits() == 4,
    {
        ZwpLinuxBufferParamsV1Flags { value: 4 }
    }

    /// The bit field with exactly the bits of `value`, as read from the wire.
    pub fn from_bits(value: u32) -> (r: Self)
        ensures
            r.bits() == value,
    {
        ZwpLinuxBufferParamsV1Flags { value }
    }

    /// No bit set.
    pub fn new() -> (r: Self)
        ensures
            r.bits() == 0,
    {
        ZwpLinuxBufferParamsV1Flags { value: 0 }
    }

    /// Whether any bit of `flag` is set in `self`.
    pub fn contains(&self, flag: Self) -> (r: bool)
        ensures
            r == (self.bits() & flag.bits() != 0),
    {
        self.value & flag.value != 0
    }

    /// Sets the bits of `flag`.
    pub fn insert(&mut self, flag: Self)
        ensures
            final(self).bits() == old(self).bits() | flag.bits(),
    {
        self.value |= flag.value;
    }

    /// Clears the bits of `flag`.
    pub fn remove(&mut self, flag: Self)
        ensures
            final(self).bits() == old(self).bits() & !flag.bits(),
    {
        self.value &= !flag.value;
    }
}

impl core::ops::BitAnd for ZwpLinuxBufferParamsV1Flags {
    type Output = Self;

    fn bitand(self, rhs: Self) -> (r: Self)
        ensures
            r.bits() == self.bits() & rhs.bits(),
    {
        Self { value: self.value & rhs.value }
    }
}

impl BitAndSpecImpl for ZwpLinuxBufferParamsV1Flags {
    open spec fn obeys_bitand_spec() -> bool {
        true
    }

    open spec fn bitand_req(self, rhs: Self) -> bool {
        true
    }

    closed spec fn bitand_spec(self, rhs: Self) -> Self {
        Self { value: self.value & rhs.value }
    }
}

impl core::ops::BitOr for ZwpLinuxBufferParamsV1Flags {
    type Output = Self;

    fn bitor(self, rhs: Self) -> (r: Self)
        ensures
            r.bits() == self.bits() | rhs.bits(),
    {
        Self { value: self.value | rhs.value }
    }
}

impl BitOrSpecImpl for ZwpLinuxBufferParamsV1Flags {
    open spec fn obeys_bitor_spec() -> bool {
        true
    }

    open spec fn bitor_req(self, rhs: Self) -> bool {
        true
    }

    closed spec fn bitor_spec(self, rhs: Self) -> Self {
        Self { value: self.value | rhs.value }
    }
}

impl core::ops::BitOrAssign for ZwpLinuxBufferParamsV1Flags {
    fn bitor_assign(&mut self, rhs: Self)
        ensures
            final(self).bits() == old(self).bits() | rhs.bits(),
    {
        self.value |= rhs.value;
    }
}

/// Zwp_linux_dmabuf_feedback_v1:tranche_flags enum.
#[derive(Debug, Clone, Copy, PartialEq, Eq, Structural)]
pub struct ZwpLinuxDmabufFeedbackV1TrancheFlags {
    value: u32,
}

impl From<u32> for ZwpLinuxDmabufFeedbackV1TrancheFlags {
    fn from(value: u32) -> (r: Self)
        ensures
            r.bits() == value,
    {
        Self { value }
    }
}

impl FromSpecImpl<u32> for ZwpLinuxDmabufFeedbackV1TrancheFlags {
    open spec fn obeys_from_spec() -> bool {
        true
    }

    closed spec fn from_spec(value: u32) -> Self {
        Self { value }
    }
}

impl ZwpLinuxDmabufFeedbackV1TrancheFlags {
    /// The bits that are set.
    pub closed spec fn bits(self) -> u32 {
        self.value
    }

    /// Two bit fields with the same bits set are the same value.
    pub proof fn lemma_bits_eq(a: Self, b: Self)
        requires
            a.bits() == b.bits(),
        ensures
            a == b,
    {
    }

    /// The bit field read from the wire keeps every bit of the word.
    pub proof fn lemma_from_bits(value: u32)
        ensures
            <Self as vstd::std_specs::convert::FromSpec<u32>>::from_spec(value).bits() == value,
    {
    }

    /// Direct scan-out tranche.
    pub fn scanout() -> (r: Self)
        ensures
            r.bits() == 1,
    {
        ZwpLinuxDmabufFeedbackV1TrancheFlags { value: 1 }
    }

    /// The bit field with exactly the bits of `value`, as read from the wire.
    pub fn from_bits(value: u32) -> (r: Self)
        ensures
            r.bits() == value,
    {
        ZwpLinuxDmabufFeedbackV1TrancheFlags { value }
    }

    /// No bit set.
    pub fn new() -> (r: Self)
        ensures
            r.bits() == 0,
    {
        ZwpLinuxDmabufFeedbackV1TrancheFlags { value: 0 }
    }

    /// Whether any bit of `flag` is set in `self`.
    pub fn contains(&self, flag: Self) -> (r: bool)
        ensures
            r == (self.bits() & flag.bits() != 0),
    {
        self.value & flag.value != 0
    }

    /// Sets the bits of `flag`.
    pub fn insert(&mut self, flag: Self)
        ensures
            final(self).bits() == old(self).bits() | flag.bits(),
    {
        self.value |= flag.value;
    }

    /// Clears the bits of `flag`.
    pub fn remove(&mut self, flag: Self)
        ensures
            final(self).bits() == old(self).bits() & !flag.bits(),
    {
        self.value &= !flag.value;
    }
}

impl core::ops::BitAnd for ZwpLinuxDmabufFeedbackV1TrancheFlags {
    type Output = Self;

    fn bitand(self, rhs: Self) -> (r: Self)
        ensures
            r.bits() == self.bits() & rhs.bits(),
    {
        Self { value: self.value & rhs.value }
    }
}

impl BitAndSpecImpl for ZwpLinuxDmabufFeedbackV1TrancheFlags {
    open spec fn obeys_bitand_spec() -> bool {
        true
    }

    open spec fn bitand_req(self, rhs: Self) -> bool {
        true
    }

    closed spec fn bitand_spec(self, rhs: Self) -> Self {
        Self { value: self.value & rhs.value }
    }
}

impl core::ops::BitOr for ZwpLinuxDmabufFeedbackV1TrancheFlags {
    type Output = Self;

    fn bitor(self, rhs: Self) -> (r: Self)
        ensures
            r.bits() == self.bits() | rhs.bits(),
    {
        Self { value: self.value | rhs.value }
    }
}

impl BitOrSpecImpl for ZwpLinuxDmabufFeedbackV1TrancheFlags {
    open spec fn obeys_bitor_spec() -> bool {
        true
    }

    open spec fn bitor_req(self, rhs: Self) -> bool {
        true
    }

    closed spec fn bitor_spec(self, rhs: Self) -> Self {
        Self { value: self.value | rhs.value }
    }
}

impl core::ops::BitOrAssign for ZwpLinuxDmabufFeedbackV1TrancheFlags {
    fn bitor_assign(&mut self, rhs: Self)
        ensures
            final(self).bits() == old(self).bits() | rhs.bits(),
    {
        self.value |= rhs.value;
    }
}

/// Xdg_wm_base:error enum.
#[allow(non_camel_case_types)]
#[derive(Debug, Clone, Copy, PartialEq, Eq, Structural)]
pub enum XdgWmBaseError {
    /// Given wl_surface has another role.
    Role,
    /// Xdg_wm_base was destroyed before children.
    DefunctSurfaces,
    /// The client tried to map or destroy a non-topmost popup.
    NotTheTopmostPopup,
    /// The client specified an invalid popup parent surface.
    InvalidPopupParent,
    /// The client provided an invalid surface state.
    InvalidSurfaceState,
    /// The client provided an invalid positioner.
    InvalidPositioner,
    /// The client didn’t respond to a ping event in time.
    Unresponsive,
    /// Any value the protocol does not name.
    Unexpected,
}

impl XdgWmBaseError {
    /// The variant that the wire value `value` stands for.
    pub open spec fn spec_from(value: u32) -> Self {
        match value {
            0 => Self::Role,
            1 => Self::DefunctSurfaces,
            2 => Self::NotTheTopmostPopup,
            3 => Self::InvalidPopupParent,
            4 => Self::InvalidSurfaceState,
            5 => Self::InvalidPositioner,
            6 => Self::Unresponsive,
            _ => Self::Unexpected,
        }
    }
}

impl From<u32> for XdgWmBaseError {
    fn from(value: u32) -> (r: Self) {
        match value {
            0 => Self::Role,
            1 => Self::DefunctSurfaces,
            2 => Self::NotTheTopmostPopup,
            3 => Self::InvalidPopupParent,
            4 => Self::InvalidSurfaceState,
            5 => Self::InvalidPositioner,
            6 => Self::Unresponsive,
            _ => Self::Unexpected,
        }
    }
}

impl FromSpecImpl<u32> for XdgWmBaseError {
    open spec fn obeys_from_spec() -> bool {
        true
    }

    open spec fn from_spec(value: u32) -> Self {
        Self::spec_from(value)
    }
}

/// Xdg_positioner:error enum.
#[allow(non_camel_case_types)]
#[derive(Debug, Clone, Copy, PartialEq, Eq, Structural)]
pub enum XdgPositionerError {
    /// Invalid input provided.
    InvalidInput,
    /// Any value the protocol does not name.
    Unexpected,
}

impl XdgPositionerError {
    /// The variant that the wire value `value` stands for.
    pub open spec fn spec_from(value: u32) -> Self {
        match value {
            0 => Self::InvalidInput,
            _ => Self::Unexpected,
        }
    }
}

impl From<u32> for XdgPositionerError {
    fn from(value: u32) -> (r: Self) {
        match value {
            0 => Self::InvalidInput,
            _ => Self::Unexpected,
        }
    }
}

impl FromSpecImpl<u32> for XdgPositionerError {
    open spec fn obeys_from_spec() -> bool {
        true
    }

    open spec fn from_spec(value: u32) -> Self {
        Self::spec_from(value)
    }
}

/// Xdg_positioner:anchor enum.
#[allow(non_camel_case_types)]
#[derive(Debug, Clone, Copy, PartialEq, Eq, Structural)]
pub enum XdgPositionerAnchor {
    Nil,
    Top,
    Bottom,
    Left,
    Right,
    TopLeft,
    BottomLeft,
    TopRight,
    BottomRight,
    /// Any value the protocol does not name.
    Unexpected,
}

impl XdgPositionerAnchor {
    /// The variant that the wire value `value` stands for.
    pub open spec fn spec_from(value: u32) -> Self {
        match value {
            0 => Self::Nil,
            1 => Self::Top,
            2 => Self::Bottom,
            3 => Self::Left,
            4 => Self::Right,
            5 => Self::TopLeft,
            6 => Self::BottomLeft,
            7 => Self::TopRight,
            8 => Self::BottomRight,
            _ => Self::Unexpected,
        }
    }
}

impl From<u32> for XdgPositionerAnchor {
    fn from(value: u32) -> (r: Self) {
        match value {
            0 => Self::Nil,
            1 => Self::Top,
            2 => Self::Bottom,
            3 => Self::Left,
            4 => Self::Right,
            5 => Self::TopLeft,
            6 => Self::BottomLeft,
            7 => Self::TopRight,
            8 => Self::BottomRight,
            _ => Self::Unexpected,
        }
    }
}

impl FromSpecImpl<u32> for XdgPositionerAnchor {
    open spec fn obeys_from_spec() -> bool {
        true
    }

    open spec fn from_spec(value: u32) -> Self {
        Self::spec_from(value)
    }
}

/// Xdg_positioner:gravity enum.
#[allow(non_camel_case_types)]
#[derive(Debug, Clone, Copy, PartialEq, Eq, Structural)]
pub enum XdgPositionerGravity {
    Nil,
    Top,
    Bottom,
    Left,
    Right,
    TopLeft,
    BottomLeft,
    TopRight,
    BottomRight,
    /// Any value the protocol does not name.
    Unexpected,
}

impl XdgPositionerGravity {
    /// The variant that the wire value `value` stands for.
    pub open spec fn spec_from(value: u32) -> Self {
        match value {
            0 => Self::Nil,
            1 => Self::Top,
            2 => Self::Bottom,
            3 => Self::Left,
            4 => Self::Right,
            5 => Self::TopLeft,
            6 => Self::BottomLeft,
            7 => Self::TopRight,
            8 => Self::BottomRight,
            _ => Self::Unexpected,
        }
    }
}

impl From<u32> for XdgPositionerGravity {
    fn from(value: u32) -> (r: Self) {
        match value {
            0 => Self::Nil,
            1 => Self::Top,
            2 => Self::Bottom,
            3 => Self::Left,
            4 => Self::Right,
            5 => Self::TopLeft,
            6 => Self::BottomLeft,
            7 => Self::TopRight,
            8 => Self::BottomRight,
            _ => Self::Unexpected,
        }
    }
}

impl FromSpecImpl<u32> for XdgPositionerGravity {
    open spec fn obeys_from_spec() -> bool {
        true
    }

    open spec fn from_spec(value: u32) -> Self {
        Self::spec_from(value)
    }
}

/// Xdg_positioner:constraint_adjustment enum The constraint adjustment value
/// define ways the compositor will adjust the position of the surface, if the
/// unadjusted position would result in the surface being partly constrained.
#[derive(Debug, Clone, Copy, PartialEq, Eq, Structural)]
pub struct XdgPositionerConstraintAdjustment {
    value: u32,
}

impl From<u32> for XdgPositionerConstraintAdjustment {
    fn from(value: u32) -> (r: Self)
        ensures
            r.bits() == value,
    {
        Self { value }
    }
}

impl FromSpecImpl<u32> for XdgPositionerConstraintAdjustment {
    open spec fn obeys_from_spec() -> bool {
        true
    }

    closed spec fn from_spec(value: u32) -> Self {
        Self { value }
    }
}

impl XdgPositionerConstraintAdjustment {
    /// The bits that are set.
    pub closed spec fn bits(self) -> u32 {
        self.value
    }

    /// Two bit fields with the same bits set are the same value.
    pub proof fn lemma_bits_eq(a: Self, b: Self)
        requires
            a.bits() == b.bits(),
        ensures
            a == b,
    {
    }

    /// The bit field read from the wire keeps every bit of the word.
    pub proof fn lemma_from_bits(value: u32)
        ensures
            <Self as vstd::std_specs::convert::FromSpec<u32>>::from_spec(value).bits() == value,
    {
    }

    /// The flag `none`.
    pub fn none() -> (r: Self)
        ensures
            r.bits() == 0,
    {
        XdgPositionerConstraintAdjustment { value: 0 }
    }

    /// The flag `slidex`.
    pub fn slidex() -> (r: Self)
        ensures
            r.bits() == 1,
    {
        XdgPositionerConstraintAdjustment { value: 1 }
    }

    /// The flag `slidey`.
    pub fn slidey() -> (r: Self)
        ensures
            r.bits() == 2,
    {
        XdgPositionerConstraintAdjustment { value: 2 }
    }

    /// The flag `flipx`.
    pub fn flipx() -> (r: Self)
        ensures
            r.bits() == 4,
    {
        XdgPositionerConstraintAdjustment { value: 4 }
    }

    /// The flag `flipy`.
    pub fn flipy() -> (r: Self)
        ensures
            r.bits() == 8,
    {
        XdgPositionerConstraintAdjustment { value: 8 }
    }

    /// The flag `resizex`.
    pub fn resizex() -> (r: Self)
        ensures
            r.bits() == 16,
    {
        XdgPositionerConstraintAdjustment { value: 16 }
    }

    /// The flag `resizey`.
    pub fn resizey() -> (r: Self)
        ensures
            r.bits() == 32,
    {
        XdgPositionerConstraintAdjustment { value: 32 }
    }

    /// The bit field with exactly the bits of `value`, as read from the wire.
    pub fn from_bits(value: u32) -> (r: Self)
        ensures
            r.bits() == value,
    {
        XdgPositionerConstraintAdjustment { value }
    }

    /// No bit set.
    pub fn new() -> (r: Self)
        ensures
            r.bits() == 0,
    {
        XdgPositionerConstraintAdjustment { value: 0 }
    }

    /// Whether any bit of `flag` is set in `self`.
    pub fn contains(&self, flag: Self) -> (r: bool)
        ensures
            r == (self.bits() & flag.bits() != 0),
    {
        self.value & flag.value != 0
    }

    /// Sets the bits of `flag`.
    pub fn insert(&mut self, flag: Self)
        ensures
            final(self).bits() == old(self).bits() | flag.bits(),
    {
        self.value |= flag.value;
    }

    /// Clears the bits of `flag`.
    pub fn remove(&mut self, flag: Self)
        ensures
            final(self).bits() == old(self).bits() & !flag.bits(),
    {
        self.value &= !flag.value;
    }
}

impl core::ops::BitAnd for XdgPositionerConstraintAdjustment {
    type Output = Self;

    fn bitand(self, rhs: Self) -> (r: Self)
        ensures
            r.bits() == self.bits() & rhs.bits(),
    {
        Self { value: self.value & rhs.value }
    }
}

impl BitAndSpecImpl for XdgPositionerConstraintAdjustment {
    open spec fn obeys_bitand_spec() -> bool {
        true
    }

    open spec fn bitand_req(self, rhs: Self) -> bool {
        true
    }

    closed spec fn bitand_spec(self, rhs: Self) -> Self {
        Self { value: self.value & rhs.value }
    }
}

impl core::ops::BitOr for XdgPositionerConstraintAdjustment {
    type Output = Self;

    fn bitor(self, rhs: Self) -> (r: Self)
        ensures
            r.bits() == self.bits() | rhs.bits(),
    {
        Self { value: self.value | rhs.value }
    }
}

impl BitOrSpecImpl for XdgPositionerConstraintAdjustment {
    open spec fn obeys_bitor_spec() -> bool {
        true
    }

    open spec fn bitor_req(self, rhs: Self) -> bool {
        true
    }

    closed spec fn bitor_spec(self, rhs: Self) -> Self {
        Self { value: self.value | rhs.value }
    }
}

impl core::ops::BitOrAssign for XdgPositionerConstraintAdjustment {
    fn bitor_assign(&mut self, rhs: Self)
        ensures
            final(self).bits() == old(self).bits() | rhs.bits(),
    {
        self.value |= rhs.value;
    }
}

/// Xdg_surface:error enum.
#[allow(non_camel_case_types)]
#[derive(Debug, Clone, Copy, PartialEq, Eq, Structural)]
pub enum XdgSurfaceError {
    /// Surface was not fully constructed.
    NotConstructed,
    /// Surface was already constructed.
    AlreadyConstructed,
    /// Attaching a buffer to an unconfigured surface.
    UnconfiguredBuffer,
    /// Invalid serial number when acking a configure event.
    InvalidSerial,
    /// Width or height was zero or negative.
    InvalidSize,
    /// Surface was destroyed before its role object.
    DefunctRoleObject,
    /// Any value the protocol does not name.
    Unexpected,
}

impl XdgSurfaceError {
    /// The variant that the wire value `value` stands for.
    pub open spec fn spec_from(value: u32) -> Self {
        match value {
            1 => Self::NotConstructed,
            2 => Self::AlreadyConstructed,
            3 => Self::UnconfiguredBuffer,
            4 => Self::InvalidSerial,
            5 => Self::InvalidSize,
            6 => Self::DefunctRoleObject,
            _ => Self::Unexpected,
        }
    }
}

impl From<u32> for XdgSurfaceError {
    fn from(value: u32) -> (r: Self) {
        match value {
            1 => Self::NotConstructed,
            2 => Self::AlreadyConstructed,
            3 => Self::UnconfiguredBuffer,
            4 => Self::InvalidSerial,
            5 => Self::InvalidSize,
            6 => Self::DefunctRoleObject,
            _ => Self::Unexpected,
        }
    }
}

impl FromSpecImpl<u32> for XdgSurfaceError {
    open spec fn obeys_from_spec() -> bool {
        true
    }

    open spec fn from_spec(value: u32) -> Self {
        Self::spec_from(value)
    }
}

/// Xdg_toplevel:error enum.
#[allow(non_camel_case_types)]
#[derive(Debug, Clone, Copy, PartialEq, Eq, Structural)]
pub enum XdgToplevelError {
    /// Provided value is not a valid variant of the resize_edge enum.
    InvalidResizeEdge,
    /// Invalid parent toplevel.
    InvalidParent,
    /// Client provided an invalid min or max size.
    InvalidSize,
    /// Any value the protocol does not name.
    Unexpected,
}

impl XdgToplevelError {
    /// The variant that the wire value `value` stands for.
    pub open spec fn spec_from(value: u32) -> Self {
        match value {
            0 => Self::InvalidResizeEdge,
            1 => Self::InvalidParent,
            2 => Self::InvalidSize,
            _ => Self::Unexpected,
        }
    }
}

impl From<u32> for XdgToplevelError {
    fn from(value: u32) -> (r: Self) {
        match value {
            0 => Self::InvalidResizeEdge,
            1 => Self::InvalidParent,
            2 => Self::InvalidSize,
            _ => Self::Unexpected,
        }
    }
}

impl FromSpecImpl<u32> for XdgToplevelError {
    open spec fn obeys_from_spec() -> bool {
        true
    }

    open spec fn from_spec(value: u32) -> Self {
        Self::spec_from(value)
    }
}

/// Xdg_toplevel:resize_edge enum These values are used to indicate which edge
/// of a surface is being dragged in a resize operation.
#[allow(non_camel_case_types)]
#[derive(Debug, Clone, Copy, PartialEq, Eq, Structural)]
pub enum XdgToplevelResizeEdge {
    Nil,
    Top,
    Bottom,
    Left,
    TopLeft,
    BottomLeft,
    Right,
    TopRight,
    BottomRight,
    /// Any value the protocol does not name.
    Unexpected,
}

impl XdgToplevelResizeEdge {
    /// The variant that the wire value `value` stands for.
    pub open spec fn spec_from(value: u32) -> Self {
        match value {
            0 => Self::Nil,
            1 => Self::Top,
            2 => Self::Bottom,
            4 => Self::Left,
            5 => Self::TopLeft,
            6 => Self::BottomLeft,
            8 => Self::Right,
            9 => Self::TopRight,
            10 => Self::BottomRight,
            _ => Self::Unexpected,
        }
    }
}

impl From<u32> for XdgToplevelResizeEdge {
    fn from(value: u32) -> (r: Self) {
        match value {
            0 => Self::Nil,
            1 => Self::Top,
            2 => Self::Bottom,
            4 => Self::Left,
            5 => Self::TopLeft,
            6 => Self::BottomLeft,
            8 => Self::Right,
            9 => Self::TopRight,
            10 => Self::BottomRight,
            _ => Self::Unexpected,
        }
    }
}

impl FromSpecImpl<u32> for XdgToplevelResizeEdge {
    open spec fn obeys_from_spec() -> bool {
        true
    }

    open spec fn from_spec(value: u32) -> Self {
        Self::spec_from(value)
    }
}

/// Xdg_toplevel:state enum The different state values used on the surface. This
/// is designed for state values like maximized, fullscreen.
#[allow(non_camel_case_types)]
#[derive(Debug, Clone, Copy, PartialEq, Eq, Structural)]
pub enum XdgToplevelState {
    /// The surface is maximized.
    Maximized,
    /// The surface is fullscreen.
    Fullscreen,
    /// The surface is being resized.
    Resizing,
    /// The surface is now activated.
    Activated,
    TiledLeft,
    TiledRight,
    TiledTop,
    TiledBottom,
    /// Any value the protocol does not name.
    Unexpected,
}

impl XdgToplevelState {
    /// The variant that the wire value `value` stands for.
    pub open spec fn spec_from(value: u32) -> Self {
        match value {
            1 => Self::Maximized,
            2 => Self::Fullscreen,
            3 => Self::Resizing,
            4 => Self::Activated,
            5 => Self::TiledLeft,
            6 => Self::TiledRight,
            7 => Self::TiledTop,
            8 => Self::TiledBottom,
            _ => Self::Unexpected,
        }
    }
}

impl From<u32> for XdgToplevelState {
    fn from(value: u32) -> (r: Self) {
        match value {
            1 => Self::Maximized,
            2 => Self::Fullscreen,
            3 => Self::Resizing,
            4 => Self::Activated,
            5 => Self::TiledLeft,
            6 => Self::TiledRight,
            7 => Self::TiledTop,
            8 => Self::TiledBottom,
            _ => Self::Unexpected,
        }
    }
}

impl FromSpecImpl<u32> for XdgToplevelState {
    open spec fn obeys_from_spec() -> bool {
        true
    }

    open spec fn from_spec(value: u32) -> Self {
        Self::spec_from(value)
    }
}

/// Xdg_toplevel:wm_capabilities enum.
#[allow(non_camel_case_types)]
#[derive(Debug, Clone, Copy, PartialEq, Eq, Structural)]
pub enum XdgToplevelWmCapabilities {
    /// Show_window_menu is available.
    WindowMenu,
    /// Set_maximized and unset_maximized are available.
    Maximize,
    /// Set_fullscreen and unset_fullscreen are available.
    Fullscreen,
    /// Set_minimized is available.
    Minimize,
    /// Any value the protocol does not name.
    Unexpected,
}

impl XdgToplevelWmCapabilities {
    /// The variant that the wire value `value` stands for.
    pub open spec fn spec_from(value: u32) -> Self {
        match value {
            1 => Self::WindowMenu,
            2 => Self::Maximize,
            3 => Self::Fullscreen,
            4 => Self::Minimize,
            _ => Self::Unexpected,
        }
    }
}

impl From<u32> for XdgToplevelWmCapabilities {
    fn from(value: u32) -> (r: Self) {
        match value {
            1 => Self::WindowMenu,
            2 => Self::Maximize,
            3 => Self::Fullscreen,
            4 => Self::Minimize,
            _ => Self::Unexpected,
        }
    }
}

impl FromSpecImpl<u32> for XdgToplevelWmCapabilities {
    open spec fn obeys_from_spec() -> bool {
        true
    }

    open spec fn from_spec(value: u32) -> Self {
        Self::spec_from(value)
    }
}

/// Xdg_popup:error enum.
#[allow(non_camel_case_types)]
#[derive(Debug, Clone, Copy, PartialEq, Eq, Structural)]
pub enum XdgPopupError {
    /// Tried to grab after being mapped.
    InvalidGrab,
    /// Any value the protocol does not name.
    Unexpected,
}

impl XdgPopupError {
    /// The variant that the wire value `value` stands for.
    pub open spec fn spec_from(value: u32) -> Self {
        match value {
            0 => Self::InvalidGrab,
            _ => Self::Unexpected,
        }
    }
}

impl From<u32> for XdgPopupError {
    fn from(value: u32) -> (r: Self) {
        match value {
            0 => Self::InvalidGrab,
            _ => Self::Unexpected,
        }
    }
}

impl FromSpecImpl<u32> for XdgPopupError {
    open spec fn obeys_from_spec() -> bool {
        true
    }

    open spec fn from_spec(value: u32) -> Self {
        Self::spec_from(value)
    }
}

/// Wl_display:error enum These errors are global and can be emitted in response
/// to any server request.
#[allow(non_camel_case_types)]
#[derive(Debug, Clone, Copy, PartialEq, Eq, Structural)]
pub enum WlDisplayError {
    /// Server couldn't find object.
    InvalidObject,
    /// Method doesn't exist on the specified interface or malformed request.
    InvalidMethod,
    /// Server is out of memory.
    NoMemory,
    /// Implementation error in compositor.
    Implementation,
    /// Any value the protocol does not name.
    Unexpected,
}

impl WlDisplayError {
    /// The variant that the wire value `value` stands for.
    pub open spec fn spec_from(value: u32) -> Self {
        match value {
            0 => Self::InvalidObject,
            1 => Self::InvalidMethod,
            2 => Self::NoMemory,
            3 => Self::Implementation,
            _ => Self::Unexpected,
        }
    }
}

impl From<u32> for WlDisplayError {
    fn from(value: u32) -> (r: Self) {
        match value {
            0 => Self::InvalidObject,
            1 => Self::InvalidMethod,
            2 => Self::NoMemory,
            3 => Self::Implementation,
            _ => Self::Unexpected,
        }
    }
}

impl FromSpecImpl<u32> for WlDisplayError {
    open spec fn obeys_from_spec() -> bool {
        true
    }

    open spec fn from_spec(value: u32) -> Self {
        Self::spec_from(value)
    }
}

/// Wl_shm:error enum These errors can be emitted in response to wl_shm
/// requests.
#[allow(non_camel_case_types)]
#[derive(Debug, Clone, Copy, PartialEq, Eq, Structural)]
pub enum WlShmError {
    /// Buffer format is not known.
    InvalidFormat,
    /// Invalid size or stride during pool or buffer creation.
    InvalidStride,
    /// Mmapping the file descriptor failed.
    InvalidFd,
    /// Any value the protocol does not name.
    Unexpected,
}

impl WlShmError {
    /// The variant that the wire value `value` stands for.
    pub open spec fn spec_from(value: u32) -> Self {
        match value {
            0 => Self::InvalidFormat,
            1 => Self::InvalidStride,
            2 => Self::InvalidFd,
            _ => Self::Unexpected,
        }
    }
}

impl From<u32> for WlShmError {
    fn from(value: u32) -> (r: Self) {
        match value {
            0 => Self::InvalidFormat,
            1 => Self::InvalidStride,
            2 => Self::InvalidFd,
            _ => Self::Unexpected,
        }
    }
}

impl FromSpecImpl<u32> for WlShmError {
    open spec fn obeys_from_spec() -> bool {
        true
    }

    open spec fn from_spec(value: u32) -> Self {
        Self::spec_from(value)
    }
}

/// Wl_shm:format enum This describes the memory layout of an individual pixel.
#[allow(non_camel_case_types)]
#[derive(Debug, Clone, Copy, PartialEq, Eq, Structural)]
pub enum WlShmFormat {
    /// 32-bit ARGB format, [31:0] A:R:G:B 8:8:8:8 little endian.
    ARGB8888,
    /// 32-bit RGB format, [31:0] x:R:G:B 8:8:8:8 little endian.
    XRGB8888,
    /// 8-bit color index format, [7:0] C.
    C8,
    /// 8-bit RGB format, [7:0] R:G:B 3:3:2.
    RGB332,
    /// 8-bit BGR format, [7:0] B:G:R 2:3:3.
    BGR233,
    /// 16-bit xRGB format, [15:0] x:R:G:B 4:4:4:4 little endian.
    XRGB4444,
    /// 16-bit xBGR format, [15:0] x:B:G:R 4:4:4:4 little endian.
    XBGR4444,
    /// 16-bit RGBx format, [15:0] R:G:B:x 4:4:4:4 little endian.
    RGBX4444,
    /// 16-bit BGRx format, [15:0] B:G:R:x 4:4:4:4 little endian.
    BGRX4444,
    /// 16-bit ARGB format, [15:0] A:R:G:B 4:4:4:4 little endian.
    ARGB4444,
    /// 16-bit ABGR format, [15:0] A:B:G:R 4:4:4:4 little endian.
    ABGR4444,
    /// 16-bit RBGA format, [15:0] R:G:B:A 4:4:4:4 little endian.
    RGBA4444,
    /// 16-bit BGRA format, [15:0] B:G:R:A 4:4:4:4 little endian.
    BGRA4444,
    /// 16-bit xRGB format, [15:0] x:R:G:B 1:5:5:5 little endian.
    XRGB1555,
    /// 16-bit xBGR 1555 format, [15:0] x:B:G:R 1:5:5:5 little endian.
    XBGR1555,
    /// 16-bit RGBx 5551 format, [15:0] R:G:B:x 5:5:5:1 little endian.
    RGBX5551,
    /// 16-bit BGRx 5551 format, [15:0] B:G:R:x 5:5:5:1 little endian.
    BGRX5551,
    /// 16-bit ARGB 1555 format, [15:0] A:R:G:B 1:5:5:5 little endian.
    ARGB1555,
    /// 16-bit ABGR 1555 format, [15:0] A:B:G:R 1:5:5:5 little endian.
    ABGR1555,
    /// 16-bit RGBA 5551 format, [15:0] R:G:B:A 5:5:5:1 little endian.
    RGBA5551,
    /// 16-bit BGRA 5551 format, [15:0] B:G:R:A 5:5:5:1 little endian.
    BGRA5551,
    /// 16-bit RGB 565 format, [15:0] R:G:B 5:6:5 little endian.
    RGB565,
    /// 16-bit BGR 565 format, [15:0] B:G:R 5:6:5 little endian.
    BGR565,
    /// 24-bit RGB format, [23:0] R:G:B little endian.
    RGB888,
    /// 24-bit BGR format, [23:0] B:G:R little endian.
    BGR888,
    /// 32-bit xBGR format, [31:0] x:B:G:R 8:8:8:8 little endian.
    XBGR8888,
    /// 32-bit RGBx format, [31:0] R:G:B:x 8:8:8:8 little endian.
    RGBX8888,
    /// 32-bit BGRx format, [31:0] B:G:R:x 8:8:8:8 little endian.
    BGRX8888,
    /// 32-bit ABGR format, [31:0] A:B:G:R 8:8:8:8 little endian.
    ABGR8888,
    /// 32-bit RGBA format, [31:0] R:G:B:A 8:8:8:8 little endian.
    RGBA8888,
    /// 32-bit BGRA format, [31:0] B:G:R:A 8:8:8:8 little endian.
    BGRA8888,
    /// 32-bit xRGB format, [31:0] x:R:G:B 2:10:10:10 little endian.
    XRGB2101010,
    /// 32-bit xBGR format, [31:0] x:B:G:R 2:10:10:10 little endian.
    XBGR2101010,
    /// 32-bit RGBx format, [31:0] R:G:B:x 10:10:10:2 little endian.
    RGBX1010102,
    /// 32-bit BGRx format, [31:0] B:G:R:x 10:10:10:2 little endian.
    BGRX1010102,
    /// 32-bit ARGB format, [31:0] A:R:G:B 2:10:10:10 little endian.
    ARGB2101010,
    /// 32-bit ABGR format, [31:0] A:B:G:R 2:10:10:10 little endian.
    ABGR2101010,
    /// 32-bit RGBA format, [31:0] R:G:B:A 10:10:10:2 little endian.
    RGBA1010102,
    /// 32-bit BGRA format, [31:0] B:G:R:A 10:10:10:2 little endian.
    BGRA1010102,
    /// Packed YCbCr format, [31:0] Cr0:Y1:Cb0:Y0 8:8:8:8 little endian.
    YUYV,
    /// Packed YCbCr format, [31:0] Cb0:Y1:Cr0:Y0 8:8:8:8 little endian.
    YVYU,
    /// Packed YCbCr format, [31:0] Y1:Cr0:Y0:Cb0 8:8:8:8 little endian.
    UYVY,
    /// Packed YCbCr format, [31:0] Y1:Cb0:Y0:Cr0 8:8:8:8 little endian.
    VYUY,
    /// Packed AYCbCr format, [31:0] A:Y:Cb:Cr 8:8:8:8 little endian.
    AYUV,
    /// 2 plane YCbCr Cr:Cb format, 2x2 subsampled Cr:Cb plane.
    NV12,
    /// 2 plane YCbCr Cb:Cr format, 2x2 subsampled Cb:Cr plane.
    NV21,
    /// 2 plane YCbCr Cr:Cb format, 2x1 subsampled Cr:Cb plane.
    NV16,
    /// 2 plane YCbCr Cb:Cr format, 2x1 subsampled Cb:Cr plane.
    NV61,
    /// 3 plane YCbCr format, 4x4 subsampled Cb (1) and Cr (2) planes.
    YUV410,
    /// 3 plane YCbCr format, 4x4 subsampled Cr (1) and Cb (2) planes.
    YVU410,
    /// 3 plane YCbCr format, 4x1 subsampled Cb (1) and Cr (2) planes.
    YUV411,
    /// 3 plane YCbCr format, 4x1 subsampled Cr (1) and Cb (2) planes.
    YVU411,
    /// 3 plane YCbCr format, 2x2 subsampled Cb (1) and Cr (2) planes.
    YUV420,
    /// 3 plane YCbCr format, 2x2 subsampled Cr (1) and Cb (2) planes.
    YVU420,
    /// 3 plane YCbCr format, 2x1 subsampled Cb (1) and Cr (2) planes.
    YUV422,
    /// 3 plane YCbCr format, 2x1 subsampled Cr (1) and Cb (2) planes.
    YVU422,
    /// 3 plane YCbCr format, non-subsampled Cb (1) and Cr (2) planes.
    YUV444,
    /// 3 plane YCbCr format, non-subsampled Cr (1) and Cb (2) planes.
    YVU444,
    /// [7:0] R.
    R8,
    /// [15:0] R little endian.
    R16,
    /// [15:0] R:G 8:8 little endian.
    RG88,
    /// [15:0] G:R 8:8 little endian.
    GR88,
    /// [31:0] R:G 16:16 little endian.
    RG1616,
    /// [31:0] G:R 16:16 little endian.
    GR1616,
    /// [63:0] x:R:G:B 16:16:16:16 little endian.
    XRGB16161616F,
    /// [63:0] x:B:G:R 16:16:16:16 little endian.
    XBGR16161616F,
    /// [63:0] A:R:G:B 16:16:16:16 little endian.
    ARGB16161616F,
    /// [63:0] A:B:G:R 16:16:16:16 little endian.
    ABGR16161616F,
    /// [31:0] X:Y:Cb:Cr 8:8:8:8 little endian.
    XYUV8888,
    /// [23:0] Cr:Cb:Y 8:8:8 little endian.
    VUY888,
    /// Y followed by U then V, 10:10:10. Non-linear modifier only.
    VUY101010,
    /// [63:0] Cr0:0:Y1:0:Cb0:0:Y0:0 10:6:10:6:10:6:10:6 little endian per 2 Y
    /// pixels.
    Y210,
    /// [63:0] Cr0:0:Y1:0:Cb0:0:Y0:0 12:4:12:4:12:4:12:4 little endian per 2 Y
    /// pixels.
    Y212,
    /// [63:0] Cr0:Y1:Cb0:Y0 16:16:16:16 little endian per 2 Y pixels.
    Y216,
    /// [31:0] A:Cr:Y:Cb 2:10:10:10 little endian.
    Y410,
    /// [63:0] A:0:Cr:0:Y:0:Cb:0 12:4:12:4:12:4:12:4 little endian.
    Y412,
    /// [63:0] A:Cr:Y:Cb 16:16:16:16 little endian.
    Y416,
    /// [31:0] X:Cr:Y:Cb 2:10:10:10 little endian.
    XVYU2101010,
    /// [63:0] X:0:Cr:0:Y:0:Cb:0 12:4:12:4:12:4:12:4 little endian.
    XVYU12_16161616,
    /// [63:0] X:Cr:Y:Cb 16:16:16:16 little endian.
    XVYU16161616,
    /// [63:0] A3:A2:Y3:0:Cr0:0:Y2:0:A1:A0:Y1:0:Cb0:0:Y0:0
    /// 1:1:8:2:8:2:8:2:1:1:8:2:8:2:8:2 little endian.
    Y0L0,
    /// [63:0] X3:X2:Y3:0:Cr0:0:Y2:0:X1:X0:Y1:0:Cb0:0:Y0:0
    /// 1:1:8:2:8:2:8:2:1:1:8:2:8:2:8:2 little endian.
    X0L0,
    /// [63:0] A3:A2:Y3:Cr0:Y2:A1:A0:Y1:Cb0:Y0 1:1:10:10:10:1:1:10:10:10 little
    /// endian.
    Y0L2,
    /// [63:0] X3:X2:Y3:Cr0:Y2:X1:X0:Y1:Cb0:Y0 1:1:10:10:10:1:1:10:10:10 little
    /// endian.
    X0L2,
    YUV420_8BIT,
    YUV420_10BIT,
    XRGB8888_A8,
    XBGR8888_A8,
    RGBX8888_A8,
    BGRX8888_A8,
    RGB888_A8,
    BGR888_A8,
    RGB565_A8,
    BGR565_A8,
    /// Non-subsampled Cr:Cb plane.
    NV24,
    /// Non-subsampled Cb:Cr plane.
    NV42,
    /// 2x1 subsampled Cr:Cb plane, 10 bit per channel.
    P210,
    /// 2x2 subsampled Cr:Cb plane 10 bits per channel.
    P010,
    /// 2x2 subsampled Cr:Cb plane 12 bits per channel.
    P012,
    /// 2x2 subsampled Cr:Cb plane 16 bits per channel.
    P016,
    /// [63:0] A:x:B:x:G:x:R:x 10:6:10:6:10:6:10:6 little endian.
    AXBXGXRX106106106106,
    /// 2x2 subsampled Cr:Cb plane.
    NV15,
    Q410,
    Q401,
    /// [63:0] x:R:G:B 16:16:16:16 little endian.
    XRGB16161616,
    /// [63:0] x:B:G:R 16:16:16:16 little endian.
    XBGR16161616,
    /// [63:0] A:R:G:B 16:16:16:16 little endian.
    ARGB16161616,
    /// [63:0] A:B:G:R 16:16:16:16 little endian.
    ABGR16161616,
    /// Any value the protocol does not name.
    Unexpected,
}

impl WlShmFormat {
    /// The variant that the wire value `value` stands for.
    pub open spec fn spec_from(value: u32) -> Self {
        match value {
            0 => Self::ARGB8888,
            1 => Self::XRGB8888,
            538982467 => Self::C8,
            943867730 => Self::RGB332,
            944916290 => Self::BGR233,
            842093144 => Self::XRGB4444,
            842089048 => Self::XBGR4444,
            842094674 => Self::RGBX4444,
            842094658 => Self::BGRX4444,
            842093121 => Self::ARGB4444,
            842089025 => Self::ABGR4444,
            842088786 => Self::RGBA4444,
            842088770 => Self::BGRA4444,
            892424792 => Self::XRGB1555,
            892420696 => Self::XBGR1555,
            892426322 => Self::RGBX5551,
            892426306 => Self::BGRX5551,
            892424769 => Self::ARGB1555,
            892420673 => Self::ABGR1555,
            892420434 => Self::RGBA5551,
            892420418 => Self::BGRA5551,
            909199186 => Self::RGB565,
            909199170 => Self::BGR565,
            875710290 => Self::RGB888,
            875710274 => Self::BGR888,
            875709016 => Self::XBGR8888,
            875714642 => Self::RGBX8888,
            875714626 => Self::BGRX8888,
            875708993 => Self::ABGR8888,
            875708754 => Self::RGBA8888,
            875708738 => Self::BGRA8888,
            808669784 => Self::XRGB2101010,
            808665688 => Self::XBGR2101010,
            808671314 => Self::RGBX1010102,
            808671298 => Self::BGRX1010102,
            808669761 => Self::ARGB2101010,
            808665665 => Self::ABGR2101010,
            808665426 => Self::RGBA1010102,
            808665410 => Self::BGRA1010102,
            1448695129 => Self::YUYV,
            1431918169 => Self::YVYU,
            1498831189 => Self::UYVY,
            1498765654 => Self::VYUY,
            1448433985 => Self::AYUV,
            842094158 => Self::NV12,
            825382478 => Self::NV21,
            909203022 => Self::NV16,
            825644622 => Self::NV61,
            961959257 => Self::YUV410,
            961893977 => Self::YVU410,
            825316697 => Self::YUV411,
            825316953 => Self::YVU411,
            842093913 => Self::YUV420,
            842094169 => Self::YVU420,
            909202777 => Self::YUV422,
            909203033 => Self::YVU422,
            875713881 => Self::YUV444,
            875714137 => Self::YVU444,
            538982482 => Self::R8,
            540422482 => Self::R16,
            943212370 => Self::RG88,
            943215175 => Self::GR88,
            842221394 => Self::RG1616,
            842224199 => Self::GR1616,
            1211388504 => Self::XRGB16161616F,
            1211384408 => Self::XBGR16161616F,
            1211388481 => Self::ARGB16161616F,
            1211384385 => Self::ABGR16161616F,
            1448434008 => Self::XYUV8888,
            875713878 => Self::VUY888,
            808670550 => Self::VUY101010,
            808530521 => Self::Y210,
            842084953 => Self::Y212,
            909193817 => Self::Y216,
            808531033 => Self::Y410,
            842085465 => Self::Y412,
            909194329 => Self::Y416,
            808670808 => Self::XVYU2101010,
            909334104 => Self::XVYU12_16161616,
            942954072 => Self::XVYU16161616,
            810299481 => Self::Y0L0,
            810299480 => Self::X0L0,
            843853913 => Self::Y0L2,
            843853912 => Self::X0L2,
            942691673 => Self::YUV420_8BIT,
            808539481 => Self::YUV420_10BIT,
            943805016 => Self::XRGB8888_A8,
            943800920 => Self::XBGR8888_A8,
            943806546 => Self::RGBX8888_A8,
            943806530 => Self::BGRX8888_A8,
            943798354 => Self::RGB888_A8,
            943798338 => Self::BGR888_A8,
            943797586 => Self::RGB565_A8,
            943797570 => Self::BGR565_A8,
            875714126 => Self::NV24,
            842290766 => Self::NV42,
            808530512 => Self::P210,
            808530000 => Self::P010,
            842084432 => Self::P012,
            909193296 => Self::P016,
            808534593 => Self::AXBXGXRX106106106106,
            892425806 => Self::NV15,
            808531025 => Self::Q410,
            825242705 => Self::Q401,
            942953048 => Self::XRGB16161616,
            942948952 => Self::XBGR16161616,
            942953025 => Self::ARGB16161616,
            942948929 => Self::ABGR16161616,
            _ => Self::Unexpected,
        }
    }
}

impl From<u32> for WlShmFormat {
    fn from(value: u32) -> (r: Self) {
        match value {
            0 => Self::ARGB8888,
            1 => Self::XRGB8888,
            538982467 => Self::C8,
            943867730 => Self::RGB332,
            944916290 => Self::BGR233,
            842093144 => Self::XRGB4444,
            842089048 => Self::XBGR4444,
            842094674 => Self::RGBX4444,
            842094658 => Self::BGRX4444,
            842093121 => Self::ARGB4444,
            842089025 => Self::ABGR4444,
            842088786 => Self::RGBA4444,
            842088770 => Self::BGRA4444,
            892424792 => Self::XRGB1555,
            892420696 => Self::XBGR1555,
            892426322 => Self::RGBX5551,
            892426306 => Self::BGRX5551,
            892424769 => Self::ARGB1555,
            892420673 => Self::ABGR1555,
            892420434 => Self::RGBA5551,
            892420418 => Self::BGRA5551,
            909199186 => Self::RGB565,
            909199170 => Self::BGR565,
            875710290 => Self::RGB888,
            875710274 => Self::BGR888,
            875709016 => Self::XBGR8888,
            875714642 => Self::RGBX8888,
            875714626 => Self::BGRX8888,
            875708993 => Self::ABGR8888,
            875708754 => Self::RGBA8888,
            875708738 => Self::BGRA8888,
            808669784 => Self::XRGB2101010,
            808665688 => Self::XBGR2101010,
            808671314 => Self::RGBX1010102,
            808671298 => Self::BGRX1010102,
            808669761 => Self::ARGB2101010,
            808665665 => Self::ABGR2101010,
            808665426 => Self::RGBA1010102,
            808665410 => Self::BGRA1010102,
            1448695129 => Self::YUYV,
            1431918169 => Self::YVYU,
            1498831189 => Self::UYVY,
            1498765654 => Self::VYUY,
            1448433985 => Self::AYUV,
            842094158 => Self::NV12,
            825382478 => Self::NV21,
            909203022 => Self::NV16,
            825644622 => Self::NV61,
            961959257 => Self::YUV410,
            961893977 => Self::YVU410,
            825316697 => Self::YUV411,
            825316953 => Self::YVU411,
            842093913 => Self::YUV420,
            842094169 => Self::YVU420,
            909202777 => Self::YUV422,
            909203033 => Self::YVU422,
            875713881 => Self::YUV444,
            875714137 => Self::YVU444,
            538982482 => Self::R8,
            540422482 => Self::R16,
            943212370 => Self::RG88,
            943215175 => Self::GR88,
            842221394 => Self::RG1616,
            842224199 => Self::GR1616,
            1211388504 => Self::XRGB16161616F,
            1211384408 => Self::XBGR16161616F,
            1211388481 => Self::ARGB16161616F,
            1211384385 => Self::ABGR16161616F,
            1448434008 => Self::XYUV8888,
            875713878 => Self::VUY888,
            808670550 => Self::VUY101010,
            808530521 => Self::Y210,
            842084953 => Self::Y212,
            909193817 => Self::Y216,
            808531033 => Self::Y410,
            842085465 => Self::Y412,
            909194329 => Self::Y416,
            808670808 => Self::XVYU2101010,
            909334104 => Self::XVYU12_16161616,
            942954072 => Self::XVYU16161616,
            810299481 => Self::Y0L0,
            810299480 => Self::X0L0,
            843853913 => Self::Y0L2,
            843853912 => Self::X0L2,
            942691673 => Self::YUV420_8BIT,
            808539481 => Self::YUV420_10BIT,
            943805016 => Self::XRGB8888_A8,
            943800920 => Self::XBGR8888_A8,
            943806546 => Self::RGBX8888_A8,
            943806530 => Self::BGRX8888_A8,
            943798354 => Self::RGB888_A8,
            943798338 => Self::BGR888_A8,
            943797586 => Self::RGB565_A8,
            943797570 => Self::BGR565_A8,
            875714126 => Self::NV24,
            842290766 => Self::NV42,
            808530512 => Self::P210,
            808530000 => Self::P010,
            842084432 => Self::P012,
            909193296 => Self::P016,
            808534593 => Self::AXBXGXRX106106106106,
            892425806 => Self::NV15,
            808531025 => Self::Q410,
            825242705 => Self::Q401,
            942953048 => Self::XRGB16161616,
            942948952 => Self::XBGR16161616,
            942953025 => Self::ARGB16161616,
            942948929 => Self::ABGR16161616,
            _ => Self::Unexpected,
        }
    }
}

impl FromSpecImpl<u32> for WlShmFormat {
    open spec fn obeys_from_spec() -> bool {
        true
    }

    open spec fn from_spec(value: u32) -> Self {
        Self::spec_from(value)
    }
}

/// Wl_data_offer:error enum.
#[allow(non_camel_case_types)]
#[derive(Debug, Clone, Copy, PartialEq, Eq, Structural)]
pub enum WlDataOfferError {
    /// Finish request was called untimely.
    InvalidFinish,
    /// Action mask contains invalid values.
    InvalidActionMask,
    /// Action argument has an invalid value.
    InvalidAction,
    /// Offer doesn't accept this request.
    InvalidOffer,
    /// Any value the protocol does not name.
    Unexpected,
}

impl WlDataOfferError {
    /// The variant that the wire value `value` stands for.
    pub open spec fn spec_from(value: u32) -> Self {
        match value {
            0 => Self::InvalidFinish,
            1 => Self::InvalidActionMask,
            2 => Self::InvalidAction,
            3 => Self::InvalidOffer,
            _ => Self::Unexpected,
        }
    }
}

impl From<u32> for WlDataOfferError {
    fn from(value: u32) -> (r: Self) {
        match value {
            0 => Self::InvalidFinish,
            1 => Self::InvalidActionMask,
            2 => Self::InvalidAction,
            3 => Self::InvalidOffer,
            _ => Self::Unexpected,
        }
    }
}

impl FromSpecImpl<u32> for WlDataOfferError {
    open spec fn obeys_from_spec() -> bool {
        true
    }

    open spec fn from_spec(value: u32) -> Self {
        Self::spec_from(value)
    }
}

/// Wl_data_source:error enum.
#[allow(non_camel_case_types)]
#[derive(Debug, Clone, Copy, PartialEq, Eq, Structural)]
pub enum WlDataSourceError {
    /// Action mask contains invalid values.
    InvalidActionMask,
    /// Source doesn't accept this request.
    InvalidSource,
    /// Any value the protocol does not name.
    Unexpected,
}

impl WlDataSourceError {
    /// The variant that the wire value `value` stands for.
    pub open spec fn spec_from(value: u32) -> Self {
        match value {
            0 => Self::InvalidActionMask,
            1 => Self::InvalidSource,
            _ => Self::Unexpected,
        }
    }
}

impl From<u32> for WlDataSourceError {
    fn from(value: u32) -> (r: Self) {
        match value {
            0 => Self::InvalidActionMask,
            1 => Self::InvalidSource,
            _ => Self::Unexpected,
        }
    }
}

impl FromSpecImpl<u32> for WlDataSourceError {
    open spec fn obeys_from_spec() -> bool {
        true
    }

    open spec fn from_spec(value: u32) -> Self {
        Self::spec_from(value)
    }
}

/// Wl_data_device:error enum.
#[allow(non_camel_case_types)]
#[derive(Debug, Clone, Copy, PartialEq, Eq, Structural)]
pub enum WlDataDeviceError {
    /// Given wl_surface has another role.
    Role,
    /// Source has already been used.
    UsedSource,
    /// Any value the protocol does not name.
    Unexpected,
}

impl WlDataDeviceError {
    /// The variant that the wire value `value` stands for.
    pub open spec fn spec_from(value: u32) -> Self {
        match value {
            0 => Self::Role,
            1 => Self::UsedSource,
            _ => Self::Unexpected,
        }
    }
}

impl From<u32> for WlDataDeviceError {
    fn from(value: u32) -> (r: Self) {
        match value {
            0 => Self::Role,
            1 => Self::UsedSource,
            _ => Self::Unexpected,
        }
    }
}

impl FromSpecImpl<u32> for WlDataDeviceError {
    open spec fn obeys_from_spec() -> bool {
        true
    }

    open spec fn from_spec(value: u32) -> Self {
        Self::spec_from(value)
    }
}

/// Wl_data_device_manager:dnd_action enum This is a bitmask of the
/// available/preferred actions in a drag-and-drop operation.
#[derive(Debug, Clone, Copy, PartialEq, Eq, Structural)]
pub struct WlDataDeviceManagerDndAction {
    value: u32,
}

impl From<u32> for WlDataDeviceManagerDndAction {
    fn from(value: u32) -> (r: Self)
        ensures
            r.bits() == value,
    {
        Self { value }
    }
}

impl FromSpecImpl<u32> for WlDataDeviceManagerDndAction {
    open spec fn obeys_from_spec() -> bool {
        true
    }

    closed spec fn from_spec(value: u32) -> Self {
        Self { value }
    }
}

impl WlDataDeviceManagerDndAction {
    /// The bits that are set.
    pub closed spec fn bits(self) -> u32 {
        self.value
    }

    /// Two bit fields with the same bits set are the same value.
    pub proof fn lemma_bits_eq(a: Self, b: Self)
        requires
            a.bits() == b.bits(),
        ensures
            a == b,
    {
    }

    /// The bit field read from the wire keeps every bit of the word.
    pub proof fn lemma_from_bits(value: u32)
        ensures
            <Self as vstd::std_specs::convert::FromSpec<u32>>::from_spec(value).bits() == value,
    {
    }

    /// No action.
    pub fn none() -> (r: Self)
        ensures
            r.bits() == 0,
    {
        WlDataDeviceManagerDndAction { value: 0 }
    }

    /// Copy action.
    pub fn copy() -> (r: Self)
        ensures
            r.bits() == 1,
    {
        WlDataDeviceManagerDndAction { value: 1 }
    }

    /// Move action.
    pub fn move_() -> (r: Self)
        ensures
            r.bits() == 2,
    {
        WlDataDeviceManagerDndAction { value: 2 }
    }

    /// Ask action.
    pub fn ask() -> (r: Self)
        ensures
            r.bits() == 4,
    {
        WlDataDeviceManagerDndAction { value: 4 }
    }

    /// The bit field with exactly the bits of `value`, as read from the wire.
    pub fn from_bits(value: u32) -> (r: Self)
        ensures
            r.bits() == value,
    {
        WlDataDeviceManagerDndAction { value }
    }

    /// No bit set.
    pub fn new() -> (r: Self)
        ensures
            r.bits() == 0,
    {
        WlDataDeviceManagerDndAction { value: 0 }
    }

    /// Whether any bit of `flag` is set in `self`.
    pub fn contains(&self, flag: Self) -> (r: bool)
        ensures
            r == (self.bits() & flag.bits() != 0),
    {
        self.value & flag.value != 0
    }

    /// Sets the bits of `flag`.
    pub fn insert(&mut self, flag: Self)
        ensures
            final(self).bits() == old(self).bits() | flag.bits(),
    {
        self.value |= flag.value;
    }

    /// Clears the bits of `flag`.
    pub fn remove(&mut self, flag: Self)
        ensures
            final(self).bits() == old(self).bits() & !flag.bits(),
    {
        self.value &= !flag.value;
    }
}

impl core::ops::BitAnd for WlDataDeviceManagerDndAction {
    type Output = Self;

    fn bitand(self, rhs: Self) -> (r: Self)
        ensures
            r.bits() == self.bits() & rhs.bits(),
    {
        Self { value: self.value & rhs.value }
    }
}

impl BitAndSpecImpl for WlDataDeviceManagerDndAction {
    open spec fn obeys_bitand_spec() -> bool {
        true
    }

    open spec fn bitand_req(self, rhs: Self) -> bool {
        true
    }

    closed spec fn bitand_spec(self, rhs: Self) -> Self {
        Self { value: self.value & rhs.value }
    }
}

impl core::ops::BitOr for WlDataDeviceManagerDndAction {
    type Output = Self;

    fn bitor(self, rhs: Self) -> (r: Self)
        ensures
            r.bits() == self.bits() | rhs.bits(),
    {
        Self { value: self.value | rhs.value }
    }
}

impl BitOrSpecImpl for WlDataDeviceManagerDndAction {
    open spec fn obeys_bitor_spec() -> bool {
        true
    }

    open spec fn bitor_req(self, rhs: Self) -> bool {
        true
    }

    closed spec fn bitor_spec(self, rhs: Self) -> Self {
        Self { value: self.value | rhs.value }
    }
}

impl core::ops::BitOrAssign for WlDataDeviceManagerDndAction {
    fn bitor_assign(&mut self, rhs: Self)
        ensures
            final(self).bits() == old(self).bits() | rhs.bits(),
    {
        self.value |= rhs.value;
    }
}

/// Wl_shell:error enum.
#[allow(non_camel_case_types)]
#[derive(Debug, Clone, Copy, PartialEq, Eq, Structural)]
pub enum WlShellError {
    /// Given wl_surface has another role.
    Role,
    /// Any value the protocol does not name.
    Unexpected,
}

impl WlShellError {
    /// The variant that the wire value `value` stands for.
    pub open spec fn spec_from(value: u32) -> Self {
        match value {
            0 => Self::Role,
            _ => Self::Unexpected,
        }
    }
}

impl From<u32> for WlShellError {
    fn from(value: u32) -> (r: Self) {
        match value {
            0 => Self::Role,
            _ => Self::Unexpected,
        }
    }
}

impl FromSpecImpl<u32> for WlShellError {
    open spec fn obeys_from_spec() -> bool {
        true
    }

    open spec fn from_spec(value: u32) -> Self {
        Self::spec_from(value)
    }
}

/// Wl_shell_surface:resize enum These values are used to indicate which edge of
/// a surface is being dragged in a resize operation. The server may use this
/// information to adapt its behavior, e.g. choose an appropriate cursor image.
#[derive(Debug, Clone, Copy, PartialEq, Eq, Structural)]
pub struct WlShellSurfaceResize {
    value: u32,
}

impl From<u32> for WlShellSurfaceResize {
    fn from(value: u32) -> (r: Self)
        ensures
            r.bits() == value,
    {
        Self { value }
    }
}

impl FromSpecImpl<u32> for WlShellSurfaceResize {
    open spec fn obeys_from_spec() -> bool {
        true
    }

    closed spec fn from_spec(value: u32) -> Self {
        Self { value }
    }
}

impl WlShellSurfaceResize {
    /// The bits that are set.
    pub closed spec fn bits(self) -> u32 {
        self.value
    }

    /// Two bit fields with the same bits set are the same value.
    pub proof fn lemma_bits_eq(a: Self, b: Self)
        requires
            a.bits() == b.bits(),
        ensures
            a == b,
    {
    }

    /// The bit field read from the wire keeps every bit of the word.
    pub proof fn lemma_from_bits(value: u32)
        ensures
            <Self as vstd::std_specs::convert::FromSpec<u32>>::from_spec(value).bits() == value,
    {
    }

    /// No edge.
    pub fn none() -> (r: Self)
        ensures
            r.bits() == 0,
    {
        WlShellSurfaceResize { value: 0 }
    }

    /// Top edge.
    pub fn top() -> (r: Self)
        ensures
            r.bits() == 1,
    {
        WlShellSurfaceResize { value: 1 }
    }

    /// Bottom edge.
    pub fn bottom() -> (r: Self)
        ensures
            r.bits() == 2,
    {
        WlShellSurfaceResize { value: 2 }
    }

    /// Left edge.
    pub fn left() -> (r: Self)
        ensures
            r.bits() == 4,
    {
        WlShellSurfaceResize { value: 4 }
    }

    /// Top and left edges.
    pub fn topleft() -> (r: Self)
        ensures
            r.bits() == 5,
    {
        WlShellSurfaceResize { value: 5 }
    }

    /// Bottom and left edges.
    pub fn bottomleft() -> (r: Self)
        ensures
            r.bits() == 6,
    {
        WlShellSurfaceResize { value: 6 }
    }

    /// Right edge.
    pub fn right() -> (r: Self)
        ensures
            r.bits() == 8,
    {
        WlShellSurfaceResize { value: 8 }
    }

    /// Top and right edges.
    pub fn topright() -> (r: Self)
        ensures
            r.bits() == 9,
    {
        WlShellSurfaceResize { value: 9 }
    }

    /// Bottom and right edges.
    pub fn bottomright() -> (r: Self)
        ensures
            r.bits() == 10,
    {
        WlShellSurfaceResize { value: 10 }
    }

    /// The bit field with exactly the bits of `value`, as read from the wire.
    pub fn from_bits(value: u32) -> (r: Self)
        ensures
            r.bits() == value,
    {
        WlShellSurfaceResize { value }
    }

    /// No bit set.
    pub fn new() -> (r: Self)
        ensures
            r.bits() == 0,
    {
        WlShellSurfaceResize { value: 0 }
    }

    /// Whether any bit of `flag` is set in `self`.
    pub fn contains(&self, flag: Self) -> (r: bool)
        ensures
            r == (self.bits() & flag.bits() != 0),
    {
        self.value & flag.value != 0
    }

    /// Sets the bits of `flag`.
    pub fn insert(&mut self, flag: Self)
        ensures
            final(self).bits() == old(self).bits() | flag.bits(),
    {
        self.value |= flag.value;
    }

    /// Clears the bits of `flag`.
    pub fn remove(&mut self, flag: Self)
        ensures
            final(self).bits() == old(self).bits() & !flag.bits(),
    {
        self.value &= !flag.value;
    }
}

impl core::ops::BitAnd for WlShellSurfaceResize {
    type Output = Self;

    fn bitand(self, rhs: Self) -> (r: Self)
        ensures
            r.bits() == self.bits() & rhs.bits(),
    {
        Self { value: self.value & rhs.value }
    }
}

impl BitAndSpecImpl for WlShellSurfaceResize {
    open spec fn obeys_bitand_spec() -> bool {
        true
    }

    open spec fn bitand_req(self, rhs: Self) -> bool {
        true
    }

    closed spec fn bitand_spec(self, rhs: Self) -> Self {
        Self { value: self.value & rhs.value }
    }
}

impl core::ops::BitOr for WlShellSurfaceResize {
    type Output = Self;

    fn bitor(self, rhs: Self) -> (r: Self)
        ensures
            r.bits() == self.bits() | rhs.bits(),
    {
        Self { value: self.value | rhs.value }
    }
}

impl BitOrSpecImpl for WlShellSurfaceResize {
    open spec fn obeys_bitor_spec() -> bool {
        true
    }

    open spec fn bitor_req(self, rhs: Self) -> bool {
        true
    }

    closed spec fn bitor_spec(self, rhs: Self) -> Self {
        Self { value: self.value | rhs.value }
    }
}

impl core::ops::BitOrAssign for WlShellSurfaceResize {
    fn bitor_assign(&mut self, rhs: Self)
        ensures
            final(self).bits() == old(self).bits() | rhs.bits(),
    {
        self.value |= rhs.value;
    }
}

/// Wl_shell_surface:transient enum These flags specify details of the expected
/// behaviour of transient surfaces. Used in the set_transient request.
#[derive(Debug, Clone, Copy, PartialEq, Eq, Structural)]
pub struct WlShellSurfaceTransient {
    value: u32,
}

impl From<u32> for WlShellSurfaceTransient {
    fn from(value: u32) -> (r: Self)
        ensures
            r.bits() == value,
    {
        Self { value }
    }
}

impl FromSpecImpl<u32> for WlShellSurfaceTransient {
    open spec fn obeys_from_spec() -> bool {
        true
    }

    closed spec fn from_spec(value: u32) -> Self {
        Self { value }
    }
}

impl WlShellSurfaceTransient {
    /// The bits that are set.
    pub closed spec fn bits(self) -> u32 {
        self.value
    }

    /// Two bit fields with the same bits set are the same value.
    pub proof fn lemma_bits_eq(a: Self, b: Self)
        requires
            a.bits() == b.bits(),
        ensures
            a == b,
    {
    }

    /// The bit field read from the wire keeps every bit of the word.
    pub proof fn lemma_from_bits(value: u32)
        ensures
            <Self as vstd::std_specs::convert::FromSpec<u32>>::from_spec(value).bits() == value,
    {
    }

    /// Do not set keyboard focus.
    pub fn inactive() -> (r: Self)
        ensures
            r.bits() == 1,
    {
        WlShellSurfaceTransient { value: 1 }
    }

    /// The bit field with exactly the bits of `value`, as read from the wire.
    pub fn from_bits(value: u32) -> (r: Self)
        ensures
            r.bits() == value,
    {
        WlShellSurfaceTransient { value }
    }

    /// No bit set.
    pub fn new() -> (r: Self)
        ensures
            r.bits() == 0,
    {
        WlShellSurfaceTransient { value: 0 }
    }

    /// Whether any bit of `flag` is set in `self`.
    pub fn contains(&self, flag: Self) -> (r: bool)
        ensures
            r == (self.bits() & flag.bits() != 0),
    {
        self.value & flag.value != 0
    }

    /// Sets the bits of `flag`.
    pub fn insert(&mut self, flag: Self)
        ensures
            final(self).bits() == old(self).bits() | flag.bits(),
    {
        self.value |= flag.value;
    }

    /// Clears the bits of `flag`.
    pub fn remove(&mut self, flag: Self)
        ensures
            final(self).bits() == old(self).bits() & !flag.bits(),
    {
        self.value &= !flag.value;
    }
}

impl core::ops::BitAnd for WlShellSurfaceTransient {
    type Output = Self;

    fn bitand(self, rhs: Self) -> (r: Self)
        ensures
            r.bits() == self.bits() & rhs.bits(),
    {
        Self { value: self.value & rhs.value }
    }
}

impl BitAndSpecImpl for WlShellSurfaceTransient {
    open spec fn obeys_bitand_spec() -> bool {
        true
    }

    open spec fn bitand_req(self, rhs: Self) -> bool {
        true
    }

    closed spec fn bitand_spec(self, rhs: Self) -> Self {
        Self { value: self.value & rhs.value }
    }
}

impl core::ops::BitOr for WlShellSurfaceTransient {
    type Output = Self;

    fn bitor(self, rhs: Self) -> (r: Self)
        ensures
            r.bits() == self.bits() | rhs.bits(),
    {
        Self { value: self.value | rhs.value }
    }
}

impl BitOrSpecImpl for WlShellSurfaceTransient {
    open spec fn obeys_bitor_spec() -> bool {
        true
    }

    open spec fn bitor_req(self, rhs: Self) -> bool {
        true
    }

    closed spec fn bitor_spec(self, rhs: Self) -> Self {
        Self { value: self.value | rhs.value }
    }
}

impl core::ops::BitOrAssign for WlShellSurfaceTransient {
    fn bitor_assign(&mut self, rhs: Self)
        ensures
            final(self).bits() == old(self).bits() | rhs.bits(),
    {
        self.value |= rhs.value;
    }
}

/// Wl_shell_surface:fullscreen_method enum Hints to indicate to the compositor
/// how to deal with a conflict between the dimensions of the surface and the
/// dimensions of the output.
#[allow(non_camel_case_types)]
#[derive(Debug, Clone, Copy, PartialEq, Eq, Structural)]
pub enum WlShellSurfaceFullscreenMethod {
    /// No preference, apply default policy.
    Default,
    /// Scale, preserve the surface's aspect ratio and center on output.
    Scale,
    /// Switch output mode to the smallest mode that can fit the surface, add
    /// black borders to compensate size mismatch.
    Driver,
    /// No upscaling, center on output and add black borders to compensate size
    /// mismatch.
    Fill,
    /// Any value the protocol does not name.
    Unexpected,
}

impl WlShellSurfaceFullscreenMethod {
    /// The variant that the wire value `value` stands for.
    pub open spec fn spec_from(value: u32) -> Self {
        match value {
            0 => Self::Default,
            1 => Self::Scale,
            2 => Self::Driver,
            3 => Self::Fill,
            _ => Self::Unexpected,
        }
    }
}

impl From<u32> for WlShellSurfaceFullscreenMethod {
    fn from(value: u32) -> (r: Self) {
        match value {
            0 => Self::Default,
            1 => Self::Scale,
            2 => Self::Driver,
            3 => Self::Fill,
            _ => Self::Unexpected,
        }
    }
}

impl FromSpecImpl<u32> for WlShellSurfaceFullscreenMethod {
    open spec fn obeys_from_spec() -> bool {
        true
    }

    open spec fn from_spec(value: u32) -> Self {
        Self::spec_from(value)
    }
}

/// Wl_surface:error enum These errors can be emitted in response to wl_surface
/// requests.
#[allow(non_camel_case_types)]
#[derive(Debug, Clone, Copy, PartialEq, Eq, Structural)]
pub enum WlSurfaceError {
    /// Buffer scale value is invalid.
    InvalidScale,
    /// Buffer transform value is invalid.
    InvalidTransform,
    /// Buffer size is invalid.
    InvalidSize,
    /// Buffer offset is invalid.
    InvalidOffset,
    /// Surface was destroyed before its role object.
    DefunctRoleObject,
    /// Any value the protocol does not name.
    Unexpected,
}

impl WlSurfaceError {
    /// The variant that the wire value `value` stands for.
    pub open spec fn spec_from(value: u32) -> Self {
        match value {
            0 => Self::InvalidScale,
            1 => Self::InvalidTransform,
            2 => Self::InvalidSize,
            3 => Self::InvalidOffset,
            4 => Self::DefunctRoleObject,
            _ => Self::Unexpected,
        }
    }
}

impl From<u32> for WlSurfaceError {
    fn from(value: u32) -> (r: Self) {
        match value {
            0 => Self::InvalidScale,
            1 => Self::InvalidTransform,
            2 => Self::InvalidSize,
            3 => Self::InvalidOffset,
            4 => Self::DefunctRoleObject,
            _ => Self::Unexpected,
        }
    }
}

impl FromSpecImpl<u32> for WlSurfaceError {
    open spec fn obeys_from_spec() -> bool {
        true
    }

    open spec fn from_spec(value: u32) -> Self {
        Self::spec_from(value)
    }
}

/// Wl_seat:capability enum This is a bitmask of capabilities this seat has; if
/// a member is set, then it is present on the seat.
#[derive(Debug, Clone, Copy, PartialEq, Eq, Structural)]
pub struct WlSeatCapability {
    value: u32,
}

impl From<u32> for WlSeatCapability {
    fn from(value: u32) -> (r: Self)
        ensures
            r.bits() == value,
    {
        Self { value }
    }
}

impl FromSpecImpl<u32> for WlSeatCapability {
    open spec fn obeys_from_spec() -> bool {
        true
    }

    closed spec fn from_spec(value: u32) -> Self {
        Self { value }
    }
}

impl WlSeatCapability {
    /// The bits that are set.
    pub closed spec fn bits(self) -> u32 {
        self.value
    }

    /// Two bit fields with the same bits set are the same value.
    pub proof fn lemma_bits_eq(a: Self, b: Self)
        requires
            a.bits() == b.bits(),
        ensures
            a == b,
    {
    }

    /// The bit field read from the wire keeps every bit of the word.
    pub proof fn lemma_from_bits(value: u32)
        ensures
            <Self as vstd::std_specs::convert::FromSpec<u32>>::from_spec(value).bits() == value,
    {
    }

    /// The seat has pointer devices.
    pub fn pointer() -> (r: Self)
        ensures
            r.bits() == 1,
    {
        WlSeatCapability { value: 1 }
    }

    /// The seat has one or more keyboards.
    pub fn keyboard() -> (r: Self)
        ensures
            r.bits() == 2,
    {
        WlSeatCapability { value: 2 }
    }

    /// The seat has touch devices.
    pub fn touch() -> (r: Self)
        ensures
            r.bits() == 4,
    {
        WlSeatCapability { value: 4 }
    }

    /// The bit field with exactly the bits of `value`, as read from the wire.
    pub fn from_bits(value: u32) -> (r: Self)
        ensures
            r.bits() == value,
    {
        WlSeatCapability { value }
    }

    /// No bit set.
    pub fn new() -> (r: Self)
        ensures
            r.bits() == 0,
    {
        WlSeatCapability { value: 0 }
    }

    /// Whether any bit of `flag` is set in `self`.
    pub fn contains(&self, flag: Self) -> (r: bool)
        ensures
            r == (self.bits() & flag.bits() != 0),
    {
        self.value & flag.value != 0
    }

    /// Sets the bits of `flag`.
    pub fn insert(&mut self, flag: Self)
        ensures
            final(self).bits() == old(self).bits() | flag.bits(),
    {
        self.value |= flag.value;
    }

    /// Clears the bits of `flag`.
    pub fn remove(&mut self, flag: Self)
        ensures
            final(self).bits() == old(self).bits() & !flag.bits(),
    {
        self.value &= !flag.value;
    }
}

impl core::ops::BitAnd for WlSeatCapability {
    type Output = Self;

    fn bitand(self, rhs: Self) -> (r: Self)
        ensures
            r.bits() == self.bits() & rhs.bits(),
    {
        Self { value: self.value & rhs.value }
    }
}

impl BitAndSpecImpl for WlSeatCapability {
    open spec fn obeys_bitand_spec() -> bool {
        true
    }

    open spec fn bitand_req(self, rhs: Self) -> bool {
        true
    }

    closed spec fn bitand_spec(self, rhs: Self) -> Self {
        Self { value: self.value & rhs.value }
    }
}

impl core::ops::BitOr for WlSeatCapability {
    type Output = Self;

    fn bitor(self, rhs: Self) -> (r: Self)
        ensures
            r.bits() == self.bits() | rhs.bits(),
    {
        Self { value: self.value | rhs.value }
    }
}

impl BitOrSpecImpl for WlSeatCapability {
    open spec fn obeys_bitor_spec() -> bool {
        true
    }

    open spec fn bitor_req(self, rhs: Self) -> bool {
        true
    }

    closed spec fn bitor_spec(self, rhs: Self) -> Self {
        Self { value: self.value | rhs.value }
    }
}

impl core::ops::BitOrAssign for WlSeatCapability {
    fn bitor_assign(&mut self, rhs: Self)
        ensures
            final(self).bits() == old(self).bits() | rhs.bits(),
    {
        self.value |= rhs.value;
    }
}

/// Wl_seat:error enum These errors can be emitted in response to wl_seat
/// requests.
#[allow(non_camel_case_types)]
#[derive(Debug, Clone, Copy, PartialEq, Eq, Structural)]
pub enum WlSeatError {
    /// Get_pointer, get_keyboard or get_touch called on seat without the
    /// matching capability.
    MissingCapability,
    /// Any value the protocol does not name.
    Unexpected,
}

impl WlSeatError {
    /// The variant that the wire value `value` stands for.
    pub open spec fn spec_from(value: u32) -> Self {
        match value {
            0 => Self::MissingCapability,
            _ => Self::Unexpected,
        }
    }
}

impl From<u32> for WlSeatError {
    fn from(value: u32) -> (r: Self) {
        match value {
            0 => Self::MissingCapability,
            _ => Self::Unexpected,
        }
    }
}

impl FromSpecImpl<u32> for WlSeatError {
    open spec fn obeys_from_spec() -> bool {
        true
    }

    open spec fn from_spec(value: u32) -> Self {
        Self::spec_from(value)
    }
}

/// Wl_pointer:error enum.
#[allow(non_camel_case_types)]
#[derive(Debug, Clone, Copy, PartialEq, Eq, Structural)]
pub enum WlPointerError {
    /// Given wl_surface has another role.
    Role,
    /// Any value the protocol does not name.
    Unexpected,
}

impl WlPointerError {
    /// The variant that the wire value `value` stands for.
    pub open spec fn spec_from(value: u32) -> Self {
        match value {
            0 => Self::Role,
            _ => Self::Unexpected,
        }
    }
}

impl From<u32> for WlPointerError {
    fn from(value: u32) -> (r: Self) {
        match value {
            0 => Self::Role,
            _ => Self::Unexpected,
        }
    }
}

impl FromSpecImpl<u32> for WlPointerError {
    open spec fn obeys_from_spec() -> bool {
        true
    }

    open spec fn from_spec(value: u32) -> Self {
        Self::spec_from(value)
    }
}

/// Wl_pointer:button_state enum Describes the physical state of a button that
/// produced the button event.
#[allow(non_camel_case_types)]
#[derive(Debug, Clone, Copy, PartialEq, Eq, Structural)]
pub enum WlPointerButtonState {
    /// The button is not pressed.
    Released,
    /// The button is pressed.
    Pressed,
    /// Any value the protocol does not name.
    Unexpected,
}

impl WlPointerButtonState {
    /// The variant that the wire value `value` stands for.
    pub open spec fn spec_from(value: u32) -> Self {
        match value {
            0 => Self::Released,
            1 => Self::Pressed,
            _ => Self::Unexpected,
        }
    }
}

impl From<u32> for WlPointerButtonState {
    fn from(value: u32) -> (r: Self) {
        match value {
            0 => Self::Released,
            1 => Self::Pressed,
            _ => Self::Unexpected,
        }
    }
}

impl FromSpecImpl<u32> for WlPointerButtonState {
    open spec fn obeys_from_spec() -> bool {
        true
    }

    open spec fn from_spec(value: u32) -> Self {
        Self::spec_from(value)
    }
}

/// Wl_pointer:axis enum Describes the axis types of scroll events.
#[allow(non_camel_case_types)]
#[derive(Debug, Clone, Copy, PartialEq, Eq, Structural)]
pub enum WlPointerAxis {
    /// Vertical axis.
    VerticalScroll,
    /// Horizontal axis.
    HorizontalScroll,
    /// Any value the protocol does not name.
    Unexpected,
}

impl WlPointerAxis {
    /// The variant that the wire value `value` stands for.
    pub open spec fn spec_from(value: u32) -> Self {
        match value {
            0 => Self::VerticalScroll,
            1 => Self::HorizontalScroll,
            _ => Self::Unexpected,
        }
    }
}

impl From<u32> for WlPointerAxis {
    fn from(value: u32) -> (r: Self) {
        match value {
            0 => Self::VerticalScroll,
            1 => Self::HorizontalScroll,
            _ => Self::Unexpected,
        }
    }
}

impl FromSpecImpl<u32> for WlPointerAxis {
    open spec fn obeys_from_spec() -> bool {
        true
    }

    open spec fn from_spec(value: u32) -> Self {
        Self::spec_from(value)
    }
}

/// Wl_pointer:axis_source enum Describes the source types for axis events. This
/// indicates to the client how an axis event was physically generated; a client
/// may adjust the user interface accordingly.
#[allow(non_camel_case_types)]
#[derive(Debug, Clone, Copy, PartialEq, Eq, Structural)]
pub enum WlPointerAxisSource {
    /// A physical wheel rotation.
    Wheel,
    /// Finger on a touch surface.
    Finger,
    /// Continuous coordinate space.
    Continuous,
    /// A physical wheel tilt.
    WheelTilt,
    /// Any value the protocol does not name.
    Unexpected,
}

impl WlPointerAxisSource {
    /// The variant that the wire value `value` stands for.
    pub open spec fn spec_from(value: u32) -> Self {
        match value {
            0 => Self::Wheel,
            1 => Self::Finger,
            2 => Self::Continuous,
            3 => Self::WheelTilt,
            _ => Self::Unexpected,
        }
    }
}

impl From<u32> for WlPointerAxisSource {
    fn from(value: u32) -> (r: Self) {
        match value {
            0 => Self::Wheel,
            1 => Self::Finger,
            2 => Self::Continuous,
            3 => Self::WheelTilt,
            _ => Self::Unexpected,
        }
    }
}

impl FromSpecImpl<u32> for WlPointerAxisSource {
    open spec fn obeys_from_spec() -> bool {
        true
    }

    open spec fn from_spec(value: u32) -> Self {
        Self::spec_from(value)
    }
}

/// Wl_pointer:axis_relative_direction enum This specifies the direction of the
/// physical motion that caused a wl_pointer.axis event, relative to the
/// wl_pointer.axis direction.
#[allow(non_camel_case_types)]
#[derive(Debug, Clone, Copy, PartialEq, Eq, Structural)]
pub enum WlPointerAxisRelativeDirection {
    /// Physical motion matches axis direction.
    Identical,
    /// Physical motion is the inverse of the axis direction.
    Inverted,
    /// Any value the protocol does not name.
    Unexpected,
}

impl WlPointerAxisRelativeDirection {
    /// The variant that the wire value `value` stands for.
    pub open spec fn spec_from(value: u32) -> Self {
        match value {
            0 => Self::Identical,
            1 => Self::Inverted,
            _ => Self::Unexpected,
        }
    }
}

impl From<u32> for WlPointerAxisRelativeDirection {
    fn from(value: u32) -> (r: Self) {
        match value {
            0 => Self::Identical,
            1 => Self::Inverted,
            _ => Self::Unexpected,
        }
    }
}

impl FromSpecImpl<u32> for WlPointerAxisRelativeDirection {
    open spec fn obeys_from_spec() -> bool {
        true
    }

    open spec fn from_spec(value: u32) -> Self {
        Self::spec_from(value)
    }
}

/// Wl_keyboard:keymap_format enum This specifies the format of the keymap
/// provided to the client with the wl_keyboard.keymap event.
#[allow(non_camel_case_types)]
#[derive(Debug, Clone, Copy, PartialEq, Eq, Structural)]
pub enum WlKeyboardKeymapFormat {
    /// No keymap; client must understand how to interpret the raw keycode.
    NoKeymap,
    /// Libxkbcommon compatible, null-terminated string; to determine the xkb
    /// keycode, clients must add 8 to the key event keycode.
    XkbV1,
    /// Any value the protocol does not name.
    Unexpected,
}

impl WlKeyboardKeymapFormat {
    /// The variant that the wire value `value` stands for.
    pub open spec fn spec_from(value: u32) -> Self {
        match value {
            0 => Self::NoKeymap,
            1 => Self::XkbV1,
            _ => Self::Unexpected,
        }
    }
}

impl From<u32> for WlKeyboardKeymapFormat {
    fn from(value: u32) -> (r: Self) {
        match value {
            0 => Self::NoKeymap,
            1 => Self::XkbV1,
            _ => Self::Unexpected,
        }
    }
}

impl FromSpecImpl<u32> for WlKeyboardKeymapFormat {
    open spec fn obeys_from_spec() -> bool {
        true
    }

    open spec fn from_spec(value: u32) -> Self {
        Self::spec_from(value)
    }
}

/// Wl_keyboard:key_state enum Describes the physical state of a key that
/// produced the key event.
#[allow(non_camel_case_types)]
#[derive(Debug, Clone, Copy, PartialEq, Eq, Structural)]
pub enum WlKeyboardKeyState {
    /// Key is not pressed.
    Released,
    /// Key is pressed.
    Pressed,
    /// Any value the protocol does not name.
    Unexpected,
}

impl WlKeyboardKeyState {
    /// The variant that the wire value `value` stands for.
    pub open spec fn spec_from(value: u32) -> Self {
        match value {
            0 => Self::Released,
            1 => Self::Pressed,
            _ => Self::Unexpected,
        }
    }
}

impl From<u32> for WlKeyboardKeyState {
    fn from(value: u32) -> (r: Self) {
        match value {
            0 => Self::Released,
            1 => Self::Pressed,
            _ => Self::Unexpected,
        }
    }
}

impl FromSpecImpl<u32> for WlKeyboardKeyState {
    open spec fn obeys_from_spec() -> bool {
        true
    }

    open spec fn from_spec(value: u32) -> Self {
        Self::spec_from(value)
    }
}

/// Wl_output:subpixel enum This enumeration describes how the physical pixels
/// on an output are laid out.
#[allow(non_camel_case_types)]
#[derive(Debug, Clone, Copy, PartialEq, Eq, Structural)]
pub enum WlOutputSubpixel {
    /// Unknown geometry.
    Unknown,
    /// No geometry.
    Nil,
    /// Horizontal RGB.
    HorizontalRgb,
    /// Horizontal BGR.
    HorizontalBgr,
    /// Vertical RGB.
    VerticalRgb,
    /// Vertical BGR.
    VerticalBgr,
    /// Any value the protocol does not name.
    Unexpected,
}

impl WlOutputSubpixel {
    /// The variant that the wire value `value` stands for.
    pub open spec fn spec_from(value: u32) -> Self {
        match value {
            0 => Self::Unknown,
            1 => Self::Nil,
            2 => Self::HorizontalRgb,
            3 => Self::HorizontalBgr,
            4 => Self::VerticalRgb,
            5 => Self::VerticalBgr,
            _ => Self::Unexpected,
        }
    }
}

impl From<u32> for WlOutputSubpixel {
    fn from(value: u32) -> (r: Self) {
        match value {
            0 => Self::Unknown,
            1 => Self::Nil,
            2 => Self::HorizontalRgb,
            3 => Self::HorizontalBgr,
            4 => Self::VerticalRgb,
            5 => Self::VerticalBgr,
            _ => Self::Unexpected,
        }
    }
}

impl FromSpecImpl<u32> for WlOutputSubpixel {
    open spec fn obeys_from_spec() -> bool {
        true
    }

    open spec fn from_spec(value: u32) -> Self {
        Self::spec_from(value)
    }
}

/// Wl_output:transform enum This describes the transform that a compositor will
/// apply to a surface to compensate for the rotation or mirroring of an output
/// device.
#[allow(non_camel_case_types)]
#[derive(Debug, Clone, Copy, PartialEq, Eq, Structural)]
pub enum WlOutputTransform {
    /// No transform.
    TransformNormal,
    /// 90 degrees counter-clockwise.
    Transform90,
    /// 180 degrees counter-clockwise.
    Transform180,
    /// 270 degrees counter-clockwise.
    Transform270,
    /// 180 degree flip around a vertical axis.
    TransformFlipped,
    /// Flip and rotate 90 degrees counter-clockwise.
    TransformFlipped90,
    /// Flip and rotate 180 degrees counter-clockwise.
    TransformFlipped180,
    /// Flip and rotate 270 degrees counter-clockwise.
    TransformFlipped270,
    /// Any value the protocol does not name.
    Unexpected,
}

impl WlOutputTransform {
    /// The variant that the wire value `value` stands for.
    pub open spec fn spec_from(value: u32) -> Self {
        match value {
            0 => Self::TransformNormal,
            1 => Self::Transform90,
            2 => Self::Transform180,
            3 => Self::Transform270,
            4 => Self::TransformFlipped,
            5 => Self::TransformFlipped90,
            6 => Self::TransformFlipped180,
            7 => Self::TransformFlipped270,
            _ => Self::Unexpected,
        }
    }
}

impl From<u32> for WlOutputTransform {
    fn from(value: u32) -> (r: Self) {
        match value {
            0 => Self::TransformNormal,
            1 => Self::Transform90,
            2 => Self::Transform180,
            3 => Self::Transform270,
            4 => Self::TransformFlipped,
            5 => Self::TransformFlipped90,
            6 => Self::TransformFlipped180,
            7 => Self::TransformFlipped270,
            _ => Self::Unexpected,
        }
    }
}

impl FromSpecImpl<u32> for WlOutputTransform {
    open spec fn obeys_from_spec() -> bool {
        true
    }

    open spec fn from_spec(value: u32) -> Self {
        Self::spec_from(value)
    }
}

/// Wl_output:mode enum These flags describe properties of an output mode. They
/// are used in the flags bitfield of the mode event.
#[derive(Debug, Clone, Copy, PartialEq, Eq, Structural)]
pub struct WlOutputMode {
    value: u32,
}

impl From<u32> for WlOutputMode {
    fn from(value: u32) -> (r: Self)
        ensures
            r.bits() == value,
    {
        Self { value }
    }
}

impl FromSpecImpl<u32> for WlOutputMode {
    open spec fn obeys_from_spec() -> bool {
        true
    }

    closed spec fn from_spec(value: u32) -> Self {
        Self { value }
    }
}

impl WlOutputMode {
    /// The bits that are set.
    pub closed spec fn bits(self) -> u32 {
        self.value
    }

    /// Two bit fields with the same bits set are the same value.
    pub proof fn lemma_bits_eq(a: Self, b: Self)
        requires
            a.bits() == b.bits(),
        ensures
            a == b,
    {
    }

    /// The bit field read from the wire keeps every bit of the word.
    pub proof fn lemma_from_bits(value: u32)
        ensures
            <Self as vstd::std_specs::convert::FromSpec<u32>>::from_spec(value).bits() == value,
    {
    }

    /// Indicates this is the current mode.
    pub fn current() -> (r: Self)
        ensures
            r.bits() == 1,
    {
        WlOutputMode { value: 1 }
    }

    /// Indicates this is the preferred mode.
    pub fn preferred() -> (r: Self)
        ensures
            r.bits() == 2,
    {
        WlOutputMode { value: 2 }
    }

    /// The bit field with exactly the bits of `value`, as read from the wire.
    pub fn from_bits(value: u32) -> (r: Self)
        ensures
            r.bits() == value,
    {
        WlOutputMode { value }
    }

    /// No bit set.
    pub fn new() -> (r: Self)
        ensures
            r.bits() == 0,
    {
        WlOutputMode { value: 0 }
    }

    /// Whether any bit of `flag` is set in `self`.
    pub fn contains(&self, flag: Self) -> (r: bool)
        ensures
            r == (self.bits() & flag.bits() != 0),
    {
        self.value & flag.value != 0
    }

    /// Sets the bits of `flag`.
    pub fn insert(&mut self, flag: Self)
        ensures
            final(self).bits() == old(self).bits() | flag.bits(),
    {
        self.value |= flag.value;
    }

    /// Clears the bits of `flag`.
    pub fn remove(&mut self, flag: Self)
        ensures
            final(self).bits() == old(self).bits() & !flag.bits(),
    {
        self.value &= !flag.value;
    }
}

impl core::ops::BitAnd for WlOutputMode {
    type Output = Self;

    fn bitand(self, rhs: Self) -> (r: Self)
        ensures
            r.bits() == self.bits() & rhs.bits(),
    {
        Self { value: self.value & rhs.value }
    }
}

impl BitAndSpecImpl for WlOutputMode {
    open spec fn obeys_bitand_spec() -> bool {
        true
    }

    open spec fn bitand_req(self, rhs: Self) -> bool {
        true
    }

    closed spec fn bitand_spec(self, rhs: Self) -> Self {
        Self { value: self.value & rhs.value }
    }
}

impl core::ops::BitOr for WlOutputMode {
    type Output = Self;

    fn bitor(self, rhs: Self) -> (r: Self)
        ensures
            r.bits() == self.bits() | rhs.bits(),
    {
        Self { value: self.value | rhs.value }
    }
}

impl BitOrSpecImpl for WlOutputMode {
    open spec fn obeys_bitor_spec() -> bool {
        true
    }

    open spec fn bitor_req(self, rhs: Self) -> bool {
        true
    }

    closed spec fn bitor_spec(self, rhs: Self) -> Self {
        Self { value: self.value | rhs.value }
    }
}

impl core::ops::BitOrAssign for WlOutputMode {
    fn bitor_assign(&mut self, rhs: Self)
        ensures
            final(self).bits() == old(self).bits() | rhs.bits(),
    {
        self.value |= rhs.value;
    }
}

/// Wl_subcompositor:error enum.
#[allow(non_camel_case_types)]
#[derive(Debug, Clone, Copy, PartialEq, Eq, Structural)]
pub enum WlSubcompositorError {
    /// The to-be sub-surface is invalid.
    BadSurface,
    /// The to-be sub-surface parent is invalid.
    BadParent,
    /// Any value the protocol does not name.
    Unexpected,
}

impl WlSubcompositorError {
    /// The variant that the wire value `value` stands for.
    pub open spec fn spec_from(value: u32) -> Self {
        match value {
            0 => Self::BadSurface,
            1 => Self::BadParent,
            _ => Self::Unexpected,
        }
    }
}

impl From<u32> for WlSubcompositorError {
    fn from(value: u32) -> (r: Self) {
        match value {
            0 => Self::BadSurface,
            1 => Self::BadParent,
            _ => Self::Unexpected,
        }
    }
}

impl FromSpecImpl<u32> for WlSubcompositorError {
    open spec fn obeys_from_spec() -> bool {
        true
    }

    open spec fn from_spec(value: u32) -> Self {
        Self::spec_from(value)
    }
}

/// Wl_subsurface:error enum.
#[allow(non_camel_case_types)]
#[derive(Debug, Clone, Copy, PartialEq, Eq, Structural)]
pub enum WlSubsurfaceError {
    /// Wl_surface is not a sibling or the parent.
    BadSurface,
    /// Any value the protocol does not name.
    Unexpected,
}

impl WlSubsurfaceError {
    /// The variant that the wire value `value` stands for.
    pub open spec fn spec_from(value: u32) -> Self {
        match value {
            0 => Self::BadSurface,
            _ => Self::Unexpected,
        }
    }
}

impl From<u32> for WlSubsurfaceError {
    fn from(value: u32) -> (r: Self) {
        match value {
            0 => Self::BadSurface,
            _ => Self::Unexpected,
        }
    }
}

impl FromSpecImpl<u32> for WlSubsurfaceError {
    open spec fn obeys_from_spec() -> bool {
        true
    }

    open spec fn from_spec(value: u32) -> Self {
        Self::spec_from(value)
    }
}

} // verus!
