//! The sink for events: one method for each event, all doing nothing
//! unless overridden.
use crate::connection::Session;
use crate::types::events::{
    Event, XdgWmBasePingEvent, XdgSurfaceConfigureEvent, XdgToplevelConfigureEvent, XdgToplevelCloseEvent, XdgToplevelConfigureBoundsEvent, XdgToplevelWmCapabilitiesEvent, XdgPopupConfigureEvent, XdgPopupPopupDoneEvent, XdgPopupRepositionedEvent, WlDisplaySyncDoneEvent, WlDisplayErrorEvent, WlDisplayDeleteIdEvent, WlRegistryGlobalEvent, WlRegistryGlobalRemoveEvent, WlShmFormatEvent, WlBufferReleaseEvent, WlDataOfferOfferEvent, WlDataOfferSourceActionsEvent, WlDataOfferActionEvent, WlDataSourceTargetEvent, WlDataSourceSendEvent, WlDataSourceCancelledEvent, WlDataSourceDndDropPerformedEvent, WlDataSourceDndFinishedEvent, WlDataSourceActionEvent, WlDataDeviceDataOfferEvent, WlDataDeviceEnterEvent, WlDataDeviceLeaveEvent, WlDataDeviceMotionEvent, WlDataDeviceDropEvent, WlDataDeviceSelectionEvent, WlShellSurfacePingEvent, WlShellSurfaceConfigureEvent, WlShellSurfacePopupDoneEvent, WlSurfaceFrameDoneEvent, WlSurfaceEnterEvent, WlSurfaceLeaveEvent, WlSurfacePreferredBufferScaleEvent, WlSurfacePreferredBufferTransformEvent, WlSeatCapabilitiesEvent, WlSeatNameEvent, WlPointerEnterEvent, WlPointerLeaveEvent, WlPointerMotionEvent, WlPointerButtonEvent, WlPointerAxisEvent, WlPointerFrameEvent, WlPointerAxisSourceEvent, WlPointerAxisStopEvent, WlPointerAxisDiscreteEvent, WlPointerAxisValue120Event, WlPointerAxisRelativeDirectionEvent, WlKeyboardKeymapEvent, WlKeyboardEnterEvent, WlKeyboardLeaveEvent, WlKeyboardKeyEvent, WlKeyboardModifiersEvent, WlKeyboardRepeatInfoEvent, WlTouchDownEvent, WlTouchUpEvent, WlTouchMotionEvent, WlTouchFrameEvent, WlTouchCancelEvent, WlTouchShapeEvent, WlTouchOrientationEvent, WlOutputGeometryEvent, WlOutputModeEvent, WlOutputDoneEvent, WlOutputScaleEvent, WlOutputNameEvent, WlOutputDescriptionEvent,
};
use vstd::prelude::*;

verus! {

/// Receives the events of a connection. Each method gets the event and the
/// session, on which it may queue further requests; those go out with the
/// next send. A method that is not overridden leaves the session as it is.
pub trait EventHandler {
    #[allow(unused_variables)]
    fn on_xdg_wm_base_ping(&mut self, event: XdgWmBasePingEvent, connection: &mut Session)
        requires
            old(connection).wf(),
        ensures
            final(connection).wf(),
        default_ensures
            *final(connection) == *old(connection),
    {
    }

    #[allow(unused_variables)]
    fn on_xdg_surface_configure(&mut self, event: XdgSurfaceConfigureEvent, connection: &mut Session)
        requires
            old(connection).wf(),
        ensures
            final(connection).wf(),
        default_ensures
            *final(connection) == *old(connection),
    {
    }

    #[allow(unused_variables)]
    fn on_xdg_toplevel_configure(&mut self, event: XdgToplevelConfigureEvent, connection: &mut Session)
        requires
            old(connection).wf(),
        ensures
            final(connection).wf(),
        default_ensures
            *final(connection) == *old(connection),
    {
    }

    #[allow(unused_variables)]
    fn on_xdg_toplevel_close(&mut self, event: XdgToplevelCloseEvent, connection: &mut Session)
        requires
            old(connection).wf(),
        ensures
            final(connection).wf(),
        default_ensures
            *final(connection) == *old(connection),
    {
    }

    #[allow(unused_variables)]
    fn on_xdg_toplevel_configure_bounds(&mut self, event: XdgToplevelConfigureBoundsEvent, connection: &mut Session)
        requires
            old(connection).wf(),
        ensures
            final(connection).wf(),
        default_ensures
            *final(connection) == *old(connection),
    {
    }

    #[allow(unused_variables)]
    fn on_xdg_toplevel_wm_capabilities(&mut self, event: XdgToplevelWmCapabilitiesEvent, connection: &mut Session)
        requires
            old(connection).wf(),
        ensures
            final(connection).wf(),
        default_ensures
            *final(connection) == *old(connection),
    {
    }

    #[allow(unused_variables)]
    fn on_xdg_popup_configure(&mut self, event: XdgPopupConfigureEvent, connection: &mut Session)
        requires
            old(connection).wf(),
        ensures
            final(connection).wf(),
        default_ensures
            *final(connection) == *old(connection),
    {
    }

    #[allow(unused_variables)]
    fn on_xdg_popup_popup_done(&mut self, event: XdgPopupPopupDoneEvent, connection: &mut Session)
        requires
            old(connection).wf(),
        ensures
            final(connection).wf(),
        default_ensures
            *final(connection) == *old(connection),
    {
    }

    #[allow(unused_variables)]
    fn on_xdg_popup_repositioned(&mut self, event: XdgPopupRepositionedEvent, connection: &mut Session)
        requires
            old(connection).wf(),
        ensures
            final(connection).wf(),
        default_ensures
            *final(connection) == *old(connection),
    {
    }

    #[allow(unused_variables)]
    fn on_wl_display_sync_done(&mut self, event: WlDisplaySyncDoneEvent, connection: &mut Session)
        requires
            old(connection).wf(),
        ensures
            final(connection).wf(),
        default_ensures
            *final(connection) == *old(connection),
    {
    }

    #[allow(unused_variables)]
    fn on_wl_display_error(&mut self, event: WlDisplayErrorEvent, connection: &mut Session)
        requires
            old(connection).wf(),
        ensures
            final(connection).wf(),
        default_ensures
            *final(connection) == *old(connection),
    {
    }

    #[allow(unused_variables)]
    fn on_wl_display_delete_id(&mut self, event: WlDisplayDeleteIdEvent, connection: &mut Session)
        requires
            old(connection).wf(),
        ensures
            final(connection).wf(),
        default_ensures
            *final(connection) == *old(connection),
    {
    }

    #[allow(unused_variables)]
    fn on_wl_registry_global(&mut self, event: WlRegistryGlobalEvent, connection: &mut Session)
        requires
            old(connection).wf(),
        ensures
            final(connection).wf(),
        default_ensures
            *final(connection) == *old(connection),
    {
    }

    #[allow(unused_variables)]
    fn on_wl_registry_global_remove(&mut self, event: WlRegistryGlobalRemoveEvent, connection: &mut Session)
        requires
            old(connection).wf(),
        ensures
            final(connection).wf(),
        default_ensures
            *final(connection) == *old(connection),
    {
    }

    #[allow(unused_variables)]
    fn on_wl_shm_format(&mut self, event: WlShmFormatEvent, connection: &mut Session)
        requires
            old(connection).wf(),
        ensures
            final(connection).wf(),
        default_ensures
            *final(connection) == *old(connection),
    {
    }

    #[allow(unused_variables)]
    fn on_wl_buffer_release(&mut self, event: WlBufferReleaseEvent, connection: &mut Session)
        requires
            old(connection).wf(),
        ensures
            final(connection).wf(),
        default_ensures
            *final(connection) == *old(connection),
    {
    }

    #[allow(unused_variables)]
    fn on_wl_data_offer_offer(&mut self, event: WlDataOfferOfferEvent, connection: &mut Session)
        requires
            old(connection).wf(),
        ensures
            final(connection).wf(),
        default_ensures
            *final(connection) == *old(connection),
    {
    }

    #[allow(unused_variables)]
    fn on_wl_data_offer_source_actions(&mut self, event: WlDataOfferSourceActionsEvent, connection: &mut Session)
        requires
            old(connection).wf(),
        ensures
            final(connection).wf(),
        default_ensures
            *final(connection) == *old(connection),
    {
    }

    #[allow(unused_variables)]
    fn on_wl_data_offer_action(&mut self, event: WlDataOfferActionEvent, connection: &mut Session)
        requires
            old(connection).wf(),
        ensures
            final(connection).wf(),
        default_ensures
            *final(connection) == *old(connection),
    {
    }

    #[allow(unused_variables)]
    fn on_wl_data_source_target(&mut self, event: WlDataSourceTargetEvent, connection: &mut Session)
        requires
            old(connection).wf(),
        ensures
            final(connection).wf(),
        default_ensures
            *final(connection) == *old(connection),
    {
    }

    #[allow(unused_variables)]
    fn on_wl_data_source_send(&mut self, event: WlDataSourceSendEvent, connection: &mut Session)
        requires
            old(connection).wf(),
        ensures
            final(connection).wf(),
        default_ensures
            *final(connection) == *old(connection),
    {
    }

    #[allow(unused_variables)]
    fn on_wl_data_source_cancelled(&mut self, event: WlDataSourceCancelledEvent, connection: &mut Session)
        requires
            old(connection).wf(),
        ensures
            final(connection).wf(),
        default_ensures
            *final(connection) == *old(connection),
    {
    }

    #[allow(unused_variables)]
    fn on_wl_data_source_dnd_drop_performed(&mut self, event: WlDataSourceDndDropPerformedEvent, connection: &mut Session)
        requires
            old(connection).wf(),
        ensures
            final(connection).wf(),
        default_ensures
            *final(connection) == *old(connection),
    {
    }

    #[allow(unused_variables)]
    fn on_wl_data_source_dnd_finished(&mut self, event: WlDataSourceDndFinishedEvent, connection: &mut Session)
        requires
            old(connection).wf(),
        ensures
            final(connection).wf(),
        default_ensures
            *final(connection) == *old(connection),
    {
    }

    #[allow(unused_variables)]
    fn on_wl_data_source_action(&mut self, event: WlDataSourceActionEvent, connection: &mut Session)
        requires
            old(connection).wf(),
        ensures
            final(connection).wf(),
        default_ensures
            *final(connection) == *old(connection),
    {
    }

    #[allow(unused_variables)]
    fn on_wl_data_device_data_offer(&mut self, event: WlDataDeviceDataOfferEvent, connection: &mut Session)
        requires
            old(connection).wf(),
        ensures
            final(connection).wf(),
        default_ensures
            *final(connection) == *old(connection),
    {
    }

    #[allow(unused_variables)]
    fn on_wl_data_device_enter(&mut self, event: WlDataDeviceEnterEvent, connection: &mut Session)
        requires
            old(connection).wf(),
        ensures
            final(connection).wf(),
        default_ensures
            *final(connection) == *old(connection),
    {
    }

    #[allow(unused_variables)]
    fn on_wl_data_device_leave(&mut self, event: WlDataDeviceLeaveEvent, connection: &mut Session)
        requires
            old(connection).wf(),
        ensures
            final(connection).wf(),
        default_ensures
            *final(connection) == *old(connection),
    {
    }

    #[allow(unused_variables)]
    fn on_wl_data_device_motion(&mut self, event: WlDataDeviceMotionEvent, connection: &mut Session)
        requires
            old(connection).wf(),
        ensures
            final(connection).wf(),
        default_ensures
            *final(connection) == *old(connection),
    {
    }

    #[allow(unused_variables)]
    fn on_wl_data_device_drop(&mut self, event: WlDataDeviceDropEvent, connection: &mut Session)
        requires
            old(connection).wf(),
        ensures
            final(connection).wf(),
        default_ensures
            *final(connection) == *old(connection),
    {
    }

    #[allow(unused_variables)]
    fn on_wl_data_device_selection(&mut self, event: WlDataDeviceSelectionEvent, connection: &mut Session)
        requires
            old(connection).wf(),
        ensures
            final(connection).wf(),
        default_ensures
            *final(connection) == *old(connection),
    {
    }

    #[allow(unused_variables)]
    fn on_wl_shell_surface_ping(&mut self, event: WlShellSurfacePingEvent, connection: &mut Session)
        requires
            old(connection).wf(),
        ensures
            final(connection).wf(),
        default_ensures
            *final(connection) == *old(connection),
    {
    }

    #[allow(unused_variables)]
    fn on_wl_shell_surface_configure(&mut self, event: WlShellSurfaceConfigureEvent, connection: &mut Session)
        requires
            old(connection).wf(),
        ensures
            final(connection).wf(),
        default_ensures
            *final(connection) == *old(connection),
    {
    }

    #[allow(unused_variables)]
    fn on_wl_shell_surface_popup_done(&mut self, event: WlShellSurfacePopupDoneEvent, connection: &mut Session)
        requires
            old(connection).wf(),
        ensures
            final(connection).wf(),
        default_ensures
            *final(connection) == *old(connection),
    {
    }

    #[allow(unused_variables)]
    fn on_wl_surface_frame_done(&mut self, event: WlSurfaceFrameDoneEvent, connection: &mut Session)
        requires
            old(connection).wf(),
        ensures
            final(connection).wf(),
        default_ensures
            *final(connection) == *old(connection),
    {
    }

    #[allow(unused_variables)]
    fn on_wl_surface_enter(&mut self, event: WlSurfaceEnterEvent, connection: &mut Session)
        requires
            old(connection).wf(),
        ensures
            final(connection).wf(),
        default_ensures
            *final(connection) == *old(connection),
    {
    }

    #[allow(unused_variables)]
    fn on_wl_surface_leave(&mut self, event: WlSurfaceLeaveEvent, connection: &mut Session)
        requires
            old(connection).wf(),
        ensures
            final(connection).wf(),
        default_ensures
            *final(connection) == *old(connection),
    {
    }

    #[allow(unused_variables)]
    fn on_wl_surface_preferred_buffer_scale(&mut self, event: WlSurfacePreferredBufferScaleEvent, connection: &mut Session)
        requires
            old(connection).wf(),
        ensures
            final(connection).wf(),
        default_ensures
            *final(connection) == *old(connection),
    {
    }

    #[allow(unused_variables)]
    fn on_wl_surface_preferred_buffer_transform(&mut self, event: WlSurfacePreferredBufferTransformEvent, connection: &mut Session)
        requires
            old(connection).wf(),
        ensures
            final(connection).wf(),
        default_ensures
            *final(connection) == *old(connection),
    {
    }

    #[allow(unused_variables)]
    fn on_wl_seat_capabilities(&mut self, event: WlSeatCapabilitiesEvent, connection: &mut Session)
        requires
            old(connection).wf(),
        ensures
            final(connection).wf(),
        default_ensures
            *final(connection) == *old(connection),
    {
    }

    #[allow(unused_variables)]
    fn on_wl_seat_name(&mut self, event: WlSeatNameEvent, connection: &mut Session)
        requires
            old(connection).wf(),
        ensures
            final(connection).wf(),
        default_ensures
            *final(connection) == *old(connection),
    {
    }

    #[allow(unused_variables)]
    fn on_wl_pointer_enter(&mut self, event: WlPointerEnterEvent, connection: &mut Session)
        requires
            old(connection).wf(),
        ensures
            final(connection).wf(),
        default_ensures
            *final(connection) == *old(connection),
    {
    }

    #[allow(unused_variables)]
    fn on_wl_pointer_leave(&mut self, event: WlPointerLeaveEvent, connection: &mut Session)
        requires
            old(connection).wf(),
        ensures
            final(connection).wf(),
        default_ensures
            *final(connection) == *old(connection),
    {
    }

    #[allow(unused_variables)]
    fn on_wl_pointer_motion(&mut self, event: WlPointerMotionEvent, connection: &mut Session)
        requires
            old(connection).wf(),
        ensures
            final(connection).wf(),
        default_ensures
            *final(connection) == *old(connection),
    {
    }

    #[allow(unused_variables)]
    fn on_wl_pointer_button(&mut self, event: WlPointerButtonEvent, connection: &mut Session)
        requires
            old(connection).wf(),
        ensures
            final(connection).wf(),
        default_ensures
            *final(connection) == *old(connection),
    {
    }

    #[allow(unused_variables)]
    fn on_wl_pointer_axis(&mut self, event: WlPointerAxisEvent, connection: &mut Session)
        requires
            old(connection).wf(),
        ensures
            final(connection).wf(),
        default_ensures
            *final(connection) == *old(connection),
    {
    }

    #[allow(unused_variables)]
    fn on_wl_pointer_frame(&mut self, event: WlPointerFrameEvent, connection: &mut Session)
        requires
            old(connection).wf(),
        ensures
            final(connection).wf(),
        default_ensures
            *final(connection) == *old(connection),
    {
    }

    #[allow(unused_variables)]
    fn on_wl_pointer_axis_source(&mut self, event: WlPointerAxisSourceEvent, connection: &mut Session)
        requires
            old(connection).wf(),
        ensures
            final(connection).wf(),
        default_ensures
            *final(connection) == *old(connection),
    {
    }

    #[allow(unused_variables)]
    fn on_wl_pointer_axis_stop(&mut self, event: WlPointerAxisStopEvent, connection: &mut Session)
        requires
            old(connection).wf(),
        ensures
            final(connection).wf(),
        default_ensures
            *final(connection) == *old(connection),
    {
    }

    #[allow(unused_variables)]
    fn on_wl_pointer_axis_discrete(&mut self, event: WlPointerAxisDiscreteEvent, connection: &mut Session)
        requires
            old(connection).wf(),
        ensures
            final(connection).wf(),
        default_ensures
            *final(connection) == *old(connection),
    {
    }

    #[allow(unused_variables)]
    fn on_wl_pointer_axis_value120(&mut self, event: WlPointerAxisValue120Event, connection: &mut Session)
        requires
            old(connection).wf(),
        ensures
            final(connection).wf(),
        default_ensures
            *final(connection) == *old(connection),
    {
    }

    #[allow(unused_variables)]
    fn on_wl_pointer_axis_relative_direction(&mut self, event: WlPointerAxisRelativeDirectionEvent, connection: &mut Session)
        requires
            old(connection).wf(),
        ensures
            final(connection).wf(),
        default_ensures
            *final(connection) == *old(connection),
    {
    }

    #[allow(unused_variables)]
    fn on_wl_keyboard_keymap(&mut self, event: WlKeyboardKeymapEvent, connection: &mut Session)
        requires
            old(connection).wf(),
        ensures
            final(connection).wf(),
        default_ensures
            *final(connection) == *old(connection),
    {
    }

    #[allow(unused_variables)]
    fn on_wl_keyboard_enter(&mut self, event: WlKeyboardEnterEvent, connection: &mut Session)
        requires
            old(connection).wf(),
        ensures
            final(connection).wf(),
        default_ensures
            *final(connection) == *old(connection),
    {
    }

    #[allow(unused_variables)]
    fn on_wl_keyboard_leave(&mut self, event: WlKeyboardLeaveEvent, connection: &mut Session)
        requires
            old(connection).wf(),
        ensures
            final(connection).wf(),
        default_ensures
            *final(connection) == *old(connection),
    {
    }

    #[allow(unused_variables)]
    fn on_wl_keyboard_key(&mut self, event: WlKeyboardKeyEvent, connection: &mut Session)
        requires
            old(connection).wf(),
        ensures
            final(connection).wf(),
        default_ensures
            *final(connection) == *old(connection),
    {
    }

    #[allow(unused_variables)]
    fn on_wl_keyboard_modifiers(&mut self, event: WlKeyboardModifiersEvent, connection: &mut Session)
        requires
            old(connection).wf(),
        ensures
            final(connection).wf(),
        default_ensures
            *final(connection) == *old(connection),
    {
    }

    #[allow(unused_variables)]
    fn on_wl_keyboard_repeat_info(&mut self, event: WlKeyboardRepeatInfoEvent, connection: &mut Session)
        requires
            old(connection).wf(),
        ensures
            final(connection).wf(),
        default_ensures
            *final(connection) == *old(connection),
    {
    }

    #[allow(unused_variables)]
    fn on_wl_touch_down(&mut self, event: WlTouchDownEvent, connection: &mut Session)
        requires
            old(connection).wf(),
        ensures
            final(connection).wf(),
        default_ensures
            *final(connection) == *old(connection),
    {
    }

    #[allow(unused_variables)]
    fn on_wl_touch_up(&mut self, event: WlTouchUpEvent, connection: &mut Session)
        requires
            old(connection).wf(),
        ensures
            final(connection).wf(),
        default_ensures
            *final(connection) == *old(connection),
    {
    }

    #[allow(unused_variables)]
    fn on_wl_touch_motion(&mut self, event: WlTouchMotionEvent, connection: &mut Session)
        requires
            old(connection).wf(),
        ensures
            final(connection).wf(),
        default_ensures
            *final(connection) == *old(connection),
    {
    }

    #[allow(unused_variables)]
    fn on_wl_touch_frame(&mut self, event: WlTouchFrameEvent, connection: &mut Session)
        requires
            old(connection).wf(),
        ensures
            final(connection).wf(),
        default_ensures
            *final(connection) == *old(connection),
    {
    }

    #[allow(unused_variables)]
    fn on_wl_touch_cancel(&mut self, event: WlTouchCancelEvent, connection: &mut Session)
        requires
            old(connection).wf(),
        ensures
            final(connection).wf(),
        default_ensures
            *final(connection) == *old(connection),
    {
    }

    #[allow(unused_variables)]
    fn on_wl_touch_shape(&mut self, event: WlTouchShapeEvent, connection: &mut Session)
        requires
            old(connection).wf(),
        ensures
            final(connection).wf(),
        default_ensures
            *final(connection) == *old(connection),
    {
    }

    #[allow(unused_variables)]
    fn on_wl_touch_orientation(&mut self, event: WlTouchOrientationEvent, connection: &mut Session)
        requires
            old(connection).wf(),
        ensures
            final(connection).wf(),
        default_ensures
            *final(connection) == *old(connection),
    {
    }

    #[allow(unused_variables)]
    fn on_wl_output_geometry(&mut self, event: WlOutputGeometryEvent, connection: &mut Session)
        requires
            old(connection).wf(),
        ensures
            final(connection).wf(),
        default_ensures
            *final(connection) == *old(connection),
    {
    }

    #[allow(unused_variables)]
    fn on_wl_output_mode(&mut self, event: WlOutputModeEvent, connection: &mut Session)
        requires
            old(connection).wf(),
        ensures
            final(connection).wf(),
        default_ensures
            *final(connection) == *old(connection),
    {
    }

    #[allow(unused_variables)]
    fn on_wl_output_done(&mut self, event: WlOutputDoneEvent, connection: &mut Session)
        requires
            old(connection).wf(),
        ensures
            final(connection).wf(),
        default_ensures
            *final(connection) == *old(connection),
    {
    }

    #[allow(unused_variables)]
    fn on_wl_output_scale(&mut self, event: WlOutputScaleEvent, connection: &mut Session)
        requires
            old(connection).wf(),
        ensures
            final(connection).wf(),
        default_ensures
            *final(connection) == *old(connection),
    {
    }

    #[allow(unused_variables)]
    fn on_wl_output_name(&mut self, event: WlOutputNameEvent, connection: &mut Session)
        requires
            old(connection).wf(),
        ensures
            final(connection).wf(),
        default_ensures
            *final(connection) == *old(connection),
    {
    }

    #[allow(unused_variables)]
    fn on_wl_output_description(&mut self, event: WlOutputDescriptionEvent, connection: &mut Session)
        requires
            old(connection).wf(),
        ensures
            final(connection).wf(),
        default_ensures
            *final(connection) == *old(connection),
    {
    }
}

/// A handler that lets every event pass.
#[derive(Debug, Clone, Copy, Default)]
pub struct Discard;

impl EventHandler for Discard {
}

impl Event {
    /// Whether the call that hands this event to the method meant for it,
    /// on the handler behind `s` and the session behind `k`, is one that
    /// the method's contract admits: `s` and `k` start at what the method
    /// was given and end at what it left.
    pub open spec fn spec_handed<T: EventHandler>(self, s: &mut T, k: &mut Session) -> bool {
        match self {
            Event::XdgWmBasePing(event) => call_ensures(
                T::on_xdg_wm_base_ping,
                (s, event, k),
                (),
            ),
            Event::XdgSurfaceConfigure(event) => call_ensures(
                T::on_xdg_surface_configure,
                (s, event, k),
                (),
            ),
            Event::XdgToplevelConfigure(event) => call_ensures(
                T::on_xdg_toplevel_configure,
                (s, event, k),
                (),
            ),
            Event::XdgToplevelClose(event) => call_ensures(
                T::on_xdg_toplevel_close,
                (s, event, k),
                (),
            ),
            Event::XdgToplevelConfigureBounds(event) => call_ensures(
                T::on_xdg_toplevel_configure_bounds,
                (s, event, k),
                (),
            ),
            Event::XdgToplevelWmCapabilities(event) => call_ensures(
                T::on_xdg_toplevel_wm_capabilities,
                (s, event, k),
                (),
            ),
            Event::XdgPopupConfigure(event) => call_ensures(
                T::on_xdg_popup_configure,
                (s, event, k),
                (),
            ),
            Event::XdgPopupPopupDone(event) => call_ensures(
                T::on_xdg_popup_popup_done,
                (s, event, k),
                (),
            ),
            Event::XdgPopupRepositioned(event) => call_ensures(
                T::on_xdg_popup_repositioned,
                (s, event, k),
                (),
            ),
            Event::WlDisplaySyncDone(event) => call_ensures(
                T::on_wl_display_sync_done,
                (s, event, k),
                (),
            ),
            Event::WlDisplayError(event) => call_ensures(
                T::on_wl_display_error,
                (s, event, k),
                (),
            ),
            Event::WlDisplayDeleteId(event) => call_ensures(
                T::on_wl_display_delete_id,
                (s, event, k),
                (),
            ),
            Event::WlRegistryGlobal(event) => call_ensures(
                T::on_wl_registry_global,
                (s, event, k),
                (),
            ),
            Event::WlRegistryGlobalRemove(event) => call_ensures(
                T::on_wl_registry_global_remove,
                (s, event, k),
                (),
            ),
            Event::WlShmFormat(event) => call_ensures(
                T::on_wl_shm_format,
                (s, event, k),
                (),
            ),
            Event::WlBufferRelease(event) => call_ensures(
                T::on_wl_buffer_release,
                (s, event, k),
                (),
            ),
            Event::WlDataOfferOffer(event) => call_ensures(
                T::on_wl_data_offer_offer,
                (s, event, k),
                (),
            ),
            Event::WlDataOfferSourceActions(event) => call_ensures(
                T::on_wl_data_offer_source_actions,
                (s, event, k),
                (),
            ),
            Event::WlDataOfferAction(event) => call_ensures(
                T::on_wl_data_offer_action,
                (s, event, k),
                (),
            ),
            Event::WlDataSourceTarget(event) => call_ensures(
                T::on_wl_data_source_target,
                (s, event, k),
                (),
            ),
            Event::WlDataSourceSend(event) => call_ensures(
                T::on_wl_data_source_send,
                (s, event, k),
                (),
            ),
            Event::WlDataSourceCancelled(event) => call_ensures(
                T::on_wl_data_source_cancelled,
                (s, event, k),
                (),
            ),
            Event::WlDataSourceDndDropPerformed(event) => call_ensures(
                T::on_wl_data_source_dnd_drop_performed,
                (s, event, k),
                (),
            ),
            Event::WlDataSourceDndFinished(event) => call_ensures(
                T::on_wl_data_source_dnd_finished,
                (s, event, k),
                (),
            ),
            Event::WlDataSourceAction(event) => call_ensures(
                T::on_wl_data_source_action,
                (s, event, k),
                (),
            ),
            Event::WlDataDeviceDataOffer(event) => call_ensures(
                T::on_wl_data_device_data_offer,
                (s, event, k),
                (),
            ),
            Event::WlDataDeviceEnter(event) => call_ensures(
                T::on_wl_data_device_enter,
                (s, event, k),
                (),
            ),
            Event::WlDataDeviceLeave(event) => call_ensures(
                T::on_wl_data_device_leave,
                (s, event, k),
                (),
            ),
            Event::WlDataDeviceMotion(event) => call_ensures(
                T::on_wl_data_device_motion,
                (s, event, k),
                (),
            ),
            Event::WlDataDeviceDrop(event) => call_ensures(
                T::on_wl_data_device_drop,
                (s, event, k),
                (),
            ),
            Event::WlDataDeviceSelection(event) => call_ensures(
                T::on_wl_data_device_selection,
                (s, event, k),
                (),
            ),
            Event::WlShellSurfacePing(event) => call_ensures(
                T::on_wl_shell_surface_ping,
                (s, event, k),
                (),
            ),
            Event::WlShellSurfaceConfigure(event) => call_ensures(
                T::on_wl_shell_surface_configure,
                (s, event, k),
                (),
            ),
            Event::WlShellSurfacePopupDone(event) => call_ensures(
                T::on_wl_shell_surface_popup_done,
                (s, event, k),
                (),
            ),
            Event::WlSurfaceFrameDone(event) => call_ensures(
                T::on_wl_surface_frame_done,
                (s, event, k),
                (),
            ),
            Event::WlSurfaceEnter(event) => call_ensures(
                T::on_wl_surface_enter,
                (s, event, k),
                (),
            ),
            Event::WlSurfaceLeave(event) => call_ensures(
                T::on_wl_surface_leave,
                (s, event, k),
                (),
            ),
            Event::WlSurfacePreferredBufferScale(event) => call_ensures(
                T::on_wl_surface_preferred_buffer_scale,
                (s, event, k),
                (),
            ),
            Event::WlSurfacePreferredBufferTransform(event) => call_ensures(
                T::on_wl_surface_preferred_buffer_transform,
                (s, event, k),
                (),
            ),
            Event::WlSeatCapabilities(event) => call_ensures(
                T::on_wl_seat_capabilities,
                (s, event, k),
                (),
            ),
            Event::WlSeatName(event) => call_ensures(
                T::on_wl_seat_name,
                (s, event, k),
                (),
            ),
            Event::WlPointerEnter(event) => call_ensures(
                T::on_wl_pointer_enter,
                (s, event, k),
                (),
            ),
            Event::WlPointerLeave(event) => call_ensures(
                T::on_wl_pointer_leave,
                (s, event, k),
                (),
            ),
            Event::WlPointerMotion(event) => call_ensures(
                T::on_wl_pointer_motion,
                (s, event, k),
                (),
            ),
            Event::WlPointerButton(event) => call_ensures(
                T::on_wl_pointer_button,
                (s, event, k),
                (),
            ),
            Event::WlPointerAxis(event) => call_ensures(
                T::on_wl_pointer_axis,
                (s, event, k),
                (),
            ),
            Event::WlPointerFrame(event) => call_ensures(
                T::on_wl_pointer_frame,
                (s, event, k),
                (),
            ),
            Event::WlPointerAxisSource(event) => call_ensures(
                T::on_wl_pointer_axis_source,
                (s, event, k),
                (),
            ),
            Event::WlPointerAxisStop(event) => call_ensures(
                T::on_wl_pointer_axis_stop,
                (s, event, k),
                (),
            ),
            Event::WlPointerAxisDiscrete(event) => call_ensures(
                T::on_wl_pointer_axis_discrete,
                (s, event, k),
                (),
            ),
            Event::WlPointerAxisValue120(event) => call_ensures(
                T::on_wl_pointer_axis_value120,
                (s, event, k),
                (),
            ),
            Event::WlPointerAxisRelativeDirection(event) => call_ensures(
                T::on_wl_pointer_axis_relative_direction,
                (s, event, k),
                (),
            ),
            Event::WlKeyboardKeymap(event) => call_ensures(
                T::on_wl_keyboard_keymap,
                (s, event, k),
                (),
            ),
            Event::WlKeyboardEnter(event) => call_ensures(
                T::on_wl_keyboard_enter,
                (s, event, k),
                (),
            ),
            Event::WlKeyboardLeave(event) => call_ensures(
                T::on_wl_keyboard_leave,
                (s, event, k),
                (),
            ),
            Event::WlKeyboardKey(event) => call_ensures(
                T::on_wl_keyboard_key,
                (s, event, k),
                (),
            ),
            Event::WlKeyboardModifiers(event) => call_ensures(
                T::on_wl_keyboard_modifiers,
                (s, event, k),
                (),
            ),
            Event::WlKeyboardRepeatInfo(event) => call_ensures(
                T::on_wl_keyboard_repeat_info,
                (s, event, k),
                (),
            ),
            Event::WlTouchDown(event) => call_ensures(
                T::on_wl_touch_down,
                (s, event, k),
                (),
            ),
            Event::WlTouchUp(event) => call_ensures(
                T::on_wl_touch_up,
                (s, event, k),
                (),
            ),
            Event::WlTouchMotion(event) => call_ensures(
                T::on_wl_touch_motion,
                (s, event, k),
                (),
            ),
            Event::WlTouchFrame(event) => call_ensures(
                T::on_wl_touch_frame,
                (s, event, k),
                (),
            ),
            Event::WlTouchCancel(event) => call_ensures(
                T::on_wl_touch_cancel,
                (s, event, k),
                (),
            ),
            Event::WlTouchShape(event) => call_ensures(
                T::on_wl_touch_shape,
                (s, event, k),
                (),
            ),
            Event::WlTouchOrientation(event) => call_ensures(
                T::on_wl_touch_orientation,
                (s, event, k),
                (),
            ),
            Event::WlOutputGeometry(event) => call_ensures(
                T::on_wl_output_geometry,
                (s, event, k),
                (),
            ),
            Event::WlOutputMode(event) => call_ensures(
                T::on_wl_output_mode,
                (s, event, k),
                (),
            ),
            Event::WlOutputDone(event) => call_ensures(
                T::on_wl_output_done,
                (s, event, k),
                (),
            ),
            Event::WlOutputScale(event) => call_ensures(
                T::on_wl_output_scale,
                (s, event, k),
                (),
            ),
            Event::WlOutputName(event) => call_ensures(
                T::on_wl_output_name,
                (s, event, k),
                (),
            ),
            Event::WlOutputDescription(event) => call_ensures(
                T::on_wl_output_description,
                (s, event, k),
                (),
            ),
        }
    }

    /// Hands the event to the method of `state` that is meant for it:
    /// that method is called once, with this event, on the handler and the
    /// session as they come in, and what it leaves of both is what is left
    /// of them here.
    pub fn deliver<T: EventHandler>(self, state: &mut T, connection: &mut Session)
        requires
            old(connection).wf(),
        ensures
            final(connection).wf(),
            exists|s: &mut T, k: &mut Session|
                *s == *old(state) && *final(s) == *final(state) && *k == *old(connection)
                    && *final(k) == *final(connection) && #[trigger] self.spec_handed(s, k),
    {
        let ghost ev = self;
        match self {
            Event::XdgWmBasePing(event) => {
                let ghost e = event;
                state.on_xdg_wm_base_ping(event, connection);
                proof {
                    let (s, k) = choose|s: &mut T, k: &mut Session|
                        *s == *old(state) && *final(s) == *state && *k == *old(connection)
                            && *final(k) == *connection && #[trigger] call_ensures(
                            T::on_xdg_wm_base_ping,
                            (s, e, k),
                            (),
                        );
                    assert(ev.spec_handed(s, k));
                }
            },
            Event::XdgSurfaceConfigure(event) => {
                let ghost e = event;
                state.on_xdg_surface_configure(event, connection);
                proof {
                    let (s, k) = choose|s: &mut T, k: &mut Session|
                        *s == *old(state) && *final(s) == *state && *k == *old(connection)
                            && *final(k) == *connection && #[trigger] call_ensures(
                            T::on_xdg_surface_configure,
                            (s, e, k),
                            (),
                        );
                    assert(ev.spec_handed(s, k));
                }
            },
            Event::XdgToplevelConfigure(event) => {
                let ghost e = event;
                state.on_xdg_toplevel_configure(event, connection);
                proof {
                    let (s, k) = choose|s: &mut T, k: &mut Session|
                        *s == *old(state) && *final(s) == *state && *k == *old(connection)
                            && *final(k) == *connection && #[trigger] call_ensures(
                            T::on_xdg_toplevel_configure,
                            (s, e, k),
                            (),
                        );
                    assert(ev.spec_handed(s, k));
                }
            },
            Event::XdgToplevelClose(event) => {
                let ghost e = event;
                state.on_xdg_toplevel_close(event, connection);
                proof {
                    let (s, k) = choose|s: &mut T, k: &mut Session|
                        *s == *old(state) && *final(s) == *state && *k == *old(connection)
                            && *final(k) == *connection && #[trigger] call_ensures(
                            T::on_xdg_toplevel_close,
                            (s, e, k),
                            (),
                        );
                    assert(ev.spec_handed(s, k));
                }
            },
            Event::XdgToplevelConfigureBounds(event) => {
                let ghost e = event;
                state.on_xdg_toplevel_configure_bounds(event, connection);
                proof {
                    let (s, k) = choose|s: &mut T, k: &mut Session|
                        *s == *old(state) && *final(s) == *state && *k == *old(connection)
                            && *final(k) == *connection && #[trigger] call_ensures(
                            T::on_xdg_toplevel_configure_bounds,
                            (s, e, k),
                            (),
                        );
                    assert(ev.spec_handed(s, k));
                }
            },
            Event::XdgToplevelWmCapabilities(event) => {
                let ghost e = event;
                state.on_xdg_toplevel_wm_capabilities(event, connection);
                proof {
                    let (s, k) = choose|s: &mut T, k: &mut Session|
                        *s == *old(state) && *final(s) == *state && *k == *old(connection)
                            && *final(k) == *connection && #[trigger] call_ensures(
                            T::on_xdg_toplevel_wm_capabilities,
                            (s, e, k),
                            (),
                        );
                    assert(ev.spec_handed(s, k));
                }
            },
            Event::XdgPopupConfigure(event) => {
                let ghost e = event;
                state.on_xdg_popup_configure(event, connection);
                proof {
                    let (s, k) = choose|s: &mut T, k: &mut Session|
                        *s == *old(state) && *final(s) == *state && *k == *old(connection)
                            && *final(k) == *connection && #[trigger] call_ensures(
                            T::on_xdg_popup_configure,
                            (s, e, k),
                            (),
                        );
                    assert(ev.spec_handed(s, k));
                }
            },
            Event::XdgPopupPopupDone(event) => {
                let ghost e = event;
                state.on_xdg_popup_popup_done(event, connection);
                proof {
                    let (s, k) = choose|s: &mut T, k: &mut Session|
                        *s == *old(state) && *final(s) == *state && *k == *old(connection)
                            && *final(k) == *connection && #[trigger] call_ensures(
                            T::on_xdg_popup_popup_done,
                            (s, e, k),
                            (),
                        );
                    assert(ev.spec_handed(s, k));
                }
            },
            Event::XdgPopupRepositioned(event) => {
                let ghost e = event;
                state.on_xdg_popup_repositioned(event, connection);
                proof {
                    let (s, k) = choose|s: &mut T, k: &mut Session|
                        *s == *old(state) && *final(s) == *state && *k == *old(connection)
                            && *final(k) == *connection && #[trigger] call_ensures(
                            T::on_xdg_popup_repositioned,
                            (s, e, k),
                            (),
                        );
                    assert(ev.spec_handed(s, k));
                }
            },
            Event::WlDisplaySyncDone(event) => {
                let ghost e = event;
                state.on_wl_display_sync_done(event, connection);
                proof {
                    let (s, k) = choose|s: &mut T, k: &mut Session|
                        *s == *old(state) && *final(s) == *state && *k == *old(connection)
                            && *final(k) == *connection && #[trigger] call_ensures(
                            T::on_wl_display_sync_done,
                            (s, e, k),
                            (),
                        );
                    assert(ev.spec_handed(s, k));
                }
            },
            Event::WlDisplayError(event) => {
                let ghost e = event;
                state.on_wl_display_error(event, connection);
                proof {
                    let (s, k) = choose|s: &mut T, k: &mut Session|
                        *s == *old(state) && *final(s) == *state && *k == *old(connection)
                            && *final(k) == *connection && #[trigger] call_ensures(
                            T::on_wl_display_error,
                            (s, e, k),
                            (),
                        );
                    assert(ev.spec_handed(s, k));
                }
            },
            Event::WlDisplayDeleteId(event) => {
                let ghost e = event;
                state.on_wl_display_delete_id(event, connection);
                proof {
                    let (s, k) = choose|s: &mut T, k: &mut Session|
                        *s == *old(state) && *final(s) == *state && *k == *old(connection)
                            && *final(k) == *connection && #[trigger] call_ensures(
                            T::on_wl_display_delete_id,
                            (s, e, k),
                            (),
                        );
                    assert(ev.spec_handed(s, k));
                }
            },
            Event::WlRegistryGlobal(event) => {
                let ghost e = event;
                state.on_wl_registry_global(event, connection);
                proof {
                    let (s, k) = choose|s: &mut T, k: &mut Session|
                        *s == *old(state) && *final(s) == *state && *k == *old(connection)
                            && *final(k) == *connection && #[trigger] call_ensures(
                            T::on_wl_registry_global,
                            (s, e, k),
                            (),
                        );
                    assert(ev.spec_handed(s, k));
                }
            },
            Event::WlRegistryGlobalRemove(event) => {
                let ghost e = event;
                state.on_wl_registry_global_remove(event, connection);
                proof {
                    let (s, k) = choose|s: &mut T, k: &mut Session|
                        *s == *old(state) && *final(s) == *state && *k == *old(connection)
                            && *final(k) == *connection && #[trigger] call_ensures(
                            T::on_wl_registry_global_remove,
                            (s, e, k),
                            (),
                        );
                    assert(ev.spec_handed(s, k));
                }
            },
            Event::WlShmFormat(event) => {
                let ghost e = event;
                state.on_wl_shm_format(event, connection);
                proof {
                    let (s, k) = choose|s: &mut T, k: &mut Session|
                        *s == *old(state) && *final(s) == *state && *k == *old(connection)
                            && *final(k) == *connection && #[trigger] call_ensures(
                            T::on_wl_shm_format,
                            (s, e, k),
                            (),
                        );
                    assert(ev.spec_handed(s, k));
                }
            },
            Event::WlBufferRelease(event) => {
                let ghost e = event;
                state.on_wl_buffer_release(event, connection);
                proof {
                    let (s, k) = choose|s: &mut T, k: &mut Session|
                        *s == *old(state) && *final(s) == *state && *k == *old(connection)
                            && *final(k) == *connection && #[trigger] call_ensures(
                            T::on_wl_buffer_release,
                            (s, e, k),
                            (),
                        );
                    assert(ev.spec_handed(s, k));
                }
            },
            Event::WlDataOfferOffer(event) => {
                let ghost e = event;
                state.on_wl_data_offer_offer(event, connection);
                proof {
                    let (s, k) = choose|s: &mut T, k: &mut Session|
                        *s == *old(state) && *final(s) == *state && *k == *old(connection)
                            && *final(k) == *connection && #[trigger] call_ensures(
                            T::on_wl_data_offer_offer,
                            (s, e, k),
                            (),
                        );
                    assert(ev.spec_handed(s, k));
                }
            },
            Event::WlDataOfferSourceActions(event) => {
                let ghost e = event;
                state.on_wl_data_offer_source_actions(event, connection);
                proof {
                    let (s, k) = choose|s: &mut T, k: &mut Session|
                        *s == *old(state) && *final(s) == *state && *k == *old(connection)
                            && *final(k) == *connection && #[trigger] call_ensures(
                            T::on_wl_data_offer_source_actions,
                            (s, e, k),
                            (),
                        );
                    assert(ev.spec_handed(s, k));
                }
            },
            Event::WlDataOfferAction(event) => {
                let ghost e = event;
                state.on_wl_data_offer_action(event, connection);
                proof {
                    let (s, k) = choose|s: &mut T, k: &mut Session|
                        *s == *old(state) && *final(s) == *state && *k == *old(connection)
                            && *final(k) == *connection && #[trigger] call_ensures(
                            T::on_wl_data_offer_action,
                            (s, e, k),
                            (),
                        );
                    assert(ev.spec_handed(s, k));
                }
            },
            Event::WlDataSourceTarget(event) => {
                let ghost e = event;
                state.on_wl_data_source_target(event, connection);
                proof {
                    let (s, k) = choose|s: &mut T, k: &mut Session|
                        *s == *old(state) && *final(s) == *state && *k == *old(connection)
                            && *final(k) == *connection && #[trigger] call_ensures(
                            T::on_wl_data_source_target,
                            (s, e, k),
                            (),
                        );
                    assert(ev.spec_handed(s, k));
                }
            },
            Event::WlDataSourceSend(event) => {
                let ghost e = event;
                state.on_wl_data_source_send(event, connection);
                proof {
                    let (s, k) = choose|s: &mut T, k: &mut Session|
                        *s == *old(state) && *final(s) == *state && *k == *old(connection)
                            && *final(k) == *connection && #[trigger] call_ensures(
                            T::on_wl_data_source_send,
                            (s, e, k),
                            (),
                        );
                    assert(ev.spec_handed(s, k));
                }
            },
            Event::WlDataSourceCancelled(event) => {
                let ghost e = event;
                state.on_wl_data_source_cancelled(event, connection);
                proof {
                    let (s, k) = choose|s: &mut T, k: &mut Session|
                        *s == *old(state) && *final(s) == *state && *k == *old(connection)
                            && *final(k) == *connection && #[trigger] call_ensures(
                            T::on_wl_data_source_cancelled,
                            (s, e, k),
                            (),
                        );
                    assert(ev.spec_handed(s, k));
                }
            },
            Event::WlDataSourceDndDropPerformed(event) => {
                let ghost e = event;
                state.on_wl_data_source_dnd_drop_performed(event, connection);
                proof {
                    let (s, k) = choose|s: &mut T, k: &mut Session|
                        *s == *old(state) && *final(s) == *state && *k == *old(connection)
                            && *final(k) == *connection && #[trigger] call_ensures(
                            T::on_wl_data_source_dnd_drop_performed,
                            (s, e, k),
                            (),
                        );
                    assert(ev.spec_handed(s, k));
                }
            },
            Event::WlDataSourceDndFinished(event) => {
                let ghost e = event;
                state.on_wl_data_source_dnd_finished(event, connection);
                proof {
                    let (s, k) = choose|s: &mut T, k: &mut Session|
                        *s == *old(state) && *final(s) == *state && *k == *old(connection)
                            && *final(k) == *connection && #[trigger] call_ensures(
                            T::on_wl_data_source_dnd_finished,
                            (s, e, k),
                            (),
                        );
                    assert(ev.spec_handed(s, k));
                }
            },
            Event::WlDataSourceAction(event) => {
                let ghost e = event;
                state.on_wl_data_source_action(event, connection);
                proof {
                    let (s, k) = choose|s: &mut T, k: &mut Session|
                        *s == *old(state) && *final(s) == *state && *k == *old(connection)
                            && *final(k) == *connection && #[trigger] call_ensures(
                            T::on_wl_data_source_action,
                            (s, e, k),
                            (),
                        );
                    assert(ev.spec_handed(s, k));
                }
            },
            Event::WlDataDeviceDataOffer(event) => {
                let ghost e = event;
                state.on_wl_data_device_data_offer(event, connection);
                proof {
                    let (s, k) = choose|s: &mut T, k: &mut Session|
                        *s == *old(state) && *final(s) == *state && *k == *old(connection)
                            && *final(k) == *connection && #[trigger] call_ensures(
                            T::on_wl_data_device_data_offer,
                            (s, e, k),
                            (),
                        );
                    assert(ev.spec_handed(s, k));
                }
            },
            Event::WlDataDeviceEnter(event) => {
                let ghost e = event;
                state.on_wl_data_device_enter(event, connection);
                proof {
                    let (s, k) = choose|s: &mut T, k: &mut Session|
                        *s == *old(state) && *final(s) == *state && *k == *old(connection)
                            && *final(k) == *connection && #[trigger] call_ensures(
                            T::on_wl_data_device_enter,
                            (s, e, k),
                            (),
                        );
                    assert(ev.spec_handed(s, k));
                }
            },
            Event::WlDataDeviceLeave(event) => {
                let ghost e = event;
                state.on_wl_data_device_leave(event, connection);
                proof {
                    let (s, k) = choose|s: &mut T, k: &mut Session|
                        *s == *old(state) && *final(s) == *state && *k == *old(connection)
                            && *final(k) == *connection && #[trigger] call_ensures(
                            T::on_wl_data_device_leave,
                            (s, e, k),
                            (),
                        );
                    assert(ev.spec_handed(s, k));
                }
            },
            Event::WlDataDeviceMotion(event) => {
                let ghost e = event;
                state.on_wl_data_device_motion(event, connection);
                proof {
                    let (s, k) = choose|s: &mut T, k: &mut Session|
                        *s == *old(state) && *final(s) == *state && *k == *old(connection)
                            && *final(k) == *connection && #[trigger] call_ensures(
                            T::on_wl_data_device_motion,
                            (s, e, k),
                            (),
                        );
                    assert(ev.spec_handed(s, k));
                }
            },
            Event::WlDataDeviceDrop(event) => {
                let ghost e = event;
                state.on_wl_data_device_drop(event, connection);
                proof {
                    let (s, k) = choose|s: &mut T, k: &mut Session|
                        *s == *old(state) && *final(s) == *state && *k == *old(connection)
                            && *final(k) == *connection && #[trigger] call_ensures(
                            T::on_wl_data_device_drop,
                            (s, e, k),
                            (),
                        );
                    assert(ev.spec_handed(s, k));
                }
            },
            Event::WlDataDeviceSelection(event) => {
                let ghost e = event;
                state.on_wl_data_device_selection(event, connection);
                proof {
                    let (s, k) = choose|s: &mut T, k: &mut Session|
                        *s == *old(state) && *final(s) == *state && *k == *old(connection)
                            && *final(k) == *connection && #[trigger] call_ensures(
                            T::on_wl_data_device_selection,
                            (s, e, k),
                            (),
                        );
                    assert(ev.spec_handed(s, k));
                }
            },
            Event::WlShellSurfacePing(event) => {
                let ghost e = event;
                state.on_wl_shell_surface_ping(event, connection);
                proof {
                    let (s, k) = choose|s: &mut T, k: &mut Session|
                        *s == *old(state) && *final(s) == *state && *k == *old(connection)
                            && *final(k) == *connection && #[trigger] call_ensures(
                            T::on_wl_shell_surface_ping,
                            (s, e, k),
                            (),
                        );
                    assert(ev.spec_handed(s, k));
                }
            },
            Event::WlShellSurfaceConfigure(event) => {
                let ghost e = event;
                state.on_wl_shell_surface_configure(event, connection);
                proof {
                    let (s, k) = choose|s: &mut T, k: &mut Session|
                        *s == *old(state) && *final(s) == *state && *k == *old(connection)
                            && *final(k) == *connection && #[trigger] call_ensures(
                            T::on_wl_shell_surface_configure,
                            (s, e, k),
                            (),
                        );
                    assert(ev.spec_handed(s, k));
                }
            },
            Event::WlShellSurfacePopupDone(event) => {
                let ghost e = event;
                state.on_wl_shell_surface_popup_done(event, connection);
                proof {
                    let (s, k) = choose|s: &mut T, k: &mut Session|
                        *s == *old(state) && *final(s) == *state && *k == *old(connection)
                            && *final(k) == *connection && #[trigger] call_ensures(
                            T::on_wl_shell_surface_popup_done,
                            (s, e, k),
                            (),
                        );
                    assert(ev.spec_handed(s, k));
                }
            },
            Event::WlSurfaceFrameDone(event) => {
                let ghost e = event;
                state.on_wl_surface_frame_done(event, connection);
                proof {
                    let (s, k) = choose|s: &mut T, k: &mut Session|
                        *s == *old(state) && *final(s) == *state && *k == *old(connection)
                            && *final(k) == *connection && #[trigger] call_ensures(
                            T::on_wl_surface_frame_done,
                            (s, e, k),
                            (),
                        );
                    assert(ev.spec_handed(s, k));
                }
            },
            Event::WlSurfaceEnter(event) => {
                let ghost e = event;
                state.on_wl_surface_enter(event, connection);
                proof {
                    let (s, k) = choose|s: &mut T, k: &mut Session|
                        *s == *old(state) && *final(s) == *state && *k == *old(connection)
                            && *final(k) == *connection && #[trigger] call_ensures(
                            T::on_wl_surface_enter,
                            (s, e, k),
                            (),
                        );
                    assert(ev.spec_handed(s, k));
                }
            },
            Event::WlSurfaceLeave(event) => {
                let ghost e = event;
                state.on_wl_surface_leave(event, connection);
                proof {
                    let (s, k) = choose|s: &mut T, k: &mut Session|
                        *s == *old(state) && *final(s) == *state && *k == *old(connection)
                            && *final(k) == *connection && #[trigger] call_ensures(
                            T::on_wl_surface_leave,
                            (s, e, k),
                            (),
                        );
                    assert(ev.spec_handed(s, k));
                }
            },
            Event::WlSurfacePreferredBufferScale(event) => {
                let ghost e = event;
                state.on_wl_surface_preferred_buffer_scale(event, connection);
                proof {
                    let (s, k) = choose|s: &mut T, k: &mut Session|
                        *s == *old(state) && *final(s) == *state && *k == *old(connection)
                            && *final(k) == *connection && #[trigger] call_ensures(
                            T::on_wl_surface_preferred_buffer_scale,
                            (s, e, k),
                            (),
                        );
                    assert(ev.spec_handed(s, k));
                }
            },
            Event::WlSurfacePreferredBufferTransform(event) => {
                let ghost e = event;
                state.on_wl_surface_preferred_buffer_transform(event, connection);
                proof {
                    let (s, k) = choose|s: &mut T, k: &mut Session|
                        *s == *old(state) && *final(s) == *state && *k == *old(connection)
                            && *final(k) == *connection && #[trigger] call_ensures(
                            T::on_wl_surface_preferred_buffer_transform,
                            (s, e, k),
                            (),
                        );
                    assert(ev.spec_handed(s, k));
                }
            },
            Event::WlSeatCapabilities(event) => {
                let ghost e = event;
                state.on_wl_seat_capabilities(event, connection);
                proof {
                    let (s, k) = choose|s: &mut T, k: &mut Session|
                        *s == *old(state) && *final(s) == *state && *k == *old(connection)
                            && *final(k) == *connection && #[trigger] call_ensures(
                            T::on_wl_seat_capabilities,
                            (s, e, k),
                            (),
                        );
                    assert(ev.spec_handed(s, k));
                }
            },
            Event::WlSeatName(event) => {
                let ghost e = event;
                state.on_wl_seat_name(event, connection);
                proof {
                    let (s, k) = choose|s: &mut T, k: &mut Session|
                        *s == *old(state) && *final(s) == *state && *k == *old(connection)
                            && *final(k) == *connection && #[trigger] call_ensures(
                            T::on_wl_seat_name,
                            (s, e, k),
                            (),
                        );
                    assert(ev.spec_handed(s, k));
                }
            },
            Event::WlPointerEnter(event) => {
                let ghost e = event;
                state.on_wl_pointer_enter(event, connection);
                proof {
                    let (s, k) = choose|s: &mut T, k: &mut Session|
                        *s == *old(state) && *final(s) == *state && *k == *old(connection)
                            && *final(k) == *connection && #[trigger] call_ensures(
                            T::on_wl_pointer_enter,
                            (s, e, k),
                            (),
                        );
                    assert(ev.spec_handed(s, k));
                }
            },
            Event::WlPointerLeave(event) => {
                let ghost e = event;
                state.on_wl_pointer_leave(event, connection);
                proof {
                    let (s, k) = choose|s: &mut T, k: &mut Session|
                        *s == *old(state) && *final(s) == *state && *k == *old(connection)
                            && *final(k) == *connection && #[trigger] call_ensures(
                            T::on_wl_pointer_leave,
                            (s, e, k),
                            (),
                        );
                    assert(ev.spec_handed(s, k));
                }
            },
            Event::WlPointerMotion(event) => {
                let ghost e = event;
                state.on_wl_pointer_motion(event, connection);
                proof {
                    let (s, k) = choose|s: &mut T, k: &mut Session|
                        *s == *old(state) && *final(s) == *state && *k == *old(connection)
                            && *final(k) == *connection && #[trigger] call_ensures(
                            T::on_wl_pointer_motion,
                            (s, e, k),
                            (),
                        );
                    assert(ev.spec_handed(s, k));
                }
            },
            Event::WlPointerButton(event) => {
                let ghost e = event;
                state.on_wl_pointer_button(event, connection);
                proof {
                    let (s, k) = choose|s: &mut T, k: &mut Session|
                        *s == *old(state) && *final(s) == *state && *k == *old(connection)
                            && *final(k) == *connection && #[trigger] call_ensures(
                            T::on_wl_pointer_button,
                            (s, e, k),
                            (),
                        );
                    assert(ev.spec_handed(s, k));
                }
            },
            Event::WlPointerAxis(event) => {
                let ghost e = event;
                state.on_wl_pointer_axis(event, connection);
                proof {
                    let (s, k) = choose|s: &mut T, k: &mut Session|
                        *s == *old(state) && *final(s) == *state && *k == *old(connection)
                            && *final(k) == *connection && #[trigger] call_ensures(
                            T::on_wl_pointer_axis,
                            (s, e, k),
                            (),
                        );
                    assert(ev.spec_handed(s, k));
                }
            },
            Event::WlPointerFrame(event) => {
                let ghost e = event;
                state.on_wl_pointer_frame(event, connection);
                proof {
                    let (s, k) = choose|s: &mut T, k: &mut Session|
                        *s == *old(state) && *final(s) == *state && *k == *old(connection)
                            && *final(k) == *connection && #[trigger] call_ensures(
                            T::on_wl_pointer_frame,
                            (s, e, k),
                            (),
                        );
                    assert(ev.spec_handed(s, k));
                }
            },
            Event::WlPointerAxisSource(event) => {
                let ghost e = event;
                state.on_wl_pointer_axis_source(event, connection);
                proof {
                    let (s, k) = choose|s: &mut T, k: &mut Session|
                        *s == *old(state) && *final(s) == *state && *k == *old(connection)
                            && *final(k) == *connection && #[trigger] call_ensures(
                            T::on_wl_pointer_axis_source,
                            (s, e, k),
                            (),
                        );
                    assert(ev.spec_handed(s, k));
                }
            },
            Event::WlPointerAxisStop(event) => {
                let ghost e = event;
                state.on_wl_pointer_axis_stop(event, connection);
                proof {
                    let (s, k) = choose|s: &mut T, k: &mut Session|
                        *s == *old(state) && *final(s) == *state && *k == *old(connection)
                            && *final(k) == *connection && #[trigger] call_ensures(
                            T::on_wl_pointer_axis_stop,
                            (s, e, k),
                            (),
                        );
                    assert(ev.spec_handed(s, k));
                }
            },
            Event::WlPointerAxisDiscrete(event) => {
                let ghost e = event;
                state.on_wl_pointer_axis_discrete(event, connection);
                proof {
                    let (s, k) = choose|s: &mut T, k: &mut Session|
                        *s == *old(state) && *final(s) == *state && *k == *old(connection)
                            && *final(k) == *connection && #[trigger] call_ensures(
                            T::on_wl_pointer_axis_discrete,
                            (s, e, k),
                            (),
                        );
                    assert(ev.spec_handed(s, k));
                }
            },
            Event::WlPointerAxisValue120(event) => {
                let ghost e = event;
                state.on_wl_pointer_axis_value120(event, connection);
                proof {
                    let (s, k) = choose|s: &mut T, k: &mut Session|
                        *s == *old(state) && *final(s) == *state && *k == *old(connection)
                            && *final(k) == *connection && #[trigger] call_ensures(
                            T::on_wl_pointer_axis_value120,
                            (s, e, k),
                            (),
                        );
                    assert(ev.spec_handed(s, k));
                }
            },
            Event::WlPointerAxisRelativeDirection(event) => {
                let ghost e = event;
                state.on_wl_pointer_axis_relative_direction(event, connection);
                proof {
                    let (s, k) = choose|s: &mut T, k: &mut Session|
                        *s == *old(state) && *final(s) == *state && *k == *old(connection)
                            && *final(k) == *connection && #[trigger] call_ensures(
                            T::on_wl_pointer_axis_relative_direction,
                            (s, e, k),
                            (),
                        );
                    assert(ev.spec_handed(s, k));
                }
            },
            Event::WlKeyboardKeymap(event) => {
                let ghost e = event;
                state.on_wl_keyboard_keymap(event, connection);
                proof {
                    let (s, k) = choose|s: &mut T, k: &mut Session|
                        *s == *old(state) && *final(s) == *state && *k == *old(connection)
                            && *final(k) == *connection && #[trigger] call_ensures(
                            T::on_wl_keyboard_keymap,
                            (s, e, k),
                            (),
                        );
                    assert(ev.spec_handed(s, k));
                }
            },
            Event::WlKeyboardEnter(event) => {
                let ghost e = event;
                state.on_wl_keyboard_enter(event, connection);
                proof {
                    let (s, k) = choose|s: &mut T, k: &mut Session|
                        *s == *old(state) && *final(s) == *state && *k == *old(connection)
                            && *final(k) == *connection && #[trigger] call_ensures(
                            T::on_wl_keyboard_enter,
                            (s, e, k),
                            (),
                        );
                    assert(ev.spec_handed(s, k));
                }
            },
            Event::WlKeyboardLeave(event) => {
                let ghost e = event;
                state.on_wl_keyboard_leave(event, connection);
                proof {
                    let (s, k) = choose|s: &mut T, k: &mut Session|
                        *s == *old(state) && *final(s) == *state && *k == *old(connection)
                            && *final(k) == *connection && #[trigger] call_ensures(
                            T::on_wl_keyboard_leave,
                            (s, e, k),
                            (),
                        );
                    assert(ev.spec_handed(s, k));
                }
            },
            Event::WlKeyboardKey(event) => {
                let ghost e = event;
                state.on_wl_keyboard_key(event, connection);
                proof {
                    let (s, k) = choose|s: &mut T, k: &mut Session|
                        *s == *old(state) && *final(s) == *state && *k == *old(connection)
                            && *final(k) == *connection && #[trigger] call_ensures(
                            T::on_wl_keyboard_key,
                            (s, e, k),
                            (),
                        );
                    assert(ev.spec_handed(s, k));
                }
            },
            Event::WlKeyboardModifiers(event) => {
                let ghost e = event;
                state.on_wl_keyboard_modifiers(event, connection);
                proof {
                    let (s, k) = choose|s: &mut T, k: &mut Session|
                        *s == *old(state) && *final(s) == *state && *k == *old(connection)
                            && *final(k) == *connection && #[trigger] call_ensures(
                            T::on_wl_keyboard_modifiers,
                            (s, e, k),
                            (),
                        );
                    assert(ev.spec_handed(s, k));
                }
            },
            Event::WlKeyboardRepeatInfo(event) => {
                let ghost e = event;
                state.on_wl_keyboard_repeat_info(event, connection);
                proof {
                    let (s, k) = choose|s: &mut T, k: &mut Session|
                        *s == *old(state) && *final(s) == *state && *k == *old(connection)
                            && *final(k) == *connection && #[trigger] call_ensures(
                            T::on_wl_keyboard_repeat_info,
                            (s, e, k),
                            (),
                        );
                    assert(ev.spec_handed(s, k));
                }
            },
            Event::WlTouchDown(event) => {
                let ghost e = event;
                state.on_wl_touch_down(event, connection);
                proof {
                    let (s, k) = choose|s: &mut T, k: &mut Session|
                        *s == *old(state) && *final(s) == *state && *k == *old(connection)
                            && *final(k) == *connection && #[trigger] call_ensures(
                            T::on_wl_touch_down,
                            (s, e, k),
                            (),
                        );
                    assert(ev.spec_handed(s, k));
                }
            },
            Event::WlTouchUp(event) => {
                let ghost e = event;
                state.on_wl_touch_up(event, connection);
                proof {
                    let (s, k) = choose|s: &mut T, k: &mut Session|
                        *s == *old(state) && *final(s) == *state && *k == *old(connection)
                            && *final(k) == *connection && #[trigger] call_ensures(
                            T::on_wl_touch_up,
                            (s, e, k),
                            (),
                        );
                    assert(ev.spec_handed(s, k));
                }
            },
            Event::WlTouchMotion(event) => {
                let ghost e = event;
                state.on_wl_touch_motion(event, connection);
                proof {
                    let (s, k) = choose|s: &mut T, k: &mut Session|
                        *s == *old(state) && *final(s) == *state && *k == *old(connection)
                            && *final(k) == *connection && #[trigger] call_ensures(
                            T::on_wl_touch_motion,
                            (s, e, k),
                            (),
                        );
                    assert(ev.spec_handed(s, k));
                }
            },
            Event::WlTouchFrame(event) => {
                let ghost e = event;
                state.on_wl_touch_frame(event, connection);
                proof {
                    let (s, k) = choose|s: &mut T, k: &mut Session|
                        *s == *old(state) && *final(s) == *state && *k == *old(connection)
                            && *final(k) == *connection && #[trigger] call_ensures(
                            T::on_wl_touch_frame,
                            (s, e, k),
                            (),
                        );
                    assert(ev.spec_handed(s, k));
                }
            },
            Event::WlTouchCancel(event) => {
                let ghost e = event;
                state.on_wl_touch_cancel(event, connection);
                proof {
                    let (s, k) = choose|s: &mut T, k: &mut Session|
                        *s == *old(state) && *final(s) == *state && *k == *old(connection)
                            && *final(k) == *connection && #[trigger] call_ensures(
                            T::on_wl_touch_cancel,
                            (s, e, k),
                            (),
                        );
                    assert(ev.spec_handed(s, k));
                }
            },
            Event::WlTouchShape(event) => {
                let ghost e = event;
                state.on_wl_touch_shape(event, connection);
                proof {
                    let (s, k) = choose|s: &mut T, k: &mut Session|
                        *s == *old(state) && *final(s) == *state && *k == *old(connection)
                            && *final(k) == *connection && #[trigger] call_ensures(
                            T::on_wl_touch_shape,
                            (s, e, k),
                            (),
                        );
                    assert(ev.spec_handed(s, k));
                }
            },
            Event::WlTouchOrientation(event) => {
                let ghost e = event;
                state.on_wl_touch_orientation(event, connection);
                proof {
                    let (s, k) = choose|s: &mut T, k: &mut Session|
                        *s == *old(state) && *final(s) == *state && *k == *old(connection)
                            && *final(k) == *connection && #[trigger] call_ensures(
                            T::on_wl_touch_orientation,
                            (s, e, k),
                            (),
                        );
                    assert(ev.spec_handed(s, k));
                }
            },
            Event::WlOutputGeometry(event) => {
                let ghost e = event;
                state.on_wl_output_geometry(event, connection);
                proof {
                    let (s, k) = choose|s: &mut T, k: &mut Session|
                        *s == *old(state) && *final(s) == *state && *k == *old(connection)
                            && *final(k) == *connection && #[trigger] call_ensures(
                            T::on_wl_output_geometry,
                            (s, e, k),
                            (),
                        );
                    assert(ev.spec_handed(s, k));
                }
            },
            Event::WlOutputMode(event) => {
                let ghost e = event;
                state.on_wl_output_mode(event, connection);
                proof {
                    let (s, k) = choose|s: &mut T, k: &mut Session|
                        *s == *old(state) && *final(s) == *state && *k == *old(connection)
                            && *final(k) == *connection && #[trigger] call_ensures(
                            T::on_wl_output_mode,
                            (s, e, k),
                            (),
                        );
                    assert(ev.spec_handed(s, k));
                }
            },
            Event::WlOutputDone(event) => {
                let ghost e = event;
                state.on_wl_output_done(event, connection);
                proof {
                    let (s, k) = choose|s: &mut T, k: &mut Session|
                        *s == *old(state) && *final(s) == *state && *k == *old(connection)
                            && *final(k) == *connection && #[trigger] call_ensures(
                            T::on_wl_output_done,
                            (s, e, k),
                            (),
                        );
                    assert(ev.spec_handed(s, k));
                }
            },
            Event::WlOutputScale(event) => {
                let ghost e = event;
                state.on_wl_output_scale(event, connection);
                proof {
                    let (s, k) = choose|s: &mut T, k: &mut Session|
                        *s == *old(state) && *final(s) == *state && *k == *old(connection)
                            && *final(k) == *connection && #[trigger] call_ensures(
                            T::on_wl_output_scale,
                            (s, e, k),
                            (),
                        );
                    assert(ev.spec_handed(s, k));
                }
            },
            Event::WlOutputName(event) => {
                let ghost e = event;
                state.on_wl_output_name(event, connection);
                proof {
                    let (s, k) = choose|s: &mut T, k: &mut Session|
                        *s == *old(state) && *final(s) == *state && *k == *old(connection)
                            && *final(k) == *connection && #[trigger] call_ensures(
                            T::on_wl_output_name,
                            (s, e, k),
                            (),
                        );
                    assert(ev.spec_handed(s, k));
                }
            },
            Event::WlOutputDescription(event) => {
                let ghost e = event;
                state.on_wl_output_description(event, connection);
                proof {
                    let (s, k) = choose|s: &mut T, k: &mut Session|
                        *s == *old(state) && *final(s) == *state && *k == *old(connection)
                            && *final(k) == *connection && #[trigger] call_ensures(
                            T::on_wl_output_description,
                            (s, e, k),
                            (),
                        );
                    assert(ev.spec_handed(s, k));
                }
            },
        }
    }
}

} // verus!
