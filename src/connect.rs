//! The registration interfaces: one trait for each object category, with one
//! method for each signal that the category declares. Each method connects a
//! callback through a `SignalHub` and returns the subscription's identifier, or
//! `0` when the object does not have the signal.
use vstd::prelude::*;

use crate::hub::{callable, SignalHub};
use crate::signal::{HostValue, ObjectRef, Signal};

verus! {

/// A value that stands for a native object.
pub trait SignalObject {
    /// The object this value stands for.
    spec fn handle(&self) -> ObjectRef;
}

impl SignalObject for ObjectRef {
    open spec fn handle(&self) -> ObjectRef {
        *self
    }
}

/// The signals of every widget.
pub trait WidgetSignals: SignalObject {
    /// Connects `f` to the "notify" signal.
    fn connect_notify<F: Fn(ObjectRef, Vec<HostValue>) -> HostValue>(&self, hub: &mut SignalHub<F>, f: F) -> (id: u64)
        requires
            old(hub).wf(),
            callable(f),
        ensures
            final(hub).wf(),
            SignalHub::connected(*old(hub), *final(hub), self.handle(), Signal::WidgetNotify, f, id),
    ;

    /// Connects `f` to the "accel-closures-changed" signal.
    fn connect_accel_closures_changed<F: Fn(ObjectRef, Vec<HostValue>) -> HostValue>(&self, hub: &mut SignalHub<F>, f: F) -> (id: u64)
        requires
            old(hub).wf(),
            callable(f),
        ensures
            final(hub).wf(),
            SignalHub::connected(*old(hub), *final(hub), self.handle(), Signal::WidgetAccelClosuresChanged, f, id),
    ;

    /// Connects `f` to the "button-press-event" signal.
    fn connect_button_press_event<F: Fn(ObjectRef, Vec<HostValue>) -> HostValue>(&self, hub: &mut SignalHub<F>, f: F) -> (id: u64)
        requires
            old(hub).wf(),
            callable(f),
        ensures
            final(hub).wf(),
            SignalHub::connected(*old(hub), *final(hub), self.handle(), Signal::WidgetButtonPressEvent, f, id),
    ;

    /// Connects `f` to the "button-release-event" signal.
    fn connect_button_release_event<F: Fn(ObjectRef, Vec<HostValue>) -> HostValue>(&self, hub: &mut SignalHub<F>, f: F) -> (id: u64)
        requires
            old(hub).wf(),
            callable(f),
        ensures
            final(hub).wf(),
            SignalHub::connected(*old(hub), *final(hub), self.handle(), Signal::WidgetButtonReleaseEvent, f, id),
    ;

    /// Connects `f` to the "can-activate-accel" signal.
    fn connect_can_activate_accel<F: Fn(ObjectRef, Vec<HostValue>) -> HostValue>(&self, hub: &mut SignalHub<F>, f: F) -> (id: u64)
        requires
            old(hub).wf(),
            callable(f),
        ensures
            final(hub).wf(),
            SignalHub::connected(*old(hub), *final(hub), self.handle(), Signal::WidgetCanActivateAccel, f, id),
    ;

    /// Connects `f` to the "child-notify" signal.
    fn connect_child_notify<F: Fn(ObjectRef, Vec<HostValue>) -> HostValue>(&self, hub: &mut SignalHub<F>, f: F) -> (id: u64)
        requires
            old(hub).wf(),
            callable(f),
        ensures
            final(hub).wf(),
            SignalHub::connected(*old(hub), *final(hub), self.handle(), Signal::WidgetChildNotify, f, id),
    ;

    /// Connects `f` to the "composited-changed" signal.
    fn connect_composited_changed<F: Fn(ObjectRef, Vec<HostValue>) -> HostValue>(&self, hub: &mut SignalHub<F>, f: F) -> (id: u64)
        requires
            old(hub).wf(),
            callable(f),
        ensures
            final(hub).wf(),
            SignalHub::connected(*old(hub), *final(hub), self.handle(), Signal::WidgetCompositedChanged, f, id),
    ;

    /// Connects `f` to the "configure-event" signal.
    fn connect_configure_event<F: Fn(ObjectRef, Vec<HostValue>) -> HostValue>(&self, hub: &mut SignalHub<F>, f: F) -> (id: u64)
        requires
            old(hub).wf(),
            callable(f),
        ensures
            final(hub).wf(),
            SignalHub::connected(*old(hub), *final(hub), self.handle(), Signal::WidgetConfigureEvent, f, id),
    ;

    /// Connects `f` to the "damage-event" signal.
    fn connect_damage_event<F: Fn(ObjectRef, Vec<HostValue>) -> HostValue>(&self, hub: &mut SignalHub<F>, f: F) -> (id: u64)
        requires
            old(hub).wf(),
            callable(f),
        ensures
            final(hub).wf(),
            SignalHub::connected(*old(hub), *final(hub), self.handle(), Signal::WidgetDamageEvent, f, id),
    ;

    /// Connects `f` to the "delete-event" signal.
    fn connect_delete_event<F: Fn(ObjectRef, Vec<HostValue>) -> HostValue>(&self, hub: &mut SignalHub<F>, f: F) -> (id: u64)
        requires
            old(hub).wf(),
            callable(f),
        ensures
            final(hub).wf(),
            SignalHub::connected(*old(hub), *final(hub), self.handle(), Signal::WidgetDeleteEvent, f, id),
    ;

    /// Connects `f` to the "destroy" signal.
    fn connect_destroy<F: Fn(ObjectRef, Vec<HostValue>) -> HostValue>(&self, hub: &mut SignalHub<F>, f: F) -> (id: u64)
        requires
            old(hub).wf(),
            callable(f),
        ensures
            final(hub).wf(),
            SignalHub::connected(*old(hub), *final(hub), self.handle(), Signal::WidgetDestroy, f, id),
    ;

    /// Connects `f` to the "destroy-event" signal.
    fn connect_destroy_event<F: Fn(ObjectRef, Vec<HostValue>) -> HostValue>(&self, hub: &mut SignalHub<F>, f: F) -> (id: u64)
        requires
            old(hub).wf(),
            callable(f),
        ensures
            final(hub).wf(),
            SignalHub::connected(*old(hub), *final(hub), self.handle(), Signal::WidgetDestroyEvent, f, id),
    ;

    /// Connects `f` to the "direction-changed" signal.
    fn connect_direction_changed<F: Fn(ObjectRef, Vec<HostValue>) -> HostValue>(&self, hub: &mut SignalHub<F>, f: F) -> (id: u64)
        requires
            old(hub).wf(),
            callable(f),
        ensures
            final(hub).wf(),
            SignalHub::connected(*old(hub), *final(hub), self.handle(), Signal::WidgetDirectionChanged, f, id),
    ;

    /// Connects `f` to the "draw" signal.
    fn connect_draw<F: Fn(ObjectRef, Vec<HostValue>) -> HostValue>(&self, hub: &mut SignalHub<F>, f: F) -> (id: u64)
        requires
            old(hub).wf(),
            callable(f),
        ensures
            final(hub).wf(),
            SignalHub::connected(*old(hub), *final(hub), self.handle(), Signal::WidgetDraw, f, id),
    ;

    /// Connects `f` to the "enter-notify-event" signal.
    fn connect_enter_notify_event<F: Fn(ObjectRef, Vec<HostValue>) -> HostValue>(&self, hub: &mut SignalHub<F>, f: F) -> (id: u64)
        requires
            old(hub).wf(),
            callable(f),
        ensures
            final(hub).wf(),
            SignalHub::connected(*old(hub), *final(hub), self.handle(), Signal::WidgetEnterNotifyEvent, f, id),
    ;

    /// Connects `f` to the "event" signal.
    fn connect_event<F: Fn(ObjectRef, Vec<HostValue>) -> HostValue>(&self, hub: &mut SignalHub<F>, f: F) -> (id: u64)
        requires
            old(hub).wf(),
            callable(f),
        ensures
            final(hub).wf(),
            SignalHub::connected(*old(hub), *final(hub), self.handle(), Signal::WidgetEvent, f, id),
    ;

    /// Connects `f` to the "event-after" signal.
    fn connect_event_after<F: Fn(ObjectRef, Vec<HostValue>) -> HostValue>(&self, hub: &mut SignalHub<F>, f: F) -> (id: u64)
        requires
            old(hub).wf(),
            callable(f),
        ensures
            final(hub).wf(),
            SignalHub::connected(*old(hub), *final(hub), self.handle(), Signal::WidgetEventAfter, f, id),
    ;

    /// Connects `f` to the "focus" signal.
    fn connect_focus<F: Fn(ObjectRef, Vec<HostValue>) -> HostValue>(&self, hub: &mut SignalHub<F>, f: F) -> (id: u64)
        requires
            old(hub).wf(),
            callable(f),
        ensures
            final(hub).wf(),
            SignalHub::connected(*old(hub), *final(hub), self.handle(), Signal::WidgetFocus, f, id),
    ;

    /// Connects `f` to the "focus-in-event" signal.
    fn connect_focus_in_event<F: Fn(ObjectRef, Vec<HostValue>) -> HostValue>(&self, hub: &mut SignalHub<F>, f: F) -> (id: u64)
        requires
            old(hub).wf(),
            callable(f),
        ensures
            final(hub).wf(),
            SignalHub::connected(*old(hub), *final(hub), self.handle(), Signal::WidgetFocusInEvent, f, id),
    ;

    /// Connects `f` to the "focus-out-event" signal.
    fn connect_focus_out_event<F: Fn(ObjectRef, Vec<HostValue>) -> HostValue>(&self, hub: &mut SignalHub<F>, f: F) -> (id: u64)
        requires
            old(hub).wf(),
            callable(f),
        ensures
            final(hub).wf(),
            SignalHub::connected(*old(hub), *final(hub), self.handle(), Signal::WidgetFocusOutEvent, f, id),
    ;

    /// Connects `f` to the "grab-broken-event" signal.
    fn connect_grab_broken_event<F: Fn(ObjectRef, Vec<HostValue>) -> HostValue>(&self, hub: &mut SignalHub<F>, f: F) -> (id: u64)
        requires
            old(hub).wf(),
            callable(f),
        ensures
            final(hub).wf(),
            SignalHub::connected(*old(hub), *final(hub), self.handle(), Signal::WidgetGrabBrokenEvent, f, id),
    ;

    /// Connects `f` to the "grab-focus" signal.
    fn connect_grab_focus<F: Fn(ObjectRef, Vec<HostValue>) -> HostValue>(&self, hub: &mut SignalHub<F>, f: F) -> (id: u64)
        requires
            old(hub).wf(),
            callable(f),
        ensures
            final(hub).wf(),
            SignalHub::connected(*old(hub), *final(hub), self.handle(), Signal::WidgetGrabFocus, f, id),
    ;

    /// Connects `f` to the "grab-notify" signal.
    fn connect_grab_notify<F: Fn(ObjectRef, Vec<HostValue>) -> HostValue>(&self, hub: &mut SignalHub<F>, f: F) -> (id: u64)
        requires
            old(hub).wf(),
            callable(f),
        ensures
            final(hub).wf(),
            SignalHub::connected(*old(hub), *final(hub), self.handle(), Signal::WidgetGrabNotify, f, id),
    ;

    /// Connects `f` to the "hide" signal.
    fn connect_hide<F: Fn(ObjectRef, Vec<HostValue>) -> HostValue>(&self, hub: &mut SignalHub<F>, f: F) -> (id: u64)
        requires
            old(hub).wf(),
            callable(f),
        ensures
            final(hub).wf(),
            SignalHub::connected(*old(hub), *final(hub), self.handle(), Signal::WidgetHide, f, id),
    ;

    /// Connects `f` to the "key-press-event" signal.
    fn connect_key_press_event<F: Fn(ObjectRef, Vec<HostValue>) -> HostValue>(&self, hub: &mut SignalHub<F>, f: F) -> (id: u64)
        requires
            old(hub).wf(),
            callable(f),
        ensures
            final(hub).wf(),
            SignalHub::connected(*old(hub), *final(hub), self.handle(), Signal::WidgetKeyPressEvent, f, id),
    ;

    /// Connects `f` to the "key-release-event" signal.
    fn connect_key_release_event<F: Fn(ObjectRef, Vec<HostValue>) -> HostValue>(&self, hub: &mut SignalHub<F>, f: F) -> (id: u64)
        requires
            old(hub).wf(),
            callable(f),
        ensures
            final(hub).wf(),
            SignalHub::connected(*old(hub), *final(hub), self.handle(), Signal::WidgetKeyReleaseEvent, f, id),
    ;

    /// Connects `f` to the "keynav-failed" signal.
    fn connect_keynav_failed<F: Fn(ObjectRef, Vec<HostValue>) -> HostValue>(&self, hub: &mut SignalHub<F>, f: F) -> (id: u64)
        requires
            old(hub).wf(),
            callable(f),
        ensures
            final(hub).wf(),
            SignalHub::connected(*old(hub), *final(hub), self.handle(), Signal::WidgetKeynavFailed, f, id),
    ;

    /// Connects `f` to the "map" signal.
    fn connect_map<F: Fn(ObjectRef, Vec<HostValue>) -> HostValue>(&self, hub: &mut SignalHub<F>, f: F) -> (id: u64)
        requires
            old(hub).wf(),
            callable(f),
        ensures
            final(hub).wf(),
            SignalHub::connected(*old(hub), *final(hub), self.handle(), Signal::WidgetMap, f, id),
    ;

    /// Connects `f` to the "map-event" signal.
    fn connect_map_event<F: Fn(ObjectRef, Vec<HostValue>) -> HostValue>(&self, hub: &mut SignalHub<F>, f: F) -> (id: u64)
        requires
            old(hub).wf(),
            callable(f),
        ensures
            final(hub).wf(),
            SignalHub::connected(*old(hub), *final(hub), self.handle(), Signal::WidgetMapEvent, f, id),
    ;

    /// Connects `f` to the "mnemonic-activate" signal.
    fn connect_mnemonic_activate<F: Fn(ObjectRef, Vec<HostValue>) -> HostValue>(&self, hub: &mut SignalHub<F>, f: F) -> (id: u64)
        requires
            old(hub).wf(),
            callable(f),
        ensures
            final(hub).wf(),
            SignalHub::connected(*old(hub), *final(hub), self.handle(), Signal::WidgetMnemonicActivate, f, id),
    ;

    /// Connects `f` to the "motion-notify-event" signal.
    fn connect_motion_notify_event<F: Fn(ObjectRef, Vec<HostValue>) -> HostValue>(&self, hub: &mut SignalHub<F>, f: F) -> (id: u64)
        requires
            old(hub).wf(),
            callable(f),
        ensures
            final(hub).wf(),
            SignalHub::connected(*old(hub), *final(hub), self.handle(), Signal::WidgetMotionNotifyEvent, f, id),
    ;

    /// Connects `f` to the "move-focus" signal.
    fn connect_move_focus<F: Fn(ObjectRef, Vec<HostValue>) -> HostValue>(&self, hub: &mut SignalHub<F>, f: F) -> (id: u64)
        requires
            old(hub).wf(),
            callable(f),
        ensures
            final(hub).wf(),
            SignalHub::connected(*old(hub), *final(hub), self.handle(), Signal::WidgetMoveFocus, f, id),
    ;

    /// Connects `f` to the "popup-menu" signal.
    fn connect_popup_menu<F: Fn(ObjectRef, Vec<HostValue>) -> HostValue>(&self, hub: &mut SignalHub<F>, f: F) -> (id: u64)
        requires
            old(hub).wf(),
            callable(f),
        ensures
            final(hub).wf(),
            SignalHub::connected(*old(hub), *final(hub), self.handle(), Signal::WidgetPopupMenu, f, id),
    ;

    /// Connects `f` to the "property-notify-event" signal.
    fn connect_property_notify_event<F: Fn(ObjectRef, Vec<HostValue>) -> HostValue>(&self, hub: &mut SignalHub<F>, f: F) -> (id: u64)
        requires
            old(hub).wf(),
            callable(f),
        ensures
            final(hub).wf(),
            SignalHub::connected(*old(hub), *final(hub), self.handle(), Signal::WidgetPropertyNotifyEvent, f, id),
    ;

    /// Connects `f` to the "proximity-in-event" signal.
    fn connect_proximity_in_event<F: Fn(ObjectRef, Vec<HostValue>) -> HostValue>(&self, hub: &mut SignalHub<F>, f: F) -> (id: u64)
        requires
            old(hub).wf(),
            callable(f),
        ensures
            final(hub).wf(),
            SignalHub::connected(*old(hub), *final(hub), self.handle(), Signal::WidgetProximityInEvent, f, id),
    ;

    /// Connects `f` to the "proximity-out-event" signal.
    fn connect_proximity_out_event<F: Fn(ObjectRef, Vec<HostValue>) -> HostValue>(&self, hub: &mut SignalHub<F>, f: F) -> (id: u64)
        requires
            old(hub).wf(),
            callable(f),
        ensures
            final(hub).wf(),
            SignalHub::connected(*old(hub), *final(hub), self.handle(), Signal::WidgetProximityOutEvent, f, id),
    ;

    /// Connects `f` to the "query-tooltip" signal.
    fn connect_query_tooltip<F: Fn(ObjectRef, Vec<HostValue>) -> HostValue>(&self, hub: &mut SignalHub<F>, f: F) -> (id: u64)
        requires
            old(hub).wf(),
            callable(f),
        ensures
            final(hub).wf(),
            SignalHub::connected(*old(hub), *final(hub), self.handle(), Signal::WidgetQueryTooltip, f, id),
    ;

    /// Connects `f` to the "realize" signal.
    fn connect_realize<F: Fn(ObjectRef, Vec<HostValue>) -> HostValue>(&self, hub: &mut SignalHub<F>, f: F) -> (id: u64)
        requires
            old(hub).wf(),
            callable(f),
        ensures
            final(hub).wf(),
            SignalHub::connected(*old(hub), *final(hub), self.handle(), Signal::WidgetRealize, f, id),
    ;

    /// Connects `f` to the "screen-changed" signal.
    fn connect_screen_changed<F: Fn(ObjectRef, Vec<HostValue>) -> HostValue>(&self, hub: &mut SignalHub<F>, f: F) -> (id: u64)
        requires
            old(hub).wf(),
            callable(f),
        ensures
            final(hub).wf(),
            SignalHub::connected(*old(hub), *final(hub), self.handle(), Signal::WidgetScreenChanged, f, id),
    ;

    /// Connects `f` to the "scroll-event" signal.
    fn connect_scroll_event<F: Fn(ObjectRef, Vec<HostValue>) -> HostValue>(&self, hub: &mut SignalHub<F>, f: F) -> (id: u64)
        requires
            old(hub).wf(),
            callable(f),
        ensures
            final(hub).wf(),
            SignalHub::connected(*old(hub), *final(hub), self.handle(), Signal::WidgetScrollEvent, f, id),
    ;

    /// Connects `f` to the "show" signal.
    fn connect_show<F: Fn(ObjectRef, Vec<HostValue>) -> HostValue>(&self, hub: &mut SignalHub<F>, f: F) -> (id: u64)
        requires
            old(hub).wf(),
            callable(f),
        ensures
            final(hub).wf(),
            SignalHub::connected(*old(hub), *final(hub), self.handle(), Signal::WidgetShow, f, id),
    ;

    /// Connects `f` to the "show-help" signal.
    fn connect_show_help<F: Fn(ObjectRef, Vec<HostValue>) -> HostValue>(&self, hub: &mut SignalHub<F>, f: F) -> (id: u64)
        requires
            old(hub).wf(),
            callable(f),
        ensures
            final(hub).wf(),
            SignalHub::connected(*old(hub), *final(hub), self.handle(), Signal::WidgetShowHelp, f, id),
    ;

    /// Connects `f` to the "size-allocate" signal.
    fn connect_size_allocate<F: Fn(ObjectRef, Vec<HostValue>) -> HostValue>(&self, hub: &mut SignalHub<F>, f: F) -> (id: u64)
        requires
            old(hub).wf(),
            callable(f),
        ensures
            final(hub).wf(),
            SignalHub::connected(*old(hub), *final(hub), self.handle(), Signal::WidgetSizeAllocate, f, id),
    ;

    /// Connects `f` to the "state-flags-changed" signal.
    fn connect_state_flags_changed<F: Fn(ObjectRef, Vec<HostValue>) -> HostValue>(&self, hub: &mut SignalHub<F>, f: F) -> (id: u64)
        requires
            old(hub).wf(),
            callable(f),
        ensures
            final(hub).wf(),
            SignalHub::connected(*old(hub), *final(hub), self.handle(), Signal::WidgetStateFlagsChanged, f, id),
    ;

    /// Connects `f` to the "style-updated" signal.
    fn connect_style_updated<F: Fn(ObjectRef, Vec<HostValue>) -> HostValue>(&self, hub: &mut SignalHub<F>, f: F) -> (id: u64)
        requires
            old(hub).wf(),
            callable(f),
        ensures
            final(hub).wf(),
            SignalHub::connected(*old(hub), *final(hub), self.handle(), Signal::WidgetStyleUpdated, f, id),
    ;

    /// Connects `f` to the "touch-event" signal.
    fn connect_touch_event<F: Fn(ObjectRef, Vec<HostValue>) -> HostValue>(&self, hub: &mut SignalHub<F>, f: F) -> (id: u64)
        requires
            old(hub).wf(),
            callable(f),
        ensures
            final(hub).wf(),
            SignalHub::connected(*old(hub), *final(hub), self.handle(), Signal::WidgetTouchEvent, f, id),
    ;

    /// Connects `f` to the "unmap" signal.
    fn connect_unmap<F: Fn(ObjectRef, Vec<HostValue>) -> HostValue>(&self, hub: &mut SignalHub<F>, f: F) -> (id: u64)
        requires
            old(hub).wf(),
            callable(f),
        ensures
            final(hub).wf(),
            SignalHub::connected(*old(hub), *final(hub), self.handle(), Signal::WidgetUnmap, f, id),
    ;

    /// Connects `f` to the "unmap-event" signal.
    fn connect_unmap_event<F: Fn(ObjectRef, Vec<HostValue>) -> HostValue>(&self, hub: &mut SignalHub<F>, f: F) -> (id: u64)
        requires
            old(hub).wf(),
            callable(f),
        ensures
            final(hub).wf(),
            SignalHub::connected(*old(hub), *final(hub), self.handle(), Signal::WidgetUnmapEvent, f, id),
    ;

    /// Connects `f` to the "unrealize" signal.
    fn connect_unrealize<F: Fn(ObjectRef, Vec<HostValue>) -> HostValue>(&self, hub: &mut SignalHub<F>, f: F) -> (id: u64)
        requires
            old(hub).wf(),
            callable(f),
        ensures
            final(hub).wf(),
            SignalHub::connected(*old(hub), *final(hub), self.handle(), Signal::WidgetUnrealize, f, id),
    ;

    /// Connects `f` to the "window-state-event" signal.
    fn connect_window_state_event<F: Fn(ObjectRef, Vec<HostValue>) -> HostValue>(&self, hub: &mut SignalHub<F>, f: F) -> (id: u64)
        requires
            old(hub).wf(),
            callable(f),
        ensures
            final(hub).wf(),
            SignalHub::connected(*old(hub), *final(hub), self.handle(), Signal::WidgetWindowStateEvent, f, id),
    ;
}

impl WidgetSignals for ObjectRef {
    fn connect_notify<F: Fn(ObjectRef, Vec<HostValue>) -> HostValue>(&self, hub: &mut SignalHub<F>, f: F) -> (id: u64) {
        hub.connect(*self, Signal::WidgetNotify, f)
    }

    fn connect_accel_closures_changed<F: Fn(ObjectRef, Vec<HostValue>) -> HostValue>(&self, hub: &mut SignalHub<F>, f: F) -> (id: u64) {
        hub.connect(*self, Signal::WidgetAccelClosuresChanged, f)
    }

    fn connect_button_press_event<F: Fn(ObjectRef, Vec<HostValue>) -> HostValue>(&self, hub: &mut SignalHub<F>, f: F) -> (id: u64) {
        hub.connect(*self, Signal::WidgetButtonPressEvent, f)
    }

    fn connect_button_release_event<F: Fn(ObjectRef, Vec<HostValue>) -> HostValue>(&self, hub: &mut SignalHub<F>, f: F) -> (id: u64) {
        hub.connect(*self, Signal::WidgetButtonReleaseEvent, f)
    }

    fn connect_can_activate_accel<F: Fn(ObjectRef, Vec<HostValue>) -> HostValue>(&self, hub: &mut SignalHub<F>, f: F) -> (id: u64) {
        hub.connect(*self, Signal::WidgetCanActivateAccel, f)
    }

    fn connect_child_notify<F: Fn(ObjectRef, Vec<HostValue>) -> HostValue>(&self, hub: &mut SignalHub<F>, f: F) -> (id: u64) {
        hub.connect(*self, Signal::WidgetChildNotify, f)
    }

    fn connect_composited_changed<F: Fn(ObjectRef, Vec<HostValue>) -> HostValue>(&self, hub: &mut SignalHub<F>, f: F) -> (id: u64) {
        hub.connect(*self, Signal::WidgetCompositedChanged, f)
    }

    fn connect_configure_event<F: Fn(ObjectRef, Vec<HostValue>) -> HostValue>(&self, hub: &mut SignalHub<F>, f: F) -> (id: u64) {
        hub.connect(*self, Signal::WidgetConfigureEvent, f)
    }

    fn connect_damage_event<F: Fn(ObjectRef, Vec<HostValue>) -> HostValue>(&self, hub: &mut SignalHub<F>, f: F) -> (id: u64) {
        hub.connect(*self, Signal::WidgetDamageEvent, f)
    }

    fn connect_delete_event<F: Fn(ObjectRef, Vec<HostValue>) -> HostValue>(&self, hub: &mut SignalHub<F>, f: F) -> (id: u64) {
        hub.connect(*self, Signal::WidgetDeleteEvent, f)
    }

    fn connect_destroy<F: Fn(ObjectRef, Vec<HostValue>) -> HostValue>(&self, hub: &mut SignalHub<F>, f: F) -> (id: u64) {
        hub.connect(*self, Signal::WidgetDestroy, f)
    }

    fn connect_destroy_event<F: Fn(ObjectRef, Vec<HostValue>) -> HostValue>(&self, hub: &mut SignalHub<F>, f: F) -> (id: u64) {
        hub.connect(*self, Signal::WidgetDestroyEvent, f)
    }

    fn connect_direction_changed<F: Fn(ObjectRef, Vec<HostValue>) -> HostValue>(&self, hub: &mut SignalHub<F>, f: F) -> (id: u64) {
        hub.connect(*self, Signal::WidgetDirectionChanged, f)
    }

    fn connect_draw<F: Fn(ObjectRef, Vec<HostValue>) -> HostValue>(&self, hub: &mut SignalHub<F>, f: F) -> (id: u64) {
        hub.connect(*self, Signal::WidgetDraw, f)
    }

    fn connect_enter_notify_event<F: Fn(ObjectRef, Vec<HostValue>) -> HostValue>(&self, hub: &mut SignalHub<F>, f: F) -> (id: u64) {
        hub.connect(*self, Signal::WidgetEnterNotifyEvent, f)
    }

    fn connect_event<F: Fn(ObjectRef, Vec<HostValue>) -> HostValue>(&self, hub: &mut SignalHub<F>, f: F) -> (id: u64) {
        hub.connect(*self, Signal::WidgetEvent, f)
    }

    fn connect_event_after<F: Fn(ObjectRef, Vec<HostValue>) -> HostValue>(&self, hub: &mut SignalHub<F>, f: F) -> (id: u64) {
        hub.connect(*self, Signal::WidgetEventAfter, f)
    }

    fn connect_focus<F: Fn(ObjectRef, Vec<HostValue>) -> HostValue>(&self, hub: &mut SignalHub<F>, f: F) -> (id: u64) {
        hub.connect(*self, Signal::WidgetFocus, f)
    }

    fn connect_focus_in_event<F: Fn(ObjectRef, Vec<HostValue>) -> HostValue>(&self, hub: &mut SignalHub<F>, f: F) -> (id: u64) {
        hub.connect(*self, Signal::WidgetFocusInEvent, f)
    }

    fn connect_focus_out_event<F: Fn(ObjectRef, Vec<HostValue>) -> HostValue>(&self, hub: &mut SignalHub<F>, f: F) -> (id: u64) {
        hub.connect(*self, Signal::WidgetFocusOutEvent, f)
    }

    fn connect_grab_broken_event<F: Fn(ObjectRef, Vec<HostValue>) -> HostValue>(&self, hub: &mut SignalHub<F>, f: F) -> (id: u64) {
        hub.connect(*self, Signal::WidgetGrabBrokenEvent, f)
    }

    fn connect_grab_focus<F: Fn(ObjectRef, Vec<HostValue>) -> HostValue>(&self, hub: &mut SignalHub<F>, f: F) -> (id: u64) {
        hub.connect(*self, Signal::WidgetGrabFocus, f)
    }

    fn connect_grab_notify<F: Fn(ObjectRef, Vec<HostValue>) -> HostValue>(&self, hub: &mut SignalHub<F>, f: F) -> (id: u64) {
        hub.connect(*self, Signal::WidgetGrabNotify, f)
    }

    fn connect_hide<F: Fn(ObjectRef, Vec<HostValue>) -> HostValue>(&self, hub: &mut SignalHub<F>, f: F) -> (id: u64) {
        hub.connect(*self, Signal::WidgetHide, f)
    }

    fn connect_key_press_event<F: Fn(ObjectRef, Vec<HostValue>) -> HostValue>(&self, hub: &mut SignalHub<F>, f: F) -> (id: u64) {
        hub.connect(*self, Signal::WidgetKeyPressEvent, f)
    }

    fn connect_key_release_event<F: Fn(ObjectRef, Vec<HostValue>) -> HostValue>(&self, hub: &mut SignalHub<F>, f: F) -> (id: u64) {
        hub.connect(*self, Signal::WidgetKeyReleaseEvent, f)
    }

    fn connect_keynav_failed<F: Fn(ObjectRef, Vec<HostValue>) -> HostValue>(&self, hub: &mut SignalHub<F>, f: F) -> (id: u64) {
        hub.connect(*self, Signal::WidgetKeynavFailed, f)
    }

    fn connect_map<F: Fn(ObjectRef, Vec<HostValue>) -> HostValue>(&self, hub: &mut SignalHub<F>, f: F) -> (id: u64) {
        hub.connect(*self, Signal::WidgetMap, f)
    }

    fn connect_map_event<F: Fn(ObjectRef, Vec<HostValue>) -> HostValue>(&self, hub: &mut SignalHub<F>, f: F) -> (id: u64) {
        hub.connect(*self, Signal::WidgetMapEvent, f)
    }

    fn connect_mnemonic_activate<F: Fn(ObjectRef, Vec<HostValue>) -> HostValue>(&self, hub: &mut SignalHub<F>, f: F) -> (id: u64) {
        hub.connect(*self, Signal::WidgetMnemonicActivate, f)
    }

    fn connect_motion_notify_event<F: Fn(ObjectRef, Vec<HostValue>) -> HostValue>(&self, hub: &mut SignalHub<F>, f: F) -> (id: u64) {
        hub.connect(*self, Signal::WidgetMotionNotifyEvent, f)
    }

    fn connect_move_focus<F: Fn(ObjectRef, Vec<HostValue>) -> HostValue>(&self, hub: &mut SignalHub<F>, f: F) -> (id: u64) {
        hub.connect(*self, Signal::WidgetMoveFocus, f)
    }

    fn connect_popup_menu<F: Fn(ObjectRef, Vec<HostValue>) -> HostValue>(&self, hub: &mut SignalHub<F>, f: F) -> (id: u64) {
        hub.connect(*self, Signal::WidgetPopupMenu, f)
    }

    fn connect_property_notify_event<F: Fn(ObjectRef, Vec<HostValue>) -> HostValue>(&self, hub: &mut SignalHub<F>, f: F) -> (id: u64) {
        hub.connect(*self, Signal::WidgetPropertyNotifyEvent, f)
    }

    fn connect_proximity_in_event<F: Fn(ObjectRef, Vec<HostValue>) -> HostValue>(&self, hub: &mut SignalHub<F>, f: F) -> (id: u64) {
        hub.connect(*self, Signal::WidgetProximityInEvent, f)
    }

    fn connect_proximity_out_event<F: Fn(ObjectRef, Vec<HostValue>) -> HostValue>(&self, hub: &mut SignalHub<F>, f: F) -> (id: u64) {
        hub.connect(*self, Signal::WidgetProximityOutEvent, f)
    }

    fn connect_query_tooltip<F: Fn(ObjectRef, Vec<HostValue>) -> HostValue>(&self, hub: &mut SignalHub<F>, f: F) -> (id: u64) {
        hub.connect(*self, Signal::WidgetQueryTooltip, f)
    }

    fn connect_realize<F: Fn(ObjectRef, Vec<HostValue>) -> HostValue>(&self, hub: &mut SignalHub<F>, f: F) -> (id: u64) {
        hub.connect(*self, Signal::WidgetRealize, f)
    }

    fn connect_screen_changed<F: Fn(ObjectRef, Vec<HostValue>) -> HostValue>(&self, hub: &mut SignalHub<F>, f: F) -> (id: u64) {
        hub.connect(*self, Signal::WidgetScreenChanged, f)
    }

    fn connect_scroll_event<F: Fn(ObjectRef, Vec<HostValue>) -> HostValue>(&self, hub: &mut SignalHub<F>, f: F) -> (id: u64) {
        hub.connect(*self, Signal::WidgetScrollEvent, f)
    }

    fn connect_show<F: Fn(ObjectRef, Vec<HostValue>) -> HostValue>(&self, hub: &mut SignalHub<F>, f: F) -> (id: u64) {
        hub.connect(*self, Signal::WidgetShow, f)
    }

    fn connect_show_help<F: Fn(ObjectRef, Vec<HostValue>) -> HostValue>(&self, hub: &mut SignalHub<F>, f: F) -> (id: u64) {
        hub.connect(*self, Signal::WidgetShowHelp, f)
    }

    fn connect_size_allocate<F: Fn(ObjectRef, Vec<HostValue>) -> HostValue>(&self, hub: &mut SignalHub<F>, f: F) -> (id: u64) {
        hub.connect(*self, Signal::WidgetSizeAllocate, f)
    }

    fn connect_state_flags_changed<F: Fn(ObjectRef, Vec<HostValue>) -> HostValue>(&self, hub: &mut SignalHub<F>, f: F) -> (id: u64) {
        hub.connect(*self, Signal::WidgetStateFlagsChanged, f)
    }

    fn connect_style_updated<F: Fn(ObjectRef, Vec<HostValue>) -> HostValue>(&self, hub: &mut SignalHub<F>, f: F) -> (id: u64) {
        hub.connect(*self, Signal::WidgetStyleUpdated, f)
    }

    fn connect_touch_event<F: Fn(ObjectRef, Vec<HostValue>) -> HostValue>(&self, hub: &mut SignalHub<F>, f: F) -> (id: u64) {
        hub.connect(*self, Signal::WidgetTouchEvent, f)
    }

    fn connect_unmap<F: Fn(ObjectRef, Vec<HostValue>) -> HostValue>(&self, hub: &mut SignalHub<F>, f: F) -> (id: u64) {
        hub.connect(*self, Signal::WidgetUnmap, f)
    }

    fn connect_unmap_event<F: Fn(ObjectRef, Vec<HostValue>) -> HostValue>(&self, hub: &mut SignalHub<F>, f: F) -> (id: u64) {
        hub.connect(*self, Signal::WidgetUnmapEvent, f)
    }

    fn connect_unrealize<F: Fn(ObjectRef, Vec<HostValue>) -> HostValue>(&self, hub: &mut SignalHub<F>, f: F) -> (id: u64) {
        hub.connect(*self, Signal::WidgetUnrealize, f)
    }

    fn connect_window_state_event<F: Fn(ObjectRef, Vec<HostValue>) -> HostValue>(&self, hub: &mut SignalHub<F>, f: F) -> (id: u64) {
        hub.connect(*self, Signal::WidgetWindowStateEvent, f)
    }
}

/// The signals of a text entry (a spin button has them too).
pub trait EntrySignals: SignalObject {
    /// Connects `f` to the "activate" signal.
    fn connect_activate<F: Fn(ObjectRef, Vec<HostValue>) -> HostValue>(&self, hub: &mut SignalHub<F>, f: F) -> (id: u64)
        requires
            old(hub).wf(),
            callable(f),
        ensures
            final(hub).wf(),
            SignalHub::connected(*old(hub), *final(hub), self.handle(), Signal::EntryActivate, f, id),
    ;

    /// Connects `f` to the "backspace" signal.
    fn connect_backspace<F: Fn(ObjectRef, Vec<HostValue>) -> HostValue>(&self, hub: &mut SignalHub<F>, f: F) -> (id: u64)
        requires
            old(hub).wf(),
            callable(f),
        ensures
            final(hub).wf(),
            SignalHub::connected(*old(hub), *final(hub), self.handle(), Signal::EntryBackspace, f, id),
    ;

    /// Connects `f` to the "copy-clipboard" signal.
    fn connect_copy_clipboard<F: Fn(ObjectRef, Vec<HostValue>) -> HostValue>(&self, hub: &mut SignalHub<F>, f: F) -> (id: u64)
        requires
            old(hub).wf(),
            callable(f),
        ensures
            final(hub).wf(),
            SignalHub::connected(*old(hub), *final(hub), self.handle(), Signal::EntryCopyClipboard, f, id),
    ;

    /// Connects `f` to the "cut-clipboard" signal.
    fn connect_cut_clipboard<F: Fn(ObjectRef, Vec<HostValue>) -> HostValue>(&self, hub: &mut SignalHub<F>, f: F) -> (id: u64)
        requires
            old(hub).wf(),
            callable(f),
        ensures
            final(hub).wf(),
            SignalHub::connected(*old(hub), *final(hub), self.handle(), Signal::EntryCutClipboard, f, id),
    ;

    /// Connects `f` to the "paste-clipboard" signal.
    fn connect_paste_clipboard<F: Fn(ObjectRef, Vec<HostValue>) -> HostValue>(&self, hub: &mut SignalHub<F>, f: F) -> (id: u64)
        requires
            old(hub).wf(),
            callable(f),
        ensures
            final(hub).wf(),
            SignalHub::connected(*old(hub), *final(hub), self.handle(), Signal::EntryPasteClipboard, f, id),
    ;

    /// Connects `f` to the "toggle-overwrite" signal.
    fn connect_toggle_overwrite<F: Fn(ObjectRef, Vec<HostValue>) -> HostValue>(&self, hub: &mut SignalHub<F>, f: F) -> (id: u64)
        requires
            old(hub).wf(),
            callable(f),
        ensures
            final(hub).wf(),
            SignalHub::connected(*old(hub), *final(hub), self.handle(), Signal::EntryToggleOverwrite, f, id),
    ;

    /// Connects `f` to the "delete-from-cursor" signal.
    fn connect_delete_from_cursor<F: Fn(ObjectRef, Vec<HostValue>) -> HostValue>(&self, hub: &mut SignalHub<F>, f: F) -> (id: u64)
        requires
            old(hub).wf(),
            callable(f),
        ensures
            final(hub).wf(),
            SignalHub::connected(*old(hub), *final(hub), self.handle(), Signal::EntryDeleteFromCursor, f, id),
    ;

    /// Connects `f` to the "move-cursor" signal.
    fn connect_move_cursor<F: Fn(ObjectRef, Vec<HostValue>) -> HostValue>(&self, hub: &mut SignalHub<F>, f: F) -> (id: u64)
        requires
            old(hub).wf(),
            callable(f),
        ensures
            final(hub).wf(),
            SignalHub::connected(*old(hub), *final(hub), self.handle(), Signal::EntryMoveCursor, f, id),
    ;

    /// Connects `f` to the "insert-at-cursor" signal.
    fn connect_insert_at_cursor<F: Fn(ObjectRef, Vec<HostValue>) -> HostValue>(&self, hub: &mut SignalHub<F>, f: F) -> (id: u64)
        requires
            old(hub).wf(),
            callable(f),
        ensures
            final(hub).wf(),
            SignalHub::connected(*old(hub), *final(hub), self.handle(), Signal::EntryInsertAtCursor, f, id),
    ;

    /// Connects `f` to the "preedit-changed" signal.
    fn connect_preedit_changed<F: Fn(ObjectRef, Vec<HostValue>) -> HostValue>(&self, hub: &mut SignalHub<F>, f: F) -> (id: u64)
        requires
            old(hub).wf(),
            callable(f),
        ensures
            final(hub).wf(),
            SignalHub::connected(*old(hub), *final(hub), self.handle(), Signal::EntryPreeditChanged, f, id),
    ;
}

impl EntrySignals for ObjectRef {
    fn connect_activate<F: Fn(ObjectRef, Vec<HostValue>) -> HostValue>(&self, hub: &mut SignalHub<F>, f: F) -> (id: u64) {
        hub.connect(*self, Signal::EntryActivate, f)
    }

    fn connect_backspace<F: Fn(ObjectRef, Vec<HostValue>) -> HostValue>(&self, hub: &mut SignalHub<F>, f: F) -> (id: u64) {
        hub.connect(*self, Signal::EntryBackspace, f)
    }

    fn connect_copy_clipboard<F: Fn(ObjectRef, Vec<HostValue>) -> HostValue>(&self, hub: &mut SignalHub<F>, f: F) -> (id: u64) {
        hub.connect(*self, Signal::EntryCopyClipboard, f)
    }

    fn connect_cut_clipboard<F: Fn(ObjectRef, Vec<HostValue>) -> HostValue>(&self, hub: &mut SignalHub<F>, f: F) -> (id: u64) {
        hub.connect(*self, Signal::EntryCutClipboard, f)
    }

    fn connect_paste_clipboard<F: Fn(ObjectRef, Vec<HostValue>) -> HostValue>(&self, hub: &mut SignalHub<F>, f: F) -> (id: u64) {
        hub.connect(*self, Signal::EntryPasteClipboard, f)
    }

    fn connect_toggle_overwrite<F: Fn(ObjectRef, Vec<HostValue>) -> HostValue>(&self, hub: &mut SignalHub<F>, f: F) -> (id: u64) {
        hub.connect(*self, Signal::EntryToggleOverwrite, f)
    }

    fn connect_delete_from_cursor<F: Fn(ObjectRef, Vec<HostValue>) -> HostValue>(&self, hub: &mut SignalHub<F>, f: F) -> (id: u64) {
        hub.connect(*self, Signal::EntryDeleteFromCursor, f)
    }

    fn connect_move_cursor<F: Fn(ObjectRef, Vec<HostValue>) -> HostValue>(&self, hub: &mut SignalHub<F>, f: F) -> (id: u64) {
        hub.connect(*self, Signal::EntryMoveCursor, f)
    }

    fn connect_insert_at_cursor<F: Fn(ObjectRef, Vec<HostValue>) -> HostValue>(&self, hub: &mut SignalHub<F>, f: F) -> (id: u64) {
        hub.connect(*self, Signal::EntryInsertAtCursor, f)
    }

    fn connect_preedit_changed<F: Fn(ObjectRef, Vec<HostValue>) -> HostValue>(&self, hub: &mut SignalHub<F>, f: F) -> (id: u64) {
        hub.connect(*self, Signal::EntryPreeditChanged, f)
    }
}

/// The signals of a button.
pub trait ButtonSignals: SignalObject {
    /// Connects `f` to the "activate" signal.
    fn connect_activate<F: Fn(ObjectRef, Vec<HostValue>) -> HostValue>(&self, hub: &mut SignalHub<F>, f: F) -> (id: u64)
        requires
            old(hub).wf(),
            callable(f),
        ensures
            final(hub).wf(),
            SignalHub::connected(*old(hub), *final(hub), self.handle(), Signal::ButtonActivate, f, id),
    ;

    /// Connects `f` to the "clicked" signal.
    fn connect_clicked<F: Fn(ObjectRef, Vec<HostValue>) -> HostValue>(&self, hub: &mut SignalHub<F>, f: F) -> (id: u64)
        requires
            old(hub).wf(),
            callable(f),
        ensures
            final(hub).wf(),
            SignalHub::connected(*old(hub), *final(hub), self.handle(), Signal::ButtonClicked, f, id),
    ;
}

impl ButtonSignals for ObjectRef {
    fn connect_activate<F: Fn(ObjectRef, Vec<HostValue>) -> HostValue>(&self, hub: &mut SignalHub<F>, f: F) -> (id: u64) {
        hub.connect(*self, Signal::ButtonActivate, f)
    }

    fn connect_clicked<F: Fn(ObjectRef, Vec<HostValue>) -> HostValue>(&self, hub: &mut SignalHub<F>, f: F) -> (id: u64) {
        hub.connect(*self, Signal::ButtonClicked, f)
    }
}

/// The signals of a combo box.
pub trait ComboBoxSignals: SignalObject {
    /// Connects `f` to the "changed" signal.
    fn connect_changed<F: Fn(ObjectRef, Vec<HostValue>) -> HostValue>(&self, hub: &mut SignalHub<F>, f: F) -> (id: u64)
        requires
            old(hub).wf(),
            callable(f),
        ensures
            final(hub).wf(),
            SignalHub::connected(*old(hub), *final(hub), self.handle(), Signal::ComboBoxChanged, f, id),
    ;

    /// Connects `f` to the "move-active" signal.
    fn connect_move_active<F: Fn(ObjectRef, Vec<HostValue>) -> HostValue>(&self, hub: &mut SignalHub<F>, f: F) -> (id: u64)
        requires
            old(hub).wf(),
            callable(f),
        ensures
            final(hub).wf(),
            SignalHub::connected(*old(hub), *final(hub), self.handle(), Signal::ComboBoxMoveActive, f, id),
    ;

    /// Connects `f` to the "popdown" signal.
    fn connect_popdown<F: Fn(ObjectRef, Vec<HostValue>) -> HostValue>(&self, hub: &mut SignalHub<F>, f: F) -> (id: u64)
        requires
            old(hub).wf(),
            callable(f),
        ensures
            final(hub).wf(),
            SignalHub::connected(*old(hub), *final(hub), self.handle(), Signal::ComboBoxPopdown, f, id),
    ;

    /// Connects `f` to the "popup" signal.
    fn connect_popup<F: Fn(ObjectRef, Vec<HostValue>) -> HostValue>(&self, hub: &mut SignalHub<F>, f: F) -> (id: u64)
        requires
            old(hub).wf(),
            callable(f),
        ensures
            final(hub).wf(),
            SignalHub::connected(*old(hub), *final(hub), self.handle(), Signal::ComboBoxPopup, f, id),
    ;
}

impl ComboBoxSignals for ObjectRef {
    fn connect_changed<F: Fn(ObjectRef, Vec<HostValue>) -> HostValue>(&self, hub: &mut SignalHub<F>, f: F) -> (id: u64) {
        hub.connect(*self, Signal::ComboBoxChanged, f)
    }

    fn connect_move_active<F: Fn(ObjectRef, Vec<HostValue>) -> HostValue>(&self, hub: &mut SignalHub<F>, f: F) -> (id: u64) {
        hub.connect(*self, Signal::ComboBoxMoveActive, f)
    }

    fn connect_popdown<F: Fn(ObjectRef, Vec<HostValue>) -> HostValue>(&self, hub: &mut SignalHub<F>, f: F) -> (id: u64) {
        hub.connect(*self, Signal::ComboBoxPopdown, f)
    }

    fn connect_popup<F: Fn(ObjectRef, Vec<HostValue>) -> HostValue>(&self, hub: &mut SignalHub<F>, f: F) -> (id: u64) {
        hub.connect(*self, Signal::ComboBoxPopup, f)
    }
}

/// The signals of a tool button.
pub trait ToolButtonSignals: SignalObject {
    /// Connects `f` to the "clicked" signal.
    fn connect_clicked<F: Fn(ObjectRef, Vec<HostValue>) -> HostValue>(&self, hub: &mut SignalHub<F>, f: F) -> (id: u64)
        requires
            old(hub).wf(),
            callable(f),
        ensures
            final(hub).wf(),
            SignalHub::connected(*old(hub), *final(hub), self.handle(), Signal::ToolButtonClicked, f, id),
    ;
}

impl ToolButtonSignals for ObjectRef {
    fn connect_clicked<F: Fn(ObjectRef, Vec<HostValue>) -> HostValue>(&self, hub: &mut SignalHub<F>, f: F) -> (id: u64) {
        hub.connect(*self, Signal::ToolButtonClicked, f)
    }
}

/// The signals of a spin button.
pub trait SpinButtonSignals: SignalObject {
    /// Connects `f` to the "value-changed" signal.
    fn connect_value_changed<F: Fn(ObjectRef, Vec<HostValue>) -> HostValue>(&self, hub: &mut SignalHub<F>, f: F) -> (id: u64)
        requires
            old(hub).wf(),
            callable(f),
        ensures
            final(hub).wf(),
            SignalHub::connected(*old(hub), *final(hub), self.handle(), Signal::SpinButtonValueChanged, f, id),
    ;

    /// Connects `f` to the "wrapped" signal.
    fn connect_wrapped<F: Fn(ObjectRef, Vec<HostValue>) -> HostValue>(&self, hub: &mut SignalHub<F>, f: F) -> (id: u64)
        requires
            old(hub).wf(),
            callable(f),
        ensures
            final(hub).wf(),
            SignalHub::connected(*old(hub), *final(hub), self.handle(), Signal::SpinButtonWrapped, f, id),
    ;
}

impl SpinButtonSignals for ObjectRef {
    fn connect_value_changed<F: Fn(ObjectRef, Vec<HostValue>) -> HostValue>(&self, hub: &mut SignalHub<F>, f: F) -> (id: u64) {
        hub.connect(*self, Signal::SpinButtonValueChanged, f)
    }

    fn connect_wrapped<F: Fn(ObjectRef, Vec<HostValue>) -> HostValue>(&self, hub: &mut SignalHub<F>, f: F) -> (id: u64) {
        hub.connect(*self, Signal::SpinButtonWrapped, f)
    }
}

/// The signals of a dialog.
pub trait DialogSignals: SignalObject {
    /// Connects `f` to the "close" signal.
    fn connect_close<F: Fn(ObjectRef, Vec<HostValue>) -> HostValue>(&self, hub: &mut SignalHub<F>, f: F) -> (id: u64)
        requires
            old(hub).wf(),
            callable(f),
        ensures
            final(hub).wf(),
            SignalHub::connected(*old(hub), *final(hub), self.handle(), Signal::DialogClose, f, id),
    ;

    /// Connects `f` to the "response" signal.
    fn connect_response<F: Fn(ObjectRef, Vec<HostValue>) -> HostValue>(&self, hub: &mut SignalHub<F>, f: F) -> (id: u64)
        requires
            old(hub).wf(),
            callable(f),
        ensures
            final(hub).wf(),
            SignalHub::connected(*old(hub), *final(hub), self.handle(), Signal::DialogResponse, f, id),
    ;
}

impl DialogSignals for ObjectRef {
    fn connect_close<F: Fn(ObjectRef, Vec<HostValue>) -> HostValue>(&self, hub: &mut SignalHub<F>, f: F) -> (id: u64) {
        hub.connect(*self, Signal::DialogClose, f)
    }

    fn connect_response<F: Fn(ObjectRef, Vec<HostValue>) -> HostValue>(&self, hub: &mut SignalHub<F>, f: F) -> (id: u64) {
        hub.connect(*self, Signal::DialogResponse, f)
    }
}

/// The signals of a tree view.
pub trait TreeViewSignals: SignalObject {
    /// Connects `f` to the "columns-changed" signal.
    fn connect_columns_changed<F: Fn(ObjectRef, Vec<HostValue>) -> HostValue>(&self, hub: &mut SignalHub<F>, f: F) -> (id: u64)
        requires
            old(hub).wf(),
            callable(f),
        ensures
            final(hub).wf(),
            SignalHub::connected(*old(hub), *final(hub), self.handle(), Signal::TreeViewColumnsChanged, f, id),
    ;

    /// Connects `f` to the "cursor-changed" signal.
    fn connect_cursor_changed<F: Fn(ObjectRef, Vec<HostValue>) -> HostValue>(&self, hub: &mut SignalHub<F>, f: F) -> (id: u64)
        requires
            old(hub).wf(),
            callable(f),
        ensures
            final(hub).wf(),
            SignalHub::connected(*old(hub), *final(hub), self.handle(), Signal::TreeViewCursorChanged, f, id),
    ;

    /// Connects `f` to the "expand-collapse-cursor-row" signal.
    fn connect_expand_collapse_cursor_row<F: Fn(ObjectRef, Vec<HostValue>) -> HostValue>(&self, hub: &mut SignalHub<F>, f: F) -> (id: u64)
        requires
            old(hub).wf(),
            callable(f),
        ensures
            final(hub).wf(),
            SignalHub::connected(*old(hub), *final(hub), self.handle(), Signal::TreeViewExpandCollapseCursorRow, f, id),
    ;

    /// Connects `f` to the "row-activated" signal.
    fn connect_row_activated<F: Fn(ObjectRef, Vec<HostValue>) -> HostValue>(&self, hub: &mut SignalHub<F>, f: F) -> (id: u64)
        requires
            old(hub).wf(),
            callable(f),
        ensures
            final(hub).wf(),
            SignalHub::connected(*old(hub), *final(hub), self.handle(), Signal::TreeViewRowActivated, f, id),
    ;

    /// Connects `f` to the "row-collapsed" signal.
    fn connect_row_collapsed<F: Fn(ObjectRef, Vec<HostValue>) -> HostValue>(&self, hub: &mut SignalHub<F>, f: F) -> (id: u64)
        requires
            old(hub).wf(),
            callable(f),
        ensures
            final(hub).wf(),
            SignalHub::connected(*old(hub), *final(hub), self.handle(), Signal::TreeViewRowCollapsed, f, id),
    ;

    /// Connects `f` to the "row-expanded" signal.
    fn connect_row_expanded<F: Fn(ObjectRef, Vec<HostValue>) -> HostValue>(&self, hub: &mut SignalHub<F>, f: F) -> (id: u64)
        requires
            old(hub).wf(),
            callable(f),
        ensures
            final(hub).wf(),
            SignalHub::connected(*old(hub), *final(hub), self.handle(), Signal::TreeViewRowExpanded, f, id),
    ;

    /// Connects `f` to the "select-all" signal.
    fn connect_select_all<F: Fn(ObjectRef, Vec<HostValue>) -> HostValue>(&self, hub: &mut SignalHub<F>, f: F) -> (id: u64)
        requires
            old(hub).wf(),
            callable(f),
        ensures
            final(hub).wf(),
            SignalHub::connected(*old(hub), *final(hub), self.handle(), Signal::TreeViewSelectAll, f, id),
    ;

    /// Connects `f` to the "select-cursor-parent" signal.
    fn connect_select_cursor_parent<F: Fn(ObjectRef, Vec<HostValue>) -> HostValue>(&self, hub: &mut SignalHub<F>, f: F) -> (id: u64)
        requires
            old(hub).wf(),
            callable(f),
        ensures
            final(hub).wf(),
            SignalHub::connected(*old(hub), *final(hub), self.handle(), Signal::TreeViewSelectCursorParent, f, id),
    ;

    /// Connects `f` to the "select-cursor-row" signal.
    fn connect_select_cursor_row<F: Fn(ObjectRef, Vec<HostValue>) -> HostValue>(&self, hub: &mut SignalHub<F>, f: F) -> (id: u64)
        requires
            old(hub).wf(),
            callable(f),
        ensures
            final(hub).wf(),
            SignalHub::connected(*old(hub), *final(hub), self.handle(), Signal::TreeViewSelectCursorRow, f, id),
    ;

    /// Connects `f` to the "start-interactive-search" signal.
    fn connect_start_interactive_search<F: Fn(ObjectRef, Vec<HostValue>) -> HostValue>(&self, hub: &mut SignalHub<F>, f: F) -> (id: u64)
        requires
            old(hub).wf(),
            callable(f),
        ensures
            final(hub).wf(),
            SignalHub::connected(*old(hub), *final(hub), self.handle(), Signal::TreeViewStartInteractiveSearch, f, id),
    ;

    /// Connects `f` to the "test-collapse-row" signal.
    fn connect_test_collapse_row<F: Fn(ObjectRef, Vec<HostValue>) -> HostValue>(&self, hub: &mut SignalHub<F>, f: F) -> (id: u64)
        requires
            old(hub).wf(),
            callable(f),
        ensures
            final(hub).wf(),
            SignalHub::connected(*old(hub), *final(hub), self.handle(), Signal::TreeViewTestCollapseRow, f, id),
    ;

    /// Connects `f` to the "test-expand-row" signal.
    fn connect_test_expand_row<F: Fn(ObjectRef, Vec<HostValue>) -> HostValue>(&self, hub: &mut SignalHub<F>, f: F) -> (id: u64)
        requires
            old(hub).wf(),
            callable(f),
        ensures
            final(hub).wf(),
            SignalHub::connected(*old(hub), *final(hub), self.handle(), Signal::TreeViewTestExpandRow, f, id),
    ;

    /// Connects `f` to the "toggle-cursor-row" signal.
    fn connect_toggle_cursor_row<F: Fn(ObjectRef, Vec<HostValue>) -> HostValue>(&self, hub: &mut SignalHub<F>, f: F) -> (id: u64)
        requires
            old(hub).wf(),
            callable(f),
        ensures
            final(hub).wf(),
            SignalHub::connected(*old(hub), *final(hub), self.handle(), Signal::TreeViewToggleCursorRow, f, id),
    ;

    /// Connects `f` to the "unselect-all" signal.
    fn connect_unselect_all<F: Fn(ObjectRef, Vec<HostValue>) -> HostValue>(&self, hub: &mut SignalHub<F>, f: F) -> (id: u64)
        requires
            old(hub).wf(),
            callable(f),
        ensures
            final(hub).wf(),
            SignalHub::connected(*old(hub), *final(hub), self.handle(), Signal::TreeViewUnselectAll, f, id),
    ;
}

impl TreeViewSignals for ObjectRef {
    fn connect_columns_changed<F: Fn(ObjectRef, Vec<HostValue>) -> HostValue>(&self, hub: &mut SignalHub<F>, f: F) -> (id: u64) {
        hub.connect(*self, Signal::TreeViewColumnsChanged, f)
    }

    fn connect_cursor_changed<F: Fn(ObjectRef, Vec<HostValue>) -> HostValue>(&self, hub: &mut SignalHub<F>, f: F) -> (id: u64) {
        hub.connect(*self, Signal::TreeViewCursorChanged, f)
    }

    fn connect_expand_collapse_cursor_row<F: Fn(ObjectRef, Vec<HostValue>) -> HostValue>(&self, hub: &mut SignalHub<F>, f: F) -> (id: u64) {
        hub.connect(*self, Signal::TreeViewExpandCollapseCursorRow, f)
    }

    fn connect_row_activated<F: Fn(ObjectRef, Vec<HostValue>) -> HostValue>(&self, hub: &mut SignalHub<F>, f: F) -> (id: u64) {
        hub.connect(*self, Signal::TreeViewRowActivated, f)
    }

    fn connect_row_collapsed<F: Fn(ObjectRef, Vec<HostValue>) -> HostValue>(&self, hub: &mut SignalHub<F>, f: F) -> (id: u64) {
        hub.connect(*self, Signal::TreeViewRowCollapsed, f)
    }

    fn connect_row_expanded<F: Fn(ObjectRef, Vec<HostValue>) -> HostValue>(&self, hub: &mut SignalHub<F>, f: F) -> (id: u64) {
        hub.connect(*self, Signal::TreeViewRowExpanded, f)
    }

    fn connect_select_all<F: Fn(ObjectRef, Vec<HostValue>) -> HostValue>(&self, hub: &mut SignalHub<F>, f: F) -> (id: u64) {
        hub.connect(*self, Signal::TreeViewSelectAll, f)
    }

    fn connect_select_cursor_parent<F: Fn(ObjectRef, Vec<HostValue>) -> HostValue>(&self, hub: &mut SignalHub<F>, f: F) -> (id: u64) {
        hub.connect(*self, Signal::TreeViewSelectCursorParent, f)
    }

    fn connect_select_cursor_row<F: Fn(ObjectRef, Vec<HostValue>) -> HostValue>(&self, hub: &mut SignalHub<F>, f: F) -> (id: u64) {
        hub.connect(*self, Signal::TreeViewSelectCursorRow, f)
    }

    fn connect_start_interactive_search<F: Fn(ObjectRef, Vec<HostValue>) -> HostValue>(&self, hub: &mut SignalHub<F>, f: F) -> (id: u64) {
        hub.connect(*self, Signal::TreeViewStartInteractiveSearch, f)
    }

    fn connect_test_collapse_row<F: Fn(ObjectRef, Vec<HostValue>) -> HostValue>(&self, hub: &mut SignalHub<F>, f: F) -> (id: u64) {
        hub.connect(*self, Signal::TreeViewTestCollapseRow, f)
    }

    fn connect_test_expand_row<F: Fn(ObjectRef, Vec<HostValue>) -> HostValue>(&self, hub: &mut SignalHub<F>, f: F) -> (id: u64) {
        hub.connect(*self, Signal::TreeViewTestExpandRow, f)
    }

    fn connect_toggle_cursor_row<F: Fn(ObjectRef, Vec<HostValue>) -> HostValue>(&self, hub: &mut SignalHub<F>, f: F) -> (id: u64) {
        hub.connect(*self, Signal::TreeViewToggleCursorRow, f)
    }

    fn connect_unselect_all<F: Fn(ObjectRef, Vec<HostValue>) -> HostValue>(&self, hub: &mut SignalHub<F>, f: F) -> (id: u64) {
        hub.connect(*self, Signal::TreeViewUnselectAll, f)
    }
}

/// The signals of a range.
pub trait RangeSignals: SignalObject {
    /// Connects `f` to the "adjust-bounds" signal.
    fn connect_adjust_bounds<F: Fn(ObjectRef, Vec<HostValue>) -> HostValue>(&self, hub: &mut SignalHub<F>, f: F) -> (id: u64)
        requires
            old(hub).wf(),
            callable(f),
        ensures
            final(hub).wf(),
            SignalHub::connected(*old(hub), *final(hub), self.handle(), Signal::RangeAdjustBounds, f, id),
    ;

    /// Connects `f` to the "change-value" signal.
    fn connect_change_value<F: Fn(ObjectRef, Vec<HostValue>) -> HostValue>(&self, hub: &mut SignalHub<F>, f: F) -> (id: u64)
        requires
            old(hub).wf(),
            callable(f),
        ensures
            final(hub).wf(),
            SignalHub::connected(*old(hub), *final(hub), self.handle(), Signal::RangeChangeValue, f, id),
    ;

    /// Connects `f` to the "move-slider" signal.
    fn connect_move_slider<F: Fn(ObjectRef, Vec<HostValue>) -> HostValue>(&self, hub: &mut SignalHub<F>, f: F) -> (id: u64)
        requires
            old(hub).wf(),
            callable(f),
        ensures
            final(hub).wf(),
            SignalHub::connected(*old(hub), *final(hub), self.handle(), Signal::RangeMoveSlider, f, id),
    ;

    /// Connects `f` to the "value-changed" signal.
    fn connect_value_changed<F: Fn(ObjectRef, Vec<HostValue>) -> HostValue>(&self, hub: &mut SignalHub<F>, f: F) -> (id: u64)
        requires
            old(hub).wf(),
            callable(f),
        ensures
            final(hub).wf(),
            SignalHub::connected(*old(hub), *final(hub), self.handle(), Signal::RangeValueChanged, f, id),
    ;
}

impl RangeSignals for ObjectRef {
    fn connect_adjust_bounds<F: Fn(ObjectRef, Vec<HostValue>) -> HostValue>(&self, hub: &mut SignalHub<F>, f: F) -> (id: u64) {
        hub.connect(*self, Signal::RangeAdjustBounds, f)
    }

    fn connect_change_value<F: Fn(ObjectRef, Vec<HostValue>) -> HostValue>(&self, hub: &mut SignalHub<F>, f: F) -> (id: u64) {
        hub.connect(*self, Signal::RangeChangeValue, f)
    }

    fn connect_move_slider<F: Fn(ObjectRef, Vec<HostValue>) -> HostValue>(&self, hub: &mut SignalHub<F>, f: F) -> (id: u64) {
        hub.connect(*self, Signal::RangeMoveSlider, f)
    }

    fn connect_value_changed<F: Fn(ObjectRef, Vec<HostValue>) -> HostValue>(&self, hub: &mut SignalHub<F>, f: F) -> (id: u64) {
        hub.connect(*self, Signal::RangeValueChanged, f)
    }
}

/// The signals of a tree selection.
pub trait TreeSelectionSignals: SignalObject {
    /// Connects `f` to the "changed" signal.
    fn connect_changed<F: Fn(ObjectRef, Vec<HostValue>) -> HostValue>(&self, hub: &mut SignalHub<F>, f: F) -> (id: u64)
        requires
            old(hub).wf(),
            callable(f),
        ensures
            final(hub).wf(),
            SignalHub::connected(*old(hub), *final(hub), self.handle(), Signal::TreeSelectionChanged, f, id),
    ;
}

impl TreeSelectionSignals for ObjectRef {
    fn connect_changed<F: Fn(ObjectRef, Vec<HostValue>) -> HostValue>(&self, hub: &mut SignalHub<F>, f: F) -> (id: u64) {
        hub.connect(*self, Signal::TreeSelectionChanged, f)
    }
}

/// The signals of an adjustment.
pub trait AdjustmentSignals: SignalObject {
    /// Connects `f` to the "value-changed" signal.
    fn connect_value_changed<F: Fn(ObjectRef, Vec<HostValue>) -> HostValue>(&self, hub: &mut SignalHub<F>, f: F) -> (id: u64)
        requires
            old(hub).wf(),
            callable(f),
        ensures
            final(hub).wf(),
            SignalHub::connected(*old(hub), *final(hub), self.handle(), Signal::AdjustmentValueChanged, f, id),
    ;
}

impl AdjustmentSignals for ObjectRef {
    fn connect_value_changed<F: Fn(ObjectRef, Vec<HostValue>) -> HostValue>(&self, hub: &mut SignalHub<F>, f: F) -> (id: u64) {
        hub.connect(*self, Signal::AdjustmentValueChanged, f)
    }
}

/// The signals of a tree view column.
pub trait TreeViewColumnSignals: SignalObject {
    /// Connects `f` to the "clicked" signal.
    fn connect_clicked<F: Fn(ObjectRef, Vec<HostValue>) -> HostValue>(&self, hub: &mut SignalHub<F>, f: F) -> (id: u64)
        requires
            old(hub).wf(),
            callable(f),
        ensures
            final(hub).wf(),
            SignalHub::connected(*old(hub), *final(hub), self.handle(), Signal::TreeViewColumnClicked, f, id),
    ;
}

impl TreeViewColumnSignals for ObjectRef {
    fn connect_clicked<F: Fn(ObjectRef, Vec<HostValue>) -> HostValue>(&self, hub: &mut SignalHub<F>, f: F) -> (id: u64) {
        hub.connect(*self, Signal::TreeViewColumnClicked, f)
    }
}

/// The signals of an expander.
pub trait ExpanderSignals: SignalObject {
    /// Connects `f` to the "activate" signal.
    fn connect_activate<F: Fn(ObjectRef, Vec<HostValue>) -> HostValue>(&self, hub: &mut SignalHub<F>, f: F) -> (id: u64)
        requires
            old(hub).wf(),
            callable(f),
        ensures
            final(hub).wf(),
            SignalHub::connected(*old(hub), *final(hub), self.handle(), Signal::ExpanderActivate, f, id),
    ;
}

impl ExpanderSignals for ObjectRef {
    fn connect_activate<F: Fn(ObjectRef, Vec<HostValue>) -> HostValue>(&self, hub: &mut SignalHub<F>, f: F) -> (id: u64) {
        hub.connect(*self, Signal::ExpanderActivate, f)
    }
}

} // verus!
