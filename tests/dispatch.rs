use std::cell::Cell;
use std::rc::Rc;

use gtk_signals::connect::{
    AdjustmentSignals, ButtonSignals, EntrySignals, TreeSelectionSignals, TreeViewSignals,
    WidgetSignals,
};
use gtk_signals::hub::SignalHub;
use gtk_signals::signal::{HostValue, Inhibit, NativeValue, ObjectKind, ObjectRef, Signal};

type Handler = Box<dyn Fn(ObjectRef, Vec<HostValue>) -> HostValue>;

fn button() -> ObjectRef {
    ObjectRef { kind: ObjectKind::Button, addr: 0x1000 }
}

#[test]
fn callback_runs_once_with_converted_arguments() {
    let calls = Rc::new(Cell::new(0u32));
    let seen = Rc::new(Cell::new(false));
    let (c, s) = (calls.clone(), seen.clone());
    let mut hub: SignalHub<Handler> = SignalHub::new();
    let entry = ObjectRef { kind: ObjectKind::Entry, addr: 0x2000 };
    let id = hub.connect(
        entry,
        Signal::EntryMoveCursor,
        Box::new(move |o, a| {
            c.set(c.get() + 1);
            s.set(
                o == ObjectRef { kind: ObjectKind::Entry, addr: 0x2000 }
                    && a == vec![HostValue::Int(2), HostValue::Int(-1), HostValue::Bool(true)],
            );
            HostValue::Unit
        }),
    );
    assert_ne!(id, 0);
    let args = vec![NativeValue::Int(2), NativeValue::Int(-1), NativeValue::Flag(1)];
    let out = hub.emit(entry, Signal::EntryMoveCursor, &args);
    assert_eq!(out, vec![Ok(NativeValue::Void)]);
    assert_eq!(calls.get(), 1);
    assert!(seen.get());
}

#[test]
fn two_connections_get_two_ids_and_both_run() {
    let first = Rc::new(Cell::new(0u32));
    let second = Rc::new(Cell::new(0u32));
    let (a, b) = (first.clone(), second.clone());
    let mut hub: SignalHub<Handler> = SignalHub::new();
    let id1 = hub.connect(
        button(),
        Signal::ButtonClicked,
        Box::new(move |_, _| {
            a.set(a.get() + 1);
            HostValue::Unit
        }),
    );
    let id2 = hub.connect(
        button(),
        Signal::ButtonClicked,
        Box::new(move |_, _| {
            b.set(b.get() + 10);
            HostValue::Unit
        }),
    );
    assert_ne!(id1, 0);
    assert_ne!(id2, 0);
    assert_ne!(id1, id2);
    let out = hub.emit(button(), Signal::ButtonClicked, &vec![]);
    assert_eq!(out.len(), 2);
    assert_eq!(first.get(), 1);
    assert_eq!(second.get(), 10);
}

#[test]
fn captured_counter_counts_each_trigger() {
    let counter = Rc::new(Cell::new(0u32));
    let c = counter.clone();
    let mut hub: SignalHub<Handler> = SignalHub::new();
    hub.connect(
        button(),
        Signal::WidgetButtonPressEvent,
        Box::new(move |_, _| {
            c.set(c.get() + 1);
            HostValue::Inhibit(Inhibit(false))
        }),
    );
    let args = vec![NativeValue::Pointer(0x55)];
    for n in 1..=3u32 {
        let out = hub.emit(button(), Signal::WidgetButtonPressEvent, &args);
        assert_eq!(out, vec![Ok(NativeValue::Flag(0))]);
        assert_eq!(counter.get(), n);
    }
}

#[test]
fn emission_reaches_only_its_signal_and_object() {
    let hits = Rc::new(Cell::new(0u32));
    let h = hits.clone();
    let mut hub: SignalHub<Handler> = SignalHub::new();
    hub.connect(
        button(),
        Signal::ButtonClicked,
        Box::new(move |_, _| {
            h.set(h.get() + 1);
            HostValue::Unit
        }),
    );
    let other = ObjectRef { kind: ObjectKind::Button, addr: 0x3000 };
    assert!(hub.emit(other, Signal::ButtonClicked, &vec![]).is_empty());
    assert!(hub.emit(button(), Signal::ButtonActivate, &vec![]).is_empty());
    assert_eq!(hits.get(), 0);
}

#[test]
fn connect_to_a_signal_the_object_lacks_gives_zero() {
    let mut hub: SignalHub<Handler> = SignalHub::new();
    let adjustment = ObjectRef { kind: ObjectKind::Adjustment, addr: 0x40 };
    assert_eq!(hub.connect(adjustment, Signal::WidgetDestroy, Box::new(|_, _| HostValue::Unit)), 0);
    assert_eq!(hub.connect(button(), Signal::EntryActivate, Box::new(|_, _| HostValue::Unit)), 0);
    let spin = ObjectRef { kind: ObjectKind::SpinButton, addr: 0x41 };
    assert_eq!(hub.connect(spin, Signal::EntryActivate, Box::new(|_, _| HostValue::Unit)), 1);
    assert_eq!(hub.connect(spin, Signal::WidgetShow, Box::new(|_, _| HostValue::Unit)), 2);
}

#[test]
fn widget_callback_sees_the_widget_category() {
    let seen = Rc::new(Cell::new(None));
    let s = seen.clone();
    let mut hub: SignalHub<Handler> = SignalHub::new();
    hub.connect(
        button(),
        Signal::WidgetShow,
        Box::new(move |o, _| {
            s.set(Some(o));
            HostValue::Unit
        }),
    );
    hub.emit(button(), Signal::WidgetShow, &vec![]);
    assert_eq!(seen.get(), Some(ObjectRef { kind: ObjectKind::Widget, addr: 0x1000 }));
}

#[test]
fn failed_conversion_skips_the_callback() {
    let hits = Rc::new(Cell::new(0u32));
    let h = hits.clone();
    let mut hub: SignalHub<Handler> = SignalHub::new();
    let entry = ObjectRef { kind: ObjectKind::Entry, addr: 0x2000 };
    hub.connect(
        entry,
        Signal::EntryInsertAtCursor,
        Box::new(move |_, _| {
            h.set(h.get() + 1);
            HostValue::Unit
        }),
    );
    let out = hub.emit(entry, Signal::EntryInsertAtCursor, &vec![NativeValue::Text(vec![0xfe, 0])]);
    assert_eq!(out, vec![Err(gtk_signals::signal::TrampolineError::InvalidText(0))]);
    assert_eq!(hits.get(), 0);
}

#[test]
fn registration_methods_connect_their_signal() {
    let clicks = Rc::new(Cell::new(0u32));
    let c = clicks.clone();
    let mut hub: SignalHub<Handler> = SignalHub::new();
    let id = button().connect_clicked(
        &mut hub,
        Box::new(move |_, _| {
            c.set(c.get() + 1);
            HostValue::Unit
        }),
    );
    assert_eq!(id, 1);
    assert_eq!(hub.emit(button(), Signal::ButtonClicked, &vec![]), vec![Ok(NativeValue::Void)]);
    assert_eq!(clicks.get(), 1);

    let id = button().connect_key_press_event(
        &mut hub,
        Box::new(|_, a| {
            assert_eq!(a, vec![HostValue::Borrowed(0x66)]);
            HostValue::Inhibit(Inhibit(true))
        }),
    );
    assert_eq!(id, 2);
    let out = hub.emit(button(), Signal::WidgetKeyPressEvent, &vec![NativeValue::Pointer(0x66)]);
    assert_eq!(out, vec![Ok(NativeValue::Flag(1))]);
}

#[test]
fn registration_methods_refuse_other_categories() {
    let mut hub: SignalHub<Handler> = SignalHub::new();
    let selection = ObjectRef { kind: ObjectKind::TreeSelection, addr: 0x70 };
    assert_eq!(selection.connect_destroy(&mut hub, Box::new(|_, _| HostValue::Unit)), 0);
    assert_eq!(
        EntrySignals::connect_activate(&button(), &mut hub, Box::new(|_, _| HostValue::Unit)),
        0
    );
    assert_eq!(selection.connect_changed(&mut hub, Box::new(|_, _| HostValue::Unit)), 1);
    let adjustment = ObjectRef { kind: ObjectKind::Adjustment, addr: 0x71 };
    assert_eq!(
        AdjustmentSignals::connect_value_changed(&adjustment, &mut hub, Box::new(|_, _| HostValue::Unit)),
        2
    );
    let tree = ObjectRef { kind: ObjectKind::TreeView, addr: 0x72 };
    assert_eq!(tree.connect_select_all(&mut hub, Box::new(|_, _| HostValue::Bool(true))), 3);
    assert_eq!(
        hub.emit(tree, Signal::TreeViewSelectAll, &vec![]),
        vec![Ok(NativeValue::Flag(1))]
    );
}

#[test]
fn disconnected_callback_no_longer_runs() {
    let hits = Rc::new(Cell::new(0u32));
    let h = hits.clone();
    let mut hub: SignalHub<Handler> = SignalHub::new();
    let id = hub.connect(
        button(),
        Signal::ButtonClicked,
        Box::new(move |_, _| {
            h.set(h.get() + 1);
            HostValue::Unit
        }),
    );
    let other = hub.connect(button(), Signal::ButtonClicked, Box::new(|_, _| HostValue::Unit));
    assert_eq!(hub.emit(button(), Signal::ButtonClicked, &vec![]).len(), 2);
    assert_eq!(hits.get(), 1);
    assert!(hub.disconnect(id));
    assert!(!hub.disconnect(id));
    assert_eq!(hub.emit(button(), Signal::ButtonClicked, &vec![]).len(), 1);
    assert_eq!(hits.get(), 1);
    assert!(hub.disconnect(other));
    assert!(hub.emit(button(), Signal::ButtonClicked, &vec![]).is_empty());
    let again = hub.connect(button(), Signal::ButtonClicked, Box::new(|_, _| HostValue::Unit));
    assert_ne!(again, id);
    assert_ne!(again, other);
}
