use gtk_signals::signal::{
    convert_arg, convert_args, convert_return, invoke, ArgRule, HostValue, Inhibit, NativeValue,
    ObjectKind, ObjectRef, RetRule, Signal, TrampolineError,
};
use gtk_signals::translate::{GFALSE, GTRUE};

#[test]
fn stop_propagation_encodes_true() {
    assert_eq!(Inhibit(true).to_glib(), GTRUE);
    assert_eq!(Inhibit(true).to_glib(), 1);
    assert_eq!(Inhibit(false).to_glib(), GFALSE);
    assert_eq!(Inhibit(false).to_glib(), 0);
    assert_eq!(Inhibit::default(), Inhibit(false));
}

#[test]
fn stop_propagation_through_trampoline() {
    let stop = |_o: ObjectRef, _a: Vec<HostValue>| HostValue::Inhibit(Inhibit(true));
    let go_on = |_o: ObjectRef, _a: Vec<HostValue>| HostValue::Inhibit(Inhibit(false));
    let args = vec![NativeValue::Pointer(0x40)];
    assert_eq!(
        invoke(Signal::WidgetButtonPressEvent, 0x10, &args, &stop),
        Ok(NativeValue::Flag(1))
    );
    assert_eq!(
        invoke(Signal::WidgetButtonPressEvent, 0x10, &args, &go_on),
        Ok(NativeValue::Flag(0))
    );
}

#[test]
fn table_names_and_owners() {
    assert_eq!(Signal::WidgetDestroy.name(), "destroy");
    assert_eq!(Signal::WidgetDestroy.owner(), ObjectKind::Widget);
    assert_eq!(Signal::ButtonClicked.name(), "clicked");
    assert_eq!(Signal::ButtonClicked.owner(), ObjectKind::Button);
    assert_eq!(Signal::SpinButtonWrapped.name(), "wrapped");
    assert_eq!(Signal::SpinButtonValueChanged.name(), "value-changed");
    assert_eq!(Signal::EntryInsertAtCursor.name(), "insert-at-cursor");
    assert_eq!(Signal::ComboBoxMoveActive.name(), "move-active");
    assert_eq!(Signal::TreeSelectionChanged.owner(), ObjectKind::TreeSelection);
    assert_eq!(Signal::AdjustmentValueChanged.owner(), ObjectKind::Adjustment);
    assert_eq!(Signal::DialogResponse.name(), "response");
    assert_eq!(Signal::ExpanderActivate.owner(), ObjectKind::Expander);
}

#[test]
fn table_rules() {
    assert_eq!(
        Signal::WidgetQueryTooltip.arg_rules(),
        vec![
            ArgRule::Int,
            ArgRule::Int,
            ArgRule::FromGlib,
            ArgRule::Wrap(ObjectKind::Tooltip)
        ]
    );
    assert_eq!(Signal::WidgetQueryTooltip.ret_rule(), RetRule::Flag);
    assert_eq!(Signal::WidgetDestroy.arg_rules(), vec![]);
    assert_eq!(Signal::WidgetDestroy.ret_rule(), RetRule::Void);
    assert_eq!(Signal::WidgetKeyPressEvent.arg_rules(), vec![ArgRule::Borrow]);
    assert_eq!(Signal::WidgetKeyPressEvent.ret_rule(), RetRule::Inhibit);
    assert_eq!(Signal::WidgetCanActivateAccel.arg_rules(), vec![ArgRule::Widen]);
    assert_eq!(
        Signal::TreeViewRowActivated.arg_rules(),
        vec![
            ArgRule::Wrap(ObjectKind::TreePath),
            ArgRule::Wrap(ObjectKind::TreeViewColumn)
        ]
    );
    assert_eq!(Signal::TreeViewTestExpandRow.ret_rule(), RetRule::Flag);
    assert_eq!(Signal::RangeChangeValue.ret_rule(), RetRule::Inhibit);
    assert_eq!(Signal::RangeChangeValue.arg_rules(), vec![ArgRule::Int, ArgRule::Double]);
    assert_eq!(Signal::RangeAdjustBounds.arg_rules(), vec![ArgRule::Double]);
    assert_eq!(Signal::EntryPreeditChanged.arg_rules(), vec![ArgRule::Utf8]);
    assert_eq!(Signal::WidgetEventAfter.ret_rule(), RetRule::Void);
}

#[test]
fn object_kinds_and_signals() {
    assert!(ObjectKind::Button.has_signals_of(ObjectKind::Widget));
    assert!(ObjectKind::Button.has_signals_of(ObjectKind::Button));
    assert!(!ObjectKind::Button.has_signals_of(ObjectKind::Entry));
    assert!(ObjectKind::SpinButton.has_signals_of(ObjectKind::Entry));
    assert!(!ObjectKind::Adjustment.has_signals_of(ObjectKind::Widget));
    assert!(ObjectKind::Adjustment.has_signals_of(ObjectKind::Adjustment));
    assert!(ObjectKind::TreeView.is_widget());
    assert!(!ObjectKind::TreeSelection.is_widget());
}

#[test]
fn convert_each_rule() {
    assert_eq!(convert_arg(ArgRule::Int, &NativeValue::Int(-7)), Some(HostValue::Int(-7)));
    assert_eq!(
        convert_arg(ArgRule::Double, &NativeValue::Double(2.5f64.to_bits())),
        Some(HostValue::Double(2.5f64.to_bits()))
    );
    assert_eq!(
        convert_arg(ArgRule::Widen, &NativeValue::UInt(4_000_000_000)),
        Some(HostValue::Long(4_000_000_000))
    );
    assert_eq!(convert_arg(ArgRule::FromGlib, &NativeValue::Flag(0)), Some(HostValue::Bool(false)));
    assert_eq!(convert_arg(ArgRule::FromGlib, &NativeValue::Flag(1)), Some(HostValue::Bool(true)));
    assert_eq!(convert_arg(ArgRule::FromGlib, &NativeValue::Flag(-3)), Some(HostValue::Bool(true)));
    assert_eq!(
        convert_arg(ArgRule::Wrap(ObjectKind::TreePath), &NativeValue::Pointer(0x99)),
        Some(HostValue::Object(ObjectRef { kind: ObjectKind::TreePath, addr: 0x99 }))
    );
    assert_eq!(
        convert_arg(ArgRule::Borrow, &NativeValue::Pointer(0x77)),
        Some(HostValue::Borrowed(0x77))
    );
    assert_eq!(
        convert_arg(ArgRule::Utf8, &NativeValue::Text(b"h\xc3\xa9\0junk".to_vec())),
        Some(HostValue::Text("hé".to_string()))
    );
    assert_eq!(convert_arg(ArgRule::Utf8, &NativeValue::Text(vec![0xff, 0])), None);
    assert_eq!(convert_arg(ArgRule::Int, &NativeValue::Pointer(1)), None);
    assert_eq!(convert_arg(ArgRule::Int, &NativeValue::Double(0)), None);
    assert_eq!(convert_arg(ArgRule::Double, &NativeValue::Int(0)), None);
    assert_eq!(convert_arg(ArgRule::Borrow, &NativeValue::Int(1)), None);
}

#[test]
fn convert_args_errors() {
    let rules = vec![ArgRule::Int, ArgRule::Utf8];
    assert_eq!(
        convert_args(&rules, &vec![NativeValue::Int(1)]),
        Err(TrampolineError::WrongArity)
    );
    assert_eq!(
        convert_args(&rules, &vec![NativeValue::Flag(1), NativeValue::Text(vec![0xff, 0])]),
        Err(TrampolineError::BadArgument(0))
    );
    assert_eq!(
        convert_args(&rules, &vec![NativeValue::Int(3), NativeValue::Text(vec![0xc3, 0])]),
        Err(TrampolineError::InvalidText(1))
    );
    assert_eq!(
        convert_args(&rules, &vec![NativeValue::Int(3), NativeValue::Pointer(5)]),
        Err(TrampolineError::BadArgument(1))
    );
    assert_eq!(
        convert_args(&rules, &vec![NativeValue::Int(3), NativeValue::Text(b"ok\0".to_vec())]),
        Ok(vec![HostValue::Int(3), HostValue::Text("ok".to_string())])
    );
}

#[test]
fn convert_return_rules() {
    assert_eq!(convert_return(RetRule::Void, HostValue::Unit), Ok(NativeValue::Void));
    assert_eq!(convert_return(RetRule::Flag, HostValue::Bool(true)), Ok(NativeValue::Flag(1)));
    assert_eq!(convert_return(RetRule::Flag, HostValue::Bool(false)), Ok(NativeValue::Flag(0)));
    assert_eq!(
        convert_return(RetRule::Inhibit, HostValue::Inhibit(Inhibit(true))),
        Ok(NativeValue::Flag(1))
    );
    assert_eq!(
        convert_return(RetRule::Flag, HostValue::Inhibit(Inhibit(true))),
        Err(TrampolineError::BadReturn)
    );
    assert_eq!(convert_return(RetRule::Void, HostValue::Bool(true)), Err(TrampolineError::BadReturn));
}

#[test]
fn trampoline_passes_converted_arguments() {
    let f = |o: ObjectRef, a: Vec<HostValue>| {
        assert_eq!(o, ObjectRef { kind: ObjectKind::Widget, addr: 0x10 });
        assert_eq!(
            a,
            vec![
                HostValue::Int(4),
                HostValue::Int(9),
                HostValue::Bool(true),
                HostValue::Object(ObjectRef { kind: ObjectKind::Tooltip, addr: 0x20 })
            ]
        );
        HostValue::Bool(true)
    };
    let args = vec![
        NativeValue::Int(4),
        NativeValue::Int(9),
        NativeValue::Flag(1),
        NativeValue::Pointer(0x20),
    ];
    assert_eq!(invoke(Signal::WidgetQueryTooltip, 0x10, &args, &f), Ok(NativeValue::Flag(1)));
}

#[test]
fn trampoline_errors() {
    let f = |_o: ObjectRef, _a: Vec<HostValue>| HostValue::Unit;
    assert_eq!(
        invoke(Signal::WidgetDestroy, 1, &vec![NativeValue::Int(0)], &f),
        Err(TrampolineError::WrongArity)
    );
    assert_eq!(
        invoke(Signal::EntryInsertAtCursor, 1, &vec![NativeValue::Text(vec![0x80, 0])], &f),
        Err(TrampolineError::InvalidText(0))
    );
    assert_eq!(
        invoke(Signal::WidgetPopupMenu, 1, &vec![], &f),
        Err(TrampolineError::BadReturn)
    );
    assert_eq!(invoke(Signal::WidgetDestroy, 1, &vec![], &f), Ok(NativeValue::Void));
}
