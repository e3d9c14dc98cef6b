//! The signals that can be connected, and how the values of one emission cross
//! between the native side and a callback.
use vstd::prelude::*;
use vstd::utf8::{decode_utf8, valid_utf8};

use crate::translate::{
    bool_from_glib, bool_of, bool_to_glib, c_prefix, flag_of, text_from_c_buffer, GBoolean, GFALSE,
    GTRUE,
};

verus! {

/// Whether to propagate the signal to other handlers: `Inhibit(true)` stops the
/// emission, `Inhibit(false)` lets further handlers run.
#[derive(Clone, Copy, Debug, Default, PartialEq, Eq, Structural)]
pub struct Inhibit(pub bool);

impl Inhibit {
    /// The native "handled" flag: true when the emission is to stop.
    pub fn to_glib(&self) -> (r: GBoolean)
        ensures
            r == flag_of(self.0),
    {
        bool_to_glib(self.0)
    }
}

/// A category of native object: the widgets and objects that declare signals,
/// and the types of objects that signals hand to their callbacks.
#[derive(Clone, Copy, Debug, PartialEq, Eq, Structural)]
pub enum ObjectKind {
    Widget,
    Entry,
    Button,
    ComboBox,
    ToolButton,
    SpinButton,
    Dialog,
    TreeView,
    Range,
    Expander,
    TreeSelection,
    Adjustment,
    TreeViewColumn,
    TreePath,
    Tooltip,
    Screen,
    CairoContext,
}

impl ObjectKind {
    /// Whether objects of this kind are widgets.
    pub open spec fn spec_is_widget(self) -> bool {
        match self {
            ObjectKind::Widget | ObjectKind::Entry | ObjectKind::Button | ObjectKind::ComboBox
            | ObjectKind::ToolButton | ObjectKind::SpinButton | ObjectKind::Dialog
            | ObjectKind::TreeView | ObjectKind::Range | ObjectKind::Expander => true,
            _ => false,
        }
    }

    /// Whether an object of this kind has the signals that `owner` declares: its
    /// own, those of every widget when it is one, and those of an entry for a
    /// spin button, which is an entry.
    pub open spec fn spec_has_signals_of(self, owner: ObjectKind) -> bool {
        self == owner || (owner == ObjectKind::Widget && self.spec_is_widget()) || (
        owner == ObjectKind::Entry && self == ObjectKind::SpinButton)
    }

    /// Whether objects of this kind are widgets.
    pub fn is_widget(self) -> (r: bool)
        ensures
            r == self.spec_is_widget(),
    {
        match self {
            ObjectKind::Widget | ObjectKind::Entry | ObjectKind::Button | ObjectKind::ComboBox
            | ObjectKind::ToolButton | ObjectKind::SpinButton | ObjectKind::Dialog
            | ObjectKind::TreeView | ObjectKind::Range | ObjectKind::Expander => true,
            _ => false,
        }
    }

    /// Whether an object of this kind has the signals that `owner` declares.
    pub fn has_signals_of(self, owner: ObjectKind) -> (r: bool)
        ensures
            r == self.spec_has_signals_of(owner),
    {
        self == owner || (owner == ObjectKind::Widget && self.is_widget()) || (owner
            == ObjectKind::Entry && self == ObjectKind::SpinButton)
    }
}

/// A handle on a native object: its category and its address. The native side
/// owns the object; a handle is only its identity.
#[derive(Clone, Copy, Debug, PartialEq, Eq, Structural)]
pub struct ObjectRef {
    pub kind: ObjectKind,
    pub addr: u64,
}

/// How one native argument becomes the value that a callback sees.
#[derive(Clone, Copy, Debug, PartialEq, Eq, Structural)]
pub enum ArgRule {
    /// A C `int` or enum value, copied as it is.
    Int,
    /// A C `double`, copied as its bit pattern.
    Double,
    /// An unsigned native integer widened to 64 bits.
    Widen,
    /// A native flag decoded into a boolean.
    FromGlib,
    /// An object pointer wrapped as a handle of the given kind.
    Wrap(ObjectKind),
    /// A pointer to a native struct lent to the callback for this call only.
    Borrow,
    /// A NUL-terminated string read as UTF-8 text.
    Utf8,
}

/// How a callback's result goes back to the native side.
#[derive(Clone, Copy, Debug, PartialEq, Eq, Structural)]
pub enum RetRule {
    /// The signal returns nothing; the callback returns `HostValue::Unit`.
    Void,
    /// The callback returns a boolean, encoded as a native flag.
    Flag,
    /// The callback returns an `Inhibit`, encoded as the native "handled" flag.
    Inhibit,
}

/// A value in the native representation, as the dispatch mechanism hands it over
/// or takes it back.
#[derive(Clone, Debug, PartialEq, Eq)]
pub enum NativeValue {
    /// A C `int` or an enum value.
    Int(i32),
    /// A C `unsigned int`.
    UInt(u32),
    /// A C `double`, as its bit pattern.
    Double(u64),
    /// A native boolean flag.
    Flag(GBoolean),
    /// The address of a native object or struct.
    Pointer(u64),
    /// The bytes that a `char *` points at.
    Text(Vec<u8>),
    /// No value: what a signal without a result returns.
    Void,
}

/// A value as a callback sees it, or as it returns it.
#[derive(Clone, Debug, PartialEq, Eq)]
pub enum HostValue {
    Unit,
    Int(i32),
    Long(u64),
    /// A double, as its bit pattern.
    Double(u64),
    Bool(bool),
    Inhibit(Inhibit),
    /// A handle on an object, which the callback may keep.
    Object(ObjectRef),
    /// The address of a native struct lent for the duration of one call.
    Borrowed(u64),
    Text(String),
}

/// Why one emission could not reach its callback, or why its result could not
/// go back.
#[derive(Clone, Copy, Debug, PartialEq, Eq, Structural)]
pub enum TrampolineError {
    /// The emission carried another number of arguments than the signal declares.
    WrongArity,
    /// The argument at this position has another native type than its rule reads.
    BadArgument(usize),
    /// The string argument at this position is not valid UTF-8.
    InvalidText(usize),
    /// The callback returned a value of another type than the signal's result.
    BadReturn,
}

/// The signals that this library can connect, one for each registration of the
/// object category that declares it.
#[derive(Clone, Copy, Debug, PartialEq, Eq, Structural)]
pub enum Signal {
    WidgetNotify,
    WidgetAccelClosuresChanged,
    WidgetButtonPressEvent,
    WidgetButtonReleaseEvent,
    WidgetCanActivateAccel,
    WidgetChildNotify,
    WidgetCompositedChanged,
    WidgetConfigureEvent,
    WidgetDamageEvent,
    WidgetDeleteEvent,
    WidgetDestroy,
    WidgetDestroyEvent,
    WidgetDirectionChanged,
    WidgetDraw,
    WidgetEnterNotifyEvent,
    WidgetEvent,
    WidgetEventAfter,
    WidgetFocus,
    WidgetFocusInEvent,
    WidgetFocusOutEvent,
    WidgetGrabBrokenEvent,
    WidgetGrabFocus,
    WidgetGrabNotify,
    WidgetHide,
    WidgetKeyPressEvent,
    WidgetKeyReleaseEvent,
    WidgetKeynavFailed,
    WidgetMap,
    WidgetMapEvent,
    WidgetMnemonicActivate,
    WidgetMotionNotifyEvent,
    WidgetMoveFocus,
    WidgetPopupMenu,
    WidgetPropertyNotifyEvent,
    WidgetProximityInEvent,
    WidgetProximityOutEvent,
    WidgetQueryTooltip,
    WidgetRealize,
    WidgetScreenChanged,
    WidgetScrollEvent,
    WidgetShow,
    WidgetShowHelp,
    WidgetSizeAllocate,
    WidgetStateFlagsChanged,
    WidgetStyleUpdated,
    WidgetTouchEvent,
    WidgetUnmap,
    WidgetUnmapEvent,
    WidgetUnrealize,
    WidgetWindowStateEvent,
    EntryActivate,
    EntryBackspace,
    EntryCopyClipboard,
    EntryCutClipboard,
    EntryPasteClipboard,
    EntryToggleOverwrite,
    EntryDeleteFromCursor,
    EntryMoveCursor,
    EntryInsertAtCursor,
    EntryPreeditChanged,
    ButtonActivate,
    ButtonClicked,
    ComboBoxChanged,
    ComboBoxMoveActive,
    ComboBoxPopdown,
    ComboBoxPopup,
    ToolButtonClicked,
    SpinButtonValueChanged,
    SpinButtonWrapped,
    DialogClose,
    DialogResponse,
    TreeViewColumnsChanged,
    TreeViewCursorChanged,
    TreeViewExpandCollapseCursorRow,
    TreeViewRowActivated,
    TreeViewRowCollapsed,
    TreeViewRowExpanded,
    TreeViewSelectAll,
    TreeViewSelectCursorParent,
    TreeViewSelectCursorRow,
    TreeViewStartInteractiveSearch,
    TreeViewTestCollapseRow,
    TreeViewTestExpandRow,
    TreeViewToggleCursorRow,
    TreeViewUnselectAll,
    RangeAdjustBounds,
    RangeChangeValue,
    RangeMoveSlider,
    RangeValueChanged,
    TreeSelectionChanged,
    AdjustmentValueChanged,
    TreeViewColumnClicked,
    ExpanderActivate,
}

impl Signal {
    /// The object category that declares this signal.
    pub open spec fn spec_owner(self) -> ObjectKind {
        match self {
            Signal::WidgetNotify |
            Signal::WidgetAccelClosuresChanged |
            Signal::WidgetButtonPressEvent |
            Signal::WidgetButtonReleaseEvent |
            Signal::WidgetCanActivateAccel |
            Signal::WidgetChildNotify |
            Signal::WidgetCompositedChanged |
            Signal::WidgetConfigureEvent |
            Signal::WidgetDamageEvent |
            Signal::WidgetDeleteEvent |
            Signal::WidgetDestroy |
            Signal::WidgetDestroyEvent |
            Signal::WidgetDirectionChanged |
            Signal::WidgetDraw |
            Signal::WidgetEnterNotifyEvent |
            Signal::WidgetEvent |
            Signal::WidgetEventAfter |
            Signal::WidgetFocus |
            Signal::WidgetFocusInEvent |
            Signal::WidgetFocusOutEvent |
            Signal::WidgetGrabBrokenEvent |
            Signal::WidgetGrabFocus |
            Signal::WidgetGrabNotify |
            Signal::WidgetHide |
            Signal::WidgetKeyPressEvent |
            Signal::WidgetKeyReleaseEvent |
            Signal::WidgetKeynavFailed |
            Signal::WidgetMap |
            Signal::WidgetMapEvent |
            Signal::WidgetMnemonicActivate |
            Signal::WidgetMotionNotifyEvent |
            Signal::WidgetMoveFocus |
            Signal::WidgetPopupMenu |
            Signal::WidgetPropertyNotifyEvent |
            Signal::WidgetProximityInEvent |
            Signal::WidgetProximityOutEvent |
            Signal::WidgetQueryTooltip |
            Signal::WidgetRealize |
            Signal::WidgetScreenChanged |
            Signal::WidgetScrollEvent |
            Signal::WidgetShow |
            Signal::WidgetShowHelp |
            Signal::WidgetSizeAllocate |
            Signal::WidgetStateFlagsChanged |
            Signal::WidgetStyleUpdated |
            Signal::WidgetTouchEvent |
            Signal::WidgetUnmap |
            Signal::WidgetUnmapEvent |
            Signal::WidgetUnrealize |
            Signal::WidgetWindowStateEvent => ObjectKind::Widget,
            Signal::EntryActivate |
            Signal::EntryBackspace |
            Signal::EntryCopyClipboard |
            Signal::EntryCutClipboard |
            Signal::EntryPasteClipboard |
            Signal::EntryToggleOverwrite |
            Signal::EntryDeleteFromCursor |
            Signal::EntryMoveCursor |
            Signal::EntryInsertAtCursor |
            Signal::EntryPreeditChanged => ObjectKind::Entry,
            Signal::ButtonActivate |
            Signal::ButtonClicked => ObjectKind::Button,
            Signal::ComboBoxChanged |
            Signal::ComboBoxMoveActive |
            Signal::ComboBoxPopdown |
            Signal::ComboBoxPopup => ObjectKind::ComboBox,
            Signal::ToolButtonClicked => ObjectKind::ToolButton,
            Signal::SpinButtonValueChanged |
            Signal::SpinButtonWrapped => ObjectKind::SpinButton,
            Signal::DialogClose |
            Signal::DialogResponse => ObjectKind::Dialog,
            Signal::TreeViewColumnsChanged |
            Signal::TreeViewCursorChanged |
            Signal::TreeViewExpandCollapseCursorRow |
            Signal::TreeViewRowActivated |
            Signal::TreeViewRowCollapsed |
            Signal::TreeViewRowExpanded |
            Signal::TreeViewSelectAll |
            Signal::TreeViewSelectCursorParent |
            Signal::TreeViewSelectCursorRow |
            Signal::TreeViewStartInteractiveSearch |
            Signal::TreeViewTestCollapseRow |
            Signal::TreeViewTestExpandRow |
            Signal::TreeViewToggleCursorRow |
            Signal::TreeViewUnselectAll => ObjectKind::TreeView,
            Signal::RangeAdjustBounds |
            Signal::RangeChangeValue |
            Signal::RangeMoveSlider |
            Signal::RangeValueChanged => ObjectKind::Range,
            Signal::TreeSelectionChanged => ObjectKind::TreeSelection,
            Signal::AdjustmentValueChanged => ObjectKind::Adjustment,
            Signal::TreeViewColumnClicked => ObjectKind::TreeViewColumn,
            Signal::ExpanderActivate => ObjectKind::Expander,
        }
    }

    /// The signal's name in the native toolkit.
    pub open spec fn spec_name(self) -> &'static str {
        match self {
            Signal::WidgetNotify => "notify",
            Signal::WidgetAccelClosuresChanged => "accel-closures-changed",
            Signal::WidgetButtonPressEvent => "button-press-event",
            Signal::WidgetButtonReleaseEvent => "button-release-event",
            Signal::WidgetCanActivateAccel => "can-activate-accel",
            Signal::WidgetChildNotify => "child-notify",
            Signal::WidgetCompositedChanged => "composited-changed",
            Signal::WidgetConfigureEvent => "configure-event",
            Signal::WidgetDamageEvent => "damage-event",
            Signal::WidgetDeleteEvent => "delete-event",
            Signal::WidgetDestroy => "destroy",
            Signal::WidgetDestroyEvent => "destroy-event",
            Signal::WidgetDirectionChanged => "direction-changed",
            Signal::WidgetDraw => "draw",
            Signal::WidgetEnterNotifyEvent => "enter-notify-event",
            Signal::WidgetEvent => "event",
            Signal::WidgetEventAfter => "event-after",
            Signal::WidgetFocus => "focus",
            Signal::WidgetFocusInEvent => "focus-in-event",
            Signal::WidgetFocusOutEvent => "focus-out-event",
            Signal::WidgetGrabBrokenEvent => "grab-broken-event",
            Signal::WidgetGrabFocus => "grab-focus",
            Signal::WidgetGrabNotify => "grab-notify",
            Signal::WidgetHide => "hide",
            Signal::WidgetKeyPressEvent => "key-press-event",
            Signal::WidgetKeyReleaseEvent => "key-release-event",
            Signal::WidgetKeynavFailed => "keynav-failed",
            Signal::WidgetMap => "map",
            Signal::WidgetMapEvent => "map-event",
            Signal::WidgetMnemonicActivate => "mnemonic-activate",
            Signal::WidgetMotionNotifyEvent => "motion-notify-event",
            Signal::WidgetMoveFocus => "move-focus",
            Signal::WidgetPopupMenu => "popup-menu",
            Signal::WidgetPropertyNotifyEvent => "property-notify-event",
            Signal::WidgetProximityInEvent => "proximity-in-event",
            Signal::WidgetProximityOutEvent => "proximity-out-event",
            Signal::WidgetQueryTooltip => "query-tooltip",
            Signal::WidgetRealize => "realize",
            Signal::WidgetScreenChanged => "screen-changed",
            Signal::WidgetScrollEvent => "scroll-event",
            Signal::WidgetShow => "show",
            Signal::WidgetShowHelp => "show-help",
            Signal::WidgetSizeAllocate => "size-allocate",
            Signal::WidgetStateFlagsChanged => "state-flags-changed",
            Signal::WidgetStyleUpdated => "style-updated",
            Signal::WidgetTouchEvent => "touch-event",
            Signal::WidgetUnmap => "unmap",
            Signal::WidgetUnmapEvent => "unmap-event",
            Signal::WidgetUnrealize => "unrealize",
            Signal::WidgetWindowStateEvent => "window-state-event",
            Signal::EntryActivate => "activate",
            Signal::EntryBackspace => "backspace",
            Signal::EntryCopyClipboard => "copy-clipboard",
            Signal::EntryCutClipboard => "cut-clipboard",
            Signal::EntryPasteClipboard => "paste-clipboard",
            Signal::EntryToggleOverwrite => "toggle-overwrite",
            Signal::EntryDeleteFromCursor => "delete-from-cursor",
            Signal::EntryMoveCursor => "move-cursor",
            Signal::EntryInsertAtCursor => "insert-at-cursor",
            Signal::EntryPreeditChanged => "preedit-changed",
            Signal::ButtonActivate => "activate",
            Signal::ButtonClicked => "clicked",
            Signal::ComboBoxChanged => "changed",
            Signal::ComboBoxMoveActive => "move-active",
            Signal::ComboBoxPopdown => "popdown",
            Signal::ComboBoxPopup => "popup",
            Signal::ToolButtonClicked => "clicked",
            Signal::SpinButtonValueChanged => "value-changed",
            Signal::SpinButtonWrapped => "wrapped",
            Signal::DialogClose => "close",
            Signal::DialogResponse => "response",
            Signal::TreeViewColumnsChanged => "columns-changed",
            Signal::TreeViewCursorChanged => "cursor-changed",
            Signal::TreeViewExpandCollapseCursorRow => "expand-collapse-cursor-row",
            Signal::TreeViewRowActivated => "row-activated",
            Signal::TreeViewRowCollapsed => "row-collapsed",
            Signal::TreeViewRowExpanded => "row-expanded",
            Signal::TreeViewSelectAll => "select-all",
            Signal::TreeViewSelectCursorParent => "select-cursor-parent",
            Signal::TreeViewSelectCursorRow => "select-cursor-row",
            Signal::TreeViewStartInteractiveSearch => "start-interactive-search",
            Signal::TreeViewTestCollapseRow => "test-collapse-row",
            Signal::TreeViewTestExpandRow => "test-expand-row",
            Signal::TreeViewToggleCursorRow => "toggle-cursor-row",
            Signal::TreeViewUnselectAll => "unselect-all",
            Signal::RangeAdjustBounds => "adjust-bounds",
            Signal::RangeChangeValue => "change-value",
            Signal::RangeMoveSlider => "move-slider",
            Signal::RangeValueChanged => "value-changed",
            Signal::TreeSelectionChanged => "changed",
            Signal::AdjustmentValueChanged => "value-changed",
            Signal::TreeViewColumnClicked => "clicked",
            Signal::ExpanderActivate => "activate",
        }
    }

    /// How each native argument after the object becomes the value the callback sees.
    pub open spec fn spec_arg_rules(self) -> Seq<ArgRule> {
        match self {
            Signal::WidgetNotify |
            Signal::WidgetButtonPressEvent |
            Signal::WidgetButtonReleaseEvent |
            Signal::WidgetChildNotify |
            Signal::WidgetConfigureEvent |
            Signal::WidgetDamageEvent |
            Signal::WidgetDeleteEvent |
            Signal::WidgetDestroyEvent |
            Signal::WidgetEnterNotifyEvent |
            Signal::WidgetEvent |
            Signal::WidgetEventAfter |
            Signal::WidgetFocusInEvent |
            Signal::WidgetFocusOutEvent |
            Signal::WidgetGrabBrokenEvent |
            Signal::WidgetKeyPressEvent |
            Signal::WidgetKeyReleaseEvent |
            Signal::WidgetMapEvent |
            Signal::WidgetMotionNotifyEvent |
            Signal::WidgetPropertyNotifyEvent |
            Signal::WidgetProximityInEvent |
            Signal::WidgetProximityOutEvent |
            Signal::WidgetScrollEvent |
            Signal::WidgetSizeAllocate |
            Signal::WidgetTouchEvent |
            Signal::WidgetUnmapEvent |
            Signal::WidgetWindowStateEvent => seq![ArgRule::Borrow],
            Signal::WidgetAccelClosuresChanged |
            Signal::WidgetCompositedChanged |
            Signal::WidgetDestroy |
            Signal::WidgetGrabFocus |
            Signal::WidgetHide |
            Signal::WidgetMap |
            Signal::WidgetPopupMenu |
            Signal::WidgetRealize |
            Signal::WidgetShow |
            Signal::WidgetStyleUpdated |
            Signal::WidgetUnmap |
            Signal::WidgetUnrealize |
            Signal::EntryActivate |
            Signal::EntryBackspace |
            Signal::EntryCopyClipboard |
            Signal::EntryCutClipboard |
            Signal::EntryPasteClipboard |
            Signal::EntryToggleOverwrite |
            Signal::ButtonActivate |
            Signal::ButtonClicked |
            Signal::ComboBoxChanged |
            Signal::ComboBoxPopdown |
            Signal::ComboBoxPopup |
            Signal::ToolButtonClicked |
            Signal::SpinButtonValueChanged |
            Signal::SpinButtonWrapped |
            Signal::DialogClose |
            Signal::TreeViewColumnsChanged |
            Signal::TreeViewCursorChanged |
            Signal::TreeViewSelectAll |
            Signal::TreeViewSelectCursorParent |
            Signal::TreeViewStartInteractiveSearch |
            Signal::TreeViewToggleCursorRow |
            Signal::TreeViewUnselectAll |
            Signal::RangeValueChanged |
            Signal::TreeSelectionChanged |
            Signal::AdjustmentValueChanged |
            Signal::TreeViewColumnClicked |
            Signal::ExpanderActivate => seq![],
            Signal::WidgetCanActivateAccel => seq![ArgRule::Widen],
            Signal::WidgetDirectionChanged |
            Signal::WidgetFocus |
            Signal::WidgetKeynavFailed |
            Signal::WidgetMoveFocus |
            Signal::WidgetShowHelp |
            Signal::WidgetStateFlagsChanged |
            Signal::ComboBoxMoveActive |
            Signal::DialogResponse |
            Signal::RangeMoveSlider => seq![ArgRule::Int],
            Signal::WidgetDraw => seq![ArgRule::Wrap(ObjectKind::CairoContext)],
            Signal::WidgetGrabNotify |
            Signal::WidgetMnemonicActivate |
            Signal::TreeViewSelectCursorRow => seq![ArgRule::FromGlib],
            Signal::WidgetQueryTooltip => seq![ArgRule::Int, ArgRule::Int, ArgRule::FromGlib, ArgRule::Wrap(ObjectKind::Tooltip)],
            Signal::WidgetScreenChanged => seq![ArgRule::Wrap(ObjectKind::Screen)],
            Signal::EntryDeleteFromCursor => seq![ArgRule::Int, ArgRule::Int],
            Signal::EntryMoveCursor => seq![ArgRule::Int, ArgRule::Int, ArgRule::FromGlib],
            Signal::EntryInsertAtCursor |
            Signal::EntryPreeditChanged => seq![ArgRule::Utf8],
            Signal::TreeViewExpandCollapseCursorRow => seq![ArgRule::FromGlib, ArgRule::FromGlib, ArgRule::FromGlib],
            Signal::TreeViewRowActivated => seq![ArgRule::Wrap(ObjectKind::TreePath), ArgRule::Wrap(ObjectKind::TreeViewColumn)],
            Signal::TreeViewRowCollapsed |
            Signal::TreeViewRowExpanded |
            Signal::TreeViewTestCollapseRow |
            Signal::TreeViewTestExpandRow => seq![ArgRule::Borrow, ArgRule::Wrap(ObjectKind::TreePath)],
            Signal::RangeAdjustBounds => seq![ArgRule::Double],
            Signal::RangeChangeValue => seq![ArgRule::Int, ArgRule::Double],
        }
    }

    /// How the callback's result goes back to the native side.
    pub open spec fn spec_ret_rule(self) -> RetRule {
        match self {
            Signal::WidgetNotify |
            Signal::WidgetAccelClosuresChanged |
            Signal::WidgetChildNotify |
            Signal::WidgetCompositedChanged |
            Signal::WidgetDestroy |
            Signal::WidgetDirectionChanged |
            Signal::WidgetEventAfter |
            Signal::WidgetGrabFocus |
            Signal::WidgetGrabNotify |
            Signal::WidgetHide |
            Signal::WidgetMap |
            Signal::WidgetMoveFocus |
            Signal::WidgetRealize |
            Signal::WidgetScreenChanged |
            Signal::WidgetShow |
            Signal::WidgetSizeAllocate |
            Signal::WidgetStateFlagsChanged |
            Signal::WidgetStyleUpdated |
            Signal::WidgetUnmap |
            Signal::WidgetUnrealize |
            Signal::EntryActivate |
            Signal::EntryBackspace |
            Signal::EntryCopyClipboard |
            Signal::EntryCutClipboard |
            Signal::EntryPasteClipboard |
            Signal::EntryToggleOverwrite |
            Signal::EntryDeleteFromCursor |
            Signal::EntryMoveCursor |
            Signal::EntryInsertAtCursor |
            Signal::EntryPreeditChanged |
            Signal::ButtonActivate |
            Signal::ButtonClicked |
            Signal::ComboBoxChanged |
            Signal::ComboBoxMoveActive |
            Signal::ComboBoxPopup |
            Signal::ToolButtonClicked |
            Signal::SpinButtonValueChanged |
            Signal::SpinButtonWrapped |
            Signal::DialogClose |
            Signal::DialogResponse |
            Signal::TreeViewColumnsChanged |
            Signal::TreeViewCursorChanged |
            Signal::TreeViewRowActivated |
            Signal::TreeViewRowCollapsed |
            Signal::TreeViewRowExpanded |
            Signal::RangeAdjustBounds |
            Signal::RangeMoveSlider |
            Signal::RangeValueChanged |
            Signal::TreeSelectionChanged |
            Signal::AdjustmentValueChanged |
            Signal::TreeViewColumnClicked |
            Signal::ExpanderActivate => RetRule::Void,
            Signal::WidgetButtonPressEvent |
            Signal::WidgetButtonReleaseEvent |
            Signal::WidgetConfigureEvent |
            Signal::WidgetDamageEvent |
            Signal::WidgetDeleteEvent |
            Signal::WidgetDestroyEvent |
            Signal::WidgetDraw |
            Signal::WidgetEnterNotifyEvent |
            Signal::WidgetEvent |
            Signal::WidgetFocus |
            Signal::WidgetFocusInEvent |
            Signal::WidgetFocusOutEvent |
            Signal::WidgetGrabBrokenEvent |
            Signal::WidgetKeyPressEvent |
            Signal::WidgetKeyReleaseEvent |
            Signal::WidgetKeynavFailed |
            Signal::WidgetMapEvent |
            Signal::WidgetMnemonicActivate |
            Signal::WidgetMotionNotifyEvent |
            Signal::WidgetPropertyNotifyEvent |
            Signal::WidgetProximityInEvent |
            Signal::WidgetProximityOutEvent |
            Signal::WidgetScrollEvent |
            Signal::WidgetTouchEvent |
            Signal::WidgetUnmapEvent |
            Signal::WidgetWindowStateEvent |
            Signal::RangeChangeValue => RetRule::Inhibit,
            Signal::WidgetCanActivateAccel |
            Signal::WidgetPopupMenu |
            Signal::WidgetQueryTooltip |
            Signal::WidgetShowHelp |
            Signal::ComboBoxPopdown |
            Signal::TreeViewExpandCollapseCursorRow |
            Signal::TreeViewSelectAll |
            Signal::TreeViewSelectCursorParent |
            Signal::TreeViewSelectCursorRow |
            Signal::TreeViewStartInteractiveSearch |
            Signal::TreeViewTestCollapseRow |
            Signal::TreeViewTestExpandRow |
            Signal::TreeViewToggleCursorRow |
            Signal::TreeViewUnselectAll => RetRule::Flag,
        }
    }

    /// The object category that declares this signal.
    pub fn owner(self) -> (r: ObjectKind)
        ensures
            r == self.spec_owner(),
    {
        match self {
            Signal::WidgetNotify |
            Signal::WidgetAccelClosuresChanged |
            Signal::WidgetButtonPressEvent |
            Signal::WidgetButtonReleaseEvent |
            Signal::WidgetCanActivateAccel |
            Signal::WidgetChildNotify |
            Signal::WidgetCompositedChanged |
            Signal::WidgetConfigureEvent |
            Signal::WidgetDamageEvent |
            Signal::WidgetDeleteEvent |
            Signal::WidgetDestroy |
            Signal::WidgetDestroyEvent |
            Signal::WidgetDirectionChanged |
            Signal::WidgetDraw |
            Signal::WidgetEnterNotifyEvent |
            Signal::WidgetEvent |
            Signal::WidgetEventAfter |
            Signal::WidgetFocus |
            Signal::WidgetFocusInEvent |
            Signal::WidgetFocusOutEvent |
            Signal::WidgetGrabBrokenEvent |
            Signal::WidgetGrabFocus |
            Signal::WidgetGrabNotify |
            Signal::WidgetHide |
            Signal::WidgetKeyPressEvent |
            Signal::WidgetKeyReleaseEvent |
            Signal::WidgetKeynavFailed |
            Signal::WidgetMap |
            Signal::WidgetMapEvent |
            Signal::WidgetMnemonicActivate |
            Signal::WidgetMotionNotifyEvent |
            Signal::WidgetMoveFocus |
            Signal::WidgetPopupMenu |
            Signal::WidgetPropertyNotifyEvent |
            Signal::WidgetProximityInEvent |
            Signal::WidgetProximityOutEvent |
            Signal::WidgetQueryTooltip |
            Signal::WidgetRealize |
            Signal::WidgetScreenChanged |
            Signal::WidgetScrollEvent |
            Signal::WidgetShow |
            Signal::WidgetShowHelp |
            Signal::WidgetSizeAllocate |
            Signal::WidgetStateFlagsChanged |
            Signal::WidgetStyleUpdated |
            Signal::WidgetTouchEvent |
            Signal::WidgetUnmap |
            Signal::WidgetUnmapEvent |
            Signal::WidgetUnrealize |
            Signal::WidgetWindowStateEvent => ObjectKind::Widget,
            Signal::EntryActivate |
            Signal::EntryBackspace |
            Signal::EntryCopyClipboard |
            Signal::EntryCutClipboard |
            Signal::EntryPasteClipboard |
            Signal::EntryToggleOverwrite |
            Signal::EntryDeleteFromCursor |
            Signal::EntryMoveCursor |
            Signal::EntryInsertAtCursor |
            Signal::EntryPreeditChanged => ObjectKind::Entry,
            Signal::ButtonActivate |
            Signal::ButtonClicked => ObjectKind::Button,
            Signal::ComboBoxChanged |
            Signal::ComboBoxMoveActive |
            Signal::ComboBoxPopdown |
            Signal::ComboBoxPopup => ObjectKind::ComboBox,
            Signal::ToolButtonClicked => ObjectKind::ToolButton,
            Signal::SpinButtonValueChanged |
            Signal::SpinButtonWrapped => ObjectKind::SpinButton,
            Signal::DialogClose |
            Signal::DialogResponse => ObjectKind::Dialog,
            Signal::TreeViewColumnsChanged |
            Signal::TreeViewCursorChanged |
            Signal::TreeViewExpandCollapseCursorRow |
            Signal::TreeViewRowActivated |
            Signal::TreeViewRowCollapsed |
            Signal::TreeViewRowExpanded |
            Signal::TreeViewSelectAll |
            Signal::TreeViewSelectCursorParent |
            Signal::TreeViewSelectCursorRow |
            Signal::TreeViewStartInteractiveSearch |
            Signal::TreeViewTestCollapseRow |
            Signal::TreeViewTestExpandRow |
            Signal::TreeViewToggleCursorRow |
            Signal::TreeViewUnselectAll => ObjectKind::TreeView,
            Signal::RangeAdjustBounds |
            Signal::RangeChangeValue |
            Signal::RangeMoveSlider |
            Signal::RangeValueChanged => ObjectKind::Range,
            Signal::TreeSelectionChanged => ObjectKind::TreeSelection,
            Signal::AdjustmentValueChanged => ObjectKind::Adjustment,
            Signal::TreeViewColumnClicked => ObjectKind::TreeViewColumn,
            Signal::ExpanderActivate => ObjectKind::Expander,
        }
    }

    /// The signal's name in the native toolkit.
    pub fn name(self) -> (r: &'static str)
        ensures
            r == self.spec_name(),
    {
        match self {
            Signal::WidgetNotify => "notify",
            Signal::WidgetAccelClosuresChanged => "accel-closures-changed",
            Signal::WidgetButtonPressEvent => "button-press-event",
            Signal::WidgetButtonReleaseEvent => "button-release-event",
            Signal::WidgetCanActivateAccel => "can-activate-accel",
            Signal::WidgetChildNotify => "child-notify",
            Signal::WidgetCompositedChanged => "composited-changed",
            Signal::WidgetConfigureEvent => "configure-event",
            Signal::WidgetDamageEvent => "damage-event",
            Signal::WidgetDeleteEvent => "delete-event",
            Signal::WidgetDestroy => "destroy",
            Signal::WidgetDestroyEvent => "destroy-event",
            Signal::WidgetDirectionChanged => "direction-changed",
            Signal::WidgetDraw => "draw",
            Signal::WidgetEnterNotifyEvent => "enter-notify-event",
            Signal::WidgetEvent => "event",
            Signal::WidgetEventAfter => "event-after",
            Signal::WidgetFocus => "focus",
            Signal::WidgetFocusInEvent => "focus-in-event",
            Signal::WidgetFocusOutEvent => "focus-out-event",
            Signal::WidgetGrabBrokenEvent => "grab-broken-event",
            Signal::WidgetGrabFocus => "grab-focus",
            Signal::WidgetGrabNotify => "grab-notify",
            Signal::WidgetHide => "hide",
            Signal::WidgetKeyPressEvent => "key-press-event",
            Signal::WidgetKeyReleaseEvent => "key-release-event",
            Signal::WidgetKeynavFailed => "keynav-failed",
            Signal::WidgetMap => "map",
            Signal::WidgetMapEvent => "map-event",
            Signal::WidgetMnemonicActivate => "mnemonic-activate",
            Signal::WidgetMotionNotifyEvent => "motion-notify-event",
            Signal::WidgetMoveFocus => "move-focus",
            Signal::WidgetPopupMenu => "popup-menu",
            Signal::WidgetPropertyNotifyEvent => "property-notify-event",
            Signal::WidgetProximityInEvent => "proximity-in-event",
            Signal::WidgetProximityOutEvent => "proximity-out-event",
            Signal::WidgetQueryTooltip => "query-tooltip",
            Signal::WidgetRealize => "realize",
            Signal::WidgetScreenChanged => "screen-changed",
            Signal::WidgetScrollEvent => "scroll-event",
            Signal::WidgetShow => "show",
            Signal::WidgetShowHelp => "show-help",
            Signal::WidgetSizeAllocate => "size-allocate",
            Signal::WidgetStateFlagsChanged => "state-flags-changed",
            Signal::WidgetStyleUpdated => "style-updated",
            Signal::WidgetTouchEvent => "touch-event",
            Signal::WidgetUnmap => "unmap",
            Signal::WidgetUnmapEvent => "unmap-event",
            Signal::WidgetUnrealize => "unrealize",
            Signal::WidgetWindowStateEvent => "window-state-event",
            Signal::EntryActivate => "activate",
            Signal::EntryBackspace => "backspace",
            Signal::EntryCopyClipboard => "copy-clipboard",
            Signal::EntryCutClipboard => "cut-clipboard",
            Signal::EntryPasteClipboard => "paste-clipboard",
            Signal::EntryToggleOverwrite => "toggle-overwrite",
            Signal::EntryDeleteFromCursor => "delete-from-cursor",
            Signal::EntryMoveCursor => "move-cursor",
            Signal::EntryInsertAtCursor => "insert-at-cursor",
            Signal::EntryPreeditChanged => "preedit-changed",
            Signal::ButtonActivate => "activate",
            Signal::ButtonClicked => "clicked",
            Signal::ComboBoxChanged => "changed",
            Signal::ComboBoxMoveActive => "move-active",
            Signal::ComboBoxPopdown => "popdown",
            Signal::ComboBoxPopup => "popup",
            Signal::ToolButtonClicked => "clicked",
            Signal::SpinButtonValueChanged => "value-changed",
            Signal::SpinButtonWrapped => "wrapped",
            Signal::DialogClose => "close",
            Signal::DialogResponse => "response",
            Signal::TreeViewColumnsChanged => "columns-changed",
            Signal::TreeViewCursorChanged => "cursor-changed",
            Signal::TreeViewExpandCollapseCursorRow => "expand-collapse-cursor-row",
            Signal::TreeViewRowActivated => "row-activated",
            Signal::TreeViewRowCollapsed => "row-collapsed",
            Signal::TreeViewRowExpanded => "row-expanded",
            Signal::TreeViewSelectAll => "select-all",
            Signal::TreeViewSelectCursorParent => "select-cursor-parent",
            Signal::TreeViewSelectCursorRow => "select-cursor-row",
            Signal::TreeViewStartInteractiveSearch => "start-interactive-search",
            Signal::TreeViewTestCollapseRow => "test-collapse-row",
            Signal::TreeViewTestExpandRow => "test-expand-row",
            Signal::TreeViewToggleCursorRow => "toggle-cursor-row",
            Signal::TreeViewUnselectAll => "unselect-all",
            Signal::RangeAdjustBounds => "adjust-bounds",
            Signal::RangeChangeValue => "change-value",
            Signal::RangeMoveSlider => "move-slider",
            Signal::RangeValueChanged => "value-changed",
            Signal::TreeSelectionChanged => "changed",
            Signal::AdjustmentValueChanged => "value-changed",
            Signal::TreeViewColumnClicked => "clicked",
            Signal::ExpanderActivate => "activate",
        }
    }

    /// How each native argument after the object becomes the value the callback sees.
    pub fn arg_rules(self) -> (r: Vec<ArgRule>)
        ensures
            r@ == self.spec_arg_rules(),
    {
        match self {
            Signal::WidgetNotify |
            Signal::WidgetButtonPressEvent |
            Signal::WidgetButtonReleaseEvent |
            Signal::WidgetChildNotify |
            Signal::WidgetConfigureEvent |
            Signal::WidgetDamageEvent |
            Signal::WidgetDeleteEvent |
            Signal::WidgetDestroyEvent |
            Signal::WidgetEnterNotifyEvent |
            Signal::WidgetEvent |
            Signal::WidgetEventAfter |
            Signal::WidgetFocusInEvent |
            Signal::WidgetFocusOutEvent |
            Signal::WidgetGrabBrokenEvent |
            Signal::WidgetKeyPressEvent |
            Signal::WidgetKeyReleaseEvent |
            Signal::WidgetMapEvent |
            Signal::WidgetMotionNotifyEvent |
            Signal::WidgetPropertyNotifyEvent |
            Signal::WidgetProximityInEvent |
            Signal::WidgetProximityOutEvent |
            Signal::WidgetScrollEvent |
            Signal::WidgetSizeAllocate |
            Signal::WidgetTouchEvent |
            Signal::WidgetUnmapEvent |
            Signal::WidgetWindowStateEvent => vec![ArgRule::Borrow],
            Signal::WidgetAccelClosuresChanged |
            Signal::WidgetCompositedChanged |
            Signal::WidgetDestroy |
            Signal::WidgetGrabFocus |
            Signal::WidgetHide |
            Signal::WidgetMap |
            Signal::WidgetPopupMenu |
            Signal::WidgetRealize |
            Signal::WidgetShow |
            Signal::WidgetStyleUpdated |
            Signal::WidgetUnmap |
            Signal::WidgetUnrealize |
            Signal::EntryActivate |
            Signal::EntryBackspace |
            Signal::EntryCopyClipboard |
            Signal::EntryCutClipboard |
            Signal::EntryPasteClipboard |
            Signal::EntryToggleOverwrite |
            Signal::ButtonActivate |
            Signal::ButtonClicked |
            Signal::ComboBoxChanged |
            Signal::ComboBoxPopdown |
            Signal::ComboBoxPopup |
            Signal::ToolButtonClicked |
            Signal::SpinButtonValueChanged |
            Signal::SpinButtonWrapped |
            Signal::DialogClose |
            Signal::TreeViewColumnsChanged |
            Signal::TreeViewCursorChanged |
            Signal::TreeViewSelectAll |
            Signal::TreeViewSelectCursorParent |
            Signal::TreeViewStartInteractiveSearch |
            Signal::TreeViewToggleCursorRow |
            Signal::TreeViewUnselectAll |
            Signal::RangeValueChanged |
            Signal::TreeSelectionChanged |
            Signal::AdjustmentValueChanged |
            Signal::TreeViewColumnClicked |
            Signal::ExpanderActivate => vec![],
            Signal::WidgetCanActivateAccel => vec![ArgRule::Widen],
            Signal::WidgetDirectionChanged |
            Signal::WidgetFocus |
            Signal::WidgetKeynavFailed |
            Signal::WidgetMoveFocus |
            Signal::WidgetShowHelp |
            Signal::WidgetStateFlagsChanged |
            Signal::ComboBoxMoveActive |
            Signal::DialogResponse |
            Signal::RangeMoveSlider => vec![ArgRule::Int],
            Signal::WidgetDraw => vec![ArgRule::Wrap(ObjectKind::CairoContext)],
            Signal::WidgetGrabNotify |
            Signal::WidgetMnemonicActivate |
            Signal::TreeViewSelectCursorRow => vec![ArgRule::FromGlib],
            Signal::WidgetQueryTooltip => vec![ArgRule::Int, ArgRule::Int, ArgRule::FromGlib, ArgRule::Wrap(ObjectKind::Tooltip)],
            Signal::WidgetScreenChanged => vec![ArgRule::Wrap(ObjectKind::Screen)],
            Signal::EntryDeleteFromCursor => vec![ArgRule::Int, ArgRule::Int],
            Signal::EntryMoveCursor => vec![ArgRule::Int, ArgRule::Int, ArgRule::FromGlib],
            Signal::EntryInsertAtCursor |
            Signal::EntryPreeditChanged => vec![ArgRule::Utf8],
            Signal::TreeViewExpandCollapseCursorRow => vec![ArgRule::FromGlib, ArgRule::FromGlib, ArgRule::FromGlib],
            Signal::TreeViewRowActivated => vec![ArgRule::Wrap(ObjectKind::TreePath), ArgRule::Wrap(ObjectKind::TreeViewColumn)],
            Signal::TreeViewRowCollapsed |
            Signal::TreeViewRowExpanded |
            Signal::TreeViewTestCollapseRow |
            Signal::TreeViewTestExpandRow => vec![ArgRule::Borrow, ArgRule::Wrap(ObjectKind::TreePath)],
            Signal::RangeAdjustBounds => vec![ArgRule::Double],
            Signal::RangeChangeValue => vec![ArgRule::Int, ArgRule::Double],
        }
    }

    /// How the callback's result goes back to the native side.
    pub fn ret_rule(self) -> (r: RetRule)
        ensures
            r == self.spec_ret_rule(),
    {
        match self {
            Signal::WidgetNotify |
            Signal::WidgetAccelClosuresChanged |
            Signal::WidgetChildNotify |
            Signal::WidgetCompositedChanged |
            Signal::WidgetDestroy |
            Signal::WidgetDirectionChanged |
            Signal::WidgetEventAfter |
            Signal::WidgetGrabFocus |
            Signal::WidgetGrabNotify |
            Signal::WidgetHide |
            Signal::WidgetMap |
            Signal::WidgetMoveFocus |
            Signal::WidgetRealize |
            Signal::WidgetScreenChanged |
            Signal::WidgetShow |
            Signal::WidgetSizeAllocate |
            Signal::WidgetStateFlagsChanged |
            Signal::WidgetStyleUpdated |
            Signal::WidgetUnmap |
            Signal::WidgetUnrealize |
            Signal::EntryActivate |
            Signal::EntryBackspace |
            Signal::EntryCopyClipboard |
            Signal::EntryCutClipboard |
            Signal::EntryPasteClipboard |
            Signal::EntryToggleOverwrite |
            Signal::EntryDeleteFromCursor |
            Signal::EntryMoveCursor |
            Signal::EntryInsertAtCursor |
            Signal::EntryPreeditChanged |
            Signal::ButtonActivate |
            Signal::ButtonClicked |
            Signal::ComboBoxChanged |
            Signal::ComboBoxMoveActive |
            Signal::ComboBoxPopup |
            Signal::ToolButtonClicked |
            Signal::SpinButtonValueChanged |
            Signal::SpinButtonWrapped |
            Signal::DialogClose |
            Signal::DialogResponse |
            Signal::TreeViewColumnsChanged |
            Signal::TreeViewCursorChanged |
            Signal::TreeViewRowActivated |
            Signal::TreeViewRowCollapsed |
            Signal::TreeViewRowExpanded |
            Signal::RangeAdjustBounds |
            Signal::RangeMoveSlider |
            Signal::RangeValueChanged |
            Signal::TreeSelectionChanged |
            Signal::AdjustmentValueChanged |
            Signal::TreeViewColumnClicked |
            Signal::ExpanderActivate => RetRule::Void,
            Signal::WidgetButtonPressEvent |
            Signal::WidgetButtonReleaseEvent |
            Signal::WidgetConfigureEvent |
            Signal::WidgetDamageEvent |
            Signal::WidgetDeleteEvent |
            Signal::WidgetDestroyEvent |
            Signal::WidgetDraw |
            Signal::WidgetEnterNotifyEvent |
            Signal::WidgetEvent |
            Signal::WidgetFocus |
            Signal::WidgetFocusInEvent |
            Signal::WidgetFocusOutEvent |
            Signal::WidgetGrabBrokenEvent |
            Signal::WidgetKeyPressEvent |
            Signal::WidgetKeyReleaseEvent |
            Signal::WidgetKeynavFailed |
            Signal::WidgetMapEvent |
            Signal::WidgetMnemonicActivate |
            Signal::WidgetMotionNotifyEvent |
            Signal::WidgetPropertyNotifyEvent |
            Signal::WidgetProximityInEvent |
            Signal::WidgetProximityOutEvent |
            Signal::WidgetScrollEvent |
            Signal::WidgetTouchEvent |
            Signal::WidgetUnmapEvent |
            Signal::WidgetWindowStateEvent |
            Signal::RangeChangeValue => RetRule::Inhibit,
            Signal::WidgetCanActivateAccel |
            Signal::WidgetPopupMenu |
            Signal::WidgetQueryTooltip |
            Signal::WidgetShowHelp |
            Signal::ComboBoxPopdown |
            Signal::TreeViewExpandCollapseCursorRow |
            Signal::TreeViewSelectAll |
            Signal::TreeViewSelectCursorParent |
            Signal::TreeViewSelectCursorRow |
            Signal::TreeViewStartInteractiveSearch |
            Signal::TreeViewTestCollapseRow |
            Signal::TreeViewTestExpandRow |
            Signal::TreeViewToggleCursorRow |
            Signal::TreeViewUnselectAll => RetRule::Flag,
        }
    }
}

/// Whether `rule` can read the native argument `v`.
pub open spec fn arg_accepts(rule: ArgRule, v: NativeValue) -> bool {
    match (rule, v) {
        (ArgRule::Int, NativeValue::Int(_)) => true,
        (ArgRule::Double, NativeValue::Double(_)) => true,
        (ArgRule::Widen, NativeValue::UInt(_)) => true,
        (ArgRule::FromGlib, NativeValue::Flag(_)) => true,
        (ArgRule::Wrap(_), NativeValue::Pointer(_)) => true,
        (ArgRule::Borrow, NativeValue::Pointer(_)) => true,
        (ArgRule::Utf8, NativeValue::Text(b)) => valid_utf8(c_prefix(b@)),
        _ => false,
    }
}

/// Whether `h` is what the callback sees for the native argument `v` under `rule`.
pub open spec fn arg_converts(rule: ArgRule, v: NativeValue, h: HostValue) -> bool {
    match (rule, v) {
        (ArgRule::Int, NativeValue::Int(x)) => h == HostValue::Int(x),
        (ArgRule::Double, NativeValue::Double(x)) => h == HostValue::Double(x),
        (ArgRule::Widen, NativeValue::UInt(x)) => h == HostValue::Long(x as u64),
        (ArgRule::FromGlib, NativeValue::Flag(x)) => h == HostValue::Bool(bool_of(x)),
        (ArgRule::Wrap(k), NativeValue::Pointer(p)) => h == HostValue::Object(
            ObjectRef { kind: k, addr: p },
        ),
        (ArgRule::Borrow, NativeValue::Pointer(p)) => h == HostValue::Borrowed(p),
        (ArgRule::Utf8, NativeValue::Text(b)) => match h {
            HostValue::Text(s) => s@ == decode_utf8(c_prefix(b@)),
            _ => false,
        },
        _ => false,
    }
}

/// The error for an argument at position `i` that `rule` cannot read.
pub open spec fn arg_error(rule: ArgRule, v: NativeValue, i: usize) -> TrampolineError {
    if rule == ArgRule::Utf8 && v is Text {
        TrampolineError::InvalidText(i)
    } else {
        TrampolineError::BadArgument(i)
    }
}

/// Whether every argument can be read by the rule at its position.
pub open spec fn args_accepted(rules: Seq<ArgRule>, vs: Seq<NativeValue>) -> bool {
    rules.len() == vs.len() && forall|i: int| 0 <= i < vs.len() ==> arg_accepts(rules[i], vs[i])
}

/// Whether `hs` is what the callback sees for the native arguments `vs`.
pub open spec fn args_convert(rules: Seq<ArgRule>, vs: Seq<NativeValue>, hs: Seq<HostValue>) -> bool {
    rules.len() == vs.len() && hs.len() == vs.len() && forall|i: int|
        0 <= i < vs.len() ==> arg_converts(rules[i], vs[i], #[trigger] hs[i])
}

/// Whether `e` is the error for arguments that cannot all be read: a count other
/// than the signal's, or else the first argument that its rule cannot read.
pub open spec fn args_failure(rules: Seq<ArgRule>, vs: Seq<NativeValue>, e: TrampolineError) -> bool {
    if rules.len() != vs.len() {
        e == TrampolineError::WrongArity
    } else {
        exists|i: int|
            0 <= i < vs.len() && (forall|j: int| 0 <= j < i ==> arg_accepts(rules[j], vs[j]))
                && !arg_accepts(rules[i], vs[i]) && e == arg_error(rules[i], vs[i], i as usize)
    }
}

/// What goes back to the native side for the callback's result `h`, if `rule`
/// can encode it.
pub open spec fn ret_converts(rule: RetRule, h: HostValue) -> Option<NativeValue> {
    match (rule, h) {
        (RetRule::Void, HostValue::Unit) => Some(NativeValue::Void),
        (RetRule::Flag, HostValue::Bool(b)) => Some(NativeValue::Flag(flag_of(b))),
        (RetRule::Inhibit, HostValue::Inhibit(i)) => Some(NativeValue::Flag(flag_of(i.0))),
        _ => None,
    }
}

/// The outcome of handing the callback's result `h` back under `rule`.
pub open spec fn ret_outcome(rule: RetRule, h: HostValue) -> Result<NativeValue, TrampolineError> {
    match ret_converts(rule, h) {
        Some(n) => Ok(n),
        None => Err(TrampolineError::BadReturn),
    }
}

/// The handle that a callback of `signal` receives for the emitting object at `addr`:
/// the object seen as the category that declares the signal.
pub open spec fn instance_of(signal: Signal, addr: u64) -> ObjectRef {
    ObjectRef { kind: signal.spec_owner(), addr }
}

/// Whether `r` is an outcome of one emission of `signal` on the object at `this`
/// with native arguments `args`, delivered to the callback `f`: an argument error
/// when the arguments cannot be read, and otherwise the encoded result of one
/// call of `f` on the converted arguments.
pub open spec fn dispatched<F: Fn(ObjectRef, Vec<HostValue>) -> HostValue>(
    signal: Signal,
    this: u64,
    args: Seq<NativeValue>,
    f: F,
    r: Result<NativeValue, TrampolineError>,
) -> bool {
    let rules = signal.spec_arg_rules();
    if !args_accepted(rules, args) {
        r is Err && args_failure(rules, args, r->Err_0)
    } else {
        exists|hs: Vec<HostValue>, out: HostValue|
            #![trigger call_ensures(f, (instance_of(signal, this), hs), out)]
            args_convert(rules, args, hs@) && call_ensures(f, (instance_of(signal, this), hs), out)
                && r == ret_outcome(signal.spec_ret_rule(), out)
    }
}

/// Converts one native argument under `rule`; `None` when the rule cannot read it.
pub fn convert_arg(rule: ArgRule, v: &NativeValue) -> (r: Option<HostValue>)
    ensures
        r is Some <==> arg_accepts(rule, *v),
        r is Some ==> arg_converts(rule, *v, r->Some_0),
{
    match (rule, v) {
        (ArgRule::Int, NativeValue::Int(x)) => Some(HostValue::Int(*x)),
        (ArgRule::Double, NativeValue::Double(x)) => Some(HostValue::Double(*x)),
        (ArgRule::Widen, NativeValue::UInt(x)) => Some(HostValue::Long(*x as u64)),
        (ArgRule::FromGlib, NativeValue::Flag(x)) => Some(HostValue::Bool(bool_from_glib(*x))),
        (ArgRule::Wrap(k), NativeValue::Pointer(p)) => Some(
            HostValue::Object(ObjectRef { kind: k, addr: *p }),
        ),
        (ArgRule::Borrow, NativeValue::Pointer(p)) => Some(HostValue::Borrowed(*p)),
        (ArgRule::Utf8, NativeValue::Text(b)) => match text_from_c_buffer(b.as_slice()) {
            Some(s) => Some(HostValue::Text(s)),
            None => None,
        },
        _ => None,
    }
}

/// Converts the native arguments of one emission, each under the rule at its
/// position.
pub fn convert_args(rules: &Vec<ArgRule>, vs: &Vec<NativeValue>) -> (r: Result<
    Vec<HostValue>,
    TrampolineError,
>)
    ensures
        r is Ok <==> args_accepted(rules@, vs@),
        r is Ok ==> args_convert(rules@, vs@, r->Ok_0@),
        r is Err ==> args_failure(rules@, vs@, r->Err_0),
{
    if rules.len() != vs.len() {
        return Err(TrampolineError::WrongArity);
    }
    let mut hs: Vec<HostValue> = Vec::new();
    let mut i: usize = 0;
    while i < vs.len()
        invariant
            rules@.len() == vs@.len(),
            0 <= i <= vs@.len(),
            hs@.len() == i,
            forall|j: int| 0 <= j < i ==> arg_accepts(rules@[j], vs@[j]),
            forall|j: int| 0 <= j < i ==> arg_converts(rules@[j], vs@[j], #[trigger] hs@[j]),
        decreases vs@.len() - i,
    {
        match convert_arg(rules[i], &vs[i]) {
            Some(h) => {
                hs.push(h);
            },
            None => {
                let e = if rules[i] == ArgRule::Utf8 && matches!(vs[i], NativeValue::Text(_)) {
                    TrampolineError::InvalidText(i)
                } else {
                    TrampolineError::BadArgument(i)
                };
                proof {
                    assert(e == arg_error(rules@[i as int], vs@[i as int], i));
                }
                return Err(e);
            },
        }
        i = i + 1;
    }
    Ok(hs)
}

/// Encodes a callback's result under `rule`.
pub fn convert_return(rule: RetRule, h: HostValue) -> (r: Result<NativeValue, TrampolineError>)
    ensures
        r == ret_outcome(rule, h),
{
    match (rule, h) {
        (RetRule::Void, HostValue::Unit) => Ok(NativeValue::Void),
        (RetRule::Flag, HostValue::Bool(b)) => Ok(NativeValue::Flag(bool_to_glib(b))),
        (RetRule::Inhibit, HostValue::Inhibit(i)) => Ok(NativeValue::Flag(i.to_glib())),
        _ => Err(TrampolineError::BadReturn),
    }
}

/// The trampoline of one emission: reads the native arguments under the signal's
/// rules, calls `f` once with the emitting object and the converted arguments, and
/// encodes its result for the native side.
pub fn invoke<F: Fn(ObjectRef, Vec<HostValue>) -> HostValue>(
    signal: Signal,
    this: u64,
    args: &Vec<NativeValue>,
    f: &F,
) -> (r: Result<NativeValue, TrampolineError>)
    requires
        forall|o: ObjectRef, a: Vec<HostValue>| call_requires(*f, (o, a)),
    ensures
        dispatched(signal, this, args@, *f, r),
{
    let rules = signal.arg_rules();
    match convert_args(&rules, args) {
        Ok(hs) => {
            let ghost hs_view = hs@;
            let instance = ObjectRef { kind: signal.owner(), addr: this };
            let out = f(instance, hs);
            let r = convert_return(signal.ret_rule(), out);
            proof {
                assert(args_convert(rules@, args@, hs_view));
            }
            r
        },
        Err(e) => Err(e),
    }
}

/// For a signal whose callback answers whether to stop propagation, the answer
/// "stop" (`Inhibit(true)`) goes back as the native "handled" value TRUE, and
/// "continue" (`Inhibit(false)`) as FALSE, after which the native side offers the
/// event to further handlers.
pub proof fn lemma_stop_is_handled(signal: Signal)
    requires
        signal.spec_ret_rule() == RetRule::Inhibit,
    ensures
        ret_outcome(signal.spec_ret_rule(), HostValue::Inhibit(Inhibit(true))) == Ok::<
            NativeValue,
            TrampolineError,
        >(NativeValue::Flag(GTRUE)),
        ret_outcome(signal.spec_ret_rule(), HostValue::Inhibit(Inhibit(false))) == Ok::<
            NativeValue,
            TrampolineError,
        >(NativeValue::Flag(GFALSE)),
{
}

} // verus!
