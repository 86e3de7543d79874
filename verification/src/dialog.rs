//! The dialog side of the binding: the rich dialog items a plugin builds,
//! their translation into the flat records the host lays out, and the codec
//! for the dialog procedure's messages.

use crate::common::string::WideString;
use crate::farapi::FarApi;
use crate::ffi;
use crate::ffi::HANDLE;
use crate::Error;
use vstd::prelude::*;

verus! {

/// The selected state of a plain button.
pub enum ButtonSelection {
    Deselected,
    Selected,
}

impl ButtonSelection {
    pub open spec fn value_spec(&self) -> u8 {
        match self {
            ButtonSelection::Deselected => 0,
            ButtonSelection::Selected => 1,
        }
    }

    /// Reads a selection byte; only the two defined values are readable.
    pub fn from(value: u8) -> (r: ButtonSelection)
        requires
            value <= 1,
        ensures
            r.value_spec() == value,
    {
        if value == 0 {
            ButtonSelection::Deselected
        } else {
            ButtonSelection::Selected
        }
    }

    pub fn into(self) -> (r: DialogItemSelection)
        ensures
            r.value == self.value_spec(),
    {
        DialogItemSelection { value: self.value() }
    }

    pub fn value(&self) -> (r: u8)
        ensures
            r == self.value_spec(),
    {
        match self {
            ButtonSelection::Deselected => 0,
            ButtonSelection::Selected => 1,
        }
    }
}

/// The selected state of a check box, which may also be indeterminate.
pub enum CheckBoxSelection {
    Deselected,
    Selected,
    Undefined,
}

impl CheckBoxSelection {
    pub open spec fn value_spec(&self) -> u8 {
        match self {
            CheckBoxSelection::Deselected => 0,
            CheckBoxSelection::Selected => 1,
            CheckBoxSelection::Undefined => 2,
        }
    }

    /// Reads a selection byte; only the three defined values are readable.
    pub fn from(value: u8) -> (r: CheckBoxSelection)
        requires
            value <= 2,
        ensures
            r.value_spec() == value,
    {
        if value == 0 {
            CheckBoxSelection::Deselected
        } else if value == 1 {
            CheckBoxSelection::Selected
        } else {
            CheckBoxSelection::Undefined
        }
    }

    pub fn into(self) -> (r: DialogItemSelection)
        ensures
            r.value == self.value_spec(),
    {
        DialogItemSelection { value: self.value() }
    }

    pub fn value(&self) -> (r: u8)
        ensures
            r == self.value_spec(),
    {
        match self {
            CheckBoxSelection::Deselected => 0,
            CheckBoxSelection::Selected => 1,
            CheckBoxSelection::Undefined => 2,
        }
    }
}

/// The selected state of a radio button.
pub enum RadioButtonSelection {
    Previous,
    Active,
}

impl RadioButtonSelection {
    pub open spec fn value_spec(&self) -> u8 {
        match self {
            RadioButtonSelection::Previous => 0,
            RadioButtonSelection::Active => 1,
        }
    }

    /// Reads a selection byte; only the two defined values are readable.
    pub fn from(value: u8) -> (r: RadioButtonSelection)
        requires
            value <= 1,
        ensures
            r.value_spec() == value,
    {
        if value == 0 {
            RadioButtonSelection::Previous
        } else {
            RadioButtonSelection::Active
        }
    }

    pub fn into(self) -> (r: DialogItemSelection)
        ensures
            r.value == self.value_spec(),
    {
        DialogItemSelection { value: self.value() }
    }

    pub fn value(&self) -> (r: u8)
        ensures
            r == self.value_spec(),
    {
        match self {
            RadioButtonSelection::Previous => 0,
            RadioButtonSelection::Active => 1,
        }
    }
}

/// The selection byte of a dialog item as it crosses the ABI, before its
/// reading as a button, check-box or radio-button state.
#[derive(Clone, Copy, PartialEq, Eq, Structural, Debug)]
pub struct DialogItemSelection {
    pub value: u8,
}

impl DialogItemSelection {
    pub fn as_raw(self) -> (r: u8)
        ensures
            r == self.value,
    {
        self.value
    }

    pub fn as_button(self) -> (r: CheckBoxSelection)
        requires
            self.value <= 2,
        ensures
            r.value_spec() == self.value,
    {
        CheckBoxSelection::from(self.value)
    }

    pub fn as_check_box(self) -> (r: CheckBoxSelection)
        requires
            self.value <= 2,
        ensures
            r.value_spec() == self.value,
    {
        CheckBoxSelection::from(self.value)
    }

    pub fn as_radio_button(self) -> (r: RadioButtonSelection)
        requires
            self.value <= 1,
        ensures
            r.value_spec() == self.value,
    {
        RadioButtonSelection::from(self.value)
    }
}

/// A flat dialog item of the shape the host lays out: each text pointer is
/// modelled by the owned buffer it leads to, `None` standing for null.
pub struct RawFarDialogItem {
    pub item_type: ffi::FARDIALOGITEMTYPES,
    pub x1: isize,
    pub y1: isize,
    pub x2: isize,
    pub y2: isize,
    pub param_selected: isize,
    pub history: Option<WideString>,
    pub mask: Option<WideString>,
    pub flags: u64,
    pub data: Option<WideString>,
    pub max_length: usize,
    pub user_data: isize,
}

/// What a flat dialog item holds.
pub ghost struct RawFarDialogItemView {
    pub item_type: ffi::FARDIALOGITEMTYPES,
    pub x1: isize,
    pub y1: isize,
    pub x2: isize,
    pub y2: isize,
    pub param_selected: isize,
    pub history: Option<Seq<u16>>,
    pub mask: Option<Seq<u16>>,
    pub flags: u64,
    pub data: Option<Seq<u16>>,
    pub max_length: usize,
    pub user_data: isize,
}

/// The buffer contents of an optional owned buffer.
pub open spec fn opt_units(o: Option<WideString>) -> Option<Seq<u16>> {
    match o {
        Some(w) => Some(w@),
        None => None,
    }
}

impl View for RawFarDialogItem {
    type V = RawFarDialogItemView;

    open spec fn view(&self) -> RawFarDialogItemView {
        RawFarDialogItemView {
            item_type: self.item_type,
            x1: self.x1,
            y1: self.y1,
            x2: self.x2,
            y2: self.y2,
            param_selected: self.param_selected,
            history: opt_units(self.history),
            mask: opt_units(self.mask),
            flags: self.flags,
            data: opt_units(self.data),
            max_length: self.max_length,
            user_data: self.user_data,
        }
    }
}

/// A dialog item as a plugin builds it: one variant per control kind, the
/// geometry written the way that control reads it.
pub enum FarDialogItem {
    CheckBox { x: isize, y: isize, selected: DialogItemSelection, flags: u64, text: WideString },
    Text {
        x1: isize,
        y: isize,
        x2: isize,
        mask: Option<WideString>,
        flags: u64,
        text: Option<WideString>,
    },
    VText {
        x: isize,
        y1: isize,
        y2: isize,
        mask: Option<WideString>,
        flags: u64,
        text: Option<WideString>,
    },
    SingleBox { x1: isize, y1: isize, x2: isize, y2: isize, flags: u64, title: Option<WideString> },
    DoubleBox { x1: isize, y1: isize, x2: isize, y2: isize, flags: u64, title: Option<WideString> },
    Edit {
        x1: isize,
        y: isize,
        x2: isize,
        history: Option<WideString>,
        flags: u64,
        text: Option<WideString>,
    },
    FixEdit {
        x1: isize,
        y: isize,
        x2: isize,
        history: Option<WideString>,
        mask: Option<WideString>,
        flags: u64,
        text: Option<WideString>,
    },
    PswEdit { x1: isize, y: isize, x2: isize, flags: u64, text: Option<WideString> },
    RadioButton { x: isize, y: isize, selected: DialogItemSelection, flags: u64, text: WideString },
    Button { x: isize, y: isize, selected: DialogItemSelection, flags: u64, text: WideString },
}

/// The flat record a rich dialog item lays out to: the translation table of
/// the dialog marshaller. Buttons span one line and carry their selection;
/// boxes carry their title in the data slot; edits carry history and mask
/// only where their control reads them.
pub open spec fn raw_of(item: FarDialogItem) -> RawFarDialogItemView {
    match item {
        FarDialogItem::CheckBox { x, y, selected, flags, text } => RawFarDialogItemView {
            item_type: ffi::FARDIALOGITEMTYPES::DI_CHECKBOX,
            x1: x,
            y1: y,
            x2: 0,
            y2: y,
            param_selected: selected.value as isize,
            history: None,
            mask: None,
            flags,
            data: Some(text@),
            max_length: 0,
            user_data: 0,
        },
        FarDialogItem::Text { x1, y, x2, mask, flags, text } => RawFarDialogItemView {
            item_type: ffi::FARDIALOGITEMTYPES::DI_TEXT,
            x1,
            y1: y,
            x2,
            y2: y,
            param_selected: 0,
            history: None,
            mask: opt_units(mask),
            flags,
            data: opt_units(text),
            max_length: 0,
            user_data: 0,
        },
        FarDialogItem::VText { x, y1, y2, mask, flags, text } => RawFarDialogItemView {
            item_type: ffi::FARDIALOGITEMTYPES::DI_VTEXT,
            x1: x,
            y1,
            x2: x,
            y2,
            param_selected: 0,
            history: None,
            mask: opt_units(mask),
            flags,
            data: opt_units(text),
            max_length: 0,
            user_data: 0,
        },
        FarDialogItem::SingleBox { x1, y1, x2, y2, flags, title } => RawFarDialogItemView {
            item_type: ffi::FARDIALOGITEMTYPES::DI_SINGLEBOX,
            x1,
            y1,
            x2,
            y2,
            param_selected: 0,
            history: None,
            mask: None,
            flags,
            data: opt_units(title),
            max_length: 0,
            user_data: 0,
        },
        FarDialogItem::DoubleBox { x1, y1, x2, y2, flags, title } => RawFarDialogItemView {
            item_type: ffi::FARDIALOGITEMTYPES::DI_DOUBLEBOX,
            x1,
            y1,
            x2,
            y2,
            param_selected: 0,
            history: None,
            mask: None,
            flags,
            data: opt_units(title),
            max_length: 0,
            user_data: 0,
        },
        FarDialogItem::Edit { x1, y, x2, history, flags, text } => RawFarDialogItemView {
            item_type: ffi::FARDIALOGITEMTYPES::DI_EDIT,
            x1,
            y1: y,
            x2,
            y2: y,
            param_selected: 0,
            history: opt_units(history),
            mask: None,
            flags,
            data: opt_units(text),
            max_length: 0,
            user_data: 0,
        },
        FarDialogItem::FixEdit { x1, y, x2, history, mask, flags, text } => RawFarDialogItemView {
            item_type: ffi::FARDIALOGITEMTYPES::DI_FIXEDIT,
            x1,
            y1: y,
            x2,
            y2: y,
            param_selected: 0,
            history: opt_units(history),
            mask: opt_units(mask),
            flags,
            data: opt_units(text),
            max_length: 0,
            user_data: 0,
        },
        FarDialogItem::PswEdit { x1, y, x2, flags, text } => RawFarDialogItemView {
            item_type: ffi::FARDIALOGITEMTYPES::DI_PSWEDIT,
            x1,
            y1: y,
            x2,
            y2: y,
            param_selected: 0,
            history: None,
            mask: None,
            flags,
            data: opt_units(text),
            max_length: 0,
            user_data: 0,
        },
        FarDialogItem::RadioButton { x, y, selected, flags, text } => RawFarDialogItemView {
            item_type: ffi::FARDIALOGITEMTYPES::DI_RADIOBUTTON,
            x1: x,
            y1: y,
            x2: 0,
            y2: y,
            param_selected: selected.value as isize,
            history: None,
            mask: None,
            flags,
            data: Some(text@),
            max_length: 0,
            user_data: 0,
        },
        FarDialogItem::Button { x, y, selected, flags, text } => RawFarDialogItemView {
            item_type: ffi::FARDIALOGITEMTYPES::DI_BUTTON,
            x1: x,
            y1: y,
            x2: 0,
            y2: y,
            param_selected: selected.value as isize,
            history: None,
            mask: None,
            flags,
            data: Some(text@),
            max_length: 0,
            user_data: 0,
        },
    }
}

impl FarDialogItem {
    /// Lays a rich item out as the flat record the host reads, moving the
    /// owned buffers behind the record's pointer slots.
    pub fn into_raw(self) -> (r: RawFarDialogItem)
        ensures
            r@ == raw_of(self),
    {
        match self {
            FarDialogItem::CheckBox { x, y, selected, flags, text } => RawFarDialogItem {
                item_type: ffi::FARDIALOGITEMTYPES::DI_CHECKBOX,
                x1: x,
                y1: y,
                x2: 0,
                y2: y,
                param_selected: selected.value as isize,
                history: None,
                mask: None,
                flags,
                data: Some(text),
                max_length: 0,
                user_data: 0,
            },
            FarDialogItem::Text { x1, y, x2, mask, flags, text } => RawFarDialogItem {
                item_type: ffi::FARDIALOGITEMTYPES::DI_TEXT,
                x1,
                y1: y,
                x2,
                y2: y,
                param_selected: 0,
                history: None,
                mask,
                flags,
                data: text,
                max_length: 0,
                user_data: 0,
            },
            FarDialogItem::VText { x, y1, y2, mask, flags, text } => RawFarDialogItem {
                item_type: ffi::FARDIALOGITEMTYPES::DI_VTEXT,
                x1: x,
                y1,
                x2: x,
                y2,
                param_selected: 0,
                history: None,
                mask,
                flags,
                data: text,
                max_length: 0,
                user_data: 0,
            },
            FarDialogItem::SingleBox { x1, y1, x2, y2, flags, title } => RawFarDialogItem {
                item_type: ffi::FARDIALOGITEMTYPES::DI_SINGLEBOX,
                x1,
                y1,
                x2,
                y2,
                param_selected: 0,
                history: None,
                mask: None,
                flags,
                data: title,
                max_length: 0,
                user_data: 0,
            },
            FarDialogItem::DoubleBox { x1, y1, x2, y2, flags, title } => RawFarDialogItem {
                item_type: ffi::FARDIALOGITEMTYPES::DI_DOUBLEBOX,
                x1,
                y1,
                x2,
                y2,
                param_selected: 0,
                history: None,
                mask: None,
                flags,
                data: title,
                max_length: 0,
                user_data: 0,
            },
            FarDialogItem::Edit { x1, y, x2, history, flags, text } => RawFarDialogItem {
                item_type: ffi::FARDIALOGITEMTYPES::DI_EDIT,
                x1,
                y1: y,
                x2,
                y2: y,
                param_selected: 0,
                history,
                mask: None,
                flags,
                data: text,
                max_length: 0,
                user_data: 0,
            },
            FarDialogItem::FixEdit { x1, y, x2, history, mask, flags, text } => RawFarDialogItem {
                item_type: ffi::FARDIALOGITEMTYPES::DI_FIXEDIT,
                x1,
                y1: y,
                x2,
                y2: y,
                param_selected: 0,
                history,
                mask,
                flags,
                data: text,
                max_length: 0,
                user_data: 0,
            },
            FarDialogItem::PswEdit { x1, y, x2, flags, text } => RawFarDialogItem {
                item_type: ffi::FARDIALOGITEMTYPES::DI_PSWEDIT,
                x1,
                y1: y,
                x2,
                y2: y,
                param_selected: 0,
                history: None,
                mask: None,
                flags,
                data: text,
                max_length: 0,
                user_data: 0,
            },
            FarDialogItem::RadioButton { x, y, selected, flags, text } => RawFarDialogItem {
                item_type: ffi::FARDIALOGITEMTYPES::DI_RADIOBUTTON,
                x1: x,
                y1: y,
                x2: 0,
                y2: y,
                param_selected: selected.value as isize,
                history: None,
                mask: None,
                flags,
                data: Some(text),
                max_length: 0,
                user_data: 0,
            },
            FarDialogItem::Button { x, y, selected, flags, text } => RawFarDialogItem {
                item_type: ffi::FARDIALOGITEMTYPES::DI_BUTTON,
                x1: x,
                y1: y,
                x2: 0,
                y2: y,
                param_selected: selected.value as isize,
                history: None,
                mask: None,
                flags,
                data: Some(text),
                max_length: 0,
                user_data: 0,
            },
        }
    }
}

/// A dialog message in its decoded shape: one variant per message the
/// dialog procedure exchanges, carrying the two parameter words, with
/// the button-click notification decoded further.
pub enum FarMessage {
    DmFirst { param1: isize, param2: usize },
    DmClose { param1: isize, param2: usize },
    DmEnable { param1: isize, param2: usize },
    DmEnableRedraw { param1: isize, param2: usize },
    DmGetDlgItem { param1: isize, param2: usize },
    DmGetDlgRect { param1: isize, param2: usize },
    DmGetText { param1: isize, param2: usize },
    DmKey { param1: isize, param2: usize },
    DmMoveDialog { param1: isize, param2: usize },
    DmSetDlgItem { param1: isize, param2: usize },
    DmSetFocus { param1: isize, param2: usize },
    DmRedraw { param1: isize, param2: usize },
    DmSetText { param1: isize, param2: usize },
    DmSetMaxTextLength { param1: isize, param2: usize },
    DmShowDialog { param1: isize, param2: usize },
    DmGetFocus { param1: isize, param2: usize },
    DmGetCursorPos { param1: isize, param2: usize },
    DmSetCursorPos { param1: isize, param2: usize },
    DmSetTextPtr { param1: isize, param2: usize },
    DmShowItem { param1: isize, param2: usize },
    DmAddHistory { param1: isize, param2: usize },
    DmGetCheck { param1: isize, param2: usize },
    DmSetCheck { param1: isize, param2: usize },
    DmSet3State { param1: isize, param2: usize },
    DmListSort { param1: isize, param2: usize },
    DmListGetItem { param1: isize, param2: usize },
    DmListGetCurpos { param1: isize, param2: usize },
    DmListSetCurPos { param1: isize, param2: usize },
    DmListDelete { param1: isize, param2: usize },
    DmListAdd { param1: isize, param2: usize },
    DmListAddStr { param1: isize, param2: usize },
    DmListUpdate { param1: isize, param2: usize },
    DmListInsert { param1: isize, param2: usize },
    DmListFindString { param1: isize, param2: usize },
    DmListInfo { param1: isize, param2: usize },
    DmListGetData { param1: isize, param2: usize },
    DmListSetData { param1: isize, param2: usize },
    DmListSetTitles { param1: isize, param2: usize },
    DmListGetTitles { param1: isize, param2: usize },
    DmResizeDialog { param1: isize, param2: usize },
    DmSetItemPosition { param1: isize, param2: usize },
    DmGetDropDownOpened { param1: isize, param2: usize },
    DmSetDropdownOpened { param1: isize, param2: usize },
    DmSetHistory { param1: isize, param2: usize },
    DmGetItemPosition { param1: isize, param2: usize },
    DmSetInputNotify { param1: isize, param2: usize },
    DmEditUnchangedFlag { param1: isize, param2: usize },
    DmGetItemData { param1: isize, param2: usize },
    DmSetItemData { param1: isize, param2: usize },
    DmListSet { param1: isize, param2: usize },
    DmGetCursorSize { param1: isize, param2: usize },
    DmSetCursorSize { param1: isize, param2: usize },
    DmListGetDataSize { param1: isize, param2: usize },
    DmGetSelection { param1: isize, param2: usize },
    DmSetSelection { param1: isize, param2: usize },
    DmGetEditPosition { param1: isize, param2: usize },
    DmSetEditPosition { param1: isize, param2: usize },
    DmSetComboboxEvent { param1: isize, param2: usize },
    DmGetComboboxEvent { param1: isize, param2: usize },
    DmGetConstTextPtr { param1: isize, param2: usize },
    DmGetDlgItemShort { param1: isize, param2: usize },
    DmSetDlgItemShort { param1: isize, param2: usize },
    DmGetDialogInfo { param1: isize, param2: usize },
    DmGetDialogTitle { param1: isize, param2: usize },
    DnFirst { param1: isize, param2: usize },
    DnBtnClick { id: isize, state: DialogItemSelection },
    DnCtlColorDialog { param1: isize, param2: usize },
    DnCtlColorDlgItem { param1: isize, param2: usize },
    DnCtlColorDlgList { param1: isize, param2: usize },
    DnDrawDialog { param1: isize, param2: usize },
    DnDrawDlgItem { param1: isize, param2: usize },
    DnEditChange { param1: isize, param2: usize },
    DnEnterIdle { param1: isize, param2: usize },
    DnGotFocus { param1: isize, param2: usize },
    DnHelp { param1: isize, param2: usize },
    DnHotKey { param1: isize, param2: usize },
    DnInitDialog { param1: isize, param2: usize },
    DnKillFocus { param1: isize, param2: usize },
    DnListChange { param1: isize, param2: usize },
    DnDragged { param1: isize, param2: usize },
    DnResizeConsole { param1: isize, param2: usize },
    DnDrawDialogDone { param1: isize, param2: usize },
    DnListHotKey { param1: isize, param2: usize },
    DnInput { param1: isize, param2: usize },
    DnControlInput { param1: isize, param2: usize },
    DnClose { param1: isize, param2: usize },
    DnGetValue { param1: isize, param2: usize },
    DnDropdownOpened { param1: isize, param2: usize },
    DnDrawDlgItemDone { param1: isize, param2: usize },
    DmUser { param1: isize, param2: usize },
}

/// What the host's triple (message code and two parameter words) reads
/// as. The two data-slot messages stay with the binding and decode to
/// nothing; a button click has its state byte taken apart.
pub open spec fn msg_decode(msg: ffi::FARMESSAGE, param1: isize, param2: usize) -> Option<FarMessage> {
    match msg {
        ffi::FARMESSAGE::DM_FIRST => Some(FarMessage::DmFirst { param1, param2 }),
        ffi::FARMESSAGE::DM_CLOSE => Some(FarMessage::DmClose { param1, param2 }),
        ffi::FARMESSAGE::DM_ENABLE => Some(FarMessage::DmEnable { param1, param2 }),
        ffi::FARMESSAGE::DM_ENABLEREDRAW => Some(FarMessage::DmEnableRedraw { param1, param2 }),
        ffi::FARMESSAGE::DM_GETDLGDATA => None,
        ffi::FARMESSAGE::DM_GETDLGITEM => Some(FarMessage::DmGetDlgItem { param1, param2 }),
        ffi::FARMESSAGE::DM_GETDLGRECT => Some(FarMessage::DmGetDlgRect { param1, param2 }),
        ffi::FARMESSAGE::DM_GETTEXT => Some(FarMessage::DmGetText { param1, param2 }),
        ffi::FARMESSAGE::DM_KEY => Some(FarMessage::DmKey { param1, param2 }),
        ffi::FARMESSAGE::DM_MOVEDIALOG => Some(FarMessage::DmMoveDialog { param1, param2 }),
        ffi::FARMESSAGE::DM_SETDLGDATA => None,
        ffi::FARMESSAGE::DM_SETDLGITEM => Some(FarMessage::DmSetDlgItem { param1, param2 }),
        ffi::FARMESSAGE::DM_SETFOCUS => Some(FarMessage::DmSetFocus { param1, param2 }),
        ffi::FARMESSAGE::DM_REDRAW => Some(FarMessage::DmRedraw { param1, param2 }),
        ffi::FARMESSAGE::DM_SETTEXT => Some(FarMessage::DmSetText { param1, param2 }),
        ffi::FARMESSAGE::DM_SETMAXTEXTLENGTH => Some(FarMessage::DmSetMaxTextLength { param1, param2 }),
        ffi::FARMESSAGE::DM_SHOWDIALOG => Some(FarMessage::DmShowDialog { param1, param2 }),
        ffi::FARMESSAGE::DM_GETFOCUS => Some(FarMessage::DmGetFocus { param1, param2 }),
        ffi::FARMESSAGE::DM_GETCURSORPOS => Some(FarMessage::DmGetCursorPos { param1, param2 }),
        ffi::FARMESSAGE::DM_SETCURSORPOS => Some(FarMessage::DmSetCursorPos { param1, param2 }),
        ffi::FARMESSAGE::DM_SETTEXTPTR => Some(FarMessage::DmSetTextPtr { param1, param2 }),
        ffi::FARMESSAGE::DM_SHOWITEM => Some(FarMessage::DmShowItem { param1, param2 }),
        ffi::FARMESSAGE::DM_ADDHISTORY => Some(FarMessage::DmAddHistory { param1, param2 }),
        ffi::FARMESSAGE::DM_GETCHECK => Some(FarMessage::DmGetCheck { param1, param2 }),
        ffi::FARMESSAGE::DM_SETCHECK => Some(FarMessage::DmSetCheck { param1, param2 }),
        ffi::FARMESSAGE::DM_SET3STATE => Some(FarMessage::DmSet3State { param1, param2 }),
        ffi::FARMESSAGE::DM_LISTSORT => Some(FarMessage::DmListSort { param1, param2 }),
        ffi::FARMESSAGE::DM_LISTGETITEM => Some(FarMessage::DmListGetItem { param1, param2 }),
        ffi::FARMESSAGE::DM_LISTGETCURPOS => Some(FarMessage::DmListGetCurpos { param1, param2 }),
        ffi::FARMESSAGE::DM_LISTSETCURPOS => Some(FarMessage::DmListSetCurPos { param1, param2 }),
        ffi::FARMESSAGE::DM_LISTDELETE => Some(FarMessage::DmListDelete { param1, param2 }),
        ffi::FARMESSAGE::DM_LISTADD => Some(FarMessage::DmListAdd { param1, param2 }),
        ffi::FARMESSAGE::DM_LISTADDSTR => Some(FarMessage::DmListAddStr { param1, param2 }),
        ffi::FARMESSAGE::DM_LISTUPDATE => Some(FarMessage::DmListUpdate { param1, param2 }),
        ffi::FARMESSAGE::DM_LISTINSERT => Some(FarMessage::DmListInsert { param1, param2 }),
        ffi::FARMESSAGE::DM_LISTFINDSTRING => Some(FarMessage::DmListFindString { param1, param2 }),
        ffi::FARMESSAGE::DM_LISTINFO => Some(FarMessage::DmListInfo { param1, param2 }),
        ffi::FARMESSAGE::DM_LISTGETDATA => Some(FarMessage::DmListGetData { param1, param2 }),
        ffi::FARMESSAGE::DM_LISTSETDATA => Some(FarMessage::DmListSetData { param1, param2 }),
        ffi::FARMESSAGE::DM_LISTSETTITLES => Some(FarMessage::DmListSetTitles { param1, param2 }),
        ffi::FARMESSAGE::DM_LISTGETTITLES => Some(FarMessage::DmListGetTitles { param1, param2 }),
        ffi::FARMESSAGE::DM_RESIZEDIALOG => Some(FarMessage::DmResizeDialog { param1, param2 }),
        ffi::FARMESSAGE::DM_SETITEMPOSITION => Some(FarMessage::DmSetItemPosition { param1, param2 }),
        ffi::FARMESSAGE::DM_GETDROPDOWNOPENED => Some(FarMessage::DmGetDropDownOpened { param1, param2 }),
        ffi::FARMESSAGE::DM_SETDROPDOWNOPENED => Some(FarMessage::DmSetDropdownOpened { param1, param2 }),
        ffi::FARMESSAGE::DM_SETHISTORY => Some(FarMessage::DmSetHistory { param1, param2 }),
        ffi::FARMESSAGE::DM_GETITEMPOSITION => Some(FarMessage::DmGetItemPosition { param1, param2 }),
        ffi::FARMESSAGE::DM_SETINPUTNOTIFY => Some(FarMessage::DmSetInputNotify { param1, param2 }),
        ffi::FARMESSAGE::DM_EDITUNCHANGEDFLAG => Some(FarMessage::DmEditUnchangedFlag { param1, param2 }),
        ffi::FARMESSAGE::DM_GETITEMDATA => Some(FarMessage::DmGetItemData { param1, param2 }),
        ffi::FARMESSAGE::DM_SETITEMDATA => Some(FarMessage::DmSetItemData { param1, param2 }),
        ffi::FARMESSAGE::DM_LISTSET => Some(FarMessage::DmListSet { param1, param2 }),
        ffi::FARMESSAGE::DM_GETCURSORSIZE => Some(FarMessage::DmGetCursorSize { param1, param2 }),
        ffi::FARMESSAGE::DM_SETCURSORSIZE => Some(FarMessage::DmSetCursorSize { param1, param2 }),
        ffi::FARMESSAGE::DM_LISTGETDATASIZE => Some(FarMessage::DmListGetDataSize { param1, param2 }),
        ffi::FARMESSAGE::DM_GETSELECTION => Some(FarMessage::DmGetSelection { param1, param2 }),
        ffi::FARMESSAGE::DM_SETSELECTION => Some(FarMessage::DmSetSelection { param1, param2 }),
        ffi::FARMESSAGE::DM_GETEDITPOSITION => Some(FarMessage::DmGetEditPosition { param1, param2 }),
        ffi::FARMESSAGE::DM_SETEDITPOSITION => Some(FarMessage::DmSetEditPosition { param1, param2 }),
        ffi::FARMESSAGE::DM_SETCOMBOBOXEVENT => Some(FarMessage::DmSetComboboxEvent { param1, param2 }),
        ffi::FARMESSAGE::DM_GETCOMBOBOXEVENT => Some(FarMessage::DmGetComboboxEvent { param1, param2 }),
        ffi::FARMESSAGE::DM_GETCONSTTEXTPTR => Some(FarMessage::DmGetConstTextPtr { param1, param2 }),
        ffi::FARMESSAGE::DM_GETDLGITEMSHORT => Some(FarMessage::DmGetDlgItemShort { param1, param2 }),
        ffi::FARMESSAGE::DM_SETDLGITEMSHORT => Some(FarMessage::DmSetDlgItemShort { param1, param2 }),
        ffi::FARMESSAGE::DM_GETDIALOGINFO => Some(FarMessage::DmGetDialogInfo { param1, param2 }),
        ffi::FARMESSAGE::DM_GETDIALOGTITLE => Some(FarMessage::DmGetDialogTitle { param1, param2 }),
        ffi::FARMESSAGE::DN_FIRST => Some(FarMessage::DnFirst { param1, param2 }),
        ffi::FARMESSAGE::DN_BTNCLICK => Some(FarMessage::DnBtnClick { id: param1, state: DialogItemSelection { value: param2 as u8 } }),
        ffi::FARMESSAGE::DN_CTLCOLORDIALOG => Some(FarMessage::DnCtlColorDialog { param1, param2 }),
        ffi::FARMESSAGE::DN_CTLCOLORDLGITEM => Some(FarMessage::DnCtlColorDlgItem { param1, param2 }),
        ffi::FARMESSAGE::DN_CTLCOLORDLGLIST => Some(FarMessage::DnCtlColorDlgList { param1, param2 }),
        ffi::FARMESSAGE::DN_DRAWDIALOG => Some(FarMessage::DnDrawDialog { param1, param2 }),
        ffi::FARMESSAGE::DN_DRAWDLGITEM => Some(FarMessage::DnDrawDlgItem { param1, param2 }),
        ffi::FARMESSAGE::DN_EDITCHANGE => Some(FarMessage::DnEditChange { param1, param2 }),
        ffi::FARMESSAGE::DN_ENTERIDLE => Some(FarMessage::DnEnterIdle { param1, param2 }),
        ffi::FARMESSAGE::DN_GOTFOCUS => Some(FarMessage::DnGotFocus { param1, param2 }),
        ffi::FARMESSAGE::DN_HELP => Some(FarMessage::DnHelp { param1, param2 }),
        ffi::FARMESSAGE::DN_HOTKEY => Some(FarMessage::DnHotKey { param1, param2 }),
        ffi::FARMESSAGE::DN_INITDIALOG => Some(FarMessage::DnInitDialog { param1, param2 }),
        ffi::FARMESSAGE::DN_KILLFOCUS => Some(FarMessage::DnKillFocus { param1, param2 }),
        ffi::FARMESSAGE::DN_LISTCHANGE => Some(FarMessage::DnListChange { param1, param2 }),
        ffi::FARMESSAGE::DN_DRAGGED => Some(FarMessage::DnDragged { param1, param2 }),
        ffi::FARMESSAGE::DN_RESIZECONSOLE => Some(FarMessage::DnResizeConsole { param1, param2 }),
        ffi::FARMESSAGE::DN_DRAWDIALOGDONE => Some(FarMessage::DnDrawDialogDone { param1, param2 }),
        ffi::FARMESSAGE::DN_LISTHOTKEY => Some(FarMessage::DnListHotKey { param1, param2 }),
        ffi::FARMESSAGE::DN_INPUT => Some(FarMessage::DnInput { param1, param2 }),
        ffi::FARMESSAGE::DN_CONTROLINPUT => Some(FarMessage::DnControlInput { param1, param2 }),
        ffi::FARMESSAGE::DN_CLOSE => Some(FarMessage::DnClose { param1, param2 }),
        ffi::FARMESSAGE::DN_GETVALUE => Some(FarMessage::DnGetValue { param1, param2 }),
        ffi::FARMESSAGE::DN_DROPDOWNOPENED => Some(FarMessage::DnDropdownOpened { param1, param2 }),
        ffi::FARMESSAGE::DN_DRAWDLGITEMDONE => Some(FarMessage::DnDrawDlgItemDone { param1, param2 }),
        ffi::FARMESSAGE::DM_USER => Some(FarMessage::DmUser { param1, param2 }),
    }
}

/// What a message writes back into the host's triple: the inverse of
/// `msg_decode` on every triple the table defines.
pub open spec fn msg_encode(m: FarMessage) -> (ffi::FARMESSAGE, isize, usize) {
    match m {
        FarMessage::DmFirst { param1, param2 } => (ffi::FARMESSAGE::DM_FIRST, param1, param2),
        FarMessage::DmClose { param1, param2 } => (ffi::FARMESSAGE::DM_CLOSE, param1, param2),
        FarMessage::DmEnable { param1, param2 } => (ffi::FARMESSAGE::DM_ENABLE, param1, param2),
        FarMessage::DmEnableRedraw { param1, param2 } => (ffi::FARMESSAGE::DM_ENABLEREDRAW, param1, param2),
        FarMessage::DmGetDlgItem { param1, param2 } => (ffi::FARMESSAGE::DM_GETDLGITEM, param1, param2),
        FarMessage::DmGetDlgRect { param1, param2 } => (ffi::FARMESSAGE::DM_GETDLGRECT, param1, param2),
        FarMessage::DmGetText { param1, param2 } => (ffi::FARMESSAGE::DM_GETTEXT, param1, param2),
        FarMessage::DmKey { param1, param2 } => (ffi::FARMESSAGE::DM_KEY, param1, param2),
        FarMessage::DmMoveDialog { param1, param2 } => (ffi::FARMESSAGE::DM_MOVEDIALOG, param1, param2),
        FarMessage::DmSetDlgItem { param1, param2 } => (ffi::FARMESSAGE::DM_SETDLGITEM, param1, param2),
        FarMessage::DmSetFocus { param1, param2 } => (ffi::FARMESSAGE::DM_SETFOCUS, param1, param2),
        FarMessage::DmRedraw { param1, param2 } => (ffi::FARMESSAGE::DM_REDRAW, param1, param2),
        FarMessage::DmSetText { param1, param2 } => (ffi::FARMESSAGE::DM_SETTEXT, param1, param2),
        FarMessage::DmSetMaxTextLength { param1, param2 } => (ffi::FARMESSAGE::DM_SETMAXTEXTLENGTH, param1, param2),
        FarMessage::DmShowDialog { param1, param2 } => (ffi::FARMESSAGE::DM_SHOWDIALOG, param1, param2),
        FarMessage::DmGetFocus { param1, param2 } => (ffi::FARMESSAGE::DM_GETFOCUS, param1, param2),
        FarMessage::DmGetCursorPos { param1, param2 } => (ffi::FARMESSAGE::DM_GETCURSORPOS, param1, param2),
        FarMessage::DmSetCursorPos { param1, param2 } => (ffi::FARMESSAGE::DM_SETCURSORPOS, param1, param2),
        FarMessage::DmSetTextPtr { param1, param2 } => (ffi::FARMESSAGE::DM_SETTEXTPTR, param1, param2),
        FarMessage::DmShowItem { param1, param2 } => (ffi::FARMESSAGE::DM_SHOWITEM, param1, param2),
        FarMessage::DmAddHistory { param1, param2 } => (ffi::FARMESSAGE::DM_ADDHISTORY, param1, param2),
        FarMessage::DmGetCheck { param1, param2 } => (ffi::FARMESSAGE::DM_GETCHECK, param1, param2),
        FarMessage::DmSetCheck { param1, param2 } => (ffi::FARMESSAGE::DM_SETCHECK, param1, param2),
        FarMessage::DmSet3State { param1, param2 } => (ffi::FARMESSAGE::DM_SET3STATE, param1, param2),
        FarMessage::DmListSort { param1, param2 } => (ffi::FARMESSAGE::DM_LISTSORT, param1, param2),
        FarMessage::DmListGetItem { param1, param2 } => (ffi::FARMESSAGE::DM_LISTGETITEM, param1, param2),
        FarMessage::DmListGetCurpos { param1, param2 } => (ffi::FARMESSAGE::DM_LISTGETCURPOS, param1, param2),
        FarMessage::DmListSetCurPos { param1, param2 } => (ffi::FARMESSAGE::DM_LISTSETCURPOS, param1, param2),
        FarMessage::DmListDelete { param1, param2 } => (ffi::FARMESSAGE::DM_LISTDELETE, param1, param2),
        FarMessage::DmListAdd { param1, param2 } => (ffi::FARMESSAGE::DM_LISTADD, param1, param2),
        FarMessage::DmListAddStr { param1, param2 } => (ffi::FARMESSAGE::DM_LISTADDSTR, param1, param2),
        FarMessage::DmListUpdate { param1, param2 } => (ffi::FARMESSAGE::DM_LISTUPDATE, param1, param2),
        FarMessage::DmListInsert { param1, param2 } => (ffi::FARMESSAGE::DM_LISTINSERT, param1, param2),
        FarMessage::DmListFindString { param1, param2 } => (ffi::FARMESSAGE::DM_LISTFINDSTRING, param1, param2),
        FarMessage::DmListInfo { param1, param2 } => (ffi::FARMESSAGE::DM_LISTINFO, param1, param2),
        FarMessage::DmListGetData { param1, param2 } => (ffi::FARMESSAGE::DM_LISTGETDATA, param1, param2),
        FarMessage::DmListSetData { param1, param2 } => (ffi::FARMESSAGE::DM_LISTSETDATA, param1, param2),
        FarMessage::DmListSetTitles { param1, param2 } => (ffi::FARMESSAGE::DM_LISTSETTITLES, param1, param2),
        FarMessage::DmListGetTitles { param1, param2 } => (ffi::FARMESSAGE::DM_LISTGETTITLES, param1, param2),
        FarMessage::DmResizeDialog { param1, param2 } => (ffi::FARMESSAGE::DM_RESIZEDIALOG, param1, param2),
        FarMessage::DmSetItemPosition { param1, param2 } => (ffi::FARMESSAGE::DM_SETITEMPOSITION, param1, param2),
        FarMessage::DmGetDropDownOpened { param1, param2 } => (ffi::FARMESSAGE::DM_GETDROPDOWNOPENED, param1, param2),
        FarMessage::DmSetDropdownOpened { param1, param2 } => (ffi::FARMESSAGE::DM_SETDROPDOWNOPENED, param1, param2),
        FarMessage::DmSetHistory { param1, param2 } => (ffi::FARMESSAGE::DM_SETHISTORY, param1, param2),
        FarMessage::DmGetItemPosition { param1, param2 } => (ffi::FARMESSAGE::DM_GETITEMPOSITION, param1, param2),
        FarMessage::DmSetInputNotify { param1, param2 } => (ffi::FARMESSAGE::DM_SETINPUTNOTIFY, param1, param2),
        FarMessage::DmEditUnchangedFlag { param1, param2 } => (ffi::FARMESSAGE::DM_EDITUNCHANGEDFLAG, param1, param2),
        FarMessage::DmGetItemData { param1, param2 } => (ffi::FARMESSAGE::DM_GETITEMDATA, param1, param2),
        FarMessage::DmSetItemData { param1, param2 } => (ffi::FARMESSAGE::DM_SETITEMDATA, param1, param2),
        FarMessage::DmListSet { param1, param2 } => (ffi::FARMESSAGE::DM_LISTSET, param1, param2),
        FarMessage::DmGetCursorSize { param1, param2 } => (ffi::FARMESSAGE::DM_GETCURSORSIZE, param1, param2),
        FarMessage::DmSetCursorSize { param1, param2 } => (ffi::FARMESSAGE::DM_SETCURSORSIZE, param1, param2),
        FarMessage::DmListGetDataSize { param1, param2 } => (ffi::FARMESSAGE::DM_LISTGETDATASIZE, param1, param2),
        FarMessage::DmGetSelection { param1, param2 } => (ffi::FARMESSAGE::DM_GETSELECTION, param1, param2),
        FarMessage::DmSetSelection { param1, param2 } => (ffi::FARMESSAGE::DM_SETSELECTION, param1, param2),
        FarMessage::DmGetEditPosition { param1, param2 } => (ffi::FARMESSAGE::DM_GETEDITPOSITION, param1, param2),
        FarMessage::DmSetEditPosition { param1, param2 } => (ffi::FARMESSAGE::DM_SETEDITPOSITION, param1, param2),
        FarMessage::DmSetComboboxEvent { param1, param2 } => (ffi::FARMESSAGE::DM_SETCOMBOBOXEVENT, param1, param2),
        FarMessage::DmGetComboboxEvent { param1, param2 } => (ffi::FARMESSAGE::DM_GETCOMBOBOXEVENT, param1, param2),
        FarMessage::DmGetConstTextPtr { param1, param2 } => (ffi::FARMESSAGE::DM_GETCONSTTEXTPTR, param1, param2),
        FarMessage::DmGetDlgItemShort { param1, param2 } => (ffi::FARMESSAGE::DM_GETDLGITEMSHORT, param1, param2),
        FarMessage::DmSetDlgItemShort { param1, param2 } => (ffi::FARMESSAGE::DM_SETDLGITEMSHORT, param1, param2),
        FarMessage::DmGetDialogInfo { param1, param2 } => (ffi::FARMESSAGE::DM_GETDIALOGINFO, param1, param2),
        FarMessage::DmGetDialogTitle { param1, param2 } => (ffi::FARMESSAGE::DM_GETDIALOGTITLE, param1, param2),
        FarMessage::DnFirst { param1, param2 } => (ffi::FARMESSAGE::DN_FIRST, param1, param2),
        FarMessage::DnBtnClick { id, state } => (ffi::FARMESSAGE::DN_BTNCLICK, id, state.value as usize),
        FarMessage::DnCtlColorDialog { param1, param2 } => (ffi::FARMESSAGE::DN_CTLCOLORDIALOG, param1, param2),
        FarMessage::DnCtlColorDlgItem { param1, param2 } => (ffi::FARMESSAGE::DN_CTLCOLORDLGITEM, param1, param2),
        FarMessage::DnCtlColorDlgList { param1, param2 } => (ffi::FARMESSAGE::DN_CTLCOLORDLGLIST, param1, param2),
        FarMessage::DnDrawDialog { param1, param2 } => (ffi::FARMESSAGE::DN_DRAWDIALOG, param1, param2),
        FarMessage::DnDrawDlgItem { param1, param2 } => (ffi::FARMESSAGE::DN_DRAWDLGITEM, param1, param2),
        FarMessage::DnEditChange { param1, param2 } => (ffi::FARMESSAGE::DN_EDITCHANGE, param1, param2),
        FarMessage::DnEnterIdle { param1, param2 } => (ffi::FARMESSAGE::DN_ENTERIDLE, param1, param2),
        FarMessage::DnGotFocus { param1, param2 } => (ffi::FARMESSAGE::DN_GOTFOCUS, param1, param2),
        FarMessage::DnHelp { param1, param2 } => (ffi::FARMESSAGE::DN_HELP, param1, param2),
        FarMessage::DnHotKey { param1, param2 } => (ffi::FARMESSAGE::DN_HOTKEY, param1, param2),
        FarMessage::DnInitDialog { param1, param2 } => (ffi::FARMESSAGE::DN_INITDIALOG, param1, param2),
        FarMessage::DnKillFocus { param1, param2 } => (ffi::FARMESSAGE::DN_KILLFOCUS, param1, param2),
        FarMessage::DnListChange { param1, param2 } => (ffi::FARMESSAGE::DN_LISTCHANGE, param1, param2),
        FarMessage::DnDragged { param1, param2 } => (ffi::FARMESSAGE::DN_DRAGGED, param1, param2),
        FarMessage::DnResizeConsole { param1, param2 } => (ffi::FARMESSAGE::DN_RESIZECONSOLE, param1, param2),
        FarMessage::DnDrawDialogDone { param1, param2 } => (ffi::FARMESSAGE::DN_DRAWDIALOGDONE, param1, param2),
        FarMessage::DnListHotKey { param1, param2 } => (ffi::FARMESSAGE::DN_LISTHOTKEY, param1, param2),
        FarMessage::DnInput { param1, param2 } => (ffi::FARMESSAGE::DN_INPUT, param1, param2),
        FarMessage::DnControlInput { param1, param2 } => (ffi::FARMESSAGE::DN_CONTROLINPUT, param1, param2),
        FarMessage::DnClose { param1, param2 } => (ffi::FARMESSAGE::DN_CLOSE, param1, param2),
        FarMessage::DnGetValue { param1, param2 } => (ffi::FARMESSAGE::DN_GETVALUE, param1, param2),
        FarMessage::DnDropdownOpened { param1, param2 } => (ffi::FARMESSAGE::DN_DROPDOWNOPENED, param1, param2),
        FarMessage::DnDrawDlgItemDone { param1, param2 } => (ffi::FARMESSAGE::DN_DRAWDLGITEMDONE, param1, param2),
        FarMessage::DmUser { param1, param2 } => (ffi::FARMESSAGE::DM_USER, param1, param2),
    }
}

impl FarMessage {
    /// Decodes the host's triple into a message.
    pub fn from(msg: ffi::FARMESSAGE, param1: isize, param2: usize) -> (r: Option<FarMessage>)
        ensures
            r == msg_decode(msg, param1, param2),
    {
        match msg {
            ffi::FARMESSAGE::DM_FIRST => Some(FarMessage::DmFirst { param1, param2 }),
            ffi::FARMESSAGE::DM_CLOSE => Some(FarMessage::DmClose { param1, param2 }),
            ffi::FARMESSAGE::DM_ENABLE => Some(FarMessage::DmEnable { param1, param2 }),
            ffi::FARMESSAGE::DM_ENABLEREDRAW => Some(FarMessage::DmEnableRedraw { param1, param2 }),
            ffi::FARMESSAGE::DM_GETDLGDATA => None,
            ffi::FARMESSAGE::DM_GETDLGITEM => Some(FarMessage::DmGetDlgItem { param1, param2 }),
            ffi::FARMESSAGE::DM_GETDLGRECT => Some(FarMessage::DmGetDlgRect { param1, param2 }),
            ffi::FARMESSAGE::DM_GETTEXT => Some(FarMessage::DmGetText { param1, param2 }),
            ffi::FARMESSAGE::DM_KEY => Some(FarMessage::DmKey { param1, param2 }),
            ffi::FARMESSAGE::DM_MOVEDIALOG => Some(FarMessage::DmMoveDialog { param1, param2 }),
            ffi::FARMESSAGE::DM_SETDLGDATA => None,
            ffi::FARMESSAGE::DM_SETDLGITEM => Some(FarMessage::DmSetDlgItem { param1, param2 }),
            ffi::FARMESSAGE::DM_SETFOCUS => Some(FarMessage::DmSetFocus { param1, param2 }),
            ffi::FARMESSAGE::DM_REDRAW => Some(FarMessage::DmRedraw { param1, param2 }),
            ffi::FARMESSAGE::DM_SETTEXT => Some(FarMessage::DmSetText { param1, param2 }),
            ffi::FARMESSAGE::DM_SETMAXTEXTLENGTH => Some(FarMessage::DmSetMaxTextLength { param1, param2 }),
            ffi::FARMESSAGE::DM_SHOWDIALOG => Some(FarMessage::DmShowDialog { param1, param2 }),
            ffi::FARMESSAGE::DM_GETFOCUS => Some(FarMessage::DmGetFocus { param1, param2 }),
            ffi::FARMESSAGE::DM_GETCURSORPOS => Some(FarMessage::DmGetCursorPos { param1, param2 }),
            ffi::FARMESSAGE::DM_SETCURSORPOS => Some(FarMessage::DmSetCursorPos { param1, param2 }),
            ffi::FARMESSAGE::DM_SETTEXTPTR => Some(FarMessage::DmSetTextPtr { param1, param2 }),
            ffi::FARMESSAGE::DM_SHOWITEM => Some(FarMessage::DmShowItem { param1, param2 }),
            ffi::FARMESSAGE::DM_ADDHISTORY => Some(FarMessage::DmAddHistory { param1, param2 }),
            ffi::FARMESSAGE::DM_GETCHECK => Some(FarMessage::DmGetCheck { param1, param2 }),
            ffi::FARMESSAGE::DM_SETCHECK => Some(FarMessage::DmSetCheck { param1, param2 }),
            ffi::FARMESSAGE::DM_SET3STATE => Some(FarMessage::DmSet3State { param1, param2 }),
            ffi::FARMESSAGE::DM_LISTSORT => Some(FarMessage::DmListSort { param1, param2 }),
            ffi::FARMESSAGE::DM_LISTGETITEM => Some(FarMessage::DmListGetItem { param1, param2 }),
            ffi::FARMESSAGE::DM_LISTGETCURPOS => Some(FarMessage::DmListGetCurpos { param1, param2 }),
            ffi::FARMESSAGE::DM_LISTSETCURPOS => Some(FarMessage::DmListSetCurPos { param1, param2 }),
            ffi::FARMESSAGE::DM_LISTDELETE => Some(FarMessage::DmListDelete { param1, param2 }),
            ffi::FARMESSAGE::DM_LISTADD => Some(FarMessage::DmListAdd { param1, param2 }),
            ffi::FARMESSAGE::DM_LISTADDSTR => Some(FarMessage::DmListAddStr { param1, param2 }),
            ffi::FARMESSAGE::DM_LISTUPDATE => Some(FarMessage::DmListUpdate { param1, param2 }),
            ffi::FARMESSAGE::DM_LISTINSERT => Some(FarMessage::DmListInsert { param1, param2 }),
            ffi::FARMESSAGE::DM_LISTFINDSTRING => Some(FarMessage::DmListFindString { param1, param2 }),
            ffi::FARMESSAGE::DM_LISTINFO => Some(FarMessage::DmListInfo { param1, param2 }),
            ffi::FARMESSAGE::DM_LISTGETDATA => Some(FarMessage::DmListGetData { param1, param2 }),
            ffi::FARMESSAGE::DM_LISTSETDATA => Some(FarMessage::DmListSetData { param1, param2 }),
            ffi::FARMESSAGE::DM_LISTSETTITLES => Some(FarMessage::DmListSetTitles { param1, param2 }),
            ffi::FARMESSAGE::DM_LISTGETTITLES => Some(FarMessage::DmListGetTitles { param1, param2 }),
            ffi::FARMESSAGE::DM_RESIZEDIALOG => Some(FarMessage::DmResizeDialog { param1, param2 }),
            ffi::FARMESSAGE::DM_SETITEMPOSITION => Some(FarMessage::DmSetItemPosition { param1, param2 }),
            ffi::FARMESSAGE::DM_GETDROPDOWNOPENED => Some(FarMessage::DmGetDropDownOpened { param1, param2 }),
            ffi::FARMESSAGE::DM_SETDROPDOWNOPENED => Some(FarMessage::DmSetDropdownOpened { param1, param2 }),
            ffi::FARMESSAGE::DM_SETHISTORY => Some(FarMessage::DmSetHistory { param1, param2 }),
            ffi::FARMESSAGE::DM_GETITEMPOSITION => Some(FarMessage::DmGetItemPosition { param1, param2 }),
            ffi::FARMESSAGE::DM_SETINPUTNOTIFY => Some(FarMessage::DmSetInputNotify { param1, param2 }),
            ffi::FARMESSAGE::DM_EDITUNCHANGEDFLAG => Some(FarMessage::DmEditUnchangedFlag { param1, param2 }),
            ffi::FARMESSAGE::DM_GETITEMDATA => Some(FarMessage::DmGetItemData { param1, param2 }),
            ffi::FARMESSAGE::DM_SETITEMDATA => Some(FarMessage::DmSetItemData { param1, param2 }),
            ffi::FARMESSAGE::DM_LISTSET => Some(FarMessage::DmListSet { param1, param2 }),
            ffi::FARMESSAGE::DM_GETCURSORSIZE => Some(FarMessage::DmGetCursorSize { param1, param2 }),
            ffi::FARMESSAGE::DM_SETCURSORSIZE => Some(FarMessage::DmSetCursorSize { param1, param2 }),
            ffi::FARMESSAGE::DM_LISTGETDATASIZE => Some(FarMessage::DmListGetDataSize { param1, param2 }),
            ffi::FARMESSAGE::DM_GETSELECTION => Some(FarMessage::DmGetSelection { param1, param2 }),
            ffi::FARMESSAGE::DM_SETSELECTION => Some(FarMessage::DmSetSelection { param1, param2 }),
            ffi::FARMESSAGE::DM_GETEDITPOSITION => Some(FarMessage::DmGetEditPosition { param1, param2 }),
            ffi::FARMESSAGE::DM_SETEDITPOSITION => Some(FarMessage::DmSetEditPosition { param1, param2 }),
            ffi::FARMESSAGE::DM_SETCOMBOBOXEVENT => Some(FarMessage::DmSetComboboxEvent { param1, param2 }),
            ffi::FARMESSAGE::DM_GETCOMBOBOXEVENT => Some(FarMessage::DmGetComboboxEvent { param1, param2 }),
            ffi::FARMESSAGE::DM_GETCONSTTEXTPTR => Some(FarMessage::DmGetConstTextPtr { param1, param2 }),
            ffi::FARMESSAGE::DM_GETDLGITEMSHORT => Some(FarMessage::DmGetDlgItemShort { param1, param2 }),
            ffi::FARMESSAGE::DM_SETDLGITEMSHORT => Some(FarMessage::DmSetDlgItemShort { param1, param2 }),
            ffi::FARMESSAGE::DM_GETDIALOGINFO => Some(FarMessage::DmGetDialogInfo { param1, param2 }),
            ffi::FARMESSAGE::DM_GETDIALOGTITLE => Some(FarMessage::DmGetDialogTitle { param1, param2 }),
            ffi::FARMESSAGE::DN_FIRST => Some(FarMessage::DnFirst { param1, param2 }),
            ffi::FARMESSAGE::DN_BTNCLICK => Some(FarMessage::DnBtnClick { id: param1, state: DialogItemSelection { value: param2 as u8 } }),
            ffi::FARMESSAGE::DN_CTLCOLORDIALOG => Some(FarMessage::DnCtlColorDialog { param1, param2 }),
            ffi::FARMESSAGE::DN_CTLCOLORDLGITEM => Some(FarMessage::DnCtlColorDlgItem { param1, param2 }),
            ffi::FARMESSAGE::DN_CTLCOLORDLGLIST => Some(FarMessage::DnCtlColorDlgList { param1, param2 }),
            ffi::FARMESSAGE::DN_DRAWDIALOG => Some(FarMessage::DnDrawDialog { param1, param2 }),
            ffi::FARMESSAGE::DN_DRAWDLGITEM => Some(FarMessage::DnDrawDlgItem { param1, param2 }),
            ffi::FARMESSAGE::DN_EDITCHANGE => Some(FarMessage::DnEditChange { param1, param2 }),
            ffi::FARMESSAGE::DN_ENTERIDLE => Some(FarMessage::DnEnterIdle { param1, param2 }),
            ffi::FARMESSAGE::DN_GOTFOCUS => Some(FarMessage::DnGotFocus { param1, param2 }),
            ffi::FARMESSAGE::DN_HELP => Some(FarMessage::DnHelp { param1, param2 }),
            ffi::FARMESSAGE::DN_HOTKEY => Some(FarMessage::DnHotKey { param1, param2 }),
            ffi::FARMESSAGE::DN_INITDIALOG => Some(FarMessage::DnInitDialog { param1, param2 }),
            ffi::FARMESSAGE::DN_KILLFOCUS => Some(FarMessage::DnKillFocus { param1, param2 }),
            ffi::FARMESSAGE::DN_LISTCHANGE => Some(FarMessage::DnListChange { param1, param2 }),
            ffi::FARMESSAGE::DN_DRAGGED => Some(FarMessage::DnDragged { param1, param2 }),
            ffi::FARMESSAGE::DN_RESIZECONSOLE => Some(FarMessage::DnResizeConsole { param1, param2 }),
            ffi::FARMESSAGE::DN_DRAWDIALOGDONE => Some(FarMessage::DnDrawDialogDone { param1, param2 }),
            ffi::FARMESSAGE::DN_LISTHOTKEY => Some(FarMessage::DnListHotKey { param1, param2 }),
            ffi::FARMESSAGE::DN_INPUT => Some(FarMessage::DnInput { param1, param2 }),
            ffi::FARMESSAGE::DN_CONTROLINPUT => Some(FarMessage::DnControlInput { param1, param2 }),
            ffi::FARMESSAGE::DN_CLOSE => Some(FarMessage::DnClose { param1, param2 }),
            ffi::FARMESSAGE::DN_GETVALUE => Some(FarMessage::DnGetValue { param1, param2 }),
            ffi::FARMESSAGE::DN_DROPDOWNOPENED => Some(FarMessage::DnDropdownOpened { param1, param2 }),
            ffi::FARMESSAGE::DN_DRAWDLGITEMDONE => Some(FarMessage::DnDrawDlgItemDone { param1, param2 }),
            ffi::FARMESSAGE::DM_USER => Some(FarMessage::DmUser { param1, param2 }),
        }
    }

    /// Encodes a message back into the host's triple. Decoding the
    /// result yields this message again: nothing is lost on the way out.
    pub fn into(self) -> (r: (ffi::FARMESSAGE, isize, usize))
        ensures
            r == msg_encode(self),
            msg_decode(r.0, r.1, r.2) == Some(self),
    {
        match self {
            FarMessage::DmFirst { param1, param2 } => (ffi::FARMESSAGE::DM_FIRST, param1, param2),
            FarMessage::DmClose { param1, param2 } => (ffi::FARMESSAGE::DM_CLOSE, param1, param2),
            FarMessage::DmEnable { param1, param2 } => (ffi::FARMESSAGE::DM_ENABLE, param1, param2),
            FarMessage::DmEnableRedraw { param1, param2 } => (ffi::FARMESSAGE::DM_ENABLEREDRAW, param1, param2),
            FarMessage::DmGetDlgItem { param1, param2 } => (ffi::FARMESSAGE::DM_GETDLGITEM, param1, param2),
            FarMessage::DmGetDlgRect { param1, param2 } => (ffi::FARMESSAGE::DM_GETDLGRECT, param1, param2),
            FarMessage::DmGetText { param1, param2 } => (ffi::FARMESSAGE::DM_GETTEXT, param1, param2),
            FarMessage::DmKey { param1, param2 } => (ffi::FARMESSAGE::DM_KEY, param1, param2),
            FarMessage::DmMoveDialog { param1, param2 } => (ffi::FARMESSAGE::DM_MOVEDIALOG, param1, param2),
            FarMessage::DmSetDlgItem { param1, param2 } => (ffi::FARMESSAGE::DM_SETDLGITEM, param1, param2),
            FarMessage::DmSetFocus { param1, param2 } => (ffi::FARMESSAGE::DM_SETFOCUS, param1, param2),
            FarMessage::DmRedraw { param1, param2 } => (ffi::FARMESSAGE::DM_REDRAW, param1, param2),
            FarMessage::DmSetText { param1, param2 } => (ffi::FARMESSAGE::DM_SETTEXT, param1, param2),
            FarMessage::DmSetMaxTextLength { param1, param2 } => (ffi::FARMESSAGE::DM_SETMAXTEXTLENGTH, param1, param2),
            FarMessage::DmShowDialog { param1, param2 } => (ffi::FARMESSAGE::DM_SHOWDIALOG, param1, param2),
            FarMessage::DmGetFocus { param1, param2 } => (ffi::FARMESSAGE::DM_GETFOCUS, param1, param2),
            FarMessage::DmGetCursorPos { param1, param2 } => (ffi::FARMESSAGE::DM_GETCURSORPOS, param1, param2),
            FarMessage::DmSetCursorPos { param1, param2 } => (ffi::FARMESSAGE::DM_SETCURSORPOS, param1, param2),
            FarMessage::DmSetTextPtr { param1, param2 } => (ffi::FARMESSAGE::DM_SETTEXTPTR, param1, param2),
            FarMessage::DmShowItem { param1, param2 } => (ffi::FARMESSAGE::DM_SHOWITEM, param1, param2),
            FarMessage::DmAddHistory { param1, param2 } => (ffi::FARMESSAGE::DM_ADDHISTORY, param1, param2),
            FarMessage::DmGetCheck { param1, param2 } => (ffi::FARMESSAGE::DM_GETCHECK, param1, param2),
            FarMessage::DmSetCheck { param1, param2 } => (ffi::FARMESSAGE::DM_SETCHECK, param1, param2),
            FarMessage::DmSet3State { param1, param2 } => (ffi::FARMESSAGE::DM_SET3STATE, param1, param2),
            FarMessage::DmListSort { param1, param2 } => (ffi::FARMESSAGE::DM_LISTSORT, param1, param2),
            FarMessage::DmListGetItem { param1, param2 } => (ffi::FARMESSAGE::DM_LISTGETITEM, param1, param2),
            FarMessage::DmListGetCurpos { param1, param2 } => (ffi::FARMESSAGE::DM_LISTGETCURPOS, param1, param2),
            FarMessage::DmListSetCurPos { param1, param2 } => (ffi::FARMESSAGE::DM_LISTSETCURPOS, param1, param2),
            FarMessage::DmListDelete { param1, param2 } => (ffi::FARMESSAGE::DM_LISTDELETE, param1, param2),
            FarMessage::DmListAdd { param1, param2 } => (ffi::FARMESSAGE::DM_LISTADD, param1, param2),
            FarMessage::DmListAddStr { param1, param2 } => (ffi::FARMESSAGE::DM_LISTADDSTR, param1, param2),
            FarMessage::DmListUpdate { param1, param2 } => (ffi::FARMESSAGE::DM_LISTUPDATE, param1, param2),
            FarMessage::DmListInsert { param1, param2 } => (ffi::FARMESSAGE::DM_LISTINSERT, param1, param2),
            FarMessage::DmListFindString { param1, param2 } => (ffi::FARMESSAGE::DM_LISTFINDSTRING, param1, param2),
            FarMessage::DmListInfo { param1, param2 } => (ffi::FARMESSAGE::DM_LISTINFO, param1, param2),
            FarMessage::DmListGetData { param1, param2 } => (ffi::FARMESSAGE::DM_LISTGETDATA, param1, param2),
            FarMessage::DmListSetData { param1, param2 } => (ffi::FARMESSAGE::DM_LISTSETDATA, param1, param2),
            FarMessage::DmListSetTitles { param1, param2 } => (ffi::FARMESSAGE::DM_LISTSETTITLES, param1, param2),
            FarMessage::DmListGetTitles { param1, param2 } => (ffi::FARMESSAGE::DM_LISTGETTITLES, param1, param2),
            FarMessage::DmResizeDialog { param1, param2 } => (ffi::FARMESSAGE::DM_RESIZEDIALOG, param1, param2),
            FarMessage::DmSetItemPosition { param1, param2 } => (ffi::FARMESSAGE::DM_SETITEMPOSITION, param1, param2),
            FarMessage::DmGetDropDownOpened { param1, param2 } => (ffi::FARMESSAGE::DM_GETDROPDOWNOPENED, param1, param2),
            FarMessage::DmSetDropdownOpened { param1, param2 } => (ffi::FARMESSAGE::DM_SETDROPDOWNOPENED, param1, param2),
            FarMessage::DmSetHistory { param1, param2 } => (ffi::FARMESSAGE::DM_SETHISTORY, param1, param2),
            FarMessage::DmGetItemPosition { param1, param2 } => (ffi::FARMESSAGE::DM_GETITEMPOSITION, param1, param2),
            FarMessage::DmSetInputNotify { param1, param2 } => (ffi::FARMESSAGE::DM_SETINPUTNOTIFY, param1, param2),
            FarMessage::DmEditUnchangedFlag { param1, param2 } => (ffi::FARMESSAGE::DM_EDITUNCHANGEDFLAG, param1, param2),
            FarMessage::DmGetItemData { param1, param2 } => (ffi::FARMESSAGE::DM_GETITEMDATA, param1, param2),
            FarMessage::DmSetItemData { param1, param2 } => (ffi::FARMESSAGE::DM_SETITEMDATA, param1, param2),
            FarMessage::DmListSet { param1, param2 } => (ffi::FARMESSAGE::DM_LISTSET, param1, param2),
            FarMessage::DmGetCursorSize { param1, param2 } => (ffi::FARMESSAGE::DM_GETCURSORSIZE, param1, param2),
            FarMessage::DmSetCursorSize { param1, param2 } => (ffi::FARMESSAGE::DM_SETCURSORSIZE, param1, param2),
            FarMessage::DmListGetDataSize { param1, param2 } => (ffi::FARMESSAGE::DM_LISTGETDATASIZE, param1, param2),
            FarMessage::DmGetSelection { param1, param2 } => (ffi::FARMESSAGE::DM_GETSELECTION, param1, param2),
            FarMessage::DmSetSelection { param1, param2 } => (ffi::FARMESSAGE::DM_SETSELECTION, param1, param2),
            FarMessage::DmGetEditPosition { param1, param2 } => (ffi::FARMESSAGE::DM_GETEDITPOSITION, param1, param2),
            FarMessage::DmSetEditPosition { param1, param2 } => (ffi::FARMESSAGE::DM_SETEDITPOSITION, param1, param2),
            FarMessage::DmSetComboboxEvent { param1, param2 } => (ffi::FARMESSAGE::DM_SETCOMBOBOXEVENT, param1, param2),
            FarMessage::DmGetComboboxEvent { param1, param2 } => (ffi::FARMESSAGE::DM_GETCOMBOBOXEVENT, param1, param2),
            FarMessage::DmGetConstTextPtr { param1, param2 } => (ffi::FARMESSAGE::DM_GETCONSTTEXTPTR, param1, param2),
            FarMessage::DmGetDlgItemShort { param1, param2 } => (ffi::FARMESSAGE::DM_GETDLGITEMSHORT, param1, param2),
            FarMessage::DmSetDlgItemShort { param1, param2 } => (ffi::FARMESSAGE::DM_SETDLGITEMSHORT, param1, param2),
            FarMessage::DmGetDialogInfo { param1, param2 } => (ffi::FARMESSAGE::DM_GETDIALOGINFO, param1, param2),
            FarMessage::DmGetDialogTitle { param1, param2 } => (ffi::FARMESSAGE::DM_GETDIALOGTITLE, param1, param2),
            FarMessage::DnFirst { param1, param2 } => (ffi::FARMESSAGE::DN_FIRST, param1, param2),
            FarMessage::DnBtnClick { id, state } => (ffi::FARMESSAGE::DN_BTNCLICK, id, state.value as usize),
            FarMessage::DnCtlColorDialog { param1, param2 } => (ffi::FARMESSAGE::DN_CTLCOLORDIALOG, param1, param2),
            FarMessage::DnCtlColorDlgItem { param1, param2 } => (ffi::FARMESSAGE::DN_CTLCOLORDLGITEM, param1, param2),
            FarMessage::DnCtlColorDlgList { param1, param2 } => (ffi::FARMESSAGE::DN_CTLCOLORDLGLIST, param1, param2),
            FarMessage::DnDrawDialog { param1, param2 } => (ffi::FARMESSAGE::DN_DRAWDIALOG, param1, param2),
            FarMessage::DnDrawDlgItem { param1, param2 } => (ffi::FARMESSAGE::DN_DRAWDLGITEM, param1, param2),
            FarMessage::DnEditChange { param1, param2 } => (ffi::FARMESSAGE::DN_EDITCHANGE, param1, param2),
            FarMessage::DnEnterIdle { param1, param2 } => (ffi::FARMESSAGE::DN_ENTERIDLE, param1, param2),
            FarMessage::DnGotFocus { param1, param2 } => (ffi::FARMESSAGE::DN_GOTFOCUS, param1, param2),
            FarMessage::DnHelp { param1, param2 } => (ffi::FARMESSAGE::DN_HELP, param1, param2),
            FarMessage::DnHotKey { param1, param2 } => (ffi::FARMESSAGE::DN_HOTKEY, param1, param2),
            FarMessage::DnInitDialog { param1, param2 } => (ffi::FARMESSAGE::DN_INITDIALOG, param1, param2),
            FarMessage::DnKillFocus { param1, param2 } => (ffi::FARMESSAGE::DN_KILLFOCUS, param1, param2),
            FarMessage::DnListChange { param1, param2 } => (ffi::FARMESSAGE::DN_LISTCHANGE, param1, param2),
            FarMessage::DnDragged { param1, param2 } => (ffi::FARMESSAGE::DN_DRAGGED, param1, param2),
            FarMessage::DnResizeConsole { param1, param2 } => (ffi::FARMESSAGE::DN_RESIZECONSOLE, param1, param2),
            FarMessage::DnDrawDialogDone { param1, param2 } => (ffi::FARMESSAGE::DN_DRAWDIALOGDONE, param1, param2),
            FarMessage::DnListHotKey { param1, param2 } => (ffi::FARMESSAGE::DN_LISTHOTKEY, param1, param2),
            FarMessage::DnInput { param1, param2 } => (ffi::FARMESSAGE::DN_INPUT, param1, param2),
            FarMessage::DnControlInput { param1, param2 } => (ffi::FARMESSAGE::DN_CONTROLINPUT, param1, param2),
            FarMessage::DnClose { param1, param2 } => (ffi::FARMESSAGE::DN_CLOSE, param1, param2),
            FarMessage::DnGetValue { param1, param2 } => (ffi::FARMESSAGE::DN_GETVALUE, param1, param2),
            FarMessage::DnDropdownOpened { param1, param2 } => (ffi::FARMESSAGE::DN_DROPDOWNOPENED, param1, param2),
            FarMessage::DnDrawDlgItemDone { param1, param2 } => (ffi::FARMESSAGE::DN_DRAWDLGITEMDONE, param1, param2),
            FarMessage::DmUser { param1, param2 } => (ffi::FARMESSAGE::DM_USER, param1, param2),
        }
    }
}


/// Lays a whole item list out flat, in order.
pub fn marshal_dialog_items(items: Vec<FarDialogItem>) -> (r: Vec<RawFarDialogItem>)
    ensures
        r@.len() == items@.len(),
        forall|i: int| 0 <= i < items@.len() ==> (#[trigger] r@[i])@ == raw_of(items@[i]),
{
    let ghost orig = items@;
    let mut items = items;
    let mut raw: Vec<RawFarDialogItem> = Vec::new();
    let n = items.len();
    let mut i: usize = 0;
    while i < n
        invariant
            n == orig.len(),
            i <= n,
            items@ == orig.subrange(i as int, n as int),
            raw@.len() == i as int,
            forall|j: int| 0 <= j < i as int ==> (#[trigger] raw@[j])@ == raw_of(orig[j]),
        decreases n - i,
    {
        let item = items.remove(0);
        assert(item == orig[i as int]);
        raw.push(item.into_raw());
        proof {
            assert(items@ =~= orig.subrange(i as int + 1, n as int));
        }
        i = i + 1;
    }
    raw
}

/// A dialog the host has built from the plugin's items. The host-side
/// resources live until `free`; the host calls the plugin's dialog
/// procedure while `run` is in progress.
pub struct Dialog {
    handle: isize,
}

impl Dialog {
    /// The host-side handle.
    pub closed spec fn spec_handle(&self) -> isize {
        self.handle
    }

    /// A dialog only exists around a valid handle.
    pub open spec fn wf(&self) -> bool {
        self.spec_handle() != ffi::INVALID_HANDLE_VALUE
    }

    /// Reads the host's answer to a dialog build: a valid handle becomes a
    /// dialog, the invalid handle becomes the failure the caller reports.
    pub fn from_handle(handle: isize) -> (r: Result<Dialog, Error>)
        ensures
            handle == ffi::INVALID_HANDLE_VALUE <==> r is Err,
            r matches Ok(d) ==> d.spec_handle() == handle && d.wf(),
    {
        if handle == ffi::INVALID_HANDLE_VALUE {
            Err(Error::new(0))
        } else {
            Ok(Dialog { handle })
        }
    }

    /// Marshals the items and asks the host to build the dialog; fails
    /// exactly when the host answers with the invalid handle.
    pub fn init<A: FarApi>(
        api: &mut A,
        plugin_id: &ffi::GUID,
        id: &ffi::GUID,
        x1: isize,
        y1: isize,
        x2: isize,
        y2: isize,
        help_topic: Option<WideString>,
        dialog_items: Vec<FarDialogItem>,
        flags: u64,
    ) -> (r: Result<Dialog, Error>)
        ensures
            r matches Ok(d) ==> d.wf(),
    {
        let raw_items = marshal_dialog_items(dialog_items);
        let handle = api.dialog_init(
            plugin_id,
            id,
            x1,
            y1,
            x2,
            y2,
            help_topic.as_ref(),
            &raw_items,
            flags,
        );
        Dialog::from_handle(handle)
    }

    /// Runs the dialog to completion.
    pub fn run<A: FarApi>(&self, api: &mut A) {
        let _ = api.dialog_run(self.handle);
    }

    /// Releases the host-side resources; the handle is dead afterwards.
    pub fn free<A: FarApi>(self, api: &mut A) {
        api.dialog_free(self.handle);
    }
}

/// Runs the host's default processing for a message: the message is encoded
/// back into the host's triple and handed over.
pub fn def_dlg_proc<A: FarApi>(api: &mut A, h_dlg: HANDLE, msg: FarMessage) -> (r: isize) {
    let (ffi_msg, param1, param2) = msg.into();
    let code = ffi_msg.value();
    api.def_dlg_proc(h_dlg, code as isize, param1, param2)
}

/// Decoding a triple the table defines and encoding the result reproduces
/// the triple exactly; the state byte of a button click is the one reading
/// that loses nothing only while the parameter fits a byte.
#[verifier::rlimit(100)]
#[verifier::spinoff_prover]
pub proof fn lemma_msg_decode_encode(msg: ffi::FARMESSAGE, param1: isize, param2: usize)
    requires
        msg != ffi::FARMESSAGE::DM_GETDLGDATA,
        msg != ffi::FARMESSAGE::DM_SETDLGDATA,
        msg == ffi::FARMESSAGE::DN_BTNCLICK ==> param2 < 256,
    ensures
        msg_decode(msg, param1, param2) matches Some(m) && msg_encode(m) == (msg, param1, param2),
{
    match msg {
        ffi::FARMESSAGE::DM_FIRST => {
        },
        ffi::FARMESSAGE::DM_CLOSE => {
        },
        ffi::FARMESSAGE::DM_ENABLE => {
        },
        ffi::FARMESSAGE::DM_ENABLEREDRAW => {
        },
        ffi::FARMESSAGE::DM_GETDLGDATA => {
        },
        ffi::FARMESSAGE::DM_GETDLGITEM => {
        },
        ffi::FARMESSAGE::DM_GETDLGRECT => {
        },
        ffi::FARMESSAGE::DM_GETTEXT => {
        },
        ffi::FARMESSAGE::DM_KEY => {
        },
        ffi::FARMESSAGE::DM_MOVEDIALOG => {
        },
        ffi::FARMESSAGE::DM_SETDLGDATA => {
        },
        ffi::FARMESSAGE::DM_SETDLGITEM => {
        },
        ffi::FARMESSAGE::DM_SETFOCUS => {
        },
        ffi::FARMESSAGE::DM_REDRAW => {
        },
        ffi::FARMESSAGE::DM_SETTEXT => {
        },
        ffi::FARMESSAGE::DM_SETMAXTEXTLENGTH => {
        },
        ffi::FARMESSAGE::DM_SHOWDIALOG => {
        },
        ffi::FARMESSAGE::DM_GETFOCUS => {
        },
        ffi::FARMESSAGE::DM_GETCURSORPOS => {
        },
        ffi::FARMESSAGE::DM_SETCURSORPOS => {
        },
        ffi::FARMESSAGE::DM_SETTEXTPTR => {
        },
        ffi::FARMESSAGE::DM_SHOWITEM => {
        },
        ffi::FARMESSAGE::DM_ADDHISTORY => {
        },
        ffi::FARMESSAGE::DM_GETCHECK => {
        },
        ffi::FARMESSAGE::DM_SETCHECK => {
        },
        ffi::FARMESSAGE::DM_SET3STATE => {
        },
        ffi::FARMESSAGE::DM_LISTSORT => {
        },
        ffi::FARMESSAGE::DM_LISTGETITEM => {
        },
        ffi::FARMESSAGE::DM_LISTGETCURPOS => {
        },
        ffi::FARMESSAGE::DM_LISTSETCURPOS => {
        },
        ffi::FARMESSAGE::DM_LISTDELETE => {
        },
        ffi::FARMESSAGE::DM_LISTADD => {
        },
        ffi::FARMESSAGE::DM_LISTADDSTR => {
        },
        ffi::FARMESSAGE::DM_LISTUPDATE => {
        },
        ffi::FARMESSAGE::DM_LISTINSERT => {
        },
        ffi::FARMESSAGE::DM_LISTFINDSTRING => {
        },
        ffi::FARMESSAGE::DM_LISTINFO => {
        },
        ffi::FARMESSAGE::DM_LISTGETDATA => {
        },
        ffi::FARMESSAGE::DM_LISTSETDATA => {
        },
        ffi::FARMESSAGE::DM_LISTSETTITLES => {
        },
        ffi::FARMESSAGE::DM_LISTGETTITLES => {
        },
        ffi::FARMESSAGE::DM_RESIZEDIALOG => {
        },
        ffi::FARMESSAGE::DM_SETITEMPOSITION => {
        },
        ffi::FARMESSAGE::DM_GETDROPDOWNOPENED => {
        },
        ffi::FARMESSAGE::DM_SETDROPDOWNOPENED => {
        },
        ffi::FARMESSAGE::DM_SETHISTORY => {
        },
        ffi::FARMESSAGE::DM_GETITEMPOSITION => {
        },
        ffi::FARMESSAGE::DM_SETINPUTNOTIFY => {
        },
        ffi::FARMESSAGE::DM_EDITUNCHANGEDFLAG => {
        },
        ffi::FARMESSAGE::DM_GETITEMDATA => {
        },
        ffi::FARMESSAGE::DM_SETITEMDATA => {
        },
        ffi::FARMESSAGE::DM_LISTSET => {
        },
        ffi::FARMESSAGE::DM_GETCURSORSIZE => {
        },
        ffi::FARMESSAGE::DM_SETCURSORSIZE => {
        },
        ffi::FARMESSAGE::DM_LISTGETDATASIZE => {
        },
        ffi::FARMESSAGE::DM_GETSELECTION => {
        },
        ffi::FARMESSAGE::DM_SETSELECTION => {
        },
        ffi::FARMESSAGE::DM_GETEDITPOSITION => {
        },
        ffi::FARMESSAGE::DM_SETEDITPOSITION => {
        },
        ffi::FARMESSAGE::DM_SETCOMBOBOXEVENT => {
        },
        ffi::FARMESSAGE::DM_GETCOMBOBOXEVENT => {
        },
        ffi::FARMESSAGE::DM_GETCONSTTEXTPTR => {
        },
        ffi::FARMESSAGE::DM_GETDLGITEMSHORT => {
        },
        ffi::FARMESSAGE::DM_SETDLGITEMSHORT => {
        },
        ffi::FARMESSAGE::DM_GETDIALOGINFO => {
        },
        ffi::FARMESSAGE::DM_GETDIALOGTITLE => {
        },
        ffi::FARMESSAGE::DN_FIRST => {
        },
        ffi::FARMESSAGE::DN_BTNCLICK => {
            assert((param2 as u8) as usize == param2);
        },
        ffi::FARMESSAGE::DN_CTLCOLORDIALOG => {
        },
        ffi::FARMESSAGE::DN_CTLCOLORDLGITEM => {
        },
        ffi::FARMESSAGE::DN_CTLCOLORDLGLIST => {
        },
        ffi::FARMESSAGE::DN_DRAWDIALOG => {
        },
        ffi::FARMESSAGE::DN_DRAWDLGITEM => {
        },
        ffi::FARMESSAGE::DN_EDITCHANGE => {
        },
        ffi::FARMESSAGE::DN_ENTERIDLE => {
        },
        ffi::FARMESSAGE::DN_GOTFOCUS => {
        },
        ffi::FARMESSAGE::DN_HELP => {
        },
        ffi::FARMESSAGE::DN_HOTKEY => {
        },
        ffi::FARMESSAGE::DN_INITDIALOG => {
        },
        ffi::FARMESSAGE::DN_KILLFOCUS => {
        },
        ffi::FARMESSAGE::DN_LISTCHANGE => {
        },
        ffi::FARMESSAGE::DN_DRAGGED => {
        },
        ffi::FARMESSAGE::DN_RESIZECONSOLE => {
        },
        ffi::FARMESSAGE::DN_DRAWDIALOGDONE => {
        },
        ffi::FARMESSAGE::DN_LISTHOTKEY => {
        },
        ffi::FARMESSAGE::DN_INPUT => {
        },
        ffi::FARMESSAGE::DN_CONTROLINPUT => {
        },
        ffi::FARMESSAGE::DN_CLOSE => {
        },
        ffi::FARMESSAGE::DN_GETVALUE => {
        },
        ffi::FARMESSAGE::DN_DROPDOWNOPENED => {
        },
        ffi::FARMESSAGE::DN_DRAWDLGITEMDONE => {
        },
        ffi::FARMESSAGE::DM_USER => {
        },
    }
}

/// Encoding any message and decoding the result reproduces the message: the
/// dialog procedure sees exactly what was sent.
pub proof fn lemma_msg_encode_decode(m: FarMessage)
    ensures
        msg_decode(msg_encode(m).0, msg_encode(m).1, msg_encode(m).2) == Some(m),
{
}

/// A dialog's procedure, as the plugin author writes it: one call per
/// decoded message.
pub trait FarDialog {
    fn dlg_proc(&mut self, h_dlg: HANDLE, msg: FarMessage) -> isize;
}

/// The dialog-procedure shim: decodes the host's triple and hands the
/// message to the dialog's own procedure; a message code outside the table,
/// and the data-slot messages the binding keeps to itself, go to the host's
/// default processing instead.
pub fn dispatch_dlg_message<F: FarDialog, A: FarApi>(
    api: &mut A,
    dlg: &mut F,
    h_dlg: HANDLE,
    msg_code: u32,
    param1: isize,
    param2: usize,
) -> isize {
    match ffi::FARMESSAGE::from_value(msg_code) {
        Some(msg) => {
            match FarMessage::from(msg, param1, param2) {
                Some(far_msg) => dlg.dlg_proc(h_dlg, far_msg),
                None => api.def_dlg_proc(h_dlg, msg_code as isize, param1, param2),
            }
        },
        None => api.def_dlg_proc(h_dlg, msg_code as isize, param1, param2),
    }
}

/// The dialog-event entry point: this binding takes no interest in dialog
/// events and reports every one unhandled.
pub fn process_dialog_event() -> (r: isize)
    ensures
        r == 0,
{
    0
}

} // verus!
