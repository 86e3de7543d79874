use farmanager::dialog;
use farmanager::dialog::{DialogItemSelection, FarDialogItem, FarMessage};
use farmanager::ffi;
use farmanager::panel::Panel;
use farmanager::panel::PutFilesReturnCode;
use farmanager::ReturnCode;
use farmanager::WideString;

#[test]
fn openfrom_codes_round_trip() {
    assert_eq!(ffi::OPENFROM::OPEN_LEFTDISKMENU.value(), 0);
    assert_eq!(ffi::OPENFROM::OPEN_COMMANDLINE.value(), 4);
    assert_eq!(ffi::OPENFROM::OPEN_LUAMACRO.value(), 100);
    for code in [0u32, 1, 2, 3, 4, 5, 6, 7, 8, 9, 10, 11, 100] {
        let decoded = ffi::OPENFROM::from_value(code).expect("defined code");
        assert_eq!(decoded.value(), code);
    }
    assert!(ffi::OPENFROM::from_value(12).is_none());
    assert!(ffi::OPENFROM::from_value(99).is_none());
}

#[test]
fn far_events_codes_round_trip() {
    for code in 0u32..9 {
        let decoded = ffi::FAR_EVENTS::from_value(code).expect("defined code");
        assert_eq!(decoded.value(), code);
    }
    assert!(ffi::FAR_EVENTS::from_value(9).is_none());
}

#[test]
fn selected_enum_codes() {
    assert_eq!(ffi::FARDIALOGITEMTYPES::DI_TEXT.value(), 0);
    assert_eq!(ffi::FARDIALOGITEMTYPES::DI_LISTBOX.value(), 11);
    assert_eq!(ffi::FARDIALOGITEMTYPES::DI_USERCONTROL.value(), 255);
    assert_eq!(ffi::FARCHECKEDSTATE::BSTATE_TOGGLE.value(), 3);
    assert_eq!(ffi::PANELINFOTYPE::PTYPE_INFOPANEL.value(), 3);
    assert_eq!(ffi::OPENPANELINFO_SORTMODES::SM_COUNT.value(), 16);
    assert_eq!(ffi::FILE_CONTROL_COMMANDS::FCTL_GETUSERSCREEN.value(), 19);
    assert_eq!(ffi::FILE_CONTROL_COMMANDS::FCTL_SETACTIVEPANEL.value(), 35);
    assert_eq!(ffi::VersionStage::VS_RC.value(), 3);
    assert_eq!(ffi::FAR_FILE_FILTER_TYPE::FFT_CUSTOM.value(), 4);
    assert_eq!(
        ffi::FAR_FILE_FILTER_CONTROL_COMMANDS::FFCTL_ISFILEINFILTER.value(),
        4
    );
}

#[test]
fn service_table_codes() {
    assert_eq!(ffi::ADVANCED_CONTROL_COMMANDS::ACTL_GETFARMANAGERVERSION.value(), 0);
    assert_eq!(ffi::VIEWER_CONTROL_COMMANDS::VCTL_GETINFO.value(), 0);
    assert_eq!(ffi::EDITOR_CONTROL_COMMANDS::ECTL_GETSTRING.value(), 0);
    assert_eq!(ffi::FAR_SETTINGS_CONTROL_COMMANDS::SCTL_CREATE.value(), 0);
    assert_eq!(ffi::FARSETTINGSTYPES::FST_UNKNOWN.value(), 0);
    assert_eq!(ffi::FAR_PLUGIN_SETTINGS_LOCATION::PSL_ROAMING.value(), 0);
    assert_eq!(ffi::FAR_REGEXP_CONTROL_COMMANDS::RECTL_CREATE.value(), 0);
    assert_eq!(ffi::WINDOWINFO_TYPE::WTYPE_PANELS.value(), 1);
}

#[test]
fn farmessage_codes() {
    assert_eq!(ffi::FARMESSAGE::DM_FIRST.value(), 0);
    assert_eq!(ffi::FARMESSAGE::DM_CLOSE.value(), 1);
    assert_eq!(ffi::FARMESSAGE::DN_FIRST.value(), 4096);
    assert_eq!(ffi::FARMESSAGE::DM_USER.value(), 0x4000);
}

#[test]
fn version_record_matches_target_host() {
    let v = ffi::VersionInfo::current();
    assert_eq!(v.major, 3);
    assert_eq!(v.build, 5300);
    assert!(matches!(v.stage, ffi::VersionStage::VS_RELEASE));
}

#[test]
fn message_codec_round_trips_plain_message() {
    let m = FarMessage::DmClose { param1: 3, param2: 9 };
    let (msg, p1, p2) = m.into();
    assert!(matches!(msg, ffi::FARMESSAGE::DM_CLOSE));
    assert_eq!((p1, p2), (3, 9));
    match FarMessage::from(msg, p1, p2) {
        Some(FarMessage::DmClose { param1, param2 }) => {
            assert_eq!((param1, param2), (3, 9));
        }
        _ => panic!("round trip lost the message"),
    }
}

#[test]
fn message_codec_keeps_data_slot_messages() {
    assert!(FarMessage::from(ffi::FARMESSAGE::DM_GETDLGDATA, 0, 0).is_none());
    assert!(FarMessage::from(ffi::FARMESSAGE::DM_SETDLGDATA, 0, 0).is_none());
}

#[test]
fn message_codec_decodes_button_click_state() {
    match FarMessage::from(ffi::FARMESSAGE::DN_BTNCLICK, 5, 1) {
        Some(FarMessage::DnBtnClick { id, state }) => {
            assert_eq!(id, 5);
            assert_eq!(state.as_raw(), 1);
        }
        _ => panic!("wrong decoding"),
    }
    let m = FarMessage::DnBtnClick { id: 5, state: DialogItemSelection { value: 1 } };
    let (msg, p1, p2) = m.into();
    assert!(matches!(msg, ffi::FARMESSAGE::DN_BTNCLICK));
    assert_eq!((p1, p2), (5, 1));
}

#[test]
fn selection_readings() {
    let sel = DialogItemSelection { value: 2 };
    assert!(matches!(
        sel.as_check_box(),
        dialog::CheckBoxSelection::Undefined
    ));
    let sel = DialogItemSelection { value: 1 };
    assert!(matches!(
        sel.as_radio_button(),
        dialog::RadioButtonSelection::Active
    ));
    assert_eq!(dialog::ButtonSelection::Selected.into().as_raw(), 1);
    assert_eq!(dialog::CheckBoxSelection::Undefined.into().as_raw(), 2);
    assert_eq!(dialog::RadioButtonSelection::Previous.into().as_raw(), 0);
}

#[test]
fn dialog_item_checkbox_lays_out_flat() {
    let item = FarDialogItem::CheckBox {
        x: 2,
        y: 5,
        selected: DialogItemSelection { value: 1 },
        flags: 0,
        text: WideString::from_str("check"),
    };
    let raw = item.into_raw();
    assert!(matches!(raw.item_type, ffi::FARDIALOGITEMTYPES::DI_CHECKBOX));
    assert_eq!((raw.x1, raw.y1, raw.x2, raw.y2), (2, 5, 0, 5));
    assert_eq!(raw.param_selected, 1);
    assert!(raw.history.is_none());
    assert!(raw.mask.is_none());
    assert_eq!(
        raw.data.unwrap().as_ptr().as_slice(),
        &[99u16, 104, 101, 99, 107, 0]
    );
}

#[test]
fn dialog_item_edit_carries_history_and_text() {
    let item = FarDialogItem::Edit {
        x1: 1,
        y: 2,
        x2: 30,
        history: Some(WideString::from_str("hist")),
        flags: 0,
        text: Some(WideString::from_str("start")),
    };
    let raw = item.into_raw();
    assert!(matches!(raw.item_type, ffi::FARDIALOGITEMTYPES::DI_EDIT));
    assert_eq!((raw.x1, raw.y1, raw.x2, raw.y2), (1, 2, 30, 2));
    assert_eq!(
        raw.history.unwrap().as_ptr().as_slice(),
        &[104u16, 105, 115, 116, 0]
    );
    assert_eq!(
        raw.data.unwrap().as_ptr().as_slice(),
        &[115u16, 116, 97, 114, 116, 0]
    );
}

#[test]
fn dialog_items_marshal_in_order() {
    let items = vec![
        FarDialogItem::DoubleBox {
            x1: 0,
            y1: 0,
            x2: 10,
            y2: 5,
            flags: 0,
            title: Some(WideString::from_str("t")),
        },
        FarDialogItem::Button {
            x: 2,
            y: 4,
            selected: DialogItemSelection { value: 0 },
            flags: 0,
            text: WideString::from_str("Ok"),
        },
    ];
    let raw = dialog::marshal_dialog_items(items);
    assert_eq!(raw.len(), 2);
    assert!(matches!(raw[0].item_type, ffi::FARDIALOGITEMTYPES::DI_DOUBLEBOX));
    assert!(matches!(raw[1].item_type, ffi::FARDIALOGITEMTYPES::DI_BUTTON));
    assert_eq!(raw[1].data.as_ref().unwrap().as_ptr().as_slice(), &[79u16, 107, 0]);
}

#[test]
fn guid_default_is_marked() {
    let g = ffi::GUID::default_guid();
    assert_eq!((g.data1, g.data2, g.data3, g.data4), (0, 0, 0, 1));
}

#[test]
fn default_records() {
    let v = ffi::VersionInfo::default();
    assert_eq!((v.major, v.minor, v.revision, v.build), (0, 0, 0, 0));
    assert!(matches!(v.stage, ffi::VersionStage::VS_RELEASE));
    let c = ffi::FarColor::default();
    assert_eq!((c.flags, c.foreground_color, c.background_color), (3, 0, 0));
    let g = farmanager::basic::GlobalInfo::default();
    assert_eq!(g.guid.data4, 1);
    assert_eq!(g.title, "");
}

#[test]
fn edit_kinds() {
    assert_eq!(ffi::is_edit(ffi::FARDIALOGITEMTYPES::DI_EDIT), 1);
    assert_eq!(ffi::is_edit(ffi::FARDIALOGITEMTYPES::DI_FIXEDIT), 1);
    assert_eq!(ffi::is_edit(ffi::FARDIALOGITEMTYPES::DI_PSWEDIT), 1);
    assert_eq!(ffi::is_edit(ffi::FARDIALOGITEMTYPES::DI_COMBOBOX), 1);
    assert_eq!(ffi::is_edit(ffi::FARDIALOGITEMTYPES::DI_BUTTON), 0);
    assert_eq!(ffi::is_edit(ffi::FARDIALOGITEMTYPES::DI_TEXT), 0);
}

#[test]
fn dialog_events_are_declined() {
    assert_eq!(dialog::process_dialog_event(), 0);
}

#[test]
fn panel_designations_map_to_sentinels() {
    assert_eq!(Panel::Active.into_handle(), -1);
    assert_eq!(Panel::Passive.into_handle(), -2);
    assert_eq!(Panel::NoPanel.into_handle(), -1);
    assert_eq!(Panel::Handle(12).into_handle(), 12);
}

#[test]
fn return_codes() {
    assert_eq!(ReturnCode::Success.value(), 1);
    assert_eq!(ReturnCode::UserCancel.value(), -1);
    assert_eq!(PutFilesReturnCode::SuccessNoFileSelect.value(), 2);
}
