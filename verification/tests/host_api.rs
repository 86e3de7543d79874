use farmanager::basic;
use farmanager::dialog;
use farmanager::editor;
use farmanager::farapi::FarApi;
use farmanager::ffi;
use farmanager::misc;
use farmanager::panel;
use farmanager::panel::control;
use farmanager::panel::filter;
use farmanager::viewer;
use farmanager::WideString;

struct MockApi {
    msg_units: Vec<u16>,
    input_ret: (isize, Vec<u16>),
    menu_ret: (isize, isize),
    message_ret: isize,
    help_ret: isize,
    color_ret: (isize, ffi::FarColor),
    dialog_handle: isize,
    simple_ret: isize,
    size_ret: isize,
    buf_ret: (isize, Vec<u16>),
    int_ret: (isize, isize),
    span_ret: (isize, isize, isize),
    panel_info_ret: (isize, ffi::PanelInfo),
    dir_name: Vec<u16>,
    dir_file: Vec<u16>,
    dir_code: isize,
    filter_ret: (isize, isize),
    dir_list_ok: bool,
    calls: Vec<String>,
}

fn panel_info_sample() -> ffi::PanelInfo {
    ffi::PanelInfo {
        struct_size: 0,
        plugin_handle: 3,
        owner_guid: ffi::GUID::default_guid(),
        flags: 0,
        items_number: 10,
        selected_items_number: 2,
        panel_rect: ffi::RECT { left: 0, top: 0, right: 80, bottom: 25 },
        current_item: 4,
        top_panel_item: 0,
        view_mode: 1,
        panel_type: ffi::PANELINFOTYPE::PTYPE_FILEPANEL,
        sort_mode: ffi::OPENPANELINFO_SORTMODES::SM_NAME,
    }
}

fn mock() -> MockApi {
    MockApi {
        msg_units: vec![72u16, 105, 0],
        input_ret: (1, vec![111u16, 107, 0]),
        menu_ret: (2, -1),
        message_ret: 0,
        help_ret: 1,
        color_ret: (1, ffi::FarColor { flags: 3, foreground_color: 7, background_color: 1 }),
        dialog_handle: 5,
        simple_ret: 1,
        size_ret: 6,
        buf_ret: (1, vec![52u16, 44, 48, 44, 56, 0]),
        int_ret: (1, 17),
        span_ret: (1, 3, 9),
        panel_info_ret: (1, panel_info_sample()),
        dir_name: vec![67u16, 58, 92, 0],
        dir_file: vec![0u16],
        dir_code: 1,
        filter_ret: (1, 99),
        dir_list_ok: true,
        calls: Vec::new(),
    }
}

impl FarApi for MockApi {
    fn get_msg(&mut self, _plugin_id: &ffi::GUID, msg_id: isize) -> Vec<u16> {
        self.calls.push(format!("get_msg {}", msg_id));
        self.msg_units.clone()
    }

    fn input_box(
        &mut self,
        _plugin_id: &ffi::GUID,
        _id: &ffi::GUID,
        _title: Option<&WideString>,
        _sub_title: Option<&WideString>,
        _history_name: Option<&WideString>,
        _src_text: Option<&WideString>,
        _dest_length: usize,
        _help_topic: Option<&WideString>,
        _flags: u64,
    ) -> (isize, Vec<u16>) {
        (self.input_ret.0, self.input_ret.1.clone())
    }

    fn menu(
        &mut self,
        _plugin_id: &ffi::GUID,
        _id: &ffi::GUID,
        _x: isize,
        _y: isize,
        _max_height: isize,
        _flags: u64,
        _title: Option<&WideString>,
        _bottom: Option<&WideString>,
        _help_topic: Option<&WideString>,
        break_keys: &Vec<ffi::FarKey>,
        items: &Vec<ffi::FarMenuItem>,
    ) -> (isize, isize) {
        self.calls.push(format!("menu {} items {} keys", items.len(), break_keys.len()));
        self.menu_ret
    }

    fn message(
        &mut self,
        _plugin_id: &ffi::GUID,
        _id: &ffi::GUID,
        flags: u64,
        _help_topic: Option<&WideString>,
        items: &farmanager::common::string::WideStringArray,
        items_number: usize,
        _buttons_number: isize,
    ) -> isize {
        self.calls.push(format!(
            "message flags {} items {} number {}",
            flags,
            items.len(),
            items_number
        ));
        self.message_ret
    }

    fn show_help(
        &mut self,
        module_name: &WideString,
        _topic: Option<&WideString>,
        _flags: u64,
    ) -> isize {
        self.calls.push(format!("show_help {}", module_name.to_string_lossy()));
        self.help_ret
    }

    fn color_dialog(
        &mut self,
        _plugin_id: &ffi::GUID,
        _flags: u64,
        _color: ffi::FarColor,
    ) -> (isize, ffi::FarColor) {
        self.color_ret
    }

    fn viewer(
        &mut self,
        file_name: &WideString,
        _title: Option<&WideString>,
        _x1: isize,
        _y1: isize,
        _x2: isize,
        _y2: isize,
        _flags: u64,
        _code_page: usize,
    ) -> isize {
        self.calls.push(format!("viewer {}", file_name.to_string_lossy()));
        1
    }

    fn editor(
        &mut self,
        file_name: &WideString,
        _title: Option<&WideString>,
        _x1: isize,
        _y1: isize,
        _x2: isize,
        _y2: isize,
        _flags: u64,
        _start_line: isize,
        _start_char: isize,
        _code_page: usize,
    ) -> isize {
        self.calls.push(format!("editor {}", file_name.to_string_lossy()));
        1
    }

    fn dialog_init(
        &mut self,
        _plugin_id: &ffi::GUID,
        _id: &ffi::GUID,
        _x1: isize,
        _y1: isize,
        _x2: isize,
        _y2: isize,
        _help_topic: Option<&WideString>,
        items: &Vec<dialog::RawFarDialogItem>,
        _flags: u64,
    ) -> isize {
        self.calls.push(format!("dialog_init {} items", items.len()));
        self.dialog_handle
    }

    fn dialog_run(&mut self, handle: isize) -> isize {
        self.calls.push(format!("dialog_run {}", handle));
        0
    }

    fn dialog_free(&mut self, handle: isize) {
        self.calls.push(format!("dialog_free {}", handle));
    }

    fn send_dlg_message(
        &mut self,
        _h_dlg: usize,
        msg: isize,
        _param1: isize,
        _param2: usize,
    ) -> isize {
        self.calls.push(format!("send_dlg_message {}", msg));
        0
    }

    fn def_dlg_proc(&mut self, _h_dlg: usize, msg: isize, param1: isize, _param2: usize) -> isize {
        self.calls.push(format!("def_dlg_proc {} {}", msg, param1));
        42
    }

    fn panel_control(
        &mut self,
        panel: isize,
        command: ffi::FILE_CONTROL_COMMANDS,
        param1: isize,
    ) -> isize {
        self.calls.push(format!("panel_control {} {} {}", panel, command.value(), param1));
        if matches!(
            command,
            ffi::FILE_CONTROL_COMMANDS::FCTL_GETCOLUMNTYPES
                | ffi::FILE_CONTROL_COMMANDS::FCTL_GETCOLUMNWIDTHS
                | ffi::FILE_CONTROL_COMMANDS::FCTL_GETCMDLINE
                | ffi::FILE_CONTROL_COMMANDS::FCTL_GETPANELFORMAT
                | ffi::FILE_CONTROL_COMMANDS::FCTL_GETPANELHOSTFILE
                | ffi::FILE_CONTROL_COMMANDS::FCTL_GETPANELPREFIX
        ) {
            self.size_ret
        } else {
            self.simple_ret
        }
    }

    fn panel_control_text(
        &mut self,
        _panel: isize,
        command: ffi::FILE_CONTROL_COMMANDS,
        _param1: isize,
        text: Option<&WideString>,
    ) -> isize {
        let shown = match text {
            Some(w) => w.to_string_lossy(),
            None => "<null>".to_string(),
        };
        self.calls.push(format!("panel_control_text {} {}", command.value(), shown));
        self.simple_ret
    }

    fn panel_control_read_buf(
        &mut self,
        _panel: isize,
        _command: ffi::FILE_CONTROL_COMMANDS,
        _chars_count: usize,
    ) -> (isize, Vec<u16>) {
        (self.buf_ret.0, self.buf_ret.1.clone())
    }

    fn panel_control_read_int(
        &mut self,
        _panel: isize,
        _command: ffi::FILE_CONTROL_COMMANDS,
        _param1: isize,
    ) -> (isize, isize) {
        self.int_ret
    }

    fn panel_control_set_span(
        &mut self,
        _panel: isize,
        command: ffi::FILE_CONTROL_COMMANDS,
        start: isize,
        end: isize,
    ) -> isize {
        self.calls.push(format!("set_span {} {} {}", command.value(), start, end));
        self.simple_ret
    }

    fn panel_control_read_span(
        &mut self,
        _panel: isize,
        _command: ffi::FILE_CONTROL_COMMANDS,
    ) -> (isize, isize, isize) {
        self.span_ret
    }

    fn panel_control_value(
        &mut self,
        _panel: isize,
        command: ffi::FILE_CONTROL_COMMANDS,
        param1: isize,
        value: isize,
    ) -> isize {
        self.calls.push(format!("value {} {} {}", command.value(), param1, value));
        self.simple_ret
    }

    fn panel_control_get_item(
        &mut self,
        _panel: isize,
        _command: ffi::FILE_CONTROL_COMMANDS,
        item_index: isize,
    ) -> Option<ffi::PluginPanelItem> {
        if self.simple_ret == 0 {
            None
        } else {
            Some(raw_item(&format!("item{}.txt", item_index)))
        }
    }

    fn panel_control_set_directory(
        &mut self,
        _panel: isize,
        _plugin_id: &ffi::GUID,
        name: &WideString,
        file: &WideString,
    ) -> isize {
        self.calls.push(format!(
            "set_directory {} {}",
            name.to_string_lossy(),
            file.to_string_lossy()
        ));
        self.simple_ret
    }

    fn panel_control_get_panel_info(&mut self, _panel: isize) -> (isize, ffi::PanelInfo) {
        self.panel_info_ret
    }

    fn panel_control_get_directory(&mut self, _panel: isize) -> (isize, ffi::FarPanelDirectoryOut) {
        (
            self.dir_code,
            ffi::FarPanelDirectoryOut {
                name: self.dir_name.clone(),
                plugin_id: ffi::GUID::default_guid(),
                file: self.dir_file.clone(),
            },
        )
    }

    fn panel_control_redraw(
        &mut self,
        panel: isize,
        current_item: usize,
        top_panel_item: usize,
    ) -> isize {
        self.calls.push(format!("redraw {} {} {}", panel, current_item, top_panel_item));
        self.simple_ret
    }

    fn file_filter_control(
        &mut self,
        _handle: isize,
        command: ffi::FAR_FILE_FILTER_CONTROL_COMMANDS,
        _param1: isize,
        item: Option<&ffi::PluginPanelItem>,
    ) -> (isize, isize) {
        let with_item = match item {
            Some(raw) => raw.file_name.to_string_lossy(),
            None => "<none>".to_string(),
        };
        self.calls.push(format!("filter {} {}", command.value(), with_item));
        self.filter_ret
    }

    fn get_dir_list(&mut self, dir: &WideString) -> Option<Vec<ffi::PluginPanelItem>> {
        self.calls.push(format!("get_dir_list {}", dir.to_string_lossy()));
        if self.dir_list_ok {
            Some(vec![raw_item("seen.txt")])
        } else {
            None
        }
    }

    fn get_plugin_dir_list(
        &mut self,
        _plugin_id: &ffi::GUID,
        _h_panel: usize,
        _dir: &WideString,
    ) -> Option<Vec<ffi::PluginPanelItem>> {
        if self.dir_list_ok {
            Some(vec![raw_item("inner.txt")])
        } else {
            None
        }
    }
}

fn raw_item(name: &str) -> ffi::PluginPanelItem {
    ffi::PluginPanelItem {
        creation_time: ffi::FILETIME::zero(),
        last_access_time: ffi::FILETIME::zero(),
        last_write_time: ffi::FILETIME::zero(),
        change_time: ffi::FILETIME::zero(),
        file_size: 2,
        allocation_size: 2,
        file_name: WideString::from_str(name),
        alternate_file_name: None,
        description: None,
        owner: None,
        flags: 0,
        file_attributes: 0,
        number_of_links: 0,
        crc32: 0,
    }
}

fn ready_ctx() -> basic::ctx::Context {
    let mut ctx = basic::ctx::Context::new();
    ctx.install_global_info(&basic::GlobalInfo {
        min_far_version: ffi::VersionInfo::current(),
        version: ffi::VersionInfo::current(),
        guid: ffi::GUID::default_guid(),
        title: "t".to_string(),
        description: "d".to_string(),
        author: "a".to_string(),
    });
    ctx
}

struct Key(isize);

impl basic::Langpack for Key {
    fn to_message_id(&self) -> isize {
        self.0
    }
}

#[test]
fn get_msg_copies_host_buffer() {
    let mut api = mock();
    let ctx = ready_ctx();
    let msg = basic::get_msg(&mut api, &ctx, &Key(4));
    assert_eq!(msg.to_string_lossy(), "Hi");
    assert_eq!(api.calls, vec!["get_msg 4"]);
}

#[test]
fn input_box_reads_typed_text() {
    let mut api = mock();
    let ctx = ready_ctx();
    let guid = ffi::GUID::default_guid();
    let r = basic::input_box(&mut api, &ctx, &guid, None, None, None, None, 32, None, 0);
    assert_eq!(r.unwrap().to_string_lossy(), "ok");

    api.input_ret = (0, vec![0u16]);
    let r = basic::input_box(&mut api, &ctx, &guid, None, None, None, None, 32, None, 0);
    assert!(r.is_none());
}

#[test]
fn menu_marshals_items_and_reads_codes() {
    let mut api = mock();
    let ctx = ready_ctx();
    let guid = ffi::GUID::default_guid();
    let items = vec![basic::FarMenuItem {
        flags: 0,
        text: "First".to_string(),
        accel_key: ffi::FarKey { virtual_key_code: 0, control_key_state: 0 },
    }];
    let (chosen, brk) = basic::menu(
        &mut api,
        &ctx,
        &guid,
        None,
        None,
        None,
        0,
        Some("Title"),
        None,
        None,
        None,
        items,
    );
    assert_eq!(chosen, Some(2));
    assert_eq!(brk, None);
    // One entry went over, and the break-key list carries its terminator.
    assert_eq!(api.calls, vec!["menu 1 items 1 keys"]);
}

#[test]
fn message_clears_or_sets_all_in_one_bit() {
    let mut api = mock();
    let ctx = ready_ctx();
    let guid = ffi::GUID::default_guid();
    let lines = basic::MessageItems::Lines(vec![
        WideString::from_str("a"),
        WideString::from_str("b"),
    ]);
    let r = basic::message(&mut api, &ctx, &guid, 0x10, None, lines, 1);
    assert_eq!(r, Some(0));
    assert_eq!(api.calls, vec!["message flags 0 items 2 number 2"]);

    api.calls.clear();
    let one = basic::MessageItems::AllInOne(WideString::from_str("a\nb"));
    let _ = basic::message(&mut api, &ctx, &guid, 0, None, one, 1);
    assert_eq!(api.calls, vec!["message flags 16 items 1 number 0"]);
}

#[test]
fn show_help_reads_truth_value() {
    let mut api = mock();
    assert!(basic::show_help(&mut api, "mod", None, 0));
    api.help_ret = 0;
    assert!(!basic::show_help(&mut api, "mod", None, 0));
}

#[test]
fn dir_list_decodes_or_fails() {
    let mut api = mock();
    let items = basic::get_dir_list(&mut api, "C:\\").unwrap();
    assert_eq!(items.len(), 1);
    assert_eq!(items[0].file_name, "seen.txt");
    api.dir_list_ok = false;
    assert!(basic::get_dir_list(&mut api, "C:\\").is_none());
}

#[test]
fn color_chooser_reads_outcome() {
    let mut api = mock();
    let ctx = ready_ctx();
    let color = misc::show_color_chooser_dialog(&mut api, &ctx, 0).unwrap();
    assert_eq!(color.foreground_color, 7);
    api.color_ret.0 = 0;
    assert!(misc::show_color_chooser_dialog(&mut api, &ctx, 0).is_none());
}

#[test]
fn viewer_and_editor_encode_path() {
    let mut api = mock();
    viewer::open_viewer(&mut api, "C:\\readme.txt".to_string());
    editor::open_editor(&mut api, WideString::from_str("C:\\notes.txt"));
    assert_eq!(api.calls, vec!["viewer C:\\readme.txt", "editor C:\\notes.txt"]);
}

#[test]
fn dialog_init_fails_exactly_on_invalid_handle() {
    let mut api = mock();
    let guid = ffi::GUID::default_guid();
    let d = dialog::Dialog::init(&mut api, &guid, &guid, 0, 0, 10, 5, None, Vec::new(), 0)
        .expect("valid handle");
    d.run(&mut api);
    d.free(&mut api);
    assert_eq!(api.calls, vec!["dialog_init 0 items", "dialog_run 5", "dialog_free 5"]);

    api.dialog_handle = ffi::INVALID_HANDLE_VALUE;
    assert!(dialog::Dialog::init(&mut api, &guid, &guid, 0, 0, 10, 5, None, Vec::new(), 0)
        .is_err());
}

struct RecordingDialog {
    seen: Vec<String>,
}

impl dialog::FarDialog for RecordingDialog {
    fn dlg_proc(&mut self, _h_dlg: usize, msg: dialog::FarMessage) -> isize {
        match msg {
            dialog::FarMessage::DnBtnClick { id, state } => {
                self.seen.push(format!("btn {} {}", id, state.as_raw()));
                7
            }
            dialog::FarMessage::DmClose { param1, .. } => {
                self.seen.push(format!("close {}", param1));
                8
            }
            _ => 0,
        }
    }
}

#[test]
fn dlg_message_dispatch_decodes_or_defers() {
    let mut api = mock();
    let mut dlg = RecordingDialog { seen: Vec::new() };
    // DN_BTNCLICK is 4097: decoded and handled by the dialog.
    let r = dialog::dispatch_dlg_message(&mut api, &mut dlg, 1, 4097, 2, 1);
    assert_eq!(r, 7);
    // DM_GETDLGDATA is 4: kept by the binding, deferred to the host.
    let r = dialog::dispatch_dlg_message(&mut api, &mut dlg, 1, 4, 0, 0);
    assert_eq!(r, 42);
    // An unknown code is deferred to the host.
    let r = dialog::dispatch_dlg_message(&mut api, &mut dlg, 1, 60000, 0, 0);
    assert_eq!(r, 42);
    assert_eq!(dlg.seen, vec!["btn 2 1"]);
}

#[test]
fn farmessage_code_round_trip() {
    for code in [0u32, 1, 7, 4096, 4103, 0x4000] {
        let m = ffi::FARMESSAGE::from_value(code).expect("defined code");
        assert_eq!(m.value(), code);
    }
    assert!(ffi::FARMESSAGE::from_value(60000).is_none());
}

#[test]
fn def_dlg_proc_encodes_message() {
    let mut api = mock();
    let r = dialog::def_dlg_proc(&mut api, 1, dialog::FarMessage::DmClose { param1: 6, param2: 0 });
    assert_eq!(r, 42);
    assert_eq!(api.calls, vec!["def_dlg_proc 1 6"]);
}

#[test]
fn column_types_split_at_commas() {
    let mut api = mock();
    // The host's buffer holds "4,0,8"; as column kinds this splits to three.
    let types = control::get_column_types(&mut api, panel::Panel::Active).unwrap();
    assert_eq!(types, vec!["4", "0", "8"]);
}

#[test]
fn column_widths_split_and_parse() {
    let mut api = mock();
    let widths = control::get_column_widths(&mut api, panel::Panel::Active).unwrap();
    assert_eq!(widths, vec![4, 0, 8]);
}

#[test]
fn column_widths_reject_non_numeric_piece() {
    let mut api = mock();
    api.buf_ret = (1, vec![52u16, 44, 120, 0]);  // "4,x"
    assert!(control::get_column_widths(&mut api, panel::Panel::Active).is_err());
}

#[test]
fn column_read_fails_when_size_query_fails() {
    let mut api = mock();
    api.size_ret = 0;
    assert!(control::get_column_types(&mut api, panel::Panel::Active).is_err());
}

#[test]
fn parse_usize_exactly_the_numbers() {
    assert_eq!(control::parse_usize("123"), Some(123));
    assert_eq!(control::parse_usize("0"), Some(0));
    assert_eq!(control::parse_usize(""), None);
    assert_eq!(control::parse_usize("12a"), None);
    assert_eq!(control::parse_usize("99999999999999999999999"), None);
}

#[test]
fn split_commas_keeps_empty_segments() {
    let pieces = control::split_commas_exec("a,,b");
    assert_eq!(pieces, vec!["a", "", "b"]);
    assert_eq!(control::split_commas_exec(""), vec![""]);
    assert_eq!(control::split_commas_exec("xy"), vec!["xy"]);
}

#[test]
fn command_line_calls() {
    let mut api = mock();
    api.buf_ret = (1, vec![100u16, 105, 114, 0]);
    assert_eq!(control::get_cmd_line(&mut api).unwrap(), "dir");
    assert!(control::set_cmd_line(&mut api, "cls").is_ok());
    assert!(control::insert_cmd_line(&mut api, "x").is_ok());
    assert_eq!(control::get_cmd_line_pos(&mut api).unwrap(), 17);
    assert!(control::set_cmd_line_pos(&mut api, 2).is_ok());
    assert_eq!(control::get_cmd_line_selection(&mut api).unwrap(), (3, 9));
    assert!(control::set_cmd_line_selection(&mut api, 1, 2).is_ok());
}

#[test]
fn panel_state_decodes() {
    let mut api = mock();
    let info = control::get_panel_info(&mut api, panel::Panel::Active).unwrap();
    assert_eq!(info.items_number, 10);
    assert_eq!(info.current_item, 4);
    assert!(matches!(info.panel_type, ffi::PANELINFOTYPE::PTYPE_FILEPANEL));
    api.panel_info_ret.0 = 0;
    assert!(control::get_panel_info(&mut api, panel::Panel::Active).is_err());
}

#[test]
fn panel_directory_decodes() {
    let mut api = mock();
    let dir = control::get_panel_directory(&mut api, panel::Panel::Active).unwrap();
    assert_eq!(dir.name, "C:\\");
    assert_eq!(dir.file, "");
}

#[test]
fn simple_panel_commands_read_truth() {
    let mut api = mock();
    assert!(control::check_panels_exist(&mut api));
    assert!(control::is_active_panel(&mut api, panel::Panel::Active));
    assert!(control::begin_selection(&mut api, panel::Panel::Active));
    assert!(control::end_selection(&mut api, panel::Panel::Active));
    assert!(control::clear_selection(&mut api, panel::Panel::Active, 0));
    assert!(control::set_selection(&mut api, panel::Panel::Active, 1, true));
    assert!(control::update_panel(&mut api, panel::Panel::Active, true));
    assert!(control::set_sort_mode(
        &mut api,
        panel::Panel::Active,
        ffi::OPENPANELINFO_SORTMODES::SM_NAME
    ));
    assert!(control::set_sort_order(
        &mut api,
        panel::Panel::Active,
        panel::OPENPANELINFO_SORTORDERS::DESC
    ));
    assert!(control::set_directories_first(&mut api, panel::Panel::Active, true));
    assert!(control::redraw_panel(
        &mut api,
        panel::Panel::Active,
        &panel::PanelRedrawInfo { current_item: 1, top_panel_item: 0 }
    ));
    assert!(control::set_user_screen(&mut api, false));
    assert!(control::get_user_screen(&mut api, false));
}

#[test]
fn panel_item_reads_decode() {
    let mut api = mock();
    let item = control::get_panel_item(&mut api, panel::Panel::Active, 3).unwrap();
    assert_eq!(item.file_name, "item3.txt");
    let item = control::get_current_panel_item(&mut api, panel::Panel::Active).unwrap();
    assert_eq!(item.file_name, "item0.txt");
    let item = control::get_selected_panel_item(&mut api, panel::Panel::Active, 2).unwrap();
    assert_eq!(item.file_name, "item2.txt");
    api.simple_ret = 0;
    assert!(control::get_panel_item(&mut api, panel::Panel::Active, 3).is_err());
}

#[test]
fn set_panel_directory_encodes_both_texts() {
    let mut api = mock();
    assert!(control::set_panel_directory(
        &mut api,
        panel::Panel::Active,
        ffi::GUID::default_guid(),
        "C:\\next".to_string(),
        "".to_string()
    )
    .is_ok());
    assert_eq!(api.calls, vec!["set_directory C:\\next "]);
}

#[test]
fn filter_service_marshals_item_and_reads_answers() {
    let mut api = mock();
    let f = filter::file_filter(&mut api, panel::Panel::Active, filter::FileFilterType::Panel)
        .expect("created");
    f.starting_to_filter(&mut api);
    let rich = panel::PluginPanelItem {
        creation_time: ffi::FILETIME::zero(),
        last_access_time: ffi::FILETIME::zero(),
        last_write_time: ffi::FILETIME::zero(),
        change_time: ffi::FILETIME::zero(),
        file_size: 0,
        allocation_size: 0,
        file_name: "probe.txt".to_string(),
        alternate_file_name: None,
        description: None,
        owner: None,
        flags: 0,
        file_attributes: 0,
        number_of_links: 0,
        crc32: 0,
    };
    assert!(f.is_file_in_filter(&mut api, rich));
    f.free(&mut api);
    assert_eq!(
        api.calls,
        vec![
            "filter 0 <none>",
            "filter 3 <none>",
            "filter 4 probe.txt",
            "filter 1 <none>"
        ]
    );

    api.filter_ret = (0, 0);
    assert!(
        filter::file_filter(&mut api, panel::Panel::Active, filter::FileFilterType::Copy).is_err()
    );
}
