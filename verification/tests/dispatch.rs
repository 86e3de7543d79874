use farmanager::basic;
use farmanager::ffi;
use farmanager::panel;
use farmanager::panel::ctx::Context;
use farmanager::Error;
use farmanager::ReturnCode;

struct TestPlugin {
    open_info: panel::OpenPanelInfo,
    items: panel::PluginPanelItems,
    fail_find_data: bool,
    fail_delete: bool,
    freed: Vec<usize>,
    last_set_directory: Option<String>,
    last_opened: Option<String>,
}

fn rich_item(name: &str) -> panel::PluginPanelItem {
    panel::PluginPanelItem {
        creation_time: ffi::FILETIME::zero(),
        last_access_time: ffi::FILETIME::zero(),
        last_write_time: ffi::FILETIME::zero(),
        change_time: ffi::FILETIME::zero(),
        file_size: 1,
        allocation_size: 1,
        file_name: name.to_string(),
        alternate_file_name: None,
        description: None,
        owner: None,
        flags: 0,
        file_attributes: 0,
        number_of_links: 0,
        crc32: 0,
    }
}

fn test_plugin(fail_find_data: bool) -> TestPlugin {
    TestPlugin {
        open_info: panel::OpenPanelInfo {
            flags: 0,
            host_file: None,
            cur_dir: "C:\\Users\\test".to_string(),
            format: None,
            panel_title: "T".to_string(),
            info_lines: Vec::new(),
            descr_files: None,
            start_panel_mode: 0,
            start_sort_mode: ffi::OPENPANELINFO_SORTMODES::SM_DEFAULT,
            start_sort_order: panel::OPENPANELINFO_SORTORDERS::ASC,
            shortcut_data: None,
            free_size: 0,
        },
        items: panel::PluginPanelItems::from(vec![rich_item("a"), rich_item("b")]),
        fail_find_data,
        fail_delete: false,
        freed: Vec::new(),
        last_set_directory: None,
        last_opened: None,
    }
}

impl panel::ExportFunctions for TestPlugin {
    fn get_open_panel_info(&mut self, _handle: usize) -> &panel::OpenPanelInfo {
        &self.open_info
    }

    fn get_find_data(
        &mut self,
        _info: panel::GetFindDataInfo,
    ) -> Result<&panel::PluginPanelItems, Error> {
        if self.fail_find_data {
            Err(Error::new(7))
        } else {
            Ok(&self.items)
        }
    }

    fn delete_files(&mut self, _info: panel::DeleteFilesInfo) -> Result<(), Error> {
        if self.fail_delete {
            Err(Error::new(1))
        } else {
            Ok(())
        }
    }

    fn free_find_data(&mut self, handle: usize) {
        self.freed.push(handle);
    }

    fn set_directory(&mut self, _handle: usize, path: &String) -> Result<(), Error> {
        self.last_set_directory = Some(path.clone());
        Ok(())
    }

    fn make_directory(
        &mut self,
        info: &mut panel::MakeDirectoryInfo,
    ) -> Result<ReturnCode, Error> {
        info.name = format!("{}{}", info.name, "2");
        Ok(ReturnCode::Success)
    }
}

#[test]
fn find_data_size_mismatch_returns_failure_without_reading_fields() {
    // A struct_size smaller than the real struct fails the handshake and
    // yields the failure value; the shim never reads past the declared size.
    let mut plugin = test_plugin(false);
    let info = ffi::GetFindDataInfo::new(ffi::GET_FIND_DATA_INFO_SIZE - 8, 1, 0);
    let (code, count) = panel::get_find_data(&mut plugin, &info);
    assert_eq!(code, 0);
    assert_eq!(count, 0);
}

#[test]
fn find_data_success_reports_listing_length() {
    let mut plugin = test_plugin(false);
    let info = ffi::GetFindDataInfo::new(ffi::GET_FIND_DATA_INFO_SIZE, 1, 0);
    let (code, count) = panel::get_find_data(&mut plugin, &info);
    assert_eq!(code, 1);
    assert_eq!(count, 2);
}

#[test]
fn find_data_failing_plugin_yields_abi_failure_value() {
    // Panic containment: a plugin whose find-data logic fails must surface
    // as the ABI failure value, never as an unwind into the host; the
    // library-side half is the failure mapping, and the entry shell above
    // the library catches real unwinds the same way.
    let mut plugin = test_plugin(true);
    let info = ffi::GetFindDataInfo::new(ffi::GET_FIND_DATA_INFO_SIZE, 1, 0);
    let (code, count) = panel::get_find_data(&mut plugin, &info);
    assert_eq!(code, 0);
    assert_eq!(count, 0);
}

#[test]
fn open_panel_info_round_trip_through_context() {
    let mut plugin = test_plugin(false);
    let mut ctx = Context::new();
    let req = ffi::OpenPanelInfoRequest::new(ffi::OPEN_PANEL_INFO_SIZE, 1);
    let code = panel::get_open_panel_info(&mut plugin, &mut ctx, &req);
    assert_eq!(code, 1);
    let first_stamp = ctx.panel_stamp(1).unwrap();
    assert_eq!(
        ctx.panel(1).unwrap().open_panel_info.cur_dir.to_string_lossy(),
        "C:\\Users\\test"
    );

    plugin.open_info.cur_dir = "D:\\data".to_string();
    let code = panel::get_open_panel_info(&mut plugin, &mut ctx, &req);
    assert_eq!(code, 1);
    let second_stamp = ctx.panel_stamp(1).unwrap();
    assert_eq!(
        ctx.panel(1).unwrap().open_panel_info.cur_dir.to_string_lossy(),
        "D:\\data"
    );
    // The replacement installed a fresh backing store: no stale reuse.
    assert_ne!(first_stamp, second_stamp);
}

#[test]
fn open_panel_info_size_mismatch_leaves_context_alone() {
    let mut plugin = test_plugin(false);
    let mut ctx = Context::new();
    let req = ffi::OpenPanelInfoRequest::new(8, 1);
    let code = panel::get_open_panel_info(&mut plugin, &mut ctx, &req);
    assert_eq!(code, 0);
    assert!(ctx.panel(1).is_none());
}

#[test]
fn close_panel_removes_entry_and_tells_plugin() {
    let mut plugin = test_plugin(false);
    let mut ctx = Context::new();
    ctx.ensure_panel(4);
    let info = ffi::ClosePanelInfo::new(ffi::CLOSE_PANEL_INFO_SIZE, 4);
    let code = panel::close_panel(&mut plugin, &mut ctx, &info);
    assert_eq!(code, 1);
    assert!(ctx.panel(4).is_none());
}

#[test]
fn set_directory_records_path_on_success() {
    let mut plugin = test_plugin(false);
    let mut ctx = Context::new();
    let dir: Vec<u16> = "E:\\sub".encode_utf16().collect();
    let info = ffi::SetDirectoryInfo::new(ffi::SET_DIRECTORY_INFO_SIZE, 2, dir, 0);
    let code = panel::set_directory(&mut plugin, &mut ctx, &info);
    assert_eq!(code, 1);
    assert_eq!(plugin.last_set_directory.as_deref(), Some("E:\\sub"));
    assert_eq!(
        ctx.panel(2).unwrap().open_panel_info.cur_dir.to_string_lossy(),
        "E:\\sub"
    );
}

#[test]
fn delete_files_decodes_items_and_reports_decision() {
    let mut plugin = test_plugin(false);
    let raw = vec![ffi::PluginPanelItem {
        creation_time: ffi::FILETIME::zero(),
        last_access_time: ffi::FILETIME::zero(),
        last_write_time: ffi::FILETIME::zero(),
        change_time: ffi::FILETIME::zero(),
        file_size: 3,
        allocation_size: 3,
        file_name: farmanager::WideString::from_str("gone.txt"),
        alternate_file_name: None,
        description: None,
        owner: None,
        flags: 0,
        file_attributes: 0,
        number_of_links: 0,
        crc32: 0,
    }];
    let info = ffi::DeleteFilesInfo::new(ffi::DELETE_FILES_INFO_SIZE, 1, raw, 0);
    assert_eq!(panel::delete_files(&mut plugin, &info), 1);
    plugin.fail_delete = true;
    let raw2: Vec<ffi::PluginPanelItem> = Vec::new();
    let info2 = ffi::DeleteFilesInfo::new(ffi::DELETE_FILES_INFO_SIZE, 1, raw2, 0);
    assert_eq!(panel::delete_files(&mut plugin, &info2), 0);
}

#[test]
fn make_directory_outside_silent_mode_stores_rewritten_name() {
    let mut plugin = test_plugin(false);
    let mut ctx = Context::new();
    let name: Vec<u16> = "newdir".encode_utf16().collect();
    let info = ffi::MakeDirectoryInfo::new(ffi::MAKE_DIRECTORY_INFO_SIZE, 5, name, 0);
    let code = panel::make_directory(&mut plugin, &mut ctx, &info);
    assert_eq!(code, 1);
    let entry = ctx.panel(5).unwrap();
    assert_eq!(
        entry.make_directory_name.as_ref().unwrap().to_string_lossy(),
        "newdir2"
    );
}

#[test]
fn make_directory_silent_mode_passes_code_through() {
    let mut plugin = test_plugin(false);
    let mut ctx = Context::new();
    let name: Vec<u16> = "quiet".encode_utf16().collect();
    let info = ffi::MakeDirectoryInfo::new(
        ffi::MAKE_DIRECTORY_INFO_SIZE,
        5,
        name,
        panel::OPM_SILENT,
    );
    let code = panel::make_directory(&mut plugin, &mut ctx, &info);
    assert_eq!(code, 1);
    assert!(ctx.panel(5).is_none());
}

#[test]
fn free_find_data_forwards_handle() {
    let mut plugin = test_plugin(false);
    let info = ffi::FreeFindDataInfo::new(ffi::FREE_FIND_DATA_INFO_SIZE, 9);
    assert_eq!(panel::free_find_data(&mut plugin, &info), 1);
    assert_eq!(plugin.freed, vec![9]);
}

#[test]
fn default_capabilities_decline() {
    // A plugin that leaves the optional capabilities on their defaults
    // declines each operation the way the ABI expects.
    let mut plugin = test_plugin(false);
    let cmp = ffi::CompareInfo::new(
        ffi::COMPARE_INFO_SIZE,
        1,
        rich_raw("a"),
        rich_raw("b"),
        ffi::OPENPANELINFO_SORTMODES::SM_NAME,
    );
    assert_eq!(panel::compare(&mut plugin, &cmp), -2);

    let put = ffi::PutFilesInfo::new(ffi::PUT_FILES_INFO_SIZE, 1, Vec::new(), 0, vec![0u16], 0);
    assert_eq!(panel::put_files(&mut plugin, &put), -1);

    let fl = ffi::SetFindListInfo::new(ffi::SET_FIND_LIST_INFO_SIZE, 1, Vec::new());
    assert_eq!(panel::set_find_list(&mut plugin, &fl), 0);

    let hf = ffi::ProcessHostFileInfo::new(ffi::PROCESS_HOST_FILE_INFO_SIZE, 1, Vec::new(), 0);
    assert_eq!(panel::process_host_file(&mut plugin, &hf), 0);

    let rec = ffi::INPUT_RECORD { event_type: 1, data_low: 0, data_high: 0 };
    let inp = ffi::ProcessPanelInputInfo::new(ffi::PROCESS_PANEL_INPUT_INFO_SIZE, 1, rec);
    assert_eq!(panel::process_panel_input(&mut plugin, &inp), 0);

    let an = ffi::AnalyseInfo::new(ffi::ANALYSE_INFO_SIZE, vec![0u16], vec![1, 2, 3], 0);
    assert_eq!(panel::analyse(&mut plugin, &an), 0);

    let ca = ffi::CloseAnalyseInfo::new(ffi::CLOSE_ANALYSE_INFO_SIZE, 2);
    assert_eq!(panel::close_analyse(&mut plugin, &ca), 1);

    let ev = ffi::ProcessPanelEventInfo::new(
        ffi::PROCESS_PANEL_EVENT_INFO_SIZE,
        1,
        Vec::new(),
        0,
        1,
    );
    assert_eq!(panel::process_panel_event(&mut plugin, &ev), 0);

    let gf = ffi::GetFilesInfo::new(ffi::GET_FILES_INFO_SIZE, 1, Vec::new(), 0, vec![0u16], 0);
    let (code, flags) = panel::get_files(&mut plugin, &gf);
    assert_eq!(code, -1);
    assert!(flags.is_empty());

    let gf_bad = ffi::GetFilesInfo::new(8, 1, Vec::new(), 0, vec![0u16], 0);
    let (code, flags) = panel::get_files(&mut plugin, &gf_bad);
    assert_eq!(code, 0);
    assert!(flags.is_empty());
}

fn rich_raw(name: &str) -> ffi::PluginPanelItem {
    ffi::PluginPanelItem {
        creation_time: ffi::FILETIME::zero(),
        last_access_time: ffi::FILETIME::zero(),
        last_write_time: ffi::FILETIME::zero(),
        change_time: ffi::FILETIME::zero(),
        file_size: 0,
        allocation_size: 0,
        file_name: farmanager::WideString::from_str(name),
        alternate_file_name: None,
        description: None,
        owner: None,
        flags: 0,
        file_attributes: 0,
        number_of_links: 0,
        crc32: 0,
    }
}

#[test]
fn open_refuses_wrong_payload_shape() {
    // The command-line origin with no payload attached is the library's own
    // refusal, before the plugin is ever called.
    let mut plugin = BasicPlugin { opened: None };
    let info = ffi::OpenInfo::new(ffi::OPEN_INFO_SIZE, 4, ffi::OpenPayload::Empty);
    assert_eq!(basic::open(&mut plugin, &info), 0);
    assert!(plugin.opened.is_none());
}

#[test]
fn open_refuses_macro_origin() {
    let mut plugin = BasicPlugin { opened: None };
    let info = ffi::OpenInfo::new(ffi::OPEN_INFO_SIZE, 11, ffi::OpenPayload::Empty);
    assert_eq!(basic::open(&mut plugin, &info), 0);
}

#[test]
fn unknown_panel_event_code_is_unhandled() {
    let mut plugin = test_plugin(false);
    let ev = ffi::ProcessPanelEventInfo::new(
        ffi::PROCESS_PANEL_EVENT_INFO_SIZE,
        9,
        Vec::new(),
        0,
        1,
    );
    assert_eq!(panel::process_panel_event(&mut plugin, &ev), 0);
}

struct FlaggingPlugin {
    inner: TestPlugin,
}

impl panel::ExportFunctions for FlaggingPlugin {
    fn get_open_panel_info(&mut self, handle: usize) -> &panel::OpenPanelInfo {
        self.inner.get_open_panel_info(handle)
    }
    fn get_find_data(
        &mut self,
        info: panel::GetFindDataInfo,
    ) -> Result<&panel::PluginPanelItems, Error> {
        self.inner.get_find_data(info)
    }
    fn delete_files(&mut self, info: panel::DeleteFilesInfo) -> Result<(), Error> {
        self.inner.delete_files(info)
    }
    fn free_find_data(&mut self, handle: usize) {
        self.inner.free_find_data(handle)
    }
    fn set_directory(&mut self, handle: usize, path: &String) -> Result<(), Error> {
        self.inner.set_directory(handle, path)
    }
    fn get_files(&mut self, info: &mut panel::GetFilesInfo) -> Result<ReturnCode, Error> {
        // Mark every item processed and drop the last one, as a plugin that
        // copied all but one file might.
        for item in info.panel_items.iter_mut() {
            item.flags = 0x40000000;
        }
        info.panel_items.pop();
        Ok(ReturnCode::Success)
    }
}

#[test]
fn get_files_reports_one_flag_word_per_host_item() {
    let mut plugin = FlaggingPlugin { inner: test_plugin(false) };
    let raw = vec![rich_raw("a"), rich_raw("b"), rich_raw("c")];
    let info = ffi::GetFilesInfo::new(ffi::GET_FILES_INFO_SIZE, 1, raw, 0, vec![0u16], 0);
    let (code, flags) = panel::get_files(&mut plugin, &info);
    assert_eq!(code, 1);
    // The two surviving records carry the plugin's flags; the dropped
    // record's slot keeps the host's own value, so the host array stays
    // untouched there.
    assert_eq!(flags, vec![0x40000000, 0x40000000, 0]);
}

#[test]
fn panel_event_decoding_table() {
    let text: Vec<u16> = vec![118u16, 0];
    match panel::panel_event_of(0, &text, 0) {
        Some(panel::PanelEvent::ChangeViewMode(s)) => assert_eq!(s, "v"),
        _ => panic!("wrong decoding"),
    }
    assert!(matches!(panel::panel_event_of(1, &text, 0), Some(panel::PanelEvent::Redraw)));
    assert!(matches!(panel::panel_event_of(2, &text, 0), Some(panel::PanelEvent::Idle)));
    assert!(matches!(panel::panel_event_of(3, &text, 0), Some(panel::PanelEvent::Close)));
    match panel::panel_event_of(4, &text, 77) {
        Some(panel::PanelEvent::Break(v)) => assert_eq!(v, 77),
        _ => panic!("wrong decoding"),
    }
    match panel::panel_event_of(5, &text, 0) {
        Some(panel::PanelEvent::Command(s)) => assert_eq!(s, "v"),
        _ => panic!("wrong decoding"),
    }
    assert!(matches!(panel::panel_event_of(6, &text, 0), Some(panel::PanelEvent::GotFocus)));
    assert!(matches!(panel::panel_event_of(7, &text, 0), Some(panel::PanelEvent::KillFocus)));
    assert!(matches!(
        panel::panel_event_of(8, &text, 0),
        Some(panel::PanelEvent::ChangeSortParams)
    ));
    assert!(panel::panel_event_of(9, &text, 0).is_none());
}

#[test]
fn result_interpreters_map_outcomes() {
    assert_eq!(panel::find_data_result(Ok(5)), (1, 5));
    assert_eq!(panel::find_data_result(Err(Error::new(3))), (0, 0));
    assert_eq!(panel::put_files_result(Ok(panel::PutFilesReturnCode::Success)), 1);
    assert_eq!(
        panel::put_files_result(Ok(panel::PutFilesReturnCode::SuccessNoFileSelect)),
        2
    );
    assert_eq!(panel::put_files_result(Ok(panel::PutFilesReturnCode::UserCancel)), -1);
    assert_eq!(panel::put_files_result(Err(Error::new(1))), 0);
    assert_eq!(panel::handled_result(true), 1);
    assert_eq!(panel::handled_result(false), 0);
    assert_eq!(panel::compare_result(Some(panel::Ordering::Less)), -1);
    assert_eq!(panel::compare_result(Some(panel::Ordering::Equal)), 0);
    assert_eq!(panel::compare_result(Some(panel::Ordering::Greater)), 1);
    assert_eq!(panel::compare_result(None), -2);
}

struct BasicPlugin {
    opened: Option<String>,
}

impl basic::ExportFunctions for BasicPlugin {
    fn get_global_info(&mut self) -> basic::GlobalInfo {
        basic::GlobalInfo {
            min_far_version: ffi::VersionInfo::current(),
            version: ffi::VersionInfo::current(),
            guid: ffi::GUID { data1: 0xAB, data2: 1, data3: 2, data4: 3 },
            title: "Demo".to_string(),
            description: "A demo plugin".to_string(),
            author: "Nobody".to_string(),
        }
    }

    fn get_plugin_info(&mut self) -> basic::PluginInfo {
        basic::PluginInfo {
            flags: 0,
            disk_menu: vec![basic::MenuItem {
                guid: ffi::GUID::default_guid(),
                label: "Open demo".to_string(),
            }],
            plugin_menu: Vec::new(),
            plugin_config: Vec::new(),
            command_prefix: Some("demo".to_string()),
        }
    }

    fn open(&mut self, open_from: basic::OpenFrom) -> usize {
        match open_from {
            basic::OpenFrom::CommandLine(info) => {
                self.opened = Some(info.command_line);
                11
            }
            basic::OpenFrom::PluginsMenu => 22,
            _ => 0,
        }
    }
}

#[test]
fn global_info_is_stored_and_summarised() {
    let mut plugin = BasicPlugin { opened: None };
    let mut ctx = basic::ctx::Context::new();
    let out = basic::get_global_info(&mut plugin, &mut ctx);
    assert_eq!(out.struct_size, ffi::GLOBAL_INFO_SIZE);
    assert_eq!(out.guid.data1, 0xAB);
    let stored = ctx.global_info().unwrap();
    assert_eq!(stored.title.to_string_lossy(), "Demo");
    assert_eq!(stored.description.to_string_lossy(), "A demo plugin");
    assert_eq!(stored.author.to_string_lossy(), "Nobody");
    assert_eq!(basic::plugin_guid(&ctx).data1, 0xAB);
}

#[test]
fn plugin_info_marshals_menus() {
    let mut plugin = BasicPlugin { opened: None };
    let mut ctx = basic::ctx::Context::new();
    let out = basic::get_plugin_info(&mut plugin, &mut ctx);
    assert_eq!(out.struct_size, ffi::PLUGIN_INFO_SIZE);
    assert_eq!(out.disk_menu_count, 1);
    assert_eq!(out.plugin_menu_count, 0);
    assert!(out.has_command_prefix);
    let stored = ctx.plugin_info().unwrap();
    assert_eq!(stored.disk_menu.count(), 1);
    assert_eq!(
        stored.disk_menu.strings.as_ptr()[0].to_string_lossy(),
        "Open demo"
    );
    assert_eq!(
        stored.command_prefix.as_ref().unwrap().to_string_lossy(),
        "demo"
    );
}

#[test]
fn open_size_mismatch_yields_null_handle() {
    let mut plugin = BasicPlugin { opened: None };
    let info = ffi::OpenInfo::new(8, 1, ffi::OpenPayload::Empty);
    assert_eq!(basic::open(&mut plugin, &info), 0);
}

#[test]
fn open_command_line_decodes_payload() {
    let mut plugin = BasicPlugin { opened: None };
    let cl: Vec<u16> = "demo:run".encode_utf16().collect();
    let info = ffi::OpenInfo::new(
        ffi::OPEN_INFO_SIZE,
        4,
        ffi::OpenPayload::CommandLine { command_line: cl },
    );
    assert_eq!(basic::open(&mut plugin, &info), 11);
    assert_eq!(plugin.opened.as_deref(), Some("demo:run"));
}

#[test]
fn open_unknown_origin_yields_null_handle() {
    let mut plugin = BasicPlugin { opened: None };
    let info = ffi::OpenInfo::new(ffi::OPEN_INFO_SIZE, 55, ffi::OpenPayload::Empty);
    assert_eq!(basic::open(&mut plugin, &info), 0);
}

#[test]
fn open_plugins_menu_reaches_plugin() {
    let mut plugin = BasicPlugin { opened: None };
    let info = ffi::OpenInfo::new(ffi::OPEN_INFO_SIZE, 1, ffi::OpenPayload::Empty);
    assert_eq!(basic::open(&mut plugin, &info), 22);
}

#[test]
fn set_startup_info_decodes_module_name() {
    struct Recorder {
        name: Option<String>,
    }
    impl basic::ExportFunctions for Recorder {
        fn get_global_info(&mut self) -> basic::GlobalInfo {
            unreachable!()
        }
        fn get_plugin_info(&mut self) -> basic::PluginInfo {
            unreachable!()
        }
        fn set_startup_info(&mut self, info: basic::PluginStartupInfo) {
            self.name = Some(info.module_name);
        }
    }
    let mut plugin = Recorder { name: None };
    let module: Vec<u16> = "C:\\far\\plugin.dll".encode_utf16().collect();
    basic::set_startup_info(&mut plugin, &module);
    assert_eq!(plugin.name.as_deref(), Some("C:\\far\\plugin.dll"));
}

#[test]
fn handle_panic_prefers_payload_text() {
    assert_eq!(
        farmanager::handle_panic(Some("boom".to_string())),
        "boom"
    );
    assert_eq!(farmanager::handle_panic(None), "Oups! Something went wrong.");
}
