use farmanager::ffi;
use farmanager::panel;
use farmanager::panel::ctx::Context;

fn item(name: &str) -> panel::PluginPanelItem {
    panel::PluginPanelItem {
        creation_time: ffi::FILETIME::zero(),
        last_access_time: ffi::FILETIME::zero(),
        last_write_time: ffi::FILETIME::zero(),
        change_time: ffi::FILETIME::zero(),
        file_size: 42,
        allocation_size: 4096,
        file_name: name.to_string(),
        alternate_file_name: None,
        description: Some("a file".to_string()),
        owner: None,
        flags: 0,
        file_attributes: 0x20,
        number_of_links: 1,
        crc32: 0,
    }
}

fn opi(dir: &str) -> panel::OpenPanelInfo {
    panel::OpenPanelInfo {
        flags: 0,
        host_file: None,
        cur_dir: dir.to_string(),
        format: Some("demo".to_string()),
        panel_title: "Demo".to_string(),
        info_lines: vec![panel::InfoPanelLine {
            text: "line".to_string(),
            data: "value".to_string(),
            flags: 0,
        }],
        descr_files: Some(vec!["descript.ion".to_string()]),
        start_panel_mode: 0,
        start_sort_mode: ffi::OPENPANELINFO_SORTMODES::SM_NAME,
        start_sort_order: panel::OPENPANELINFO_SORTORDERS::ASC,
        shortcut_data: None,
        free_size: 0,
    }
}

#[test]
fn owned_array_len_matches_and_raw_mirrors_rich() {
    let items = vec![item("a.txt"), item("b.txt"), item("c.txt")];
    let arr = panel::PluginPanelItems::from(items);
    assert_eq!(arr.len(), 3);
    let raw = arr.as_ptr();
    assert_eq!(raw.len(), 3);
    assert_eq!(raw[0].file_name.as_ptr().as_slice(), &[97u16, 46, 116, 120, 116, 0]);
    assert_eq!(raw[1].file_name.as_ptr().as_slice(), &[98u16, 46, 116, 120, 116, 0]);
    assert_eq!(raw[2].file_name.as_ptr().as_slice(), &[99u16, 46, 116, 120, 116, 0]);
    for i in 0..3 {
        assert_eq!(raw[i].file_size, 42);
        assert_eq!(raw[i].allocation_size, 4096);
        assert_eq!(raw[i].file_attributes, 0x20);
        // The wrapper zeroes the fields it does not carry.
        assert_eq!(raw[i].number_of_links, 0);
        assert_eq!(raw[i].crc32, 0);
        assert!(raw[i].alternate_file_name.is_none());
        assert!(raw[i].owner.is_none());
        let descr = raw[i].description.as_ref().unwrap();
        assert_eq!(
            descr.as_ptr().as_slice(),
            &[97u16, 32, 102, 105, 108, 101, 0]
        );
    }
}

#[test]
fn item_decode_masks_unknown_attribute_bits() {
    let raw = ffi::PluginPanelItem {
        creation_time: ffi::FILETIME::zero(),
        last_access_time: ffi::FILETIME::zero(),
        last_write_time: ffi::FILETIME::zero(),
        change_time: ffi::FILETIME::zero(),
        file_size: 7,
        allocation_size: 8,
        file_name: farmanager::WideString::from_str("x"),
        alternate_file_name: None,
        description: None,
        owner: None,
        flags: 5,
        file_attributes: 0xFFFF_FFFF,
        number_of_links: 2,
        crc32: 9,
    };
    let rich = panel::PluginPanelItem::from_raw(&raw);
    assert_eq!(rich.file_name, "x");
    assert_eq!(rich.file_attributes, 0xFFFF_FFFF & 0x17FB7);
    assert_eq!(rich.flags, 5);
    assert_eq!(rich.number_of_links, 2);
}

#[test]
fn install_records_directory_and_lines() {
    let mut ctx = Context::new();
    ctx.install_open_panel_info(1, &opi("C:\\Users\\test"));
    let entry = ctx.panel(1).expect("entry exists");
    let ans = &entry.open_panel_info;
    assert_eq!(ans.cur_dir.to_string_lossy(), "C:\\Users\\test");
    assert_eq!(ans.panel_title.to_string_lossy(), "Demo");
    assert_eq!(ans.info_lines.len(), 1);
    let lines = ans.info_lines.as_ptr();
    assert_eq!(lines[0].text.to_string_lossy(), "line");
    assert_eq!(lines[0].data.to_string_lossy(), "value");
    let descr = ans.descr_files.as_ref().unwrap();
    assert_eq!(descr.len(), 1);
    assert_eq!(descr.as_ptr()[0].to_string_lossy(), "descript.ion");
    assert_eq!(ans.struct_size, ffi::OPEN_PANEL_INFO_SIZE);
}

#[test]
fn replace_installs_fresh_buffers_never_reusing_a_stamp() {
    // The round trip of the panel answer: install for handle 1, observe the
    // directory, replace, observe the new directory and that the new answer
    // is backed by a fresh store (a different stamp), so a pointer obtained
    // before the replacement cannot alias the new buffers.
    let mut ctx = Context::new();
    ctx.install_open_panel_info(1, &opi("C:\\Users\\test"));
    let stamp_before = ctx.panel_stamp(1).unwrap();
    let dir_before = ctx.panel(1).unwrap().open_panel_info.cur_dir.to_string_lossy();
    assert_eq!(dir_before, "C:\\Users\\test");

    ctx.install_open_panel_info(1, &opi("D:\\data"));
    let stamp_after = ctx.panel_stamp(1).unwrap();
    let dir_after = ctx.panel(1).unwrap().open_panel_info.cur_dir.to_string_lossy();
    assert_eq!(dir_after, "D:\\data");
    assert_ne!(stamp_before, stamp_after);
}

#[test]
fn remove_is_terminal_and_recreation_is_a_new_identity() {
    let mut ctx = Context::new();
    ctx.ensure_panel(7);
    let first = ctx.panel_stamp(7).unwrap();
    ctx.install_open_panel_info(7, &opi("C:\\a"));
    let second = ctx.panel_stamp(7).unwrap();
    assert_ne!(first, second);

    ctx.remove_panel(7);
    assert!(ctx.panel(7).is_none());
    assert_eq!(ctx.count(), 0);

    ctx.ensure_panel(7);
    let third = ctx.panel_stamp(7).unwrap();
    assert_ne!(third, first);
    assert_ne!(third, second);
}

#[test]
fn entries_are_independent() {
    let mut ctx = Context::new();
    ctx.install_open_panel_info(1, &opi("C:\\one"));
    ctx.install_open_panel_info(2, &opi("C:\\two"));
    assert_eq!(ctx.count(), 2);
    assert_ne!(ctx.panel_stamp(1).unwrap(), ctx.panel_stamp(2).unwrap());
    ctx.set_current_directory(1, "C:\\three");
    assert_eq!(
        ctx.panel(1).unwrap().open_panel_info.cur_dir.to_string_lossy(),
        "C:\\three"
    );
    assert_eq!(
        ctx.panel(2).unwrap().open_panel_info.cur_dir.to_string_lossy(),
        "C:\\two"
    );
}

#[test]
fn set_make_directory_name_keeps_answer() {
    let mut ctx = Context::new();
    ctx.install_open_panel_info(3, &opi("C:\\keep"));
    ctx.set_make_directory_name(3, "newdir");
    let entry = ctx.panel(3).unwrap();
    assert_eq!(
        entry.make_directory_name.as_ref().unwrap().to_string_lossy(),
        "newdir"
    );
    assert_eq!(entry.open_panel_info.cur_dir.to_string_lossy(), "C:\\keep");
}
