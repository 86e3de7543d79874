//! The basic side of the binding: the identity and menu records a plugin
//! reports, the dispatch shims behind the host's describe and open calls,
//! and the marshalled calls into the host's own service table.

use crate::common::string::{decode_borrowed, prefix_to_nul, wide_of, WideString,
    WideStringArray};
use crate::farapi::FarApi;
use crate::ffi;
use crate::ffi::HANDLE;
use vstd::prelude::*;

pub mod ctx;

verus! {

/// The message-flag bit that makes the host read all lines from one buffer.
pub const FMSG_ALLINONE: u64 = 0x10;

/// A key into the plugin's language pack.
pub trait Langpack {
    fn to_message_id(&self) -> isize;
}

/// The identity a plugin reports on the host's first call.
pub struct GlobalInfo {
    pub min_far_version: ffi::VersionInfo,
    pub version: ffi::VersionInfo,
    pub guid: ffi::GUID,
    pub title: String,
    pub description: String,
    pub author: String,
}

impl Default for GlobalInfo {
    /// The placeholder identity: zero versions, the marked placeholder GUID
    /// and empty texts.
    fn default() -> (r: GlobalInfo)
        ensures
            r.min_far_version.major == 0 && r.min_far_version.build == 0,
            r.version == r.min_far_version,
            r.guid.data1 == 0 && r.guid.data4 == 1,
            r.title@ == Seq::<char>::empty(),
            r.description@ == Seq::<char>::empty(),
            r.author@ == Seq::<char>::empty(),
    {
        GlobalInfo {
            min_far_version: ffi::VersionInfo::default(),
            version: ffi::VersionInfo::default(),
            guid: ffi::GUID::default_guid(),
            title: String::new(),
            description: String::new(),
            author: String::new(),
        }
    }
}

/// One entry of a plugin-provided menu.
pub struct MenuItem {
    pub guid: ffi::GUID,
    pub label: String,
}

/// The menus and flags a plugin reports.
pub struct PluginInfo {
    pub flags: u64,
    pub disk_menu: Vec<MenuItem>,
    pub plugin_menu: Vec<MenuItem>,
    pub plugin_config: Vec<MenuItem>,
    pub command_prefix: Option<String>,
}

/// What the host hands the plugin at startup, decoded.
pub struct PluginStartupInfo {
    pub module_name: String,
}

/// One entry of a menu the plugin asks the host to show.
pub struct FarMenuItem {
    pub flags: u64,
    pub text: String,
    pub accel_key: ffi::FarKey,
}

/// The body of a message box: separate lines, or one buffer holding them
/// all with embedded separators.
pub enum MessageItems {
    Lines(Vec<WideString>),
    AllInOne(WideString),
}

/// A shortcut's data, decoded.
pub struct OpenShortcutInfo {
    pub host_file: Option<String>,
    pub shortcut_data: Option<String>,
    pub flags: u64,
}

/// A command line typed with the plugin's prefix, decoded.
pub struct OpenCommandLineInfo {
    pub command_line: String,
}

/// An open from inside a dialog.
pub struct OpenDlgPluginData {
    pub h_dlg: HANDLE,
}

/// An analyse request, decoded.
pub struct AnalyseInfo {
    pub file_name: String,
    pub buffer: Vec<u8>,
    pub op_mode: u64,
}

/// An open following a successful analyse.
pub struct OpenAnalyseInfo {
    pub info: AnalyseInfo,
    pub handle: HANDLE,
}

/// The host's parting notice.
pub struct ExitInfo;

/// Where the host opened the plugin from, with the payload decoded.
pub enum OpenFrom {
    LeftDiskMenu,
    PluginsMenu,
    FindList,
    Shortcut(OpenShortcutInfo),
    CommandLine(OpenCommandLineInfo),
    Editor,
    Viewer,
    FilePanel,
    Dialog(OpenDlgPluginData),
    Analyse(OpenAnalyseInfo),
    RightDiskMenu,
    FromMacro,
    LuaMacro,
}

/// The basic capabilities every plugin implements. The host calls these
/// through the exported entry points.
pub trait ExportFunctions {
    fn get_global_info(&mut self) -> GlobalInfo;

    fn set_startup_info(&mut self, _plugin_startup_info: PluginStartupInfo) {
    }

    fn get_plugin_info(&mut self) -> PluginInfo;

    fn open(&mut self, _open_from: OpenFrom) -> HANDLE {
        0
    }

    fn exit_far(&mut self, _exit_info: &ExitInfo) {
    }
}

/// Puts a fresh identity context in place, as plugin start-up does.
pub fn init_context(slot: &mut Option<ctx::Context>)
    ensures
        *final(slot) matches Some(c) && c.spec_global_info() is None && c.spec_plugin_info()
            is None,
{
    *slot = Some(ctx::Context::new());
}

/// Tears the identity context down, as plugin unload does.
pub fn cleanup_context(slot: &mut Option<ctx::Context>)
    ensures
        *final(slot) is None,
{
    *slot = None;
}

/// The plugin's GUID, from the stored identity.
pub fn plugin_guid(context: &ctx::Context) -> (r: ffi::GUID)
    requires
        context.has_global_info(),
    ensures
        r == context.global_guid(),
{
    context.plugin_guid()
}

/// The identity entry point: asks the plugin to describe itself, stores the
/// marshalled answer so the pointers written back stay valid, and returns
/// the flat record the shim writes into the host's structure.
pub fn get_global_info<P: ExportFunctions>(plugin: &mut P, context: &mut ctx::Context) -> (r:
    ffi::GlobalInfo)
    ensures
        final(context).has_global_info(),
        r.struct_size == ffi::GLOBAL_INFO_SIZE,
{
    let info = plugin.get_global_info();
    apply_global_info(context, &info)
}

/// Installs a reported identity and lays out the flat record: the versions
/// and GUID are copied through, and the texts live on in the context.
pub fn apply_global_info(context: &mut ctx::Context, src: &GlobalInfo) -> (r: ffi::GlobalInfo)
    ensures
        final(context).spec_global_info() matches Some(g) && ctx::gic_matches(g, *src),
        final(context).has_global_info(),
        r.struct_size == ffi::GLOBAL_INFO_SIZE,
        r.min_far_version == src.min_far_version,
        r.version == src.version,
        r.guid == src.guid,
{
    context.install_global_info(src);
    ffi::GlobalInfo {
        struct_size: ffi::GLOBAL_INFO_SIZE,
        min_far_version: src.min_far_version,
        version: src.version,
        guid: src.guid,
    }
}

/// The plugin-information entry point: asks the plugin for its menus,
/// stores them marshalled, and returns the flat record with the counts the
/// host iterates by.
pub fn get_plugin_info<P: ExportFunctions>(plugin: &mut P, context: &mut ctx::Context) -> (r:
    ffi::PluginInfo)
    ensures
        final(context).spec_plugin_info() is Some,
        r.struct_size == ffi::PLUGIN_INFO_SIZE,
{
    let info = plugin.get_plugin_info();
    apply_plugin_info(context, &info)
}

/// Installs reported menus and lays out the flat record over them.
pub fn apply_plugin_info(context: &mut ctx::Context, src: &PluginInfo) -> (r: ffi::PluginInfo)
    ensures
        final(context).spec_plugin_info() matches Some(p) && ctx::pic_matches(p, *src),
        final(context).spec_global_info() == old(context).spec_global_info(),
        r.struct_size == ffi::PLUGIN_INFO_SIZE,
        r.flags == src.flags,
        r.disk_menu_count == src.disk_menu@.len(),
        r.plugin_menu_count == src.plugin_menu@.len(),
        r.plugin_config_count == src.plugin_config@.len(),
        r.has_command_prefix == (src.command_prefix is Some),
{
    context.install_plugin_info(src);
    let has_command_prefix = match &src.command_prefix {
        Some(_) => true,
        None => false,
    };
    ffi::PluginInfo {
        struct_size: ffi::PLUGIN_INFO_SIZE,
        flags: src.flags,
        disk_menu_count: src.disk_menu.len(),
        plugin_menu_count: src.plugin_menu.len(),
        plugin_config_count: src.plugin_config.len(),
        has_command_prefix,
    }
}

impl<'a> crate::common::Enrichable<ctx::Context, &'a GlobalInfo> for ffi::GlobalInfo {
    /// Fills the flat identity record from the rich one, installing the
    /// backing buffers into the context.
    fn enrich(&mut self, context: &mut ctx::Context, source: &'a GlobalInfo) {
        *self = apply_global_info(context, source);
    }
}

impl<'a> crate::common::Enrichable<ctx::Context, &'a PluginInfo> for ffi::PluginInfo {
    /// Fills the flat plugin-information record from the rich one,
    /// installing the marshalled menus into the context.
    fn enrich(&mut self, context: &mut ctx::Context, source: &'a PluginInfo) {
        *self = apply_plugin_info(context, source);
    }
}

/// The startup entry point's decoded half: reads the module name out of the
/// host's buffer and hands it to the plugin.
pub fn set_startup_info<P: ExportFunctions>(plugin: &mut P, module_name: &Vec<u16>) {
    let decoded = decode_borrowed(module_name);
    plugin.set_startup_info(PluginStartupInfo { module_name: decoded });
}

/// The open entry point: validates the handshake, decodes the origin and
/// its payload, and returns the handle the plugin assigns, the null handle
/// standing for "nothing opened". An origin code outside the table, a
/// payload of the wrong shape, and the macro origin this binding does not
/// carry all yield the null handle.
pub fn open<P: ExportFunctions>(plugin: &mut P, info: &ffi::OpenInfo) -> (r: HANDLE)
    ensures
        info.spec_struct_size() != ffi::OPEN_INFO_SIZE ==> r == 0,
        info.spec_struct_size() == ffi::OPEN_INFO_SIZE && (forall|f: ffi::OPENFROM| (
        #[trigger] f.value_spec()) != info.spec_open_from()) ==> r == 0,
        info.spec_struct_size() == ffi::OPEN_INFO_SIZE && info.spec_open_from()
            == ffi::OPENFROM::OPEN_FROMMACRO.value_spec() ==> r == 0,
        info.spec_struct_size() == ffi::OPEN_INFO_SIZE && info.spec_open_from()
            == ffi::OPENFROM::OPEN_SHORTCUT.value_spec() && !(info.spec_payload()
            matches ffi::OpenPayload::Shortcut { .. }) ==> r == 0,
        info.spec_struct_size() == ffi::OPEN_INFO_SIZE && info.spec_open_from()
            == ffi::OPENFROM::OPEN_COMMANDLINE.value_spec() && !(info.spec_payload()
            matches ffi::OpenPayload::CommandLine { .. }) ==> r == 0,
        info.spec_struct_size() == ffi::OPEN_INFO_SIZE && info.spec_open_from()
            == ffi::OPENFROM::OPEN_DIALOG.value_spec() && !(info.spec_payload()
            matches ffi::OpenPayload::Dialog { .. }) ==> r == 0,
        info.spec_struct_size() == ffi::OPEN_INFO_SIZE && info.spec_open_from()
            == ffi::OPENFROM::OPEN_ANALYSE.value_spec() && !(info.spec_payload()
            matches ffi::OpenPayload::Analyse { .. }) ==> r == 0,
{
    if info.struct_size() != ffi::OPEN_INFO_SIZE {
        return 0;
    }
    let open_from = match ffi::OPENFROM::from_value(info.open_from()) {
        Some(f) => f,
        None => {
            return 0;
        },
    };
    match open_from {
        ffi::OPENFROM::OPEN_LEFTDISKMENU => plugin.open(OpenFrom::LeftDiskMenu),
        ffi::OPENFROM::OPEN_PLUGINSMENU => plugin.open(OpenFrom::PluginsMenu),
        ffi::OPENFROM::OPEN_FINDLIST => plugin.open(OpenFrom::FindList),
        ffi::OPENFROM::OPEN_SHORTCUT => {
            match info.payload() {
                ffi::OpenPayload::Shortcut { host_file, shortcut_data, flags } => {
                    let host_file = match host_file {
                        Some(units) => Some(decode_borrowed(units)),
                        None => None,
                    };
                    let shortcut_data = match shortcut_data {
                        Some(units) => Some(decode_borrowed(units)),
                        None => None,
                    };
                    plugin.open(
                        OpenFrom::Shortcut(
                            OpenShortcutInfo { host_file, shortcut_data, flags: *flags },
                        ),
                    )
                },
                _ => 0,
            }
        },
        ffi::OPENFROM::OPEN_COMMANDLINE => {
            match info.payload() {
                ffi::OpenPayload::CommandLine { command_line } => {
                    let command_line = decode_borrowed(command_line);
                    plugin.open(OpenFrom::CommandLine(OpenCommandLineInfo { command_line }))
                },
                _ => 0,
            }
        },
        ffi::OPENFROM::OPEN_EDITOR => plugin.open(OpenFrom::Editor),
        ffi::OPENFROM::OPEN_VIEWER => plugin.open(OpenFrom::Viewer),
        ffi::OPENFROM::OPEN_FILEPANEL => plugin.open(OpenFrom::FilePanel),
        ffi::OPENFROM::OPEN_DIALOG => {
            match info.payload() {
                ffi::OpenPayload::Dialog { h_dlg } => {
                    plugin.open(OpenFrom::Dialog(OpenDlgPluginData { h_dlg: *h_dlg }))
                },
                _ => 0,
            }
        },
        ffi::OPENFROM::OPEN_ANALYSE => {
            match info.payload() {
                ffi::OpenPayload::Analyse { file_name, buffer, op_mode, handle } => {
                    let file_name = decode_borrowed(file_name);
                    let buffer = copy_payload_bytes(buffer);
                    plugin.open(
                        OpenFrom::Analyse(
                            OpenAnalyseInfo {
                                info: AnalyseInfo { file_name, buffer, op_mode: *op_mode },
                                handle: *handle,
                            },
                        ),
                    )
                },
                _ => 0,
            }
        },
        ffi::OPENFROM::OPEN_RIGHTDISKMENU => plugin.open(OpenFrom::RightDiskMenu),
        ffi::OPENFROM::OPEN_FROMMACRO => 0,
        ffi::OPENFROM::OPEN_LUAMACRO => plugin.open(OpenFrom::LuaMacro),
    }
}

/// Copies the analyse payload's bytes.
fn copy_payload_bytes(src: &Vec<u8>) -> (r: Vec<u8>)
    ensures
        r@ == src@,
{
    let mut out: Vec<u8> = Vec::new();
    let n = src.len();
    let mut i: usize = 0;
    while i < n
        invariant
            n == src@.len(),
            i <= n,
            out@ == src@.subrange(0, i as int),
        decreases n - i,
    {
        out.push(src[i]);
        assert(out@ =~= src@.subrange(0, i as int + 1));
        i = i + 1;
    }
    assert(out@ =~= src@);
    out
}

/// The parting entry point: hands the plugin its last word.
pub fn exit_far<P: ExportFunctions>(plugin: &mut P) {
    plugin.exit_far(&ExitInfo);
}

/// Looks a language-pack message up through the host and copies the buffer
/// its pointer leads to; the copy is this plugin's own.
pub fn get_msg<A: FarApi, K: Langpack>(api: &mut A, context: &ctx::Context, key: &K) -> (r:
    WideString)
    requires
        context.has_global_info(),
    ensures
        r.wf(),
{
    let guid = context.plugin_guid();
    let raw = api.get_msg(&guid, key.to_message_id());
    WideString::from_units(raw)
}

/// Reads an input box's outcome: a nonzero code means the buffer holds the
/// user's text, zero means the user cancelled.
pub fn input_box_result(code: isize, buf: Vec<u16>) -> (r: Option<WideString>)
    ensures
        code != 0 ==> (r matches Some(w) && w@ == prefix_to_nul(buf@) + seq![0u16]),
        code == 0 ==> r is None,
{
    if code != 0 {
        Some(WideString::from_units(buf))
    } else {
        None
    }
}

/// Shows an input box through the host and hands back what the user typed,
/// or nothing on cancellation.
pub fn input_box<A: FarApi>(
    api: &mut A,
    context: &ctx::Context,
    event_guid: &ffi::GUID,
    title: Option<WideString>,
    sub_title: Option<WideString>,
    history_name: Option<WideString>,
    src_text: Option<WideString>,
    input_length: usize,
    help_topic: Option<WideString>,
    flags: u64,
) -> (r: Option<WideString>)
    requires
        context.has_global_info(),
    ensures
        r matches Some(w) ==> w.wf(),
{
    let guid = context.plugin_guid();
    let (code, buf) = api.input_box(
        &guid,
        event_guid,
        title.as_ref(),
        sub_title.as_ref(),
        history_name.as_ref(),
        src_text.as_ref(),
        input_length,
        help_topic.as_ref(),
        flags,
    );
    input_box_result(code, buf)
}

/// Marshals the entries of a menu the plugin asks the host to show.
pub fn marshal_menu_items(items: &Vec<FarMenuItem>) -> (r: Vec<ffi::FarMenuItem>)
    ensures
        r@.len() == items@.len(),
        forall|i: int|
            0 <= i < items@.len() ==> {
                &&& (#[trigger] r@[i]).text@ == wide_of(items@[i].text@)
                &&& r@[i].flags == items@[i].flags
                &&& r@[i].accel_key == items@[i].accel_key
                &&& r@[i].user_data == 0
            },
{
    let mut raw: Vec<ffi::FarMenuItem> = Vec::new();
    let n = items.len();
    let mut i: usize = 0;
    while i < n
        invariant
            n == items@.len(),
            i <= n,
            raw@.len() == i as int,
            forall|j: int|
                0 <= j < i as int ==> {
                    &&& (#[trigger] raw@[j]).text@ == wide_of(items@[j].text@)
                    &&& raw@[j].flags == items@[j].flags
                    &&& raw@[j].accel_key == items@[j].accel_key
                    &&& raw@[j].user_data == 0
                },
        decreases n - i,
    {
        raw.push(
            ffi::FarMenuItem {
                flags: items[i].flags,
                text: WideString::from_str(items[i].text.as_str()),
                accel_key: items[i].accel_key,
                user_data: 0,
            },
        );
        i = i + 1;
    }
    raw
}

/// Closes a break-key list the way the ABI wants it handed over: with the
/// zero key as terminator.
pub fn terminate_break_keys(break_keys: Option<Vec<ffi::FarKey>>) -> (r: Vec<ffi::FarKey>)
    ensures
        r@.len() >= 1,
        r@[r@.len() - 1] == (ffi::FarKey { virtual_key_code: 0, control_key_state: 0 }),
        match break_keys {
            Some(keys) => r@ == keys@.push(
                ffi::FarKey { virtual_key_code: 0, control_key_state: 0 },
            ),
            None => r@ == seq![ffi::FarKey { virtual_key_code: 0, control_key_state: 0 }],
        },
{
    let mut keys = match break_keys {
        Some(keys) => keys,
        None => Vec::new(),
    };
    keys.push(ffi::FarKey { virtual_key_code: 0, control_key_state: 0 });
    proof {
        if break_keys is None {
            assert(keys@ =~= seq![ffi::FarKey { virtual_key_code: 0, control_key_state: 0 }]);
        }
    }
    keys
}

/// Reads a menu's outcome: the selected index where one was chosen, and
/// the break code where a watched key ended the menu.
pub fn menu_result(selection: isize, break_code: isize) -> (r: (Option<usize>, Option<usize>))
    ensures
        selection < 0 ==> r.0 is None,
        selection >= 0 ==> r.0 == Some(selection as usize),
        break_code < 0 ==> r.1 is None,
        break_code >= 0 ==> r.1 == Some(break_code as usize),
{
    let chosen = if selection >= 0 {
        Some(selection as usize)
    } else {
        None
    };
    let brk = if break_code >= 0 {
        Some(break_code as usize)
    } else {
        None
    };
    (chosen, brk)
}

/// Shows a menu through the host: the labels are encoded into owned
/// buffers, the break keys terminated, and the host's two codes read back.
pub fn menu<A: FarApi>(
    api: &mut A,
    context: &ctx::Context,
    event_guid: &ffi::GUID,
    x: Option<isize>,
    y: Option<isize>,
    max_height: Option<isize>,
    flags: u64,
    title: Option<&str>,
    bottom: Option<&str>,
    help_topic: Option<&str>,
    break_keys: Option<Vec<ffi::FarKey>>,
    items: Vec<FarMenuItem>,
) -> (r: (Option<usize>, Option<usize>))
    requires
        context.has_global_info(),
{
    let guid = context.plugin_guid();
    let title_ws = encode_opt_str(title);
    let bottom_ws = encode_opt_str(bottom);
    let help_topic_ws = encode_opt_str(help_topic);
    let break_keys_raw = terminate_break_keys(break_keys);
    let items_raw = marshal_menu_items(&items);
    let (selection, break_code) = api.menu(
        &guid,
        event_guid,
        unwrap_or_isize(x, -1),
        unwrap_or_isize(y, -1),
        unwrap_or_isize(max_height, 0),
        flags,
        title_ws.as_ref(),
        bottom_ws.as_ref(),
        help_topic_ws.as_ref(),
        &break_keys_raw,
        &items_raw,
    );
    menu_result(selection, break_code)
}

/// Encodes an optional borrowed text.
fn encode_opt_str(src: Option<&str>) -> (r: Option<WideString>)
    ensures
        match (r, src) {
            (Some(w), Some(s)) => w@ == wide_of(s@),
            (None, None) => true,
            _ => false,
        },
{
    match src {
        Some(s) => Some(WideString::from_str(s)),
        None => None,
    }
}

/// An optional coordinate, with the ABI's default where none is given.
fn unwrap_or_isize(v: Option<isize>, default: isize) -> (r: isize)
    ensures
        v matches Some(x) ==> r == x,
        v is None ==> r == default,
{
    match v {
        Some(x) => x,
        None => default,
    }
}

/// The flags a message call goes out with: the all-in-one bit is cleared
/// for separate lines and set for a single buffer, whatever the caller
/// passed.
pub fn message_flags(all_in_one: bool, flags: u64) -> (r: u64)
    ensures
        !all_in_one ==> r == flags & 0xFFFF_FFFF_FFFF_FFEFu64,
        all_in_one ==> r == flags | FMSG_ALLINONE,
{
    if all_in_one {
        flags | FMSG_ALLINONE
    } else {
        flags & 0xFFFF_FFFF_FFFF_FFEFu64
    }
}

/// Reads a message box's outcome: the pressed button's index, or nothing
/// where the host reports none.
pub fn selection_of(code: isize) -> (r: Option<usize>)
    ensures
        code < 0 ==> r is None,
        code >= 0 ==> r == Some(code as usize),
{
    if code >= 0 {
        Some(code as usize)
    } else {
        None
    }
}

/// Shows a message box through the host: separate lines go over as an
/// owned buffer array, one combined buffer goes over with the all-in-one
/// bit set, and the pressed button's index comes back.
pub fn message<A: FarApi>(
    api: &mut A,
    context: &ctx::Context,
    event_guid: &ffi::GUID,
    flags: u64,
    help_topic: Option<&WideString>,
    items: MessageItems,
    buttons_number: usize,
) -> (r: Option<usize>)
    requires
        context.has_global_info(),
{
    let guid = context.plugin_guid();
    let code = match items {
        MessageItems::Lines(lines) => {
            let n = lines.len();
            let wlines = WideStringArray::from_wide(lines);
            api.message(
                &guid,
                event_guid,
                message_flags(false, flags),
                help_topic,
                &wlines,
                n,
                buttons_number as isize,
            )
        },
        MessageItems::AllInOne(line) => {
            let mut one: Vec<WideString> = Vec::new();
            one.push(line);
            let wlines = WideStringArray::from_wide(one);
            api.message(
                &guid,
                event_guid,
                message_flags(true, flags),
                help_topic,
                &wlines,
                0,
                buttons_number as isize,
            )
        },
    };
    selection_of(code)
}

/// The host's answer read as a truth value: true exactly on the ABI's
/// truth code.
pub fn truth_of(code: isize) -> (r: bool)
    ensures
        r == (code == ffi::TRUE),
{
    code == ffi::TRUE
}

/// Opens a help topic through the host; true exactly on the ABI's truth
/// value.
pub fn show_help<A: FarApi>(api: &mut A, module_name: &str, topic: Option<&str>, flags: u64) -> (r:
    bool) {
    let module_name_ws = WideString::from_str(module_name);
    let topic_ws = encode_opt_str(topic);
    let code = api.show_help(&module_name_ws, topic_ws.as_ref(), flags);
    truth_of(code)
}

/// Lists a directory through the host and decodes every item; the host's
/// failure comes back as nothing.
pub fn get_dir_list<A: FarApi>(api: &mut A, dir: &str) -> (r: Option<
    Vec<crate::panel::PluginPanelItem>,
>) {
    let dir_ws = WideString::from_str(dir);
    match api.get_dir_list(&dir_ws) {
        Some(raw_items) => Some(crate::panel::decode_items(&raw_items)),
        None => None,
    }
}

/// Lists a directory inside another plugin's panel through the host.
pub fn get_plugin_dir_list<A: FarApi>(
    api: &mut A,
    plugin_id: &ffi::GUID,
    h_panel: HANDLE,
    dir: &str,
) -> (r: Option<Vec<crate::panel::PluginPanelItem>>) {
    let dir_ws = WideString::from_str(dir);
    match api.get_plugin_dir_list(plugin_id, h_panel, &dir_ws) {
        Some(raw_items) => Some(crate::panel::decode_items(&raw_items)),
        None => None,
    }
}

} // verus!
