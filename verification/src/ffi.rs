//! The host ABI vocabulary: the identifiers, version record, sentinels and
//! enumerations the host and the plugin agree on, and the declared sizes used
//! in the struct-size handshake. The numeric codes of an enumeration are
//! stated by its `value` function, proved equal to its specification.

use crate::common::string::WideString;
use vstd::prelude::*;

verus! {

/// A file time as the host writes it: the two halves of a 64-bit tick count.
#[derive(Clone, Copy, PartialEq, Eq, Structural, Debug)]
pub struct FILETIME {
    pub low: u32,
    pub high: u32,
}

impl FILETIME {
    pub fn zero() -> (r: FILETIME)
        ensures
            r.low == 0 && r.high == 0,
    {
        FILETIME { low: 0, high: 0 }
    }
}

/// The declared size of the host's open record.
pub const OPEN_INFO_SIZE: usize = 40;

/// The declared size of the host's find-data request.
pub const GET_FIND_DATA_INFO_SIZE: usize = 40;

/// The declared size of the host's free-find-data notice.
pub const FREE_FIND_DATA_INFO_SIZE: usize = 32;

/// The declared size of the panel-information record the host asks the
/// plugin to fill.
pub const OPEN_PANEL_INFO_SIZE: usize = 176;

/// The declared size of the host's panel-closing notice.
pub const CLOSE_PANEL_INFO_SIZE: usize = 16;

/// The declared size of the host's directory-change request.
pub const SET_DIRECTORY_INFO_SIZE: usize = 40;

/// The declared size of the host's directory-creation request.
pub const MAKE_DIRECTORY_INFO_SIZE: usize = 32;

/// The declared size of the host's deletion request.
pub const DELETE_FILES_INFO_SIZE: usize = 40;

/// The declared size of the host's panel-event notice.
pub const PROCESS_PANEL_EVENT_INFO_SIZE: usize = 32;

/// The declared size of the host's put-files request.
pub const PUT_FILES_INFO_SIZE: usize = 56;

/// The declared size of the host's find-list installation.
pub const SET_FIND_LIST_INFO_SIZE: usize = 32;

/// The declared size of the host's host-file request.
pub const PROCESS_HOST_FILE_INFO_SIZE: usize = 40;

/// The declared size of the host's panel-input notice.
pub const PROCESS_PANEL_INPUT_INFO_SIZE: usize = 40;

/// The declared size of the host's comparison request.
pub const COMPARE_INFO_SIZE: usize = 40;

/// The declared size of the host's analyse request.
pub const ANALYSE_INFO_SIZE: usize = 40;

/// The declared size of the host's analyse-closing notice.
pub const CLOSE_ANALYSE_INFO_SIZE: usize = 16;

/// The declared size of the host's get-files request.
pub const GET_FILES_INFO_SIZE: usize = 56;

/// The handle value a host call returns when it failed to create anything.
pub const INVALID_HANDLE_VALUE: isize = -1;

/// The declared size of the record the plugin fills to describe itself.
pub const GLOBAL_INFO_SIZE: usize = 96;

/// The declared size of the record the plugin fills with its menus.
pub const PLUGIN_INFO_SIZE: usize = 96;

/// One key the host watches for while a menu is open.
#[derive(Clone, Copy, PartialEq, Eq, Structural, Debug)]
pub struct FarKey {
    pub virtual_key_code: u16,
    pub control_key_state: u32,
}

/// A colour as the host paints it: the style flags and the two palette or
/// RGB words. Carried through unread.
#[derive(Clone, Copy, PartialEq, Eq, Structural, Debug)]
pub struct FarColor {
    pub flags: u64,
    pub foreground_color: u32,
    pub background_color: u32,
}

impl Default for FarColor {
    /// The colour handed to the host when the caller has no preference:
    /// plain four-bit palette indices.
    fn default() -> (r: FarColor)
        ensures
            r.flags == 3,
            r.foreground_color == 0,
            r.background_color == 0,
    {
        FarColor { flags: 3, foreground_color: 0, background_color: 0 }
    }
}

/// A flat menu entry of the shape the host reads: the text buffer is owned
/// here and stands for the pointer the host would get.
pub struct FarMenuItem {
    pub flags: u64,
    pub text: WideString,
    pub accel_key: FarKey,
    pub user_data: usize,
}

/// What a flat menu entry holds.
pub ghost struct FarMenuItemView {
    pub flags: u64,
    pub text: Seq<u16>,
    pub accel_key: FarKey,
    pub user_data: usize,
}

impl View for FarMenuItem {
    type V = FarMenuItemView;

    open spec fn view(&self) -> FarMenuItemView {
        FarMenuItemView {
            flags: self.flags,
            text: self.text@,
            accel_key: self.accel_key,
            user_data: self.user_data,
        }
    }
}

/// The record the plugin fills to describe itself, as the shim writes it
/// back to the host; the texts behind its pointers live in the context.
#[derive(Clone, Copy, PartialEq, Eq, Structural, Debug)]
pub struct GlobalInfo {
    pub struct_size: usize,
    pub min_far_version: VersionInfo,
    pub version: VersionInfo,
    pub guid: GUID,
}

/// The record the plugin fills with its menus, as the shim writes it back;
/// the menu arrays behind its pointers live in the context.
#[derive(Clone, Copy, PartialEq, Eq, Structural, Debug)]
pub struct PluginInfo {
    pub struct_size: usize,
    pub flags: u64,
    pub disk_menu_count: usize,
    pub plugin_menu_count: usize,
    pub plugin_config_count: usize,
    pub has_command_prefix: bool,
}

/// A flat panel item of the shape the host iterates. Every pointer field of
/// the host layout is modelled by the buffer it points at; `None` stands for
/// a null pointer.
pub struct PluginPanelItem {
    pub creation_time: FILETIME,
    pub last_access_time: FILETIME,
    pub last_write_time: FILETIME,
    pub change_time: FILETIME,
    pub file_size: u64,
    pub allocation_size: u64,
    pub file_name: WideString,
    pub alternate_file_name: Option<WideString>,
    pub description: Option<WideString>,
    pub owner: Option<WideString>,
    pub flags: u64,
    pub file_attributes: u64,
    pub number_of_links: usize,
    pub crc32: usize,
}

/// What a flat panel item holds, buffer contents in place of pointers.
pub ghost struct PluginPanelItemView {
    pub creation_time: FILETIME,
    pub last_access_time: FILETIME,
    pub last_write_time: FILETIME,
    pub change_time: FILETIME,
    pub file_size: u64,
    pub allocation_size: u64,
    pub file_name: Seq<u16>,
    pub alternate_file_name: Option<Seq<u16>>,
    pub description: Option<Seq<u16>>,
    pub owner: Option<Seq<u16>>,
    pub flags: u64,
    pub file_attributes: u64,
    pub number_of_links: usize,
    pub crc32: usize,
}

impl View for PluginPanelItem {
    type V = PluginPanelItemView;

    open spec fn view(&self) -> PluginPanelItemView {
        PluginPanelItemView {
            creation_time: self.creation_time,
            last_access_time: self.last_access_time,
            last_write_time: self.last_write_time,
            change_time: self.change_time,
            file_size: self.file_size,
            allocation_size: self.allocation_size,
            file_name: self.file_name@,
            alternate_file_name: match self.alternate_file_name {
                Some(w) => Some(w@),
                None => None,
            },
            description: match self.description {
                Some(w) => Some(w@),
                None => None,
            },
            owner: match self.owner {
                Some(w) => Some(w@),
                None => None,
            },
            flags: self.flags,
            file_attributes: self.file_attributes,
            number_of_links: self.number_of_links,
            crc32: self.crc32,
        }
    }
}

/// A flat information-panel line: two buffers and the line's flags.
pub struct InfoPanelLine {
    pub text: WideString,
    pub data: WideString,
    pub flags: u64,
}

/// What a flat information-panel line holds.
pub ghost struct InfoPanelLineView {
    pub text: Seq<u16>,
    pub data: Seq<u16>,
    pub flags: u64,
}

impl View for InfoPanelLine {
    type V = InfoPanelLineView;

    open spec fn view(&self) -> InfoPanelLineView {
        InfoPanelLineView { text: self.text@, data: self.data@, flags: self.flags }
    }
}

/// An opaque identifier the host hands out for a panel, dialog or editor.
/// The binding only ever uses it as a lookup key and never interprets it.
pub type HANDLE = usize;

/// The handle value the host reads as "the active panel".
pub const PANEL_ACTIVE: isize = -1;

/// The handle value the host reads as "the passive panel".
pub const PANEL_PASSIVE: isize = -2;

/// The handle value the host reads as "no panel".
pub const PANEL_NONE: isize = -1;

/// The boolean the ABI writes as truth.
pub const TRUE: isize = 1;

/// The boolean the ABI writes as falsehood.
pub const FALSE: isize = 0;

pub const FARMANAGERVERSION_MAJOR: u32 = 3;

pub const FARMANAGERVERSION_MINOR: u32 = 0;

pub const FARMANAGERVERSION_REVISION: u32 = 0;

pub const FARMANAGERVERSION_BUILD: u32 = 5300;

/// A 128-bit identifier the host uses to address plugins, menu items and
/// dialogs.
#[derive(Clone, Copy, PartialEq, Eq, Structural, Debug)]
pub struct GUID {
    pub data1: u32,
    pub data2: u16,
    pub data3: u16,
    /// The trailing eight bytes, packed with the first byte highest.
    pub data4: u64,
}

impl GUID {
    /// The placeholder identity a context starts with before the plugin
    /// reports its own.
    pub fn default_guid() -> (g: GUID)
        ensures
            g.data1 == 0,
            g.data2 == 0,
            g.data3 == 0,
            g.data4 == 1,
    {
        GUID { data1: 0, data2: 0, data3: 0, data4: 1 }
    }
}

/// The release stage reported inside a version record.
#[allow(non_camel_case_types)]
#[derive(Clone, Copy, PartialEq, Eq, Structural, Debug)]
pub enum VersionStage {
    VS_RELEASE,
    VS_ALPHA,
    VS_BETA,
    VS_RC,
}

impl VersionStage {
    /// The code the ABI writes for this stage.
    pub open spec fn value_spec(&self) -> u32 {
        match self {
            VersionStage::VS_RELEASE => 0,
            VersionStage::VS_ALPHA => 1,
            VersionStage::VS_BETA => 2,
            VersionStage::VS_RC => 3,
        }
    }

    pub fn value(&self) -> (r: u32)
        ensures
            r == self.value_spec(),
    {
        match self {
            VersionStage::VS_RELEASE => 0,
            VersionStage::VS_ALPHA => 1,
            VersionStage::VS_BETA => 2,
            VersionStage::VS_RC => 3,
        }
    }
}

/// A version record of the shape the host compares during the handshake.
#[derive(Clone, Copy, PartialEq, Eq, Structural, Debug)]
pub struct VersionInfo {
    pub major: u32,
    pub minor: u32,
    pub revision: u32,
    pub build: u32,
    pub stage: VersionStage,
}

impl Default for VersionInfo {
    /// The zero version, release stage: what an unfilled record reports.
    fn default() -> (r: VersionInfo)
        ensures
            r.major == 0,
            r.minor == 0,
            r.revision == 0,
            r.build == 0,
            r.stage == VersionStage::VS_RELEASE,
    {
        VersionInfo { major: 0, minor: 0, revision: 0, build: 0, stage: VersionStage::VS_RELEASE }
    }
}

impl VersionInfo {
    /// The version of the host ABI this binding is written against.
    pub fn current() -> (v: VersionInfo)
        ensures
            v.major == FARMANAGERVERSION_MAJOR,
            v.minor == FARMANAGERVERSION_MINOR,
            v.revision == FARMANAGERVERSION_REVISION,
            v.build == FARMANAGERVERSION_BUILD,
            v.stage == VersionStage::VS_RELEASE,
    {
        VersionInfo {
            major: FARMANAGERVERSION_MAJOR,
            minor: FARMANAGERVERSION_MINOR,
            revision: FARMANAGERVERSION_REVISION,
            build: FARMANAGERVERSION_BUILD,
            stage: VersionStage::VS_RELEASE,
        }
    }
}

/// What the host's `data` pointer of an open request holds, already copied
/// out of host memory, one variant per origin that carries a payload.
pub enum OpenPayload {
    /// No extra data for this origin.
    Empty,
    /// A shortcut: the optional host file and shortcut data buffers.
    Shortcut { host_file: Option<Vec<u16>>, shortcut_data: Option<Vec<u16>>, flags: u64 },
    /// A command line typed with the plugin's prefix.
    CommandLine { command_line: Vec<u16> },
    /// An open from inside a dialog.
    Dialog { h_dlg: HANDLE },
    /// An open after a successful analyse: the file and its leading bytes.
    Analyse { file_name: Vec<u16>, buffer: Vec<u8>, op_mode: u64, handle: HANDLE },
}

/// The host's open request. The fields past the declared size can only be
/// read once the size handshake has been checked.
pub struct OpenInfo {
    struct_size: usize,
    open_from: u32,
    payload: OpenPayload,
}

impl OpenInfo {
    pub closed spec fn spec_struct_size(&self) -> usize {
        self.struct_size
    }

    pub closed spec fn spec_open_from(&self) -> u32 {
        self.open_from
    }

    pub closed spec fn spec_payload(&self) -> OpenPayload {
        self.payload
    }

    pub fn new(struct_size: usize, open_from: u32, payload: OpenPayload) -> (r: OpenInfo)
        ensures
            r.spec_struct_size() == struct_size,
            r.spec_open_from() == open_from,
            r.spec_payload() == payload,
    {
        OpenInfo { struct_size, open_from, payload }
    }

    pub fn struct_size(&self) -> (r: usize)
        ensures
            r == self.spec_struct_size(),
    {
        self.struct_size
    }

    pub fn open_from(&self) -> (r: u32)
        requires
            self.spec_struct_size() == OPEN_INFO_SIZE,
        ensures
            r == self.spec_open_from(),
    {
        self.open_from
    }

    pub fn payload(&self) -> (r: &OpenPayload)
        requires
            self.spec_struct_size() == OPEN_INFO_SIZE,
        ensures
            *r == self.spec_payload(),
    {
        &self.payload
    }
}

/// The host's find-data request.
pub struct GetFindDataInfo {
    struct_size: usize,
    h_panel: HANDLE,
    op_mode: u64,
}

impl GetFindDataInfo {
    pub closed spec fn spec_struct_size(&self) -> usize {
        self.struct_size
    }

    pub closed spec fn spec_h_panel(&self) -> HANDLE {
        self.h_panel
    }

    pub closed spec fn spec_op_mode(&self) -> u64 {
        self.op_mode
    }

    pub fn new(struct_size: usize, h_panel: HANDLE, op_mode: u64) -> (r: GetFindDataInfo)
        ensures
            r.spec_struct_size() == struct_size,
            r.spec_h_panel() == h_panel,
            r.spec_op_mode() == op_mode,
    {
        GetFindDataInfo { struct_size, h_panel, op_mode }
    }

    pub fn struct_size(&self) -> (r: usize)
        ensures
            r == self.spec_struct_size(),
    {
        self.struct_size
    }

    pub fn h_panel(&self) -> (r: HANDLE)
        requires
            self.spec_struct_size() == GET_FIND_DATA_INFO_SIZE,
        ensures
            r == self.spec_h_panel(),
    {
        self.h_panel
    }

    pub fn op_mode(&self) -> (r: u64)
        requires
            self.spec_struct_size() == GET_FIND_DATA_INFO_SIZE,
        ensures
            r == self.spec_op_mode(),
    {
        self.op_mode
    }
}

/// The host's notice that the find data of a panel can be released.
pub struct FreeFindDataInfo {
    struct_size: usize,
    h_panel: HANDLE,
}

impl FreeFindDataInfo {
    pub closed spec fn spec_struct_size(&self) -> usize {
        self.struct_size
    }

    pub closed spec fn spec_h_panel(&self) -> HANDLE {
        self.h_panel
    }

    pub fn new(struct_size: usize, h_panel: HANDLE) -> (r: FreeFindDataInfo)
        ensures
            r.spec_struct_size() == struct_size,
            r.spec_h_panel() == h_panel,
    {
        FreeFindDataInfo { struct_size, h_panel }
    }

    pub fn struct_size(&self) -> (r: usize)
        ensures
            r == self.spec_struct_size(),
    {
        self.struct_size
    }

    pub fn h_panel(&self) -> (r: HANDLE)
        requires
            self.spec_struct_size() == FREE_FIND_DATA_INFO_SIZE,
        ensures
            r == self.spec_h_panel(),
    {
        self.h_panel
    }
}

/// The host's request for the panel information of one handle.
pub struct OpenPanelInfoRequest {
    struct_size: usize,
    h_panel: HANDLE,
}

impl OpenPanelInfoRequest {
    pub closed spec fn spec_struct_size(&self) -> usize {
        self.struct_size
    }

    pub closed spec fn spec_h_panel(&self) -> HANDLE {
        self.h_panel
    }

    pub fn new(struct_size: usize, h_panel: HANDLE) -> (r: OpenPanelInfoRequest)
        ensures
            r.spec_struct_size() == struct_size,
            r.spec_h_panel() == h_panel,
    {
        OpenPanelInfoRequest { struct_size, h_panel }
    }

    pub fn struct_size(&self) -> (r: usize)
        ensures
            r == self.spec_struct_size(),
    {
        self.struct_size
    }

    pub fn h_panel(&self) -> (r: HANDLE)
        requires
            self.spec_struct_size() == OPEN_PANEL_INFO_SIZE,
        ensures
            r == self.spec_h_panel(),
    {
        self.h_panel
    }
}

/// The host's notice that a panel is closing.
pub struct ClosePanelInfo {
    struct_size: usize,
    h_panel: HANDLE,
}

impl ClosePanelInfo {
    pub closed spec fn spec_struct_size(&self) -> usize {
        self.struct_size
    }

    pub closed spec fn spec_h_panel(&self) -> HANDLE {
        self.h_panel
    }

    pub fn new(struct_size: usize, h_panel: HANDLE) -> (r: ClosePanelInfo)
        ensures
            r.spec_struct_size() == struct_size,
            r.spec_h_panel() == h_panel,
    {
        ClosePanelInfo { struct_size, h_panel }
    }

    pub fn struct_size(&self) -> (r: usize)
        ensures
            r == self.spec_struct_size(),
    {
        self.struct_size
    }

    pub fn h_panel(&self) -> (r: HANDLE)
        requires
            self.spec_struct_size() == CLOSE_PANEL_INFO_SIZE,
        ensures
            r == self.spec_h_panel(),
    {
        self.h_panel
    }
}

/// The host's request to change a panel's directory. The directory buffer is
/// copied out of host memory before the call.
pub struct SetDirectoryInfo {
    struct_size: usize,
    h_panel: HANDLE,
    dir: Vec<u16>,
    op_mode: u64,
}

impl SetDirectoryInfo {
    pub closed spec fn spec_struct_size(&self) -> usize {
        self.struct_size
    }

    pub closed spec fn spec_h_panel(&self) -> HANDLE {
        self.h_panel
    }

    pub closed spec fn spec_dir(&self) -> Seq<u16> {
        self.dir@
    }

    pub closed spec fn spec_op_mode(&self) -> u64 {
        self.op_mode
    }

    pub fn new(struct_size: usize, h_panel: HANDLE, dir: Vec<u16>, op_mode: u64) -> (r:
        SetDirectoryInfo)
        ensures
            r.spec_struct_size() == struct_size,
            r.spec_h_panel() == h_panel,
            r.spec_dir() == dir@,
            r.spec_op_mode() == op_mode,
    {
        SetDirectoryInfo { struct_size, h_panel, dir, op_mode }
    }

    pub fn struct_size(&self) -> (r: usize)
        ensures
            r == self.spec_struct_size(),
    {
        self.struct_size
    }

    pub fn h_panel(&self) -> (r: HANDLE)
        requires
            self.spec_struct_size() == SET_DIRECTORY_INFO_SIZE,
        ensures
            r == self.spec_h_panel(),
    {
        self.h_panel
    }

    pub fn dir(&self) -> (r: &Vec<u16>)
        requires
            self.spec_struct_size() == SET_DIRECTORY_INFO_SIZE,
        ensures
            r@ == self.spec_dir(),
    {
        &self.dir
    }

    pub fn op_mode(&self) -> (r: u64)
        requires
            self.spec_struct_size() == SET_DIRECTORY_INFO_SIZE,
        ensures
            r == self.spec_op_mode(),
    {
        self.op_mode
    }
}

/// The host's request to create a directory inside the plugin's panel. The
/// name buffer is copied out of host memory before the call.
pub struct MakeDirectoryInfo {
    struct_size: usize,
    h_panel: HANDLE,
    name: Vec<u16>,
    op_mode: u64,
}

impl MakeDirectoryInfo {
    pub closed spec fn spec_struct_size(&self) -> usize {
        self.struct_size
    }

    pub closed spec fn spec_h_panel(&self) -> HANDLE {
        self.h_panel
    }

    pub closed spec fn spec_name(&self) -> Seq<u16> {
        self.name@
    }

    pub closed spec fn spec_op_mode(&self) -> u64 {
        self.op_mode
    }

    pub fn new(struct_size: usize, h_panel: HANDLE, name: Vec<u16>, op_mode: u64) -> (r:
        MakeDirectoryInfo)
        ensures
            r.spec_struct_size() == struct_size,
            r.spec_h_panel() == h_panel,
            r.spec_name() == name@,
            r.spec_op_mode() == op_mode,
    {
        MakeDirectoryInfo { struct_size, h_panel, name, op_mode }
    }

    pub fn struct_size(&self) -> (r: usize)
        ensures
            r == self.spec_struct_size(),
    {
        self.struct_size
    }

    pub fn h_panel(&self) -> (r: HANDLE)
        requires
            self.spec_struct_size() == MAKE_DIRECTORY_INFO_SIZE,
        ensures
            r == self.spec_h_panel(),
    {
        self.h_panel
    }

    pub fn name(&self) -> (r: &Vec<u16>)
        requires
            self.spec_struct_size() == MAKE_DIRECTORY_INFO_SIZE,
        ensures
            r@ == self.spec_name(),
    {
        &self.name
    }

    pub fn op_mode(&self) -> (r: u64)
        requires
            self.spec_struct_size() == MAKE_DIRECTORY_INFO_SIZE,
        ensures
            r == self.spec_op_mode(),
    {
        self.op_mode
    }
}

/// The host's deletion request: the items stand copied out of host memory.
pub struct DeleteFilesInfo {
    struct_size: usize,
    h_panel: HANDLE,
    panel_item: Vec<PluginPanelItem>,
    op_mode: u64,
}

impl DeleteFilesInfo {
    pub closed spec fn spec_struct_size(&self) -> usize {
        self.struct_size
    }

    pub closed spec fn spec_h_panel(&self) -> HANDLE {
        self.h_panel
    }

    pub closed spec fn spec_panel_item(&self) -> Seq<PluginPanelItem> {
        self.panel_item@
    }

    pub closed spec fn spec_op_mode(&self) -> u64 {
        self.op_mode
    }

    pub fn new(
        struct_size: usize,
        h_panel: HANDLE,
        panel_item: Vec<PluginPanelItem>,
        op_mode: u64,
    ) -> (r: DeleteFilesInfo)
        ensures
            r.spec_struct_size() == struct_size,
            r.spec_h_panel() == h_panel,
            r.spec_panel_item() == panel_item@,
            r.spec_op_mode() == op_mode,
    {
        DeleteFilesInfo { struct_size, h_panel, panel_item, op_mode }
    }

    pub fn struct_size(&self) -> (r: usize)
        ensures
            r == self.spec_struct_size(),
    {
        self.struct_size
    }

    pub fn h_panel(&self) -> (r: HANDLE)
        requires
            self.spec_struct_size() == DELETE_FILES_INFO_SIZE,
        ensures
            r == self.spec_h_panel(),
    {
        self.h_panel
    }

    pub fn panel_item(&self) -> (r: &Vec<PluginPanelItem>)
        requires
            self.spec_struct_size() == DELETE_FILES_INFO_SIZE,
        ensures
            r@ == self.spec_panel_item(),
    {
        &self.panel_item
    }

    pub fn op_mode(&self) -> (r: u64)
        requires
            self.spec_struct_size() == DELETE_FILES_INFO_SIZE,
        ensures
            r == self.spec_op_mode(),
    {
        self.op_mode
    }
}

/// The host's panel-event notice. The host's one parameter word is either a
/// pointer to a text or a plain number, depending on the event; both
/// readings stand here, copied out of host memory.
pub struct ProcessPanelEventInfo {
    struct_size: usize,
    event: u32,
    param_text: Vec<u16>,
    param_value: u32,
    h_panel: HANDLE,
}

impl ProcessPanelEventInfo {
    pub closed spec fn spec_struct_size(&self) -> usize {
        self.struct_size
    }

    pub closed spec fn spec_event(&self) -> u32 {
        self.event
    }

    pub closed spec fn spec_param_text(&self) -> Seq<u16> {
        self.param_text@
    }

    pub closed spec fn spec_param_value(&self) -> u32 {
        self.param_value
    }

    pub closed spec fn spec_h_panel(&self) -> HANDLE {
        self.h_panel
    }

    pub fn new(
        struct_size: usize,
        event: u32,
        param_text: Vec<u16>,
        param_value: u32,
        h_panel: HANDLE,
    ) -> (r: ProcessPanelEventInfo)
        ensures
            r.spec_struct_size() == struct_size,
            r.spec_event() == event,
            r.spec_param_text() == param_text@,
            r.spec_param_value() == param_value,
            r.spec_h_panel() == h_panel,
    {
        ProcessPanelEventInfo { struct_size, event, param_text, param_value, h_panel }
    }

    pub fn struct_size(&self) -> (r: usize)
        ensures
            r == self.spec_struct_size(),
    {
        self.struct_size
    }

    pub fn event(&self) -> (r: u32)
        requires
            self.spec_struct_size() == PROCESS_PANEL_EVENT_INFO_SIZE,
        ensures
            r == self.spec_event(),
    {
        self.event
    }

    pub fn param_text(&self) -> (r: &Vec<u16>)
        requires
            self.spec_struct_size() == PROCESS_PANEL_EVENT_INFO_SIZE,
        ensures
            r@ == self.spec_param_text(),
    {
        &self.param_text
    }

    pub fn param_value(&self) -> (r: u32)
        requires
            self.spec_struct_size() == PROCESS_PANEL_EVENT_INFO_SIZE,
        ensures
            r == self.spec_param_value(),
    {
        self.param_value
    }

    pub fn h_panel(&self) -> (r: HANDLE)
        requires
            self.spec_struct_size() == PROCESS_PANEL_EVENT_INFO_SIZE,
        ensures
            r == self.spec_h_panel(),
    {
        self.h_panel
    }
}

/// The host's put-files request: items to store into the plugin's panel.
pub struct PutFilesInfo {
    struct_size: usize,
    h_panel: HANDLE,
    panel_item: Vec<PluginPanelItem>,
    move_file: isize,
    src_path: Vec<u16>,
    op_mode: u64,
}

impl PutFilesInfo {
    pub closed spec fn spec_struct_size(&self) -> usize {
        self.struct_size
    }

    pub closed spec fn spec_h_panel(&self) -> HANDLE {
        self.h_panel
    }

    pub closed spec fn spec_panel_item(&self) -> Seq<PluginPanelItem> {
        self.panel_item@
    }

    pub closed spec fn spec_move_file(&self) -> isize {
        self.move_file
    }

    pub closed spec fn spec_src_path(&self) -> Seq<u16> {
        self.src_path@
    }

    pub closed spec fn spec_op_mode(&self) -> u64 {
        self.op_mode
    }

    pub fn new(
        struct_size: usize,
        h_panel: HANDLE,
        panel_item: Vec<PluginPanelItem>,
        move_file: isize,
        src_path: Vec<u16>,
        op_mode: u64,
    ) -> (r: PutFilesInfo)
        ensures
            r.spec_struct_size() == struct_size,
            r.spec_h_panel() == h_panel,
            r.spec_panel_item() == panel_item@,
            r.spec_move_file() == move_file,
            r.spec_src_path() == src_path@,
            r.spec_op_mode() == op_mode,
    {
        PutFilesInfo { struct_size, h_panel, panel_item, move_file, src_path, op_mode }
    }

    pub fn struct_size(&self) -> (r: usize)
        ensures
            r == self.spec_struct_size(),
    {
        self.struct_size
    }

    pub fn h_panel(&self) -> (r: HANDLE)
        requires
            self.spec_struct_size() == PUT_FILES_INFO_SIZE,
        ensures
            r == self.spec_h_panel(),
    {
        self.h_panel
    }

    pub fn panel_item(&self) -> (r: &Vec<PluginPanelItem>)
        requires
            self.spec_struct_size() == PUT_FILES_INFO_SIZE,
        ensures
            r@ == self.spec_panel_item(),
    {
        &self.panel_item
    }

    pub fn move_file(&self) -> (r: isize)
        requires
            self.spec_struct_size() == PUT_FILES_INFO_SIZE,
        ensures
            r == self.spec_move_file(),
    {
        self.move_file
    }

    pub fn src_path(&self) -> (r: &Vec<u16>)
        requires
            self.spec_struct_size() == PUT_FILES_INFO_SIZE,
        ensures
            r@ == self.spec_src_path(),
    {
        &self.src_path
    }

    pub fn op_mode(&self) -> (r: u64)
        requires
            self.spec_struct_size() == PUT_FILES_INFO_SIZE,
        ensures
            r == self.spec_op_mode(),
    {
        self.op_mode
    }
}

/// The host's request to install the results of a find as a listing.
pub struct SetFindListInfo {
    struct_size: usize,
    h_panel: HANDLE,
    panel_item: Vec<PluginPanelItem>,
}

impl SetFindListInfo {
    pub closed spec fn spec_struct_size(&self) -> usize {
        self.struct_size
    }

    pub closed spec fn spec_h_panel(&self) -> HANDLE {
        self.h_panel
    }

    pub closed spec fn spec_panel_item(&self) -> Seq<PluginPanelItem> {
        self.panel_item@
    }

    pub fn new(struct_size: usize, h_panel: HANDLE, panel_item: Vec<PluginPanelItem>) -> (r:
        SetFindListInfo)
        ensures
            r.spec_struct_size() == struct_size,
            r.spec_h_panel() == h_panel,
            r.spec_panel_item() == panel_item@,
    {
        SetFindListInfo { struct_size, h_panel, panel_item }
    }

    pub fn struct_size(&self) -> (r: usize)
        ensures
            r == self.spec_struct_size(),
    {
        self.struct_size
    }

    pub fn h_panel(&self) -> (r: HANDLE)
        requires
            self.spec_struct_size() == SET_FIND_LIST_INFO_SIZE,
        ensures
            r == self.spec_h_panel(),
    {
        self.h_panel
    }

    pub fn panel_item(&self) -> (r: &Vec<PluginPanelItem>)
        requires
            self.spec_struct_size() == SET_FIND_LIST_INFO_SIZE,
        ensures
            r@ == self.spec_panel_item(),
    {
        &self.panel_item
    }
}

/// The host's request to run an archive-style operation on the host file.
pub struct ProcessHostFileInfo {
    struct_size: usize,
    h_panel: HANDLE,
    panel_item: Vec<PluginPanelItem>,
    op_mode: u64,
}

impl ProcessHostFileInfo {
    pub closed spec fn spec_struct_size(&self) -> usize {
        self.struct_size
    }

    pub closed spec fn spec_h_panel(&self) -> HANDLE {
        self.h_panel
    }

    pub closed spec fn spec_panel_item(&self) -> Seq<PluginPanelItem> {
        self.panel_item@
    }

    pub closed spec fn spec_op_mode(&self) -> u64 {
        self.op_mode
    }

    pub fn new(
        struct_size: usize,
        h_panel: HANDLE,
        panel_item: Vec<PluginPanelItem>,
        op_mode: u64,
    ) -> (r: ProcessHostFileInfo)
        ensures
            r.spec_struct_size() == struct_size,
            r.spec_h_panel() == h_panel,
            r.spec_panel_item() == panel_item@,
            r.spec_op_mode() == op_mode,
    {
        ProcessHostFileInfo { struct_size, h_panel, panel_item, op_mode }
    }

    pub fn struct_size(&self) -> (r: usize)
        ensures
            r == self.spec_struct_size(),
    {
        self.struct_size
    }

    pub fn h_panel(&self) -> (r: HANDLE)
        requires
            self.spec_struct_size() == PROCESS_HOST_FILE_INFO_SIZE,
        ensures
            r == self.spec_h_panel(),
    {
        self.h_panel
    }

    pub fn panel_item(&self) -> (r: &Vec<PluginPanelItem>)
        requires
            self.spec_struct_size() == PROCESS_HOST_FILE_INFO_SIZE,
        ensures
            r@ == self.spec_panel_item(),
    {
        &self.panel_item
    }

    pub fn op_mode(&self) -> (r: u64)
        requires
            self.spec_struct_size() == PROCESS_HOST_FILE_INFO_SIZE,
        ensures
            r == self.spec_op_mode(),
    {
        self.op_mode
    }
}

/// One keyboard or mouse record as the host forwards it, kept as the raw
/// words of the console record; the binding hands it through unread.
#[allow(non_camel_case_types)]
#[derive(Clone, Copy, PartialEq, Eq, Structural, Debug)]
pub struct INPUT_RECORD {
    pub event_type: u16,
    pub data_low: u64,
    pub data_high: u64,
}

/// The host's notice of keyboard input on the plugin's panel.
pub struct ProcessPanelInputInfo {
    struct_size: usize,
    h_panel: HANDLE,
    rec: INPUT_RECORD,
}

impl ProcessPanelInputInfo {
    pub closed spec fn spec_struct_size(&self) -> usize {
        self.struct_size
    }

    pub closed spec fn spec_h_panel(&self) -> HANDLE {
        self.h_panel
    }

    pub closed spec fn spec_rec(&self) -> INPUT_RECORD {
        self.rec
    }

    pub fn new(struct_size: usize, h_panel: HANDLE, rec: INPUT_RECORD) -> (r:
        ProcessPanelInputInfo)
        ensures
            r.spec_struct_size() == struct_size,
            r.spec_h_panel() == h_panel,
            r.spec_rec() == rec,
    {
        ProcessPanelInputInfo { struct_size, h_panel, rec }
    }

    pub fn struct_size(&self) -> (r: usize)
        ensures
            r == self.spec_struct_size(),
    {
        self.struct_size
    }

    pub fn h_panel(&self) -> (r: HANDLE)
        requires
            self.spec_struct_size() == PROCESS_PANEL_INPUT_INFO_SIZE,
        ensures
            r == self.spec_h_panel(),
    {
        self.h_panel
    }

    pub fn rec(&self) -> (r: INPUT_RECORD)
        requires
            self.spec_struct_size() == PROCESS_PANEL_INPUT_INFO_SIZE,
        ensures
            r == self.spec_rec(),
    {
        self.rec
    }
}

/// The host's request to order two items, copied out of host memory.
pub struct CompareInfo {
    struct_size: usize,
    h_panel: HANDLE,
    item1: PluginPanelItem,
    item2: PluginPanelItem,
    mode: OPENPANELINFO_SORTMODES,
}

impl CompareInfo {
    pub closed spec fn spec_struct_size(&self) -> usize {
        self.struct_size
    }

    pub closed spec fn spec_h_panel(&self) -> HANDLE {
        self.h_panel
    }

    pub closed spec fn spec_item1(&self) -> PluginPanelItem {
        self.item1
    }

    pub closed spec fn spec_item2(&self) -> PluginPanelItem {
        self.item2
    }

    pub closed spec fn spec_mode(&self) -> OPENPANELINFO_SORTMODES {
        self.mode
    }

    pub fn new(
        struct_size: usize,
        h_panel: HANDLE,
        item1: PluginPanelItem,
        item2: PluginPanelItem,
        mode: OPENPANELINFO_SORTMODES,
    ) -> (r: CompareInfo)
        ensures
            r.spec_struct_size() == struct_size,
            r.spec_h_panel() == h_panel,
            r.spec_item1() == item1,
            r.spec_item2() == item2,
            r.spec_mode() == mode,
    {
        CompareInfo { struct_size, h_panel, item1, item2, mode }
    }

    pub fn struct_size(&self) -> (r: usize)
        ensures
            r == self.spec_struct_size(),
    {
        self.struct_size
    }

    pub fn h_panel(&self) -> (r: HANDLE)
        requires
            self.spec_struct_size() == COMPARE_INFO_SIZE,
        ensures
            r == self.spec_h_panel(),
    {
        self.h_panel
    }

    pub fn item1(&self) -> (r: &PluginPanelItem)
        requires
            self.spec_struct_size() == COMPARE_INFO_SIZE,
        ensures
            *r == self.spec_item1(),
    {
        &self.item1
    }

    pub fn item2(&self) -> (r: &PluginPanelItem)
        requires
            self.spec_struct_size() == COMPARE_INFO_SIZE,
        ensures
            *r == self.spec_item2(),
    {
        &self.item2
    }

    pub fn mode(&self) -> (r: OPENPANELINFO_SORTMODES)
        requires
            self.spec_struct_size() == COMPARE_INFO_SIZE,
        ensures
            r == self.spec_mode(),
    {
        self.mode
    }
}

/// The host's request to analyse a file the plugin may want to open: the
/// file's name and its leading bytes, copied out of host memory.
pub struct AnalyseInfo {
    struct_size: usize,
    file_name: Vec<u16>,
    buffer: Vec<u8>,
    op_mode: u64,
}

impl AnalyseInfo {
    pub closed spec fn spec_struct_size(&self) -> usize {
        self.struct_size
    }

    pub closed spec fn spec_file_name(&self) -> Seq<u16> {
        self.file_name@
    }

    pub closed spec fn spec_buffer(&self) -> Seq<u8> {
        self.buffer@
    }

    pub closed spec fn spec_op_mode(&self) -> u64 {
        self.op_mode
    }

    pub fn new(struct_size: usize, file_name: Vec<u16>, buffer: Vec<u8>, op_mode: u64) -> (r:
        AnalyseInfo)
        ensures
            r.spec_struct_size() == struct_size,
            r.spec_file_name() == file_name@,
            r.spec_buffer() == buffer@,
            r.spec_op_mode() == op_mode,
    {
        AnalyseInfo { struct_size, file_name, buffer, op_mode }
    }

    pub fn struct_size(&self) -> (r: usize)
        ensures
            r == self.spec_struct_size(),
    {
        self.struct_size
    }

    pub fn file_name(&self) -> (r: &Vec<u16>)
        requires
            self.spec_struct_size() == ANALYSE_INFO_SIZE,
        ensures
            r@ == self.spec_file_name(),
    {
        &self.file_name
    }

    pub fn buffer(&self) -> (r: &Vec<u8>)
        requires
            self.spec_struct_size() == ANALYSE_INFO_SIZE,
        ensures
            r@ == self.spec_buffer(),
    {
        &self.buffer
    }

    pub fn op_mode(&self) -> (r: u64)
        requires
            self.spec_struct_size() == ANALYSE_INFO_SIZE,
        ensures
            r == self.spec_op_mode(),
    {
        self.op_mode
    }
}

/// The host's notice that an analyse handle can be released.
pub struct CloseAnalyseInfo {
    struct_size: usize,
    handle: HANDLE,
}

impl CloseAnalyseInfo {
    pub closed spec fn spec_struct_size(&self) -> usize {
        self.struct_size
    }

    pub closed spec fn spec_handle(&self) -> HANDLE {
        self.handle
    }

    pub fn new(struct_size: usize, handle: HANDLE) -> (r: CloseAnalyseInfo)
        ensures
            r.spec_struct_size() == struct_size,
            r.spec_handle() == handle,
    {
        CloseAnalyseInfo { struct_size, handle }
    }

    pub fn struct_size(&self) -> (r: usize)
        ensures
            r == self.spec_struct_size(),
    {
        self.struct_size
    }

    pub fn handle(&self) -> (r: HANDLE)
        requires
            self.spec_struct_size() == CLOSE_ANALYSE_INFO_SIZE,
        ensures
            r == self.spec_handle(),
    {
        self.handle
    }
}

/// The host's get-files request: which items to copy out and where to.
pub struct GetFilesInfo {
    struct_size: usize,
    h_panel: HANDLE,
    panel_item: Vec<PluginPanelItem>,
    move_file: isize,
    dest_path: Vec<u16>,
    op_mode: u64,
}

impl GetFilesInfo {
    pub closed spec fn spec_struct_size(&self) -> usize {
        self.struct_size
    }

    pub closed spec fn spec_h_panel(&self) -> HANDLE {
        self.h_panel
    }

    pub closed spec fn spec_panel_item(&self) -> Seq<PluginPanelItem> {
        self.panel_item@
    }

    pub closed spec fn spec_move_file(&self) -> isize {
        self.move_file
    }

    pub closed spec fn spec_dest_path(&self) -> Seq<u16> {
        self.dest_path@
    }

    pub closed spec fn spec_op_mode(&self) -> u64 {
        self.op_mode
    }

    pub fn new(
        struct_size: usize,
        h_panel: HANDLE,
        panel_item: Vec<PluginPanelItem>,
        move_file: isize,
        dest_path: Vec<u16>,
        op_mode: u64,
    ) -> (r: GetFilesInfo)
        ensures
            r.spec_struct_size() == struct_size,
            r.spec_h_panel() == h_panel,
            r.spec_panel_item() == panel_item@,
            r.spec_move_file() == move_file,
            r.spec_dest_path() == dest_path@,
            r.spec_op_mode() == op_mode,
    {
        GetFilesInfo { struct_size, h_panel, panel_item, move_file, dest_path, op_mode }
    }

    pub fn struct_size(&self) -> (r: usize)
        ensures
            r == self.spec_struct_size(),
    {
        self.struct_size
    }

    pub fn h_panel(&self) -> (r: HANDLE)
        requires
            self.spec_struct_size() == GET_FILES_INFO_SIZE,
        ensures
            r == self.spec_h_panel(),
    {
        self.h_panel
    }

    pub fn panel_item(&self) -> (r: &Vec<PluginPanelItem>)
        requires
            self.spec_struct_size() == GET_FILES_INFO_SIZE,
        ensures
            r@ == self.spec_panel_item(),
    {
        &self.panel_item
    }

    pub fn move_file(&self) -> (r: isize)
        requires
            self.spec_struct_size() == GET_FILES_INFO_SIZE,
        ensures
            r == self.spec_move_file(),
    {
        self.move_file
    }

    pub fn dest_path(&self) -> (r: &Vec<u16>)
        requires
            self.spec_struct_size() == GET_FILES_INFO_SIZE,
        ensures
            r@ == self.spec_dest_path(),
    {
        &self.dest_path
    }

    pub fn op_mode(&self) -> (r: u64)
        requires
            self.spec_struct_size() == GET_FILES_INFO_SIZE,
        ensures
            r == self.spec_op_mode(),
    {
        self.op_mode
    }
}

/// Where the host opened the plugin from, as the `open` entry point receives
/// it.
#[allow(non_camel_case_types)]
#[derive(Clone, Copy, PartialEq, Eq, Structural, Debug)]
pub enum OPENFROM {
    OPEN_LEFTDISKMENU,
    OPEN_PLUGINSMENU,
    OPEN_FINDLIST,
    OPEN_SHORTCUT,
    OPEN_COMMANDLINE,
    OPEN_EDITOR,
    OPEN_VIEWER,
    OPEN_FILEPANEL,
    OPEN_DIALOG,
    OPEN_ANALYSE,
    OPEN_RIGHTDISKMENU,
    OPEN_FROMMACRO,
    OPEN_LUAMACRO,
}

impl OPENFROM {
    /// The code the ABI writes for this origin.
    pub open spec fn value_spec(&self) -> u32 {
        match self {
            OPENFROM::OPEN_LEFTDISKMENU => 0,
            OPENFROM::OPEN_PLUGINSMENU => 1,
            OPENFROM::OPEN_FINDLIST => 2,
            OPENFROM::OPEN_SHORTCUT => 3,
            OPENFROM::OPEN_COMMANDLINE => 4,
            OPENFROM::OPEN_EDITOR => 5,
            OPENFROM::OPEN_VIEWER => 6,
            OPENFROM::OPEN_FILEPANEL => 7,
            OPENFROM::OPEN_DIALOG => 8,
            OPENFROM::OPEN_ANALYSE => 9,
            OPENFROM::OPEN_RIGHTDISKMENU => 10,
            OPENFROM::OPEN_FROMMACRO => 11,
            OPENFROM::OPEN_LUAMACRO => 100,
        }
    }

    pub fn value(&self) -> (r: u32)
        ensures
            r == self.value_spec(),
    {
        match self {
            OPENFROM::OPEN_LEFTDISKMENU => 0,
            OPENFROM::OPEN_PLUGINSMENU => 1,
            OPENFROM::OPEN_FINDLIST => 2,
            OPENFROM::OPEN_SHORTCUT => 3,
            OPENFROM::OPEN_COMMANDLINE => 4,
            OPENFROM::OPEN_EDITOR => 5,
            OPENFROM::OPEN_VIEWER => 6,
            OPENFROM::OPEN_FILEPANEL => 7,
            OPENFROM::OPEN_DIALOG => 8,
            OPENFROM::OPEN_ANALYSE => 9,
            OPENFROM::OPEN_RIGHTDISKMENU => 10,
            OPENFROM::OPEN_FROMMACRO => 11,
            OPENFROM::OPEN_LUAMACRO => 100,
        }
    }

    /// Reads the origin back from its code: the inverse of `value` on the
    /// codes the ABI defines, and nothing on any other number.
    pub fn from_value(v: u32) -> (r: Option<OPENFROM>)
        ensures
            match r {
                Some(f) => f.value_spec() == v,
                None => forall|f: OPENFROM| (#[trigger] f.value_spec()) != v,
            },
    {
        let r = match v {
            0u32 => Some(OPENFROM::OPEN_LEFTDISKMENU),
            1u32 => Some(OPENFROM::OPEN_PLUGINSMENU),
            2u32 => Some(OPENFROM::OPEN_FINDLIST),
            3u32 => Some(OPENFROM::OPEN_SHORTCUT),
            4u32 => Some(OPENFROM::OPEN_COMMANDLINE),
            5u32 => Some(OPENFROM::OPEN_EDITOR),
            6u32 => Some(OPENFROM::OPEN_VIEWER),
            7u32 => Some(OPENFROM::OPEN_FILEPANEL),
            8u32 => Some(OPENFROM::OPEN_DIALOG),
            9u32 => Some(OPENFROM::OPEN_ANALYSE),
            10u32 => Some(OPENFROM::OPEN_RIGHTDISKMENU),
            11u32 => Some(OPENFROM::OPEN_FROMMACRO),
            100u32 => Some(OPENFROM::OPEN_LUAMACRO),
            _ => None,
        };
        r
    }
}

/// The panel event codes the host reports to `process_panel_event`.
#[allow(non_camel_case_types)]
#[derive(Clone, Copy, PartialEq, Eq, Structural, Debug)]
pub enum FAR_EVENTS {
    FE_CHANGEVIEWMODE,
    FE_REDRAW,
    FE_IDLE,
    FE_CLOSE,
    FE_BREAK,
    FE_COMMAND,
    FE_GOTFOCUS,
    FE_KILLFOCUS,
    FE_CHANGESORTPARAMS,
}

impl FAR_EVENTS {
    /// The code the ABI writes for this event.
    pub open spec fn value_spec(&self) -> u32 {
        match self {
            FAR_EVENTS::FE_CHANGEVIEWMODE => 0,
            FAR_EVENTS::FE_REDRAW => 1,
            FAR_EVENTS::FE_IDLE => 2,
            FAR_EVENTS::FE_CLOSE => 3,
            FAR_EVENTS::FE_BREAK => 4,
            FAR_EVENTS::FE_COMMAND => 5,
            FAR_EVENTS::FE_GOTFOCUS => 6,
            FAR_EVENTS::FE_KILLFOCUS => 7,
            FAR_EVENTS::FE_CHANGESORTPARAMS => 8,
        }
    }

    pub fn value(&self) -> (r: u32)
        ensures
            r == self.value_spec(),
    {
        match self {
            FAR_EVENTS::FE_CHANGEVIEWMODE => 0,
            FAR_EVENTS::FE_REDRAW => 1,
            FAR_EVENTS::FE_IDLE => 2,
            FAR_EVENTS::FE_CLOSE => 3,
            FAR_EVENTS::FE_BREAK => 4,
            FAR_EVENTS::FE_COMMAND => 5,
            FAR_EVENTS::FE_GOTFOCUS => 6,
            FAR_EVENTS::FE_KILLFOCUS => 7,
            FAR_EVENTS::FE_CHANGESORTPARAMS => 8,
        }
    }

    /// Reads the event back from its code.
    pub fn from_value(v: u32) -> (r: Option<FAR_EVENTS>)
        ensures
            match r {
                Some(e) => e.value_spec() == v,
                None => forall|e: FAR_EVENTS| (#[trigger] e.value_spec()) != v,
            },
    {
        let r = match v {
            0u32 => Some(FAR_EVENTS::FE_CHANGEVIEWMODE),
            1u32 => Some(FAR_EVENTS::FE_REDRAW),
            2u32 => Some(FAR_EVENTS::FE_IDLE),
            3u32 => Some(FAR_EVENTS::FE_CLOSE),
            4u32 => Some(FAR_EVENTS::FE_BREAK),
            5u32 => Some(FAR_EVENTS::FE_COMMAND),
            6u32 => Some(FAR_EVENTS::FE_GOTFOCUS),
            7u32 => Some(FAR_EVENTS::FE_KILLFOCUS),
            8u32 => Some(FAR_EVENTS::FE_CHANGESORTPARAMS),
            _ => None,
        };
        r
    }
}

/// The kind of a dialog item, as the flat dialog record declares it.
#[allow(non_camel_case_types)]
#[derive(Clone, Copy, PartialEq, Eq, Structural, Debug)]
pub enum FARDIALOGITEMTYPES {
    DI_TEXT,
    DI_VTEXT,
    DI_SINGLEBOX,
    DI_DOUBLEBOX,
    DI_EDIT,
    DI_PSWEDIT,
    DI_FIXEDIT,
    DI_BUTTON,
    DI_CHECKBOX,
    DI_RADIOBUTTON,
    DI_COMBOBOX,
    DI_LISTBOX,
    DI_USERCONTROL,
}

impl FARDIALOGITEMTYPES {
    /// The code the ABI writes for this item kind.
    pub open spec fn value_spec(&self) -> u32 {
        match self {
            FARDIALOGITEMTYPES::DI_TEXT => 0,
            FARDIALOGITEMTYPES::DI_VTEXT => 1,
            FARDIALOGITEMTYPES::DI_SINGLEBOX => 2,
            FARDIALOGITEMTYPES::DI_DOUBLEBOX => 3,
            FARDIALOGITEMTYPES::DI_EDIT => 4,
            FARDIALOGITEMTYPES::DI_PSWEDIT => 5,
            FARDIALOGITEMTYPES::DI_FIXEDIT => 6,
            FARDIALOGITEMTYPES::DI_BUTTON => 7,
            FARDIALOGITEMTYPES::DI_CHECKBOX => 8,
            FARDIALOGITEMTYPES::DI_RADIOBUTTON => 9,
            FARDIALOGITEMTYPES::DI_COMBOBOX => 10,
            FARDIALOGITEMTYPES::DI_LISTBOX => 11,
            FARDIALOGITEMTYPES::DI_USERCONTROL => 255,
        }
    }

    pub fn value(&self) -> (r: u32)
        ensures
            r == self.value_spec(),
    {
        match self {
            FARDIALOGITEMTYPES::DI_TEXT => 0,
            FARDIALOGITEMTYPES::DI_VTEXT => 1,
            FARDIALOGITEMTYPES::DI_SINGLEBOX => 2,
            FARDIALOGITEMTYPES::DI_DOUBLEBOX => 3,
            FARDIALOGITEMTYPES::DI_EDIT => 4,
            FARDIALOGITEMTYPES::DI_PSWEDIT => 5,
            FARDIALOGITEMTYPES::DI_FIXEDIT => 6,
            FARDIALOGITEMTYPES::DI_BUTTON => 7,
            FARDIALOGITEMTYPES::DI_CHECKBOX => 8,
            FARDIALOGITEMTYPES::DI_RADIOBUTTON => 9,
            FARDIALOGITEMTYPES::DI_COMBOBOX => 10,
            FARDIALOGITEMTYPES::DI_LISTBOX => 11,
            FARDIALOGITEMTYPES::DI_USERCONTROL => 255,
        }
    }
}

/// Whether a dialog item's kind takes typed input.
pub open spec fn is_edit_spec(item_type: FARDIALOGITEMTYPES) -> bool {
    match item_type {
        FARDIALOGITEMTYPES::DI_EDIT => true,
        FARDIALOGITEMTYPES::DI_FIXEDIT => true,
        FARDIALOGITEMTYPES::DI_PSWEDIT => true,
        FARDIALOGITEMTYPES::DI_COMBOBOX => true,
        _ => false,
    }
}

/// Whether a dialog item's kind takes typed input, as the ABI's truth value.
pub fn is_edit(item_type: FARDIALOGITEMTYPES) -> (r: isize)
    ensures
        r == if is_edit_spec(item_type) {
            TRUE
        } else {
            FALSE
        },
{
    match item_type {
        FARDIALOGITEMTYPES::DI_EDIT => TRUE,
        FARDIALOGITEMTYPES::DI_FIXEDIT => TRUE,
        FARDIALOGITEMTYPES::DI_PSWEDIT => TRUE,
        FARDIALOGITEMTYPES::DI_COMBOBOX => TRUE,
        _ => FALSE,
    }
}

/// The checked state of a button-like dialog item.
#[allow(non_camel_case_types)]
#[derive(Clone, Copy, PartialEq, Eq, Structural, Debug)]
pub enum FARCHECKEDSTATE {
    BSTATE_UNCHECKED,
    BSTATE_CHECKED,
    BSTATE_3STATE,
    BSTATE_TOGGLE,
}

impl FARCHECKEDSTATE {
    pub open spec fn value_spec(&self) -> u32 {
        match self {
            FARCHECKEDSTATE::BSTATE_UNCHECKED => 0,
            FARCHECKEDSTATE::BSTATE_CHECKED => 1,
            FARCHECKEDSTATE::BSTATE_3STATE => 2,
            FARCHECKEDSTATE::BSTATE_TOGGLE => 3,
        }
    }

    pub fn value(&self) -> (r: u32)
        ensures
            r == self.value_spec(),
    {
        match self {
            FARCHECKEDSTATE::BSTATE_UNCHECKED => 0,
            FARCHECKEDSTATE::BSTATE_CHECKED => 1,
            FARCHECKEDSTATE::BSTATE_3STATE => 2,
            FARCHECKEDSTATE::BSTATE_TOGGLE => 3,
        }
    }
}

/// Which kind of view a panel is.
#[allow(non_camel_case_types)]
#[derive(Clone, Copy, PartialEq, Eq, Structural, Debug)]
pub enum PANELINFOTYPE {
    PTYPE_FILEPANEL,
    PTYPE_TREEPANEL,
    PTYPE_QVIEWPANEL,
    PTYPE_INFOPANEL,
}

impl PANELINFOTYPE {
    pub open spec fn value_spec(&self) -> u32 {
        match self {
            PANELINFOTYPE::PTYPE_FILEPANEL => 0,
            PANELINFOTYPE::PTYPE_TREEPANEL => 1,
            PANELINFOTYPE::PTYPE_QVIEWPANEL => 2,
            PANELINFOTYPE::PTYPE_INFOPANEL => 3,
        }
    }

    pub fn value(&self) -> (r: u32)
        ensures
            r == self.value_spec(),
    {
        match self {
            PANELINFOTYPE::PTYPE_FILEPANEL => 0,
            PANELINFOTYPE::PTYPE_TREEPANEL => 1,
            PANELINFOTYPE::PTYPE_QVIEWPANEL => 2,
            PANELINFOTYPE::PTYPE_INFOPANEL => 3,
        }
    }
}

/// The sort mode a panel starts in or is switched to.
#[allow(non_camel_case_types)]
#[derive(Clone, Copy, PartialEq, Eq, Structural, Debug)]
pub enum OPENPANELINFO_SORTMODES {
    SM_DEFAULT,
    SM_UNSORTED,
    SM_NAME,
    SM_EXT,
    SM_MTIME,
    SM_CTIME,
    SM_ATIME,
    SM_SIZE,
    SM_DESCR,
    SM_OWNER,
    SM_COMPRESSEDSIZE,
    SM_NUMLINKS,
    SM_NUMSTREAMS,
    SM_STREAMSSIZE,
    SM_FULLNAME,
    SM_CHTIME,
    SM_COUNT,
}

impl OPENPANELINFO_SORTMODES {
    pub open spec fn value_spec(&self) -> u32 {
        match self {
            OPENPANELINFO_SORTMODES::SM_DEFAULT => 0,
            OPENPANELINFO_SORTMODES::SM_UNSORTED => 1,
            OPENPANELINFO_SORTMODES::SM_NAME => 2,
            OPENPANELINFO_SORTMODES::SM_EXT => 3,
            OPENPANELINFO_SORTMODES::SM_MTIME => 4,
            OPENPANELINFO_SORTMODES::SM_CTIME => 5,
            OPENPANELINFO_SORTMODES::SM_ATIME => 6,
            OPENPANELINFO_SORTMODES::SM_SIZE => 7,
            OPENPANELINFO_SORTMODES::SM_DESCR => 8,
            OPENPANELINFO_SORTMODES::SM_OWNER => 9,
            OPENPANELINFO_SORTMODES::SM_COMPRESSEDSIZE => 10,
            OPENPANELINFO_SORTMODES::SM_NUMLINKS => 11,
            OPENPANELINFO_SORTMODES::SM_NUMSTREAMS => 12,
            OPENPANELINFO_SORTMODES::SM_STREAMSSIZE => 13,
            OPENPANELINFO_SORTMODES::SM_FULLNAME => 14,
            OPENPANELINFO_SORTMODES::SM_CHTIME => 15,
            OPENPANELINFO_SORTMODES::SM_COUNT => 16,
        }
    }

    pub fn value(&self) -> (r: u32)
        ensures
            r == self.value_spec(),
    {
        match self {
            OPENPANELINFO_SORTMODES::SM_DEFAULT => 0,
            OPENPANELINFO_SORTMODES::SM_UNSORTED => 1,
            OPENPANELINFO_SORTMODES::SM_NAME => 2,
            OPENPANELINFO_SORTMODES::SM_EXT => 3,
            OPENPANELINFO_SORTMODES::SM_MTIME => 4,
            OPENPANELINFO_SORTMODES::SM_CTIME => 5,
            OPENPANELINFO_SORTMODES::SM_ATIME => 6,
            OPENPANELINFO_SORTMODES::SM_SIZE => 7,
            OPENPANELINFO_SORTMODES::SM_DESCR => 8,
            OPENPANELINFO_SORTMODES::SM_OWNER => 9,
            OPENPANELINFO_SORTMODES::SM_COMPRESSEDSIZE => 10,
            OPENPANELINFO_SORTMODES::SM_NUMLINKS => 11,
            OPENPANELINFO_SORTMODES::SM_NUMSTREAMS => 12,
            OPENPANELINFO_SORTMODES::SM_STREAMSSIZE => 13,
            OPENPANELINFO_SORTMODES::SM_FULLNAME => 14,
            OPENPANELINFO_SORTMODES::SM_CHTIME => 15,
            OPENPANELINFO_SORTMODES::SM_COUNT => 16,
        }
    }
}

/// The commands a plugin sends the host about a panel.
#[allow(non_camel_case_types)]
#[derive(Clone, Copy, PartialEq, Eq, Structural, Debug)]
pub enum FILE_CONTROL_COMMANDS {
    FCTL_CLOSEPANEL,
    FCTL_GETPANELINFO,
    FCTL_UPDATEPANEL,
    FCTL_REDRAWPANEL,
    FCTL_GETCMDLINE,
    FCTL_SETCMDLINE,
    FCTL_SETSELECTION,
    FCTL_SETVIEWMODE,
    FCTL_INSERTCMDLINE,
    FCTL_SETUSERSCREEN,
    FCTL_SETPANELDIRECTORY,
    FCTL_SETCMDLINEPOS,
    FCTL_GETCMDLINEPOS,
    FCTL_SETSORTMODE,
    FCTL_SETSORTORDER,
    FCTL_SETCMDLINESELECTION,
    FCTL_GETCMDLINESELECTION,
    FCTL_CHECKPANELSEXIST,
    FCTL_GETUSERSCREEN,
    FCTL_ISACTIVEPANEL,
    FCTL_GETPANELITEM,
    FCTL_GETSELECTEDPANELITEM,
    FCTL_GETCURRENTPANELITEM,
    FCTL_GETPANELDIRECTORY,
    FCTL_GETCOLUMNTYPES,
    FCTL_GETCOLUMNWIDTHS,
    FCTL_BEGINSELECTION,
    FCTL_ENDSELECTION,
    FCTL_CLEARSELECTION,
    FCTL_SETDIRECTORIESFIRST,
    FCTL_GETPANELFORMAT,
    FCTL_GETPANELHOSTFILE,
    FCTL_GETPANELPREFIX,
    FCTL_SETACTIVEPANEL,
}

impl FILE_CONTROL_COMMANDS {
    pub open spec fn value_spec(&self) -> u32 {
        match self {
            FILE_CONTROL_COMMANDS::FCTL_CLOSEPANEL => 0,
            FILE_CONTROL_COMMANDS::FCTL_GETPANELINFO => 1,
            FILE_CONTROL_COMMANDS::FCTL_UPDATEPANEL => 2,
            FILE_CONTROL_COMMANDS::FCTL_REDRAWPANEL => 3,
            FILE_CONTROL_COMMANDS::FCTL_GETCMDLINE => 4,
            FILE_CONTROL_COMMANDS::FCTL_SETCMDLINE => 5,
            FILE_CONTROL_COMMANDS::FCTL_SETSELECTION => 6,
            FILE_CONTROL_COMMANDS::FCTL_SETVIEWMODE => 7,
            FILE_CONTROL_COMMANDS::FCTL_INSERTCMDLINE => 8,
            FILE_CONTROL_COMMANDS::FCTL_SETUSERSCREEN => 9,
            FILE_CONTROL_COMMANDS::FCTL_SETPANELDIRECTORY => 10,
            FILE_CONTROL_COMMANDS::FCTL_SETCMDLINEPOS => 11,
            FILE_CONTROL_COMMANDS::FCTL_GETCMDLINEPOS => 12,
            FILE_CONTROL_COMMANDS::FCTL_SETSORTMODE => 13,
            FILE_CONTROL_COMMANDS::FCTL_SETSORTORDER => 14,
            FILE_CONTROL_COMMANDS::FCTL_SETCMDLINESELECTION => 15,
            FILE_CONTROL_COMMANDS::FCTL_GETCMDLINESELECTION => 16,
            FILE_CONTROL_COMMANDS::FCTL_CHECKPANELSEXIST => 17,
            FILE_CONTROL_COMMANDS::FCTL_GETUSERSCREEN => 19,
            FILE_CONTROL_COMMANDS::FCTL_ISACTIVEPANEL => 20,
            FILE_CONTROL_COMMANDS::FCTL_GETPANELITEM => 21,
            FILE_CONTROL_COMMANDS::FCTL_GETSELECTEDPANELITEM => 22,
            FILE_CONTROL_COMMANDS::FCTL_GETCURRENTPANELITEM => 23,
            FILE_CONTROL_COMMANDS::FCTL_GETPANELDIRECTORY => 24,
            FILE_CONTROL_COMMANDS::FCTL_GETCOLUMNTYPES => 25,
            FILE_CONTROL_COMMANDS::FCTL_GETCOLUMNWIDTHS => 26,
            FILE_CONTROL_COMMANDS::FCTL_BEGINSELECTION => 27,
            FILE_CONTROL_COMMANDS::FCTL_ENDSELECTION => 28,
            FILE_CONTROL_COMMANDS::FCTL_CLEARSELECTION => 29,
            FILE_CONTROL_COMMANDS::FCTL_SETDIRECTORIESFIRST => 30,
            FILE_CONTROL_COMMANDS::FCTL_GETPANELFORMAT => 31,
            FILE_CONTROL_COMMANDS::FCTL_GETPANELHOSTFILE => 32,
            FILE_CONTROL_COMMANDS::FCTL_GETPANELPREFIX => 34,
            FILE_CONTROL_COMMANDS::FCTL_SETACTIVEPANEL => 35,
        }
    }

    pub fn value(&self) -> (r: u32)
        ensures
            r == self.value_spec(),
    {
        match self {
            FILE_CONTROL_COMMANDS::FCTL_CLOSEPANEL => 0,
            FILE_CONTROL_COMMANDS::FCTL_GETPANELINFO => 1,
            FILE_CONTROL_COMMANDS::FCTL_UPDATEPANEL => 2,
            FILE_CONTROL_COMMANDS::FCTL_REDRAWPANEL => 3,
            FILE_CONTROL_COMMANDS::FCTL_GETCMDLINE => 4,
            FILE_CONTROL_COMMANDS::FCTL_SETCMDLINE => 5,
            FILE_CONTROL_COMMANDS::FCTL_SETSELECTION => 6,
            FILE_CONTROL_COMMANDS::FCTL_SETVIEWMODE => 7,
            FILE_CONTROL_COMMANDS::FCTL_INSERTCMDLINE => 8,
            FILE_CONTROL_COMMANDS::FCTL_SETUSERSCREEN => 9,
            FILE_CONTROL_COMMANDS::FCTL_SETPANELDIRECTORY => 10,
            FILE_CONTROL_COMMANDS::FCTL_SETCMDLINEPOS => 11,
            FILE_CONTROL_COMMANDS::FCTL_GETCMDLINEPOS => 12,
            FILE_CONTROL_COMMANDS::FCTL_SETSORTMODE => 13,
            FILE_CONTROL_COMMANDS::FCTL_SETSORTORDER => 14,
            FILE_CONTROL_COMMANDS::FCTL_SETCMDLINESELECTION => 15,
            FILE_CONTROL_COMMANDS::FCTL_GETCMDLINESELECTION => 16,
            FILE_CONTROL_COMMANDS::FCTL_CHECKPANELSEXIST => 17,
            FILE_CONTROL_COMMANDS::FCTL_GETUSERSCREEN => 19,
            FILE_CONTROL_COMMANDS::FCTL_ISACTIVEPANEL => 20,
            FILE_CONTROL_COMMANDS::FCTL_GETPANELITEM => 21,
            FILE_CONTROL_COMMANDS::FCTL_GETSELECTEDPANELITEM => 22,
            FILE_CONTROL_COMMANDS::FCTL_GETCURRENTPANELITEM => 23,
            FILE_CONTROL_COMMANDS::FCTL_GETPANELDIRECTORY => 24,
            FILE_CONTROL_COMMANDS::FCTL_GETCOLUMNTYPES => 25,
            FILE_CONTROL_COMMANDS::FCTL_GETCOLUMNWIDTHS => 26,
            FILE_CONTROL_COMMANDS::FCTL_BEGINSELECTION => 27,
            FILE_CONTROL_COMMANDS::FCTL_ENDSELECTION => 28,
            FILE_CONTROL_COMMANDS::FCTL_CLEARSELECTION => 29,
            FILE_CONTROL_COMMANDS::FCTL_SETDIRECTORIESFIRST => 30,
            FILE_CONTROL_COMMANDS::FCTL_GETPANELFORMAT => 31,
            FILE_CONTROL_COMMANDS::FCTL_GETPANELHOSTFILE => 32,
            FILE_CONTROL_COMMANDS::FCTL_GETPANELPREFIX => 34,
            FILE_CONTROL_COMMANDS::FCTL_SETACTIVEPANEL => 35,
        }
    }
}

/// The commands of the host's file-filter service.
#[allow(non_camel_case_types)]
#[derive(Clone, Copy, PartialEq, Eq, Structural, Debug)]
pub enum FAR_FILE_FILTER_CONTROL_COMMANDS {
    FFCTL_CREATEFILEFILTER,
    FFCTL_FREEFILEFILTER,
    FFCTL_OPENFILTERSMENU,
    FFCTL_STARTINGTOFILTER,
    FFCTL_ISFILEINFILTER,
}

impl FAR_FILE_FILTER_CONTROL_COMMANDS {
    pub open spec fn value_spec(&self) -> u32 {
        match self {
            FAR_FILE_FILTER_CONTROL_COMMANDS::FFCTL_CREATEFILEFILTER => 0,
            FAR_FILE_FILTER_CONTROL_COMMANDS::FFCTL_FREEFILEFILTER => 1,
            FAR_FILE_FILTER_CONTROL_COMMANDS::FFCTL_OPENFILTERSMENU => 2,
            FAR_FILE_FILTER_CONTROL_COMMANDS::FFCTL_STARTINGTOFILTER => 3,
            FAR_FILE_FILTER_CONTROL_COMMANDS::FFCTL_ISFILEINFILTER => 4,
        }
    }

    pub fn value(&self) -> (r: u32)
        ensures
            r == self.value_spec(),
    {
        match self {
            FAR_FILE_FILTER_CONTROL_COMMANDS::FFCTL_CREATEFILEFILTER => 0,
            FAR_FILE_FILTER_CONTROL_COMMANDS::FFCTL_FREEFILEFILTER => 1,
            FAR_FILE_FILTER_CONTROL_COMMANDS::FFCTL_OPENFILTERSMENU => 2,
            FAR_FILE_FILTER_CONTROL_COMMANDS::FFCTL_STARTINGTOFILTER => 3,
            FAR_FILE_FILTER_CONTROL_COMMANDS::FFCTL_ISFILEINFILTER => 4,
        }
    }
}

/// Which of the host's filter sets a file filter works from.
#[allow(non_camel_case_types)]
#[derive(Clone, Copy, PartialEq, Eq, Structural, Debug)]
pub enum FAR_FILE_FILTER_TYPE {
    FFT_PANEL,
    FFT_FINDFILE,
    FFT_COPY,
    FFT_SELECT,
    FFT_CUSTOM,
}

impl FAR_FILE_FILTER_TYPE {
    pub open spec fn value_spec(&self) -> u32 {
        match self {
            FAR_FILE_FILTER_TYPE::FFT_PANEL => 0,
            FAR_FILE_FILTER_TYPE::FFT_FINDFILE => 1,
            FAR_FILE_FILTER_TYPE::FFT_COPY => 2,
            FAR_FILE_FILTER_TYPE::FFT_SELECT => 3,
            FAR_FILE_FILTER_TYPE::FFT_CUSTOM => 4,
        }
    }

    pub fn value(&self) -> (r: u32)
        ensures
            r == self.value_spec(),
    {
        match self {
            FAR_FILE_FILTER_TYPE::FFT_PANEL => 0,
            FAR_FILE_FILTER_TYPE::FFT_FINDFILE => 1,
            FAR_FILE_FILTER_TYPE::FFT_COPY => 2,
            FAR_FILE_FILTER_TYPE::FFT_SELECT => 3,
            FAR_FILE_FILTER_TYPE::FFT_CUSTOM => 4,
        }
    }
}

/// A rectangle on the host's screen.
#[derive(Clone, Copy, PartialEq, Eq, Structural, Debug)]
pub struct RECT {
    pub left: i32,
    pub top: i32,
    pub right: i32,
    pub bottom: i32,
}

/// The record the host fills when asked about a panel's state.
#[derive(Clone, Copy, PartialEq, Eq, Structural, Debug)]
pub struct PanelInfo {
    pub struct_size: usize,
    pub plugin_handle: HANDLE,
    pub owner_guid: GUID,
    pub flags: u64,
    pub items_number: usize,
    pub selected_items_number: usize,
    pub panel_rect: RECT,
    pub current_item: usize,
    pub top_panel_item: usize,
    pub view_mode: isize,
    pub panel_type: PANELINFOTYPE,
    pub sort_mode: OPENPANELINFO_SORTMODES,
}

/// The record the host fills when asked for a panel's directory: the two
/// buffers its pointers lead to, copied out, and the owning plugin.
pub struct FarPanelDirectoryOut {
    pub name: Vec<u16>,
    pub plugin_id: GUID,
    pub file: Vec<u16>,
}

/// How an editor session ended.
#[allow(non_camel_case_types)]
#[derive(Clone, Copy, PartialEq, Eq, Structural, Debug)]
pub enum EDITOR_EXITCODE {
    EEC_OPEN_ERROR,
    EEC_MODIFIED,
    EEC_NOT_MODIFIED,
    EEC_LOADING_INTERRUPTED,
}

impl EDITOR_EXITCODE {
    /// The code the ABI writes for this value.
    pub open spec fn value_spec(&self) -> u32 {
        match self {
            EDITOR_EXITCODE::EEC_OPEN_ERROR => 0,
            EDITOR_EXITCODE::EEC_MODIFIED => 1,
            EDITOR_EXITCODE::EEC_NOT_MODIFIED => 2,
            EDITOR_EXITCODE::EEC_LOADING_INTERRUPTED => 3,
        }
    }

    pub fn value(&self) -> (r: u32)
        ensures
            r == self.value_spec(),
    {
        match self {
            EDITOR_EXITCODE::EEC_OPEN_ERROR => 0,
            EDITOR_EXITCODE::EEC_MODIFIED => 1,
            EDITOR_EXITCODE::EEC_NOT_MODIFIED => 2,
            EDITOR_EXITCODE::EEC_LOADING_INTERRUPTED => 3,
        }
    }
}

/// The progress state shown on the task bar.
#[allow(non_camel_case_types)]
#[derive(Clone, Copy, PartialEq, Eq, Structural, Debug)]
pub enum TASKBARPROGRESSTATE {
    TBPS_NOPROGRESS,
    TBPS_INDETERMINATE,
    TBPS_NORMAL,
    TBPS_ERROR,
    TBPS_PAUSED,
}

impl TASKBARPROGRESSTATE {
    /// The code the ABI writes for this value.
    pub open spec fn value_spec(&self) -> u32 {
        match self {
            TASKBARPROGRESSTATE::TBPS_NOPROGRESS => 0,
            TASKBARPROGRESSTATE::TBPS_INDETERMINATE => 1,
            TASKBARPROGRESSTATE::TBPS_NORMAL => 2,
            TASKBARPROGRESSTATE::TBPS_ERROR => 4,
            TASKBARPROGRESSTATE::TBPS_PAUSED => 8,
        }
    }

    pub fn value(&self) -> (r: u32)
        ensures
            r == self.value_spec(),
    {
        match self {
            TASKBARPROGRESSTATE::TBPS_NOPROGRESS => 0,
            TASKBARPROGRESSTATE::TBPS_INDETERMINATE => 1,
            TASKBARPROGRESSTATE::TBPS_NORMAL => 2,
            TASKBARPROGRESSTATE::TBPS_ERROR => 4,
            TASKBARPROGRESSTATE::TBPS_PAUSED => 8,
        }
    }
}

/// The display mode of the viewer.
#[allow(non_camel_case_types)]
#[derive(Clone, Copy, PartialEq, Eq, Structural, Debug)]
pub enum VIEWER_MODE_TYPE {
    VMT_TEXT,
    VMT_HEX,
    VMT_DUMP,
}

impl VIEWER_MODE_TYPE {
    /// The code the ABI writes for this value.
    pub open spec fn value_spec(&self) -> u32 {
        match self {
            VIEWER_MODE_TYPE::VMT_TEXT => 0,
            VIEWER_MODE_TYPE::VMT_HEX => 1,
            VIEWER_MODE_TYPE::VMT_DUMP => 2,
        }
    }

    pub fn value(&self) -> (r: u32)
        ensures
            r == self.value_spec(),
    {
        match self {
            VIEWER_MODE_TYPE::VMT_TEXT => 0,
            VIEWER_MODE_TYPE::VMT_HEX => 1,
            VIEWER_MODE_TYPE::VMT_DUMP => 2,
        }
    }
}

/// Which viewer setting a mode change addresses.
#[allow(non_camel_case_types)]
#[derive(Clone, Copy, PartialEq, Eq, Structural, Debug)]
pub enum VIEWER_SETMODE_TYPES {
    VSMT_VIEWMODE,
    VSMT_WRAP,
    VSMT_WORDWRAP,
}

impl VIEWER_SETMODE_TYPES {
    /// The code the ABI writes for this value.
    pub open spec fn value_spec(&self) -> u32 {
        match self {
            VIEWER_SETMODE_TYPES::VSMT_VIEWMODE => 0,
            VIEWER_SETMODE_TYPES::VSMT_WRAP => 1,
            VIEWER_SETMODE_TYPES::VSMT_WORDWRAP => 2,
        }
    }

    pub fn value(&self) -> (r: u32)
        ensures
            r == self.value_spec(),
    {
        match self {
            VIEWER_SETMODE_TYPES::VSMT_VIEWMODE => 0,
            VIEWER_SETMODE_TYPES::VSMT_WRAP => 1,
            VIEWER_SETMODE_TYPES::VSMT_WORDWRAP => 2,
        }
    }
}

/// The events the host reports about a viewer.
#[allow(non_camel_case_types)]
#[derive(Clone, Copy, PartialEq, Eq, Structural, Debug)]
pub enum VIEWER_EVENTS {
    VE_READ,
    VE_CLOSE,
    VE_GOTFOCUS,
    VE_KILLFOCUS,
}

impl VIEWER_EVENTS {
    /// The code the ABI writes for this value.
    pub open spec fn value_spec(&self) -> u32 {
        match self {
            VIEWER_EVENTS::VE_READ => 0,
            VIEWER_EVENTS::VE_CLOSE => 1,
            VIEWER_EVENTS::VE_GOTFOCUS => 6,
            VIEWER_EVENTS::VE_KILLFOCUS => 7,
        }
    }

    pub fn value(&self) -> (r: u32)
        ensures
            r == self.value_spec(),
    {
        match self {
            VIEWER_EVENTS::VE_READ => 0,
            VIEWER_EVENTS::VE_CLOSE => 1,
            VIEWER_EVENTS::VE_GOTFOCUS => 6,
            VIEWER_EVENTS::VE_KILLFOCUS => 7,
        }
    }
}

/// The events the host reports about an editor.
#[allow(non_camel_case_types)]
#[derive(Clone, Copy, PartialEq, Eq, Structural, Debug)]
pub enum EDITOR_EVENTS {
    EE_READ,
    EE_SAVE,
    EE_REDRAW,
    EE_CLOSE,
    EE_GOTFOCUS,
    EE_KILLFOCUS,
    EE_CHANGE,
}

impl EDITOR_EVENTS {
    /// The code the ABI writes for this value.
    pub open spec fn value_spec(&self) -> u32 {
        match self {
            EDITOR_EVENTS::EE_READ => 0,
            EDITOR_EVENTS::EE_SAVE => 1,
            EDITOR_EVENTS::EE_REDRAW => 2,
            EDITOR_EVENTS::EE_CLOSE => 3,
            EDITOR_EVENTS::EE_GOTFOCUS => 6,
            EDITOR_EVENTS::EE_KILLFOCUS => 7,
            EDITOR_EVENTS::EE_CHANGE => 8,
        }
    }

    pub fn value(&self) -> (r: u32)
        ensures
            r == self.value_spec(),
    {
        match self {
            EDITOR_EVENTS::EE_READ => 0,
            EDITOR_EVENTS::EE_SAVE => 1,
            EDITOR_EVENTS::EE_REDRAW => 2,
            EDITOR_EVENTS::EE_CLOSE => 3,
            EDITOR_EVENTS::EE_GOTFOCUS => 6,
            EDITOR_EVENTS::EE_KILLFOCUS => 7,
            EDITOR_EVENTS::EE_CHANGE => 8,
        }
    }
}

/// The events the host reports about a dialog.
#[allow(non_camel_case_types)]
#[derive(Clone, Copy, PartialEq, Eq, Structural, Debug)]
pub enum DIALOG_EVENTS {
    DE_DLGPROCINIT,
    DE_DEFDLGPROCINIT,
    DE_DLGPROCEND,
}

impl DIALOG_EVENTS {
    /// The code the ABI writes for this value.
    pub open spec fn value_spec(&self) -> u32 {
        match self {
            DIALOG_EVENTS::DE_DLGPROCINIT => 0,
            DIALOG_EVENTS::DE_DEFDLGPROCINIT => 1,
            DIALOG_EVENTS::DE_DLGPROCEND => 2,
        }
    }

    pub fn value(&self) -> (r: u32)
        ensures
            r == self.value_spec(),
    {
        match self {
            DIALOG_EVENTS::DE_DLGPROCINIT => 0,
            DIALOG_EVENTS::DE_DEFDLGPROCINIT => 1,
            DIALOG_EVENTS::DE_DLGPROCEND => 2,
        }
    }
}

/// The synchronisation event the host delivers on request.
#[allow(non_camel_case_types)]
#[derive(Clone, Copy, PartialEq, Eq, Structural, Debug)]
pub enum SYNCHRO_EVENTS {
    SE_COMMONSYNCHRO,
}

impl SYNCHRO_EVENTS {
    /// The code the ABI writes for this value.
    pub open spec fn value_spec(&self) -> u32 {
        match self {
            SYNCHRO_EVENTS::SE_COMMONSYNCHRO => 0,
        }
    }

    pub fn value(&self) -> (r: u32)
        ensures
            r == self.value_spec(),
    {
        match self {
            SYNCHRO_EVENTS::SE_COMMONSYNCHRO => 0,
        }
    }
}

/// How the editor expands tabulation.
#[allow(non_camel_case_types)]
#[derive(Clone, Copy, PartialEq, Eq, Structural, Debug)]
pub enum EXPAND_TABS {
    EXPAND_NOTABS,
    EXPAND_ALLTABS,
    EXPAND_NEWTABS,
}

impl EXPAND_TABS {
    /// The code the ABI writes for this value.
    pub open spec fn value_spec(&self) -> u32 {
        match self {
            EXPAND_TABS::EXPAND_NOTABS => 0,
            EXPAND_TABS::EXPAND_ALLTABS => 1,
            EXPAND_TABS::EXPAND_NEWTABS => 2,
        }
    }

    pub fn value(&self) -> (r: u32)
        ensures
            r == self.value_spec(),
    {
        match self {
            EXPAND_TABS::EXPAND_NOTABS => 0,
            EXPAND_TABS::EXPAND_ALLTABS => 1,
            EXPAND_TABS::EXPAND_NEWTABS => 2,
        }
    }
}

/// The kind of block selected in the editor.
#[allow(non_camel_case_types)]
#[derive(Clone, Copy, PartialEq, Eq, Structural, Debug)]
pub enum EDITOR_BLOCK_TYPES {
    BTYPE_NONE,
    BTYPE_STREAM,
    BTYPE_COLUMN,
}

impl EDITOR_BLOCK_TYPES {
    /// The code the ABI writes for this value.
    pub open spec fn value_spec(&self) -> u32 {
        match self {
            EDITOR_BLOCK_TYPES::BTYPE_NONE => 0,
            EDITOR_BLOCK_TYPES::BTYPE_STREAM => 1,
            EDITOR_BLOCK_TYPES::BTYPE_COLUMN => 2,
        }
    }

    pub fn value(&self) -> (r: u32)
        ensures
            r == self.value_spec(),
    {
        match self {
            EDITOR_BLOCK_TYPES::BTYPE_NONE => 0,
            EDITOR_BLOCK_TYPES::BTYPE_STREAM => 1,
            EDITOR_BLOCK_TYPES::BTYPE_COLUMN => 2,
        }
    }
}

/// The saved/modified state of the editor.
#[allow(non_camel_case_types)]
#[derive(Clone, Copy, PartialEq, Eq, Structural, Debug)]
pub enum EDITOR_CURRENTSTATE {
    ECSTATE_MODIFIED,
    ECSTATE_SAVED,
    ECSTATE_LOCKED,
}

impl EDITOR_CURRENTSTATE {
    /// The code the ABI writes for this value.
    pub open spec fn value_spec(&self) -> u32 {
        match self {
            EDITOR_CURRENTSTATE::ECSTATE_MODIFIED => 1,
            EDITOR_CURRENTSTATE::ECSTATE_SAVED => 2,
            EDITOR_CURRENTSTATE::ECSTATE_LOCKED => 4,
        }
    }

    pub fn value(&self) -> (r: u32)
        ensures
            r == self.value_spec(),
    {
        match self {
            EDITOR_CURRENTSTATE::ECSTATE_MODIFIED => 1,
            EDITOR_CURRENTSTATE::ECSTATE_SAVED => 2,
            EDITOR_CURRENTSTATE::ECSTATE_LOCKED => 4,
        }
    }
}

/// What kind of change an editor change notification reports.
#[allow(non_camel_case_types)]
#[derive(Clone, Copy, PartialEq, Eq, Structural, Debug)]
pub enum EDITOR_CHANGETYPE {
    ECTYPE_CHANGED,
    ECTYPE_ADDED,
    ECTYPE_DELETED,
}

impl EDITOR_CHANGETYPE {
    /// The code the ABI writes for this value.
    pub open spec fn value_spec(&self) -> u32 {
        match self {
            EDITOR_CHANGETYPE::ECTYPE_CHANGED => 0,
            EDITOR_CHANGETYPE::ECTYPE_ADDED => 1,
            EDITOR_CHANGETYPE::ECTYPE_DELETED => 2,
        }
    }

    pub fn value(&self) -> (r: u32)
        ensures
            r == self.value_spec(),
    {
        match self {
            EDITOR_CHANGETYPE::ECTYPE_CHANGED => 0,
            EDITOR_CHANGETYPE::ECTYPE_ADDED => 1,
            EDITOR_CHANGETYPE::ECTYPE_DELETED => 2,
        }
    }
}

/// The clipboard flavour a clipboard call addresses.
#[allow(non_camel_case_types)]
#[derive(Clone, Copy, PartialEq, Eq, Structural, Debug)]
pub enum FARCLIPBOARD_TYPE {
    FCT_ANY,
    FCT_STREAM,
    FCT_COLUMN,
}

impl FARCLIPBOARD_TYPE {
    /// The code the ABI writes for this value.
    pub open spec fn value_spec(&self) -> u32 {
        match self {
            FARCLIPBOARD_TYPE::FCT_ANY => 0,
            FARCLIPBOARD_TYPE::FCT_STREAM => 1,
            FARCLIPBOARD_TYPE::FCT_COLUMN => 2,
        }
    }

    pub fn value(&self) -> (r: u32)
        ensures
            r == self.value_spec(),
    {
        match self {
            FARCLIPBOARD_TYPE::FCT_ANY => 0,
            FARCLIPBOARD_TYPE::FCT_STREAM => 1,
            FARCLIPBOARD_TYPE::FCT_COLUMN => 2,
        }
    }
}

/// The kind of a file-system link.
#[allow(non_camel_case_types)]
#[derive(Clone, Copy, PartialEq, Eq, Structural, Debug)]
pub enum LINK_TYPE {
    LINK_HARDLINK,
    LINK_JUNCTION,
    LINK_VOLMOUNT,
    LINK_SYMLINKFILE,
    LINK_SYMLINKDIR,
    LINK_SYMLINK,
}

impl LINK_TYPE {
    /// The code the ABI writes for this value.
    pub open spec fn value_spec(&self) -> u32 {
        match self {
            LINK_TYPE::LINK_HARDLINK => 1,
            LINK_TYPE::LINK_JUNCTION => 2,
            LINK_TYPE::LINK_VOLMOUNT => 3,
            LINK_TYPE::LINK_SYMLINKFILE => 4,
            LINK_TYPE::LINK_SYMLINKDIR => 5,
            LINK_TYPE::LINK_SYMLINK => 6,
        }
    }

    pub fn value(&self) -> (r: u32)
        ensures
            r == self.value_spec(),
    {
        match self {
            LINK_TYPE::LINK_HARDLINK => 1,
            LINK_TYPE::LINK_JUNCTION => 2,
            LINK_TYPE::LINK_VOLMOUNT => 3,
            LINK_TYPE::LINK_SYMLINKFILE => 4,
            LINK_TYPE::LINK_SYMLINKDIR => 5,
            LINK_TYPE::LINK_SYMLINK => 6,
        }
    }
}

/// How a path is normalised by the host.
#[allow(non_camel_case_types)]
#[derive(Clone, Copy, PartialEq, Eq, Structural, Debug)]
pub enum CONVERTPATHMODES {
    CPM_FULL,
    CPM_REAL,
    CPM_NATIVE,
}

impl CONVERTPATHMODES {
    /// The code the ABI writes for this value.
    pub open spec fn value_spec(&self) -> u32 {
        match self {
            CONVERTPATHMODES::CPM_FULL => 0,
            CONVERTPATHMODES::CPM_REAL => 1,
            CONVERTPATHMODES::CPM_NATIVE => 2,
        }
    }

    pub fn value(&self) -> (r: u32)
        ensures
            r == self.value_spec(),
    {
        match self {
            CONVERTPATHMODES::CPM_FULL => 0,
            CONVERTPATHMODES::CPM_REAL => 1,
            CONVERTPATHMODES::CPM_NATIVE => 2,
        }
    }
}

/// What a combo-box event was triggered by.
#[allow(non_camel_case_types)]
#[derive(Clone, Copy, PartialEq, Eq, Structural, Debug)]
pub enum FARCOMBOBOXEVENTTYPE {
    CBET_KEY,
    CBET_MOUSE,
}

impl FARCOMBOBOXEVENTTYPE {
    /// The code the ABI writes for this value.
    pub open spec fn value_spec(&self) -> u32 {
        match self {
            FARCOMBOBOXEVENTTYPE::CBET_KEY => 1,
            FARCOMBOBOXEVENTTYPE::CBET_MOUSE => 2,
        }
    }

    pub fn value(&self) -> (r: u32)
        ensures
            r == self.value_spec(),
    {
        match self {
            FARCOMBOBOXEVENTTYPE::CBET_KEY => 1,
            FARCOMBOBOXEVENTTYPE::CBET_MOUSE => 2,
        }
    }
}

/// The state of the host's macro engine.
#[allow(non_camel_case_types)]
#[derive(Clone, Copy, PartialEq, Eq, Structural, Debug)]
pub enum FARMACROSTATE {
    MACROSTATE_NOMACRO,
    MACROSTATE_EXECUTING,
    MACROSTATE_EXECUTING_COMMON,
    MACROSTATE_RECORDING,
    MACROSTATE_RECORDING_COMMON,
}

impl FARMACROSTATE {
    /// The code the ABI writes for this value.
    pub open spec fn value_spec(&self) -> u32 {
        match self {
            FARMACROSTATE::MACROSTATE_NOMACRO => 0,
            FARMACROSTATE::MACROSTATE_EXECUTING => 1,
            FARMACROSTATE::MACROSTATE_EXECUTING_COMMON => 2,
            FARMACROSTATE::MACROSTATE_RECORDING => 3,
            FARMACROSTATE::MACROSTATE_RECORDING_COMMON => 4,
        }
    }

    pub fn value(&self) -> (r: u32)
        ensures
            r == self.value_spec(),
    {
        match self {
            FARMACROSTATE::MACROSTATE_NOMACRO => 0,
            FARMACROSTATE::MACROSTATE_EXECUTING => 1,
            FARMACROSTATE::MACROSTATE_EXECUTING_COMMON => 2,
            FARMACROSTATE::MACROSTATE_RECORDING => 3,
            FARMACROSTATE::MACROSTATE_RECORDING_COMMON => 4,
        }
    }
}

/// The dialog message codes the host and the plugin exchange.
#[allow(non_camel_case_types)]
#[derive(Clone, Copy, PartialEq, Eq, Structural, Debug)]
pub enum FARMESSAGE {
    DM_FIRST,
    DM_CLOSE,
    DM_ENABLE,
    DM_ENABLEREDRAW,
    DM_GETDLGDATA,
    DM_GETDLGITEM,
    DM_GETDLGRECT,
    DM_GETTEXT,
    DM_KEY,
    DM_MOVEDIALOG,
    DM_SETDLGDATA,
    DM_SETDLGITEM,
    DM_SETFOCUS,
    DM_REDRAW,
    DM_SETTEXT,
    DM_SETMAXTEXTLENGTH,
    DM_SHOWDIALOG,
    DM_GETFOCUS,
    DM_GETCURSORPOS,
    DM_SETCURSORPOS,
    DM_SETTEXTPTR,
    DM_SHOWITEM,
    DM_ADDHISTORY,
    DM_GETCHECK,
    DM_SETCHECK,
    DM_SET3STATE,
    DM_LISTSORT,
    DM_LISTGETITEM,
    DM_LISTGETCURPOS,
    DM_LISTSETCURPOS,
    DM_LISTDELETE,
    DM_LISTADD,
    DM_LISTADDSTR,
    DM_LISTUPDATE,
    DM_LISTINSERT,
    DM_LISTFINDSTRING,
    DM_LISTINFO,
    DM_LISTGETDATA,
    DM_LISTSETDATA,
    DM_LISTSETTITLES,
    DM_LISTGETTITLES,
    DM_RESIZEDIALOG,
    DM_SETITEMPOSITION,
    DM_GETDROPDOWNOPENED,
    DM_SETDROPDOWNOPENED,
    DM_SETHISTORY,
    DM_GETITEMPOSITION,
    DM_SETINPUTNOTIFY,
    DM_EDITUNCHANGEDFLAG,
    DM_GETITEMDATA,
    DM_SETITEMDATA,
    DM_LISTSET,
    DM_GETCURSORSIZE,
    DM_SETCURSORSIZE,
    DM_LISTGETDATASIZE,
    DM_GETSELECTION,
    DM_SETSELECTION,
    DM_GETEDITPOSITION,
    DM_SETEDITPOSITION,
    DM_SETCOMBOBOXEVENT,
    DM_GETCOMBOBOXEVENT,
    DM_GETCONSTTEXTPTR,
    DM_GETDLGITEMSHORT,
    DM_SETDLGITEMSHORT,
    DM_GETDIALOGINFO,
    DM_GETDIALOGTITLE,
    DN_FIRST,
    DN_BTNCLICK,
    DN_CTLCOLORDIALOG,
    DN_CTLCOLORDLGITEM,
    DN_CTLCOLORDLGLIST,
    DN_DRAWDIALOG,
    DN_DRAWDLGITEM,
    DN_EDITCHANGE,
    DN_ENTERIDLE,
    DN_GOTFOCUS,
    DN_HELP,
    DN_HOTKEY,
    DN_INITDIALOG,
    DN_KILLFOCUS,
    DN_LISTCHANGE,
    DN_DRAGGED,
    DN_RESIZECONSOLE,
    DN_DRAWDIALOGDONE,
    DN_LISTHOTKEY,
    DN_INPUT,
    DN_CONTROLINPUT,
    DN_CLOSE,
    DN_GETVALUE,
    DN_DROPDOWNOPENED,
    DN_DRAWDLGITEMDONE,
    DM_USER,
}

impl FARMESSAGE {
    /// The code the ABI writes for this message.
    pub open spec fn value_spec(&self) -> u32 {
        match self {
            FARMESSAGE::DM_FIRST => 0,
            FARMESSAGE::DM_CLOSE => 1,
            FARMESSAGE::DM_ENABLE => 2,
            FARMESSAGE::DM_ENABLEREDRAW => 3,
            FARMESSAGE::DM_GETDLGDATA => 4,
            FARMESSAGE::DM_GETDLGITEM => 5,
            FARMESSAGE::DM_GETDLGRECT => 6,
            FARMESSAGE::DM_GETTEXT => 7,
            FARMESSAGE::DM_KEY => 9,
            FARMESSAGE::DM_MOVEDIALOG => 10,
            FARMESSAGE::DM_SETDLGDATA => 11,
            FARMESSAGE::DM_SETDLGITEM => 12,
            FARMESSAGE::DM_SETFOCUS => 13,
            FARMESSAGE::DM_REDRAW => 14,
            FARMESSAGE::DM_SETTEXT => 15,
            FARMESSAGE::DM_SETMAXTEXTLENGTH => 16,
            FARMESSAGE::DM_SHOWDIALOG => 17,
            FARMESSAGE::DM_GETFOCUS => 18,
            FARMESSAGE::DM_GETCURSORPOS => 19,
            FARMESSAGE::DM_SETCURSORPOS => 20,
            FARMESSAGE::DM_SETTEXTPTR => 22,
            FARMESSAGE::DM_SHOWITEM => 23,
            FARMESSAGE::DM_ADDHISTORY => 24,
            FARMESSAGE::DM_GETCHECK => 25,
            FARMESSAGE::DM_SETCHECK => 26,
            FARMESSAGE::DM_SET3STATE => 27,
            FARMESSAGE::DM_LISTSORT => 28,
            FARMESSAGE::DM_LISTGETITEM => 29,
            FARMESSAGE::DM_LISTGETCURPOS => 30,
            FARMESSAGE::DM_LISTSETCURPOS => 31,
            FARMESSAGE::DM_LISTDELETE => 32,
            FARMESSAGE::DM_LISTADD => 33,
            FARMESSAGE::DM_LISTADDSTR => 34,
            FARMESSAGE::DM_LISTUPDATE => 35,
            FARMESSAGE::DM_LISTINSERT => 36,
            FARMESSAGE::DM_LISTFINDSTRING => 37,
            FARMESSAGE::DM_LISTINFO => 38,
            FARMESSAGE::DM_LISTGETDATA => 39,
            FARMESSAGE::DM_LISTSETDATA => 40,
            FARMESSAGE::DM_LISTSETTITLES => 41,
            FARMESSAGE::DM_LISTGETTITLES => 42,
            FARMESSAGE::DM_RESIZEDIALOG => 43,
            FARMESSAGE::DM_SETITEMPOSITION => 44,
            FARMESSAGE::DM_GETDROPDOWNOPENED => 45,
            FARMESSAGE::DM_SETDROPDOWNOPENED => 46,
            FARMESSAGE::DM_SETHISTORY => 47,
            FARMESSAGE::DM_GETITEMPOSITION => 48,
            FARMESSAGE::DM_SETINPUTNOTIFY => 49,
            FARMESSAGE::DM_EDITUNCHANGEDFLAG => 50,
            FARMESSAGE::DM_GETITEMDATA => 51,
            FARMESSAGE::DM_SETITEMDATA => 52,
            FARMESSAGE::DM_LISTSET => 53,
            FARMESSAGE::DM_GETCURSORSIZE => 54,
            FARMESSAGE::DM_SETCURSORSIZE => 55,
            FARMESSAGE::DM_LISTGETDATASIZE => 56,
            FARMESSAGE::DM_GETSELECTION => 57,
            FARMESSAGE::DM_SETSELECTION => 58,
            FARMESSAGE::DM_GETEDITPOSITION => 59,
            FARMESSAGE::DM_SETEDITPOSITION => 60,
            FARMESSAGE::DM_SETCOMBOBOXEVENT => 61,
            FARMESSAGE::DM_GETCOMBOBOXEVENT => 62,
            FARMESSAGE::DM_GETCONSTTEXTPTR => 63,
            FARMESSAGE::DM_GETDLGITEMSHORT => 64,
            FARMESSAGE::DM_SETDLGITEMSHORT => 65,
            FARMESSAGE::DM_GETDIALOGINFO => 66,
            FARMESSAGE::DM_GETDIALOGTITLE => 67,
            FARMESSAGE::DN_FIRST => 4096,
            FARMESSAGE::DN_BTNCLICK => 4097,
            FARMESSAGE::DN_CTLCOLORDIALOG => 4098,
            FARMESSAGE::DN_CTLCOLORDLGITEM => 4099,
            FARMESSAGE::DN_CTLCOLORDLGLIST => 4100,
            FARMESSAGE::DN_DRAWDIALOG => 4101,
            FARMESSAGE::DN_DRAWDLGITEM => 4102,
            FARMESSAGE::DN_EDITCHANGE => 4103,
            FARMESSAGE::DN_ENTERIDLE => 4104,
            FARMESSAGE::DN_GOTFOCUS => 4105,
            FARMESSAGE::DN_HELP => 4106,
            FARMESSAGE::DN_HOTKEY => 4107,
            FARMESSAGE::DN_INITDIALOG => 4108,
            FARMESSAGE::DN_KILLFOCUS => 4109,
            FARMESSAGE::DN_LISTCHANGE => 4110,
            FARMESSAGE::DN_DRAGGED => 4111,
            FARMESSAGE::DN_RESIZECONSOLE => 4112,
            FARMESSAGE::DN_DRAWDIALOGDONE => 4113,
            FARMESSAGE::DN_LISTHOTKEY => 4114,
            FARMESSAGE::DN_INPUT => 4115,
            FARMESSAGE::DN_CONTROLINPUT => 4116,
            FARMESSAGE::DN_CLOSE => 4117,
            FARMESSAGE::DN_GETVALUE => 4118,
            FARMESSAGE::DN_DROPDOWNOPENED => 4119,
            FARMESSAGE::DN_DRAWDLGITEMDONE => 4120,
            FARMESSAGE::DM_USER => 16384,
        }
    }

    pub fn value(&self) -> (r: u32)
        ensures
            r == self.value_spec(),
    {
        match self {
            FARMESSAGE::DM_FIRST => 0,
            FARMESSAGE::DM_CLOSE => 1,
            FARMESSAGE::DM_ENABLE => 2,
            FARMESSAGE::DM_ENABLEREDRAW => 3,
            FARMESSAGE::DM_GETDLGDATA => 4,
            FARMESSAGE::DM_GETDLGITEM => 5,
            FARMESSAGE::DM_GETDLGRECT => 6,
            FARMESSAGE::DM_GETTEXT => 7,
            FARMESSAGE::DM_KEY => 9,
            FARMESSAGE::DM_MOVEDIALOG => 10,
            FARMESSAGE::DM_SETDLGDATA => 11,
            FARMESSAGE::DM_SETDLGITEM => 12,
            FARMESSAGE::DM_SETFOCUS => 13,
            FARMESSAGE::DM_REDRAW => 14,
            FARMESSAGE::DM_SETTEXT => 15,
            FARMESSAGE::DM_SETMAXTEXTLENGTH => 16,
            FARMESSAGE::DM_SHOWDIALOG => 17,
            FARMESSAGE::DM_GETFOCUS => 18,
            FARMESSAGE::DM_GETCURSORPOS => 19,
            FARMESSAGE::DM_SETCURSORPOS => 20,
            FARMESSAGE::DM_SETTEXTPTR => 22,
            FARMESSAGE::DM_SHOWITEM => 23,
            FARMESSAGE::DM_ADDHISTORY => 24,
            FARMESSAGE::DM_GETCHECK => 25,
            FARMESSAGE::DM_SETCHECK => 26,
            FARMESSAGE::DM_SET3STATE => 27,
            FARMESSAGE::DM_LISTSORT => 28,
            FARMESSAGE::DM_LISTGETITEM => 29,
            FARMESSAGE::DM_LISTGETCURPOS => 30,
            FARMESSAGE::DM_LISTSETCURPOS => 31,
            FARMESSAGE::DM_LISTDELETE => 32,
            FARMESSAGE::DM_LISTADD => 33,
            FARMESSAGE::DM_LISTADDSTR => 34,
            FARMESSAGE::DM_LISTUPDATE => 35,
            FARMESSAGE::DM_LISTINSERT => 36,
            FARMESSAGE::DM_LISTFINDSTRING => 37,
            FARMESSAGE::DM_LISTINFO => 38,
            FARMESSAGE::DM_LISTGETDATA => 39,
            FARMESSAGE::DM_LISTSETDATA => 40,
            FARMESSAGE::DM_LISTSETTITLES => 41,
            FARMESSAGE::DM_LISTGETTITLES => 42,
            FARMESSAGE::DM_RESIZEDIALOG => 43,
            FARMESSAGE::DM_SETITEMPOSITION => 44,
            FARMESSAGE::DM_GETDROPDOWNOPENED => 45,
            FARMESSAGE::DM_SETDROPDOWNOPENED => 46,
            FARMESSAGE::DM_SETHISTORY => 47,
            FARMESSAGE::DM_GETITEMPOSITION => 48,
            FARMESSAGE::DM_SETINPUTNOTIFY => 49,
            FARMESSAGE::DM_EDITUNCHANGEDFLAG => 50,
            FARMESSAGE::DM_GETITEMDATA => 51,
            FARMESSAGE::DM_SETITEMDATA => 52,
            FARMESSAGE::DM_LISTSET => 53,
            FARMESSAGE::DM_GETCURSORSIZE => 54,
            FARMESSAGE::DM_SETCURSORSIZE => 55,
            FARMESSAGE::DM_LISTGETDATASIZE => 56,
            FARMESSAGE::DM_GETSELECTION => 57,
            FARMESSAGE::DM_SETSELECTION => 58,
            FARMESSAGE::DM_GETEDITPOSITION => 59,
            FARMESSAGE::DM_SETEDITPOSITION => 60,
            FARMESSAGE::DM_SETCOMBOBOXEVENT => 61,
            FARMESSAGE::DM_GETCOMBOBOXEVENT => 62,
            FARMESSAGE::DM_GETCONSTTEXTPTR => 63,
            FARMESSAGE::DM_GETDLGITEMSHORT => 64,
            FARMESSAGE::DM_SETDLGITEMSHORT => 65,
            FARMESSAGE::DM_GETDIALOGINFO => 66,
            FARMESSAGE::DM_GETDIALOGTITLE => 67,
            FARMESSAGE::DN_FIRST => 4096,
            FARMESSAGE::DN_BTNCLICK => 4097,
            FARMESSAGE::DN_CTLCOLORDIALOG => 4098,
            FARMESSAGE::DN_CTLCOLORDLGITEM => 4099,
            FARMESSAGE::DN_CTLCOLORDLGLIST => 4100,
            FARMESSAGE::DN_DRAWDIALOG => 4101,
            FARMESSAGE::DN_DRAWDLGITEM => 4102,
            FARMESSAGE::DN_EDITCHANGE => 4103,
            FARMESSAGE::DN_ENTERIDLE => 4104,
            FARMESSAGE::DN_GOTFOCUS => 4105,
            FARMESSAGE::DN_HELP => 4106,
            FARMESSAGE::DN_HOTKEY => 4107,
            FARMESSAGE::DN_INITDIALOG => 4108,
            FARMESSAGE::DN_KILLFOCUS => 4109,
            FARMESSAGE::DN_LISTCHANGE => 4110,
            FARMESSAGE::DN_DRAGGED => 4111,
            FARMESSAGE::DN_RESIZECONSOLE => 4112,
            FARMESSAGE::DN_DRAWDIALOGDONE => 4113,
            FARMESSAGE::DN_LISTHOTKEY => 4114,
            FARMESSAGE::DN_INPUT => 4115,
            FARMESSAGE::DN_CONTROLINPUT => 4116,
            FARMESSAGE::DN_CLOSE => 4117,
            FARMESSAGE::DN_GETVALUE => 4118,
            FARMESSAGE::DN_DROPDOWNOPENED => 4119,
            FARMESSAGE::DN_DRAWDLGITEMDONE => 4120,
            FARMESSAGE::DM_USER => 16384,
        }
    }
}

/// The commands of the host general-services table.
#[allow(non_camel_case_types)]
#[derive(Clone, Copy, PartialEq, Eq, Structural, Debug)]
pub enum ADVANCED_CONTROL_COMMANDS {
    ACTL_GETFARMANAGERVERSION,
    ACTL_WAITKEY,
    ACTL_GETCOLOR,
    ACTL_GETARRAYCOLOR,
    ACTL_GETWINDOWINFO,
    ACTL_GETWINDOWCOUNT,
    ACTL_SETCURRENTWINDOW,
    ACTL_COMMIT,
    ACTL_GETFARHWND,
    ACTL_SETARRAYCOLOR,
    ACTL_REDRAWALL,
    ACTL_SYNCHRO,
    ACTL_SETPROGRESSSTATE,
    ACTL_SETPROGRESSVALUE,
    ACTL_QUIT,
    ACTL_GETFARRECT,
    ACTL_GETCURSORPOS,
    ACTL_SETCURSORPOS,
    ACTL_PROGRESSNOTIFY,
    ACTL_GETWINDOWTYPE,
}

impl ADVANCED_CONTROL_COMMANDS {
    /// The code the ABI writes for this value.
    pub open spec fn value_spec(&self) -> u32 {
        match self {
            ADVANCED_CONTROL_COMMANDS::ACTL_GETFARMANAGERVERSION => 0,
            ADVANCED_CONTROL_COMMANDS::ACTL_WAITKEY => 2,
            ADVANCED_CONTROL_COMMANDS::ACTL_GETCOLOR => 3,
            ADVANCED_CONTROL_COMMANDS::ACTL_GETARRAYCOLOR => 4,
            ADVANCED_CONTROL_COMMANDS::ACTL_GETWINDOWINFO => 6,
            ADVANCED_CONTROL_COMMANDS::ACTL_GETWINDOWCOUNT => 7,
            ADVANCED_CONTROL_COMMANDS::ACTL_SETCURRENTWINDOW => 8,
            ADVANCED_CONTROL_COMMANDS::ACTL_COMMIT => 9,
            ADVANCED_CONTROL_COMMANDS::ACTL_GETFARHWND => 10,
            ADVANCED_CONTROL_COMMANDS::ACTL_SETARRAYCOLOR => 16,
            ADVANCED_CONTROL_COMMANDS::ACTL_REDRAWALL => 19,
            ADVANCED_CONTROL_COMMANDS::ACTL_SYNCHRO => 20,
            ADVANCED_CONTROL_COMMANDS::ACTL_SETPROGRESSSTATE => 21,
            ADVANCED_CONTROL_COMMANDS::ACTL_SETPROGRESSVALUE => 22,
            ADVANCED_CONTROL_COMMANDS::ACTL_QUIT => 23,
            ADVANCED_CONTROL_COMMANDS::ACTL_GETFARRECT => 24,
            ADVANCED_CONTROL_COMMANDS::ACTL_GETCURSORPOS => 25,
            ADVANCED_CONTROL_COMMANDS::ACTL_SETCURSORPOS => 26,
            ADVANCED_CONTROL_COMMANDS::ACTL_PROGRESSNOTIFY => 27,
            ADVANCED_CONTROL_COMMANDS::ACTL_GETWINDOWTYPE => 28,
        }
    }

    pub fn value(&self) -> (r: u32)
        ensures
            r == self.value_spec(),
    {
        match self {
            ADVANCED_CONTROL_COMMANDS::ACTL_GETFARMANAGERVERSION => 0,
            ADVANCED_CONTROL_COMMANDS::ACTL_WAITKEY => 2,
            ADVANCED_CONTROL_COMMANDS::ACTL_GETCOLOR => 3,
            ADVANCED_CONTROL_COMMANDS::ACTL_GETARRAYCOLOR => 4,
            ADVANCED_CONTROL_COMMANDS::ACTL_GETWINDOWINFO => 6,
            ADVANCED_CONTROL_COMMANDS::ACTL_GETWINDOWCOUNT => 7,
            ADVANCED_CONTROL_COMMANDS::ACTL_SETCURRENTWINDOW => 8,
            ADVANCED_CONTROL_COMMANDS::ACTL_COMMIT => 9,
            ADVANCED_CONTROL_COMMANDS::ACTL_GETFARHWND => 10,
            ADVANCED_CONTROL_COMMANDS::ACTL_SETARRAYCOLOR => 16,
            ADVANCED_CONTROL_COMMANDS::ACTL_REDRAWALL => 19,
            ADVANCED_CONTROL_COMMANDS::ACTL_SYNCHRO => 20,
            ADVANCED_CONTROL_COMMANDS::ACTL_SETPROGRESSSTATE => 21,
            ADVANCED_CONTROL_COMMANDS::ACTL_SETPROGRESSVALUE => 22,
            ADVANCED_CONTROL_COMMANDS::ACTL_QUIT => 23,
            ADVANCED_CONTROL_COMMANDS::ACTL_GETFARRECT => 24,
            ADVANCED_CONTROL_COMMANDS::ACTL_GETCURSORPOS => 25,
            ADVANCED_CONTROL_COMMANDS::ACTL_SETCURSORPOS => 26,
            ADVANCED_CONTROL_COMMANDS::ACTL_PROGRESSNOTIFY => 27,
            ADVANCED_CONTROL_COMMANDS::ACTL_GETWINDOWTYPE => 28,
        }
    }
}

/// The commands of the host's macro engine.
#[allow(non_camel_case_types)]
#[derive(Clone, Copy, PartialEq, Eq, Structural, Debug)]
pub enum FAR_MACRO_CONTROL_COMMANDS {
    MCTL_LOADALL,
    MCTL_SAVEALL,
    MCTL_SENDSTRING,
    MCTL_GETSTATE,
    MCTL_GETAREA,
    MCTL_ADDMACRO,
    MCTL_DELMACRO,
    MCTL_GETLASTERROR,
    MCTL_EXECSTRING,
}

impl FAR_MACRO_CONTROL_COMMANDS {
    /// The code the ABI writes for this value.
    pub open spec fn value_spec(&self) -> u32 {
        match self {
            FAR_MACRO_CONTROL_COMMANDS::MCTL_LOADALL => 0,
            FAR_MACRO_CONTROL_COMMANDS::MCTL_SAVEALL => 1,
            FAR_MACRO_CONTROL_COMMANDS::MCTL_SENDSTRING => 2,
            FAR_MACRO_CONTROL_COMMANDS::MCTL_GETSTATE => 5,
            FAR_MACRO_CONTROL_COMMANDS::MCTL_GETAREA => 6,
            FAR_MACRO_CONTROL_COMMANDS::MCTL_ADDMACRO => 7,
            FAR_MACRO_CONTROL_COMMANDS::MCTL_DELMACRO => 8,
            FAR_MACRO_CONTROL_COMMANDS::MCTL_GETLASTERROR => 9,
            FAR_MACRO_CONTROL_COMMANDS::MCTL_EXECSTRING => 10,
        }
    }

    pub fn value(&self) -> (r: u32)
        ensures
            r == self.value_spec(),
    {
        match self {
            FAR_MACRO_CONTROL_COMMANDS::MCTL_LOADALL => 0,
            FAR_MACRO_CONTROL_COMMANDS::MCTL_SAVEALL => 1,
            FAR_MACRO_CONTROL_COMMANDS::MCTL_SENDSTRING => 2,
            FAR_MACRO_CONTROL_COMMANDS::MCTL_GETSTATE => 5,
            FAR_MACRO_CONTROL_COMMANDS::MCTL_GETAREA => 6,
            FAR_MACRO_CONTROL_COMMANDS::MCTL_ADDMACRO => 7,
            FAR_MACRO_CONTROL_COMMANDS::MCTL_DELMACRO => 8,
            FAR_MACRO_CONTROL_COMMANDS::MCTL_GETLASTERROR => 9,
            FAR_MACRO_CONTROL_COMMANDS::MCTL_EXECSTRING => 10,
        }
    }
}

/// How a text handed to the macro engine is treated.
#[allow(non_camel_case_types)]
#[derive(Clone, Copy, PartialEq, Eq, Structural, Debug)]
pub enum FARMACROSENDSTRINGCOMMAND {
    MSSC_POST,
    MSSC_CHECK,
}

impl FARMACROSENDSTRINGCOMMAND {
    /// The code the ABI writes for this value.
    pub open spec fn value_spec(&self) -> u32 {
        match self {
            FARMACROSENDSTRINGCOMMAND::MSSC_POST => 0,
            FARMACROSENDSTRINGCOMMAND::MSSC_CHECK => 2,
        }
    }

    pub fn value(&self) -> (r: u32)
        ensures
            r == self.value_spec(),
    {
        match self {
            FARMACROSENDSTRINGCOMMAND::MSSC_POST => 0,
            FARMACROSENDSTRINGCOMMAND::MSSC_CHECK => 2,
        }
    }
}

/// The areas a macro can be bound to, as far as this binding names them.
#[allow(non_camel_case_types)]
#[derive(Clone, Copy, PartialEq, Eq, Structural, Debug)]
pub enum FARMACROAREA {
    MACROAREA_OTHER,
    MACROAREA_SHELL,
    MACROAREA_VIEWER,
    MACROAREA_EDITOR,
    MACROAREA_DIALOG,
    MACROAREA_SEARCH,
    MACROAREA_DISKS,
    MACROAREA_MAINMENU,
    MACROAREA_MENU,
    MACROAREA_HELP,
    MACROAREA_INFOPANEL,
    MACROAREA_QVIEWPANEL,
    MACROAREA_TREEPANEL,
    MACROAREA_FINDFOLDER,
    MACROAREA_USERMENU,
    MACROAREA_SHELLAUTOCOMPLETION,
    MACROAREA_DIALOGAUTOCOMPLETION,
    MACROAREA_GRABBER,
    MACROAREA_DESKTOP,
    MACROAREA_COMMON,
}

impl FARMACROAREA {
    /// The code the ABI writes for this value.
    pub open spec fn value_spec(&self) -> u32 {
        match self {
            FARMACROAREA::MACROAREA_OTHER => 0,
            FARMACROAREA::MACROAREA_SHELL => 1,
            FARMACROAREA::MACROAREA_VIEWER => 2,
            FARMACROAREA::MACROAREA_EDITOR => 3,
            FARMACROAREA::MACROAREA_DIALOG => 4,
            FARMACROAREA::MACROAREA_SEARCH => 5,
            FARMACROAREA::MACROAREA_DISKS => 6,
            FARMACROAREA::MACROAREA_MAINMENU => 7,
            FARMACROAREA::MACROAREA_MENU => 8,
            FARMACROAREA::MACROAREA_HELP => 9,
            FARMACROAREA::MACROAREA_INFOPANEL => 10,
            FARMACROAREA::MACROAREA_QVIEWPANEL => 11,
            FARMACROAREA::MACROAREA_TREEPANEL => 12,
            FARMACROAREA::MACROAREA_FINDFOLDER => 13,
            FARMACROAREA::MACROAREA_USERMENU => 14,
            FARMACROAREA::MACROAREA_SHELLAUTOCOMPLETION => 15,
            FARMACROAREA::MACROAREA_DIALOGAUTOCOMPLETION => 16,
            FARMACROAREA::MACROAREA_GRABBER => 17,
            FARMACROAREA::MACROAREA_DESKTOP => 18,
            FARMACROAREA::MACROAREA_COMMON => 255,
        }
    }

    pub fn value(&self) -> (r: u32)
        ensures
            r == self.value_spec(),
    {
        match self {
            FARMACROAREA::MACROAREA_OTHER => 0,
            FARMACROAREA::MACROAREA_SHELL => 1,
            FARMACROAREA::MACROAREA_VIEWER => 2,
            FARMACROAREA::MACROAREA_EDITOR => 3,
            FARMACROAREA::MACROAREA_DIALOG => 4,
            FARMACROAREA::MACROAREA_SEARCH => 5,
            FARMACROAREA::MACROAREA_DISKS => 6,
            FARMACROAREA::MACROAREA_MAINMENU => 7,
            FARMACROAREA::MACROAREA_MENU => 8,
            FARMACROAREA::MACROAREA_HELP => 9,
            FARMACROAREA::MACROAREA_INFOPANEL => 10,
            FARMACROAREA::MACROAREA_QVIEWPANEL => 11,
            FARMACROAREA::MACROAREA_TREEPANEL => 12,
            FARMACROAREA::MACROAREA_FINDFOLDER => 13,
            FARMACROAREA::MACROAREA_USERMENU => 14,
            FARMACROAREA::MACROAREA_SHELLAUTOCOMPLETION => 15,
            FARMACROAREA::MACROAREA_DIALOGAUTOCOMPLETION => 16,
            FARMACROAREA::MACROAREA_GRABBER => 17,
            FARMACROAREA::MACROAREA_DESKTOP => 18,
            FARMACROAREA::MACROAREA_COMMON => 255,
        }
    }
}

/// The outcomes of parsing a macro text.
#[allow(non_camel_case_types)]
#[derive(Clone, Copy, PartialEq, Eq, Structural, Debug)]
pub enum FARMACROPARSEERRORCODE {
    MPEC_SUCCESS,
    MPEC_ERROR,
}

impl FARMACROPARSEERRORCODE {
    /// The code the ABI writes for this value.
    pub open spec fn value_spec(&self) -> u32 {
        match self {
            FARMACROPARSEERRORCODE::MPEC_SUCCESS => 0,
            FARMACROPARSEERRORCODE::MPEC_ERROR => 1,
        }
    }

    pub fn value(&self) -> (r: u32)
        ensures
            r == self.value_spec(),
    {
        match self {
            FARMACROPARSEERRORCODE::MPEC_SUCCESS => 0,
            FARMACROPARSEERRORCODE::MPEC_ERROR => 1,
        }
    }
}

/// The kinds of value the macro engine passes around.
#[allow(non_camel_case_types)]
#[derive(Clone, Copy, PartialEq, Eq, Structural, Debug)]
pub enum FARMACROVARTYPE {
    FMVT_UNKNOWN,
    FMVT_INTEGER,
    FMVT_STRING,
    FMVT_DOUBLE,
    FMVT_BOOLEAN,
    FMVT_BINARY,
    FMVT_POINTER,
    FMVT_NIL,
    FMVT_ARRAY,
    FMVT_PANEL,
}

impl FARMACROVARTYPE {
    /// The code the ABI writes for this value.
    pub open spec fn value_spec(&self) -> u32 {
        match self {
            FARMACROVARTYPE::FMVT_UNKNOWN => 0,
            FARMACROVARTYPE::FMVT_INTEGER => 1,
            FARMACROVARTYPE::FMVT_STRING => 2,
            FARMACROVARTYPE::FMVT_DOUBLE => 3,
            FARMACROVARTYPE::FMVT_BOOLEAN => 4,
            FARMACROVARTYPE::FMVT_BINARY => 5,
            FARMACROVARTYPE::FMVT_POINTER => 6,
            FARMACROVARTYPE::FMVT_NIL => 7,
            FARMACROVARTYPE::FMVT_ARRAY => 8,
            FARMACROVARTYPE::FMVT_PANEL => 9,
        }
    }

    pub fn value(&self) -> (r: u32)
        ensures
            r == self.value_spec(),
    {
        match self {
            FARMACROVARTYPE::FMVT_UNKNOWN => 0,
            FARMACROVARTYPE::FMVT_INTEGER => 1,
            FARMACROVARTYPE::FMVT_STRING => 2,
            FARMACROVARTYPE::FMVT_DOUBLE => 3,
            FARMACROVARTYPE::FMVT_BOOLEAN => 4,
            FARMACROVARTYPE::FMVT_BINARY => 5,
            FARMACROVARTYPE::FMVT_POINTER => 6,
            FARMACROVARTYPE::FMVT_NIL => 7,
            FARMACROVARTYPE::FMVT_ARRAY => 8,
            FARMACROVARTYPE::FMVT_PANEL => 9,
        }
    }
}

/// The kinds of window the host reports.
#[allow(non_camel_case_types)]
#[derive(Clone, Copy, PartialEq, Eq, Structural, Debug)]
pub enum WINDOWINFO_TYPE {
    WTYPE_PANELS,
    WTYPE_VIEWER,
    WTYPE_EDITOR,
    WTYPE_DIALOG,
    WTYPE_VMENU,
    WTYPE_HELP,
    WTYPE_COMBOBOX,
    WTYPE_GRABBER,
    WTYPE_HMENU,
}

impl WINDOWINFO_TYPE {
    /// The code the ABI writes for this value.
    pub open spec fn value_spec(&self) -> u32 {
        match self {
            WINDOWINFO_TYPE::WTYPE_PANELS => 1,
            WINDOWINFO_TYPE::WTYPE_VIEWER => 2,
            WINDOWINFO_TYPE::WTYPE_EDITOR => 3,
            WINDOWINFO_TYPE::WTYPE_DIALOG => 4,
            WINDOWINFO_TYPE::WTYPE_VMENU => 5,
            WINDOWINFO_TYPE::WTYPE_HELP => 6,
            WINDOWINFO_TYPE::WTYPE_COMBOBOX => 7,
            WINDOWINFO_TYPE::WTYPE_GRABBER => 8,
            WINDOWINFO_TYPE::WTYPE_HMENU => 9,
        }
    }

    pub fn value(&self) -> (r: u32)
        ensures
            r == self.value_spec(),
    {
        match self {
            WINDOWINFO_TYPE::WTYPE_PANELS => 1,
            WINDOWINFO_TYPE::WTYPE_VIEWER => 2,
            WINDOWINFO_TYPE::WTYPE_EDITOR => 3,
            WINDOWINFO_TYPE::WTYPE_DIALOG => 4,
            WINDOWINFO_TYPE::WTYPE_VMENU => 5,
            WINDOWINFO_TYPE::WTYPE_HELP => 6,
            WINDOWINFO_TYPE::WTYPE_COMBOBOX => 7,
            WINDOWINFO_TYPE::WTYPE_GRABBER => 8,
            WINDOWINFO_TYPE::WTYPE_HMENU => 9,
        }
    }
}

/// The commands of the host's viewer service.
#[allow(non_camel_case_types)]
#[derive(Clone, Copy, PartialEq, Eq, Structural, Debug)]
pub enum VIEWER_CONTROL_COMMANDS {
    VCTL_GETINFO,
    VCTL_QUIT,
    VCTL_REDRAW,
    VCTL_SETKEYBAR,
    VCTL_SETPOSITION,
    VCTL_SELECT,
    VCTL_SETMODE,
    VCTL_GETFILENAME,
}

impl VIEWER_CONTROL_COMMANDS {
    /// The code the ABI writes for this value.
    pub open spec fn value_spec(&self) -> u32 {
        match self {
            VIEWER_CONTROL_COMMANDS::VCTL_GETINFO => 0,
            VIEWER_CONTROL_COMMANDS::VCTL_QUIT => 1,
            VIEWER_CONTROL_COMMANDS::VCTL_REDRAW => 2,
            VIEWER_CONTROL_COMMANDS::VCTL_SETKEYBAR => 3,
            VIEWER_CONTROL_COMMANDS::VCTL_SETPOSITION => 4,
            VIEWER_CONTROL_COMMANDS::VCTL_SELECT => 5,
            VIEWER_CONTROL_COMMANDS::VCTL_SETMODE => 6,
            VIEWER_CONTROL_COMMANDS::VCTL_GETFILENAME => 7,
        }
    }

    pub fn value(&self) -> (r: u32)
        ensures
            r == self.value_spec(),
    {
        match self {
            VIEWER_CONTROL_COMMANDS::VCTL_GETINFO => 0,
            VIEWER_CONTROL_COMMANDS::VCTL_QUIT => 1,
            VIEWER_CONTROL_COMMANDS::VCTL_REDRAW => 2,
            VIEWER_CONTROL_COMMANDS::VCTL_SETKEYBAR => 3,
            VIEWER_CONTROL_COMMANDS::VCTL_SETPOSITION => 4,
            VIEWER_CONTROL_COMMANDS::VCTL_SELECT => 5,
            VIEWER_CONTROL_COMMANDS::VCTL_SETMODE => 6,
            VIEWER_CONTROL_COMMANDS::VCTL_GETFILENAME => 7,
        }
    }
}

/// The commands of the host's editor service.
#[allow(non_camel_case_types)]
#[derive(Clone, Copy, PartialEq, Eq, Structural, Debug)]
pub enum EDITOR_CONTROL_COMMANDS {
    ECTL_GETSTRING,
    ECTL_SETSTRING,
    ECTL_INSERTSTRING,
    ECTL_DELETESTRING,
    ECTL_DELETECHAR,
    ECTL_INSERTTEXT,
    ECTL_GETINFO,
    ECTL_SETPOSITION,
    ECTL_SELECT,
    ECTL_REDRAW,
    ECTL_TABTOREAL,
    ECTL_REALTOTAB,
    ECTL_EXPANDTABS,
    ECTL_SETTITLE,
    ECTL_READINPUT,
    ECTL_PROCESSINPUT,
    ECTL_ADDCOLOR,
    ECTL_GETCOLOR,
    ECTL_SAVEFILE,
    ECTL_QUIT,
    ECTL_SETKEYBAR,
    ECTL_SETPARAM,
    ECTL_GETBOOKMARKS,
    ECTL_DELETEBLOCK,
    ECTL_ADDSESSIONBOOKMARK,
    ECTL_PREVSESSIONBOOKMARK,
    ECTL_NEXTSESSIONBOOKMARK,
    ECTL_CLEARSESSIONBOOKMARKS,
    ECTL_DELETESESSIONBOOKMARK,
    ECTL_GETSESSIONBOOKMARKS,
    ECTL_UNDOREDO,
    ECTL_GETFILENAME,
    ECTL_DELCOLOR,
    ECTL_SUBSCRIBECHANGEEVENT,
    ECTL_UNSUBSCRIBECHANGEEVENT,
    ECTL_GETTITLE,
}

impl EDITOR_CONTROL_COMMANDS {
    /// The code the ABI writes for this value.
    pub open spec fn value_spec(&self) -> u32 {
        match self {
            EDITOR_CONTROL_COMMANDS::ECTL_GETSTRING => 0,
            EDITOR_CONTROL_COMMANDS::ECTL_SETSTRING => 1,
            EDITOR_CONTROL_COMMANDS::ECTL_INSERTSTRING => 2,
            EDITOR_CONTROL_COMMANDS::ECTL_DELETESTRING => 3,
            EDITOR_CONTROL_COMMANDS::ECTL_DELETECHAR => 4,
            EDITOR_CONTROL_COMMANDS::ECTL_INSERTTEXT => 5,
            EDITOR_CONTROL_COMMANDS::ECTL_GETINFO => 6,
            EDITOR_CONTROL_COMMANDS::ECTL_SETPOSITION => 7,
            EDITOR_CONTROL_COMMANDS::ECTL_SELECT => 8,
            EDITOR_CONTROL_COMMANDS::ECTL_REDRAW => 9,
            EDITOR_CONTROL_COMMANDS::ECTL_TABTOREAL => 10,
            EDITOR_CONTROL_COMMANDS::ECTL_REALTOTAB => 11,
            EDITOR_CONTROL_COMMANDS::ECTL_EXPANDTABS => 12,
            EDITOR_CONTROL_COMMANDS::ECTL_SETTITLE => 13,
            EDITOR_CONTROL_COMMANDS::ECTL_READINPUT => 14,
            EDITOR_CONTROL_COMMANDS::ECTL_PROCESSINPUT => 15,
            EDITOR_CONTROL_COMMANDS::ECTL_ADDCOLOR => 16,
            EDITOR_CONTROL_COMMANDS::ECTL_GETCOLOR => 17,
            EDITOR_CONTROL_COMMANDS::ECTL_SAVEFILE => 18,
            EDITOR_CONTROL_COMMANDS::ECTL_QUIT => 19,
            EDITOR_CONTROL_COMMANDS::ECTL_SETKEYBAR => 20,
            EDITOR_CONTROL_COMMANDS::ECTL_SETPARAM => 22,
            EDITOR_CONTROL_COMMANDS::ECTL_GETBOOKMARKS => 23,
            EDITOR_CONTROL_COMMANDS::ECTL_DELETEBLOCK => 25,
            EDITOR_CONTROL_COMMANDS::ECTL_ADDSESSIONBOOKMARK => 26,
            EDITOR_CONTROL_COMMANDS::ECTL_PREVSESSIONBOOKMARK => 27,
            EDITOR_CONTROL_COMMANDS::ECTL_NEXTSESSIONBOOKMARK => 28,
            EDITOR_CONTROL_COMMANDS::ECTL_CLEARSESSIONBOOKMARKS => 29,
            EDITOR_CONTROL_COMMANDS::ECTL_DELETESESSIONBOOKMARK => 30,
            EDITOR_CONTROL_COMMANDS::ECTL_GETSESSIONBOOKMARKS => 31,
            EDITOR_CONTROL_COMMANDS::ECTL_UNDOREDO => 32,
            EDITOR_CONTROL_COMMANDS::ECTL_GETFILENAME => 33,
            EDITOR_CONTROL_COMMANDS::ECTL_DELCOLOR => 34,
            EDITOR_CONTROL_COMMANDS::ECTL_SUBSCRIBECHANGEEVENT => 36,
            EDITOR_CONTROL_COMMANDS::ECTL_UNSUBSCRIBECHANGEEVENT => 37,
            EDITOR_CONTROL_COMMANDS::ECTL_GETTITLE => 38,
        }
    }

    pub fn value(&self) -> (r: u32)
        ensures
            r == self.value_spec(),
    {
        match self {
            EDITOR_CONTROL_COMMANDS::ECTL_GETSTRING => 0,
            EDITOR_CONTROL_COMMANDS::ECTL_SETSTRING => 1,
            EDITOR_CONTROL_COMMANDS::ECTL_INSERTSTRING => 2,
            EDITOR_CONTROL_COMMANDS::ECTL_DELETESTRING => 3,
            EDITOR_CONTROL_COMMANDS::ECTL_DELETECHAR => 4,
            EDITOR_CONTROL_COMMANDS::ECTL_INSERTTEXT => 5,
            EDITOR_CONTROL_COMMANDS::ECTL_GETINFO => 6,
            EDITOR_CONTROL_COMMANDS::ECTL_SETPOSITION => 7,
            EDITOR_CONTROL_COMMANDS::ECTL_SELECT => 8,
            EDITOR_CONTROL_COMMANDS::ECTL_REDRAW => 9,
            EDITOR_CONTROL_COMMANDS::ECTL_TABTOREAL => 10,
            EDITOR_CONTROL_COMMANDS::ECTL_REALTOTAB => 11,
            EDITOR_CONTROL_COMMANDS::ECTL_EXPANDTABS => 12,
            EDITOR_CONTROL_COMMANDS::ECTL_SETTITLE => 13,
            EDITOR_CONTROL_COMMANDS::ECTL_READINPUT => 14,
            EDITOR_CONTROL_COMMANDS::ECTL_PROCESSINPUT => 15,
            EDITOR_CONTROL_COMMANDS::ECTL_ADDCOLOR => 16,
            EDITOR_CONTROL_COMMANDS::ECTL_GETCOLOR => 17,
            EDITOR_CONTROL_COMMANDS::ECTL_SAVEFILE => 18,
            EDITOR_CONTROL_COMMANDS::ECTL_QUIT => 19,
            EDITOR_CONTROL_COMMANDS::ECTL_SETKEYBAR => 20,
            EDITOR_CONTROL_COMMANDS::ECTL_SETPARAM => 22,
            EDITOR_CONTROL_COMMANDS::ECTL_GETBOOKMARKS => 23,
            EDITOR_CONTROL_COMMANDS::ECTL_DELETEBLOCK => 25,
            EDITOR_CONTROL_COMMANDS::ECTL_ADDSESSIONBOOKMARK => 26,
            EDITOR_CONTROL_COMMANDS::ECTL_PREVSESSIONBOOKMARK => 27,
            EDITOR_CONTROL_COMMANDS::ECTL_NEXTSESSIONBOOKMARK => 28,
            EDITOR_CONTROL_COMMANDS::ECTL_CLEARSESSIONBOOKMARKS => 29,
            EDITOR_CONTROL_COMMANDS::ECTL_DELETESESSIONBOOKMARK => 30,
            EDITOR_CONTROL_COMMANDS::ECTL_GETSESSIONBOOKMARKS => 31,
            EDITOR_CONTROL_COMMANDS::ECTL_UNDOREDO => 32,
            EDITOR_CONTROL_COMMANDS::ECTL_GETFILENAME => 33,
            EDITOR_CONTROL_COMMANDS::ECTL_DELCOLOR => 34,
            EDITOR_CONTROL_COMMANDS::ECTL_SUBSCRIBECHANGEEVENT => 36,
            EDITOR_CONTROL_COMMANDS::ECTL_UNSUBSCRIBECHANGEEVENT => 37,
            EDITOR_CONTROL_COMMANDS::ECTL_GETTITLE => 38,
        }
    }
}

/// Which editor setting a parameter change addresses.
#[allow(non_camel_case_types)]
#[derive(Clone, Copy, PartialEq, Eq, Structural, Debug)]
pub enum EDITOR_SETPARAMETER_TYPES {
    ESPT_TABSIZE,
    ESPT_EXPANDTABS,
    ESPT_AUTOINDENT,
    ESPT_CURSORBEYONDEOL,
    ESPT_CHARCODEBASE,
    ESPT_CODEPAGE,
    ESPT_SAVEFILEPOSITION,
    ESPT_LOCKMODE,
    ESPT_SETWORDDIV,
    ESPT_GETWORDDIV,
    ESPT_SHOWWHITESPACE,
    ESPT_SETBOM,
}

impl EDITOR_SETPARAMETER_TYPES {
    /// The code the ABI writes for this value.
    pub open spec fn value_spec(&self) -> u32 {
        match self {
            EDITOR_SETPARAMETER_TYPES::ESPT_TABSIZE => 0,
            EDITOR_SETPARAMETER_TYPES::ESPT_EXPANDTABS => 1,
            EDITOR_SETPARAMETER_TYPES::ESPT_AUTOINDENT => 2,
            EDITOR_SETPARAMETER_TYPES::ESPT_CURSORBEYONDEOL => 3,
            EDITOR_SETPARAMETER_TYPES::ESPT_CHARCODEBASE => 4,
            EDITOR_SETPARAMETER_TYPES::ESPT_CODEPAGE => 5,
            EDITOR_SETPARAMETER_TYPES::ESPT_SAVEFILEPOSITION => 6,
            EDITOR_SETPARAMETER_TYPES::ESPT_LOCKMODE => 7,
            EDITOR_SETPARAMETER_TYPES::ESPT_SETWORDDIV => 8,
            EDITOR_SETPARAMETER_TYPES::ESPT_GETWORDDIV => 9,
            EDITOR_SETPARAMETER_TYPES::ESPT_SHOWWHITESPACE => 10,
            EDITOR_SETPARAMETER_TYPES::ESPT_SETBOM => 11,
        }
    }

    pub fn value(&self) -> (r: u32)
        ensures
            r == self.value_spec(),
    {
        match self {
            EDITOR_SETPARAMETER_TYPES::ESPT_TABSIZE => 0,
            EDITOR_SETPARAMETER_TYPES::ESPT_EXPANDTABS => 1,
            EDITOR_SETPARAMETER_TYPES::ESPT_AUTOINDENT => 2,
            EDITOR_SETPARAMETER_TYPES::ESPT_CURSORBEYONDEOL => 3,
            EDITOR_SETPARAMETER_TYPES::ESPT_CHARCODEBASE => 4,
            EDITOR_SETPARAMETER_TYPES::ESPT_CODEPAGE => 5,
            EDITOR_SETPARAMETER_TYPES::ESPT_SAVEFILEPOSITION => 6,
            EDITOR_SETPARAMETER_TYPES::ESPT_LOCKMODE => 7,
            EDITOR_SETPARAMETER_TYPES::ESPT_SETWORDDIV => 8,
            EDITOR_SETPARAMETER_TYPES::ESPT_GETWORDDIV => 9,
            EDITOR_SETPARAMETER_TYPES::ESPT_SHOWWHITESPACE => 10,
            EDITOR_SETPARAMETER_TYPES::ESPT_SETBOM => 11,
        }
    }
}

/// The editor's undo and redo commands.
#[allow(non_camel_case_types)]
#[derive(Clone, Copy, PartialEq, Eq, Structural, Debug)]
pub enum EDITOR_UNDOREDO_COMMANDS {
    EUR_BEGIN,
    EUR_END,
    EUR_UNDO,
    EUR_REDO,
}

impl EDITOR_UNDOREDO_COMMANDS {
    /// The code the ABI writes for this value.
    pub open spec fn value_spec(&self) -> u32 {
        match self {
            EDITOR_UNDOREDO_COMMANDS::EUR_BEGIN => 0,
            EDITOR_UNDOREDO_COMMANDS::EUR_END => 1,
            EDITOR_UNDOREDO_COMMANDS::EUR_UNDO => 2,
            EDITOR_UNDOREDO_COMMANDS::EUR_REDO => 3,
        }
    }

    pub fn value(&self) -> (r: u32)
        ensures
            r == self.value_spec(),
    {
        match self {
            EDITOR_UNDOREDO_COMMANDS::EUR_BEGIN => 0,
            EDITOR_UNDOREDO_COMMANDS::EUR_END => 1,
            EDITOR_UNDOREDO_COMMANDS::EUR_UNDO => 2,
            EDITOR_UNDOREDO_COMMANDS::EUR_REDO => 3,
        }
    }
}

/// The editor's option codes.
#[allow(non_camel_case_types)]
#[derive(Clone, Copy, PartialEq, Eq, Structural, Debug)]
pub enum EDITOR_OPTIONS {
    EOPT_EXPANDALLTABS,
    EOPT_PERSISTENTBLOCKS,
    EOPT_DELREMOVESBLOCKS,
    EOPT_AUTOINDENT,
    EOPT_SAVEFILEPOSITION,
    EOPT_AUTODETECTCODEPAGE,
    EOPT_CURSORBEYONDEOL,
    EOPT_EXPANDONLYNEWTABS,
    EOPT_SHOWWHITESPACE,
    EOPT_BOM,
    EOPT_SHOWLINEBREAK,
    EOPT_SHOWTITLEBAR,
    EOPT_SHOWKEYBAR,
    EOPT_SHOWSCROLLBAR,
}

impl EDITOR_OPTIONS {
    /// The code the ABI writes for this value.
    pub open spec fn value_spec(&self) -> u32 {
        match self {
            EDITOR_OPTIONS::EOPT_EXPANDALLTABS => 1,
            EDITOR_OPTIONS::EOPT_PERSISTENTBLOCKS => 2,
            EDITOR_OPTIONS::EOPT_DELREMOVESBLOCKS => 4,
            EDITOR_OPTIONS::EOPT_AUTOINDENT => 8,
            EDITOR_OPTIONS::EOPT_SAVEFILEPOSITION => 16,
            EDITOR_OPTIONS::EOPT_AUTODETECTCODEPAGE => 32,
            EDITOR_OPTIONS::EOPT_CURSORBEYONDEOL => 64,
            EDITOR_OPTIONS::EOPT_EXPANDONLYNEWTABS => 128,
            EDITOR_OPTIONS::EOPT_SHOWWHITESPACE => 256,
            EDITOR_OPTIONS::EOPT_BOM => 512,
            EDITOR_OPTIONS::EOPT_SHOWLINEBREAK => 1024,
            EDITOR_OPTIONS::EOPT_SHOWTITLEBAR => 2048,
            EDITOR_OPTIONS::EOPT_SHOWKEYBAR => 4096,
            EDITOR_OPTIONS::EOPT_SHOWSCROLLBAR => 8192,
        }
    }

    pub fn value(&self) -> (r: u32)
        ensures
            r == self.value_spec(),
    {
        match self {
            EDITOR_OPTIONS::EOPT_EXPANDALLTABS => 1,
            EDITOR_OPTIONS::EOPT_PERSISTENTBLOCKS => 2,
            EDITOR_OPTIONS::EOPT_DELREMOVESBLOCKS => 4,
            EDITOR_OPTIONS::EOPT_AUTOINDENT => 8,
            EDITOR_OPTIONS::EOPT_SAVEFILEPOSITION => 16,
            EDITOR_OPTIONS::EOPT_AUTODETECTCODEPAGE => 32,
            EDITOR_OPTIONS::EOPT_CURSORBEYONDEOL => 64,
            EDITOR_OPTIONS::EOPT_EXPANDONLYNEWTABS => 128,
            EDITOR_OPTIONS::EOPT_SHOWWHITESPACE => 256,
            EDITOR_OPTIONS::EOPT_BOM => 512,
            EDITOR_OPTIONS::EOPT_SHOWLINEBREAK => 1024,
            EDITOR_OPTIONS::EOPT_SHOWTITLEBAR => 2048,
            EDITOR_OPTIONS::EOPT_SHOWKEYBAR => 4096,
            EDITOR_OPTIONS::EOPT_SHOWSCROLLBAR => 8192,
        }
    }
}

/// The commands of the host's plugin-management service.
#[allow(non_camel_case_types)]
#[derive(Clone, Copy, PartialEq, Eq, Structural, Debug)]
pub enum FAR_PLUGINS_CONTROL_COMMANDS {
    PCTL_LOADPLUGIN,
    PCTL_UNLOADPLUGIN,
    PCTL_FORCEDLOADPLUGIN,
    PCTL_FINDPLUGIN,
    PCTL_GETPLUGININFORMATION,
    PCTL_GETPLUGINS,
}

impl FAR_PLUGINS_CONTROL_COMMANDS {
    /// The code the ABI writes for this value.
    pub open spec fn value_spec(&self) -> u32 {
        match self {
            FAR_PLUGINS_CONTROL_COMMANDS::PCTL_LOADPLUGIN => 0,
            FAR_PLUGINS_CONTROL_COMMANDS::PCTL_UNLOADPLUGIN => 1,
            FAR_PLUGINS_CONTROL_COMMANDS::PCTL_FORCEDLOADPLUGIN => 2,
            FAR_PLUGINS_CONTROL_COMMANDS::PCTL_FINDPLUGIN => 3,
            FAR_PLUGINS_CONTROL_COMMANDS::PCTL_GETPLUGININFORMATION => 4,
            FAR_PLUGINS_CONTROL_COMMANDS::PCTL_GETPLUGINS => 5,
        }
    }

    pub fn value(&self) -> (r: u32)
        ensures
            r == self.value_spec(),
    {
        match self {
            FAR_PLUGINS_CONTROL_COMMANDS::PCTL_LOADPLUGIN => 0,
            FAR_PLUGINS_CONTROL_COMMANDS::PCTL_UNLOADPLUGIN => 1,
            FAR_PLUGINS_CONTROL_COMMANDS::PCTL_FORCEDLOADPLUGIN => 2,
            FAR_PLUGINS_CONTROL_COMMANDS::PCTL_FINDPLUGIN => 3,
            FAR_PLUGINS_CONTROL_COMMANDS::PCTL_GETPLUGININFORMATION => 4,
            FAR_PLUGINS_CONTROL_COMMANDS::PCTL_GETPLUGINS => 5,
        }
    }
}

/// How a plugin to load is addressed.
#[allow(non_camel_case_types)]
#[derive(Clone, Copy, PartialEq, Eq, Structural, Debug)]
pub enum FAR_PLUGIN_LOAD_TYPE {
    PLT_PATH,
}

impl FAR_PLUGIN_LOAD_TYPE {
    /// The code the ABI writes for this value.
    pub open spec fn value_spec(&self) -> u32 {
        match self {
            FAR_PLUGIN_LOAD_TYPE::PLT_PATH => 0,
        }
    }

    pub fn value(&self) -> (r: u32)
        ensures
            r == self.value_spec(),
    {
        match self {
            FAR_PLUGIN_LOAD_TYPE::PLT_PATH => 0,
        }
    }
}

/// How a loaded plugin to find is addressed.
#[allow(non_camel_case_types)]
#[derive(Clone, Copy, PartialEq, Eq, Structural, Debug)]
pub enum FAR_PLUGIN_FIND_TYPE {
    PFMGUID,
    PFM_MODULENAME,
}

impl FAR_PLUGIN_FIND_TYPE {
    /// The code the ABI writes for this value.
    pub open spec fn value_spec(&self) -> u32 {
        match self {
            FAR_PLUGIN_FIND_TYPE::PFMGUID => 0,
            FAR_PLUGIN_FIND_TYPE::PFM_MODULENAME => 1,
        }
    }

    pub fn value(&self) -> (r: u32)
        ensures
            r == self.value_spec(),
    {
        match self {
            FAR_PLUGIN_FIND_TYPE::PFMGUID => 0,
            FAR_PLUGIN_FIND_TYPE::PFM_MODULENAME => 1,
        }
    }
}

/// The commands of the host's regular-expression service.
#[allow(non_camel_case_types)]
#[derive(Clone, Copy, PartialEq, Eq, Structural, Debug)]
pub enum FAR_REGEXP_CONTROL_COMMANDS {
    RECTL_CREATE,
    RECTL_FREE,
    RECTL_COMPILE,
    RECTL_OPTIMIZE,
    RECTL_MATCHEX,
    RECTL_SEARCHEX,
    RECTL_BRACKETSCOUNT,
}

impl FAR_REGEXP_CONTROL_COMMANDS {
    /// The code the ABI writes for this value.
    pub open spec fn value_spec(&self) -> u32 {
        match self {
            FAR_REGEXP_CONTROL_COMMANDS::RECTL_CREATE => 0,
            FAR_REGEXP_CONTROL_COMMANDS::RECTL_FREE => 1,
            FAR_REGEXP_CONTROL_COMMANDS::RECTL_COMPILE => 2,
            FAR_REGEXP_CONTROL_COMMANDS::RECTL_OPTIMIZE => 3,
            FAR_REGEXP_CONTROL_COMMANDS::RECTL_MATCHEX => 4,
            FAR_REGEXP_CONTROL_COMMANDS::RECTL_SEARCHEX => 5,
            FAR_REGEXP_CONTROL_COMMANDS::RECTL_BRACKETSCOUNT => 6,
        }
    }

    pub fn value(&self) -> (r: u32)
        ensures
            r == self.value_spec(),
    {
        match self {
            FAR_REGEXP_CONTROL_COMMANDS::RECTL_CREATE => 0,
            FAR_REGEXP_CONTROL_COMMANDS::RECTL_FREE => 1,
            FAR_REGEXP_CONTROL_COMMANDS::RECTL_COMPILE => 2,
            FAR_REGEXP_CONTROL_COMMANDS::RECTL_OPTIMIZE => 3,
            FAR_REGEXP_CONTROL_COMMANDS::RECTL_MATCHEX => 4,
            FAR_REGEXP_CONTROL_COMMANDS::RECTL_SEARCHEX => 5,
            FAR_REGEXP_CONTROL_COMMANDS::RECTL_BRACKETSCOUNT => 6,
        }
    }
}

/// The commands of the host's settings store.
#[allow(non_camel_case_types)]
#[derive(Clone, Copy, PartialEq, Eq, Structural, Debug)]
pub enum FAR_SETTINGS_CONTROL_COMMANDS {
    SCTL_CREATE,
    SCTL_FREE,
    SCTL_SET,
    SCTL_GET,
    SCTL_ENUM,
    SCTL_DELETE,
    SCTL_CREATESUBKEY,
    SCTL_OPENSUBKEY,
}

impl FAR_SETTINGS_CONTROL_COMMANDS {
    /// The code the ABI writes for this value.
    pub open spec fn value_spec(&self) -> u32 {
        match self {
            FAR_SETTINGS_CONTROL_COMMANDS::SCTL_CREATE => 0,
            FAR_SETTINGS_CONTROL_COMMANDS::SCTL_FREE => 1,
            FAR_SETTINGS_CONTROL_COMMANDS::SCTL_SET => 2,
            FAR_SETTINGS_CONTROL_COMMANDS::SCTL_GET => 3,
            FAR_SETTINGS_CONTROL_COMMANDS::SCTL_ENUM => 4,
            FAR_SETTINGS_CONTROL_COMMANDS::SCTL_DELETE => 5,
            FAR_SETTINGS_CONTROL_COMMANDS::SCTL_CREATESUBKEY => 6,
            FAR_SETTINGS_CONTROL_COMMANDS::SCTL_OPENSUBKEY => 7,
        }
    }

    pub fn value(&self) -> (r: u32)
        ensures
            r == self.value_spec(),
    {
        match self {
            FAR_SETTINGS_CONTROL_COMMANDS::SCTL_CREATE => 0,
            FAR_SETTINGS_CONTROL_COMMANDS::SCTL_FREE => 1,
            FAR_SETTINGS_CONTROL_COMMANDS::SCTL_SET => 2,
            FAR_SETTINGS_CONTROL_COMMANDS::SCTL_GET => 3,
            FAR_SETTINGS_CONTROL_COMMANDS::SCTL_ENUM => 4,
            FAR_SETTINGS_CONTROL_COMMANDS::SCTL_DELETE => 5,
            FAR_SETTINGS_CONTROL_COMMANDS::SCTL_CREATESUBKEY => 6,
            FAR_SETTINGS_CONTROL_COMMANDS::SCTL_OPENSUBKEY => 7,
        }
    }
}

/// The kinds of value the settings store holds.
#[allow(non_camel_case_types)]
#[derive(Clone, Copy, PartialEq, Eq, Structural, Debug)]
pub enum FARSETTINGSTYPES {
    FST_UNKNOWN,
    FST_SUBKEY,
    FST_QWORD,
    FST_STRING,
    FST_DATA,
}

impl FARSETTINGSTYPES {
    /// The code the ABI writes for this value.
    pub open spec fn value_spec(&self) -> u32 {
        match self {
            FARSETTINGSTYPES::FST_UNKNOWN => 0,
            FARSETTINGSTYPES::FST_SUBKEY => 1,
            FARSETTINGSTYPES::FST_QWORD => 2,
            FARSETTINGSTYPES::FST_STRING => 3,
            FARSETTINGSTYPES::FST_DATA => 4,
        }
    }

    pub fn value(&self) -> (r: u32)
        ensures
            r == self.value_spec(),
    {
        match self {
            FARSETTINGSTYPES::FST_UNKNOWN => 0,
            FARSETTINGSTYPES::FST_SUBKEY => 1,
            FARSETTINGSTYPES::FST_QWORD => 2,
            FARSETTINGSTYPES::FST_STRING => 3,
            FARSETTINGSTYPES::FST_DATA => 4,
        }
    }
}

/// The host's well-known settings folders.
#[allow(non_camel_case_types)]
#[derive(Clone, Copy, PartialEq, Eq, Structural, Debug)]
pub enum FARSETTINGS_SUBFOLDERS {
    FSSF_ROOT,
    FSSF_HISTORY_CMD,
    FSSF_HISTORY_FOLDER,
    FSSF_HISTORY_VIEW,
    FSSF_HISTORY_EDIT,
    FSSF_HISTORY_EXTERNAL,
    FSSF_FOLDERSHORTCUT_0,
    FSSF_FOLDERSHORTCUT_1,
    FSSF_FOLDERSHORTCUT_2,
    FSSF_FOLDERSHORTCUT_3,
    FSSF_FOLDERSHORTCUT_4,
    FSSF_FOLDERSHORTCUT_5,
    FSSF_FOLDERSHORTCUT_6,
    FSSF_FOLDERSHORTCUT_7,
    FSSF_FOLDERSHORTCUT_8,
    FSSF_FOLDERSHORTCUT_9,
    FSSF_CONFIRMATIONS,
    FSSF_SYSTEM,
    FSSF_PANEL,
    FSSF_EDITOR,
    FSSF_SCREEN,
    FSSF_DIALOG,
    FSSF_INTERFACE,
    FSSF_PANELLAYOUT,
}

impl FARSETTINGS_SUBFOLDERS {
    /// The code the ABI writes for this value.
    pub open spec fn value_spec(&self) -> u32 {
        match self {
            FARSETTINGS_SUBFOLDERS::FSSF_ROOT => 0,
            FARSETTINGS_SUBFOLDERS::FSSF_HISTORY_CMD => 1,
            FARSETTINGS_SUBFOLDERS::FSSF_HISTORY_FOLDER => 2,
            FARSETTINGS_SUBFOLDERS::FSSF_HISTORY_VIEW => 3,
            FARSETTINGS_SUBFOLDERS::FSSF_HISTORY_EDIT => 4,
            FARSETTINGS_SUBFOLDERS::FSSF_HISTORY_EXTERNAL => 5,
            FARSETTINGS_SUBFOLDERS::FSSF_FOLDERSHORTCUT_0 => 6,
            FARSETTINGS_SUBFOLDERS::FSSF_FOLDERSHORTCUT_1 => 7,
            FARSETTINGS_SUBFOLDERS::FSSF_FOLDERSHORTCUT_2 => 8,
            FARSETTINGS_SUBFOLDERS::FSSF_FOLDERSHORTCUT_3 => 9,
            FARSETTINGS_SUBFOLDERS::FSSF_FOLDERSHORTCUT_4 => 10,
            FARSETTINGS_SUBFOLDERS::FSSF_FOLDERSHORTCUT_5 => 11,
            FARSETTINGS_SUBFOLDERS::FSSF_FOLDERSHORTCUT_6 => 12,
            FARSETTINGS_SUBFOLDERS::FSSF_FOLDERSHORTCUT_7 => 13,
            FARSETTINGS_SUBFOLDERS::FSSF_FOLDERSHORTCUT_8 => 14,
            FARSETTINGS_SUBFOLDERS::FSSF_FOLDERSHORTCUT_9 => 15,
            FARSETTINGS_SUBFOLDERS::FSSF_CONFIRMATIONS => 16,
            FARSETTINGS_SUBFOLDERS::FSSF_SYSTEM => 17,
            FARSETTINGS_SUBFOLDERS::FSSF_PANEL => 18,
            FARSETTINGS_SUBFOLDERS::FSSF_EDITOR => 19,
            FARSETTINGS_SUBFOLDERS::FSSF_SCREEN => 20,
            FARSETTINGS_SUBFOLDERS::FSSF_DIALOG => 21,
            FARSETTINGS_SUBFOLDERS::FSSF_INTERFACE => 22,
            FARSETTINGS_SUBFOLDERS::FSSF_PANELLAYOUT => 23,
        }
    }

    pub fn value(&self) -> (r: u32)
        ensures
            r == self.value_spec(),
    {
        match self {
            FARSETTINGS_SUBFOLDERS::FSSF_ROOT => 0,
            FARSETTINGS_SUBFOLDERS::FSSF_HISTORY_CMD => 1,
            FARSETTINGS_SUBFOLDERS::FSSF_HISTORY_FOLDER => 2,
            FARSETTINGS_SUBFOLDERS::FSSF_HISTORY_VIEW => 3,
            FARSETTINGS_SUBFOLDERS::FSSF_HISTORY_EDIT => 4,
            FARSETTINGS_SUBFOLDERS::FSSF_HISTORY_EXTERNAL => 5,
            FARSETTINGS_SUBFOLDERS::FSSF_FOLDERSHORTCUT_0 => 6,
            FARSETTINGS_SUBFOLDERS::FSSF_FOLDERSHORTCUT_1 => 7,
            FARSETTINGS_SUBFOLDERS::FSSF_FOLDERSHORTCUT_2 => 8,
            FARSETTINGS_SUBFOLDERS::FSSF_FOLDERSHORTCUT_3 => 9,
            FARSETTINGS_SUBFOLDERS::FSSF_FOLDERSHORTCUT_4 => 10,
            FARSETTINGS_SUBFOLDERS::FSSF_FOLDERSHORTCUT_5 => 11,
            FARSETTINGS_SUBFOLDERS::FSSF_FOLDERSHORTCUT_6 => 12,
            FARSETTINGS_SUBFOLDERS::FSSF_FOLDERSHORTCUT_7 => 13,
            FARSETTINGS_SUBFOLDERS::FSSF_FOLDERSHORTCUT_8 => 14,
            FARSETTINGS_SUBFOLDERS::FSSF_FOLDERSHORTCUT_9 => 15,
            FARSETTINGS_SUBFOLDERS::FSSF_CONFIRMATIONS => 16,
            FARSETTINGS_SUBFOLDERS::FSSF_SYSTEM => 17,
            FARSETTINGS_SUBFOLDERS::FSSF_PANEL => 18,
            FARSETTINGS_SUBFOLDERS::FSSF_EDITOR => 19,
            FARSETTINGS_SUBFOLDERS::FSSF_SCREEN => 20,
            FARSETTINGS_SUBFOLDERS::FSSF_DIALOG => 21,
            FARSETTINGS_SUBFOLDERS::FSSF_INTERFACE => 22,
            FARSETTINGS_SUBFOLDERS::FSSF_PANELLAYOUT => 23,
        }
    }
}

/// Where a plugin's settings live.
#[allow(non_camel_case_types)]
#[derive(Clone, Copy, PartialEq, Eq, Structural, Debug)]
pub enum FAR_PLUGIN_SETTINGS_LOCATION {
    PSL_ROAMING,
    PSL_LOCAL,
}

impl FAR_PLUGIN_SETTINGS_LOCATION {
    /// The code the ABI writes for this value.
    pub open spec fn value_spec(&self) -> u32 {
        match self {
            FAR_PLUGIN_SETTINGS_LOCATION::PSL_ROAMING => 0,
            FAR_PLUGIN_SETTINGS_LOCATION::PSL_LOCAL => 1,
        }
    }

    pub fn value(&self) -> (r: u32)
        ensures
            r == self.value_spec(),
    {
        match self {
            FAR_PLUGIN_SETTINGS_LOCATION::PSL_ROAMING => 0,
            FAR_PLUGIN_SETTINGS_LOCATION::PSL_LOCAL => 1,
        }
    }
}

/// How the macro engine calls into a plugin.
#[allow(non_camel_case_types)]
#[derive(Clone, Copy, PartialEq, Eq, Structural, Debug)]
pub enum MACROCALLTYPE {
    MCT_MACROPARSE,
    MCT_LOADMACROS,
    MCT_ENUMMACROS,
    MCT_WRITEMACROS,
    MCT_GETMACRO,
    MCT_RECORDEDMACRO,
    MCT_DELMACRO,
    MCT_RUNSTARTMACRO,
    MCT_EXECSTRING,
    MCT_PANELSORT,
    MCT_GETCUSTOMSORTMODES,
    MCT_ADDMACRO,
    MCT_KEYMACRO,
    MCT_CANPANELSORT,
}

impl MACROCALLTYPE {
    /// The code the ABI writes for this value.
    pub open spec fn value_spec(&self) -> u32 {
        match self {
            MACROCALLTYPE::MCT_MACROPARSE => 0,
            MACROCALLTYPE::MCT_LOADMACROS => 1,
            MACROCALLTYPE::MCT_ENUMMACROS => 2,
            MACROCALLTYPE::MCT_WRITEMACROS => 3,
            MACROCALLTYPE::MCT_GETMACRO => 4,
            MACROCALLTYPE::MCT_RECORDEDMACRO => 5,
            MACROCALLTYPE::MCT_DELMACRO => 6,
            MACROCALLTYPE::MCT_RUNSTARTMACRO => 7,
            MACROCALLTYPE::MCT_EXECSTRING => 8,
            MACROCALLTYPE::MCT_PANELSORT => 9,
            MACROCALLTYPE::MCT_GETCUSTOMSORTMODES => 10,
            MACROCALLTYPE::MCT_ADDMACRO => 11,
            MACROCALLTYPE::MCT_KEYMACRO => 12,
            MACROCALLTYPE::MCT_CANPANELSORT => 13,
        }
    }

    pub fn value(&self) -> (r: u32)
        ensures
            r == self.value_spec(),
    {
        match self {
            MACROCALLTYPE::MCT_MACROPARSE => 0,
            MACROCALLTYPE::MCT_LOADMACROS => 1,
            MACROCALLTYPE::MCT_ENUMMACROS => 2,
            MACROCALLTYPE::MCT_WRITEMACROS => 3,
            MACROCALLTYPE::MCT_GETMACRO => 4,
            MACROCALLTYPE::MCT_RECORDEDMACRO => 5,
            MACROCALLTYPE::MCT_DELMACRO => 6,
            MACROCALLTYPE::MCT_RUNSTARTMACRO => 7,
            MACROCALLTYPE::MCT_EXECSTRING => 8,
            MACROCALLTYPE::MCT_PANELSORT => 9,
            MACROCALLTYPE::MCT_GETCUSTOMSORTMODES => 10,
            MACROCALLTYPE::MCT_ADDMACRO => 11,
            MACROCALLTYPE::MCT_KEYMACRO => 12,
            MACROCALLTYPE::MCT_CANPANELSORT => 13,
        }
    }
}

/// What a plugin hands back to the macro engine.
#[allow(non_camel_case_types)]
#[derive(Clone, Copy, PartialEq, Eq, Structural, Debug)]
pub enum MACROPLUGINRETURNTYPE {
    MPRT_NORMALFINISH,
    MPRT_ERRORFINISH,
    MPRT_ERRORPARSE,
    MPRT_KEYS,
    MPRT_PRINT,
    MPRT_PLUGINCALL,
    MPRT_PLUGINMENU,
    MPRT_PLUGINCONFIG,
    MPRT_PLUGINCOMMAND,
    MPRT_USERMENU,
    MPRT_HASNOMACRO,
}

impl MACROPLUGINRETURNTYPE {
    /// The code the ABI writes for this value.
    pub open spec fn value_spec(&self) -> u32 {
        match self {
            MACROPLUGINRETURNTYPE::MPRT_NORMALFINISH => 0,
            MACROPLUGINRETURNTYPE::MPRT_ERRORFINISH => 1,
            MACROPLUGINRETURNTYPE::MPRT_ERRORPARSE => 2,
            MACROPLUGINRETURNTYPE::MPRT_KEYS => 3,
            MACROPLUGINRETURNTYPE::MPRT_PRINT => 4,
            MACROPLUGINRETURNTYPE::MPRT_PLUGINCALL => 5,
            MACROPLUGINRETURNTYPE::MPRT_PLUGINMENU => 6,
            MACROPLUGINRETURNTYPE::MPRT_PLUGINCONFIG => 7,
            MACROPLUGINRETURNTYPE::MPRT_PLUGINCOMMAND => 8,
            MACROPLUGINRETURNTYPE::MPRT_USERMENU => 9,
            MACROPLUGINRETURNTYPE::MPRT_HASNOMACRO => 10,
        }
    }

    pub fn value(&self) -> (r: u32)
        ensures
            r == self.value_spec(),
    {
        match self {
            MACROPLUGINRETURNTYPE::MPRT_NORMALFINISH => 0,
            MACROPLUGINRETURNTYPE::MPRT_ERRORFINISH => 1,
            MACROPLUGINRETURNTYPE::MPRT_ERRORPARSE => 2,
            MACROPLUGINRETURNTYPE::MPRT_KEYS => 3,
            MACROPLUGINRETURNTYPE::MPRT_PRINT => 4,
            MACROPLUGINRETURNTYPE::MPRT_PLUGINCALL => 5,
            MACROPLUGINRETURNTYPE::MPRT_PLUGINMENU => 6,
            MACROPLUGINRETURNTYPE::MPRT_PLUGINCONFIG => 7,
            MACROPLUGINRETURNTYPE::MPRT_PLUGINCOMMAND => 8,
            MACROPLUGINRETURNTYPE::MPRT_USERMENU => 9,
            MACROPLUGINRETURNTYPE::MPRT_HASNOMACRO => 10,
        }
    }
}
impl FARMESSAGE {
    /// Reads the message back from its code: the inverse of `value` on
    /// the codes the ABI defines, and nothing on any other number.
    #[verifier::rlimit(100)]
    #[verifier::spinoff_prover]
    pub fn from_value(v: u32) -> (r: Option<FARMESSAGE>)
        ensures
            match r {
                Some(m) => m.value_spec() == v,
                None => forall|m: FARMESSAGE| (#[trigger] m.value_spec()) != v,
            },
    {
        let r = match v {
            0u32 => Some(FARMESSAGE::DM_FIRST),
            1u32 => Some(FARMESSAGE::DM_CLOSE),
            2u32 => Some(FARMESSAGE::DM_ENABLE),
            3u32 => Some(FARMESSAGE::DM_ENABLEREDRAW),
            4u32 => Some(FARMESSAGE::DM_GETDLGDATA),
            5u32 => Some(FARMESSAGE::DM_GETDLGITEM),
            6u32 => Some(FARMESSAGE::DM_GETDLGRECT),
            7u32 => Some(FARMESSAGE::DM_GETTEXT),
            9u32 => Some(FARMESSAGE::DM_KEY),
            10u32 => Some(FARMESSAGE::DM_MOVEDIALOG),
            11u32 => Some(FARMESSAGE::DM_SETDLGDATA),
            12u32 => Some(FARMESSAGE::DM_SETDLGITEM),
            13u32 => Some(FARMESSAGE::DM_SETFOCUS),
            14u32 => Some(FARMESSAGE::DM_REDRAW),
            15u32 => Some(FARMESSAGE::DM_SETTEXT),
            16u32 => Some(FARMESSAGE::DM_SETMAXTEXTLENGTH),
            17u32 => Some(FARMESSAGE::DM_SHOWDIALOG),
            18u32 => Some(FARMESSAGE::DM_GETFOCUS),
            19u32 => Some(FARMESSAGE::DM_GETCURSORPOS),
            20u32 => Some(FARMESSAGE::DM_SETCURSORPOS),
            22u32 => Some(FARMESSAGE::DM_SETTEXTPTR),
            23u32 => Some(FARMESSAGE::DM_SHOWITEM),
            24u32 => Some(FARMESSAGE::DM_ADDHISTORY),
            25u32 => Some(FARMESSAGE::DM_GETCHECK),
            26u32 => Some(FARMESSAGE::DM_SETCHECK),
            27u32 => Some(FARMESSAGE::DM_SET3STATE),
            28u32 => Some(FARMESSAGE::DM_LISTSORT),
            29u32 => Some(FARMESSAGE::DM_LISTGETITEM),
            30u32 => Some(FARMESSAGE::DM_LISTGETCURPOS),
            31u32 => Some(FARMESSAGE::DM_LISTSETCURPOS),
            32u32 => Some(FARMESSAGE::DM_LISTDELETE),
            33u32 => Some(FARMESSAGE::DM_LISTADD),
            34u32 => Some(FARMESSAGE::DM_LISTADDSTR),
            35u32 => Some(FARMESSAGE::DM_LISTUPDATE),
            36u32 => Some(FARMESSAGE::DM_LISTINSERT),
            37u32 => Some(FARMESSAGE::DM_LISTFINDSTRING),
            38u32 => Some(FARMESSAGE::DM_LISTINFO),
            39u32 => Some(FARMESSAGE::DM_LISTGETDATA),
            40u32 => Some(FARMESSAGE::DM_LISTSETDATA),
            41u32 => Some(FARMESSAGE::DM_LISTSETTITLES),
            42u32 => Some(FARMESSAGE::DM_LISTGETTITLES),
            43u32 => Some(FARMESSAGE::DM_RESIZEDIALOG),
            44u32 => Some(FARMESSAGE::DM_SETITEMPOSITION),
            45u32 => Some(FARMESSAGE::DM_GETDROPDOWNOPENED),
            46u32 => Some(FARMESSAGE::DM_SETDROPDOWNOPENED),
            47u32 => Some(FARMESSAGE::DM_SETHISTORY),
            48u32 => Some(FARMESSAGE::DM_GETITEMPOSITION),
            49u32 => Some(FARMESSAGE::DM_SETINPUTNOTIFY),
            50u32 => Some(FARMESSAGE::DM_EDITUNCHANGEDFLAG),
            51u32 => Some(FARMESSAGE::DM_GETITEMDATA),
            52u32 => Some(FARMESSAGE::DM_SETITEMDATA),
            53u32 => Some(FARMESSAGE::DM_LISTSET),
            54u32 => Some(FARMESSAGE::DM_GETCURSORSIZE),
            55u32 => Some(FARMESSAGE::DM_SETCURSORSIZE),
            56u32 => Some(FARMESSAGE::DM_LISTGETDATASIZE),
            57u32 => Some(FARMESSAGE::DM_GETSELECTION),
            58u32 => Some(FARMESSAGE::DM_SETSELECTION),
            59u32 => Some(FARMESSAGE::DM_GETEDITPOSITION),
            60u32 => Some(FARMESSAGE::DM_SETEDITPOSITION),
            61u32 => Some(FARMESSAGE::DM_SETCOMBOBOXEVENT),
            62u32 => Some(FARMESSAGE::DM_GETCOMBOBOXEVENT),
            63u32 => Some(FARMESSAGE::DM_GETCONSTTEXTPTR),
            64u32 => Some(FARMESSAGE::DM_GETDLGITEMSHORT),
            65u32 => Some(FARMESSAGE::DM_SETDLGITEMSHORT),
            66u32 => Some(FARMESSAGE::DM_GETDIALOGINFO),
            67u32 => Some(FARMESSAGE::DM_GETDIALOGTITLE),
            4096u32 => Some(FARMESSAGE::DN_FIRST),
            4097u32 => Some(FARMESSAGE::DN_BTNCLICK),
            4098u32 => Some(FARMESSAGE::DN_CTLCOLORDIALOG),
            4099u32 => Some(FARMESSAGE::DN_CTLCOLORDLGITEM),
            4100u32 => Some(FARMESSAGE::DN_CTLCOLORDLGLIST),
            4101u32 => Some(FARMESSAGE::DN_DRAWDIALOG),
            4102u32 => Some(FARMESSAGE::DN_DRAWDLGITEM),
            4103u32 => Some(FARMESSAGE::DN_EDITCHANGE),
            4104u32 => Some(FARMESSAGE::DN_ENTERIDLE),
            4105u32 => Some(FARMESSAGE::DN_GOTFOCUS),
            4106u32 => Some(FARMESSAGE::DN_HELP),
            4107u32 => Some(FARMESSAGE::DN_HOTKEY),
            4108u32 => Some(FARMESSAGE::DN_INITDIALOG),
            4109u32 => Some(FARMESSAGE::DN_KILLFOCUS),
            4110u32 => Some(FARMESSAGE::DN_LISTCHANGE),
            4111u32 => Some(FARMESSAGE::DN_DRAGGED),
            4112u32 => Some(FARMESSAGE::DN_RESIZECONSOLE),
            4113u32 => Some(FARMESSAGE::DN_DRAWDIALOGDONE),
            4114u32 => Some(FARMESSAGE::DN_LISTHOTKEY),
            4115u32 => Some(FARMESSAGE::DN_INPUT),
            4116u32 => Some(FARMESSAGE::DN_CONTROLINPUT),
            4117u32 => Some(FARMESSAGE::DN_CLOSE),
            4118u32 => Some(FARMESSAGE::DN_GETVALUE),
            4119u32 => Some(FARMESSAGE::DN_DROPDOWNOPENED),
            4120u32 => Some(FARMESSAGE::DN_DRAWDLGITEMDONE),
            16384u32 => Some(FARMESSAGE::DM_USER),
            _ => None,
        };
        r
    }
}

} // verus!
