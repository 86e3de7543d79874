//! The panel side of the binding: the plugin-facing records, the capability
//! trait a plugin implements, and the dispatch shims the exported entry
//! points run. Every shim validates the host's struct-size handshake before
//! it reads anything else of the request, and a failed handshake leaves the
//! context untouched and returns the ABI's failure value.

use crate::common::ffi::AsInner;
use crate::common::string::{decode_borrowed, decode_seq, prefix_to_nul, wide_of};
use crate::ffi;
use crate::ffi::HANDLE;
use crate::Error;
use crate::ReturnCode;
use vstd::prelude::*;

pub mod control;
pub mod ctx;
pub mod filter;
pub mod wrapper;

verus! {

/// The bits of an item's file attributes this binding understands; unknown
/// bits a host hands over are dropped, as reading them would be a guess.
pub const FILE_ATTRIBUTES_MASK: u64 = 0x17FB7;

/// The operation-mode bit for a call made silently, without dialogs.
pub const OPM_SILENT: u64 = 0x1;

/// Puts a fresh panel store in place, as plugin start-up does.
pub fn init_context(slot: &mut Option<ctx::Context>)
    ensures
        *final(slot) matches Some(c) && c.wf() && c.panels() == Map::<
            usize,
            ctx::Panel,
        >::empty(),
{
    *slot = Some(ctx::Context::new());
}

/// Tears the panel store down, as plugin unload does; every entry's
/// backing buffers go with it.
pub fn cleanup_context(slot: &mut Option<ctx::Context>)
    ensures
        *final(slot) is None,
{
    *slot = None;
}

/// The result codes a put-files operation reports.
pub enum PutFilesReturnCode {
    Success,
    SuccessNoFileSelect,
    UserCancel,
}

impl PutFilesReturnCode {
    /// The code the ABI writes for this result.
    pub open spec fn value_spec(&self) -> isize {
        match self {
            PutFilesReturnCode::Success => 1isize,
            PutFilesReturnCode::SuccessNoFileSelect => 2isize,
            PutFilesReturnCode::UserCancel => -1isize,
        }
    }

    pub fn value(&self) -> (r: isize)
        ensures
            r == self.value_spec(),
    {
        match self {
            PutFilesReturnCode::Success => 1isize,
            PutFilesReturnCode::SuccessNoFileSelect => 2isize,
            PutFilesReturnCode::UserCancel => -1isize,
        }
    }
}

/// How two panel items stand to one another in a plugin-defined order.
pub enum Ordering {
    Less,
    Equal,
    Greater,
}

/// One line of a panel's information area, as the plugin states it.
pub struct InfoPanelLine {
    pub text: String,
    pub data: String,
    pub flags: u64,
}

/// One panel item as the plugin states it: owned texts, no pointers.
pub struct PluginPanelItem {
    pub creation_time: ffi::FILETIME,
    pub last_access_time: ffi::FILETIME,
    pub last_write_time: ffi::FILETIME,
    pub change_time: ffi::FILETIME,
    pub file_size: u64,
    pub allocation_size: u64,
    pub file_name: String,
    pub alternate_file_name: Option<String>,
    pub description: Option<String>,
    pub owner: Option<String>,
    pub flags: u64,
    pub file_attributes: u64,
    pub number_of_links: usize,
    pub crc32: usize,
}

/// A rich item decodes a flat one: each text is the lossy reading of the
/// buffer behind the corresponding pointer, and only the understood
/// attribute bits are kept.
pub open spec fn item_decodes(rich: PluginPanelItem, raw: ffi::PluginPanelItemView) -> bool {
    &&& rich.creation_time == raw.creation_time
    &&& rich.last_access_time == raw.last_access_time
    &&& rich.last_write_time == raw.last_write_time
    &&& rich.change_time == raw.change_time
    &&& rich.file_size == raw.file_size
    &&& rich.allocation_size == raw.allocation_size
    &&& rich.file_name@ == decode_seq(prefix_to_nul(raw.file_name))
    &&& match (rich.alternate_file_name, raw.alternate_file_name) {
        (Some(s), Some(u)) => s@ == decode_seq(prefix_to_nul(u)),
        (None, None) => true,
        _ => false,
    }
    &&& match (rich.description, raw.description) {
        (Some(s), Some(u)) => s@ == decode_seq(prefix_to_nul(u)),
        (None, None) => true,
        _ => false,
    }
    &&& match (rich.owner, raw.owner) {
        (Some(s), Some(u)) => s@ == decode_seq(prefix_to_nul(u)),
        (None, None) => true,
        _ => false,
    }
    &&& rich.flags == raw.flags
    &&& rich.file_attributes == raw.file_attributes & FILE_ATTRIBUTES_MASK
    &&& rich.number_of_links == raw.number_of_links
    &&& rich.crc32 == raw.crc32
}

/// Decodes an optional borrowed buffer.
fn decode_opt(src: &Option<crate::WideString>) -> (r: Option<String>)
    ensures
        match (r, *src) {
            (Some(s), Some(w)) => s@ == decode_seq(prefix_to_nul(w@)),
            (None, None) => true,
            _ => false,
        },
{
    match src {
        Some(w) => Some(w.to_string_lossy()),
        None => None,
    }
}

impl PluginPanelItem {
    /// Copies one flat item a host pointer leads to into an owned rich item.
    pub fn from_raw(raw: &ffi::PluginPanelItem) -> (r: PluginPanelItem)
        ensures
            item_decodes(r, raw@),
    {
        PluginPanelItem {
            creation_time: raw.creation_time,
            last_access_time: raw.last_access_time,
            last_write_time: raw.last_write_time,
            change_time: raw.change_time,
            file_size: raw.file_size,
            allocation_size: raw.allocation_size,
            file_name: raw.file_name.to_string_lossy(),
            alternate_file_name: decode_opt(&raw.alternate_file_name),
            description: decode_opt(&raw.description),
            owner: decode_opt(&raw.owner),
            flags: raw.flags,
            file_attributes: raw.file_attributes & FILE_ATTRIBUTES_MASK,
            number_of_links: raw.number_of_links,
            crc32: raw.crc32,
        }
    }
}

/// Copies a whole flat item array into owned rich items, index by index.
pub fn decode_items(raw: &Vec<ffi::PluginPanelItem>) -> (r: Vec<PluginPanelItem>)
    ensures
        r@.len() == raw@.len(),
        forall|i: int| 0 <= i < raw@.len() ==> item_decodes(#[trigger] r@[i], raw@[i]@),
{
    let mut items: Vec<PluginPanelItem> = Vec::new();
    let n = raw.len();
    let mut i: usize = 0;
    while i < n
        invariant
            n == raw@.len(),
            i <= n,
            items@.len() == i as int,
            forall|j: int| 0 <= j < i as int ==> item_decodes(#[trigger] items@[j], raw@[j]@),
        decreases n - i,
    {
        items.push(PluginPanelItem::from_raw(&raw[i]));
        i = i + 1;
    }
    items
}

/// The marshalled listing a plugin hands back from a find-data request: the
/// rich items flattened into the contiguous array the host iterates.
pub struct PluginPanelItems {
    panel_items: crate::common::ffi::Array<wrapper::PluginPanelItem, ffi::PluginPanelItem>,
}

impl PluginPanelItems {
    /// The flat records, as the host will see them.
    pub closed spec fn raw(&self) -> Seq<ffi::PluginPanelItem> {
        self.panel_items.raw()
    }

    /// The marshalled records.
    pub closed spec fn rich(&self) -> Seq<wrapper::PluginPanelItem> {
        self.panel_items.rich()
    }

    pub open spec fn wf(&self) -> bool {
        &&& self.raw().len() == self.rich().len()
        &&& forall|i: int|
            0 <= i < self.rich().len() ==> self.raw()[i]@ == #[trigger] self.rich()[i].spec_inner()
    }

    /// Builds the host-visible array from rich items: every text becomes an
    /// owned buffer, and rich and flat records share one lifetime.
    pub fn from(src: Vec<PluginPanelItem>) -> (r: PluginPanelItems)
        ensures
            r.wf(),
            r.raw().len() == src@.len(),
            forall|i: int|
                0 <= i < src@.len() ==> wrapper::item_matches(#[trigger] r.raw()[i]@, src@[i]),
    {
        let mut items: Vec<wrapper::PluginPanelItem> = Vec::new();
        let n = src.len();
        let mut i: usize = 0;
        while i < n
            invariant
                n == src@.len(),
                i <= n,
                items@.len() == i as int,
                forall|j: int|
                    0 <= j < i as int ==> wrapper::item_matches(
                        (#[trigger] items@[j]).spec_inner(),
                        src@[j],
                    ),
            decreases n - i,
        {
            items.push(wrapper::PluginPanelItem::from_rich(&src[i]));
            i = i + 1;
        }
        let panel_items = crate::common::ffi::Array::from(items);
        proof {
            assert forall|k: int| 0 <= k < src@.len() implies wrapper::item_matches(
                #[trigger] panel_items.raw()[k]@,
                src@[k],
            ) by {
                assert(panel_items.raw()[k]@ == panel_items.rich()[k].spec_inner());
                assert(panel_items.rich()[k] == items@[k]);
            }
        }
        PluginPanelItems { panel_items }
    }

    /// The two values the host ABI needs to iterate the listing: the flat
    /// records and their number.
    pub fn as_ptr(&self) -> (r: &Vec<ffi::PluginPanelItem>)
        ensures
            r@ == self.raw(),
    {
        self.panel_items.as_ptr()
    }

    pub fn len(&self) -> (r: usize)
        ensures
            r == self.rich().len(),
    {
        self.panel_items.len()
    }
}

/// The panel-information record a plugin fills for a handle.
pub struct OpenPanelInfo {
    pub flags: u64,
    pub host_file: Option<String>,
    pub cur_dir: String,
    pub format: Option<String>,
    pub panel_title: String,
    pub info_lines: Vec<InfoPanelLine>,
    pub descr_files: Option<Vec<String>>,
    pub start_panel_mode: usize,
    pub start_sort_mode: ffi::OPENPANELINFO_SORTMODES,
    pub start_sort_order: OPENPANELINFO_SORTORDERS,
    pub shortcut_data: Option<String>,
    pub free_size: u64,
}

/// The direction a panel's initial sort runs in.
#[allow(non_camel_case_types)]
#[derive(Clone, Copy, PartialEq, Eq, Structural, Debug)]
pub enum OPENPANELINFO_SORTORDERS {
    ASC,
    DESC,
}

impl OPENPANELINFO_SORTORDERS {
    /// The code the ABI writes for this direction.
    pub open spec fn value_spec(&self) -> isize {
        match self {
            OPENPANELINFO_SORTORDERS::ASC => 0isize,
            OPENPANELINFO_SORTORDERS::DESC => 1isize,
        }
    }

    pub fn value(&self) -> (r: isize)
        ensures
            r == self.value_spec(),
    {
        match self {
            OPENPANELINFO_SORTORDERS::ASC => 0isize,
            OPENPANELINFO_SORTORDERS::DESC => 1isize,
        }
    }
}

/// A find-data request as the plugin sees it.
pub struct GetFindDataInfo {
    pub handle: HANDLE,
    pub op_mode: u64,
}

/// An analyse request as the plugin sees it.
pub struct AnalyseInfo {
    pub file_name: String,
    pub buffer: Vec<u8>,
    pub op_mode: u64,
}

/// The closing notice for an analyse handle.
pub struct CloseAnalyseInfo {
    pub handle: HANDLE,
}

/// A comparison request as the plugin sees it.
pub struct CompareInfo {
    pub panel: HANDLE,
    pub item1: PluginPanelItem,
    pub item2: PluginPanelItem,
    pub op_mode: ffi::OPENPANELINFO_SORTMODES,
}

/// A deletion request as the plugin sees it.
pub struct DeleteFilesInfo {
    pub panel: HANDLE,
    pub panel_items: Vec<PluginPanelItem>,
    pub op_mode: u64,
}

/// A get-files request as the plugin sees it; the plugin may update the
/// items' flags in place.
pub struct GetFilesInfo {
    pub panel: HANDLE,
    pub panel_items: Vec<PluginPanelItem>,
    pub items_number: usize,
    pub move_file: bool,
    pub dest_path: String,
    pub op_mode: u64,
}

/// A directory-creation request as the plugin sees it; the plugin may
/// rewrite the name, and the host reads the rewritten name back.
pub struct MakeDirectoryInfo {
    pub panel: HANDLE,
    pub name: String,
    pub op_mode: u64,
}

/// A panel event, decoded from the host's event code and parameter.
pub enum PanelEvent {
    ChangeViewMode(String),
    Redraw,
    Idle,
    Close,
    Break(u32),
    Command(String),
    GotFocus,
    KillFocus,
    ChangeSortParams,
}

/// A panel-event notice as the plugin sees it.
pub struct ProcessPanelEventInfo {
    pub event: PanelEvent,
    pub h_panel: HANDLE,
}

/// A host-file request as the plugin sees it.
pub struct ProcessHostFileInfo {
    pub h_panel: HANDLE,
    pub panel_item: Vec<PluginPanelItem>,
    pub op_mode: u64,
}

/// A keyboard-input notice as the plugin sees it.
pub struct ProcessPanelInputInfo {
    pub h_panel: HANDLE,
    pub record: ffi::INPUT_RECORD,
}

/// A put-files request as the plugin sees it.
pub struct PutFilesInfo {
    pub panel: HANDLE,
    pub panel_item: Vec<PluginPanelItem>,
    pub move_file: bool,
    pub src_path: String,
    pub op_mode: u64,
}

/// A find-list installation as the plugin sees it.
pub struct SetFindListInfo {
    pub h_panel: HANDLE,
    pub panel_item: Vec<PluginPanelItem>,
}

/// Which panel a control call addresses.
pub enum Panel {
    Active,
    Passive,
    Handle(HANDLE),
    NoPanel,
}

impl Panel {
    /// The handle value the ABI writes for this designation.
    pub open spec fn handle_spec(&self) -> isize {
        match self {
            Panel::Active => crate::ffi::PANEL_ACTIVE,
            Panel::Passive => crate::ffi::PANEL_PASSIVE,
            Panel::Handle(h) => *h as isize,
            Panel::NoPanel => crate::ffi::PANEL_NONE,
        }
    }

    pub fn into_handle(self) -> (r: isize)
        ensures
            r == self.handle_spec(),
    {
        match self {
            Panel::Active => crate::ffi::PANEL_ACTIVE,
            Panel::Passive => crate::ffi::PANEL_PASSIVE,
            Panel::Handle(h) => h as isize,
            Panel::NoPanel => crate::ffi::PANEL_NONE,
        }
    }
}

/// Where to put the cursor after a panel redraw.
pub struct PanelRedrawInfo {
    pub current_item: usize,
    pub top_panel_item: usize,
}

/// A panel's state as the host reports it, decoded.
pub struct PanelInfo {
    pub plugin_handle: HANDLE,
    pub owner_guid: ffi::GUID,
    pub flags: u64,
    pub items_number: usize,
    pub selected_items_number: usize,
    pub panel_rect: ffi::RECT,
    pub current_item: usize,
    pub top_panel_item: usize,
    pub view_mode: isize,
    pub panel_type: ffi::PANELINFOTYPE,
    pub sort_mode: ffi::OPENPANELINFO_SORTMODES,
}

impl PanelInfo {
    /// Copies the record the host filled, field for field.
    pub fn from_raw(raw: &ffi::PanelInfo) -> (r: PanelInfo)
        ensures
            r.plugin_handle == raw.plugin_handle,
            r.owner_guid == raw.owner_guid,
            r.flags == raw.flags,
            r.items_number == raw.items_number,
            r.selected_items_number == raw.selected_items_number,
            r.panel_rect == raw.panel_rect,
            r.current_item == raw.current_item,
            r.top_panel_item == raw.top_panel_item,
            r.view_mode == raw.view_mode,
            r.panel_type == raw.panel_type,
            r.sort_mode == raw.sort_mode,
    {
        PanelInfo {
            plugin_handle: raw.plugin_handle,
            owner_guid: raw.owner_guid,
            flags: raw.flags,
            items_number: raw.items_number,
            selected_items_number: raw.selected_items_number,
            panel_rect: raw.panel_rect,
            current_item: raw.current_item,
            top_panel_item: raw.top_panel_item,
            view_mode: raw.view_mode,
            panel_type: raw.panel_type,
            sort_mode: raw.sort_mode,
        }
    }
}

/// A panel's directory as the host reports it, decoded.
pub struct FarPanelDirectory {
    pub name: String,
    pub plugin_id: ffi::GUID,
    pub file: String,
}

impl FarPanelDirectory {
    /// Decodes the record the host filled.
    pub fn from_raw(raw: &ffi::FarPanelDirectoryOut) -> (r: FarPanelDirectory)
        ensures
            r.name@ == decode_seq(prefix_to_nul(raw.name@)),
            r.plugin_id == raw.plugin_id,
            r.file@ == decode_seq(prefix_to_nul(raw.file@)),
    {
        FarPanelDirectory {
            name: decode_borrowed(&raw.name),
            plugin_id: raw.plugin_id,
            file: decode_borrowed(&raw.file),
        }
    }
}

/// The panel capabilities a plugin may implement. The host calls these
/// through the exported entry points; a method a plugin leaves on its
/// default declines the operation, as the ABI expects.
pub trait ExportFunctions {
    fn analyse(&mut self, info: AnalyseInfo) -> HANDLE {
        0
    }

    fn close_analyse(&mut self, _info: CloseAnalyseInfo) {
    }

    fn get_open_panel_info(&mut self, handle: HANDLE) -> &OpenPanelInfo;

    fn close_panel(&mut self, _handle: HANDLE) {
    }

    fn get_find_data(&mut self, info: GetFindDataInfo) -> Result<&PluginPanelItems, Error>;

    fn compare(&mut self, _info: CompareInfo) -> Option<Ordering> {
        None
    }

    fn delete_files(&mut self, info: DeleteFilesInfo) -> Result<(), Error>;

    fn free_find_data(&mut self, handle: HANDLE);

    fn set_directory(&mut self, handle: HANDLE, path: &String) -> Result<(), Error>;

    fn get_files(&mut self, _info: &mut GetFilesInfo) -> Result<ReturnCode, Error> {
        Ok(ReturnCode::UserCancel)
    }

    fn make_directory(&mut self, _info: &mut MakeDirectoryInfo) -> Result<ReturnCode, Error> {
        Ok(ReturnCode::UserCancel)
    }

    fn process_panel_event(&mut self, _info: ProcessPanelEventInfo) -> bool {
        false
    }

    fn process_host_file(&mut self, _info: ProcessHostFileInfo) -> bool {
        false
    }

    fn process_panel_input(&mut self, _info: ProcessPanelInputInfo) -> bool {
        false
    }

    fn put_files(&mut self, _info: PutFilesInfo) -> Result<PutFilesReturnCode, Error> {
        Ok(PutFilesReturnCode::UserCancel)
    }

    fn set_find_list(&mut self, _info: SetFindListInfo) -> bool {
        false
    }
}

/// Turns a plugin's find-data outcome into the values the shim writes back:
/// the ABI's truth and the listing's length on success, the failure value
/// and an empty length on any failure.
pub fn find_data_result(outcome: Result<usize, Error>) -> (r: (isize, usize))
    ensures
        outcome matches Ok(n) ==> r == (ffi::TRUE, n),
        outcome is Err ==> r == (ffi::FALSE, 0usize),
{
    match outcome {
        Ok(n) => (ffi::TRUE, n),
        Err(_) => (ffi::FALSE, 0),
    }
}

/// The find-data entry point: validates the handshake, asks the plugin for
/// the listing, and reports the listing's length. A failed handshake or a
/// failing plugin yields the ABI's failure value and no listing.
pub fn get_find_data<P: ExportFunctions>(plugin: &mut P, info: &ffi::GetFindDataInfo) -> (r: (
    isize,
    usize,
))
    ensures
        info.spec_struct_size() != ffi::GET_FIND_DATA_INFO_SIZE ==> r == (ffi::FALSE, 0usize),
        r.0 == ffi::TRUE || r.0 == ffi::FALSE,
        r.0 == ffi::FALSE ==> r.1 == 0,
{
    if info.struct_size() != ffi::GET_FIND_DATA_INFO_SIZE {
        return (ffi::FALSE, 0);
    }
    let request = GetFindDataInfo { handle: info.h_panel(), op_mode: info.op_mode() };
    let outcome = match plugin.get_find_data(request) {
        Ok(items) => Ok(items.len()),
        Err(e) => Err(e),
    };
    find_data_result(outcome)
}

/// The free-find-data entry point: after the handshake, only forwards the
/// handle to the plugin, which owns the listing; nothing beyond the
/// handshake can fail.
pub fn free_find_data<P: ExportFunctions>(plugin: &mut P, info: &ffi::FreeFindDataInfo) -> (r:
    isize)
    ensures
        info.spec_struct_size() != ffi::FREE_FIND_DATA_INFO_SIZE ==> r == ffi::FALSE,
        info.spec_struct_size() == ffi::FREE_FIND_DATA_INFO_SIZE ==> r == ffi::TRUE,
{
    if info.struct_size() != ffi::FREE_FIND_DATA_INFO_SIZE {
        return ffi::FALSE;
    }
    plugin.free_find_data(info.h_panel());
    ffi::TRUE
}

/// The open-panel-info entry point: validates the handshake, asks the plugin
/// for the record, and installs its marshalled form in the per-handle store,
/// where the buffers behind the returned pointers stay alive. A failed
/// handshake leaves the store untouched.
pub fn get_open_panel_info<P: ExportFunctions>(
    plugin: &mut P,
    context: &mut ctx::Context,
    info: &ffi::OpenPanelInfoRequest,
) -> (r: isize)
    requires
        old(context).wf(),
        old(context).stamp_bound() < u64::MAX,
    ensures
        final(context).wf(),
        info.spec_struct_size() != ffi::OPEN_PANEL_INFO_SIZE ==> r == ffi::FALSE && *final(context)
            == *old(context),
        info.spec_struct_size() == ffi::OPEN_PANEL_INFO_SIZE ==> r == ffi::TRUE && final(context).panels().dom().contains(info.spec_h_panel()),
{
    if info.struct_size() != ffi::OPEN_PANEL_INFO_SIZE {
        return ffi::FALSE;
    }
    let h = info.h_panel();
    let answer = plugin.get_open_panel_info(h);
    context.install_open_panel_info(h, answer);
    ffi::TRUE
}

/// The panel-closing entry point: after the handshake, frees the handle's
/// stored answer and tells the plugin. A failed handshake changes nothing.
pub fn close_panel<P: ExportFunctions>(
    plugin: &mut P,
    context: &mut ctx::Context,
    info: &ffi::ClosePanelInfo,
) -> (r: isize)
    requires
        old(context).wf(),
    ensures
        final(context).wf(),
        info.spec_struct_size() != ffi::CLOSE_PANEL_INFO_SIZE ==> r == ffi::FALSE && *final(context)
            == *old(context),
        info.spec_struct_size() == ffi::CLOSE_PANEL_INFO_SIZE ==> r == ffi::TRUE && final(context).panels() == old(context).panels().remove(info.spec_h_panel()),
{
    if info.struct_size() != ffi::CLOSE_PANEL_INFO_SIZE {
        return ffi::FALSE;
    }
    let h = info.h_panel();
    context.remove_panel(h);
    plugin.close_panel(h);
    ffi::TRUE
}

/// Turns a plugin's directory-change outcome into the shim's return value
/// and, on success, records the new directory in the handle's answer.
pub fn apply_set_directory(
    context: &mut ctx::Context,
    h: HANDLE,
    path: &String,
    outcome: Result<(), Error>,
) -> (r: isize)
    requires
        old(context).wf(),
        old(context).stamp_bound() < u64::MAX,
    ensures
        final(context).wf(),
        outcome is Ok ==> r == ffi::TRUE && final(context).panels().dom().contains(h) && final(context).panels()[h].open_panel_info.cur_dir@ == wide_of(path@),
        outcome is Err ==> r == ffi::FALSE && *final(context) == *old(context),
{
    match outcome {
        Ok(_) => {
            context.set_current_directory(h, path.as_str());
            ffi::TRUE
        },
        Err(_) => ffi::FALSE,
    }
}

/// The directory-change entry point: validates the handshake, decodes the
/// host's path buffer, lets the plugin decide, and on success records the
/// new directory for the handle.
pub fn set_directory<P: ExportFunctions>(
    plugin: &mut P,
    context: &mut ctx::Context,
    info: &ffi::SetDirectoryInfo,
) -> (r: isize)
    requires
        old(context).wf(),
        old(context).stamp_bound() < u64::MAX,
    ensures
        final(context).wf(),
        info.spec_struct_size() != ffi::SET_DIRECTORY_INFO_SIZE ==> r == ffi::FALSE && *final(context) == *old(context),
        r == ffi::TRUE || r == ffi::FALSE,
{
    if info.struct_size() != ffi::SET_DIRECTORY_INFO_SIZE {
        return ffi::FALSE;
    }
    let h = info.h_panel();
    let path = decode_borrowed(info.dir());
    let outcome = plugin.set_directory(h, &path);
    apply_set_directory(context, h, &path, outcome)
}

/// Turns a plugin's deletion outcome into the ABI's truth value.
pub fn delete_files_result(outcome: Result<(), Error>) -> (r: isize)
    ensures
        outcome is Ok ==> r == ffi::TRUE,
        outcome is Err ==> r == ffi::FALSE,
{
    match outcome {
        Ok(_) => ffi::TRUE,
        Err(_) => ffi::FALSE,
    }
}

/// The deletion entry point: validates the handshake, copies the host's
/// items into owned records, and reports the plugin's decision as the ABI's
/// truth value.
pub fn delete_files<P: ExportFunctions>(plugin: &mut P, info: &ffi::DeleteFilesInfo) -> (r: isize)
    ensures
        info.spec_struct_size() != ffi::DELETE_FILES_INFO_SIZE ==> r == ffi::FALSE,
        r == ffi::TRUE || r == ffi::FALSE,
{
    if info.struct_size() != ffi::DELETE_FILES_INFO_SIZE {
        return ffi::FALSE;
    }
    let items = decode_items(info.panel_item());
    let request = DeleteFilesInfo {
        panel: info.h_panel(),
        panel_items: items,
        op_mode: info.op_mode(),
    };
    delete_files_result(plugin.delete_files(request))
}

/// Turns a plugin's directory-creation outcome into the shim's return value.
/// Outside silent mode the (possibly rewritten) name is stored for the
/// handle, so the buffer the host reads back stays alive, and success is
/// reported; in silent mode the plugin's own code is passed through. Any
/// failure reports the ABI's failure value.
pub fn apply_make_directory(
    context: &mut ctx::Context,
    h: HANDLE,
    silent: bool,
    name: &String,
    outcome: Result<ReturnCode, Error>,
) -> (r: isize)
    requires
        old(context).wf(),
        old(context).stamp_bound() < u64::MAX,
    ensures
        final(context).wf(),
        silent ==> (outcome matches Ok(code) ==> r == code.value_spec() && *final(context) == *old(
            context,
        )),
        outcome is Ok && !silent ==> r == 1 && stored_name_matches(*final(context), h, name@),
        outcome is Err && silent ==> r == 0 && *final(context) == *old(context),
        outcome is Err && !silent ==> r == 0 && stored_name_matches(*final(context), h, name@),
        -1 <= r <= 1,
{
    match outcome {
        Ok(code) => {
            if !silent {
                context.set_make_directory_name(h, name.as_str());
                1
            } else {
                code.value()
            }
        },
        Err(_) => {
            if !silent {
                context.set_make_directory_name(h, name.as_str());
            }
            0
        },
    }
}

/// The handle's entry holds the pending directory name, encoded.
pub open spec fn stored_name_matches(c: ctx::Context, h: HANDLE, name: Seq<char>) -> bool {
    &&& c.panels().dom().contains(h)
    &&& c.panels()[h].make_directory_name matches Some(w) && w@ == wide_of(name)
}

/// The handle's entry holds some pending directory name.
pub open spec fn has_pending_name(c: ctx::Context, h: HANDLE) -> bool {
    &&& c.panels().dom().contains(h)
    &&& c.panels()[h].make_directory_name is Some
}

/// The directory-creation entry point: validates the handshake, decodes the
/// host's proposed name, lets the plugin decide (and possibly rewrite the
/// name), and stores the name the host will read back. Outside silent mode
/// the name is stored whatever the plugin decided, so the host's read-back
/// pointer is always backed.
pub fn make_directory<P: ExportFunctions>(
    plugin: &mut P,
    context: &mut ctx::Context,
    info: &ffi::MakeDirectoryInfo,
) -> (r: isize)
    requires
        old(context).wf(),
        old(context).stamp_bound() < u64::MAX,
    ensures
        final(context).wf(),
        info.spec_struct_size() != ffi::MAKE_DIRECTORY_INFO_SIZE ==> r == 0 && *final(context)
            == *old(context),
        info.spec_struct_size() == ffi::MAKE_DIRECTORY_INFO_SIZE && info.spec_op_mode()
            & OPM_SILENT == 0 ==> has_pending_name(*final(context), info.spec_h_panel()),
        -1 <= r <= 1,
{
    if info.struct_size() != ffi::MAKE_DIRECTORY_INFO_SIZE {
        return 0;
    }
    let h = info.h_panel();
    let op_mode = info.op_mode();
    let silent = op_mode & OPM_SILENT != 0;
    let mut dir_info = MakeDirectoryInfo {
        panel: h,
        name: decode_borrowed(info.name()),
        op_mode,
    };
    let outcome = plugin.make_directory(&mut dir_info);
    apply_make_directory(context, h, silent, &dir_info.name, outcome)
}

/// Decodes the host's event code and parameter into a panel event: the
/// inverse of the ABI's event table, with the texts read out of the
/// parameter buffer, and nothing for a code the ABI does not define.
pub fn panel_event_of(event: u32, param_text: &Vec<u16>, param_value: u32) -> (r: Option<
    PanelEvent,
>)
    ensures
        event == 0 ==> (r matches Some(e) && (e matches PanelEvent::ChangeViewMode(s) && s@
            == decode_seq(prefix_to_nul(param_text@)))),
        event == 1 ==> r == Some(PanelEvent::Redraw),
        event == 2 ==> r == Some(PanelEvent::Idle),
        event == 3 ==> r == Some(PanelEvent::Close),
        event == 4 ==> (r matches Some(e) && e matches PanelEvent::Break(v) && v == param_value),
        event == 5 ==> (r matches Some(e) && (e matches PanelEvent::Command(s) && s@ == decode_seq(
            prefix_to_nul(param_text@),
        ))),
        event == 6 ==> r == Some(PanelEvent::GotFocus),
        event == 7 ==> r == Some(PanelEvent::KillFocus),
        event == 8 ==> r == Some(PanelEvent::ChangeSortParams),
        event > 8 ==> r is None,
{
    if event == 0 {
        Some(PanelEvent::ChangeViewMode(decode_borrowed(param_text)))
    } else if event == 1 {
        Some(PanelEvent::Redraw)
    } else if event == 2 {
        Some(PanelEvent::Idle)
    } else if event == 3 {
        Some(PanelEvent::Close)
    } else if event == 4 {
        Some(PanelEvent::Break(param_value))
    } else if event == 5 {
        Some(PanelEvent::Command(decode_borrowed(param_text)))
    } else if event == 6 {
        Some(PanelEvent::GotFocus)
    } else if event == 7 {
        Some(PanelEvent::KillFocus)
    } else if event == 8 {
        Some(PanelEvent::ChangeSortParams)
    } else {
        None
    }
}

/// Reports whether the plugin handled something, as the ABI's truth value.
pub fn handled_result(handled: bool) -> (r: isize)
    ensures
        handled ==> r == ffi::TRUE,
        !handled ==> r == ffi::FALSE,
{
    if handled {
        ffi::TRUE
    } else {
        ffi::FALSE
    }
}

/// The panel-event entry point: validates the handshake, decodes the event,
/// and reports whether the plugin handled it. An event code outside the
/// ABI's table is not handed to the plugin and reported unhandled.
pub fn process_panel_event<P: ExportFunctions>(
    plugin: &mut P,
    info: &ffi::ProcessPanelEventInfo,
) -> (r: isize)
    ensures
        info.spec_struct_size() != ffi::PROCESS_PANEL_EVENT_INFO_SIZE ==> r == ffi::FALSE,
        info.spec_struct_size() == ffi::PROCESS_PANEL_EVENT_INFO_SIZE && info.spec_event() > 8
            ==> r == ffi::FALSE,
        r == ffi::TRUE || r == ffi::FALSE,
{
    if info.struct_size() != ffi::PROCESS_PANEL_EVENT_INFO_SIZE {
        return ffi::FALSE;
    }
    let event = panel_event_of(info.event(), info.param_text(), info.param_value());
    match event {
        Some(event) => {
            let request = ProcessPanelEventInfo { event, h_panel: info.h_panel() };
            handled_result(plugin.process_panel_event(request))
        },
        None => ffi::FALSE,
    }
}

/// Turns a plugin's put-files outcome into the code the shim returns.
pub fn put_files_result(outcome: Result<PutFilesReturnCode, Error>) -> (r: isize)
    ensures
        outcome matches Ok(code) ==> r == code.value_spec(),
        outcome is Err ==> r == 0,
        -1 <= r <= 2,
{
    match outcome {
        Ok(code) => code.value(),
        Err(_) => 0,
    }
}

/// The put-files entry point: validates the handshake, copies the host's
/// items and source path into owned records, and reports the plugin's code.
pub fn put_files<P: ExportFunctions>(plugin: &mut P, info: &ffi::PutFilesInfo) -> (r: isize)
    ensures
        info.spec_struct_size() != ffi::PUT_FILES_INFO_SIZE ==> r == 0,
        -1 <= r <= 2,
{
    if info.struct_size() != ffi::PUT_FILES_INFO_SIZE {
        return 0;
    }
    let items = decode_items(info.panel_item());
    let request = PutFilesInfo {
        panel: info.h_panel(),
        panel_item: items,
        move_file: info.move_file() != 0,
        src_path: decode_borrowed(info.src_path()),
        op_mode: info.op_mode(),
    };
    put_files_result(plugin.put_files(request))
}

/// The find-list entry point: validates the handshake, copies the items,
/// and reports whether the plugin accepted the listing.
pub fn set_find_list<P: ExportFunctions>(plugin: &mut P, info: &ffi::SetFindListInfo) -> (r: isize)
    ensures
        info.spec_struct_size() != ffi::SET_FIND_LIST_INFO_SIZE ==> r == ffi::FALSE,
        r == ffi::TRUE || r == ffi::FALSE,
{
    if info.struct_size() != ffi::SET_FIND_LIST_INFO_SIZE {
        return ffi::FALSE;
    }
    let items = decode_items(info.panel_item());
    let request = SetFindListInfo { h_panel: info.h_panel(), panel_item: items };
    handled_result(plugin.set_find_list(request))
}

/// The host-file entry point: validates the handshake, copies the items,
/// and reports whether the plugin handled them.
pub fn process_host_file<P: ExportFunctions>(plugin: &mut P, info: &ffi::ProcessHostFileInfo) -> (
    r: isize
)
    ensures
        info.spec_struct_size() != ffi::PROCESS_HOST_FILE_INFO_SIZE ==> r == ffi::FALSE,
        r == ffi::TRUE || r == ffi::FALSE,
{
    if info.struct_size() != ffi::PROCESS_HOST_FILE_INFO_SIZE {
        return ffi::FALSE;
    }
    let items = decode_items(info.panel_item());
    let request = ProcessHostFileInfo {
        h_panel: info.h_panel(),
        panel_item: items,
        op_mode: info.op_mode(),
    };
    handled_result(plugin.process_host_file(request))
}

/// The keyboard-input entry point: validates the handshake and reports
/// whether the plugin consumed the input record.
pub fn process_panel_input<P: ExportFunctions>(
    plugin: &mut P,
    info: &ffi::ProcessPanelInputInfo,
) -> (r: isize)
    ensures
        info.spec_struct_size() != ffi::PROCESS_PANEL_INPUT_INFO_SIZE ==> r == ffi::FALSE,
        r == ffi::TRUE || r == ffi::FALSE,
{
    if info.struct_size() != ffi::PROCESS_PANEL_INPUT_INFO_SIZE {
        return ffi::FALSE;
    }
    let request = ProcessPanelInputInfo { h_panel: info.h_panel(), record: info.rec() };
    handled_result(plugin.process_panel_input(request))
}

/// Turns a plugin's ordering into the code the host expects: below, equal,
/// above, or the sentinel for "use the host's own order".
pub fn compare_result(outcome: Option<Ordering>) -> (r: isize)
    ensures
        outcome matches Some(o) ==> r == match o {
            Ordering::Less => -1isize,
            Ordering::Equal => 0isize,
            Ordering::Greater => 1isize,
        },
        outcome is None ==> r == -2,
{
    match outcome {
        Some(Ordering::Less) => -1,
        Some(Ordering::Equal) => 0,
        Some(Ordering::Greater) => 1,
        None => -2,
    }
}

/// The comparison entry point: validates the handshake, copies both items,
/// and reports the plugin's ordering. A failed handshake defers to the
/// host's own order.
pub fn compare<P: ExportFunctions>(plugin: &mut P, info: &ffi::CompareInfo) -> (r: isize)
    ensures
        info.spec_struct_size() != ffi::COMPARE_INFO_SIZE ==> r == -2,
        -2 <= r <= 1,
{
    if info.struct_size() != ffi::COMPARE_INFO_SIZE {
        return -2;
    }
    let request = CompareInfo {
        panel: info.h_panel(),
        item1: PluginPanelItem::from_raw(info.item1()),
        item2: PluginPanelItem::from_raw(info.item2()),
        op_mode: info.mode(),
    };
    compare_result(plugin.compare(request))
}

/// Copies a byte buffer the host lent for the duration of a call.
fn copy_bytes(src: &Vec<u8>) -> (r: Vec<u8>)
    ensures
        r@ == src@,
{
    let mut out: Vec<u8> = Vec::new();
    let n = src.len();
    let mut i: usize = 0;
    while i < n
        invariant
            n == src@.len(),
            i <= n,
            out@ == src@.subrange(0, i as int),
        decreases n - i,
    {
        out.push(src[i]);
        assert(out@ =~= src@.subrange(0, i as int + 1));
        i = i + 1;
    }
    assert(out@ =~= src@);
    out
}

/// The analyse entry point: validates the handshake, copies the file name
/// and the leading bytes, and returns the handle the plugin assigns, the
/// null handle standing for "not mine".
pub fn analyse<P: ExportFunctions>(plugin: &mut P, info: &ffi::AnalyseInfo) -> (r: HANDLE)
    ensures
        info.spec_struct_size() != ffi::ANALYSE_INFO_SIZE ==> r == 0,
{
    if info.struct_size() != ffi::ANALYSE_INFO_SIZE {
        return 0;
    }
    let request = AnalyseInfo {
        file_name: decode_borrowed(info.file_name()),
        buffer: copy_bytes(info.buffer()),
        op_mode: info.op_mode(),
    };
    plugin.analyse(request)
}

/// The analyse-closing entry point: validates the handshake and forwards
/// the handle to the plugin, which owns whatever it attached to it.
pub fn close_analyse<P: ExportFunctions>(plugin: &mut P, info: &ffi::CloseAnalyseInfo) -> (r:
    isize)
    ensures
        info.spec_struct_size() != ffi::CLOSE_ANALYSE_INFO_SIZE ==> r == ffi::FALSE,
        info.spec_struct_size() == ffi::CLOSE_ANALYSE_INFO_SIZE ==> r == ffi::TRUE,
{
    if info.struct_size() != ffi::CLOSE_ANALYSE_INFO_SIZE {
        return ffi::FALSE;
    }
    plugin.close_analyse(CloseAnalyseInfo { handle: info.handle() });
    ffi::TRUE
}

/// Reads the flags the shim writes back into the host's array: one word per
/// host item, the plugin's updated flags where its record at that index
/// still exists, and the host's own flags unchanged where the plugin
/// dropped the record. Nothing else of the host's array is touched.
pub fn write_back_flags(raw: &Vec<ffi::PluginPanelItem>, items: &Vec<PluginPanelItem>) -> (r: Vec<
    u64,
>)
    ensures
        r@.len() == raw@.len(),
        forall|i: int|
            0 <= i < raw@.len() && i < items@.len() ==> r@[i] == (#[trigger] items@[i]).flags,
        forall|i: int|
            items@.len() <= i < raw@.len() ==> #[trigger] r@[i] == raw@[i]@.flags,
{
    let mut flags: Vec<u64> = Vec::new();
    let n = raw.len();
    let mut i: usize = 0;
    while i < n
        invariant
            n == raw@.len(),
            i <= n,
            flags@.len() == i as int,
            forall|j: int|
                0 <= j < i as int && j < items@.len() ==> flags@[j] == (
                #[trigger] items@[j]).flags,
            forall|j: int| items@.len() <= j < i as int ==> #[trigger] flags@[j] == raw@[j]@.flags,
        decreases n - i,
    {
        if i < items.len() {
            flags.push(items[i].flags);
        } else {
            flags.push(raw[i].flags);
        }
        i = i + 1;
    }
    flags
}

/// The get-files entry point: validates the handshake, copies the items and
/// destination path, lets the plugin copy files out, and reports its code
/// together with one flag word per host item for the shim to write back.
/// Any failure reports the failure value and leaves no flags to write back,
/// so the host's array stays untouched.
pub fn get_files<P: ExportFunctions>(plugin: &mut P, info: &ffi::GetFilesInfo) -> (r: (
    isize,
    Vec<u64>,
))
    ensures
        info.spec_struct_size() != ffi::GET_FILES_INFO_SIZE ==> r.0 == 0 && r.1@.len() == 0,
        r.0 == 0 ==> r.1@.len() == 0,
        r.0 != 0 ==> r.1@.len() == info.spec_panel_item().len(),
        -1 <= r.0 <= 1,
{
    if info.struct_size() != ffi::GET_FILES_INFO_SIZE {
        return (0, Vec::new());
    }
    let items = decode_items(info.panel_item());
    let mut request = GetFilesInfo {
        panel: info.h_panel(),
        panel_items: items,
        items_number: info.panel_item().len(),
        move_file: info.move_file() != 0,
        dest_path: decode_borrowed(info.dest_path()),
        op_mode: info.op_mode(),
    };
    match plugin.get_files(&mut request) {
        Ok(code) => {
            let flags = write_back_flags(info.panel_item(), &request.panel_items);
            (code.value(), flags)
        },
        Err(_) => (0, Vec::new()),
    }
}

} // verus!
