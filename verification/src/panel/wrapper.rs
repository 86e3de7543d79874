//! The marshalled panel records: rich records flattened into host-layout
//! records whose buffer fields the owning wrapper keeps alive.

use crate::common::ffi::{Array, AsInner};
use crate::common::string::{duplicate_opt, wide_of, WideString, WideStringArray};
use crate::ffi;
use vstd::prelude::*;

verus! {

/// An information-panel line held together with its flat form.
pub struct InfoPanelLine {
    pub inner: ffi::InfoPanelLine,
}

impl AsInner<ffi::InfoPanelLine> for InfoPanelLine {
    open spec fn spec_inner(&self) -> ffi::InfoPanelLineView {
        self.inner@
    }

    fn as_inner(&self) -> (r: ffi::InfoPanelLine)
        ensures
            r@ == self.spec_inner(),
    {
        ffi::InfoPanelLine {
            text: self.inner.text.duplicate(),
            data: self.inner.data.duplicate(),
            flags: self.inner.flags,
        }
    }
}

/// A flat line carries the encodings of the rich line's texts and its flags.
pub open spec fn line_matches(raw: ffi::InfoPanelLineView, rich: crate::panel::InfoPanelLine) -> bool {
    &&& raw.text == wide_of(rich.text@)
    &&& raw.data == wide_of(rich.data@)
    &&& raw.flags == rich.flags
}

impl InfoPanelLine {
    /// Encodes one rich line into its flat form.
    pub fn from_rich(src: &crate::panel::InfoPanelLine) -> (r: InfoPanelLine)
        ensures
            line_matches(r.spec_inner(), *src),
    {
        InfoPanelLine {
            inner: ffi::InfoPanelLine {
                text: WideString::from_str(src.text.as_str()),
                data: WideString::from_str(src.data.as_str()),
                flags: src.flags,
            },
        }
    }
}

/// A panel item held together with its flat form.
pub struct PluginPanelItem {
    pub inner: ffi::PluginPanelItem,
}

impl AsInner<ffi::PluginPanelItem> for PluginPanelItem {
    open spec fn spec_inner(&self) -> ffi::PluginPanelItemView {
        self.inner@
    }

    fn as_inner(&self) -> (r: ffi::PluginPanelItem)
        ensures
            r@ == self.spec_inner(),
    {
        ffi::PluginPanelItem {
            creation_time: self.inner.creation_time,
            last_access_time: self.inner.last_access_time,
            last_write_time: self.inner.last_write_time,
            change_time: self.inner.change_time,
            file_size: self.inner.file_size,
            allocation_size: self.inner.allocation_size,
            file_name: self.inner.file_name.duplicate(),
            alternate_file_name: duplicate_opt(&self.inner.alternate_file_name),
            description: duplicate_opt(&self.inner.description),
            owner: duplicate_opt(&self.inner.owner),
            flags: self.inner.flags,
            file_attributes: self.inner.file_attributes,
            number_of_links: self.inner.number_of_links,
            crc32: self.inner.crc32,
        }
    }
}

impl crate::common::ffi::AsMutInner<ffi::PluginPanelItem> for PluginPanelItem {
    /// Writes a flat record back, as a host call that edits the record in
    /// place hands it over.
    fn set_inner(&mut self, raw: ffi::PluginPanelItem)
        ensures
            final(self).spec_inner() == raw@,
    {
        self.inner = raw;
    }
}

/// An optional flat buffer carries the encoding of the optional rich text,
/// `None` standing for a null pointer.
pub open spec fn opt_matches(raw: Option<Seq<u16>>, rich: Option<String>) -> bool {
    match (raw, rich) {
        (Some(w), Some(s)) => w == wide_of(s@),
        (None, None) => true,
        _ => false,
    }
}

/// A flat panel item carries the rich item's times and sizes, the encodings
/// of its texts, and its attributes. The wrapper writes no item flags, link
/// count or checksum of its own: those fields are zeroed.
pub open spec fn item_matches(raw: ffi::PluginPanelItemView, rich: crate::panel::PluginPanelItem) -> bool {
    &&& raw.creation_time == rich.creation_time
    &&& raw.last_access_time == rich.last_access_time
    &&& raw.last_write_time == rich.last_write_time
    &&& raw.change_time == rich.change_time
    &&& raw.file_size == rich.file_size
    &&& raw.allocation_size == rich.allocation_size
    &&& raw.file_name == wide_of(rich.file_name@)
    &&& opt_matches(raw.alternate_file_name, rich.alternate_file_name)
    &&& opt_matches(raw.description, rich.description)
    &&& opt_matches(raw.owner, rich.owner)
    &&& raw.flags == 0
    &&& raw.file_attributes == rich.file_attributes
    &&& raw.number_of_links == 0
    &&& raw.crc32 == 0
}

/// Encodes an optional rich text into an optional buffer.
fn encode_opt(src: &Option<String>) -> (r: Option<WideString>)
    ensures
        match (r, *src) {
            (Some(w), Some(s)) => w@ == wide_of(s@),
            (None, None) => true,
            _ => false,
        },
{
    match src {
        Some(s) => Some(WideString::from_str(s.as_str())),
        None => None,
    }
}

impl PluginPanelItem {
    /// Flattens one rich item, materialising every text as an owned buffer.
    pub fn from_rich(src: &crate::panel::PluginPanelItem) -> (r: PluginPanelItem)
        ensures
            item_matches(r.spec_inner(), *src),
    {
        PluginPanelItem {
            inner: ffi::PluginPanelItem {
                creation_time: src.creation_time,
                last_access_time: src.last_access_time,
                last_write_time: src.last_write_time,
                change_time: src.change_time,
                file_size: src.file_size,
                allocation_size: src.allocation_size,
                file_name: WideString::from_str(src.file_name.as_str()),
                alternate_file_name: encode_opt(&src.alternate_file_name),
                description: encode_opt(&src.description),
                owner: encode_opt(&src.owner),
                flags: 0,
                file_attributes: src.file_attributes,
                number_of_links: 0,
                crc32: 0,
            },
        }
    }
}

/// An optional owned buffer matches an optional rich text.
pub open spec fn opt_buf_matches(buf: Option<WideString>, rich: Option<String>) -> bool {
    match (buf, rich) {
        (Some(w), Some(s)) => w@ == wide_of(s@),
        (None, None) => true,
        _ => false,
    }
}

/// The installed, host-visible panel information of one handle: every
/// pointer the host reads is backed by a buffer owned here.
pub struct OpenPanelInfo {
    pub struct_size: usize,
    pub flags: u64,
    pub host_file: Option<WideString>,
    pub cur_dir: WideString,
    pub format: Option<WideString>,
    pub panel_title: WideString,
    pub info_lines: Array<InfoPanelLine, ffi::InfoPanelLine>,
    pub descr_files: Option<WideStringArray>,
    pub start_panel_mode: usize,
    pub start_sort_mode: ffi::OPENPANELINFO_SORTMODES,
    pub start_sort_order: isize,
    pub shortcut_data: Option<WideString>,
    pub free_size: u64,
}

impl OpenPanelInfo {
    /// The answer a fresh entry starts with, before the plugin has filled
    /// anything in.
    pub fn empty() -> (r: OpenPanelInfo)
        ensures
            r.struct_size == 0,
            r.flags == 0,
            r.host_file is None,
            r.cur_dir@ == seq![0u16],
            r.format is None,
            r.panel_title@ == seq![0u16],
            r.info_lines.rich() == Seq::<InfoPanelLine>::empty(),
            r.descr_files is None,
    {
        OpenPanelInfo {
            struct_size: 0,
            flags: 0,
            host_file: None,
            cur_dir: WideString::new(),
            format: None,
            panel_title: WideString::new(),
            info_lines: Array::new(),
            descr_files: None,
            start_panel_mode: 0,
            start_sort_mode: ffi::OPENPANELINFO_SORTMODES::SM_DEFAULT,
            start_sort_order: 0,
            shortcut_data: None,
            free_size: 0,
        }
    }
}

/// An installed answer carries exactly the rich record's data: the declared
/// size, the flags, every text encoded into an owned buffer, the flattened
/// information lines, and the description files each in its own buffer.
pub open spec fn opi_matches(ans: OpenPanelInfo, src: crate::panel::OpenPanelInfo) -> bool {
    &&& ans.struct_size == ffi::OPEN_PANEL_INFO_SIZE
    &&& ans.flags == src.flags
    &&& opt_buf_matches(ans.host_file, src.host_file)
    &&& ans.cur_dir@ == wide_of(src.cur_dir@)
    &&& opt_buf_matches(ans.format, src.format)
    &&& ans.panel_title@ == wide_of(src.panel_title@)
    &&& ans.info_lines.wf()
    &&& ans.info_lines.rich().len() == src.info_lines@.len()
    &&& forall|i: int|
        0 <= i < src.info_lines@.len() ==> line_matches(
            #[trigger] ans.info_lines.raw()[i]@,
            src.info_lines@[i],
        )
    &&& match (ans.descr_files, src.descr_files) {
        (Some(arr), Some(files)) => arr@.len() == files@.len() && (forall|i: int|
            0 <= i < files@.len() ==> arr@[i] == wide_of((#[trigger] files@[i])@)),
        (None, None) => true,
        _ => false,
    }
    &&& ans.start_panel_mode == src.start_panel_mode
    &&& ans.start_sort_mode == src.start_sort_mode
    &&& ans.start_sort_order == src.start_sort_order.value_spec()
    &&& opt_buf_matches(ans.shortcut_data, src.shortcut_data)
    &&& ans.free_size == src.free_size
}

/// Marshals a rich panel-information record into the form the host reads,
/// allocating a fresh buffer behind every pointer field.
pub fn marshal_open_panel_info(src: &crate::panel::OpenPanelInfo) -> (r: OpenPanelInfo)
    ensures
        opi_matches(r, *src),
{
    let mut lines: Vec<InfoPanelLine> = Vec::new();
    let n = src.info_lines.len();
    let mut i: usize = 0;
    while i < n
        invariant
            n == src.info_lines@.len(),
            i <= n,
            lines@.len() == i as int,
            forall|j: int|
                0 <= j < i as int ==> line_matches(
                    (#[trigger] lines@[j]).spec_inner(),
                    src.info_lines@[j],
                ),
        decreases n - i,
    {
        lines.push(InfoPanelLine::from_rich(&src.info_lines[i]));
        i = i + 1;
    }
    let info_lines = Array::from(lines);
    proof {
        assert forall|k: int| 0 <= k < src.info_lines@.len() implies line_matches(
            #[trigger] info_lines.raw()[k]@,
            src.info_lines@[k],
        ) by {
            assert(info_lines.raw()[k]@ == info_lines.rich()[k].spec_inner());
            assert(info_lines.rich()[k] == lines@[k]);
        }
    }
    let descr_files = match &src.descr_files {
        Some(files) => Some(WideStringArray::from_strings(files)),
        None => None,
    };
    OpenPanelInfo {
        struct_size: ffi::OPEN_PANEL_INFO_SIZE,
        flags: src.flags,
        host_file: encode_opt(&src.host_file),
        cur_dir: WideString::from_str(src.cur_dir.as_str()),
        format: encode_opt(&src.format),
        panel_title: WideString::from_str(src.panel_title.as_str()),
        info_lines,
        descr_files,
        start_panel_mode: src.start_panel_mode,
        start_sort_mode: src.start_sort_mode,
        start_sort_order: src.start_sort_order.value(),
        shortcut_data: encode_opt(&src.shortcut_data),
        free_size: src.free_size,
    }
}

} // verus!
