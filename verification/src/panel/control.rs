//! The panel-control calls a plugin makes into the host: simple commands,
//! text reads in the host's two-phase size-then-fill shape, and the decoded
//! column descriptions.

use super::{FarPanelDirectory, Panel, PanelInfo, PanelRedrawInfo};
use crate::common::string::{decode_borrowed, decode_seq, prefix_to_nul, WideString};
use crate::farapi::FarApi;
use crate::ffi;
use crate::Error;
use vstd::prelude::*;

verus! {

/// Whether any panels exist at all (the host may run panel-less).
pub fn check_panels_exist<A: FarApi>(api: &mut A) -> bool {
    let code = api.panel_control(
        crate::ffi::PANEL_NONE,
        ffi::FILE_CONTROL_COMMANDS::FCTL_CHECKPANELSEXIST,
        0,
    );
    host_truth(code)
}

/// Whether the addressed panel is the active one.
pub fn is_active_panel<A: FarApi>(api: &mut A, panel: Panel) -> bool {
    let h_panel = panel.into_handle();
    let code = api.panel_control(h_panel, ffi::FILE_CONTROL_COMMANDS::FCTL_ISACTIVEPANEL, 0);
    host_truth(code)
}

/// Makes the addressed panel the active one.
pub fn set_active_panel<A: FarApi>(api: &mut A, panel: Panel) -> bool {
    let h_panel = panel.into_handle();
    let code = api.panel_control(h_panel, ffi::FILE_CONTROL_COMMANDS::FCTL_SETACTIVEPANEL, 0);
    host_truth(code)
}

/// Closes the addressed panel, optionally changing into a directory.
pub fn close_panel<A: FarApi>(api: &mut A, panel: Panel, path: Option<String>) {
    let h_panel = panel.into_handle();
    let path_ws = match path {
        Some(p) => Some(WideString::from_str(p.as_str())),
        None => None,
    };
    let _ = api.panel_control_text(
        h_panel,
        ffi::FILE_CONTROL_COMMANDS::FCTL_CLOSEPANEL,
        0,
        path_ws.as_ref(),
    );
}

/// Reads a panel-state answer: the host's zero code fails the read, any
/// other code yields the filled record decoded field for field.
pub fn panel_info_result(code: isize, raw: &ffi::PanelInfo) -> (r: Result<PanelInfo, Error>)
    ensures
        code == 0 <==> r is Err,
        code != 0 ==> (r matches Ok(p) && p.items_number == raw.items_number && p.current_item
            == raw.current_item && p.plugin_handle == raw.plugin_handle && p.owner_guid
            == raw.owner_guid && p.flags == raw.flags && p.selected_items_number
            == raw.selected_items_number && p.panel_rect == raw.panel_rect && p.top_panel_item
            == raw.top_panel_item && p.view_mode == raw.view_mode && p.panel_type == raw.panel_type
            && p.sort_mode == raw.sort_mode),
{
    if code == 0 {
        Err(Error::new(0))
    } else {
        Ok(PanelInfo::from_raw(raw))
    }
}

/// Reads a panel's state; fails exactly when the host reports failure.
pub fn get_panel_info<A: FarApi>(api: &mut A, panel: Panel) -> (r: Result<PanelInfo, Error>) {
    let h_panel = panel.into_handle();
    let (code, raw) = api.panel_control_get_panel_info(h_panel);
    panel_info_result(code, &raw)
}

/// Reads one panel text in the host's two-phase shape: first the size, then
/// the filled buffer. Nothing comes back when either phase fails.
fn read_panel_text<A: FarApi>(api: &mut A, h_panel: isize, command: ffi::FILE_CONTROL_COMMANDS) -> (
    r: Option<String>) {
    let chars_count = api.panel_control(h_panel, command, 0);
    if chars_count <= 0 {
        return None;
    }
    let (code, buf) = api.panel_control_read_buf(h_panel, command, chars_count as usize);
    if code == 0 {
        None
    } else {
        Some(decode_borrowed(&buf))
    }
}

/// The host's code read as a truth value.
pub fn host_truth(code: isize) -> (r: bool)
    ensures
        r == (code != 0),
{
    code != 0
}

/// A completed text read, or the failure the caller reports.
pub fn text_result(read: Option<String>) -> (r: Result<String, Error>)
    ensures
        read matches Some(s) ==> r == Ok::<String, Error>(s),
        read is None ==> r is Err,
{
    match read {
        Some(s) => Ok(s),
        None => Err(Error::new(0)),
    }
}

/// A command's outcome: the host's zero code is the failure.
pub fn unit_code_result(code: isize) -> (r: Result<(), Error>)
    ensures
        code == 0 <==> r is Err,
{
    if code == 0 {
        Err(Error::new(0))
    } else {
        Ok(())
    }
}

/// An integer read's outcome: the value only under a nonzero code.
pub fn int_code_result(code: isize, value: isize) -> (r: Result<isize, Error>)
    ensures
        code == 0 <==> r is Err,
        code != 0 ==> r == Ok::<isize, Error>(value),
{
    if code == 0 {
        Err(Error::new(0))
    } else {
        Ok(value)
    }
}

/// A span read's outcome: both bounds only under a nonzero code.
pub fn span_code_result(code: isize, lo: isize, hi: isize) -> (r: Result<(isize, isize), Error>)
    ensures
        code == 0 <==> r is Err,
        code != 0 ==> r == Ok::<(isize, isize), Error>((lo, hi)),
{
    if code == 0 {
        Err(Error::new(0))
    } else {
        Ok((lo, hi))
    }
}

/// The panel's format description, as one text.
pub fn get_panel_format<A: FarApi>(api: &mut A, panel: Panel) -> (r: Result<String, Error>) {
    let h_panel = panel.into_handle();
    text_result(read_panel_text(api, h_panel, ffi::FILE_CONTROL_COMMANDS::FCTL_GETPANELFORMAT))
}

/// The file a panel was opened over, where there is one.
pub fn get_panel_host_file<A: FarApi>(api: &mut A, panel: Panel) -> (r: Result<String, Error>) {
    let h_panel = panel.into_handle();
    text_result(read_panel_text(api, h_panel, ffi::FILE_CONTROL_COMMANDS::FCTL_GETPANELHOSTFILE))
}

/// The command prefix the panel's plugin registered.
pub fn get_panel_prefix<A: FarApi>(api: &mut A, panel: Panel) -> (r: Result<String, Error>) {
    let h_panel = panel.into_handle();
    text_result(read_panel_text(api, h_panel, ffi::FILE_CONTROL_COMMANDS::FCTL_GETPANELPREFIX))
}

/// The command line's current content.
pub fn get_cmd_line<A: FarApi>(api: &mut A) -> (r: Result<String, Error>) {
    text_result(
        read_panel_text(api, crate::ffi::PANEL_ACTIVE, ffi::FILE_CONTROL_COMMANDS::FCTL_GETCMDLINE),
    )
}

/// Replaces the command line's content.
pub fn set_cmd_line<A: FarApi>(api: &mut A, text: &str) -> (r: Result<(), Error>) {
    let text_ws = WideString::from_str(text);
    let code = api.panel_control_text(
        crate::ffi::PANEL_ACTIVE,
        ffi::FILE_CONTROL_COMMANDS::FCTL_SETCMDLINE,
        0,
        Some(&text_ws),
    );
    unit_code_result(code)
}

/// Inserts text at the command line's cursor.
pub fn insert_cmd_line<A: FarApi>(api: &mut A, text: &str) -> (r: Result<(), Error>) {
    let text_ws = WideString::from_str(text);
    let code = api.panel_control_text(
        crate::ffi::PANEL_ACTIVE,
        ffi::FILE_CONTROL_COMMANDS::FCTL_INSERTCMDLINE,
        0,
        Some(&text_ws),
    );
    unit_code_result(code)
}

/// The command line's cursor position.
pub fn get_cmd_line_pos<A: FarApi>(api: &mut A) -> (r: Result<isize, Error>) {
    let (code, pos) = api.panel_control_read_int(
        crate::ffi::PANEL_ACTIVE,
        ffi::FILE_CONTROL_COMMANDS::FCTL_GETCMDLINEPOS,
        0,
    );
    int_code_result(code, pos)
}

/// Moves the command line's cursor.
pub fn set_cmd_line_pos<A: FarApi>(api: &mut A, pos: isize) -> (r: Result<(), Error>) {
    let code = api.panel_control(
        crate::ffi::PANEL_ACTIVE,
        ffi::FILE_CONTROL_COMMANDS::FCTL_SETCMDLINEPOS,
        pos,
    );
    unit_code_result(code)
}

/// The command line's selection bounds, where a selection exists.
pub fn get_cmd_line_selection<A: FarApi>(api: &mut A) -> (r: Result<(isize, isize), Error>) {
    let (code, sel_start, sel_end) = api.panel_control_read_span(
        crate::ffi::PANEL_ACTIVE,
        ffi::FILE_CONTROL_COMMANDS::FCTL_GETCMDLINESELECTION,
    );
    span_code_result(code, sel_start, sel_end)
}

/// Selects a span of the command line.
pub fn set_cmd_line_selection<A: FarApi>(api: &mut A, sel_start: isize, sel_end: isize) -> (r:
    Result<(), Error>) {
    let code = api.panel_control_set_span(
        crate::ffi::PANEL_ACTIVE,
        ffi::FILE_CONTROL_COMMANDS::FCTL_SETCMDLINESELECTION,
        sel_start,
        sel_end,
    );
    unit_code_result(code)
}

/// Opens a bracket around selection changes, so the host redraws once.
pub fn begin_selection<A: FarApi>(api: &mut A, panel: Panel) -> bool {
    let h_panel = panel.into_handle();
    let code = api.panel_control(h_panel, ffi::FILE_CONTROL_COMMANDS::FCTL_BEGINSELECTION, 0);
    host_truth(code)
}

/// Closes the selection bracket.
pub fn end_selection<A: FarApi>(api: &mut A, panel: Panel) -> bool {
    let h_panel = panel.into_handle();
    let code = api.panel_control(h_panel, ffi::FILE_CONTROL_COMMANDS::FCTL_ENDSELECTION, 0);
    host_truth(code)
}

/// Clears the selection mark of one item.
pub fn clear_selection<A: FarApi>(api: &mut A, panel: Panel, item_index: usize) -> bool {
    let h_panel = panel.into_handle();
    let code = api.panel_control(
        h_panel,
        ffi::FILE_CONTROL_COMMANDS::FCTL_CLEARSELECTION,
        item_index as isize,
    );
    host_truth(code)
}

/// Sets or clears the selection mark of one item.
pub fn set_selection<A: FarApi>(api: &mut A, panel: Panel, item_index: usize, select: bool) -> (r:
    bool) {
    let h_panel = panel.into_handle();
    let value: isize = if select {
        1
    } else {
        0
    };
    let code = api.panel_control_value(
        h_panel,
        ffi::FILE_CONTROL_COMMANDS::FCTL_SETSELECTION,
        item_index as isize,
        value,
    );
    host_truth(code)
}

/// Switches the panel's sort mode.
pub fn set_sort_mode<A: FarApi>(api: &mut A, panel: Panel, mode: ffi::OPENPANELINFO_SORTMODES) -> (
    r: bool) {
    let h_panel = panel.into_handle();
    let code = api.panel_control(
        h_panel,
        ffi::FILE_CONTROL_COMMANDS::FCTL_SETSORTMODE,
        mode.value() as isize,
    );
    host_truth(code)
}

/// Switches the panel's sort direction.
pub fn set_sort_order<A: FarApi>(
    api: &mut A,
    panel: Panel,
    order: super::OPENPANELINFO_SORTORDERS,
) -> bool {
    let h_panel = panel.into_handle();
    let code = api.panel_control(
        h_panel,
        ffi::FILE_CONTROL_COMMANDS::FCTL_SETSORTORDER,
        order.value(),
    );
    host_truth(code)
}

/// Switches the panel's view mode.
pub fn set_view_mode<A: FarApi>(api: &mut A, panel: Panel, view_mode: isize) -> bool {
    let h_panel = panel.into_handle();
    let code = api.panel_control(h_panel, ffi::FILE_CONTROL_COMMANDS::FCTL_SETVIEWMODE, view_mode);
    host_truth(code)
}

/// Switches whether directories sort first.
pub fn set_directories_first<A: FarApi>(api: &mut A, panel: Panel, first: bool) -> bool {
    let h_panel = panel.into_handle();
    let param1: isize = if first {
        1
    } else {
        0
    };
    let code = api.panel_control(
        h_panel,
        ffi::FILE_CONTROL_COMMANDS::FCTL_SETDIRECTORIESFIRST,
        param1,
    );
    host_truth(code)
}

/// Asks the host to re-read the panel's listing, keeping the selection
/// marks where asked.
pub fn update_panel<A: FarApi>(api: &mut A, panel: Panel, preserve_selection: bool) -> bool {
    let h_panel = panel.into_handle();
    let param1: isize = if preserve_selection {
        1
    } else {
        0
    };
    let code = api.panel_control(h_panel, ffi::FILE_CONTROL_COMMANDS::FCTL_UPDATEPANEL, param1);
    host_truth(code)
}

/// Asks the host to redraw the panel with the cursor placed as given.
pub fn redraw_panel<A: FarApi>(api: &mut A, panel: Panel, info: &PanelRedrawInfo) -> bool {
    let h_panel = panel.into_handle();
    let code = api.panel_control_redraw(h_panel, info.current_item, info.top_panel_item);
    host_truth(code)
}

/// Hands the user screen back to the host, optionally without a fresh line.
pub fn set_user_screen<A: FarApi>(api: &mut A, no_new_line: bool) -> bool {
    let param1: isize = if no_new_line {
        1
    } else {
        0
    };
    let code = api.panel_control(
        crate::ffi::PANEL_NONE,
        ffi::FILE_CONTROL_COMMANDS::FCTL_SETUSERSCREEN,
        param1,
    );
    host_truth(code)
}

/// Takes the user screen from the host, optionally without a fresh line.
pub fn get_user_screen<A: FarApi>(api: &mut A, no_new_line: bool) -> bool {
    let param1: isize = if no_new_line {
        1
    } else {
        0
    };
    let code = api.panel_control(
        crate::ffi::PANEL_NONE,
        ffi::FILE_CONTROL_COMMANDS::FCTL_GETUSERSCREEN,
        param1,
    );
    host_truth(code)
}

/// Reads a panel-directory answer: the host's zero code fails the read, any
/// other code yields the filled record decoded.
pub fn panel_directory_result(code: isize, raw: &ffi::FarPanelDirectoryOut) -> (r: Result<
    FarPanelDirectory,
    Error,
>)
    ensures
        code == 0 <==> r is Err,
        code != 0 ==> (r matches Ok(d) && d.name@ == decode_seq(prefix_to_nul(raw.name@))
            && d.plugin_id == raw.plugin_id && d.file@ == decode_seq(prefix_to_nul(raw.file@))),
{
    if code == 0 {
        Err(Error::new(0))
    } else {
        Ok(FarPanelDirectory::from_raw(raw))
    }
}

/// Reads a panel's directory; fails exactly when the host reports failure.
pub fn get_panel_directory<A: FarApi>(api: &mut A, panel: Panel) -> (r: Result<
    FarPanelDirectory,
    Error,
>) {
    let h_panel = panel.into_handle();
    let (code, raw) = api.panel_control_get_directory(h_panel);
    panel_directory_result(code, &raw)
}

/// Reads one item of the panel's listing, decoded; fails exactly when the
/// host reports failure at either step of the read.
pub fn get_panel_item<A: FarApi>(api: &mut A, panel: Panel, item_index: usize) -> (r: Result<
    super::PluginPanelItem,
    Error,
>)
    ensures
        r matches Ok(rich) ==> exists|raw: ffi::PluginPanelItemView|
            super::item_decodes(rich, raw),
{
    let h_panel = panel.into_handle();
    match api.panel_control_get_item(
        h_panel,
        ffi::FILE_CONTROL_COMMANDS::FCTL_GETPANELITEM,
        item_index as isize,
    ) {
        Some(raw) => {
            let rich = super::PluginPanelItem::from_raw(&raw);
            proof {
                assert(super::item_decodes(rich, raw@));
            }
            Ok(rich)
        },
        None => Err(Error::new(0)),
    }
}

/// Reads one selected item of the panel's listing, decoded.
pub fn get_selected_panel_item<A: FarApi>(api: &mut A, panel: Panel, sel_item_index: usize) -> (r:
    Result<super::PluginPanelItem, Error>) {
    let h_panel = panel.into_handle();
    match api.panel_control_get_item(
        h_panel,
        ffi::FILE_CONTROL_COMMANDS::FCTL_GETSELECTEDPANELITEM,
        sel_item_index as isize,
    ) {
        Some(raw) => Ok(super::PluginPanelItem::from_raw(&raw)),
        None => Err(Error::new(0)),
    }
}

/// Reads the item under the panel's cursor, decoded.
pub fn get_current_panel_item<A: FarApi>(api: &mut A, panel: Panel) -> (r: Result<
    super::PluginPanelItem,
    Error,
>) {
    let h_panel = panel.into_handle();
    match api.panel_control_get_item(
        h_panel,
        ffi::FILE_CONTROL_COMMANDS::FCTL_GETCURRENTPANELITEM,
        0,
    ) {
        Some(raw) => Ok(super::PluginPanelItem::from_raw(&raw)),
        None => Err(Error::new(0)),
    }
}

/// Changes a panel's directory, addressing a plugin's panel by the owning
/// plugin's GUID; both texts go over as owned buffers.
pub fn set_panel_directory<A: FarApi>(
    api: &mut A,
    panel: Panel,
    guid: ffi::GUID,
    path: String,
    host_file: String,
) -> (r: Result<(), Error>) {
    let h_panel = panel.into_handle();
    let name = WideString::from_str(path.as_str());
    let file = WideString::from_str(host_file.as_str());
    let code = api.panel_control_set_directory(h_panel, &guid, &name, &file);
    unit_code_result(code)
}

/// Splitting a character sequence at commas, each segment in order and
/// without its comma; the segment under construction rides along.
pub open spec fn split_acc(s: Seq<char>, cur: Seq<char>) -> Seq<Seq<char>>
    decreases s.len(),
{
    if s.len() == 0 {
        seq![cur]
    } else if s[0] == ',' {
        seq![cur] + split_acc(s.subrange(1, s.len() as int), Seq::empty())
    } else {
        split_acc(s.subrange(1, s.len() as int), cur.push(s[0]))
    }
}

/// The comma-separated segments of a text. An empty text has one empty
/// segment, and `n` commas make `n + 1` segments.
pub open spec fn split_commas(s: Seq<char>) -> Seq<Seq<char>> {
    split_acc(s, Seq::empty())
}

/// The texts of a string list, for stating what a split produced.
pub open spec fn seq_views(v: Seq<String>) -> Seq<Seq<char>> {
    Seq::new(v.len(), |i: int| v[i]@)
}

/// Splits a text at commas, producing exactly the segments of
/// `split_commas`.
pub fn split_commas_exec(s: &str) -> (r: Vec<String>)
    ensures
        seq_views(r@) == split_commas(s@),
{
    let n = s.unicode_len();
    let mut out: Vec<String> = Vec::new();
    let mut cur = String::new();
    let mut i: usize = 0;
    proof {
        assert(s@.subrange(0, n as int) =~= s@);
        assert(seq_views(out@) =~= Seq::<Seq<char>>::empty());
        assert(Seq::<Seq<char>>::empty() + split_acc(s@, Seq::empty()) =~= split_acc(
            s@,
            Seq::empty(),
        ));
    }
    while i < n
        invariant
            n == s@.len(),
            i <= n,
            split_commas(s@) == seq_views(out@) + split_acc(
                s@.subrange(i as int, n as int),
                cur@,
            ),
        decreases n - i,
    {
        let ghost pending = s@.subrange(i as int, n as int);
        let ghost out_prev = out@;
        let ghost cur_prev = cur@;
        let c = s.get_char(i);
        assert(pending[0] == c);
        if c == ',' {
            out.push(cur);
            cur = String::new();
            proof {
                assert(pending.subrange(1, pending.len() as int) =~= s@.subrange(
                    i as int + 1,
                    n as int,
                ));
                assert(split_acc(pending, cur_prev) == seq![cur_prev] + split_acc(
                    s@.subrange(i as int + 1, n as int),
                    Seq::empty(),
                ));
                assert(seq_views(out@) =~= seq_views(out_prev) + seq![cur_prev]);
                assert((seq_views(out_prev) + seq![cur_prev]) + split_acc(
                    s@.subrange(i as int + 1, n as int),
                    Seq::empty(),
                ) =~= seq_views(out_prev) + (seq![cur_prev] + split_acc(
                    s@.subrange(i as int + 1, n as int),
                    Seq::empty(),
                )));
            }
        } else {
            crate::common::string::push_char(&mut cur, c);
            proof {
                assert(pending.subrange(1, pending.len() as int) =~= s@.subrange(
                    i as int + 1,
                    n as int,
                ));
                assert(split_acc(pending, cur_prev) == split_acc(
                    s@.subrange(i as int + 1, n as int),
                    cur_prev.push(c),
                ));
            }
        }
        i = i + 1;
    }
    assert(s@.subrange(n as int, n as int) =~= Seq::<char>::empty());
    let ghost out_prev = out@;
    let ghost cur_last = cur@;
    out.push(cur);
    proof {
        assert(split_acc(Seq::<char>::empty(), cur_last) == seq![cur_last]);
        assert(seq_views(out@) =~= seq_views(out_prev) + seq![cur_last]);
    }
    assert(seq_views(out@) =~= split_commas(s@));
    out
}

/// A decimal digit.
pub open spec fn is_digit(c: char) -> bool {
    48 <= c as int <= 57
}

/// A text of digits only, and at least one.
pub open spec fn all_digits(s: Seq<char>) -> bool {
    s.len() > 0 && forall|i: int| 0 <= i < s.len() ==> is_digit(#[trigger] s[i])
}

/// The number a digit text denotes, highest digit first.
pub open spec fn dec_value(s: Seq<char>) -> int
    decreases s.len(),
{
    if s.len() == 0 {
        0
    } else {
        dec_value(s.subrange(0, s.len() - 1)) * 10 + (s[s.len() - 1] as int - 48)
    }
}

/// A digit text's value never shrinks as the text grows.
proof fn lemma_dec_value_monotone(s: Seq<char>, k: int)
    requires
        0 <= k <= s.len(),
        forall|i: int| 0 <= i < s.len() ==> is_digit(#[trigger] s[i]),
    ensures
        dec_value(s) >= dec_value(s.subrange(0, k)),
        dec_value(s) >= 0,
    decreases s.len() - k,
{
    lemma_dec_value_nonneg(s.subrange(0, k));
    if k < s.len() {
        lemma_dec_value_monotone(s, k + 1);
        lemma_dec_value_nonneg(s.subrange(0, k));
        assert(s.subrange(0, k + 1).subrange(0, k) =~= s.subrange(0, k));
        assert(dec_value(s.subrange(0, k + 1)) == dec_value(s.subrange(0, k)) * 10 + (s[k] as int
            - 48));
        assert(dec_value(s.subrange(0, k)) * 10 >= dec_value(s.subrange(0, k))) by (nonlinear_arith)
            requires
                dec_value(s.subrange(0, k)) >= 0,
        ;
    } else {
        assert(s.subrange(0, k) =~= s);
    }
}

/// A digit text's value is never negative.
proof fn lemma_dec_value_nonneg(s: Seq<char>)
    requires
        forall|i: int| 0 <= i < s.len() ==> is_digit(#[trigger] s[i]),
    ensures
        dec_value(s) >= 0,
    decreases s.len(),
{
    if s.len() > 0 {
        lemma_dec_value_nonneg(s.subrange(0, s.len() - 1));
        assert(dec_value(s.subrange(0, s.len() - 1)) * 10 >= 0) by (nonlinear_arith)
            requires
                dec_value(s.subrange(0, s.len() - 1)) >= 0,
        ;
    }
}

/// Parses a decimal number: exactly the digit-only texts whose value fits
/// the machine word parse, to exactly that value.
pub fn parse_usize(s: &str) -> (r: Option<usize>)
    ensures
        r matches Some(n) ==> all_digits(s@) && n as int == dec_value(s@),
        r is None ==> !all_digits(s@) || dec_value(s@) > usize::MAX,
{
    let n = s.unicode_len();
    if n == 0 {
        return None;
    }
    let mut value: usize = 0;
    let mut i: usize = 0;
    while i < n
        invariant
            n == s@.len(),
            i <= n,
            forall|j: int| 0 <= j < i as int ==> is_digit(#[trigger] s@[j]),
            value as int == dec_value(s@.subrange(0, i as int)),
        decreases n - i,
    {
        let c = s.get_char(i);
        let code = c as u32;
        if code < 48 || code > 57 {
            return None;
        }
        let d = (code - 48) as usize;
        if value > (usize::MAX - d) / 10 {
            proof {
                assert(s@.subrange(0, i as int + 1).subrange(0, i as int) =~= s@.subrange(
                    0,
                    i as int,
                ));
                assert(dec_value(s@.subrange(0, i as int + 1)) == value as int * 10 + d);
                assert(value as int * 10 + d > usize::MAX) by (nonlinear_arith)
                    requires
                        value as int > (usize::MAX as int - d) / 10,
                        0 <= d <= 9,
                ;
            }
            if all_digits_check(s, i) {
                proof {
                    lemma_dec_value_monotone(s@, i as int + 1);
                }
                return None;
            } else {
                return None;
            }
        }
        proof {
            assert(value as int * 10 + d <= usize::MAX) by (nonlinear_arith)
                requires
                    value as int <= (usize::MAX as int - d) / 10,
                    0 <= d <= 9,
            ;
            assert(s@.subrange(0, i as int + 1).subrange(0, i as int) =~= s@.subrange(0, i as int));
        }
        value = value * 10 + d;
        i = i + 1;
    }
    assert(s@.subrange(0, n as int) =~= s@);
    Some(value)
}

/// Whether every character from `from` on is a digit.
fn all_digits_check(s: &str, from: usize) -> (r: bool)
    requires
        from <= s@.len(),
    ensures
        r == forall|j: int| from as int <= j < s@.len() ==> is_digit(#[trigger] s@[j]),
{
    let n = s.unicode_len();
    let mut i: usize = from;
    while i < n
        invariant
            n == s@.len(),
            from <= i <= n,
            forall|j: int| from as int <= j < i as int ==> is_digit(#[trigger] s@[j]),
        decreases n - i,
    {
        let c = s.get_char(i);
        let code = c as u32;
        if code < 48 || code > 57 {
            return false;
        }
        i = i + 1;
    }
    true
}

/// The panel's column kinds, as the host's comma-separated description
/// splits.
pub fn get_column_types<A: FarApi>(api: &mut A, panel: Panel) -> (r: Result<Vec<String>, Error>) {
    let h_panel = panel.into_handle();
    match read_panel_text(api, h_panel, ffi::FILE_CONTROL_COMMANDS::FCTL_GETCOLUMNTYPES) {
        Some(s) => Ok(split_commas_exec(s.as_str())),
        None => Err(Error::new(0)),
    }
}

/// The panel's column widths: the host's comma-separated description split
/// and each piece parsed; a piece that is no number fails the whole read.
pub fn get_column_widths<A: FarApi>(api: &mut A, panel: Panel) -> (r: Result<Vec<usize>, Error>) {
    let h_panel = panel.into_handle();
    let text = match read_panel_text(api, h_panel, ffi::FILE_CONTROL_COMMANDS::FCTL_GETCOLUMNWIDTHS)
        {
        Some(s) => s,
        None => {
            return Err(Error::new(0));
        },
    };
    let pieces = split_commas_exec(text.as_str());
    let mut widths: Vec<usize> = Vec::new();
    let n = pieces.len();
    let mut i: usize = 0;
    while i < n
        invariant
            n == pieces@.len(),
            i <= n,
            widths@.len() == i as int,
            forall|j: int|
                0 <= j < i as int ==> #[trigger] widths@[j] as int == dec_value(pieces@[j]@),
        decreases n - i,
    {
        match parse_usize(pieces[i].as_str()) {
            Some(w) => {
                widths.push(w);
            },
            None => {
                return Err(Error::new(0));
            },
        }
        i = i + 1;
    }
    Ok(widths)
}

} // verus!
