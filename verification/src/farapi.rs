//! The host's service table, as the plugin sees it: one method per function
//! pointer the host hands over at startup. The binding marshals arguments
//! into the owned buffers these methods take and interprets what they
//! return; what the host does with a call is the host's business, so the
//! methods promise nothing. An implementation lives outside the verified
//! library, next to the real function table.

use crate::common::string::{WideString, WideStringArray};
use crate::ffi;
use crate::ffi::HANDLE;
use vstd::prelude::*;

verus! {

/// The calls into the host this binding makes. Buffer arguments are handed
/// as owned zero-terminated buffers; `None` stands for a null pointer.
pub trait FarApi {
    /// Looks a message up in the plugin's language pack; returns the buffer
    /// the host's pointer leads to, copied out.
    fn get_msg(&mut self, plugin_id: &ffi::GUID, msg_id: isize) -> Vec<u16>;

    /// Shows an input box; returns the host's code and the buffer the user's
    /// text was written into.
    fn input_box(
        &mut self,
        plugin_id: &ffi::GUID,
        id: &ffi::GUID,
        title: Option<&WideString>,
        sub_title: Option<&WideString>,
        history_name: Option<&WideString>,
        src_text: Option<&WideString>,
        dest_length: usize,
        help_topic: Option<&WideString>,
        flags: u64,
    ) -> (isize, Vec<u16>);

    /// Shows a menu; returns the selected index and the break code, each
    /// negative when absent.
    fn menu(
        &mut self,
        plugin_id: &ffi::GUID,
        id: &ffi::GUID,
        x: isize,
        y: isize,
        max_height: isize,
        flags: u64,
        title: Option<&WideString>,
        bottom: Option<&WideString>,
        help_topic: Option<&WideString>,
        break_keys: &Vec<ffi::FarKey>,
        items: &Vec<ffi::FarMenuItem>,
    ) -> (isize, isize);

    /// Shows a message box; returns the pressed button's index or a
    /// negative code.
    fn message(
        &mut self,
        plugin_id: &ffi::GUID,
        id: &ffi::GUID,
        flags: u64,
        help_topic: Option<&WideString>,
        items: &WideStringArray,
        items_number: usize,
        buttons_number: isize,
    ) -> isize;

    /// Opens a help topic; returns the ABI's truth value.
    fn show_help(
        &mut self,
        module_name: &WideString,
        topic: Option<&WideString>,
        flags: u64,
    ) -> isize;

    /// Shows the colour chooser; returns the host's code and the colour the
    /// user picked.
    fn color_dialog(&mut self, plugin_id: &ffi::GUID, flags: u64, color: ffi::FarColor) -> (
        isize,
        ffi::FarColor,
    );

    /// Opens the viewer on a file.
    fn viewer(
        &mut self,
        file_name: &WideString,
        title: Option<&WideString>,
        x1: isize,
        y1: isize,
        x2: isize,
        y2: isize,
        flags: u64,
        code_page: usize,
    ) -> isize;

    /// Opens the editor on a file.
    fn editor(
        &mut self,
        file_name: &WideString,
        title: Option<&WideString>,
        x1: isize,
        y1: isize,
        x2: isize,
        y2: isize,
        flags: u64,
        start_line: isize,
        start_char: isize,
        code_page: usize,
    ) -> isize;

    /// Builds a dialog from flat items; returns its handle, or the invalid
    /// handle on failure.
    fn dialog_init(
        &mut self,
        plugin_id: &ffi::GUID,
        id: &ffi::GUID,
        x1: isize,
        y1: isize,
        x2: isize,
        y2: isize,
        help_topic: Option<&WideString>,
        items: &Vec<crate::dialog::RawFarDialogItem>,
        flags: u64,
    ) -> isize;

    /// Runs a dialog to completion.
    fn dialog_run(&mut self, handle: isize) -> isize;

    /// Frees a dialog's host-side resources.
    fn dialog_free(&mut self, handle: isize);

    /// Sends one message to a dialog.
    fn send_dlg_message(&mut self, h_dlg: HANDLE, msg: isize, param1: isize, param2: usize) -> isize;

    /// Runs the host's default processing for one dialog message.
    fn def_dlg_proc(&mut self, h_dlg: HANDLE, msg: isize, param1: isize, param2: usize) -> isize;

    /// One panel-control call whose parameter slot is empty.
    fn panel_control(
        &mut self,
        panel: isize,
        command: ffi::FILE_CONTROL_COMMANDS,
        param1: isize,
    ) -> isize;

    /// One panel-control call whose parameter slot points at a text, or at
    /// nothing.
    fn panel_control_text(
        &mut self,
        panel: isize,
        command: ffi::FILE_CONTROL_COMMANDS,
        param1: isize,
        text: Option<&WideString>,
    ) -> isize;

    /// One panel-control call whose parameter slot points at a buffer the
    /// host fills with up to `chars_count` units; the filled buffer comes
    /// back with the host's code.
    fn panel_control_read_buf(
        &mut self,
        panel: isize,
        command: ffi::FILE_CONTROL_COMMANDS,
        chars_count: usize,
    ) -> (isize, Vec<u16>);

    /// One panel-control call whose parameter slot points at an integer the
    /// host fills.
    fn panel_control_read_int(
        &mut self,
        panel: isize,
        command: ffi::FILE_CONTROL_COMMANDS,
        param1: isize,
    ) -> (isize, isize);

    /// One panel-control call whose parameter slot points at a pair of
    /// selection bounds handed to the host.
    fn panel_control_set_span(
        &mut self,
        panel: isize,
        command: ffi::FILE_CONTROL_COMMANDS,
        start: isize,
        end: isize,
    ) -> isize;

    /// One panel-control call whose parameter slot points at a pair of
    /// selection bounds the host fills.
    fn panel_control_read_span(
        &mut self,
        panel: isize,
        command: ffi::FILE_CONTROL_COMMANDS,
    ) -> (isize, isize, isize);

    /// One panel-control call whose parameter slot carries a plain number.
    fn panel_control_value(
        &mut self,
        panel: isize,
        command: ffi::FILE_CONTROL_COMMANDS,
        param1: isize,
        value: isize,
    ) -> isize;

    /// One panel-item query: the host reports the needed size and then
    /// fills the item, both steps behind this call; nothing comes back when
    /// either step fails.
    fn panel_control_get_item(
        &mut self,
        panel: isize,
        command: ffi::FILE_CONTROL_COMMANDS,
        item_index: isize,
    ) -> Option<ffi::PluginPanelItem>;

    /// The directory-change request, carrying the target's name, owner and
    /// file.
    fn panel_control_set_directory(
        &mut self,
        panel: isize,
        plugin_id: &ffi::GUID,
        name: &WideString,
        file: &WideString,
    ) -> isize;

    /// The panel-state query: the host fills the flat record.
    fn panel_control_get_panel_info(&mut self, panel: isize) -> (isize, ffi::PanelInfo);

    /// The panel-directory query: the host fills name, owner and file.
    fn panel_control_get_directory(&mut self, panel: isize) -> (
        isize,
        ffi::FarPanelDirectoryOut,
    );

    /// The redraw request, carrying the cursor placement.
    fn panel_control_redraw(
        &mut self,
        panel: isize,
        current_item: usize,
        top_panel_item: usize,
    ) -> isize;

    /// One file-filter service call; the created handle, where the command
    /// creates one, comes back beside the host's code.
    fn file_filter_control(
        &mut self,
        handle: isize,
        command: ffi::FAR_FILE_FILTER_CONTROL_COMMANDS,
        param1: isize,
        item: Option<&ffi::PluginPanelItem>,
    ) -> (isize, isize);

    /// Lists a directory; the host either fails or hands over the flat
    /// items, copied out before it frees them.
    fn get_dir_list(&mut self, dir: &WideString) -> Option<Vec<ffi::PluginPanelItem>>;

    /// Lists a directory inside another plugin's panel.
    fn get_plugin_dir_list(
        &mut self,
        plugin_id: &ffi::GUID,
        h_panel: HANDLE,
        dir: &WideString,
    ) -> Option<Vec<ffi::PluginPanelItem>>;
}

} // verus!
