//! The host's file-filter service: creating a filter over one of the
//! host's filter sets and testing items against it.

use super::wrapper;
use crate::common::ffi::AsInner;
use crate::farapi::FarApi;
use crate::ffi;
use crate::Error;
use crate::ReturnCode;
use vstd::prelude::*;

verus! {

/// Which of the host's filter sets a filter is created over.
pub enum FileFilterType {
    Panel,
    FindFile,
    Copy,
    Select,
    Custom,
}

impl FileFilterType {
    /// The set's code in the host's table.
    pub open spec fn value_spec(&self) -> ffi::FAR_FILE_FILTER_TYPE {
        match self {
            FileFilterType::Panel => ffi::FAR_FILE_FILTER_TYPE::FFT_PANEL,
            FileFilterType::FindFile => ffi::FAR_FILE_FILTER_TYPE::FFT_FINDFILE,
            FileFilterType::Copy => ffi::FAR_FILE_FILTER_TYPE::FFT_COPY,
            FileFilterType::Select => ffi::FAR_FILE_FILTER_TYPE::FFT_SELECT,
            FileFilterType::Custom => ffi::FAR_FILE_FILTER_TYPE::FFT_CUSTOM,
        }
    }

    pub fn value(&self) -> (r: ffi::FAR_FILE_FILTER_TYPE)
        ensures
            r == self.value_spec(),
    {
        match self {
            FileFilterType::Panel => ffi::FAR_FILE_FILTER_TYPE::FFT_PANEL,
            FileFilterType::FindFile => ffi::FAR_FILE_FILTER_TYPE::FFT_FINDFILE,
            FileFilterType::Copy => ffi::FAR_FILE_FILTER_TYPE::FFT_COPY,
            FileFilterType::Select => ffi::FAR_FILE_FILTER_TYPE::FFT_SELECT,
            FileFilterType::Custom => ffi::FAR_FILE_FILTER_TYPE::FFT_CUSTOM,
        }
    }
}

/// One request to the host's filter service.
pub enum FileFilterControlCommand {
    CreateFileFilter(super::Panel, FileFilterType),
    FreeFileFilter(isize),
    OpenFiltersMenu(isize),
    StartingToFilter(isize),
    IsFileInFilter(isize, super::PluginPanelItem),
}

/// One answer from the host's filter service.
pub enum FileFilterControlResult {
    Handle(isize),
    ReturnCode(ReturnCode),
    Match(bool),
}

/// A filter the host created; the handle addresses host-side state.
pub struct FileFilter {
    handle: isize,
}

impl FileFilter {
    pub closed spec fn spec_handle(&self) -> isize {
        self.handle
    }

    /// Wraps a handle the host handed out.
    pub fn from(handle: isize) -> (r: FileFilter)
        ensures
            r.spec_handle() == handle,
    {
        FileFilter { handle }
    }

    /// Tells the host a filtering pass is starting.
    pub fn starting_to_filter<A: FarApi>(&self, api: &mut A) {
        let _ = file_filter_control(
            api,
            FileFilterControlCommand::StartingToFilter(self.handle),
        );
    }

    /// Opens the host's filter-configuration menu.
    pub fn open_filters_menu<A: FarApi>(&self, api: &mut A) {
        let _ = file_filter_control(api, FileFilterControlCommand::OpenFiltersMenu(self.handle));
    }

    /// Tests one item against the filter; anything but a clear yes from the
    /// host reads as no.
    pub fn is_file_in_filter<A: FarApi>(&self, api: &mut A, panel_item: super::PluginPanelItem) -> (
        r: bool) {
        let result = file_filter_control(
            api,
            FileFilterControlCommand::IsFileInFilter(self.handle, panel_item),
        );
        match result {
            Ok(result) => match result {
                FileFilterControlResult::Match(is_match) => is_match,
                _ => false,
            },
            Err(_) => false,
        }
    }

    /// Releases the host-side filter.
    pub fn free<A: FarApi>(self, api: &mut A) {
        let _ = file_filter_control(api, FileFilterControlCommand::FreeFileFilter(self.handle));
    }
}

/// Asks the host for a filter over one of its sets; fails exactly when the
/// host reports failure.
pub fn file_filter<A: FarApi>(api: &mut A, panel: super::Panel, filter_type: FileFilterType) -> (r:
    Result<FileFilter, Error>) {
    match file_filter_control(api, FileFilterControlCommand::CreateFileFilter(panel, filter_type)) {
        Ok(result) => match result {
            FileFilterControlResult::Handle(handle) => Ok(FileFilter::from(handle)),
            _ => Err(Error::new(0)),
        },
        Err(e) => Err(e),
    }
}

/// Reads a creation answer: the host's zero code is the failure, any other
/// code yields the handle the host wrote out.
pub fn create_filter_result(code: isize, created: isize) -> (r: Result<
    FileFilterControlResult,
    Error,
>)
    ensures
        code == 0 <==> r is Err,
        code != 0 ==> r == Ok::<FileFilterControlResult, Error>(
            FileFilterControlResult::Handle(created),
        ),
{
    if code == 0 {
        Err(Error::new(0))
    } else {
        Ok(FileFilterControlResult::Handle(created))
    }
}

/// Reads a menu-opening answer: the host's zero code is the user's
/// cancellation, any other code is success.
pub fn filters_menu_result(code: isize) -> (r: Result<FileFilterControlResult, Error>)
    ensures
        code == 0 ==> r == Ok::<FileFilterControlResult, Error>(
            FileFilterControlResult::ReturnCode(ReturnCode::UserCancel),
        ),
        code != 0 ==> r == Ok::<FileFilterControlResult, Error>(
            FileFilterControlResult::ReturnCode(ReturnCode::Success),
        ),
{
    if code == 0 {
        Ok(FileFilterControlResult::ReturnCode(ReturnCode::UserCancel))
    } else {
        Ok(FileFilterControlResult::ReturnCode(ReturnCode::Success))
    }
}

/// Reads a membership answer: the host's code as the match.
pub fn filter_match_result(code: isize) -> (r: Result<FileFilterControlResult, Error>)
    ensures
        r == Ok::<FileFilterControlResult, Error>(FileFilterControlResult::Match(code != 0)),
{
    Ok(FileFilterControlResult::Match(code != 0))
}

/// Marshals one request to the host's filter service and reads its answer
/// through the per-command mappers above. An item handed in for testing is
/// flattened first, with every text in an owned buffer.
pub fn file_filter_control<A: FarApi>(api: &mut A, command: FileFilterControlCommand) -> (r:
    Result<FileFilterControlResult, Error>)
    ensures
        command matches FileFilterControlCommand::FreeFileFilter(_) ==> (r matches Ok(res)
            && res == FileFilterControlResult::ReturnCode(ReturnCode::Success)),
        command matches FileFilterControlCommand::StartingToFilter(_) ==> (r matches Ok(res)
            && res == FileFilterControlResult::ReturnCode(ReturnCode::Success)),
        command matches FileFilterControlCommand::OpenFiltersMenu(_) ==> (r matches Ok(res)
            && res matches FileFilterControlResult::ReturnCode(_)),
        command matches FileFilterControlCommand::IsFileInFilter(_, _) ==> (r matches Ok(res)
            && res matches FileFilterControlResult::Match(_)),
        command matches FileFilterControlCommand::CreateFileFilter(_, _) ==> (r is Err || (
        r matches Ok(res) && res matches FileFilterControlResult::Handle(_))),
{
    match command {
        FileFilterControlCommand::CreateFileFilter(panel, filter_type) => {
            let handle = panel.into_handle();
            let param1 = filter_type.value();
            let (code, created) = api.file_filter_control(
                handle,
                ffi::FAR_FILE_FILTER_CONTROL_COMMANDS::FFCTL_CREATEFILEFILTER,
                param1 as isize,
                None,
            );
            create_filter_result(code, created)
        },
        FileFilterControlCommand::FreeFileFilter(handle) => {
            let _ = api.file_filter_control(
                handle,
                ffi::FAR_FILE_FILTER_CONTROL_COMMANDS::FFCTL_FREEFILEFILTER,
                0,
                None,
            );
            Ok(FileFilterControlResult::ReturnCode(ReturnCode::Success))
        },
        FileFilterControlCommand::OpenFiltersMenu(handle) => {
            let (code, _) = api.file_filter_control(
                handle,
                ffi::FAR_FILE_FILTER_CONTROL_COMMANDS::FFCTL_OPENFILTERSMENU,
                0,
                None,
            );
            filters_menu_result(code)
        },
        FileFilterControlCommand::StartingToFilter(handle) => {
            let _ = api.file_filter_control(
                handle,
                ffi::FAR_FILE_FILTER_CONTROL_COMMANDS::FFCTL_STARTINGTOFILTER,
                0,
                None,
            );
            Ok(FileFilterControlResult::ReturnCode(ReturnCode::Success))
        },
        FileFilterControlCommand::IsFileInFilter(handle, panel_item) => {
            let item = wrapper::PluginPanelItem::from_rich(&panel_item);
            let raw_item = item.as_inner();
            let (code, _) = api.file_filter_control(
                handle,
                ffi::FAR_FILE_FILTER_CONTROL_COMMANDS::FFCTL_ISFILEINFILTER,
                0,
                Some(&raw_item),
            );
            filter_match_result(code)
        },
    }
}

} // verus!
