//! The storage calls of the compute service: each call with its arguments as
//! the platform takes them, and what its answer means.

use vstd::prelude::*;
use crate::compute::defs::Handle;
use crate::compute::errorcodes::{hresult_to_result_code, result_code_of, HResult, ResultCode};
use crate::compute::widestr::{has_wide_form, wide_form, wide_string};
use crate::HcsResult;

verus! {

/// A call of the storage service, with its arguments as the platform takes them.
#[derive(Debug, PartialEq, Eq)]
pub enum StorageCall {
    /// Imports a container layer.
    ImportLayer {
        path: Vec<u16>,
        source_folder_path: Vec<u16>,
        layer_data: Vec<u16>,
    },
    /// Exports a container layer.
    ExportLayer {
        path: Vec<u16>,
        export_folder_path: Vec<u16>,
        layer_data: Vec<u16>,
        options: Vec<u16>,
    },
    /// Exports a legacy container writable layer.
    ExportLegacyWritableLayer {
        mount_path: Vec<u16>,
        folder_path: Vec<u16>,
        export_folder_path: Vec<u16>,
        layer_data: Vec<u16>,
    },
    /// Deletes a container layer, with all that lies under its directory.
    DestroyLayer {
        layer_path: Vec<u16>,
    },
    /// Sets up a layer that contains a base OS for a container.
    SetupBaseOsLayer {
        layer_path: Vec<u16>,
        vhd_handle: Handle,
        options: Vec<u16>,
    },
    /// Initializes a writable layer for a container.
    InitializeWritableLayer {
        layer_path: Vec<u16>,
        layer_data: Vec<u16>,
        options: Vec<u16>,
    },
    /// Initializes a writable layer for a container using the legacy hive folder format.
    InitializeLegacyWritableLayer {
        mount_path: Vec<u16>,
        folder_path: Vec<u16>,
        layer_data: Vec<u16>,
        options: Vec<u16>,
    },
    /// Sets up the layer storage filter on a writable container layer.
    AttachLayerStorageFilter {
        layer_path: Vec<u16>,
        layer_data: Vec<u16>,
    },
    /// Detaches the layer storage filter from a writable container layer.
    DetachLayerStorageFilter {
        layer_path: Vec<u16>,
    },
    /// Formats a virtual disk for the use as a writable container layer.
    FormatWritableLayerVhd {
        vhd_handle: Handle,
    },
    /// Asks for the volume path of the virtual disk of a writable container layer.
    GetLayerVhdMountPath {
        vhd_handle: Handle,
    },
}

/// Imports a container layer.
///
/// There is no call where a text holds the character zero: the platform
/// could not take it.
pub fn import_layer(path: &str, source_folder_path: &str, layer_data: &str) -> (call: Option<StorageCall>)
    ensures
        call is Some <==> has_wide_form(path@) && has_wide_form(source_folder_path@) && has_wide_form(layer_data@),
        call matches Some(made) ==> {
            &&& made matches StorageCall::ImportLayer { path: path_arg, source_folder_path: source_folder_path_arg, layer_data: layer_data_arg }
            &&& path_arg@ == wide_form(path@)
            &&& source_folder_path_arg@ == wide_form(source_folder_path@)
            &&& layer_data_arg@ == wide_form(layer_data@)
        },
{
    let path_wide = wide_string(path);
    let source_folder_path_wide = wide_string(source_folder_path);
    let layer_data_wide = wide_string(layer_data);
    if path_wide.is_none() || source_folder_path_wide.is_none() || layer_data_wide.is_none() {
        None
    } else {
        Some(StorageCall::ImportLayer { path: path_wide.unwrap(), source_folder_path: source_folder_path_wide.unwrap(), layer_data: layer_data_wide.unwrap() })
    }
}

/// Exports a container layer.
///
/// There is no call where a text holds the character zero: the platform
/// could not take it.
pub fn export_layer(path: &str, export_folder_path: &str, layer_data: &str, options: &str) -> (call: Option<StorageCall>)
    ensures
        call is Some <==> has_wide_form(path@) && has_wide_form(export_folder_path@) && has_wide_form(layer_data@) && has_wide_form(options@),
        call matches Some(made) ==> {
            &&& made matches StorageCall::ExportLayer { path: path_arg, export_folder_path: export_folder_path_arg, layer_data: layer_data_arg, options: options_arg }
            &&& path_arg@ == wide_form(path@)
            &&& export_folder_path_arg@ == wide_form(export_folder_path@)
            &&& layer_data_arg@ == wide_form(layer_data@)
            &&& options_arg@ == wide_form(options@)
        },
{
    let path_wide = wide_string(path);
    let export_folder_path_wide = wide_string(export_folder_path);
    let layer_data_wide = wide_string(layer_data);
    let options_wide = wide_string(options);
    if path_wide.is_none() || export_folder_path_wide.is_none() || layer_data_wide.is_none() || options_wide.is_none() {
        None
    } else {
        Some(StorageCall::ExportLayer { path: path_wide.unwrap(), export_folder_path: export_folder_path_wide.unwrap(), layer_data: layer_data_wide.unwrap(), options: options_wide.unwrap() })
    }
}

/// Exports a legacy container writable layer.
///
/// There is no call where a text holds the character zero: the platform
/// could not take it.
pub fn export_legacy_writable_layer(mount_path: &str, folder_path: &str, export_folder_path: &str, layer_data: &str) -> (call: Option<StorageCall>)
    ensures
        call is Some <==> has_wide_form(mount_path@) && has_wide_form(folder_path@) && has_wide_form(export_folder_path@) && has_wide_form(layer_data@),
        call matches Some(made) ==> {
            &&& made matches StorageCall::ExportLegacyWritableLayer { mount_path: mount_path_arg, folder_path: folder_path_arg, export_folder_path: export_folder_path_arg, layer_data: layer_data_arg }
            &&& mount_path_arg@ == wide_form(mount_path@)
            &&& folder_path_arg@ == wide_form(folder_path@)
            &&& export_folder_path_arg@ == wide_form(export_folder_path@)
            &&& layer_data_arg@ == wide_form(layer_data@)
        },
{
    let mount_path_wide = wide_string(mount_path);
    let folder_path_wide = wide_string(folder_path);
    let export_folder_path_wide = wide_string(export_folder_path);
    let layer_data_wide = wide_string(layer_data);
    if mount_path_wide.is_none() || folder_path_wide.is_none() || export_folder_path_wide.is_none() || layer_data_wide.is_none() {
        None
    } else {
        Some(StorageCall::ExportLegacyWritableLayer { mount_path: mount_path_wide.unwrap(), folder_path: folder_path_wide.unwrap(), export_folder_path: export_folder_path_wide.unwrap(), layer_data: layer_data_wide.unwrap() })
    }
}

/// Deletes a container layer, with all that lies under its directory.
///
/// There is no call where a text holds the character zero: the platform
/// could not take it.
pub fn destroy_layer(layer_path: &str) -> (call: Option<StorageCall>)
    ensures
        call is Some <==> has_wide_form(layer_path@),
        call matches Some(made) ==> {
            &&& made matches StorageCall::DestroyLayer { layer_path: layer_path_arg }
            &&& layer_path_arg@ == wide_form(layer_path@)
        },
{
    let layer_path_wide = wide_string(layer_path);
    if layer_path_wide.is_none() {
        None
    } else {
        Some(StorageCall::DestroyLayer { layer_path: layer_path_wide.unwrap() })
    }
}

/// Sets up a layer that contains a base OS for a container.
///
/// There is no call where a text holds the character zero: the platform
/// could not take it.
pub fn setup_base_os_layer(layer_path: &str, vhd_handle: Handle, options: &str) -> (call: Option<StorageCall>)
    ensures
        call is Some <==> has_wide_form(layer_path@) && has_wide_form(options@),
        call matches Some(made) ==> {
            &&& made matches StorageCall::SetupBaseOsLayer { layer_path: layer_path_arg, vhd_handle: vhd_handle_arg, options: options_arg }
            &&& layer_path_arg@ == wide_form(layer_path@)
            &&& vhd_handle_arg == vhd_handle
            &&& options_arg@ == wide_form(options@)
        },
{
    let layer_path_wide = wide_string(layer_path);
    let options_wide = wide_string(options);
    if layer_path_wide.is_none() || options_wide.is_none() {
        None
    } else {
        Some(StorageCall::SetupBaseOsLayer { layer_path: layer_path_wide.unwrap(), vhd_handle, options: options_wide.unwrap() })
    }
}

/// Initializes a writable layer for a container.
///
/// There is no call where a text holds the character zero: the platform
/// could not take it.
pub fn initialize_writable_layer(layer_path: &str, layer_data: &str, options: &str) -> (call: Option<StorageCall>)
    ensures
        call is Some <==> has_wide_form(layer_path@) && has_wide_form(layer_data@) && has_wide_form(options@),
        call matches Some(made) ==> {
            &&& made matches StorageCall::InitializeWritableLayer { layer_path: layer_path_arg, layer_data: layer_data_arg, options: options_arg }
            &&& layer_path_arg@ == wide_form(layer_path@)
            &&& layer_data_arg@ == wide_form(layer_data@)
            &&& options_arg@ == wide_form(options@)
        },
{
    let layer_path_wide = wide_string(layer_path);
    let layer_data_wide = wide_string(layer_data);
    let options_wide = wide_string(options);
    if layer_path_wide.is_none() || layer_data_wide.is_none() || options_wide.is_none() {
        None
    } else {
        Some(StorageCall::InitializeWritableLayer { layer_path: layer_path_wide.unwrap(), layer_data: layer_data_wide.unwrap(), options: options_wide.unwrap() })
    }
}

/// Initializes a writable layer for a container using the legacy hive folder format.
///
/// There is no call where a text holds the character zero: the platform
/// could not take it.
pub fn initialize_legacy_writable_layer(mount_path: &str, folder_path: &str, layer_data: &str, options: &str) -> (call: Option<StorageCall>)
    ensures
        call is Some <==> has_wide_form(mount_path@) && has_wide_form(folder_path@) && has_wide_form(layer_data@) && has_wide_form(options@),
        call matches Some(made) ==> {
            &&& made matches StorageCall::InitializeLegacyWritableLayer { mount_path: mount_path_arg, folder_path: folder_path_arg, layer_data: layer_data_arg, options: options_arg }
            &&& mount_path_arg@ == wide_form(mount_path@)
            &&& folder_path_arg@ == wide_form(folder_path@)
            &&& layer_data_arg@ == wide_form(layer_data@)
            &&& options_arg@ == wide_form(options@)
        },
{
    let mount_path_wide = wide_string(mount_path);
    let folder_path_wide = wide_string(folder_path);
    let layer_data_wide = wide_string(layer_data);
    let options_wide = wide_string(options);
    if mount_path_wide.is_none() || folder_path_wide.is_none() || layer_data_wide.is_none() || options_wide.is_none() {
        None
    } else {
        Some(StorageCall::InitializeLegacyWritableLayer { mount_path: mount_path_wide.unwrap(), folder_path: folder_path_wide.unwrap(), layer_data: layer_data_wide.unwrap(), options: options_wide.unwrap() })
    }
}

/// Sets up the layer storage filter on a writable container layer.
///
/// There is no call where a text holds the character zero: the platform
/// could not take it.
pub fn attach_layer_storage_filter(layer_path: &str, layer_data: &str) -> (call: Option<StorageCall>)
    ensures
        call is Some <==> has_wide_form(layer_path@) && has_wide_form(layer_data@),
        call matches Some(made) ==> {
            &&& made matches StorageCall::AttachLayerStorageFilter { layer_path: layer_path_arg, layer_data: layer_data_arg }
            &&& layer_path_arg@ == wide_form(layer_path@)
            &&& layer_data_arg@ == wide_form(layer_data@)
        },
{
    let layer_path_wide = wide_string(layer_path);
    let layer_data_wide = wide_string(layer_data);
    if layer_path_wide.is_none() || layer_data_wide.is_none() {
        None
    } else {
        Some(StorageCall::AttachLayerStorageFilter { layer_path: layer_path_wide.unwrap(), layer_data: layer_data_wide.unwrap() })
    }
}

/// Detaches the layer storage filter from a writable container layer.
///
/// There is no call where a text holds the character zero: the platform
/// could not take it.
pub fn detach_layer_storage_filter(layer_path: &str) -> (call: Option<StorageCall>)
    ensures
        call is Some <==> has_wide_form(layer_path@),
        call matches Some(made) ==> {
            &&& made matches StorageCall::DetachLayerStorageFilter { layer_path: layer_path_arg }
            &&& layer_path_arg@ == wide_form(layer_path@)
        },
{
    let layer_path_wide = wide_string(layer_path);
    if layer_path_wide.is_none() {
        None
    } else {
        Some(StorageCall::DetachLayerStorageFilter { layer_path: layer_path_wide.unwrap() })
    }
}

/// Formats a virtual disk for the use as a writable container layer.
pub fn format_writable_layer_vhd(vhd_handle: Handle) -> (call: StorageCall)
    ensures
        call == (StorageCall::FormatWritableLayerVhd { vhd_handle }),
{
    StorageCall::FormatWritableLayerVhd { vhd_handle }
}

/// Asks for the volume path of the virtual disk of a writable container layer.
pub fn get_layer_vhd_mount_path(vhd_handle: Handle) -> (call: StorageCall)
    ensures
        call == (StorageCall::GetLayerVhdMountPath { vhd_handle }),
{
    StorageCall::GetLayerVhdMountPath { vhd_handle }
}

/// Turns the answer of a platform call into its result: the value where the
/// status is zero, else the code of the status.
pub fn hcs_result<T>(hresult: HResult, value: T) -> (result: HcsResult<T>)
    ensures
        hresult == 0 ==> result == Ok::<T, ResultCode>(value),
        hresult != 0 ==> result == Err::<T, ResultCode>(result_code_of(hresult)),
{
    if hresult == 0 {
        Ok(value)
    } else {
        Err(hresult_to_result_code(&hresult))
    }
}

} // verus!
