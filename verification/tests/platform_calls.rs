use hcs_rs::computenetwork::{
    close_network, create_network, delete_network, enumerate_networks, modify_network,
    open_network, query_network_properties, Guid, NetworkCall,
};
use hcs_rs::computestorage::{
    attach_layer_storage_filter, destroy_layer, detach_layer_storage_filter, export_layer,
    export_legacy_writable_layer, format_writable_layer_vhd, get_layer_vhd_mount_path,
    import_layer, initialize_legacy_writable_layer, initialize_writable_layer,
    setup_base_os_layer, StorageCall,
};

fn wide(text: &str) -> Vec<u16> {
    let mut units: Vec<u16> = text.encode_utf16().collect();
    units.push(0);
    units
}

fn sample_id() -> Guid {
    Guid { data1: 0x1234_5678, data2: 0x9ABC, data3: 0xDEF0, data4: [1, 2, 3, 4, 5, 6, 7, 8] }
}

#[test]
fn import_layer_passes_its_texts_in_order() {
    assert_eq!(
        import_layer("C:\\layers\\a", "C:\\src", "{\"SchemaVersion\":2}"),
        Some(StorageCall::ImportLayer {
            path: wide("C:\\layers\\a"),
            source_folder_path: wide("C:\\src"),
            layer_data: wide("{\"SchemaVersion\":2}"),
        })
    );
}

#[test]
fn import_layer_refuses_text_with_a_nul() {
    assert_eq!(import_layer("a\0", "b", "c"), None);
    assert_eq!(import_layer("a", "b\0b", "c"), None);
    assert_eq!(import_layer("a", "b", "\0c"), None);
}

#[test]
fn export_layer_passes_its_texts_in_order() {
    assert_eq!(
        export_layer("p", "e", "d", "o"),
        Some(StorageCall::ExportLayer {
            path: vec![0x70, 0],
            export_folder_path: vec![0x65, 0],
            layer_data: vec![0x64, 0],
            options: vec![0x6F, 0],
        })
    );
    assert_eq!(export_layer("p", "e", "d", "o\0"), None);
}

#[test]
fn export_legacy_writable_layer_passes_its_texts_in_order() {
    assert_eq!(
        export_legacy_writable_layer("m", "f", "e", "d"),
        Some(StorageCall::ExportLegacyWritableLayer {
            mount_path: wide("m"),
            folder_path: wide("f"),
            export_folder_path: wide("e"),
            layer_data: wide("d"),
        })
    );
    assert_eq!(export_legacy_writable_layer("m", "f", "\0", "d"), None);
}

#[test]
fn destroy_layer_names_the_layer() {
    assert_eq!(
        destroy_layer("C:\\layers\\gone"),
        Some(StorageCall::DestroyLayer { layer_path: wide("C:\\layers\\gone") })
    );
    assert_eq!(destroy_layer("C:\\layers\0gone"), None);
}

#[test]
fn setup_base_os_layer_keeps_the_disk_handle() {
    assert_eq!(
        setup_base_os_layer("l", 0x500, "{}"),
        Some(StorageCall::SetupBaseOsLayer {
            layer_path: wide("l"),
            vhd_handle: 0x500,
            options: wide("{}"),
        })
    );
    assert_eq!(setup_base_os_layer("l\0", 0x500, "{}"), None);
}

#[test]
fn initialize_writable_layer_passes_its_texts_in_order() {
    assert_eq!(
        initialize_writable_layer("l", "d", "o"),
        Some(StorageCall::InitializeWritableLayer {
            layer_path: wide("l"),
            layer_data: wide("d"),
            options: wide("o"),
        })
    );
    assert_eq!(initialize_writable_layer("l", "\0d", "o"), None);
}

#[test]
fn initialize_legacy_writable_layer_passes_its_texts_in_order() {
    assert_eq!(
        initialize_legacy_writable_layer("m", "f", "d", "o"),
        Some(StorageCall::InitializeLegacyWritableLayer {
            mount_path: wide("m"),
            folder_path: wide("f"),
            layer_data: wide("d"),
            options: wide("o"),
        })
    );
    assert_eq!(initialize_legacy_writable_layer("m", "f\0", "d", "o"), None);
}

#[test]
fn layer_storage_filter_calls_name_the_layer() {
    assert_eq!(
        attach_layer_storage_filter("l", "d"),
        Some(StorageCall::AttachLayerStorageFilter { layer_path: wide("l"), layer_data: wide("d") })
    );
    assert_eq!(attach_layer_storage_filter("l", "d\0"), None);
    assert_eq!(
        detach_layer_storage_filter("l"),
        Some(StorageCall::DetachLayerStorageFilter { layer_path: wide("l") })
    );
    assert_eq!(detach_layer_storage_filter("\0"), None);
}

#[test]
fn disk_calls_keep_the_disk_handle() {
    assert_eq!(
        format_writable_layer_vhd(0x600),
        StorageCall::FormatWritableLayerVhd { vhd_handle: 0x600 }
    );
    assert_eq!(
        get_layer_vhd_mount_path(0x601),
        StorageCall::GetLayerVhdMountPath { vhd_handle: 0x601 }
    );
}

#[test]
fn network_calls_with_text_encode_it() {
    assert_eq!(
        enumerate_networks("{}"),
        Some(NetworkCall::EnumerateNetworks { query: vec![0x7B, 0x7D, 0] })
    );
    assert_eq!(enumerate_networks("{\0}"), None);
    assert_eq!(
        create_network(&sample_id(), "{\"Name\":\"nat\"}"),
        Some(NetworkCall::CreateNetwork { id: sample_id(), settings: wide("{\"Name\":\"nat\"}") })
    );
    assert_eq!(create_network(&sample_id(), "\0"), None);
    assert_eq!(
        modify_network(0x700, "s"),
        Some(NetworkCall::ModifyNetwork { network: 0x700, settings: wide("s") })
    );
    assert_eq!(modify_network(0x700, "s\0"), None);
    assert_eq!(
        query_network_properties(0x701, "q"),
        Some(NetworkCall::QueryNetworkProperties { network: 0x701, query: wide("q") })
    );
    assert_eq!(query_network_properties(0x701, "\0q"), None);
}

#[test]
fn network_calls_without_text_keep_their_arguments() {
    assert_eq!(open_network(&sample_id()), NetworkCall::OpenNetwork { id: sample_id() });
    assert_eq!(delete_network(&sample_id()), NetworkCall::DeleteNetwork { id: sample_id() });
    assert_eq!(close_network(0x702), NetworkCall::CloseNetwork { network: 0x702 });
}
