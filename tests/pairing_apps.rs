use iloader::error::IloaderError;
use iloader::pairing::{
    catalog_entries, device_path, export_destination, get_sidestore_info, installed_pairing_apps,
    placement_folder, InstalledApp,
};

fn app(bundle: &str, name: Option<&str>) -> InstalledApp {
    InstalledApp { bundle_id: bundle.to_string(), display_name: name.map(|n| n.to_string()) }
}

#[test]
fn catalog_has_five_apps() {
    let c = catalog_entries();
    let names: Vec<&str> = c.iter().map(|e| e.name.as_str()).collect();
    assert_eq!(names, vec!["SideStore", "Feather", "StikDebug", "Protokolle", "Antrag"]);
    assert_eq!(c[0].path, "ALTPairingFile.mobiledevicepairing");
    assert_eq!(c[1].path, "pairingFile.plist");
}

#[test]
fn listed_in_catalog_order_last_seen_wins() {
    let installed = vec![
        app("com.example.other", Some("Notes")),
        app("com.kdt.feather", Some("Feather")),
        app("com.SideStore.SideStore", Some("SideStore")),
        app("com.kdt.feather2", Some("Feather")),
    ];
    let r = installed_pairing_apps(&installed).unwrap();
    assert_eq!(r.len(), 2);
    assert_eq!(r[0].name, "SideStore");
    assert_eq!(r[0].bundle_id, "com.SideStore.SideStore");
    assert_eq!(r[0].path, "ALTPairingFile.mobiledevicepairing");
    assert_eq!(r[1].name, "Feather");
    assert_eq!(r[1].bundle_id, "com.kdt.feather2");
    assert_eq!(r[1].path, "pairingFile.plist");
    assert_ne!(r[0].name, r[1].name);
}

#[test]
fn no_catalog_app_installed_gives_empty() {
    let r = installed_pairing_apps(&vec![app("a.b", Some("Mail"))]).unwrap();
    assert!(r.is_empty());
    assert!(installed_pairing_apps(&vec![]).unwrap().is_empty());
}

#[test]
fn unreadable_name_is_malformed_metadata() {
    let r = installed_pairing_apps(&vec![app("a.b", Some("Feather")), app("c.d", None)]);
    assert!(matches!(r, Err(IloaderError::MalformedAppMetadata)));
}

#[test]
fn primary_app_found_first() {
    let installed = vec![
        app("x.y", Some("Feather")),
        app("com.SideStore.SideStore", Some("SideStore")),
        app("late", None),
    ];
    let r = get_sidestore_info(&installed).unwrap().unwrap();
    assert_eq!(r.name, "SideStore");
    assert_eq!(r.bundle_id, "com.SideStore.SideStore");
    assert_eq!(r.path, "ALTPairingFile.mobiledevicepairing");
}

#[test]
fn primary_app_absent_or_malformed() {
    assert!(matches!(get_sidestore_info(&vec![app("x", Some("Feather"))]), Ok(None)));
    assert!(matches!(
        get_sidestore_info(&vec![app("x", None), app("y", Some("SideStore"))]),
        Err(IloaderError::MalformedAppMetadata)
    ));
}

#[test]
fn credential_lands_under_documents() {
    assert_eq!(device_path("pairingFile.plist"), "/Documents/pairingFile.plist");
    assert_eq!(device_path("pairingFile.plist"), device_path("pairingFile.plist"));
}

#[test]
fn cancelled_export_picker() {
    assert!(matches!(export_destination(None), Err(IloaderError::Cancelled)));
    assert_eq!(export_destination(Some("/tmp/p.plist".to_string())).unwrap(), "/tmp/p.plist");
}

#[test]
fn credential_folder_is_parent_of_path() {
    assert_eq!(placement_folder("pairingFile.plist"), "/Documents");
    assert_eq!(placement_folder("a/b/c.plist"), "/Documents/a/b");
    assert_eq!(placement_folder("/x"), "/Documents/");
}
