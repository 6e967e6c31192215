//! Locating the module and assembling the entry-point table.

use logitech_led::binder::{
    build_table, entry_point_names, first_load_source, retry_by_name, BindError, LoadSource,
    TABLE_LEN,
};
use logitech_led::locator::{locate, registry_probes, RegistryRoot, MODULE_NAME};
use logitech_led::Handle;

#[test]
fn registry_probes_native_layout() {
    let probes = registry_probes(false);
    assert_eq!(probes.len(), 2);
    assert_eq!(probes[0].0, RegistryRoot::ClassesRoot);
    assert_eq!(
        probes[0].1,
        "CLSID\\{a6519e67-7632-4375-afdf-caa889744403}\\ServerBinary"
    );
    assert_eq!(probes[1].0, RegistryRoot::LocalMachine);
    assert_eq!(
        probes[1].1,
        "SOFTWARE\\Classes\\CLSID\\{a6519e67-7632-4375-afdf-caa889744403}\\ServerBinary"
    );
}

#[test]
fn registry_probes_redirected_layout() {
    let probes = registry_probes(true);
    assert_eq!(probes.len(), 3);
    assert_eq!(probes[0].0, RegistryRoot::ClassesRoot);
    assert_eq!(
        probes[2].1,
        "SOFTWARE\\Wow6432Node\\Classes\\CLSID\\{a6519e67-7632-4375-afdf-caa889744403}\\ServerBinary"
    );
}

#[test]
fn locate_picks_the_first_answer() {
    let probes = vec![Some("a".to_string()), Some("b".to_string())];
    assert_eq!(locate(&probes), Some("a".to_string()));
    let probes = vec![None, Some("b".to_string())];
    assert_eq!(locate(&probes), Some("b".to_string()));
}

#[test]
fn locator_fallback_reports_no_path_and_bind_uses_the_default_name() {
    let probes = vec![None, None];
    let located = locate(&probes);
    assert_eq!(located, None);
    let source = first_load_source(located);
    assert!(matches!(source, LoadSource::Name));
    assert_eq!(MODULE_NAME, "LogitechLed.dll");
}

#[test]
fn located_path_is_loaded_first() {
    let source = first_load_source(Some("C:\\vendor\\LogitechLed.dll".to_string()));
    match source {
        LoadSource::Path(p) => assert_eq!(p, "C:\\vendor\\LogitechLed.dll"),
        LoadSource::Name => panic!("expected the located path"),
    }
}

#[test]
fn only_a_stale_path_retries_by_name() {
    assert!(retry_by_name(true, true));
    assert!(!retry_by_name(true, false));
    assert!(!retry_by_name(false, true));
    assert!(!retry_by_name(false, false));
}

#[test]
fn entry_point_names_are_complete() {
    let names = entry_point_names();
    assert_eq!(names.len(), TABLE_LEN);
    assert_eq!(names[0], "LogiLedInit");
    assert_eq!(names[8], "LogiLedSetLighting");
    assert_eq!(names[24], "LogiLedShutdown");
    for i in 0..names.len() {
        for j in 0..i {
            assert_ne!(names[i], names[j]);
        }
    }
}

#[test]
fn complete_resolution_yields_a_table() {
    let addrs: Vec<u64> = (1..=TABLE_LEN as u64).collect();
    let table = build_table(addrs).unwrap();
    assert_eq!(table.entry(0), 1);
    assert_eq!(table.entry(24), 25);
}

#[test]
fn one_missing_entry_point_fails_the_whole_bind() {
    let mut addrs: Vec<u64> = (1..=TABLE_LEN as u64).collect();
    addrs[7] = 0;
    match build_table(addrs) {
        Err(BindError::MissingEntryPoint(i)) => assert_eq!(i, 7),
        _ => panic!("expected the bind to fail on the missing entry point"),
    }
}

#[test]
fn handle_releases_exactly_once() {
    let mut h = Handle::new(0x1000);
    assert_eq!(h.module(), 0x1000);
    assert!(h.release());
    assert!(!h.release());
    assert_eq!(h.module(), 0x1000);
}
