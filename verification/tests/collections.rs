use scanner_tool::clock::Timestamp;
use scanner_tool::entities::{
    DocumentType, JobStatus, ScanJob, ScanSettings, Scanner, ScannerStatus, ScannerType, SystemType,
};
use scanner_tool::job_store::{JobChange, JobStore};
use scanner_tool::registry::DeviceRegistry;
use scanner_tool::scan_generator::ScanGenerator;

fn device(id: &str, system: SystemType) -> Scanner {
    Scanner::with_id(id.to_string(), format!("Scanner {}", id), ScannerType::Flatbed, system)
}

fn job(id: &str, scanner: &str) -> ScanJob {
    ScanJob::with_id(
        id.to_string(),
        scanner.to_string(),
        DocumentType::Text,
        ScanSettings::default(),
        Timestamp { secs: 10, nanos: 0 },
    )
}

fn ids(list: &[Scanner]) -> Vec<String> {
    list.iter().map(|s| s.id.clone()).collect()
}

#[test]
fn registry_starts_empty() {
    let registry = DeviceRegistry::new();
    assert_eq!(registry.len(), 0);
    assert!(registry.list().is_empty());
    assert!(registry.get("a").is_none());
    assert!(!registry.contains("a"));
    assert!(registry.peek(0).is_none());
}

#[test]
fn registry_upsert_appends_new_and_replaces_in_place() {
    let mut registry = DeviceRegistry::new();
    registry.upsert(device("a", SystemType::Linux));
    registry.upsert(device("b", SystemType::Linux));
    registry.upsert(device("c", SystemType::MacOS));
    assert_eq!(ids(&registry.list()), vec!["a", "b", "c"]);

    let mut again = device("b", SystemType::Windows);
    again.name = "Replaced".to_string();
    registry.upsert(again);
    assert_eq!(registry.len(), 3);
    assert_eq!(ids(&registry.list()), vec!["a", "b", "c"]);
    let b = registry.get("b").unwrap();
    assert_eq!(b.name, "Replaced");
    assert_eq!(b.system_type, SystemType::Windows);
    assert_eq!(registry.peek(1).unwrap().name, "Replaced");
}

#[test]
fn registry_lists_by_system_in_order() {
    let mut registry = DeviceRegistry::new();
    registry.upsert(device("a", SystemType::Linux));
    registry.upsert(device("b", SystemType::MacOS));
    registry.upsert(device("c", SystemType::Linux));
    assert_eq!(ids(&registry.list_by_system(SystemType::Linux)), vec!["a", "c"]);
    assert_eq!(ids(&registry.list_by_system(SystemType::MacOS)), vec!["b"]);
    assert!(registry.list_by_system(SystemType::Windows).is_empty());
    assert_eq!(registry.count_by_system(SystemType::Linux), 2);
    assert_eq!(registry.count_by_system(SystemType::Windows), 0);
}

#[test]
fn registry_remove_takes_one_out() {
    let mut registry = DeviceRegistry::new();
    registry.upsert(device("a", SystemType::Linux));
    registry.upsert(device("b", SystemType::Linux));
    registry.upsert(device("c", SystemType::Linux));
    let gone = registry.remove("b").unwrap();
    assert_eq!(gone.id, "b");
    assert_eq!(ids(&registry.list()), vec!["a", "c"]);
    assert!(registry.remove("b").is_none());
    assert_eq!(registry.len(), 2);
    assert!(!registry.contains("b"));
    assert!(registry.contains("c"));
}

#[test]
fn registry_set_status_touches_one_scanner() {
    let mut registry = DeviceRegistry::new();
    registry.upsert(device("a", SystemType::Linux));
    registry.upsert(device("b", SystemType::Linux));
    assert!(registry.set_status("b", ScannerStatus::Busy));
    assert!(matches!(registry.get("b").unwrap().status, ScannerStatus::Busy));
    assert!(matches!(registry.get("a").unwrap().status, ScannerStatus::Available));
    assert_eq!(registry.get("b").unwrap().name, "Scanner b");
    assert!(!registry.set_status("zz", ScannerStatus::Busy));
    assert_eq!(ids(&registry.list()), vec!["a", "b"]);
}

#[test]
fn registry_replace_all_drops_what_was_there() {
    let mut registry = DeviceRegistry::new();
    registry.upsert(device("old", SystemType::Linux));
    registry.replace_all(&vec![device("x", SystemType::Linux), device("y", SystemType::Linux)]);
    assert_eq!(ids(&registry.list()), vec!["x", "y"]);
    registry.replace_all(&Vec::new());
    assert_eq!(registry.len(), 0);
}

#[test]
fn registry_replace_all_keeps_the_last_of_two_with_one_identifier() {
    let mut registry = DeviceRegistry::new();
    let mut second = device("x", SystemType::Linux);
    second.name = "Second".to_string();
    registry.replace_all(&vec![
        device("x", SystemType::Linux),
        device("y", SystemType::Linux),
        second,
    ]);
    assert_eq!(ids(&registry.list()), vec!["x", "y"]);
    assert_eq!(registry.get("x").unwrap().name, "Second");
}

#[test]
fn store_insert_get_list() {
    let mut store = JobStore::new();
    assert_eq!(store.len(), 0);
    assert!(store.get("j1").is_none());
    store.insert(job("j1", "a"));
    store.insert(job("j2", "b"));
    assert_eq!(store.len(), 2);
    assert_eq!(store.get("j2").unwrap().scanner_id, "b");
    let listed: Vec<String> = store.list().iter().map(|j| j.id.clone()).collect();
    assert_eq!(listed, vec!["j1", "j2"]);
    store.insert(job("j1", "c"));
    assert_eq!(store.len(), 2);
    assert_eq!(store.find("j1").unwrap().scanner_id, "c");
}

#[test]
fn store_update_applies_each_change_to_one_job() {
    let mut store = JobStore::new();
    store.insert(job("j1", "a"));
    store.insert(job("j2", "a"));

    assert!(store.update("j1", JobChange::Start));
    assert!(matches!(store.get("j1").unwrap().status, JobStatus::Scanning));
    assert!(matches!(store.get("j2").unwrap().status, JobStatus::Pending));

    assert!(store.update("j1", JobChange::Progress(450)));
    assert_eq!(store.get("j1").unwrap().progress, 450);
    assert!(store.update("j1", JobChange::Progress(300)));
    assert_eq!(store.get("j1").unwrap().progress, 450);
    assert!(store.update("j1", JobChange::Progress(5000)));
    assert_eq!(store.get("j1").unwrap().progress, 1000);

    let t = Timestamp { secs: 99, nanos: 7 };
    let result = ScanGenerator::describe("/out/a.pdf".to_string(), 12, &ScanSettings::default(), t);
    assert!(store.update("j1", JobChange::Complete { result, at: t }));
    let done = store.get("j1").unwrap();
    assert!(matches!(done.status, JobStatus::Completed));
    assert_eq!(done.progress, 1000);
    assert_eq!(done.completed_at, Some(t));
    assert_eq!(done.scan_result.unwrap().file_path, "/out/a.pdf");

    assert!(store.update("j2", JobChange::Fail { reason: "bad".to_string(), at: t }));
    assert!(matches!(store.get("j2").unwrap().status, JobStatus::Failed(ref r) if r == "bad"));

    store.insert(job("j3", "a"));
    assert!(store.update("j3", JobChange::Cancel { at: t }));
    assert!(matches!(store.get("j3").unwrap().status, JobStatus::Cancelled));
    assert_eq!(store.get("j3").unwrap().completed_at, Some(t));

    assert!(!store.update("nope", JobChange::Start));
    assert_eq!(store.len(), 3);
}

#[test]
fn store_knows_which_scanner_is_held() {
    let mut store = JobStore::new();
    store.insert(job("j1", "a"));
    store.insert(job("j2", "b"));
    assert!(!store.scanner_held("a"));
    store.update("j1", JobChange::Start);
    assert!(store.scanner_held("a"));
    assert!(!store.scanner_held("b"));
    assert!(!store.scanner_held("c"));
    store.update("j1", JobChange::Cancel { at: Timestamp { secs: 1, nanos: 0 } });
    assert!(!store.scanner_held("a"));
}

#[test]
fn store_cancels_the_jobs_whose_scanner_is_gone() {
    let mut registry = DeviceRegistry::new();
    registry.upsert(device("a", SystemType::Linux));
    let mut store = JobStore::new();
    store.insert(job("pending-a", "a"));
    store.insert(job("pending-b", "b"));
    store.insert(job("scanning-b", "b"));
    store.insert(job("failed-b", "b"));
    store.update("scanning-b", JobChange::Start);
    store.update("scanning-b", JobChange::Progress(300));
    let early = Timestamp { secs: 5, nanos: 0 };
    store.update("failed-b", JobChange::Fail { reason: "x".to_string(), at: early });

    let now = Timestamp { secs: 70, nanos: 1 };
    store.cancel_stranded(&registry, now);

    let kept = store.get("pending-a").unwrap();
    assert!(matches!(kept.status, JobStatus::Pending));
    assert!(kept.completed_at.is_none());
    for id in ["pending-b", "scanning-b"] {
        let gone = store.get(id).unwrap();
        assert!(matches!(gone.status, JobStatus::Cancelled));
        assert_eq!(gone.completed_at, Some(now));
    }
    assert_eq!(store.get("scanning-b").unwrap().progress, 300);
    let failed = store.get("failed-b").unwrap();
    assert!(matches!(failed.status, JobStatus::Failed(ref r) if r == "x"));
    assert_eq!(failed.completed_at, Some(early));
    let order: Vec<String> = store.list().iter().map(|j| j.id.clone()).collect();
    assert_eq!(order, vec!["pending-a", "pending-b", "scanning-b", "failed-b"]);
}

#[test]
fn registry_counts_the_available_scanners() {
    let mut registry = DeviceRegistry::new();
    assert_eq!(registry.count_available(), 0);
    registry.upsert(device("a", SystemType::Linux));
    registry.upsert(device("b", SystemType::MacOS));
    registry.upsert(device("c", SystemType::Linux));
    registry.upsert(device("d", SystemType::Linux));
    assert_eq!(registry.count_available(), 4);
    registry.set_status("a", ScannerStatus::Busy);
    registry.set_status("b", ScannerStatus::Offline);
    registry.set_status("c", ScannerStatus::Error("jam".to_string()));
    assert_eq!(registry.count_available(), 1);
    registry.set_status("a", ScannerStatus::Available);
    assert_eq!(registry.count_available(), 2);
}

#[test]
fn store_counts_active_jobs() {
    let mut store = JobStore::new();
    assert_eq!(store.count_active(), 0);
    store.insert(job("j1", "a"));
    store.insert(job("j2", "a"));
    store.insert(job("j3", "b"));
    assert_eq!(store.count_active(), 3);
    store.update("j1", JobChange::Start);
    assert_eq!(store.count_active(), 3);
    store.update("j2", JobChange::Cancel { at: Timestamp { secs: 1, nanos: 0 } });
    assert_eq!(store.count_active(), 2);
    assert_eq!(store.active_for_scanner("a"), vec!["j1"]);
    assert_eq!(store.active_for_scanner("b"), vec!["j3"]);
    assert!(store.active_for_scanner("c").is_empty());
}
