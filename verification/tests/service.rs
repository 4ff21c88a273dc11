use scanner_tool::clock::Timestamp;
use scanner_tool::entities::{
    DocumentType, JobStatus, ScanSettings, Scanner, ScannerStatus, ScannerType, SystemType,
};
use scanner_tool::errors::{Conflict, Entity, ServiceError};
use scanner_tool::model::ScannerEvent;
use scanner_tool::scanner_service::{connection_percent, discovery_delays, ScannerService};

fn device(id: &str, system: SystemType) -> Scanner {
    Scanner::with_id(id.to_string(), format!("Scanner {}", id), ScannerType::Flatbed, system)
}

fn service_with(ids: &[&str]) -> ScannerService {
    let mut service = ScannerService::new(SystemType::Linux);
    for id in ids {
        service.add_scanner(device(id, SystemType::Linux)).unwrap();
    }
    service
}

fn at(secs: i64) -> Timestamp {
    Timestamp { secs, nanos: 0 }
}

fn status_of(service: &ScannerService, id: &str) -> ScannerStatus {
    service.get_scanner(id).unwrap().status
}

fn place_of(service: &ScannerService, id: &str) -> usize {
    service.get_all_scanners().iter().position(|s| s.id == id).unwrap()
}

/// Makes a scanner busy the way it becomes busy: a job is started on it and
/// its run begins. The job comes back.
fn make_busy(service: &mut ScannerService, id: &str) -> String {
    let job = service
        .create_scan_job(id.to_string(), DocumentType::Text, ScanSettings::default())
        .unwrap();
    let snapshot = service.start_scan_job(&job).unwrap().unwrap();
    service.begin_scan(&snapshot, 20, false);
    assert!(matches!(status_of(service, id), ScannerStatus::Busy));
    job
}

fn make_offline(service: &mut ScannerService, id: &str) {
    let place = place_of(service, id);
    service.apply_scanner_event(place, ScannerEvent::WentOffline);
}

fn make_faulty(service: &mut ScannerService, id: &str) {
    let place = place_of(service, id);
    service.apply_scanner_event(place, ScannerEvent::ReportedError);
}

#[test]
fn new_service_is_empty() {
    let service = ScannerService::new(SystemType::MacOS);
    assert_eq!(service.detect_platform(), SystemType::MacOS);
    assert!(service.get_all_scanners().is_empty());
    assert!(service.get_scanners().is_empty());
    assert!(service.get_all_jobs().is_empty());
    assert_eq!(service.get_active_jobs_count(), 0);
}

#[test]
fn create_job_on_available_scanner_gives_a_pending_job() {
    let mut service = service_with(&["d"]);
    let id = service
        .create_scan_job("d".to_string(), DocumentType::Text, ScanSettings::default())
        .unwrap();
    assert_eq!(id.chars().count(), 36);
    let job = service.get_scan_job(&id).unwrap();
    assert_eq!(job.id, id);
    assert_eq!(job.scanner_id, "d");
    assert_eq!(job.document_type, DocumentType::Text);
    assert_eq!(job.scan_settings, ScanSettings::default());
    assert!(matches!(job.status, JobStatus::Pending));
    assert_eq!(job.progress, 0);
    assert!(job.completed_at.is_none());
    assert_eq!(service.get_all_jobs().len(), 1);
    assert_eq!(service.get_active_jobs_count(), 1);
    // creating a job does not take the scanner
    assert!(matches!(status_of(&service, "d"), ScannerStatus::Available));
}

#[test]
fn create_job_as_keeps_identifier_and_time() {
    let mut service = service_with(&["d"]);
    let id = service
        .create_scan_job_as(
            "job-1".to_string(),
            "d".to_string(),
            DocumentType::Photo,
            ScanSettings::default(),
            at(500),
        )
        .unwrap();
    assert_eq!(id, "job-1");
    let job = service.get_scan_job("job-1").unwrap();
    assert_eq!(job.created_at, at(500));
    assert_eq!(job.document_type, DocumentType::Photo);
}

#[test]
fn create_job_against_a_busy_scanner_is_a_conflict_and_creates_no_job() {
    let mut service = service_with(&["d"]);
    let running = make_busy(&mut service, "d");
    let refused =
        service.create_scan_job("d".to_string(), DocumentType::Text, ScanSettings::default());
    assert!(matches!(refused, Err(ServiceError::Conflict(Conflict::ScannerNotAvailable))));
    let jobs: Vec<String> = service.get_all_jobs().iter().map(|j| j.id.clone()).collect();
    assert_eq!(jobs, vec![running]);
    assert!(matches!(status_of(&service, "d"), ScannerStatus::Busy));
}

#[test]
fn create_job_against_offline_or_failed_scanner_is_a_conflict() {
    let mut service = service_with(&["d", "e"]);
    make_offline(&mut service, "d");
    make_faulty(&mut service, "e");
    for id in ["d", "e"] {
        let refused =
            service.create_scan_job(id.to_string(), DocumentType::Text, ScanSettings::default());
        assert!(matches!(refused, Err(ServiceError::Conflict(Conflict::ScannerNotAvailable))));
    }
    assert!(service.get_all_jobs().is_empty());
}

#[test]
fn create_job_for_unknown_scanner_is_not_found() {
    let mut service = service_with(&["d"]);
    let refused =
        service.create_scan_job("zz".to_string(), DocumentType::Text, ScanSettings::default());
    match refused {
        Err(ServiceError::NotFound { entity, id }) => {
            assert_eq!(entity, Entity::Scanner);
            assert_eq!(id, "zz");
        }
        other => panic!("unexpected: {:?}", other),
    }
    assert!(service.get_all_jobs().is_empty());
}

#[test]
fn start_job_sets_it_scanning_and_hands_it_back() {
    let mut service = service_with(&["d"]);
    let id = service
        .create_scan_job("d".to_string(), DocumentType::Text, ScanSettings::default())
        .unwrap();
    let snapshot = service.start_scan_job(&id).unwrap().unwrap();
    assert_eq!(snapshot.id, id);
    assert!(matches!(snapshot.status, JobStatus::Scanning));
    assert_eq!(snapshot.progress, 0);
    let stored = service.get_scan_job(&id).unwrap();
    assert!(matches!(stored.status, JobStatus::Scanning));
    assert_eq!(stored.progress, 0);
}

#[test]
fn a_job_is_started_only_once() {
    let mut service = service_with(&["d"]);
    let id = service
        .create_scan_job("d".to_string(), DocumentType::Text, ScanSettings::default())
        .unwrap();
    let snapshot = service.start_scan_job(&id).unwrap().unwrap();
    let mut run = service.begin_scan(&snapshot, 20, false);
    for _ in 0..8 {
        service.advance_scan(&mut run);
    }
    assert!(service.start_scan_job(&id).unwrap().is_none());
    let job = service.get_scan_job(&id).unwrap();
    assert!(matches!(job.status, JobStatus::Scanning));
    assert_eq!(job.progress, 400);
}

#[test]
fn a_job_in_a_terminal_state_is_not_started_again() {
    let mut service = service_with(&["d"]);
    let id = service
        .create_scan_job("d".to_string(), DocumentType::Text, ScanSettings::default())
        .unwrap();
    service.cancel_scan_job_at(&id, at(3)).unwrap();
    assert!(service.start_scan_job(&id).unwrap().is_none());
    let job = service.get_scan_job(&id).unwrap();
    assert!(matches!(job.status, JobStatus::Cancelled));
    assert_eq!(job.completed_at, Some(at(3)));
}

#[test]
fn a_second_job_waits_while_the_first_scans_on_the_scanner() {
    let mut service = service_with(&["d"]);
    let first = service
        .create_scan_job("d".to_string(), DocumentType::Text, ScanSettings::default())
        .unwrap();
    let second = service
        .create_scan_job("d".to_string(), DocumentType::Text, ScanSettings::default())
        .unwrap();
    let snapshot = service.start_scan_job(&first).unwrap().unwrap();

    // before the run of the first has even begun, the second is held back
    assert!(service.start_scan_job(&second).unwrap().is_none());
    assert!(matches!(service.get_scan_job(&second).unwrap().status, JobStatus::Pending));

    let mut run = service.begin_scan(&snapshot, 20, false);
    assert!(service.start_scan_job(&second).unwrap().is_none());
    while !run.is_finished() {
        match run.next_action() {
            scanner_tool::lifecycle::EngineAction::Sleep(_) => service.advance_scan(&mut run),
            _ => service.finish_scan(
                &mut run,
                scanner_tool::lifecycle::Synthesis::GenerationFailed("no".to_string()),
            ),
        }
        let scanning = service
            .get_all_jobs()
            .iter()
            .filter(|j| matches!(j.status, JobStatus::Scanning | JobStatus::Processing))
            .count();
        assert!(scanning <= 1);
    }

    // the first is over: now the second may scan
    let snapshot = service.start_scan_job(&second).unwrap().unwrap();
    assert!(matches!(snapshot.status, JobStatus::Scanning));
    assert!(service.start_scan_job(&first).unwrap().is_none());
}

#[test]
fn start_unknown_job_is_not_found() {
    let mut service = service_with(&["d"]);
    match service.start_scan_job("nope") {
        Err(ServiceError::NotFound { entity, id }) => {
            assert_eq!(entity, Entity::Job);
            assert_eq!(id, "nope");
        }
        other => panic!("unexpected: {:?}", other),
    }
}

#[test]
fn get_unknown_job_and_scanner_are_not_found() {
    let service = service_with(&["d"]);
    assert!(matches!(
        service.get_scan_job("nope"),
        Err(ServiceError::NotFound { entity: Entity::Job, .. })
    ));
    assert!(matches!(
        service.get_scanner("nope"),
        Err(ServiceError::NotFound { entity: Entity::Scanner, .. })
    ));
    assert!(matches!(
        service.get_scanner_capabilities("nope"),
        Err(ServiceError::NotFound { entity: Entity::Scanner, .. })
    ));
    assert_eq!(service.get_scanner_capabilities("d").unwrap().max_resolution, 600);
}

#[test]
fn cancel_pending_job_frees_the_scanner() {
    let mut service = service_with(&["d"]);
    let id = service
        .create_scan_job("d".to_string(), DocumentType::Text, ScanSettings::default())
        .unwrap();
    make_faulty(&mut service, "d");
    service.cancel_scan_job_at(&id, at(42)).unwrap();
    let job = service.get_scan_job(&id).unwrap();
    assert!(matches!(job.status, JobStatus::Cancelled));
    assert_eq!(job.completed_at, Some(at(42)));
    assert_eq!(job.progress, 0);
    assert!(matches!(status_of(&service, "d"), ScannerStatus::Available));
    assert_eq!(service.get_active_jobs_count(), 0);
}

#[test]
fn cancel_running_job_frees_the_scanner() {
    let mut service = service_with(&["d"]);
    let id = make_busy(&mut service, "d");
    service.cancel_scan_job_at(&id, at(42)).unwrap();
    assert!(matches!(service.get_scan_job(&id).unwrap().status, JobStatus::Cancelled));
    assert!(matches!(status_of(&service, "d"), ScannerStatus::Available));
}

#[test]
fn cancel_scanning_job_now_records_a_time() {
    let mut service = service_with(&["d"]);
    let id = service
        .create_scan_job("d".to_string(), DocumentType::Text, ScanSettings::default())
        .unwrap();
    service.start_scan_job(&id).unwrap().unwrap();
    service.cancel_scan_job(&id).unwrap();
    let job = service.get_scan_job(&id).unwrap();
    assert!(matches!(job.status, JobStatus::Cancelled));
    assert!(job.completed_at.unwrap().secs >= job.created_at.secs);
}

#[test]
fn cancel_terminal_job_is_a_conflict_and_changes_nothing() {
    let mut service = service_with(&["d"]);
    let id = service
        .create_scan_job("d".to_string(), DocumentType::Text, ScanSettings::default())
        .unwrap();
    service.cancel_scan_job_at(&id, at(42)).unwrap();
    let other = make_busy(&mut service, "d");

    let again = service.cancel_scan_job_at(&id, at(43));
    assert!(matches!(again, Err(ServiceError::Conflict(Conflict::NotCancellable))));
    let job = service.get_scan_job(&id).unwrap();
    assert!(matches!(job.status, JobStatus::Cancelled));
    assert_eq!(job.completed_at, Some(at(42)));
    assert!(matches!(status_of(&service, "d"), ScannerStatus::Busy));

    assert!(matches!(
        service.cancel_scan_job(&id),
        Err(ServiceError::Conflict(Conflict::NotCancellable))
    ));
    assert!(matches!(service.get_scan_job(&other).unwrap().status, JobStatus::Scanning));
}

#[test]
fn cancel_unknown_job_is_not_found() {
    let mut service = service_with(&["d"]);
    assert!(matches!(
        service.cancel_scan_job("nope"),
        Err(ServiceError::NotFound { entity: Entity::Job, .. })
    ));
}

#[test]
fn add_scanner_of_another_system_is_refused() {
    let mut service = ScannerService::new(SystemType::Linux);
    let refused = service.add_scanner(device("w", SystemType::Windows));
    assert!(matches!(
        refused,
        Err(ServiceError::Conflict(Conflict::SystemMismatch {
            scanner: SystemType::Windows,
            current: SystemType::Linux
        }))
    ));
    assert!(service.get_all_scanners().is_empty());
}

#[test]
fn add_scanner_without_identifier_gets_a_fresh_one() {
    let mut service = ScannerService::new(SystemType::Linux);
    let id = service.add_scanner(device("", SystemType::Linux)).unwrap();
    assert_eq!(id.chars().count(), 36);
    assert_eq!(service.get_scanner(&id).unwrap().name, "Scanner ");
    let kept = service.add_scanner(device("mine", SystemType::Linux)).unwrap();
    assert_eq!(kept, "mine");
    assert_eq!(service.get_all_scanners().len(), 2);
}

#[test]
fn add_scanner_with_uses_the_spare_only_for_an_empty_identifier() {
    let mut service = ScannerService::new(SystemType::Linux);
    let a = service.add_scanner_with(device("", SystemType::Linux), "spare".to_string()).unwrap();
    assert_eq!(a, "spare");
    let b = service.add_scanner_with(device("own", SystemType::Linux), "other".to_string()).unwrap();
    assert_eq!(b, "own");
    assert!(service.get_scanner("other").is_err());
}

#[test]
fn add_scanner_under_a_taken_identifier_replaces_it() {
    let mut service = service_with(&["d"]);
    let mut again = device("d", SystemType::Linux);
    again.name = "Again".to_string();
    service.add_scanner(again).unwrap();
    assert_eq!(service.get_all_scanners().len(), 1);
    assert_eq!(service.get_scanner("d").unwrap().name, "Again");
}

#[test]
fn remove_scanner_with_active_jobs_is_refused() {
    let mut service = service_with(&["d", "e"]);
    let first = service
        .create_scan_job("d".to_string(), DocumentType::Text, ScanSettings::default())
        .unwrap();
    let second = service
        .create_scan_job("d".to_string(), DocumentType::Text, ScanSettings::default())
        .unwrap();
    service.start_scan_job(&second).unwrap().unwrap();
    assert_eq!(service.get_active_jobs_for_scanner("d").len(), 2);
    match service.remove_scanner("d") {
        Err(ServiceError::Conflict(Conflict::ActiveJobs { job_ids })) => {
            assert_eq!(job_ids, vec![first.clone(), second.clone()]);
        }
        other => panic!("unexpected: {:?}", other),
    }
    assert_eq!(service.get_all_scanners().len(), 2);

    service.cancel_scan_job(&first).unwrap();
    match service.remove_scanner("d") {
        Err(ServiceError::Conflict(Conflict::ActiveJobs { job_ids })) => {
            assert_eq!(job_ids, vec![second.clone()]);
        }
        other => panic!("unexpected: {:?}", other),
    }
    service.cancel_scan_job(&second).unwrap();
    assert!(service.remove_scanner("d").is_ok());
    let left: Vec<String> = service.get_all_scanners().iter().map(|s| s.id.clone()).collect();
    assert_eq!(left, vec!["e"]);
    assert!(service.get_scanner("d").is_err());
}

#[test]
fn remove_unknown_scanner_is_not_found() {
    let mut service = service_with(&["d"]);
    assert!(matches!(
        service.remove_scanner("zz"),
        Err(ServiceError::NotFound { entity: Entity::Scanner, .. })
    ));
    assert_eq!(service.get_all_scanners().len(), 1);
}

#[test]
fn reset_scanner_status_makes_it_available() {
    let mut service = service_with(&["d"]);
    make_faulty(&mut service, "d");
    service.reset_scanner_status("d").unwrap();
    assert!(matches!(status_of(&service, "d"), ScannerStatus::Available));
    assert!(matches!(
        service.reset_scanner_status("zz"),
        Err(ServiceError::NotFound { entity: Entity::Scanner, .. })
    ));
}

#[test]
fn system_info_counts_available_scanners_and_active_jobs() {
    let mut service = ScannerService::new(SystemType::Linux);
    service.install_scanners(&vec![
        device("a", SystemType::Linux),
        device("b", SystemType::Linux),
        device("c", SystemType::Linux),
        device("d", SystemType::Linux),
        device("m", SystemType::MacOS),
    ]);
    let info = service.get_system_info();
    assert_eq!(info.available_scanners, 5);
    assert_eq!(info.total_scanners, 5);
    assert_eq!(info.active_jobs, 0);

    let running = make_busy(&mut service, "a");
    make_offline(&mut service, "b");
    make_faulty(&mut service, "c");
    let waiting = service
        .create_scan_job("d".to_string(), DocumentType::Text, ScanSettings::default())
        .unwrap();
    let info = service.get_system_info();
    assert_eq!(info.platform, SystemType::Linux);
    assert_eq!(info.available_scanners, 2);
    assert_eq!(info.total_scanners, 5);
    assert_eq!(info.active_jobs, 2);
    assert_eq!(info.scanner_api, "Scanner Access Now Easy (SANE)");

    service.cancel_scan_job(&waiting).unwrap();
    service.cancel_scan_job(&running).unwrap();
    let info = service.get_system_info();
    assert_eq!(info.available_scanners, 3);
    assert_eq!(info.active_jobs, 0);
}

#[test]
fn one_busy_scanner_is_not_available() {
    let mut service = service_with(&["d"]);
    make_busy(&mut service, "d");
    let info = service.get_system_info();
    assert_eq!(info.available_scanners, 0);
    assert_eq!(info.total_scanners, 1);
}

#[test]
fn api_labels_by_platform() {
    let service = ScannerService::new(SystemType::Linux);
    assert_eq!(service.get_scanner_api_info(SystemType::Windows), "Windows Image Acquisition (WIA)");
    assert_eq!(service.get_scanner_api_info(SystemType::MacOS), "Image Capture Framework");
    assert_eq!(service.get_scanner_api_info(SystemType::Linux), "Scanner Access Now Easy (SANE)");
}

#[test]
fn scanners_are_listed_by_system() {
    let mut service = ScannerService::new(SystemType::Linux);
    service.install_scanners(&vec![device("d", SystemType::Linux), device("m", SystemType::MacOS)]);
    assert_eq!(service.get_scanners().len(), 1);
    assert_eq!(service.get_scanners()[0].id, "d");
    assert_eq!(service.get_scanners_by_system(SystemType::MacOS)[0].id, "m");
    assert!(service.get_scanners_by_system(SystemType::Windows).is_empty());
    assert_eq!(service.get_all_scanners().len(), 2);
}

#[test]
fn discovery_finds_the_scanners_of_the_platform() {
    let mut linux = ScannerService::new(SystemType::Linux);
    let found = linux.discover_scanners();
    assert_eq!(found.len(), 2);
    assert_eq!(found[0].name, "HP LaserJet MFP M28w (SANE)");
    assert_eq!(found[0].scanner_type, ScannerType::Flatbed);
    assert_eq!(found[0].capabilities.max_resolution, 1200);
    assert!(!found[0].capabilities.has_duplex);
    assert!(!found[0].capabilities.has_adf);
    assert_eq!(found[1].name, "Epson ET-4850 (SANE)");
    assert!(found[1].capabilities.has_adf);
    assert!(found.iter().all(|s| s.system_type == SystemType::Linux && s.is_available()));
    assert!(found.iter().all(|s| s.id.chars().count() == 36));
    assert_eq!(linux.get_scanners().len(), 2);

    let mut mac = ScannerService::new(SystemType::MacOS);
    let found = mac.discover_scanners();
    let names: Vec<&str> = found.iter().map(|s| s.name.as_str()).collect();
    assert_eq!(
        names,
        vec!["Brother MFC-L3770CDW", "Epson Perfection V850 Pro", "Canon imageFORMULA R40"]
    );
    assert_eq!(found[1].scanner_type, ScannerType::PhotoScanner);
    assert_eq!(found[1].capabilities.max_resolution, 6400);
    assert_eq!(found[2].capabilities.max_resolution, 600);
    assert!(found[2].capabilities.has_duplex);

    let mut windows = ScannerService::new(SystemType::Windows);
    let found = windows.discover_scanners();
    let names: Vec<&str> = found.iter().map(|s| s.name.as_str()).collect();
    assert_eq!(names, vec!["HP ScanJet Pro 2500 f1 (WIA)", "Canon CanoScan LiDE 400 (WIA)"]);
    assert_eq!(found[0].scanner_type, ScannerType::DocumentFeeder);
    assert!(found[0].capabilities.has_adf);
    assert_eq!(found[1].capabilities.max_resolution, 4800);
}

#[test]
fn second_discovery_leaves_only_its_own_scanners() {
    let mut service = service_with(&["manual"]);
    let first = service.discover_scanners();
    let second = service.discover_scanners();
    let registry: Vec<String> = service.get_all_scanners().iter().map(|s| s.id.clone()).collect();
    let second_ids: Vec<String> = second.iter().map(|s| s.id.clone()).collect();
    assert_eq!(registry, second_ids);
    assert!(service.get_scanner("manual").is_err());
    for scanner in &first {
        assert!(service.get_scanner(&scanner.id).is_err());
    }
}

#[test]
fn discovery_returns_the_registry_as_it_stands() {
    let mut service = service_with(&["manual"]);
    let found = service.discover_scanners();
    let listed = service.get_all_scanners();
    assert_eq!(found.len(), listed.len());
    for (a, b) in found.iter().zip(listed.iter()) {
        assert_eq!(a.id, b.id);
        assert_eq!(a.name, b.name);
        assert_eq!(a.capabilities.max_resolution, b.capabilities.max_resolution);
    }
}

#[test]
fn discovery_cancels_the_jobs_whose_scanner_is_gone() {
    let mut service = service_with(&["d", "e"]);
    let pending = service
        .create_scan_job("d".to_string(), DocumentType::Text, ScanSettings::default())
        .unwrap();
    let running = make_busy(&mut service, "e");
    let done = service
        .create_scan_job("d".to_string(), DocumentType::Text, ScanSettings::default())
        .unwrap();
    service.cancel_scan_job_at(&done, at(3)).unwrap();

    service.discover_scanners();

    for id in [&pending, &running] {
        let job = service.get_scan_job(id).unwrap();
        assert!(matches!(job.status, JobStatus::Cancelled));
        assert!(job.completed_at.is_some());
        assert!(service.get_scanner(&job.scanner_id).is_err());
    }
    assert_eq!(service.get_scan_job(&done).unwrap().completed_at, Some(at(3)));
    assert_eq!(service.get_active_jobs_count(), 0);
    assert_eq!(service.get_all_jobs().len(), 3);
}

#[test]
fn installing_scanners_keeps_the_jobs_whose_scanner_stays() {
    let mut service = service_with(&["d", "e"]);
    let stays = service
        .create_scan_job("d".to_string(), DocumentType::Text, ScanSettings::default())
        .unwrap();
    let running = make_busy(&mut service, "d");
    let goes = service
        .create_scan_job("e".to_string(), DocumentType::Text, ScanSettings::default())
        .unwrap();

    service.install_scanners_at(&vec![device("x", SystemType::Linux), device("d", SystemType::Linux)], at(9));

    assert!(matches!(service.get_scan_job(&stays).unwrap().status, JobStatus::Pending));
    assert!(matches!(service.get_scan_job(&running).unwrap().status, JobStatus::Scanning));
    let gone = service.get_scan_job(&goes).unwrap();
    assert!(matches!(gone.status, JobStatus::Cancelled));
    assert_eq!(gone.completed_at, Some(at(9)));
    // every job that still has work before it has a scanner that can be found
    for job in service.get_all_jobs() {
        assert!(!job.status.is_active() || service.get_scanner(&job.scanner_id).is_ok());
    }
}

#[test]
fn install_scanners_replaces_the_registry() {
    let mut service = service_with(&["a", "b"]);
    service.install_scanners(&vec![device("x", SystemType::Linux)]);
    let ids: Vec<String> = service.get_all_scanners().iter().map(|s| s.id.clone()).collect();
    assert_eq!(ids, vec!["x"]);
}

#[test]
fn discovery_delays_by_platform() {
    assert_eq!(discovery_delays(SystemType::Windows), vec![1500, 300, 200, 200]);
    assert_eq!(discovery_delays(SystemType::MacOS), vec![1500, 400, 250, 300, 200]);
    assert_eq!(discovery_delays(SystemType::Linux), vec![1500, 500, 300, 250]);
}

#[test]
fn connection_odds_by_type() {
    assert_eq!(connection_percent(ScannerType::Flatbed), 95);
    assert_eq!(connection_percent(ScannerType::DocumentFeeder), 90);
    assert_eq!(connection_percent(ScannerType::SheetFed), 85);
    assert_eq!(connection_percent(ScannerType::Handheld), 80);
    assert_eq!(connection_percent(ScannerType::FilmScanner), 88);
    assert_eq!(connection_percent(ScannerType::PhotoScanner), 92);
}

#[test]
fn connection_test_answers_for_known_scanners_only() {
    let service = service_with(&["d"]);
    let mut good = 0;
    for _ in 0..400 {
        if service.test_scanner_connection("d").unwrap() {
            good += 1;
        }
    }
    // a flatbed connects 95 times in 100
    assert!(good > 300 && good < 400);
    assert!(matches!(
        service.test_scanner_connection("zz"),
        Err(ServiceError::NotFound { entity: Entity::Scanner, .. })
    ));
}

#[test]
fn scanner_events_change_one_status() {
    let mut service = service_with(&["a", "b"]);
    service.apply_scanner_event(1, ScannerEvent::WentOffline);
    assert!(matches!(status_of(&service, "b"), ScannerStatus::Offline));
    assert!(matches!(status_of(&service, "a"), ScannerStatus::Available));

    service.apply_scanner_event(1, ScannerEvent::CameOnline);
    assert!(matches!(status_of(&service, "b"), ScannerStatus::Available));

    service.apply_scanner_event(0, ScannerEvent::ReportedError);
    assert!(matches!(status_of(&service, "a"), ScannerStatus::Error(ref r) if r == "Paper jam detected"));

    // only an offline scanner comes back online
    service.apply_scanner_event(0, ScannerEvent::CameOnline);
    assert!(matches!(status_of(&service, "a"), ScannerStatus::Error(_)));
    make_busy(&mut service, "b");
    service.apply_scanner_event(1, ScannerEvent::CameOnline);
    assert!(matches!(status_of(&service, "b"), ScannerStatus::Busy));

    // past the end nothing happens
    service.apply_scanner_event(2, ScannerEvent::WentOffline);
    assert!(matches!(status_of(&service, "b"), ScannerStatus::Busy));
    assert_eq!(service.get_all_scanners().len(), 2);
}

#[test]
fn a_drawn_number_stands_for_an_event() {
    assert_eq!(ScannerEvent::from_draw(0), ScannerEvent::WentOffline);
    assert_eq!(ScannerEvent::from_draw(1), ScannerEvent::CameOnline);
    assert_eq!(ScannerEvent::from_draw(2), ScannerEvent::ReportedError);
    assert_eq!(ScannerEvent::from_draw(u64::MAX), ScannerEvent::ReportedError);
}

#[test]
fn simulated_events_touch_statuses_only() {
    let mut service = service_with(&["a", "b", "c"]);
    let id = service
        .create_scan_job("a".to_string(), DocumentType::Text, ScanSettings::default())
        .unwrap();
    let mut changed = 0;
    for _ in 0..2000 {
        service.simulate_scanner_events();
        let all = service.get_all_scanners();
        assert_eq!(all.len(), 3);
        for scanner in &all {
            match &scanner.status {
                ScannerStatus::Available => {}
                ScannerStatus::Offline => changed += 1,
                ScannerStatus::Error(reason) => {
                    assert_eq!(reason, "Paper jam detected");
                    changed += 1;
                }
                ScannerStatus::Busy => panic!("no event makes a scanner busy"),
            }
        }
    }
    assert!(changed > 0);
    assert!(matches!(service.get_scan_job(&id).unwrap().status, JobStatus::Pending));
    // an empty registry is left alone
    let mut empty = ScannerService::new(SystemType::Linux);
    for _ in 0..100 {
        empty.simulate_scanner_events();
    }
    assert!(empty.get_all_scanners().is_empty());
}

#[test]
fn no_operation_leaves_two_jobs_scanning_on_one_scanner_or_a_job_without_scanner() {
    fn sound(service: &ScannerService) {
        let jobs = service.get_all_jobs();
        for job in &jobs {
            if job.status.is_active() {
                assert!(service.get_scanner(&job.scanner_id).is_ok());
            }
            assert!(job.progress <= 1000);
        }
        for scanner in service.get_all_scanners() {
            let holders = jobs
                .iter()
                .filter(|j| j.scanner_id == scanner.id)
                .filter(|j| matches!(j.status, JobStatus::Scanning | JobStatus::Processing))
                .count();
            assert!(holders <= 1);
        }
        let info = service.get_system_info();
        assert!(info.available_scanners <= info.total_scanners);
    }

    let mut service = service_with(&["d", "e"]);
    let mut jobs = Vec::new();
    for round in 0..6 {
        let scanner = if round % 2 == 0 { "d" } else { "e" };
        if let Ok(id) =
            service.create_scan_job(scanner.to_string(), DocumentType::Text, ScanSettings::default())
        {
            jobs.push(id);
        }
        sound(&service);
    }
    let mut runs = Vec::new();
    for id in &jobs {
        if let Some(snapshot) = service.start_scan_job(id).unwrap() {
            runs.push(service.launch_scan(&snapshot));
        }
        sound(&service);
    }
    assert_eq!(runs.len(), 2);
    for step in 0..25 {
        for run in runs.iter_mut() {
            service.advance_scan(run);
            sound(&service);
        }
        if step == 3 {
            service.cancel_scan_job(&jobs[0]).unwrap();
            sound(&service);
            if let Some(snapshot) = service.start_scan_job(&jobs[2]).unwrap() {
                runs.push(service.launch_scan(&snapshot));
            }
            sound(&service);
        }
        if step == 6 {
            assert!(service.remove_scanner("e").is_err());
            service.simulate_scanner_events();
            sound(&service);
        }
        if step == 9 {
            service.discover_scanners();
            sound(&service);
            assert_eq!(service.get_active_jobs_count(), 0);
        }
    }
    for run in runs.iter() {
        assert!(run.is_finished());
    }
    sound(&service);
}
