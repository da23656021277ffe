use adaptive_concurrency::handlers::{get_run, start_run};
use adaptive_concurrency::models::RunStatus;
use adaptive_concurrency::storage::Storage;

#[test]
fn start_run_singleton() {
    let mut storage = Storage::default();
    // The first of two near-simultaneous requests finds no run active.
    let first = start_run(false, &mut storage);
    assert_eq!(first.unwrap().id, 0);
    // The second finds the running flag already taken and is rejected.
    let second = start_run(true, &mut storage);
    assert_eq!(second.unwrap_err().error, "'run' already started");
    assert_eq!(storage.next_run_id(), 1);
}

#[test]
fn get_run_unknown_id() {
    let storage = Storage::default();
    let response = get_run(99, &storage);
    assert_eq!(response.unwrap_err().error, "'run' not exists");
}

#[test]
fn get_run_known_id() {
    let mut storage = Storage::default();
    let created = start_run(false, &mut storage).unwrap();
    storage.insert(created.id, 42);
    let run = get_run(created.id, &storage).unwrap();
    assert_eq!(run.status, RunStatus::InProgress);
    assert_eq!(run.successful_responses_count, 1);
    assert_eq!(run.sum, 42);
    storage.run_ended(created.id);
    let run = get_run(created.id, &storage).unwrap();
    assert_eq!(run.status, RunStatus::Finished);
}
