use adaptive_concurrency::models::{Run, RunStatus};
use adaptive_concurrency::storage::Storage;

#[test]
fn run() {
    let mut run = Run::default();
    let r = Run { status: RunStatus::InProgress, successful_responses_count: 0, sum: 0 };
    assert_eq!(run, r);
    run.add_value(10);
    run.add_value(15);
    let r = Run { status: RunStatus::InProgress, successful_responses_count: 2, sum: 25 };
    assert_eq!(run, r);
    run.ended();
    let r = Run { status: RunStatus::Finished, successful_responses_count: 2, sum: 25 };
    assert_eq!(run, r);
}

#[test]
fn storage() {
    let mut storage = Storage::default();
    let id = storage.new_run();
    for value in 5..=6 {
        storage.insert(id, value);
    }
    let mut compare_run = Run::default();
    for value in 5..=6 {
        compare_run.add_value(value)
    }
    {
        let run = storage.get_run(&id).unwrap();
        assert_eq!(*run, compare_run);
    }
    storage.run_ended(id);
    compare_run.ended();
    {
        let run = storage.get_run(&id).unwrap();
        assert_eq!(*run, compare_run);
    }
}

#[test]
fn accumulation_concrete() {
    let mut run = Run::default();
    let values = [3usize, 0, 11, 7];
    for v in values {
        run.add_value(v);
    }
    assert_eq!(run.successful_responses_count, 4);
    assert_eq!(run.sum, 21);
    assert_eq!(run.status, RunStatus::InProgress);
}

#[test]
fn storage_unknown_id() {
    let mut storage = Storage::default();
    assert!(storage.get_run(&99).is_none());
    let id = storage.new_run();
    assert_eq!(id, 0);
    assert!(storage.get_run(&99).is_none());
    assert!(storage.get_run(&0).is_some());
}

#[test]
fn storage_ids_increase() {
    let mut storage = Storage::default();
    assert_eq!(storage.new_run(), 0);
    assert_eq!(storage.new_run(), 1);
    assert_eq!(storage.new_run(), 2);
    storage.insert(1, 10);
    assert_eq!(storage.get_run(&1).unwrap().sum, 10);
    assert_eq!(storage.get_run(&0).unwrap().sum, 0);
    assert_eq!(storage.get_run(&2).unwrap().sum, 0);
}
