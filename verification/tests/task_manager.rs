use task_scheduler::task::Task;
use task_scheduler::task_manager::DispatchAction;
use task_scheduler::task_manager::TaskManager;
use task_scheduler::worker::Worker;
use task_scheduler::worker::WorkerStatus;

#[test]
fn test_dispatch_on_empty_store_is_no_work() {
    let mut tm = TaskManager::new(2);
    assert_eq!(tm.dispatch_next(), DispatchAction::NoWork);
    assert_eq!(tm.get_running_tasks().len(), 0);
    assert_eq!(tm.workers.len(), 0);
}

#[test]
fn test_dispatch_prefers_very_high_over_earlier_low() {
    let mut tm = TaskManager::new(1);
    tm.create_task(Task::new("a", "t1", "", "Low"));
    tm.create_task(Task::new("b", "t2", "", "VeryHigh"));

    match tm.dispatch_next() {
        DispatchAction::Run { task, .. } => assert_eq!(task.get_name(), "t2"),
        other => panic!("expected a dispatch, got {:?}", other),
    }
    let running = tm.get_running_tasks();
    assert_eq!(running.len(), 1);
    assert_eq!(running[0].get_name(), "t2");

    // The ceiling of one is reached: the remaining item is put back.
    assert_eq!(tm.dispatch_next(), DispatchAction::Requeued);
    assert_eq!(tm.tasks_queue.len(), 1);
    assert_eq!(tm.get_running_tasks().len(), 1);
}

#[test]
fn test_ceiling_bounds_one_dispatch_pass() {
    let n = 2;
    let mut tm = TaskManager::new(n);
    for i in 0..n + 1 {
        tm.create_task(Task::new("o", &format!("vh{}", i), "", "VeryHigh"));
    }

    let actions = tm.dispatch_pass();
    assert_eq!(actions.len(), n);
    assert_eq!(tm.get_running_tasks().len(), n);
    assert_eq!(tm.tasks_queue.len(), 1);
    assert_eq!(tm.workers.len(), n);

    // One slot signals completion: the remaining item is dispatched
    // without a new slot being created beyond the ceiling.
    let first_id = match &actions[0] {
        DispatchAction::Run { worker_id, task } => {
            tm.record_finish(task.get_name());
            *worker_id
        }
        other => panic!("expected a dispatch, got {:?}", other),
    };
    tm.handle_completion(first_id);
    match tm.dispatch_next() {
        DispatchAction::Run { .. } => {}
        other => panic!("expected a dispatch, got {:?}", other),
    }
    assert_eq!(tm.workers.len(), n);
    assert_eq!(tm.tasks_queue.len(), 0);
}

#[test]
fn test_three_medium_tasks_run_one_at_a_time() {
    let mut tm = TaskManager::new(1);
    for name in ["m1", "m2", "m3"] {
        tm.create_task(Task::new("o", name, "", "Medium"));
    }

    let mut seen: Vec<String> = Vec::new();
    for _ in 0..3 {
        match tm.dispatch_next() {
            DispatchAction::Run { worker_id, task } => {
                assert!(tm.get_running_tasks().len() <= 1);
                seen.push(task.get_name().to_string());
                tm.record_finish(task.get_name());
                tm.handle_completion(worker_id);
            }
            other => panic!("expected a dispatch, got {:?}", other),
        }
    }
    assert_eq!(tm.dispatch_next(), DispatchAction::NoWork);
    assert_eq!(tm.get_running_tasks().len(), 0);
    assert_eq!(tm.workers.len(), 1);

    seen.sort();
    assert_eq!(seen, vec!["m1", "m2", "m3"]);
}

#[test]
fn test_record_finish_twice_is_a_no_op() {
    let mut tm = TaskManager::new(1);
    tm.record_start(Task::new("o", "alpha", "", "Low"));
    tm.record_start(Task::new("o", "beta", "", "High"));

    tm.record_finish("alpha");
    let after_first = tm.get_running_tasks();
    assert_eq!(after_first.len(), 1);
    assert_eq!(after_first[0].get_name(), "beta");

    // The second call must not remove the unrelated item.
    tm.record_finish("alpha");
    let after_second = tm.get_running_tasks();
    assert_eq!(after_second.len(), 1);
    assert_eq!(after_second[0].get_name(), "beta");
}

#[test]
fn test_record_finish_removes_first_match_only() {
    let mut tm = TaskManager::new(1);
    tm.record_start(Task::new("a", "dup", "first", "Low"));
    tm.record_start(Task::new("b", "dup", "second", "Low"));
    tm.record_finish("dup");
    let running = tm.get_running_tasks();
    assert_eq!(running.len(), 1);
    assert_eq!(running[0].description, "second");
}

#[test]
fn test_handle_completion_with_unknown_id_changes_nothing() {
    let mut tm = TaskManager::new(1);
    tm.create_task(Task::new("o", "t", "", "High"));
    let id = match tm.dispatch_next() {
        DispatchAction::Run { worker_id, .. } => worker_id,
        other => panic!("expected a dispatch, got {:?}", other),
    };
    let unknown = id.wrapping_add(1);
    tm.handle_completion(unknown);
    assert!(matches!(tm.workers[0].get_status(), WorkerStatus::Running));
}

#[test]
fn test_worker_status_from_string() {
    assert_eq!(WorkerStatus::from_string("Ready"), WorkerStatus::Ready);
    assert_eq!(WorkerStatus::from_string("Busy"), WorkerStatus::Busy);
    assert_eq!(WorkerStatus::from_string("Running"), WorkerStatus::Running);
    assert_eq!(WorkerStatus::from_string("Idle"), WorkerStatus::Idle);
}

#[test]
fn test_worker_accessors() {
    let mut worker = Worker::new();
    assert_eq!(worker.get_status(), WorkerStatus::Busy);
    assert_eq!(worker.get_idle_time(), 0);
    assert_eq!(worker.get_id(), worker.id);

    worker.set_status(WorkerStatus::Idle);
    assert_eq!(worker.get_status(), WorkerStatus::Idle);
    worker.set_idle_time(7);
    assert_eq!(worker.get_idle_time(), 7);
}
