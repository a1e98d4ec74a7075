use task_scheduler::priority_queue::PriorityQueue;
use task_scheduler::task::Task;

#[test]
fn test_enqueue() {
    let mut queue = PriorityQueue::new();
    let task = Task::new("test-user", "test task", "test description", "High");
    queue.enqueue(task);
    assert_eq!(queue.data.is_empty(), false);
}

#[test]
fn test_is_empty() {
    let mut queue = PriorityQueue::new();
    assert_eq!(queue.is_empty(), true);

    let task = Task::new("test-user", "test task", "test description", "High");
    queue.enqueue(task);
    assert_eq!(queue.is_empty(), false);
}

#[test]
fn test_len() {
    let mut queue = PriorityQueue::new();
    assert_eq!(queue.len(), 0);

    let task = Task::new("test-user", "test task", "test description", "High");
    queue.enqueue(task);
    assert_eq!(queue.len(), 1);
}

#[test]
fn test_get() {
    let mut queue = PriorityQueue::new();
    let task = Task::new("test-user", "test task", "test description", "High");
    queue.enqueue(task.clone());

    let task_from_queue = queue.get().unwrap().clone();
    assert_eq!(&task_from_queue, &task);
}

#[test]
fn test_get_queued_items() {
    let mut queue = PriorityQueue::new();
    let task = Task::new("test-user", "test task", "test description", "High");
    queue.enqueue(task.clone());

    let queued_items = queue.get_queued_items();
    assert_eq!(queued_items.len(), 1);
}

#[test]
fn test_get_on_empty_store_returns_none() {
    let mut queue = PriorityQueue::new();
    assert_eq!(queue.get(), None);
    assert_eq!(queue.len(), 0);
}

#[test]
fn test_insert_then_extract_returns_inserted_item() {
    let mut queue = PriorityQueue::new();
    let task = Task::new("o", "solo", "only item", "VeryLow");
    queue.enqueue(task.clone());
    assert_eq!(queue.get(), Some(task));
    assert_eq!(queue.len(), 0);
    assert_eq!(queue.get(), None);
}

#[test]
fn test_extraction_order_is_non_increasing() {
    let mut queue = PriorityQueue::new();
    let spellings = [
        "Low", "VeryHigh", "Medium", "VeryLow", "High", "Medium", "VeryHigh",
    ];
    for (i, spelling) in spellings.iter().enumerate() {
        queue.enqueue(Task::new("o", &format!("t{}", i), "", spelling));
    }
    let drained = queue.drain_in_priority_order();
    assert_eq!(drained.len(), spellings.len());
    assert_eq!(queue.len(), 0);
    let ranks: Vec<usize> = drained
        .iter()
        .map(|t| match t.priority {
            task_scheduler::enums::TaskPriority::VeryLow => 0,
            task_scheduler::enums::TaskPriority::Low => 1,
            task_scheduler::enums::TaskPriority::Medium => 2,
            task_scheduler::enums::TaskPriority::High => 3,
            task_scheduler::enums::TaskPriority::VeryHigh => 4,
        })
        .collect();
    for w in ranks.windows(2) {
        assert!(w[0] >= w[1]);
    }
    assert_eq!(ranks, vec![4, 4, 3, 2, 2, 1, 0]);
}
