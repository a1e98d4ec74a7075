use task_scheduler::enums::TaskPriority;
use task_scheduler::task::Task;

fn lookup(details: &[(String, String)], key: &str) -> Option<String> {
    details
        .iter()
        .find(|pair| pair.0 == key)
        .map(|pair| pair.1.clone())
}

#[test]
fn test_create_task_succesfully() {
    let task = Task::new("test-user", "test task", "test description", "High");
    assert_eq!(task.user, "test-user");
    assert_eq!(task.name, "test task");
    assert_eq!(task.description, "test description");
    assert_eq!(task.priority, TaskPriority::from_string("High"));
}

#[test]
fn test_get_name() {
    let task = Task::new("test-user", "test task", "test description", "High");
    assert_eq!(task.name, "test task");
}

#[test]
fn test_get_details() {
    let task = Task {
        user: "John Doe".to_string(),
        name: "Task 1".to_string(),
        description: "This is a test task".to_string(),
        priority: TaskPriority::from_string("High"),
    };

    let details = task.get_details();

    assert_eq!(lookup(&details, "user"), Some("John Doe".to_string()));
    assert_eq!(lookup(&details, "name"), Some("Task 1".to_string()));
    assert_eq!(
        lookup(&details, "description"),
        Some("This is a test task".to_string())
    );
    assert_eq!(
        lookup(&details, "priority"),
        Some(TaskPriority::to_string(&TaskPriority::High))
    );

    assert_eq!(details.len(), 4);
}

#[test]
fn test_clone_preserves_every_field() {
    let task = Task::new("owner", "job", "text", "Medium");
    let copy = task.clone();
    assert_eq!(copy, task);
    assert_eq!(copy.get_name(), "job");
}
