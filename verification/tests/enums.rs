use std::cmp::Ordering;
use task_scheduler::enums::SchedulerError;
use task_scheduler::enums::TaskPriority;

#[test]
fn test_from_string() {
    let priority = TaskPriority::from_string("High");
    assert_eq!(priority, TaskPriority::High)
}

#[test]
#[should_panic]
fn test_from_string_panic() {
    TaskPriority::from_string("non-exists");
}

#[test]
fn test_to_string() {
    let priority = TaskPriority::High;
    let priority_str = TaskPriority::to_string(&priority);
    assert_eq!(priority_str, "High");
}

#[test]
fn test_cmp() {
    let prio_1 = TaskPriority::High;
    let prio_2 = TaskPriority::Low;

    let ordering = TaskPriority::cmp(&prio_1, &prio_2);
    assert_eq!(ordering, Ordering::Greater);
}

#[test]
fn test_parse_round_trips_every_spelling() {
    let spellings = ["VeryLow", "Low", "Medium", "High", "VeryHigh"];
    for spelling in spellings {
        let parsed = TaskPriority::parse(spelling).unwrap();
        assert_eq!(parsed.to_string(), spelling);
    }
}

#[test]
fn test_parse_rejects_unknown_spelling() {
    assert_eq!(
        TaskPriority::parse("high"),
        Err(SchedulerError::InvalidPriority)
    );
    assert_eq!(TaskPriority::parse(""), Err(SchedulerError::InvalidPriority));
    assert_eq!(
        TaskPriority::parse("VeryHigh "),
        Err(SchedulerError::InvalidPriority)
    );
}

#[test]
fn test_cmp_orders_all_levels_ascending() {
    let levels = [
        TaskPriority::VeryLow,
        TaskPriority::Low,
        TaskPriority::Medium,
        TaskPriority::High,
        TaskPriority::VeryHigh,
    ];
    for i in 0..levels.len() {
        for j in 0..levels.len() {
            let expected = i.cmp(&j);
            assert_eq!(levels[i].cmp(&levels[j]), expected);
        }
    }
}
