//! The immutable work item: owner, name, description, and priority.

use vstd::prelude::*;

use crate::enums::TaskPriority;

verus! {

/// An immutable value object produced by submission and consumed by
/// execution. Ordering between two tasks is defined solely by priority;
/// the name locates a running instance and is not guaranteed unique.
#[derive(Debug, PartialEq, Eq)]
pub struct Task {
    /// Who submitted the work.
    pub user: String,
    /// The key used to locate a running instance; not guaranteed unique.
    pub name: String,
    /// Free text describing the work.
    pub description: String,
    /// The sole comparison key for pending work.
    pub priority: TaskPriority,
}

impl Task {
    /// Builds a task from its parts; the priority text must be one of the
    /// five canonical spellings.
    pub fn new(user: &str, name: &str, description: &str, priority: &str) -> (r: Self)
        requires
            TaskPriority::spec_parse(priority@) is Some,
        ensures
            r.user@ == user@,
            r.name@ == name@,
            r.description@ == description@,
            Some(r.priority) == TaskPriority::spec_parse(priority@),
    {
        Task {
            user: user.to_owned(),
            name: name.to_owned(),
            description: description.to_owned(),
            priority: TaskPriority::from_string(priority),
        }
    }

    /// Returns the task's name.
    pub fn get_name(&self) -> (r: &str)
        ensures
            r@ == self.name@,
    {
        self.name.as_str()
    }

    /// The task's fields as labelled text pairs, the priority formatted as
    /// its canonical spelling.
    pub fn get_details(&self) -> (r: Vec<(String, String)>)
        ensures
            r@.len() == 4,
            r@[0].0@ == "user"@ && r@[0].1@ == self.user@,
            r@[1].0@ == "name"@ && r@[1].1@ == self.name@,
            r@[2].0@ == "description"@ && r@[2].1@ == self.description@,
            r@[3].0@ == "priority"@ && r@[3].1@ == self.priority.spec_spelling(),
    {
        let mut task_details: Vec<(String, String)> = Vec::new();
        task_details.push(("user".to_owned(), self.user.clone()));
        task_details.push(("name".to_owned(), self.name.clone()));
        task_details.push(("description".to_owned(), self.description.clone()));
        task_details.push(("priority".to_owned(), self.priority.to_string()));
        task_details
    }
}

impl Clone for Task {
    /// A clone is equal to the source value in every field.
    fn clone(&self) -> (r: Self)
        ensures
            r == *self,
    {
        Task {
            user: self.user.clone(),
            name: self.name.clone(),
            description: self.description.clone(),
            priority: self.priority,
        }
    }
}

} // verus!
