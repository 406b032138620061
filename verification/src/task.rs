//! The task record and the mathematical value it stands for.

use vstd::prelude::*;

verus! {

/// One task of the list. The store reads no meaning into any field.
#[derive(Clone, Debug, PartialEq, Eq)]
pub struct Task {
    /// Identifier chosen by the caller.
    pub id: String,
    /// Free-text description.
    pub task: String,
    /// Timestamp as the caller formatted it.
    pub time: String,
    /// Free-text status label.
    pub status: String,
}

/// The four texts of a task.
pub struct TaskView {
    pub id: Seq<char>,
    pub task: Seq<char>,
    pub time: Seq<char>,
    pub status: Seq<char>,
}

impl View for Task {
    type V = TaskView;

    open spec fn view(&self) -> TaskView {
        TaskView { id: self.id@, task: self.task@, time: self.time@, status: self.status@ }
    }
}

/// The list of task values that a vector of tasks stands for, in order.
pub open spec fn task_list(tasks: Seq<Task>) -> Seq<TaskView> {
    tasks.map_values(|t: Task| t@)
}

impl Task {
    /// A task made of the four given texts.
    pub fn new(id: String, task: String, time: String, status: String) -> (t: Task)
        ensures
            t@ == (TaskView { id: id@, task: task@, time: time@, status: status@ }),
    {
        Task { id, task, time, status }
    }
}

} // verus!
