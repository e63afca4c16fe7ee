//! The status of a task, and the two spellings each status has.

use crate::text::same_text;
use vstd::prelude::*;

verus! {

/// Where a task stands. No order holds between two values: a task may move
/// from any status to any other.
#[derive(Clone, Copy, Debug, PartialEq, Eq, Hash, Structural)]
pub enum TaskStatus {
    NotStarted,
    InProgress,
    Blocked,
    UnderReview,
    Deprecated,
    Completed,
}

impl TaskStatus {
    /// The label under which this status is persisted.
    pub open spec fn label(self) -> Seq<char> {
        match self {
            TaskStatus::NotStarted => "Not Started"@,
            TaskStatus::InProgress => "In Progress"@,
            TaskStatus::Blocked => "Blocked"@,
            TaskStatus::UnderReview => "Under Review"@,
            TaskStatus::Deprecated => "Deprecated"@,
            TaskStatus::Completed => "Completed"@,
        }
    }

    /// The status persisted under `label`, if there is one.
    pub open spec fn labelled(label: Seq<char>) -> Option<TaskStatus> {
        if label == "Not Started"@ {
            Some(TaskStatus::NotStarted)
        } else if label == "In Progress"@ {
            Some(TaskStatus::InProgress)
        } else if label == "Blocked"@ {
            Some(TaskStatus::Blocked)
        } else if label == "Under Review"@ {
            Some(TaskStatus::UnderReview)
        } else if label == "Deprecated"@ {
            Some(TaskStatus::Deprecated)
        } else if label == "Completed"@ {
            Some(TaskStatus::Completed)
        } else {
            None
        }
    }

    /// The name by which this status goes over the wire.
    pub open spec fn wire(self) -> Seq<char> {
        match self {
            TaskStatus::NotStarted => "NotStarted"@,
            TaskStatus::InProgress => "InProgress"@,
            TaskStatus::Blocked => "Blocked"@,
            TaskStatus::UnderReview => "UnderReview"@,
            TaskStatus::Deprecated => "Deprecated"@,
            TaskStatus::Completed => "Completed"@,
        }
    }

    /// The status that goes over the wire as `name`, if there is one.
    pub open spec fn wired(name: Seq<char>) -> Option<TaskStatus> {
        if name == "NotStarted"@ {
            Some(TaskStatus::NotStarted)
        } else if name == "InProgress"@ {
            Some(TaskStatus::InProgress)
        } else if name == "Blocked"@ {
            Some(TaskStatus::Blocked)
        } else if name == "UnderReview"@ {
            Some(TaskStatus::UnderReview)
        } else if name == "Deprecated"@ {
            Some(TaskStatus::Deprecated)
        } else if name == "Completed"@ {
            Some(TaskStatus::Completed)
        } else {
            None
        }
    }

    /// The label under which this status is persisted.
    pub fn db_label(self) -> (label: &'static str)
        ensures
            label@ == self.label(),
    {
        match self {
            TaskStatus::NotStarted => "Not Started",
            TaskStatus::InProgress => "In Progress",
            TaskStatus::Blocked => "Blocked",
            TaskStatus::UnderReview => "Under Review",
            TaskStatus::Deprecated => "Deprecated",
            TaskStatus::Completed => "Completed",
        }
    }

    /// The status that is persisted under this label.
    pub fn from_db_label(label: &str) -> (status: Option<TaskStatus>)
        ensures
            status == TaskStatus::labelled(label@),
    {
        if same_text(label, "Not Started") {
            Some(TaskStatus::NotStarted)
        } else if same_text(label, "In Progress") {
            Some(TaskStatus::InProgress)
        } else if same_text(label, "Blocked") {
            Some(TaskStatus::Blocked)
        } else if same_text(label, "Under Review") {
            Some(TaskStatus::UnderReview)
        } else if same_text(label, "Deprecated") {
            Some(TaskStatus::Deprecated)
        } else if same_text(label, "Completed") {
            Some(TaskStatus::Completed)
        } else {
            None
        }
    }

    /// The name by which this status goes over the wire.
    pub fn wire_name(self) -> (name: &'static str)
        ensures
            name@ == self.wire(),
    {
        match self {
            TaskStatus::NotStarted => "NotStarted",
            TaskStatus::InProgress => "InProgress",
            TaskStatus::Blocked => "Blocked",
            TaskStatus::UnderReview => "UnderReview",
            TaskStatus::Deprecated => "Deprecated",
            TaskStatus::Completed => "Completed",
        }
    }

    /// The status that goes over the wire under this name.
    pub fn from_wire_name(name: &str) -> (status: Option<TaskStatus>)
        ensures
            status == TaskStatus::wired(name@),
    {
        if same_text(name, "NotStarted") {
            Some(TaskStatus::NotStarted)
        } else if same_text(name, "InProgress") {
            Some(TaskStatus::InProgress)
        } else if same_text(name, "Blocked") {
            Some(TaskStatus::Blocked)
        } else if same_text(name, "UnderReview") {
            Some(TaskStatus::UnderReview)
        } else if same_text(name, "Deprecated") {
            Some(TaskStatus::Deprecated)
        } else if same_text(name, "Completed") {
            Some(TaskStatus::Completed)
        } else {
            None
        }
    }

    /// Every status is read back from its persisted label, and a label is
    /// read as a status only if it is that status's label: the two spellings
    /// map one to one.
    pub proof fn lemma_label_round_trip(status: TaskStatus, label: Seq<char>)
        ensures
            TaskStatus::labelled(status.label()) == Some(status),
            TaskStatus::labelled(label) == Some(status) <==> label == status.label(),
    {
        reveal_strlit("Not Started");
        reveal_strlit("In Progress");
        reveal_strlit("Blocked");
        reveal_strlit("Under Review");
        reveal_strlit("Deprecated");
        reveal_strlit("Completed");
        assert("Not Started"@.len() == 11 && "In Progress"@.len() == 11);
        assert("Blocked"@.len() == 7 && "Under Review"@.len() == 12);
        assert("Deprecated"@.len() == 10 && "Completed"@.len() == 9);
        assert("Not Started"@[0] == 'N' && "In Progress"@[0] == 'I');
    }

    /// Every status is read back from its wire name, and a name is read as
    /// a status only if it is that status's name.
    pub proof fn lemma_wire_round_trip(status: TaskStatus, name: Seq<char>)
        ensures
            TaskStatus::wired(status.wire()) == Some(status),
            TaskStatus::wired(name) == Some(status) <==> name == status.wire(),
    {
        reveal_strlit("NotStarted");
        reveal_strlit("InProgress");
        reveal_strlit("Blocked");
        reveal_strlit("UnderReview");
        reveal_strlit("Deprecated");
        reveal_strlit("Completed");
        assert("NotStarted"@.len() == 10 && "InProgress"@.len() == 10);
        assert("Blocked"@.len() == 7 && "UnderReview"@.len() == 11);
        assert("Deprecated"@.len() == 10 && "Completed"@.len() == 9);
        assert("NotStarted"@[0] == 'N' && "InProgress"@[0] == 'I' && "Deprecated"@[0] == 'D');
    }
}

} // verus!
