//! The responsibility a user holds for a task.

use crate::text::same_text;
use vstd::prelude::*;

verus! {

/// One of the four responsibilities of the RACI scheme.
#[derive(Clone, Copy, Debug, PartialEq, Eq, Hash, Structural)]
pub enum RaciRole {
    Responsible,
    Accountable,
    Consulted,
    Informed,
}

impl RaciRole {
    /// The name of this role, both as it is persisted and as it goes over
    /// the wire.
    pub open spec fn label(self) -> Seq<char> {
        match self {
            RaciRole::Responsible => "Responsible"@,
            RaciRole::Accountable => "Accountable"@,
            RaciRole::Consulted => "Consulted"@,
            RaciRole::Informed => "Informed"@,
        }
    }

    /// The role named `label`, if there is one.
    pub open spec fn labelled(label: Seq<char>) -> Option<RaciRole> {
        if label == "Responsible"@ {
            Some(RaciRole::Responsible)
        } else if label == "Accountable"@ {
            Some(RaciRole::Accountable)
        } else if label == "Consulted"@ {
            Some(RaciRole::Consulted)
        } else if label == "Informed"@ {
            Some(RaciRole::Informed)
        } else {
            None
        }
    }

    /// The name of this role.
    pub fn db_label(self) -> (label: &'static str)
        ensures
            label@ == self.label(),
    {
        match self {
            RaciRole::Responsible => "Responsible",
            RaciRole::Accountable => "Accountable",
            RaciRole::Consulted => "Consulted",
            RaciRole::Informed => "Informed",
        }
    }

    /// The role with this name.
    pub fn from_db_label(label: &str) -> (role: Option<RaciRole>)
        ensures
            role == RaciRole::labelled(label@),
    {
        if same_text(label, "Responsible") {
            Some(RaciRole::Responsible)
        } else if same_text(label, "Accountable") {
            Some(RaciRole::Accountable)
        } else if same_text(label, "Consulted") {
            Some(RaciRole::Consulted)
        } else if same_text(label, "Informed") {
            Some(RaciRole::Informed)
        } else {
            None
        }
    }

    /// Every role is read back from its name, and a name is read as a role
    /// only if it is that role's name.
    pub proof fn lemma_label_round_trip(role: RaciRole, label: Seq<char>)
        ensures
            RaciRole::labelled(role.label()) == Some(role),
            RaciRole::labelled(label) == Some(role) <==> label == role.label(),
    {
        reveal_strlit("Responsible");
        reveal_strlit("Accountable");
        reveal_strlit("Consulted");
        reveal_strlit("Informed");
        assert("Responsible"@.len() == 11 && "Accountable"@.len() == 11);
        assert("Consulted"@.len() == 9 && "Informed"@.len() == 8);
        assert("Responsible"@[0] == 'R' && "Accountable"@[0] == 'A');
    }
}

} // verus!
