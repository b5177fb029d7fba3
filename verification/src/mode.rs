//! Operation modes and risk classifications.

use vstd::prelude::*;

verus! {

/// The three modes of operation.
///
/// The mode is chosen once at session start and cannot be escalated during
/// an active session.
#[derive(Debug, Clone, Copy, PartialEq, Eq, Hash, Structural)]
pub enum OperationMode {
    /// Only `read_only = true` bundles may run; no mutation of system state.
    ReadOnly,
    /// Every proposed action is presented to a human operator for approval.
    Interactive,
    /// Actions proceed without per-action approval, subject to policy and rate limits.
    Autonomous,
}

/// Risk classification of a proposed action, ordered `Low < Medium < High < Critical`.
#[derive(Debug, Clone, Copy, PartialEq, Eq, PartialOrd, Ord, Hash, Structural)]
pub enum RiskLevel {
    /// Read-only inspection with no persistent side effects.
    Low,
    /// Modifies runtime state; easily reversible.
    Medium,
    /// Modifies persistent state.
    High,
    /// Potentially irreversible or destructive.
    Critical,
}

impl OperationMode {
    /// Whether this mode permits mutation of system state.
    pub open spec fn spec_allows_mutation(self) -> bool {
        self is Interactive || self is Autonomous
    }

    /// Whether every proposed action requires explicit human approval.
    pub open spec fn spec_requires_human_approval(self) -> bool {
        self is Interactive
    }

    /// Returns `true` if this mode permits mutation of system state.
    #[verifier::when_used_as_spec(spec_allows_mutation)]
    pub fn allows_mutation(self) -> (r: bool)
        ensures
            r == self.spec_allows_mutation(),
    {
        matches!(self, OperationMode::Interactive | OperationMode::Autonomous)
    }

    /// Returns `true` if every proposed action requires explicit human
    /// approval before the executor will run it.
    #[verifier::when_used_as_spec(spec_requires_human_approval)]
    pub fn requires_human_approval(self) -> (r: bool)
        ensures
            r == self.spec_requires_human_approval(),
    {
        matches!(self, OperationMode::Interactive)
    }
}

impl OperationMode {
    /// The variant's name, as `{:?}` writes it.
    pub open spec fn spec_debug_name(self) -> Seq<char> {
        match self {
            OperationMode::ReadOnly => "ReadOnly"@,
            OperationMode::Interactive => "Interactive"@,
            OperationMode::Autonomous => "Autonomous"@,
        }
    }

    /// The variant's name, as `{:?}` writes it.
    pub fn debug_name(self) -> (r: &'static str)
        ensures
            r@ == self.spec_debug_name(),
    {
        match self {
            OperationMode::ReadOnly => "ReadOnly",
            OperationMode::Interactive => "Interactive",
            OperationMode::Autonomous => "Autonomous",
        }
    }
}

impl RiskLevel {
    /// The variant's name, as `{:?}` writes it.
    pub open spec fn spec_debug_name(self) -> Seq<char> {
        match self {
            RiskLevel::Low => "Low"@,
            RiskLevel::Medium => "Medium"@,
            RiskLevel::High => "High"@,
            RiskLevel::Critical => "Critical"@,
        }
    }

    /// The variant's name, as `{:?}` writes it.
    pub fn debug_name(self) -> (r: &'static str)
        ensures
            r@ == self.spec_debug_name(),
    {
        match self {
            RiskLevel::Low => "Low",
            RiskLevel::Medium => "Medium",
            RiskLevel::High => "High",
            RiskLevel::Critical => "Critical",
        }
    }
}

impl RiskLevel {
    /// The position of a risk level in the order `Low < Medium < High < Critical`.
    pub open spec fn rank(self) -> int {
        match self {
            RiskLevel::Low => 0,
            RiskLevel::Medium => 1,
            RiskLevel::High => 2,
            RiskLevel::Critical => 3,
        }
    }

    /// Whether two independent operator signatures are required.
    pub open spec fn spec_requires_two_person_rule(self) -> bool {
        self is Critical
    }

    /// Returns `true` if two independent operator signatures are required
    /// before the executor will run this action in autonomous mode.
    #[verifier::when_used_as_spec(spec_requires_two_person_rule)]
    pub fn requires_two_person_rule(self) -> (r: bool)
        ensures
            r == self.spec_requires_two_person_rule(),
    {
        matches!(self, RiskLevel::Critical)
    }

    /// `self` is strictly less risky than `other`.
    pub fn less_than(self, other: RiskLevel) -> (r: bool)
        ensures
            r == (self.rank() < other.rank()),
    {
        let a: u8 = match self {
            RiskLevel::Low => 0,
            RiskLevel::Medium => 1,
            RiskLevel::High => 2,
            RiskLevel::Critical => 3,
        };
        let b: u8 = match other {
            RiskLevel::Low => 0,
            RiskLevel::Medium => 1,
            RiskLevel::High => 2,
            RiskLevel::Critical => 3,
        };
        a < b
    }
}

/// Only a mutating mode can require human approval: approval gating never
/// applies to a mode that cannot change the system.
pub proof fn lemma_approval_implies_mutation(m: OperationMode)
    ensures
        m.spec_requires_human_approval() ==> m.spec_allows_mutation(),
{
}

} // verus!
