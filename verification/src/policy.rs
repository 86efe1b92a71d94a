use vstd::prelude::*;

verus! {

/// Which side may be written during a sync.
#[derive(Debug, Clone, Copy, PartialEq, Eq, Structural)]
pub enum SyncDirection {
    TwoWay,
    LeftToRight,
    RightToLeft,
}

impl Default for SyncDirection {
    fn default() -> (r: Self)
        ensures
            r == SyncDirection::TwoWay,
    {
        SyncDirection::TwoWay
    }
}

/// How a conflict between two changed sides is settled.
#[derive(Debug, Clone, Copy, PartialEq, Eq, Structural)]
pub enum ConflictPolicy {
    Manual,
    GoogleWins,
    IcloudWins,
    NewestUpdatedWins,
}

impl Default for ConflictPolicy {
    fn default() -> (r: Self)
        ensures
            r == ConflictPolicy::Manual,
    {
        ConflictPolicy::Manual
    }
}

/// How a change on one side against a deletion on the other is settled.
#[derive(Debug, Clone, Copy, PartialEq, Eq, Structural)]
pub enum DeleteConflictPolicy {
    Manual,
    DeleteWins,
    UpdateWins,
}

/// What to do with an iCloud UID that is known to live in another calendar.
#[derive(Debug, Clone, Copy, PartialEq, Eq, Structural)]
pub enum UidCollisionPolicy {
    Manual,
    IgnoreKnown,
}

/// The full set of conflict policies of a configuration.
#[derive(Debug, Clone, Copy, PartialEq, Eq, Structural)]
pub struct ConflictPolicies {
    pub default: ConflictPolicy,
    pub both_sides_changed: ConflictPolicy,
    pub unlinked_same_uid: ConflictPolicy,
    pub delete_vs_update: DeleteConflictPolicy,
    pub icloud_uid_collision: UidCollisionPolicy,
}

impl ConflictPolicies {
    pub open spec fn spec_default() -> ConflictPolicies {
        ConflictPolicies {
            default: ConflictPolicy::Manual,
            both_sides_changed: ConflictPolicy::Manual,
            unlinked_same_uid: ConflictPolicy::Manual,
            delete_vs_update: DeleteConflictPolicy::UpdateWins,
            icloud_uid_collision: UidCollisionPolicy::IgnoreKnown,
        }
    }
}

impl Default for ConflictPolicies {
    fn default() -> (r: Self)
        ensures
            r == ConflictPolicies::spec_default(),
    {
        ConflictPolicies {
            default: ConflictPolicy::Manual,
            both_sides_changed: ConflictPolicy::Manual,
            unlinked_same_uid: ConflictPolicy::Manual,
            delete_vs_update: DeleteConflictPolicy::UpdateWins,
            icloud_uid_collision: UidCollisionPolicy::IgnoreKnown,
        }
    }
}

} // verus!
