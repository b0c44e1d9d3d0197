//! Moving an entry into its destination directory, one step at a time.
//!
//! The caller touches the file system; this module decides what it is asked
//! to do next. A [`Relocation`] is in one state at a time, each state asks
//! for one [`RelocateAction`], and the [`StepReport`] on that action leads
//! to the next state:
//!
//! 1. make sure the destination directory exists;
//! 2. make sure nothing of the entry's name is in it already;
//! 3. rename the entry into it;
//! 4. where the rename fails, as it does across volumes, copy the entry's
//!    whole tree instead, and remove the source once the copy is complete.
//!
//! Whether a copy is complete is decided here: the caller lists the tree at
//! the source and the tree of the copy, both in the same order, and the two
//! listings have to agree node for node.
//!
//! An entry whose name is already taken at the destination is not moved: the
//! relocation fails with `NameCollision` and both entries stay as they are.

use vstd::prelude::*;
use vstd::string::*;

verus! {

/// Why an entry could not be relocated.
#[derive(Debug, Clone, Copy, PartialEq, Eq, Structural)]
pub enum RelocateError {
    /// The destination directory does not exist and could not be created.
    DestinationUnwritable,
    /// The destination already holds an entry of the same name.
    NameCollision,
    /// Neither the rename nor the copy followed by removal went through.
    MoveFailed,
}

/// One node of a tree: where it lies below the tree's root, whether it is a
/// directory, and its size where it is not.
#[derive(Debug, Clone, PartialEq, Eq)]
pub struct TreeNode {
    /// The node's path from the root of the tree; empty for the root itself.
    pub path: String,
    pub is_dir: bool,
    /// The size of a file in bytes; 0 for a directory.
    pub bytes: u64,
}

/// How the action that was asked for went.
#[derive(Debug, Clone, PartialEq, Eq)]
pub enum StepReport {
    Succeeded,
    Failed,
    /// The copy was made. With it come the listing of the tree at the source
    /// and that of the copy, taken after the copy and in the same order.
    Copied { source: Vec<TreeNode>, copy: Vec<TreeNode> },
}

/// What the caller is asked to do with the entry and its destination.
#[derive(Debug, Clone, Copy, PartialEq, Eq)]
pub enum RelocateAction {
    /// Create the destination directory and all that is missing above it,
    /// unless it exists.
    EnsureDestination,
    /// Check that the destination holds nothing of the entry's name. Succeeds
    /// when the name is free.
    CheckTargetFree,
    /// Rename the entry to its name under the destination.
    Rename,
    /// Copy the entry, with everything below it, to its name under the
    /// destination, and report both trees with `Copied`.
    CopyTree,
    /// Remove the entry, with everything below it, from where it was.
    RemoveSource,
    /// Remove what a failed copy has left under the destination.
    DiscardCopy,
    /// Nothing more: the relocation has ended, with this result.
    Finish(Result<(), RelocateError>),
}

/// The state of one relocation.
#[derive(Debug, Clone, Copy, PartialEq, Eq)]
pub enum Relocation {
    EnsuringDestination,
    CheckingTarget,
    Renaming,
    Copying,
    RemovingSource,
    DiscardingCopy,
    Done(Result<(), RelocateError>),
}

/// Two nodes lie at the same place and are of the same kind and size.
pub open spec fn same_node(a: TreeNode, b: TreeNode) -> bool {
    a.path@ == b.path@ && a.is_dir == b.is_dir && a.bytes == b.bytes
}

/// Two listings agree: they have the same nodes in the same order.
pub open spec fn same_listing(source: Seq<TreeNode>, copy: Seq<TreeNode>) -> bool {
    &&& source.len() == copy.len()
    &&& forall|i: int| 0 <= i < source.len() ==> same_node(#[trigger] source[i], copy[i])
}

impl Relocation {
    /// The action that a state asks for.
    pub open spec fn pending(self) -> RelocateAction {
        match self {
            Relocation::EnsuringDestination => RelocateAction::EnsureDestination,
            Relocation::CheckingTarget => RelocateAction::CheckTargetFree,
            Relocation::Renaming => RelocateAction::Rename,
            Relocation::Copying => RelocateAction::CopyTree,
            Relocation::RemovingSource => RelocateAction::RemoveSource,
            Relocation::DiscardingCopy => RelocateAction::DiscardCopy,
            Relocation::Done(result) => RelocateAction::Finish(result),
        }
    }

    /// Whether `report` says that the pending action went through. A copy
    /// went through when it was reported with two listings that agree; every
    /// other action when it was reported as succeeded.
    pub open spec fn went_through(self, report: StepReport) -> bool {
        match self {
            Relocation::Copying => report matches StepReport::Copied { source, copy }
                && same_listing(source@, copy@),
            _ => report is Succeeded,
        }
    }

    /// The state that follows, given whether the pending action went through.
    pub open spec fn after(self, went_through: bool) -> Relocation {
        match self {
            Relocation::EnsuringDestination => if went_through {
                Relocation::CheckingTarget
            } else {
                Relocation::Done(Err(RelocateError::DestinationUnwritable))
            },
            Relocation::CheckingTarget => if went_through {
                Relocation::Renaming
            } else {
                Relocation::Done(Err(RelocateError::NameCollision))
            },
            Relocation::Renaming => if went_through {
                Relocation::Done(Ok(()))
            } else {
                Relocation::Copying
            },
            Relocation::Copying => if went_through {
                Relocation::RemovingSource
            } else {
                Relocation::DiscardingCopy
            },
            Relocation::RemovingSource => if went_through {
                Relocation::Done(Ok(()))
            } else {
                Relocation::Done(Err(RelocateError::MoveFailed))
            },
            Relocation::DiscardingCopy => Relocation::Done(Err(RelocateError::MoveFailed)),
            Relocation::Done(result) => Relocation::Done(result),
        }
    }

    /// The state that follows, given the report on the pending action.
    pub open spec fn next(self, report: StepReport) -> Relocation {
        self.after(self.went_through(report))
    }

    /// How many more actions a relocation in this state can ask for, at most.
    pub open spec fn steps_left(self) -> nat {
        match self {
            Relocation::EnsuringDestination => 5,
            Relocation::CheckingTarget => 4,
            Relocation::Renaming => 3,
            Relocation::Copying => 2,
            Relocation::RemovingSource => 1,
            Relocation::DiscardingCopy => 1,
            Relocation::Done(_) => 0,
        }
    }

    /// The state in which every relocation begins.
    pub open spec fn begin_state() -> Relocation {
        Relocation::EnsuringDestination
    }

    /// The state in which every relocation begins.
    pub fn begin() -> (res: Relocation)
        ensures
            res == Relocation::begin_state(),
    {
        Relocation::EnsuringDestination
    }

    /// The action that this state asks for.
    pub fn action(&self) -> (res: RelocateAction)
        ensures
            res == self.pending(),
    {
        match self {
            Relocation::EnsuringDestination => RelocateAction::EnsureDestination,
            Relocation::CheckingTarget => RelocateAction::CheckTargetFree,
            Relocation::Renaming => RelocateAction::Rename,
            Relocation::Copying => RelocateAction::CopyTree,
            Relocation::RemovingSource => RelocateAction::RemoveSource,
            Relocation::DiscardingCopy => RelocateAction::DiscardCopy,
            Relocation::Done(result) => RelocateAction::Finish(*result),
        }
    }

    /// The state that follows this one, given the report on its action. A
    /// relocation that has ended stays as it is.
    pub fn advance(&self, report: &StepReport) -> (res: Relocation)
        ensures
            res == self.next(*report),
    {
        let went_through = match self {
            Relocation::Copying => match report {
                StepReport::Copied { source, copy } => listings_agree(source, copy),
                _ => false,
            },
            _ => match report {
                StepReport::Succeeded => true,
                _ => false,
            },
        };
        match self {
            Relocation::EnsuringDestination => if went_through {
                Relocation::CheckingTarget
            } else {
                Relocation::Done(Err(RelocateError::DestinationUnwritable))
            },
            Relocation::CheckingTarget => if went_through {
                Relocation::Renaming
            } else {
                Relocation::Done(Err(RelocateError::NameCollision))
            },
            Relocation::Renaming => if went_through {
                Relocation::Done(Ok(()))
            } else {
                Relocation::Copying
            },
            Relocation::Copying => if went_through {
                Relocation::RemovingSource
            } else {
                Relocation::DiscardingCopy
            },
            Relocation::RemovingSource => if went_through {
                Relocation::Done(Ok(()))
            } else {
                Relocation::Done(Err(RelocateError::MoveFailed))
            },
            Relocation::DiscardingCopy => Relocation::Done(Err(RelocateError::MoveFailed)),
            Relocation::Done(result) => Relocation::Done(*result),
        }
    }

    /// The result of a relocation that has ended; `None` while it is going on.
    pub fn result(&self) -> (res: Option<Result<(), RelocateError>>)
        ensures
            res == match *self {
                Relocation::Done(result) => Some(result),
                _ => None,
            },
    {
        match self {
            Relocation::Done(result) => Some(*result),
            _ => None,
        }
    }
}

/// Whether two listings have the same nodes in the same order.
pub fn listings_agree(source: &Vec<TreeNode>, copy: &Vec<TreeNode>) -> (res: bool)
    ensures
        res == same_listing(source@, copy@),
{
    if source.len() != copy.len() {
        return false;
    }
    let mut i: usize = 0;
    while i < source.len()
        invariant
            i <= source.len(),
            source.len() == copy.len(),
            forall|k: int| 0 <= k < i ==> same_node(#[trigger] source@[k], copy@[k]),
        decreases source.len() - i,
    {
        let a = &source[i];
        let b = &copy[i];
        if !(a.path == b.path && a.is_dir == b.is_dir && a.bytes == b.bytes) {
            assert(!same_node(source@[i as int], copy@[i as int]));
            return false;
        }
        i = i + 1;
    }
    true
}

/// The source is removed only after a copy whose tree agrees with the tree
/// at the source: no other step leads to the removal.
pub proof fn source_is_removed_only_after_a_complete_copy(state: Relocation, report: StepReport)
    requires
        state.next(report).pending() == RelocateAction::RemoveSource,
    ensures
        state == Relocation::Copying,
        report matches StepReport::Copied { source, copy } && same_listing(source@, copy@),
{
}

/// A rename that fails is followed by the copy, not by a failure.
pub proof fn failed_rename_falls_back_to_copy(report: StepReport)
    requires
        !(report is Succeeded),
    ensures
        Relocation::Renaming.next(report).pending() == RelocateAction::CopyTree,
{
}

/// A relocation ends well only on a rename that went through or on the
/// removal of the source after a complete copy.
pub proof fn success_means_the_entry_has_moved(state: Relocation, report: StepReport)
    requires
        !(state is Done),
        state.next(report) == Relocation::Done(Ok(())),
    ensures
        report is Succeeded,
        state == Relocation::Renaming || state == Relocation::RemovingSource,
{
}

/// A copy that does not agree with its source never counts as a move: what
/// it left is discarded and the relocation fails, with the source untouched.
pub proof fn incomplete_copy_ends_in_failure(report: StepReport, after_discard: StepReport)
    requires
        !Relocation::Copying.went_through(report),
    ensures
        Relocation::Copying.next(report).pending() == RelocateAction::DiscardCopy,
        Relocation::Copying.next(report).next(after_discard) == Relocation::Done(
            Err(RelocateError::MoveFailed),
        ),
{
}

/// The state that a relocation is in after the reports `reports`, taken in
/// their order from `state` on.
pub open spec fn after_reports(state: Relocation, reports: Seq<StepReport>) -> Relocation
    decreases reports.len(),
{
    if reports.len() == 0 {
        state
    } else {
        after_reports(state.next(reports[0]), reports.drop_first())
    }
}

/// A relocation that has ended keeps its result, whatever is reported to it.
pub proof fn ended_relocations_keep_their_result(
    result: Result<(), RelocateError>,
    reports: Seq<StepReport>,
)
    ensures
        after_reports(Relocation::Done(result), reports) == Relocation::Done(result),
    decreases reports.len(),
{
    if reports.len() > 0 {
        ended_relocations_keep_their_result(result, reports.drop_first());
    }
}

/// A relocation that ends well although its rename failed has made a copy
/// whose tree agrees with the tree at the source, node for node, and has
/// then removed the source.
pub proof fn a_move_by_copy_leaves_the_same_tree(reports: Seq<StepReport>)
    requires
        reports.len() >= 3,
        !(reports[2] is Succeeded),
        after_reports(Relocation::begin_state(), reports) == Relocation::Done(Ok(())),
    ensures
        reports.len() >= 5,
        reports[0] is Succeeded,
        reports[1] is Succeeded,
        reports[3] matches StepReport::Copied { source, copy } && same_listing(source@, copy@),
        reports[4] is Succeeded,
{
    let r0 = reports;
    let r1 = r0.drop_first();
    let r2 = r1.drop_first();
    let r3 = r2.drop_first();
    let s1 = Relocation::begin_state().next(r0[0]);
    let s2 = s1.next(r1[0]);
    let s3 = s2.next(r2[0]);
    assert(r1[0] == reports[1] && r2[0] == reports[2]);
    assert(after_reports(Relocation::begin_state(), r0) == after_reports(s1, r1));
    assert(after_reports(s1, r1) == after_reports(s2, r2));
    assert(after_reports(s2, r2) == after_reports(s3, r3));
    if s1 is Done {
        ended_relocations_keep_their_result(s1->Done_0, r1);
    } else if s2 is Done {
        ended_relocations_keep_their_result(s2->Done_0, r2);
    } else {
        assert(s3 == Relocation::Copying);
        assert(r3.len() > 0);
        let r4 = r3.drop_first();
        let s4 = s3.next(r3[0]);
        assert(r3[0] == reports[3]);
        assert(after_reports(s3, r3) == after_reports(s4, r4));
        assert(r4.len() > 0);
        let r5 = r4.drop_first();
        let s5 = s4.next(r4[0]);
        assert(r4[0] == reports[4]);
        assert(after_reports(s4, r4) == after_reports(s5, r5));
        assert(s5 is Done);
        ended_relocations_keep_their_result(s5->Done_0, r5);
    }
}

/// Every step brings a relocation nearer to its end: it asks for six actions
/// at most, the last of them `Finish`.
pub proof fn every_step_makes_progress(state: Relocation, report: StepReport)
    requires
        !(state is Done),
    ensures
        state.next(report).steps_left() < state.steps_left(),
        state.steps_left() <= Relocation::EnsuringDestination.steps_left(),
{
}

} // verus!
