//! The order in which the operations of a changeset are carried out.
//!
//! Nothing is carried out here. The caller takes the steps one by one,
//! stops at the first that fails, and after each step that installs or
//! removes packages records anew what is installed.

use vstd::prelude::*;

use crate::changeset::{
    reversed, views, Changeset, ChangesetView, PathOperation, PathOperationView,
};
use crate::error::{Error, ErrorView};
use crate::handlers::packages::{
    install_batches, install_packages, uninstall_batches, uninstall_packages, PackageBatch,
    PackageBatchView,
};
use crate::system_state::{SystemState, SystemStateView};
use crate::text::clone_texts;

pub mod packages;
pub mod services;

verus! {

/// One step of a deployment.
#[derive(Debug)]
pub enum Step {
    /// Remove the packages of a batch.
    Uninstall(PackageBatch),
    /// Install the packages of a batch.
    Install(PackageBatch),
    /// Create, modify or delete a path.
    Path(PathOperation),
}

/// The mathematical value of a [`Step`].
pub enum StepView {
    Uninstall(PackageBatchView),
    Install(PackageBatchView),
    Path(PathOperationView),
}

impl View for Step {
    type V = StepView;

    open spec fn view(&self) -> StepView {
        match self {
            Step::Uninstall(batch) => StepView::Uninstall(batch@),
            Step::Install(batch) => StepView::Install(batch@),
            Step::Path(operation) => StepView::Path(operation@),
        }
    }
}

/// The steps of a changeset: packages are removed first, so that what they
/// occupy is free; then packages are installed; paths come last, when the
/// programs that read them are there. Within each kind the order of the
/// changeset holds.
pub open spec fn steps(changeset: ChangesetView, system: SystemStateView) -> Result<
    Seq<StepView>,
    ErrorView,
> {
    match uninstall_batches(changeset.package_uninstalls, system) {
        Err(error) => Err(error),
        Ok(uninstalls) => match install_batches(changeset.package_installs) {
            Err(error) => Err(error),
            Ok(installs) => Ok(
                uninstalls.map_values(|batch: PackageBatchView| StepView::Uninstall(batch))
                    + installs.map_values(|batch: PackageBatchView| StepView::Install(batch))
                    + changeset.path_operations.map_values(
                    |operation: PathOperationView| StepView::Path(operation),
                ),
            ),
        },
    }
}

/// Lays out the steps in which a changeset is carried out.
pub fn handle_changeset(system_state: &SystemState, changeset: Changeset) -> (result: Result<
    Vec<Step>,
    Error,
>)
    ensures
        match steps(changeset@, system_state@) {
            Ok(steps) => result matches Ok(found) && views(found@) == steps,
            Err(error) => result matches Err(found) && found@ == error,
        },
{
    let uninstalls = match uninstall_packages(system_state, &changeset.package_uninstalls) {
        Ok(batches) => batches,
        Err(error) => {
            return Err(error);
        },
    };
    let installs = match install_packages(&changeset.package_installs) {
        Ok(batches) => batches,
        Err(error) => {
            return Err(error);
        },
    };
    let ghost first = views(uninstalls@).map_values(
        |batch: PackageBatchView| StepView::Uninstall(batch),
    );
    let ghost second = views(installs@).map_values(|batch: PackageBatchView| StepView::Install(batch));
    let ghost third = views(changeset.path_operations@).map_values(
        |operation: PathOperationView| StepView::Path(operation),
    );
    let mut found: Vec<Step> = Vec::new();
    let mut index: usize = 0;
    while index < uninstalls.len()
        invariant
            index <= uninstalls.len(),
            found.len() == index,
            third.len() == changeset.path_operations@.len(),
            forall|i: int|
                0 <= i < third.len() ==> third[i] == StepView::Path(
                    (#[trigger] changeset.path_operations@[i])@,
                ),
            first.len() == uninstalls.len(),
            forall|i: int| 0 <= i < uninstalls.len() ==> first[i] == StepView::Uninstall(
                (#[trigger] uninstalls@[i])@,
            ),
            forall|i: int| 0 <= i < index ==> (#[trigger] found@[i])@ == first[i],
        decreases uninstalls.len() - index,
    {
        let batch = &uninstalls[index];
        found.push(
            Step::Uninstall(PackageBatch { manager: batch.manager, names: clone_texts(&batch.names) }),
        );
        index += 1;
    }
    let mut index: usize = 0;
    while index < installs.len()
        invariant
            index <= installs.len(),
            found.len() == first.len() + index,
            third.len() == changeset.path_operations@.len(),
            forall|i: int|
                0 <= i < third.len() ==> third[i] == StepView::Path(
                    (#[trigger] changeset.path_operations@[i])@,
                ),
            second.len() == installs.len(),
            forall|i: int| 0 <= i < installs.len() ==> second[i] == StepView::Install(
                (#[trigger] installs@[i])@,
            ),
            forall|i: int| 0 <= i < first.len() ==> (#[trigger] found@[i])@ == first[i],
            forall|i: int| 0 <= i < index ==> (#[trigger] found@[first.len() + i])@ == second[i],
        decreases installs.len() - index,
    {
        let batch = &installs[index];
        found.push(
            Step::Install(PackageBatch { manager: batch.manager, names: clone_texts(&batch.names) }),
        );
        index += 1;
    }
    let mut operations = reversed(changeset.path_operations);
    let ghost total = operations.len();
    proof {
        let wanted = views(changeset.path_operations@);
        assert(views(operations@).len() == wanted.len());
        assert forall|i: int| 0 <= i < operations.len() implies StepView::Path(
            (#[trigger] operations@[i])@,
        ) == third[total - 1 - i] by {
            assert(views(operations@)[i] == wanted.reverse()[i]);
            assert(wanted[total - 1 - i] == changeset.path_operations@[total - 1 - i]@);
        }
    }
    while operations.len() > 0
        invariant
            operations.len() <= total,
            total == third.len(),
            found.len() == first.len() + second.len() + (total - operations.len()),
            forall|i: int|
                0 <= i < operations.len() ==> StepView::Path((#[trigger] operations@[i])@)
                    == third[total - 1 - i],
            forall|i: int| 0 <= i < first.len() ==> (#[trigger] found@[i])@ == first[i],
            forall|i: int|
                0 <= i < second.len() ==> (#[trigger] found@[first.len() + i])@ == second[i],
            forall|i: int|
                0 <= i < total - operations.len() ==> (#[trigger] found@[first.len() + second.len()
                    + i])@ == third[i],
        decreases operations.len(),
    {
        let operation = operations.pop().unwrap();
        found.push(Step::Path(operation));
    }
    proof {
        let all = first + second + third;
        assert(views(found@).len() == all.len());
        assert forall|i: int| 0 <= i < all.len() implies views(found@)[i] == all[i] by {
            if i < first.len() {
            } else if i < first.len() + second.len() {
                assert(found@[first.len() + (i - first.len())]@ == second[i - first.len()]);
            } else {
                assert(found@[first.len() + second.len() + (i - first.len() - second.len())]@
                    == third[i - first.len() - second.len()]);
            }
        }
        assert(views(found@) =~= all);
    }
    Ok(found)
}

} // verus!
