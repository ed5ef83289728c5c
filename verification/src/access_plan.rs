//! Access plans that read a single row group of a file.
//!
//! A [`ParquetAccessPlan`] holds one access for each row group of the file. The plans
//! made here skip every row group but one.

use crate::parquet_index;
use datafusion::datasource::physical_plan::parquet::{ParquetAccessPlan, RowGroupAccess};
use parquet::arrow::arrow_reader::RowSelection;
use parquet::file::metadata::ParquetMetaData;
use vstd::prelude::*;

verus! {

/// Declares `datafusion`'s `ParquetAccessPlan`, the accesses to the row groups of a file.
#[verifier::external_type_specification]
#[verifier::external_body]
pub struct ExParquetAccessPlan(datafusion::datasource::physical_plan::parquet::ParquetAccessPlan);

/// Declares `parquet::arrow::arrow_reader::RowSelection`, a list of row runs that are
/// either skipped or selected.
#[verifier::external_type_specification]
#[verifier::external_body]
pub struct ExRowSelection(parquet::arrow::arrow_reader::RowSelection);

/// How a plan reads one row group.
pub enum GroupAccess {
    /// Not at all.
    Skip,
    /// All its rows.
    Scan,
    /// The runs of a selection: the length of each, and whether it is skipped.
    Selection(Seq<(usize, bool)>),
}

/// The access that a plan holds for each row group.
pub uninterp spec fn plan_accesses(plan: ParquetAccessPlan) -> Seq<GroupAccess>;

/// The runs of a selection: the length of each, and whether it is skipped.
pub uninterp spec fn selection_runs(selection: RowSelection) -> Seq<(usize, bool)>;

/// What to read of the chosen row group.
pub enum RowGroupRead {
    /// All its rows.
    Scan,
    /// The selected rows.
    Selection(RowSelection),
}

impl RowGroupRead {
    /// The access that a plan holds for this read.
    pub open spec fn access(self) -> GroupAccess {
        match self {
            RowGroupRead::Scan => GroupAccess::Scan,
            RowGroupRead::Selection(selection) => GroupAccess::Selection(selection_runs(selection)),
        }
    }
}

/// The accesses of a plan over `row_groups` row groups that reads only row group `rg_index`.
pub open spec fn single_group(row_groups: nat, rg_index: int, access: GroupAccess) -> Seq<
    GroupAccess,
> {
    Seq::new(
        row_groups,
        |i: int|
            if i == rg_index {
                access
            } else {
                GroupAccess::Skip
            },
    )
}

/// The most row groups that a plan is made for: a vector of as many entries of 64 bytes
/// each can still be allocated, and an entry takes no more than that.
pub open spec fn max_row_groups() -> int {
    isize::MAX / 64
}

/// `ParquetAccessPlan::new_none(n)` holds `Skip` for each of `n` row groups. It allocates
/// one entry for each, which panics where the entries exceed `isize::MAX` bytes.
#[verifier::external_body]
fn none_plan(row_groups: usize) -> (plan: ParquetAccessPlan)
    requires
        row_groups <= max_row_groups(),
    ensures
        plan_accesses(plan) == Seq::new(row_groups as nat, |i: int| GroupAccess::Skip),
{
    ParquetAccessPlan::new_none(row_groups)
}

/// `ParquetAccessPlan::set(i, access)` replaces the access of row group `i` and no other.
/// It indexes a vector, so `i` has to be the index of a row group.
#[verifier::external_body]
fn set_access(plan: &mut ParquetAccessPlan, i: usize, read: RowGroupRead)
    requires
        i < plan_accesses(*old(plan)).len(),
    ensures
        plan_accesses(*final(plan)) == plan_accesses(*old(plan)).update(i as int, read.access()),
        read matches RowGroupRead::Selection(selection) ==> plan_accesses(*final(plan))[i as int]
            == GroupAccess::Selection(selection_runs(selection)),
{
    match read {
        RowGroupRead::Scan => plan.set(i, RowGroupAccess::Scan),
        RowGroupRead::Selection(selection) => plan.set(i, RowGroupAccess::Selection(selection)),
    }
}

/// A plan over `row_groups` row groups that reads row group `rg_index` as `read` says and
/// skips all others.
pub fn single_group_plan(row_groups: usize, rg_index: usize, read: RowGroupRead) -> (plan:
    ParquetAccessPlan)
    requires
        rg_index < row_groups <= max_row_groups(),
    ensures
        plan_accesses(plan) == single_group(row_groups as nat, rg_index as int, read.access()),
        ({
            &&& plan_accesses(plan).len() == row_groups
            &&& forall|i: int|
                #![trigger plan_accesses(plan)[i]]
                0 <= i < plan_accesses(plan).len() && i != rg_index ==> plan_accesses(
                    plan,
                )[i] is Skip
            &&& match read {
                RowGroupRead::Scan => plan_accesses(plan)[rg_index as int] is Scan,
                RowGroupRead::Selection(selection) => plan_accesses(plan)[rg_index as int]
                    == GroupAccess::Selection(selection_runs(selection)),
            }
        }),
{
    let mut plan = none_plan(row_groups);
    set_access(&mut plan, rg_index, read);
    assert(plan_accesses(plan) =~= single_group(row_groups as nat, rg_index as int, read.access()));
    plan
}

/// A plan over the row groups of a file that reads row group `rg_index` as `read` says and
/// skips all others. `None` if the footer has no such row group, or more of them than a plan
/// is made for.
pub fn row_group_plan(metadata: &ParquetMetaData, rg_index: usize, read: RowGroupRead) -> (plan:
    Option<ParquetAccessPlan>)
    ensures
        match plan {
            Some(p) => rg_index < parquet_index::row_group_rows(*metadata).len() <= max_row_groups()
                && plan_accesses(p) == single_group(
                parquet_index::row_group_rows(*metadata).len(),
                rg_index as int,
                read.access(),
            ),
            None => !(rg_index < parquet_index::row_group_rows(*metadata).len()
                <= max_row_groups()),
        },
        plan is Some <==> rg_index < parquet_index::row_group_rows(*metadata).len() <= isize::MAX
            / 64,
        plan matches Some(p) ==> {
            &&& plan_accesses(p).len() == parquet_index::row_group_rows(*metadata).len()
            &&& forall|i: int|
                #![trigger plan_accesses(p)[i]]
                0 <= i < plan_accesses(p).len() && i != rg_index ==> plan_accesses(
                    p,
                )[i] is Skip
            &&& match read {
                RowGroupRead::Scan => plan_accesses(p)[rg_index as int] is Scan,
                RowGroupRead::Selection(selection) => plan_accesses(p)[rg_index as int]
                    == GroupAccess::Selection(selection_runs(selection)),
            }
        },
{
    let row_groups: usize = metadata.num_row_groups();
    let limit: usize = isize::MAX as usize / 64;
    if rg_index < row_groups && row_groups <= limit {
        Some(single_group_plan(row_groups, rg_index, read))
    } else {
        None
    }
}

/// A single-group plan reads its row group and no other.
pub proof fn single_group_reads_only_its_group(
    row_groups: nat,
    rg_index: int,
    access: GroupAccess,
    i: int,
)
    requires
        0 <= rg_index < row_groups,
        !(access is Skip),
        0 <= i < row_groups,
    ensures
        single_group(row_groups, rg_index, access).len() == row_groups,
        single_group(row_groups, rg_index, access)[i] is Skip <==> i != rg_index,
        single_group(row_groups, rg_index, access)[rg_index] == access,
{
}

/// A plan keeps what is to be read of the row group: all of it, or the runs of the selection
/// as they are.
pub proof fn a_read_keeps_its_rows(selection: RowSelection)
    ensures
        RowGroupRead::Scan.access() is Scan,
        RowGroupRead::Selection(selection).access() == GroupAccess::Selection(
            selection_runs(selection),
        ),
{
}

/// Plans for two row groups of a file differ in the accesses of these two and in no other.
pub proof fn plans_differ_only_in_their_groups(
    row_groups: nat,
    rg1: int,
    rg2: int,
    access: GroupAccess,
    i: int,
)
    requires
        0 <= rg1 < row_groups,
        0 <= rg2 < row_groups,
        0 <= i < row_groups,
        i != rg1,
        i != rg2,
    ensures
        single_group(row_groups, rg1, access)[i] is Skip,
        single_group(row_groups, rg2, access)[i] is Skip,
        single_group(row_groups, rg1, access)[rg1] == access,
        single_group(row_groups, rg1, access)[rg1] == single_group(row_groups, rg2, access)[rg2],
{
}

} // verus!
