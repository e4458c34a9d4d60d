//! The compaction task: marks its inputs, has every output merged, commits one
//! edit for the whole round, and leaves every input idle however the round ends.

use vstd::prelude::*;
use crate::storage::compaction::output::{
    built_by, executor_answered, CompactionOutput, MergeExecutor, MergedSst, OutputPlan,
};
use crate::storage::compaction::round::{
    all_built, expired_metas, first_failure, is_commit_failure, is_commit_outcome,
    is_merge_failure, lemma_first_failure_exists, lemma_round_edit_disjoint, removals, round_edit,
    round_outputs, CompactionRound,
};
use crate::storage::error::{Error, MergeFault};
use crate::storage::manifest::{
    append_unique, write_edit_and_apply, writer_answered, CommitFault, ManifestState, RegionEdit,
    RegionWriter,
};
use crate::storage::region::SharedData;
use crate::storage::registry::FileRegistry;
use crate::storage::sst::{FileHandle, FileId, FileMeta};
use crate::storage::unique::{dedup, lemma_extend_unique_concat};

verus! {

/// Whether `files` can be the files of a round over `plans` in region `region_id`
/// whose merges all succeeded: one file for each output, in order, each described
/// from what an executor can answer to the output's request.
pub open spec fn round_built<E: MergeExecutor>(
    plans: Seq<OutputPlan>,
    region_id: u64,
    files: Seq<FileMeta>,
) -> bool {
    &&& files.len() == plans.len()
    &&& forall|i: int|
        0 <= i < plans.len() ==> #[trigger] built_by::<E>(
            plans[i],
            region_id,
            Ok::<FileMeta, MergeFault>(files[i]),
        )
}

/// Whether `error` reports the failed merge of one of `plans`, with the fault that
/// an executor can answer to that output's request.
pub open spec fn merge_failed<E: MergeExecutor>(
    error: Error,
    region_name: Seq<char>,
    region_id: u64,
    plans: Seq<OutputPlan>,
) -> bool {
    exists|k: int, fault: MergeFault|
        0 <= k < plans.len() && #[trigger] is_merge_failure(error, region_name, plans[k], fault)
            && built_by::<E>(plans[k], region_id, Err::<FileMeta, MergeFault>(fault))
}

/// Whether `error` reports the failed commit of a round over `plans` and
/// `expired`: every merge succeeded, the round's edit against `region_version` was
/// handed to `writer`, and the error carries the writer's fault.
pub open spec fn commit_failed<E: MergeExecutor, W: RegionWriter>(
    error: Error,
    region_name: Seq<char>,
    region_version: u64,
    region_id: u64,
    plans: Seq<OutputPlan>,
    expired: Seq<FileHandle>,
    writer: W,
) -> bool {
    exists|added: Seq<FileMeta>, fault: CommitFault|
        round_built::<E>(plans, region_id, added) && writer_answered(
            writer,
            round_edit(region_version, added, removals(plans, expired)),
            Err::<(), CommitFault>(fault),
        ) && #[trigger] is_commit_failure(
            error,
            region_name,
            round_edit(region_version, added, removals(plans, expired)),
            fault,
        )
}

/// Whether a successful round over `plans` and `expired` leads from the manifest
/// `before` to the manifest `after`: every merge succeeded, `writer` answered the
/// round's edit with success, and the manifest changed by exactly that edit, which
/// adds one file for each output and removes the round's inputs and expired files.
pub open spec fn committed_by<E: MergeExecutor, W: RegionWriter>(
    before: ManifestState,
    after: ManifestState,
    region_id: u64,
    plans: Seq<OutputPlan>,
    expired: Seq<FileHandle>,
    writer: W,
) -> bool {
    exists|added: Seq<FileMeta>|
        round_built::<E>(plans, region_id, added) && #[trigger] writer_answered(
            writer,
            round_edit(before.region_version, added, removals(plans, expired)),
            Ok::<(), CommitFault>(()),
        ) && after == before.apply(
            round_edit(before.region_version, added, removals(plans, expired)),
        )
}

/// A round whose merges all succeeded has one file for each output, of the
/// output's level and in the round's region.
pub proof fn lemma_round_built_outputs<E: MergeExecutor>(
    plans: Seq<OutputPlan>,
    region_id: u64,
    files: Seq<FileMeta>,
)
    requires
        round_built::<E>(plans, region_id, files),
    ensures
        round_outputs(plans, region_id, files),
{
    assert forall|i: int| 0 <= i < plans.len() implies (#[trigger] plans[i]).produces(
        region_id,
        files[i],
    ) by {
        assert(built_by::<E>(plans[i], region_id, Ok::<FileMeta, MergeFault>(files[i])));
    }
}

/// Whether every file that an executor can report for one of `plans` has an
/// identifier that none of the files removed by a round over `plans` and `expired`
/// has, as holds where every new file gets an identifier of its own.
pub open spec fn reports_fresh_ids<E: MergeExecutor>(
    plans: Seq<OutputPlan>,
    expired: Seq<FileHandle>,
) -> bool {
    forall|k: int, merged: MergedSst, j: int|
        0 <= k < plans.len() && #[trigger] executor_answered::<E>(
            plans[k],
            Ok::<MergedSst, MergeFault>(merged),
        ) && 0 <= j < removals(plans, expired).len() ==> (#[trigger] removals(
            plans,
            expired,
        )[j]).file_id != merged.file_id
}

/// With an executor that reports fresh identifiers, the edit of a successful round
/// adds no file that it removes: afterwards every file that the round wrote is
/// part of the file set, and none of its inputs or expired files is.
pub proof fn lemma_committed_disjoint<E: MergeExecutor, W: RegionWriter>(
    before: ManifestState,
    after: ManifestState,
    region_id: u64,
    plans: Seq<OutputPlan>,
    expired: Seq<FileHandle>,
    writer: W,
)
    requires
        committed_by::<E, W>(before, after, region_id, plans, expired, writer),
        reports_fresh_ids::<E>(plans, expired),
    ensures
        exists|added: Seq<FileMeta>|
            round_built::<E>(plans, region_id, added) && after == before.apply(
                #[trigger] round_edit(before.region_version, added, removals(plans, expired)),
            ) && added.to_set().disjoint(removals(plans, expired).to_set()) && added.to_set().subset_of(
                after.files,
            ),
        forall|j: int|
            0 <= j < removals(plans, expired).len() ==> !after.files.contains(
                #[trigger] removals(plans, expired)[j],
            ),
{
    let removed = removals(plans, expired);
    let added = choose|added: Seq<FileMeta>|
        round_built::<E>(plans, region_id, added) && #[trigger] writer_answered(
            writer,
            round_edit(before.region_version, added, removed),
            Ok::<(), CommitFault>(()),
        ) && after == before.apply(round_edit(before.region_version, added, removed));
    assert forall|i: int, j: int| 0 <= i < added.len() && 0 <= j < removed.len() implies (
    #[trigger] added[i]).file_id != (#[trigger] removed[j]).file_id by {
        assert(built_by::<E>(plans[i], region_id, Ok::<FileMeta, MergeFault>(added[i])));
        let answer = choose|answer: Result<MergedSst, MergeFault>| #[trigger]
            executor_answered::<E>(plans[i], answer) && Ok::<FileMeta, MergeFault>(added[i])
                == plans[i].outcome(region_id, answer);
        assert(answer == Ok::<MergedSst, MergeFault>(answer->Ok_0));
    }
    lemma_round_edit_disjoint(before, plans, expired, added);
    let edit = round_edit(before.region_version, added, removed);
    assert(edit.added() == added.to_set());
    assert(edit.removed() == removed.to_set());
    assert forall|j: int| 0 <= j < removed.len() implies !after.files.contains(
        #[trigger] removed[j],
    ) by {
        assert(edit.removed().contains(removed[j]));
    }
}

/// A unit of compaction work that a scheduler can run. Running consumes the task:
/// it executes at most once.
pub trait CompactionTask: Sized {
    fn run(self, region: &mut SharedData) -> Result<(), Error>;
}

/// One compaction round of a region, with the collaborators that carry it out.
pub struct CompactionTaskImpl<E: MergeExecutor, W: RegionWriter> {
    pub sst_layer: E,
    pub writer: W,
    pub round: CompactionRound,
}

impl<E: MergeExecutor, W: RegionWriter> CompactionTaskImpl<E, W> {
    /// The plans of the round's outputs.
    pub open spec fn plans(&self) -> Seq<OutputPlan> {
        self.round.plans()
    }

    /// The files whose flag the round holds.
    pub open spec fn input_ids(&self) -> Set<FileId> {
        self.round.input_ids()
    }

    pub fn new(sst_layer: E, writer: W, outputs: Vec<CompactionOutput>, expired_ssts: Vec<FileHandle>) -> (task:
        Self)
        ensures
            task.sst_layer == sst_layer,
            task.writer == writer,
            task.round.outputs == outputs,
            task.round.expired_ssts == expired_ssts,
    {
        CompactionTaskImpl { sst_layer, writer, round: CompactionRound::new(outputs, expired_ssts) }
    }

    /// Sets, or clears, the compacting flag of every input of every output. The
    /// flags of all other files stay as they are.
    pub fn mark_files_compacting(&self, registry: &mut FileRegistry, compacting: bool)
        ensures
            compacting ==> final(registry)@ == old(registry)@.union(self.input_ids()),
            !compacting ==> final(registry)@ == old(registry)@.difference(self.input_ids()),
    {
        self.round.mark_files_compacting(registry, compacting);
    }

    /// Has every output merged, and returns the files written together with the
    /// inputs consumed, each input once. Every merge is run to its end; if one
    /// fails, the round fails with the error of the first output that failed.
    ///
    /// The executor decides: every file returned is described from an answer that
    /// it can give to the output's request, and a failure carries a fault that it
    /// can answer to the request of the output named.
    pub fn merge_ssts(&mut self, region_id: u64, region_name: &String) -> (merged: Result<
        (Vec<FileMeta>, Vec<FileMeta>),
        Error,
    >)
        ensures
            final(self).round == old(self).round,
            final(self).writer == old(self).writer,
            merged is Ok ==> round_built::<E>(old(self).plans(), region_id, merged->Ok_0.0@)
                && merged->Ok_0.1@ == dedup(old(self).round.inputs()),
            merged is Err ==> merge_failed::<E>(
                merged->Err_0,
                region_name@,
                region_id,
                old(self).plans(),
            ),
    {
        let mut built: Vec<Result<FileMeta, MergeFault>> = Vec::new();
        let mut i: usize = 0;
        while i < self.round.outputs.len()
            invariant
                0 <= i <= self.round.outputs.len(),
                self.round == old(self).round,
                self.writer == old(self).writer,
                built@.len() == i,
                forall|j: int|
                    0 <= j < i ==> built_by::<E>(self.plans()[j], region_id, #[trigger] built@[j]),
            decreases self.round.outputs.len() - i,
        {
            let result = self.round.outputs[i].build(region_id, &mut self.sst_layer);
            built.push(result);
            i += 1;
        }
        let collected = self.round.collect_outputs(region_name, &built);
        match collected {
            Ok(output) => {
                let input = self.round.compacted_inputs();
                proof {
                    if !all_built(built@) {
                        let k = choose|k: int| 0 <= k < built@.len() && !(built@[k] is Ok);
                        lemma_first_failure_exists(built@, k);
                    }
                    assert forall|j: int| 0 <= j < self.plans().len() implies #[trigger] built_by::<
                        E,
                    >(self.plans()[j], region_id, Ok::<FileMeta, MergeFault>(output@[j])) by {
                        assert(built@[j] is Ok);
                        assert(built_by::<E>(self.plans()[j], region_id, built@[j]));
                    }
                }
                Ok((output, input))
            },
            Err(error) => {
                proof {
                    if all_built(built@) {
                    } else {
                        let k = choose|k: int| 0 <= k < built@.len() && !(built@[k] is Ok);
                        lemma_first_failure_exists(built@, k);
                        let first = choose|first: int| first_failure(built@, first);
                        assert(0 <= first < self.plans().len());
                        assert(is_merge_failure(
                            error,
                            region_name@,
                            old(self).plans()[first],
                            built@[first]->Err_0,
                        ));
                        assert(built_by::<E>(self.plans()[first], region_id, built@[first]));
                    }
                }
                Err(error)
            },
        }
    }

    /// Builds the edit of the round, which adds `output` and removes `input`, and
    /// commits it to the region: the edit is handed to the writer, and the writer's
    /// answer decides. After a successful write the manifest has changed by the
    /// edit; after a failed one the region is what it was, and the error carries
    /// the writer's fault.
    pub fn write_manifest_and_apply(
        &mut self,
        region: &mut SharedData,
        output: Vec<FileMeta>,
        input: Vec<FileMeta>,
    ) -> (outcome: Result<(), Error>)
        ensures
            final(self).round == old(self).round,
            final(self).sst_layer == old(self).sst_layer,
            final(region).id == old(region).id,
            final(region).name == old(region).name,
            final(region).registry == old(region).registry,
            outcome is Ok ==> final(region).manifest@ == old(region).manifest@.apply(
                round_edit(old(region).manifest@.region_version, output@, input@),
            ),
            outcome is Err ==> final(region).manifest == old(region).manifest,
            exists|asked: &mut W, handed: RegionEdit, answer: Result<(), CommitFault>|
                mut_ref_current(asked) == old(self).writer
                    && mut_ref_future(asked) == final(self).writer
                    && #[trigger] call_ensures(W::write_edit, (asked, &handed), answer)
                    && handed@ == round_edit(
                    old(region).manifest@.region_version,
                    output@,
                    input@,
                ) && is_commit_outcome(outcome, old(region).name@, handed@, answer),
            exists|answer: Result<(), CommitFault>| #[trigger]
                writer_answered(
                    old(self).writer,
                    round_edit(old(region).manifest@.region_version, output@, input@),
                    answer,
                ) && is_commit_outcome(
                    outcome,
                    old(region).name@,
                    round_edit(old(region).manifest@.region_version, output@, input@),
                    answer,
                ),
    {
        let edit = RegionEdit {
            region_version: region.manifest.region_version(),
            flushed_sequence: None,
            files_to_add: output,
            files_to_remove: input,
        };
        let ghost before = self.writer;
        let answer = write_edit_and_apply(&mut self.writer, &mut region.manifest, &edit);
        proof {
            let asked = choose|asked: &mut W|
                mut_ref_current(asked) == before && mut_ref_future(asked) == self.writer
                    && #[trigger] call_ensures(W::write_edit, (asked, &edit), answer);
            assert(call_ensures(W::write_edit, (asked, &edit), answer));
            assert(writer_answered(before, edit@, answer));
        }
        CompactionRound::commit_outcome(&region.name, edit, answer)
    }

    /// Gives the round up without running it: every input becomes idle again.
    pub fn cancel(self, registry: &mut FileRegistry)
        ensures
            final(registry)@ == old(registry)@.difference(self.input_ids()),
            forall|id: FileId| self.input_ids().contains(id) ==> !final(registry)@.contains(id),
    {
        self.round.cancel(registry);
    }
}

impl<E: MergeExecutor, W: RegionWriter> CompactionTask for CompactionTaskImpl<E, W> {
    /// Runs the round: marks every input as compacting, has every output merged,
    /// commits one edit that adds the files written and removes the inputs and the
    /// expired files, and clears the flags of the inputs.
    ///
    /// However the round ends, every input is idle afterwards. If it fails, in the
    /// merges or in the commit, the manifest is what it was before. If it succeeds,
    /// the manifest has changed by exactly the round's edit.
    ///
    /// The collaborators decide which it is. A merge failure carries a fault that
    /// the executor can answer to the request of the output named. A commit failure
    /// comes after merges that all succeeded, and carries the fault that the writer
    /// answered to the round's edit. Success rests on merges that all succeeded and
    /// on a writer that answered the round's edit with success.
    fn run(self, region: &mut SharedData) -> (outcome: Result<(), Error>)
        ensures
            final(region).id == old(region).id,
            final(region).name == old(region).name,
            final(region).registry@ == old(region).registry@.difference(self.input_ids()),
            forall|id: FileId|
                self.input_ids().contains(id) ==> !final(region).registry@.contains(id),
            outcome is Err ==> final(region).manifest == old(region).manifest,
            outcome is Err ==> merge_failed::<E>(
                outcome->Err_0,
                old(region).name@,
                old(region).id,
                self.plans(),
            ) || commit_failed::<E, W>(
                outcome->Err_0,
                old(region).name@,
                old(region).manifest@.region_version,
                old(region).id,
                self.plans(),
                self.round.expired_ssts@,
                self.writer,
            ),
            outcome is Ok ==> committed_by::<E, W>(
                old(region).manifest@,
                final(region).manifest@,
                old(region).id,
                self.plans(),
                self.round.expired_ssts@,
                self.writer,
            ),
    {
        let mut task = self;
        let ghost held = task.input_ids();
        task.mark_files_compacting(&mut region.registry, true);
        let region_id = region.id;
        let merged = task.merge_ssts(region_id, &region.name);
        let outcome = match merged {
            Ok((output, compacted)) => {
                let mut compacted = compacted;
                let expired = expired_metas(&task.round.expired_ssts);
                proof {
                    lemma_extend_unique_concat(
                        Seq::<FileMeta>::empty(),
                        task.round.inputs(),
                        expired@,
                    );
                }
                append_unique(&mut compacted, &expired);
                let ghost added = output@;
                let ghost edit = round_edit(
                    region.manifest@.region_version,
                    added,
                    task.round.removals(),
                );
                let committed = task.write_manifest_and_apply(region, output, compacted);
                proof {
                    let answer = choose|answer: Result<(), CommitFault>| #[trigger]
                        writer_answered(self.writer, edit, answer) && is_commit_outcome(
                            committed,
                            old(region).name@,
                            edit,
                            answer,
                        );
                    if committed is Ok {
                        assert(answer is Ok);
                        assert(answer->Ok_0 == ());
                        assert(writer_answered(self.writer, edit, Ok::<(), CommitFault>(())));
                    } else {
                        assert(answer == Err::<(), CommitFault>(answer->Err_0));
                        assert(is_commit_failure(
                            committed->Err_0,
                            old(region).name@,
                            edit,
                            answer->Err_0,
                        ));
                    }
                }
                committed
            },
            Err(error) => Err(error),
        };
        task.mark_files_compacting(&mut region.registry, false);
        proof {
            assert(region.registry@ =~= old(region).registry@.difference(held));
        }
        outcome
    }
}

} // verus!
