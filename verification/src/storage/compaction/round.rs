//! What one compaction round works on, and the decisions of the round that need
//! no collaborator: which flags it holds, which files it removes, and what it
//! makes of the merges' results.

use vstd::prelude::*;
use crate::storage::compaction::output::{CompactionOutput, OutputPlan};
use crate::storage::error::{Error, MergeFault};
use crate::storage::manifest::{append_unique, CommitFault, EditView, ManifestState, RegionEdit};
use crate::storage::registry::FileRegistry;
use crate::storage::sst::{ids_of, metas_of, FileHandle, FileId, FileMeta};
use crate::storage::unique::{dedup, lemma_dedup_set, lemma_extend_unique_concat};

verus! {

broadcast use vstd::seq_lib::group_seq_properties;

/// The plans of `outputs`, in order.
pub open spec fn plans_of(outputs: Seq<CompactionOutput>) -> Seq<OutputPlan> {
    outputs.map_values(|output: CompactionOutput| output@)
}

/// The inputs of all `plans`, output by output; a file that several outputs read
/// occurs once for each.
pub open spec fn input_metas(plans: Seq<OutputPlan>) -> Seq<FileMeta>
    decreases plans.len(),
{
    if plans.len() == 0 {
        Seq::empty()
    } else {
        input_metas(plans.drop_last()) + plans.last().metas()
    }
}

/// The files that a round over `plans` with the expired files `expired` takes out
/// of the file set: every input and every expired file, once.
pub open spec fn removals(plans: Seq<OutputPlan>, expired: Seq<FileHandle>) -> Seq<FileMeta> {
    dedup(input_metas(plans) + metas_of(expired))
}

proof fn lemma_ids_of_concat(a: Seq<FileMeta>, b: Seq<FileMeta>)
    ensures
        ids_of(a + b) == ids_of(a) + ids_of(b),
{
    assert(ids_of(a + b) =~= ids_of(a) + ids_of(b));
}

proof fn lemma_input_metas_step(outputs: Seq<CompactionOutput>, i: int)
    requires
        0 <= i < outputs.len(),
    ensures
        input_metas(plans_of(outputs.take(i + 1))) == input_metas(plans_of(outputs.take(i)))
            + outputs[i]@.metas(),
{
    let next = plans_of(outputs.take(i + 1));
    assert(next.drop_last() =~= plans_of(outputs.take(i)));
    assert(next.last() == outputs[i]@);
}

/// Whether every merge of `built` succeeded.
pub open spec fn all_built(built: Seq<Result<FileMeta, MergeFault>>) -> bool {
    forall|i: int| 0 <= i < built.len() ==> (#[trigger] built[i]) is Ok
}

/// Whether the merge of output `k` failed and none before it did.
pub open spec fn first_failure(built: Seq<Result<FileMeta, MergeFault>>, k: int) -> bool {
    &&& 0 <= k < built.len()
    &&& built[k] is Err
    &&& forall|j: int| 0 <= j < k ==> (#[trigger] built[j]) is Ok
}

/// The files of `built`, where every merge succeeded.
pub open spec fn built_files(built: Seq<Result<FileMeta, MergeFault>>) -> Seq<FileMeta> {
    built.map_values(|result: Result<FileMeta, MergeFault>| result->Ok_0)
}

/// Whether `files` can be the files of a round over `plans` in region `region_id`:
/// one file for each output, in order.
pub open spec fn round_outputs(plans: Seq<OutputPlan>, region_id: u64, files: Seq<FileMeta>) -> bool {
    &&& files.len() == plans.len()
    &&& forall|i: int| 0 <= i < plans.len() ==> (#[trigger] plans[i]).produces(region_id, files[i])
}

/// The edit of a round: built against `region_version`, it makes `added` visible,
/// takes `removed` out and leaves the flushed sequence number alone.
pub open spec fn round_edit(region_version: u64, added: Seq<FileMeta>, removed: Seq<FileMeta>) -> EditView {
    EditView {
        region_version,
        flushed_sequence: None,
        files_to_add: added,
        files_to_remove: removed,
    }
}

/// Whether `error` reports that the merge of the output `failed` of the region
/// named `region_name` failed with `fault`.
pub open spec fn is_merge_failure(
    error: Error,
    region_name: Seq<char>,
    failed: OutputPlan,
    fault: MergeFault,
) -> bool {
    &&& error matches Error::MergeFailure { region_name: name, file_ids, fault: reported }
    &&& name@ == region_name
    &&& file_ids@ == ids_of(failed.metas())
    &&& reported == fault
}

/// Whether `error` reports that `edit`, of the region named `region_name`, was not
/// committed because of `fault`.
pub open spec fn is_commit_failure(
    error: Error,
    region_name: Seq<char>,
    edit: EditView,
    fault: CommitFault,
) -> bool {
    &&& error matches Error::CommitFailure { region_name: name, edit: reported, fault: cause }
    &&& name@ == region_name
    &&& reported@ == edit
    &&& cause == fault
}

/// Whether `outcome` is what becomes of `answer`, the answer to the commit of
/// `edit` in the region named `region_name`: success stays success, and a fault
/// becomes the commit failure that reports it.
pub open spec fn is_commit_outcome(
    outcome: Result<(), Error>,
    region_name: Seq<char>,
    edit: EditView,
    answer: Result<(), CommitFault>,
) -> bool {
    &&& answer is Ok ==> outcome is Ok
    &&& answer is Err ==> outcome is Err && is_commit_failure(
        outcome->Err_0,
        region_name,
        edit,
        answer->Err_0,
    )
}

/// The outputs of one round, and the files that the round removes without
/// replacing them.
#[derive(Debug)]
pub struct CompactionRound {
    pub outputs: Vec<CompactionOutput>,
    /// Files past retention: removed with the round's edit, but not merged.
    pub expired_ssts: Vec<FileHandle>,
}

impl CompactionRound {
    /// The plans of the round's outputs.
    pub open spec fn plans(&self) -> Seq<OutputPlan> {
        plans_of(self.outputs@)
    }

    /// The inputs of all outputs, output by output.
    pub open spec fn inputs(&self) -> Seq<FileMeta> {
        input_metas(self.plans())
    }

    /// The files whose flag the round holds.
    pub open spec fn input_ids(&self) -> Set<FileId> {
        ids_of(self.inputs()).to_set()
    }

    /// The files that the round takes out of the file set.
    pub open spec fn removals(&self) -> Seq<FileMeta> {
        removals(self.plans(), self.expired_ssts@)
    }

    pub fn new(outputs: Vec<CompactionOutput>, expired_ssts: Vec<FileHandle>) -> (round: Self)
        ensures
            round.outputs == outputs,
            round.expired_ssts == expired_ssts,
    {
        CompactionRound { outputs, expired_ssts }
    }

    /// The identifiers of the inputs of all outputs, output by output.
    pub fn input_file_ids(&self) -> (ids: Vec<FileId>)
        ensures
            ids@ == ids_of(self.inputs()),
    {
        let mut ids: Vec<FileId> = Vec::new();
        let mut i: usize = 0;
        assert(input_metas(plans_of(self.outputs@.take(0))) =~= Seq::<FileMeta>::empty());
        while i < self.outputs.len()
            invariant
                0 <= i <= self.outputs.len(),
                ids@ == ids_of(input_metas(plans_of(self.outputs@.take(i as int)))),
            decreases self.outputs.len() - i,
        {
            let mut more = self.outputs[i].input_ids();
            proof {
                lemma_input_metas_step(self.outputs@, i as int);
                lemma_ids_of_concat(
                    input_metas(plans_of(self.outputs@.take(i as int))),
                    self.outputs@[i as int]@.metas(),
                );
            }
            ids.append(&mut more);
            i += 1;
        }
        assert(self.outputs@.take(self.outputs.len() as int) =~= self.outputs@);
        ids
    }

    /// The inputs of all outputs, each file once, in the order of first use.
    pub fn compacted_inputs(&self) -> (inputs: Vec<FileMeta>)
        ensures
            inputs@ == dedup(self.inputs()),
    {
        let mut inputs: Vec<FileMeta> = Vec::new();
        let mut i: usize = 0;
        assert(input_metas(plans_of(self.outputs@.take(0))) =~= Seq::<FileMeta>::empty());
        while i < self.outputs.len()
            invariant
                0 <= i <= self.outputs.len(),
                inputs@ == dedup(input_metas(plans_of(self.outputs@.take(i as int)))),
            decreases self.outputs.len() - i,
        {
            let metas = self.outputs[i].input_metas();
            proof {
                lemma_input_metas_step(self.outputs@, i as int);
                lemma_extend_unique_concat(
                    Seq::<FileMeta>::empty(),
                    input_metas(plans_of(self.outputs@.take(i as int))),
                    metas@,
                );
            }
            append_unique(&mut inputs, &metas);
            i += 1;
        }
        assert(self.outputs@.take(self.outputs.len() as int) =~= self.outputs@);
        inputs
    }

    /// The files that the round takes out of the file set: every input and every
    /// expired file, once, in the order of first use.
    pub fn removed_files(&self) -> (removed: Vec<FileMeta>)
        ensures
            removed@ == self.removals(),
    {
        let mut removed = self.compacted_inputs();
        let expired = expired_metas(&self.expired_ssts);
        proof {
            lemma_extend_unique_concat(Seq::<FileMeta>::empty(), self.inputs(), expired@);
        }
        append_unique(&mut removed, &expired);
        removed
    }

    /// Sets, or clears, the compacting flag of every input of every output. The
    /// flags of all other files stay as they are.
    pub fn mark_files_compacting(&self, registry: &mut FileRegistry, compacting: bool)
        ensures
            compacting ==> final(registry)@ == old(registry)@.union(self.input_ids()),
            !compacting ==> final(registry)@ == old(registry)@.difference(self.input_ids()),
    {
        let ids = self.input_file_ids();
        let mut i: usize = 0;
        assert(ids@.take(0).to_set() =~= Set::<FileId>::empty());
        assert(registry@ =~= registry@.union(Set::<FileId>::empty()));
        assert(registry@ =~= registry@.difference(Set::<FileId>::empty()));
        while i < ids.len()
            invariant
                0 <= i <= ids.len(),
                compacting ==> registry@ == old(registry)@.union(ids@.take(i as int).to_set()),
                !compacting ==> registry@ == old(registry)@.difference(
                    ids@.take(i as int).to_set(),
                ),
            decreases ids.len() - i,
        {
            proof {
                assert(ids@.take(i + 1) =~= ids@.take(i as int).push(ids@[i as int]));
                ids@.take(i as int).lemma_push_to_set_commute(ids@[i as int]);
            }
            let ghost before = registry@;
            registry.mark_compacting(ids[i], compacting);
            proof {
                let done = ids@.take(i as int).to_set();
                let id = ids@[i as int];
                if compacting {
                    assert(before.insert(id) =~= old(registry)@.union(done.insert(id)));
                } else {
                    assert(before.remove(id) =~= old(registry)@.difference(done.insert(id)));
                }
            }
            i += 1;
        }
        assert(ids@.take(ids.len() as int) =~= ids@);
    }

    /// Whether every input of the round is idle, so that no other round holds any
    /// of them.
    pub fn eligible(&self, registry: &FileRegistry) -> (idle: bool)
        ensures
            idle == self.input_ids().disjoint(registry@),
    {
        let ids = self.input_file_ids();
        let mut i: usize = 0;
        while i < ids.len()
            invariant
                0 <= i <= ids.len(),
                ids@ == ids_of(self.inputs()),
                forall|j: int| 0 <= j < i ==> !registry@.contains(#[trigger] ids@[j]),
            decreases ids.len() - i,
        {
            if registry.is_compacting(ids[i]) {
                assert(ids@.to_set().contains(ids@[i as int]));
                return false;
            }
            i += 1;
        }
        assert(ids@.to_set().disjoint(registry@));
        true
    }

    /// Takes hold of the round's inputs if all of them are idle: then, and only
    /// then, their flags are set. A round that shares an input with a round that
    /// holds its flags is refused, and changes nothing.
    pub fn try_hold(&self, registry: &mut FileRegistry) -> (held: bool)
        ensures
            held == self.input_ids().disjoint(old(registry)@),
            held ==> final(registry)@ == old(registry)@.union(self.input_ids()),
            !held ==> final(registry)@ == old(registry)@,
    {
        if self.eligible(registry) {
            self.mark_files_compacting(registry, true);
            true
        } else {
            false
        }
    }

    /// Gathers the files of the round from what the merges returned, output by
    /// output. One failed merge fails the round: the error is that of the first
    /// output that failed, and names its inputs.
    pub fn collect_outputs(&self, region_name: &String, built: &Vec<Result<FileMeta, MergeFault>>) -> (collected:
        Result<Vec<FileMeta>, Error>)
        requires
            built@.len() == self.outputs@.len(),
        ensures
            all_built(built@) ==> collected is Ok && collected->Ok_0@ == built_files(built@),
            forall|k: int| #[trigger]
                first_failure(built@, k) ==> collected is Err && is_merge_failure(
                    collected->Err_0,
                    region_name@,
                    self.plans()[k],
                    built@[k]->Err_0,
                ),
    {
        let mut files: Vec<FileMeta> = Vec::new();
        let mut i: usize = 0;
        while i < built.len()
            invariant
                0 <= i <= built.len(),
                built@.len() == self.outputs@.len(),
                forall|j: int| 0 <= j < i ==> (#[trigger] built@[j]) is Ok,
                files@ == built_files(built@.take(i as int)),
            decreases built.len() - i,
        {
            match &built[i] {
                Ok(meta) => {
                    files.push(*meta);
                    assert(files@ =~= built_files(built@.take(i + 1)));
                },
                Err(fault) => {
                    assert(first_failure(built@, i as int));
                    assert(!all_built(built@));
                    assert forall|k: int| #[trigger] first_failure(built@, k) implies k == i by {
                        if k < i {
                            assert(built@[k] is Ok);
                        } else if k > i {
                            assert(built@[i as int] is Ok);
                        }
                    }
                    return Err(
                        Error::MergeFailure {
                            region_name: region_name.clone(),
                            file_ids: self.outputs[i].input_ids(),
                            fault: *fault,
                        },
                    );
                },
            }
            i += 1;
        }
        assert(built@.take(built.len() as int) =~= built@);
        assert forall|k: int| #[trigger] first_failure(built@, k) implies false by {
            assert(built@[k] is Ok);
        }
        Ok(files)
    }

    /// The edit of the round: built against `region_version`, it adds `output` and
    /// removes every input and every expired file.
    pub fn edit(&self, region_version: u64, output: Vec<FileMeta>) -> (edit: RegionEdit)
        ensures
            edit@ == round_edit(region_version, output@, self.removals()),
    {
        RegionEdit {
            region_version,
            flushed_sequence: None,
            files_to_add: output,
            files_to_remove: self.removed_files(),
        }
    }

    /// What becomes of `answer`, the answer to the commit of `edit`: success stays
    /// success, and a fault becomes the commit failure that reports the region,
    /// the edit and the fault.
    pub fn commit_outcome(region_name: &String, edit: RegionEdit, answer: Result<(), CommitFault>) -> (outcome:
        Result<(), Error>)
        ensures
            is_commit_outcome(outcome, region_name@, edit@, answer),
    {
        match answer {
            Ok(()) => Ok(()),
            Err(fault) => Err(
                Error::CommitFailure { region_name: region_name.clone(), edit, fault },
            ),
        }
    }

    /// Gives the round up: every input becomes idle again.
    pub fn cancel(self, registry: &mut FileRegistry)
        ensures
            final(registry)@ == old(registry)@.difference(self.input_ids()),
            forall|id: FileId| self.input_ids().contains(id) ==> !final(registry)@.contains(id),
    {
        self.mark_files_compacting(registry, false);
    }
}

/// Where some merge failed, some merge failed first.
pub proof fn lemma_first_failure_exists(built: Seq<Result<FileMeta, MergeFault>>, k: int)
    requires
        0 <= k < built.len(),
        built[k] is Err,
    ensures
        exists|first: int| first_failure(built, first),
    decreases k,
{
    if forall|j: int| 0 <= j < k ==> (#[trigger] built[j]) is Ok {
        assert(first_failure(built, k));
    } else {
        let j = choose|j: int| 0 <= j < k && !((#[trigger] built[j]) is Ok);
        lemma_first_failure_exists(built, j);
    }
}

/// The metadata of `handles`, in order.
pub fn expired_metas(handles: &Vec<FileHandle>) -> (metas: Vec<FileMeta>)
    ensures
        metas@ == metas_of(handles@),
{
    let mut metas: Vec<FileMeta> = Vec::new();
    let mut i: usize = 0;
    while i < handles.len()
        invariant
            0 <= i <= handles.len(),
            metas@ == metas_of(handles@.take(i as int)),
        decreases handles.len() - i,
    {
        metas.push(handles[i].meta);
        i += 1;
        assert(metas@ =~= metas_of(handles@.take(i as int)));
    }
    assert(handles@.take(handles.len() as int) =~= handles@);
    metas
}

/// Whether no file of `added` has the identifier of a file of `removed`, as holds
/// where every new file gets an identifier that no other file has.
pub open spec fn fresh_ids(added: Seq<FileMeta>, removed: Seq<FileMeta>) -> bool {
    forall|i: int, j: int|
        0 <= i < added.len() && 0 <= j < removed.len() ==> (#[trigger] added[i]).file_id != (
        #[trigger] removed[j]).file_id
}

/// The files that a round removes are its inputs and its expired files, each
/// once: nothing else, and none of them twice.
pub proof fn lemma_removals_exact(plans: Seq<OutputPlan>, expired: Seq<FileHandle>)
    ensures
        removals(plans, expired).no_duplicates(),
        removals(plans, expired).to_set() == input_metas(plans).to_set().union(
            metas_of(expired).to_set(),
        ),
{
    let all = input_metas(plans) + metas_of(expired);
    lemma_dedup_set(all);
    vstd::seq_lib::seq_to_set_distributes_over_add(input_metas(plans), metas_of(expired));
}

/// In the edit of a round whose new files have fresh identifiers, no file is both
/// added and removed. Hence, once the edit is applied, every added file is part
/// of the file set and no removed file is.
pub proof fn lemma_round_edit_disjoint(
    before: ManifestState,
    plans: Seq<OutputPlan>,
    expired: Seq<FileHandle>,
    added: Seq<FileMeta>,
)
    requires
        fresh_ids(added, removals(plans, expired)),
    ensures
        ({
            let edit = round_edit(before.region_version, added, removals(plans, expired));
            let after = before.apply(edit);
            &&& edit.added().disjoint(edit.removed())
            &&& forall|meta: FileMeta| edit.added().contains(meta) ==> after.files.contains(meta)
            &&& forall|meta: FileMeta|
                edit.removed().contains(meta) ==> !after.files.contains(meta)
            &&& forall|meta: FileMeta|
                !edit.added().contains(meta) && !edit.removed().contains(meta) ==> (
                after.files.contains(meta) <==> before.files.contains(meta))
        }),
{
    let removed = removals(plans, expired);
    assert forall|meta: FileMeta| added.to_set().contains(meta) implies !removed.to_set().contains(
        meta,
    ) by {
        if removed.to_set().contains(meta) {
            let i = choose|i: int| 0 <= i < added.len() && added[i] == meta;
            let j = choose|j: int| 0 <= j < removed.len() && removed[j] == meta;
            assert(added[i].file_id == removed[j].file_id);
        }
    }
}

/// A round whose inputs are all idle shares no input with a round that holds its
/// flags: where the inputs of `running` are among the flagged files and `candidate`
/// has passed the idleness test against them, the two have no file in common.
pub proof fn lemma_rounds_exclusive(
    running: CompactionRound,
    candidate: CompactionRound,
    flagged: Set<FileId>,
)
    requires
        running.input_ids().subset_of(flagged),
        candidate.input_ids().disjoint(flagged),
    ensures
        running.input_ids().disjoint(candidate.input_ids()),
{
}

} // verus!
