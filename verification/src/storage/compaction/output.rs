//! One planned merge: many input files, one time bucket of one level.

use vstd::prelude::*;
use crate::storage::error::MergeFault;
use crate::storage::sst::{
    ids_of, metas_of, FileHandle, FileId, FileMeta, Level, SstInfo, TimeRange,
};

verus! {

broadcast use vstd::seq_lib::group_seq_properties;

/// A freshly written file, as the merge executor reports it.
#[derive(Debug, Clone, Copy, PartialEq, Eq, Structural)]
pub struct MergedSst {
    /// Identifier allocated for the new file.
    pub file_id: FileId,
    pub info: SstInfo,
}

/// What the merge executor is asked to do for one output: to read `inputs`
/// merged, restricted to the rows whose timestamp lies in `window`, and to write
/// them to a newly allocated file of `output_level`.
#[derive(Debug, Clone, PartialEq, Eq)]
pub struct MergeRequest {
    pub inputs: Vec<FileHandle>,
    pub window: TimeRange,
    pub output_level: Level,
}

/// The collaborator that reads input files and writes output files.
///
/// `merge` carries out `request` and reports the file that it wrote. The library
/// relies on nothing about the report.
pub trait MergeExecutor {
    fn merge(&mut self, request: &MergeRequest) -> Result<MergedSst, MergeFault>;
}

/// What a [`CompactionOutput`] stands for.
pub struct OutputPlan {
    pub output_level: Level,
    /// Lower bound of the time bucket.
    pub bucket_bound: i64,
    /// Width of the time bucket.
    pub bucket: i64,
    pub inputs: Seq<FileHandle>,
}

impl OutputPlan {
    /// The bucket `[bucket_bound, bucket_bound + bucket)`.
    pub open spec fn window(self) -> TimeRange
        recommends
            i64::MIN <= self.bucket_bound + self.bucket <= i64::MAX,
    {
        TimeRange { start: self.bucket_bound, end: (self.bucket_bound + self.bucket) as i64 }
    }

    /// The metadata of the inputs, in order.
    pub open spec fn metas(self) -> Seq<FileMeta> {
        metas_of(self.inputs)
    }

    /// Whether `meta` can be the file of this output in region `region_id`: the
    /// executor decides its identifier, time range and size, the plan its level.
    pub open spec fn produces(self, region_id: u64, meta: FileMeta) -> bool {
        meta.region_id == region_id && meta.level == self.output_level
    }

    /// Whether `request` is what the merge executor is asked to do for the output:
    /// to merge its inputs over its time bucket into a file of its level.
    pub open spec fn asks(self, request: MergeRequest) -> bool {
        &&& request.inputs@ == self.inputs
        &&& request.window == self.window()
        &&& request.output_level == self.output_level
    }

    /// What becomes of the executor's answer: a file that it wrote is described
    /// as the output's file in region `region_id`, and a fault is passed on.
    pub open spec fn outcome(self, region_id: u64, answer: Result<MergedSst, MergeFault>) -> Result<
        FileMeta,
        MergeFault,
    > {
        match answer {
            Ok(merged) => Ok(self.file(region_id, merged)),
            Err(fault) => Err(fault),
        }
    }

    /// The file that the output becomes once `merged` was written for it.
    pub open spec fn file(self, region_id: u64, merged: MergedSst) -> FileMeta {
        FileMeta {
            region_id,
            file_id: merged.file_id,
            time_range: merged.info.time_range,
            level: self.output_level,
            file_size: merged.info.file_size,
        }
    }
}

/// Whether an executor, in whatever state, can give `answer` when it is handed
/// the request of `plan`. Nothing is known of an executor's answers but what its
/// own `merge` promises.
pub open spec fn executor_answered<E: MergeExecutor>(
    plan: OutputPlan,
    answer: Result<MergedSst, MergeFault>,
) -> bool {
    exists|asked: &mut E, request: MergeRequest|
        plan.asks(request) && #[trigger] call_ensures(E::merge, (asked, &request), answer)
}

/// Whether `built` is what becomes of an answer that an executor can give to the
/// request of `plan`: the file that it wrote, described as the output's file in
/// region `region_id`, or its fault.
pub open spec fn built_by<E: MergeExecutor>(
    plan: OutputPlan,
    region_id: u64,
    built: Result<FileMeta, MergeFault>,
) -> bool {
    exists|answer: Result<MergedSst, MergeFault>| #[trigger]
        executor_answered::<E>(plan, answer) && built == plan.outcome(region_id, answer)
}

/// A merge of several input files into one file of `output_level` that holds the
/// rows of one time bucket.
#[derive(Debug)]
pub struct CompactionOutput {
    pub(crate) output_level: Level,
    pub(crate) bucket_bound: i64,
    pub(crate) bucket: i64,
    pub(crate) inputs: Vec<FileHandle>,
}

impl View for CompactionOutput {
    type V = OutputPlan;

    closed spec fn view(&self) -> OutputPlan {
        OutputPlan {
            output_level: self.output_level,
            bucket_bound: self.bucket_bound,
            bucket: self.bucket,
            inputs: self.inputs@,
        }
    }
}

impl CompactionOutput {
    #[verifier::type_invariant]
    spec fn bucket_end_fits(self) -> bool {
        i64::MIN <= self.bucket_bound + self.bucket <= i64::MAX
    }

    /// Plans a merge of `inputs` into the bucket `[bucket_bound, bucket_bound + bucket)`
    /// of `output_level`. There is no such plan when the end of the bucket is not
    /// a timestamp.
    pub fn new(output_level: Level, bucket_bound: i64, bucket: i64, inputs: Vec<FileHandle>) -> (output:
        Option<CompactionOutput>)
        ensures
            output is Some <==> i64::MIN <= bucket_bound + bucket <= i64::MAX,
            output is Some ==> output->0@ == (OutputPlan {
                output_level,
                bucket_bound,
                bucket,
                inputs: inputs@,
            }),
    {
        match bucket_bound.checked_add(bucket) {
            Some(_) => Some(CompactionOutput { output_level, bucket_bound, bucket, inputs }),
            None => None,
        }
    }

    pub fn output_level(&self) -> (level: Level)
        ensures
            level == self@.output_level,
    {
        self.output_level
    }

    pub fn bucket_bound(&self) -> (bound: i64)
        ensures
            bound == self@.bucket_bound,
    {
        self.bucket_bound
    }

    pub fn bucket(&self) -> (width: i64)
        ensures
            width == self@.bucket,
    {
        self.bucket
    }

    pub fn inputs(&self) -> (inputs: &Vec<FileHandle>)
        ensures
            inputs@ == self@.inputs,
    {
        &self.inputs
    }

    /// The time bucket of the output.
    pub fn window(&self) -> (window: TimeRange)
        ensures
            window == self@.window(),
            window.start == self@.bucket_bound,
            window.end == self@.bucket_bound + self@.bucket,
    {
        proof {
            use_type_invariant(self);
        }
        TimeRange { start: self.bucket_bound, end: self.bucket_bound + self.bucket }
    }

    /// Whether a row with `timestamp` belongs to the output.
    pub fn covers(&self, timestamp: i64) -> (inside: bool)
        ensures
            inside == (self@.bucket_bound <= timestamp < self@.bucket_bound + self@.bucket),
    {
        let window = self.window();
        window.contains(timestamp)
    }

    /// The identifiers of the inputs, in order.
    pub fn input_ids(&self) -> (ids: Vec<FileId>)
        ensures
            ids@ == ids_of(self@.metas()),
    {
        let mut ids: Vec<FileId> = Vec::new();
        let mut i: usize = 0;
        while i < self.inputs.len()
            invariant
                0 <= i <= self.inputs.len(),
                ids@ == ids_of(metas_of(self.inputs@.take(i as int))),
            decreases self.inputs.len() - i,
        {
            ids.push(self.inputs[i].meta.file_id);
            i += 1;
            assert(ids@ =~= ids_of(metas_of(self.inputs@.take(i as int))));
        }
        assert(self.inputs@.take(self.inputs.len() as int) =~= self.inputs@);
        ids
    }

    /// The metadata of the inputs, in order.
    pub fn input_metas(&self) -> (metas: Vec<FileMeta>)
        ensures
            metas@ == self@.metas(),
    {
        let mut metas: Vec<FileMeta> = Vec::new();
        let mut i: usize = 0;
        while i < self.inputs.len()
            invariant
                0 <= i <= self.inputs.len(),
                metas@ == metas_of(self.inputs@.take(i as int)),
            decreases self.inputs.len() - i,
        {
            metas.push(self.inputs[i].meta);
            i += 1;
            assert(metas@ =~= metas_of(self.inputs@.take(i as int)));
        }
        assert(self.inputs@.take(self.inputs.len() as int) =~= self.inputs@);
        metas
    }

    /// What the merge executor is asked to do for the output: to merge its inputs
    /// over its time bucket into a file of its level.
    pub fn request(&self) -> (request: MergeRequest)
        ensures
            request.inputs@ == self@.inputs,
            request.window == self@.window(),
            request.output_level == self@.output_level,
    {
        let mut inputs: Vec<FileHandle> = Vec::new();
        let mut i: usize = 0;
        while i < self.inputs.len()
            invariant
                0 <= i <= self.inputs.len(),
                inputs@ == self.inputs@.take(i as int),
            decreases self.inputs.len() - i,
        {
            inputs.push(self.inputs[i]);
            i += 1;
            assert(inputs@ =~= self.inputs@.take(i as int));
        }
        assert(self.inputs@.take(self.inputs.len() as int) =~= self.inputs@);
        MergeRequest { inputs, window: self.window(), output_level: self.output_level }
    }

    /// The file that the output becomes once `merged` was written for it.
    pub fn file(&self, region_id: u64, merged: MergedSst) -> (meta: FileMeta)
        ensures
            meta == self@.file(region_id, merged),
    {
        FileMeta {
            region_id,
            file_id: merged.file_id,
            time_range: merged.info.time_range,
            level: self.output_level,
            file_size: merged.info.file_size,
        }
    }

    /// Hands the output's request to `executor`, and describes the file that it
    /// wrote. The executor alone decides whether the merge succeeds: the result is
    /// what becomes of its answer to that request, be it a file or a fault.
    pub fn build<E: MergeExecutor>(&self, region_id: u64, executor: &mut E) -> (built: Result<
        FileMeta,
        MergeFault,
    >)
        ensures
            built matches Ok(meta) ==> self@.produces(region_id, meta),
            exists|asked: &mut E, request: MergeRequest, answer: Result<MergedSst, MergeFault>|
                mut_ref_current(asked) == *old(executor)
                    && mut_ref_future(asked) == *final(executor)
                    && self@.asks(request) && #[trigger] call_ensures(
                    E::merge,
                    (asked, &request),
                    answer,
                ) && built == self@.outcome(region_id, answer),
            built_by::<E>(self@, region_id, built),
    {
        let request = self.request();
        let ghost before = *executor;
        let answer = executor.merge(&request);
        proof {
            assert(exists|asked: &mut E|
                mut_ref_current(asked) == before && mut_ref_future(asked) == *executor
                    && #[trigger] call_ensures(E::merge, (asked, &request), answer));
            assert(executor_answered::<E>(self@, answer));
        }
        match answer {
            Ok(merged) => Ok(self.file(region_id, merged)),
            Err(fault) => Err(fault),
        }
    }
}

/// The test that keeps the rows whose timestamp lies in `window`. A row is a
/// timestamp with whatever it carries.
pub open spec fn in_window<T>(window: TimeRange) -> spec_fn((i64, T)) -> bool {
    |row: (i64, T)| window.covers(row.0)
}

/// The rows of `rows` whose timestamp lies in `window`, in their order: what a read
/// restricted to `window` hands on, and nothing else.
pub fn retain_in_window<T>(rows: Vec<(i64, T)>, window: TimeRange) -> (kept: Vec<(i64, T)>)
    ensures
        kept@ == rows@.filter(in_window::<T>(window)),
        forall|i: int| 0 <= i < kept@.len() ==> window.covers(#[trigger] kept@[i].0),
        forall|i: int|
            0 <= i < rows@.len() && window.covers(rows@[i].0) ==> kept@.contains(
                #[trigger] rows@[i],
            ),
{
    let ghost all = rows@;
    let mut kept: Vec<(i64, T)> = Vec::new();
    proof {
        reveal(Seq::filter);
        assert(all.take(0).filter(in_window::<T>(window)) =~= Seq::<(i64, T)>::empty());
    }
    for row in it: rows.into_iter()
        invariant
            it.seq() == all,
            kept@ == all.take(it.index() as int).filter(in_window::<T>(window)),
    {
        proof {
            let n = it.index() as int;
            assert(all.take(n + 1) =~= all.take(n).push(row));
            all.take(n).lemma_filter_push(row, in_window::<T>(window));
        }
        if window.contains(row.0) {
            kept.push(row);
        }
    }
    proof {
        assert(all.take(all.len() as int) =~= all);
        broadcast use vstd::seq_lib::group_filter_ensures;
    }
    kept
}

} // verus!
