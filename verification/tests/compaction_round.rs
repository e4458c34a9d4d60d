use std::collections::HashMap;

use lsm_compaction::storage::compaction::output::{
    retain_in_window, CompactionOutput, MergeExecutor, MergeRequest, MergedSst,
};
use lsm_compaction::storage::compaction::round::CompactionRound;
use lsm_compaction::storage::compaction::task::{CompactionTask, CompactionTaskImpl};
use lsm_compaction::storage::region::SharedData;
use lsm_compaction::storage::error::{Error, MergeFault};
use lsm_compaction::storage::manifest::{CommitFault, RegionEdit, RegionWriter};
use lsm_compaction::storage::sst::{FileHandle, FileId, FileMeta, SstInfo, TimeRange};

/// Keeps the rows of every file in memory; a row is a timestamp and a payload.
struct MemoryLayer {
    rows: HashMap<u128, Vec<(i64, u32)>>,
    next_id: u128,
    merges: usize,
    writes: usize,
    requests: Vec<MergeRequest>,
    fail_level: Option<i64>,
}

impl MemoryLayer {
    fn new() -> Self {
        MemoryLayer {
            rows: HashMap::new(),
            next_id: 1000,
            merges: 0,
            writes: 0,
            requests: vec![],
            fail_level: None,
        }
    }

    fn put(&mut self, id: u128, from: i64, to: i64) {
        self.rows.insert(id, (from..to).map(|t| (t, id as u32)).collect());
    }
}

impl MergeExecutor for MemoryLayer {
    fn merge(&mut self, request: &MergeRequest) -> Result<MergedSst, MergeFault> {
        self.merges += 1;
        self.requests.push(request.clone());
        if self.fail_level == Some(request.window.start) {
            return Err(MergeFault::Io);
        }
        let mut all = Vec::new();
        for input in &request.inputs {
            all.extend(self.rows.get(&input.file_id().value).cloned().unwrap_or_default());
        }
        let kept = retain_in_window(all, request.window);
        let time_range = match (kept.iter().map(|r| r.0).min(), kept.iter().map(|r| r.0).max()) {
            (Some(lo), Some(hi)) => Some(TimeRange { start: lo, end: hi + 1 }),
            _ => None,
        };
        let file_id = FileId::new(self.next_id);
        self.next_id += 1;
        self.writes += 1;
        let file_size = kept.len() as u64;
        self.rows.insert(file_id.value, kept);
        Ok(MergedSst { file_id, info: SstInfo { time_range, file_size } })
    }
}

struct Recorder {
    edits: Vec<RegionEdit>,
    fail: bool,
}

impl RegionWriter for Recorder {
    fn write_edit(&mut self, edit: &RegionEdit) -> Result<(), CommitFault> {
        if self.fail {
            return Err(CommitFault::WriteFailed);
        }
        self.edits.push(edit.clone());
        Ok(())
    }
}

fn meta(id: u128, level: u8, from: i64, to: i64) -> FileMeta {
    FileMeta {
        region_id: 7,
        file_id: FileId::new(id),
        time_range: Some(TimeRange { start: from, end: to }),
        level,
        file_size: (to - from) as u64,
    }
}

fn region_with(files: &[FileMeta]) -> SharedData {
    let mut region = SharedData::new(7, "region-7".to_string(), 3);
    let flush = RegionEdit {
        region_version: 3,
        flushed_sequence: Some(11),
        files_to_add: files.to_vec(),
        files_to_remove: vec![],
    };
    assert_eq!(region.manifest.apply(&flush), Ok(()));
    region
}

fn sorted(mut files: Vec<FileMeta>) -> Vec<FileMeta> {
    files.sort_by_key(|f| f.file_id.value);
    files
}

#[test]
fn round_replaces_inputs_by_one_file() {
    let f1 = meta(1, 0, 0, 100);
    let f2 = meta(2, 0, 50, 150);
    let mut region = region_with(&[f1, f2]);
    let mut layer = MemoryLayer::new();
    layer.put(1, 0, 100);
    layer.put(2, 50, 150);

    let output =
        CompactionOutput::new(1, 0, 200, vec![FileHandle::new(f1), FileHandle::new(f2)]).unwrap();
    let task = CompactionTaskImpl::new(
        layer,
        Recorder { edits: vec![], fail: false },
        vec![output],
        vec![],
    );
    assert!(task.round.eligible(&region.registry));
    assert_eq!(task.run(&mut region), Ok(()));

    let files = region.manifest.files();
    assert_eq!(files.len(), 1);
    assert!(!region.manifest.contains(f1));
    assert!(!region.manifest.contains(f2));
    let new_file = files[0];
    assert_eq!(new_file.level, 1);
    assert_eq!(new_file.region_id, 7);
    assert_eq!(new_file.time_range, Some(TimeRange { start: 0, end: 150 }));
    assert_eq!(new_file.file_size, 200);
    assert_eq!(new_file.file_id, FileId::new(1000));
    assert!(!FileHandle::new(f1).compacting(&region.registry));
    assert!(!FileHandle::new(f2).compacting(&region.registry));
    assert_eq!(region.manifest.region_version(), 3);
    assert_eq!(region.manifest.flushed_sequence(), Some(11));
}

#[test]
fn failed_merge_leaves_region_as_it_was() {
    let f1 = meta(1, 0, 0, 100);
    let f2 = meta(2, 0, 50, 150);
    let f3 = meta(3, 0, 200, 300);
    let mut region = region_with(&[f1, f2, f3]);
    let before = sorted(region.manifest.files());
    let mut layer = MemoryLayer::new();
    layer.put(1, 0, 100);
    layer.put(2, 50, 150);
    layer.put(3, 200, 300);
    layer.fail_level = Some(200);

    let first =
        CompactionOutput::new(1, 0, 200, vec![FileHandle::new(f1), FileHandle::new(f2)]).unwrap();
    let second = CompactionOutput::new(1, 200, 200, vec![FileHandle::new(f3)]).unwrap();
    let mut task = CompactionTaskImpl::new(
        layer,
        Recorder { edits: vec![], fail: false },
        vec![first, second],
        vec![],
    );

    // the steps of `run`, one by one, so that the collaborators can be looked at
    task.mark_files_compacting(&mut region.registry, true);
    assert!(FileHandle::new(f1).compacting(&region.registry));
    assert!(FileHandle::new(f3).compacting(&region.registry));
    let merged = task.merge_ssts(7, &"region-7".to_string());
    match merged {
        Err(Error::MergeFailure { region_name, file_ids, fault }) => {
            assert_eq!(region_name, "region-7");
            assert_eq!(file_ids, vec![FileId::new(3)]);
            assert_eq!(fault, MergeFault::Io);
        }
        other => panic!("unexpected outcome {:?}", other),
    }
    // the other output was merged and written, and is simply not committed
    assert_eq!(
        task.sst_layer.requests,
        vec![
            MergeRequest {
                inputs: vec![FileHandle::new(f1), FileHandle::new(f2)],
                window: TimeRange { start: 0, end: 200 },
                output_level: 1,
            },
            MergeRequest {
                inputs: vec![FileHandle::new(f3)],
                window: TimeRange { start: 200, end: 400 },
                output_level: 1,
            },
        ]
    );
    assert_eq!(task.sst_layer.merges, 2);
    assert_eq!(task.sst_layer.writes, 1);
    assert!(task.writer.edits.is_empty());
    task.cancel(&mut region.registry);

    assert_eq!(sorted(region.manifest.files()), before);
    for f in [f1, f2, f3] {
        assert!(!FileHandle::new(f).compacting(&region.registry));
    }
}

#[test]
fn failed_merge_fails_the_run() {
    let f1 = meta(1, 0, 0, 100);
    let f3 = meta(3, 0, 200, 300);
    let mut region = region_with(&[f1, f3]);
    let before = sorted(region.manifest.files());
    let mut layer = MemoryLayer::new();
    layer.put(1, 0, 100);
    layer.put(3, 200, 300);
    layer.fail_level = Some(0);
    let first = CompactionOutput::new(1, 0, 200, vec![FileHandle::new(f1)]).unwrap();
    let second = CompactionOutput::new(1, 200, 200, vec![FileHandle::new(f3)]).unwrap();
    let task = CompactionTaskImpl::new(
        layer,
        Recorder { edits: vec![], fail: false },
        vec![first, second],
        vec![],
    );
    let outcome = task.run(&mut region);
    assert!(matches!(
        outcome,
        Err(Error::MergeFailure { ref file_ids, fault: MergeFault::Io, .. })
            if *file_ids == vec![FileId::new(1)]
    ));
    assert_eq!(sorted(region.manifest.files()), before);
    assert!(!FileHandle::new(f1).compacting(&region.registry));
    assert!(!FileHandle::new(f3).compacting(&region.registry));
}

#[test]
fn failed_commit_leaves_region_as_it_was() {
    let f1 = meta(1, 0, 0, 100);
    let f2 = meta(2, 0, 50, 150);
    let mut region = region_with(&[f1, f2]);
    let before = sorted(region.manifest.files());
    let mut layer = MemoryLayer::new();
    layer.put(1, 0, 100);
    layer.put(2, 50, 150);
    let output =
        CompactionOutput::new(1, 0, 200, vec![FileHandle::new(f1), FileHandle::new(f2)]).unwrap();
    let task = CompactionTaskImpl::new(
        layer,
        Recorder { edits: vec![], fail: true },
        vec![output],
        vec![],
    );
    match task.run(&mut region) {
        Err(Error::CommitFailure { region_name, edit, fault }) => {
            assert_eq!(region_name, "region-7");
            assert_eq!(fault, CommitFault::WriteFailed);
            assert_eq!(edit.region_version, 3);
            assert_eq!(edit.flushed_sequence, None);
            assert_eq!(edit.files_to_remove, vec![f1, f2]);
            assert_eq!(edit.files_to_add.len(), 1);
            assert_eq!(edit.files_to_add[0].level, 1);
        }
        other => panic!("unexpected outcome {:?}", other),
    }
    assert_eq!(sorted(region.manifest.files()), before);
    assert_eq!(region.manifest.flushed_sequence(), Some(11));
    assert!(!FileHandle::new(f1).compacting(&region.registry));
    assert!(!FileHandle::new(f2).compacting(&region.registry));
}

#[test]
fn shared_inputs_and_expired_files_are_removed_once() {
    let f1 = meta(1, 0, 0, 100);
    let f2 = meta(2, 0, 50, 250);
    let old = meta(9, 1, -500, -400);
    let keep = meta(5, 1, 1000, 1100);
    let mut region = region_with(&[f1, f2, old, keep]);
    let mut layer = MemoryLayer::new();
    layer.put(1, 0, 100);
    layer.put(2, 50, 250);
    // two buckets read the same pair of files
    let first =
        CompactionOutput::new(1, 0, 200, vec![FileHandle::new(f1), FileHandle::new(f2)]).unwrap();
    let second =
        CompactionOutput::new(1, 200, 200, vec![FileHandle::new(f2), FileHandle::new(f1)]).unwrap();
    let task = CompactionTaskImpl::new(
        layer,
        Recorder { edits: vec![], fail: false },
        vec![first, second],
        vec![FileHandle::new(old), FileHandle::new(f1)],
    );
    assert_eq!(task.round.compacted_inputs(), vec![f1, f2]);
    assert_eq!(task.round.removed_files(), vec![f1, f2, old]);
    assert_eq!(
        task.round.input_file_ids(),
        vec![FileId::new(1), FileId::new(2), FileId::new(2), FileId::new(1)]
    );
    assert_eq!(task.run(&mut region), Ok(()));

    let files = sorted(region.manifest.files());
    assert_eq!(files.len(), 3);
    assert_eq!(files[0], keep);
    assert_eq!(files[1].file_id, FileId::new(1000));
    assert_eq!(files[1].time_range, Some(TimeRange { start: 0, end: 200 }));
    assert_eq!(files[1].file_size, 100 + 150);
    assert_eq!(files[2].file_id, FileId::new(1001));
    assert_eq!(files[2].time_range, Some(TimeRange { start: 200, end: 250 }));
    assert_eq!(files[2].file_size, 50);
    for removed in [f1, f2, old] {
        assert!(!region.manifest.contains(removed));
    }
}

#[test]
fn writer_sees_one_edit_for_the_round() {
    let f1 = meta(1, 0, 0, 100);
    let mut region = region_with(&[f1]);
    let mut layer = MemoryLayer::new();
    layer.put(1, 0, 100);
    let output = CompactionOutput::new(2, 0, 50, vec![FileHandle::new(f1)]).unwrap();
    let mut task = CompactionTaskImpl::new(
        layer,
        Recorder { edits: vec![], fail: false },
        vec![output],
        vec![],
    );
    task.mark_files_compacting(&mut region.registry, true);
    let (output, input) = task.merge_ssts(7, &"region-7".to_string()).unwrap();
    assert_eq!(input, vec![f1]);
    assert_eq!(output.len(), 1);
    assert_eq!(output[0].level, 2);
    assert_eq!(output[0].time_range, Some(TimeRange { start: 0, end: 50 }));
    let added = output.clone();
    assert_eq!(task.write_manifest_and_apply(&mut region, output, input), Ok(()));
    assert_eq!(
        task.writer.edits,
        vec![RegionEdit {
            region_version: 3,
            flushed_sequence: None,
            files_to_add: added.clone(),
            files_to_remove: vec![f1],
        }]
    );
    // no file is both added and removed
    let edit = &task.writer.edits[0];
    assert!(edit.files_to_add.iter().all(|added| !edit.files_to_remove.contains(added)));
    assert_eq!(region.manifest.files(), added);
    // the flags are still set until the round lets go of them
    assert!(FileHandle::new(f1).compacting(&region.registry));
    task.cancel(&mut region.registry);
    assert!(!FileHandle::new(f1).compacting(&region.registry));
}

#[test]
fn rounds_in_flight_exclude_each_other() {
    let f1 = meta(1, 0, 0, 100);
    let f2 = meta(2, 0, 50, 150);
    let f3 = meta(3, 0, 200, 300);
    let mut region = region_with(&[f1, f2, f3]);
    let task = |files: Vec<FileMeta>| {
        let inputs = files.into_iter().map(FileHandle::new).collect();
        CompactionTaskImpl::new(
            MemoryLayer::new(),
            Recorder { edits: vec![], fail: false },
            vec![CompactionOutput::new(1, 0, 400, inputs).unwrap()],
            vec![],
        )
    };
    let running = task(vec![f1, f2]);
    let overlapping = task(vec![f2, f3]);
    let disjoint = task(vec![f3]);

    assert!(running.round.eligible(&region.registry));
    assert!(overlapping.round.eligible(&region.registry));
    assert!(running.round.try_hold(&mut region.registry));
    assert!(!overlapping.round.try_hold(&mut region.registry));
    assert!(!FileHandle::new(f3).compacting(&region.registry));
    // a round that holds its inputs cannot take hold of them again, but may mark them
    assert!(!running.round.try_hold(&mut region.registry));
    running.mark_files_compacting(&mut region.registry, true);
    // marking again changes nothing
    running.mark_files_compacting(&mut region.registry, true);
    assert!(FileHandle::new(f1).compacting(&region.registry));
    assert!(FileHandle::new(f2).compacting(&region.registry));
    assert!(!FileHandle::new(f3).compacting(&region.registry));

    // while the first round holds its inputs, a round that shares one is not admitted
    assert!(!overlapping.round.eligible(&region.registry));
    assert!(!running.round.eligible(&region.registry));
    assert!(disjoint.round.eligible(&region.registry));
    assert!(disjoint.round.try_hold(&mut region.registry));
    assert!(FileHandle::new(f3).compacting(&region.registry));

    // dropping the first round without running it frees its inputs, and only those
    running.cancel(&mut region.registry);
    assert!(!FileHandle::new(f1).compacting(&region.registry));
    assert!(!FileHandle::new(f2).compacting(&region.registry));
    assert!(FileHandle::new(f3).compacting(&region.registry));
    assert!(!overlapping.round.eligible(&region.registry));
    disjoint.cancel(&mut region.registry);
    assert!(overlapping.round.eligible(&region.registry));
}

#[test]
fn merged_read_keeps_the_bucket_only() {
    let window = TimeRange { start: 10, end: 20 };
    let rows = vec![(9, 'a'), (10, 'b'), (19, 'c'), (20, 'd'), (15, 'e'), (-3, 'f'), (10, 'g')];
    assert_eq!(retain_in_window(rows, window), vec![(10, 'b'), (19, 'c'), (15, 'e'), (10, 'g')]);
    assert_eq!(retain_in_window(Vec::<(i64, u8)>::new(), window), vec![]);
    let empty = TimeRange { start: 5, end: 5 };
    assert_eq!(retain_in_window(vec![(5, ()), (4, ())], empty), vec![]);
    assert!(window.contains(10));
    assert!(window.contains(19));
    assert!(!window.contains(20));
    assert!(!window.contains(9));
}

#[test]
fn output_bucket_is_half_open() {
    let output = CompactionOutput::new(1, 100, 50, vec![]).unwrap();
    assert_eq!(output.window(), TimeRange { start: 100, end: 150 });
    assert_eq!(output.output_level(), 1);
    assert_eq!(output.bucket_bound(), 100);
    assert_eq!(output.bucket(), 50);
    assert!(output.inputs().is_empty());
    assert!(output.covers(100));
    assert!(output.covers(149));
    assert!(!output.covers(150));
    assert!(!output.covers(99));
    let negative = CompactionOutput::new(0, -200, 100, vec![]).unwrap();
    assert_eq!(negative.window(), TimeRange { start: -200, end: -100 });
}

#[test]
fn output_bucket_must_end_at_a_timestamp() {
    assert!(CompactionOutput::new(1, i64::MAX, 1, vec![]).is_none());
    assert!(CompactionOutput::new(1, i64::MIN, -1, vec![]).is_none());
    assert!(CompactionOutput::new(1, i64::MAX, 0, vec![]).is_some());
    assert!(CompactionOutput::new(1, i64::MAX - 5, 5, vec![]).is_some());
    assert!(CompactionOutput::new(1, i64::MIN, i64::MAX, vec![]).is_some());
}

#[test]
fn output_file_takes_level_from_plan() {
    let f1 = meta(1, 0, 0, 100);
    let output = CompactionOutput::new(3, 0, 10, vec![FileHandle::new(f1)]).unwrap();
    let merged = MergedSst {
        file_id: FileId::new(77),
        info: SstInfo { time_range: Some(TimeRange { start: 2, end: 9 }), file_size: 4096 },
    };
    assert_eq!(
        output.file(12, merged),
        FileMeta {
            region_id: 12,
            file_id: FileId::new(77),
            time_range: Some(TimeRange { start: 2, end: 9 }),
            level: 3,
            file_size: 4096,
        }
    );
    assert_eq!(
        output.request(),
        MergeRequest {
            inputs: vec![FileHandle::new(f1)],
            window: TimeRange { start: 0, end: 10 },
            output_level: 3,
        }
    );
    assert_eq!(output.input_ids(), vec![FileId::new(1)]);
    assert_eq!(output.input_metas(), vec![f1]);
    let mut layer = MemoryLayer::new();
    layer.put(1, 0, 100);
    let built = output.build(12, &mut layer).unwrap();
    assert_eq!(built.level, 3);
    assert_eq!(built.region_id, 12);
    assert_eq!(built.time_range, Some(TimeRange { start: 0, end: 10 }));
    layer.fail_level = Some(0);
    assert_eq!(output.build(12, &mut layer), Err(MergeFault::Io));
}

#[test]
fn first_failed_output_names_the_error() {
    let f1 = meta(1, 0, 0, 100);
    let f2 = meta(2, 0, 100, 200);
    let f3 = meta(3, 0, 200, 300);
    let outputs = vec![
        CompactionOutput::new(1, 0, 100, vec![FileHandle::new(f1)]).unwrap(),
        CompactionOutput::new(1, 100, 100, vec![FileHandle::new(f2)]).unwrap(),
        CompactionOutput::new(1, 200, 100, vec![FileHandle::new(f3), FileHandle::new(f1)]).unwrap(),
    ];
    let task = CompactionTaskImpl::new(
        MemoryLayer::new(),
        Recorder { edits: vec![], fail: false },
        outputs,
        vec![],
    );
    let name = "r".to_string();
    let a = meta(10, 1, 0, 100);
    let b = meta(11, 1, 100, 200);
    let c = meta(12, 1, 200, 300);
    assert_eq!(task.round.collect_outputs(&name, &vec![Ok(a), Ok(b), Ok(c)]), Ok(vec![a, b, c]));
    assert_eq!(
        task.round.collect_outputs(
            &name,
            &vec![Ok(a), Err(MergeFault::SchemaMismatch), Err(MergeFault::Io)]
        ),
        Err(Error::MergeFailure {
            region_name: "r".to_string(),
            file_ids: vec![FileId::new(2)],
            fault: MergeFault::SchemaMismatch,
        })
    );
    assert_eq!(
        task.round.collect_outputs(&name, &vec![Ok(a), Ok(b), Err(MergeFault::Io)]),
        Err(Error::MergeFailure {
            region_name: "r".to_string(),
            file_ids: vec![FileId::new(3), FileId::new(1)],
            fault: MergeFault::Io,
        })
    );
}

#[test]
fn round_without_outputs_removes_expired_files() {
    let old = meta(9, 1, -500, -400);
    let keep = meta(5, 1, 1000, 1100);
    let mut region = region_with(&[old, keep]);
    let task = CompactionTaskImpl::new(
        MemoryLayer::new(),
        Recorder { edits: vec![], fail: false },
        vec![],
        vec![FileHandle::new(old)],
    );
    assert!(task.round.eligible(&region.registry));
    assert_eq!(task.run(&mut region), Ok(()));
    assert_eq!(region.manifest.files(), vec![keep]);
}

struct NoopCompactionTask {
    calls: std::rc::Rc<std::cell::Cell<u32>>,
}

impl CompactionTask for NoopCompactionTask {
    fn run(self, _region: &mut SharedData) -> Result<(), Error> {
        self.calls.set(self.calls.get() + 1);
        Ok(())
    }
}

#[test]
fn any_task_can_be_run() {
    let calls = std::rc::Rc::new(std::cell::Cell::new(0));
    let mut region = region_with(&[]);
    assert_eq!(NoopCompactionTask { calls: calls.clone() }.run(&mut region), Ok(()));
    assert_eq!(calls.get(), 1);
    assert_eq!(region.id(), 7);
    assert_eq!(region.name(), "region-7");
    assert!(region.manifest.files().is_empty());
}

#[test]
fn round_decides_between_the_awaited_steps() {
    // the round as it is driven where merges and the durable write are awaited
    let f1 = meta(1, 0, 0, 100);
    let f2 = meta(2, 0, 100, 200);
    let old = meta(9, 1, -500, -400);
    let mut region = region_with(&[f1, f2, old]);
    let round = CompactionRound::new(
        vec![
            CompactionOutput::new(1, 0, 100, vec![FileHandle::new(f1)]).unwrap(),
            CompactionOutput::new(1, 100, 100, vec![FileHandle::new(f2)]).unwrap(),
        ],
        vec![FileHandle::new(old)],
    );
    assert!(round.eligible(&region.registry));
    round.mark_files_compacting(&mut region.registry, true);

    let merged = [
        MergedSst {
            file_id: FileId::new(50),
            info: SstInfo { time_range: Some(TimeRange { start: 0, end: 100 }), file_size: 10 },
        },
        MergedSst { file_id: FileId::new(51), info: SstInfo { time_range: None, file_size: 0 } },
    ];
    let built: Vec<Result<FileMeta, MergeFault>> = round
        .outputs
        .iter()
        .zip(merged)
        .map(|(output, merged)| Ok(output.file(region.id(), merged)))
        .collect();
    let output = round.collect_outputs(region.name(), &built).unwrap();
    let edit = round.edit(region.manifest.region_version(), output.clone());
    assert_eq!(
        edit,
        RegionEdit {
            region_version: 3,
            flushed_sequence: None,
            files_to_add: vec![
                FileMeta {
                    region_id: 7,
                    file_id: FileId::new(50),
                    time_range: Some(TimeRange { start: 0, end: 100 }),
                    level: 1,
                    file_size: 10,
                },
                FileMeta {
                    region_id: 7,
                    file_id: FileId::new(51),
                    time_range: None,
                    level: 1,
                    file_size: 0,
                },
            ],
            files_to_remove: vec![f1, f2, old],
        }
    );
    assert_eq!(region.manifest.accepts(&edit), Ok(()));
    assert_eq!(region.manifest.apply(&edit), Ok(()));
    assert_eq!(region.manifest.files(), output);
    round.cancel(&mut region.registry);
    assert!(!FileHandle::new(f1).compacting(&region.registry));
    assert!(!FileHandle::new(f2).compacting(&region.registry));
}

#[test]
fn commit_failure_reports_region_edit_and_fault() {
    let name = "region-7".to_string();
    let change = RegionEdit {
        region_version: 3,
        flushed_sequence: None,
        files_to_add: vec![meta(5, 1, 0, 10)],
        files_to_remove: vec![meta(1, 0, 0, 10)],
    };
    assert_eq!(CompactionRound::commit_outcome(&name, change.clone(), Ok(())), Ok(()));
    let fault = CommitFault::VersionMismatch { expected: 3, found: 4 };
    assert_eq!(
        CompactionRound::commit_outcome(&name, change.clone(), Err(fault)),
        Err(Error::CommitFailure { region_name: name.clone(), edit: change.clone(), fault })
    );
    assert_eq!(
        CompactionRound::commit_outcome(&name, change.clone(), Err(CommitFault::WriteFailed)),
        Err(Error::CommitFailure {
            region_name: name.clone(),
            edit: change,
            fault: CommitFault::WriteFailed
        })
    );
}
