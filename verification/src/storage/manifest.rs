//! The live file set of a region and the edits that change it.

use vstd::prelude::*;
use crate::storage::sst::FileMeta;
use crate::storage::unique::{extend_unique, lemma_extend_unique};

verus! {

broadcast use vstd::seq_lib::group_seq_properties;

/// Why an edit was not committed.
#[derive(Debug, Clone, Copy, PartialEq, Eq, Structural)]
pub enum CommitFault {
    /// The durable write of the edit failed.
    WriteFailed,
    /// The edit was built against another region version than the current one.
    VersionMismatch { expected: u64, found: u64 },
}

/// The fault of an edit built against the region version `expected` where the
/// region is at `found`.
pub open spec fn version_mismatch(expected: u64, found: u64) -> CommitFault {
    CommitFault::VersionMismatch { expected, found }
}

/// The atomic unit of change of a region's file set.
#[derive(Debug, Clone, PartialEq, Eq)]
pub struct RegionEdit {
    /// Region version at the time the edit was built.
    pub region_version: u64,
    /// New flushed sequence number, if the edit moves it.
    pub flushed_sequence: Option<u64>,
    pub files_to_add: Vec<FileMeta>,
    pub files_to_remove: Vec<FileMeta>,
}

/// What an edit says.
pub struct EditView {
    pub region_version: u64,
    pub flushed_sequence: Option<u64>,
    pub files_to_add: Seq<FileMeta>,
    pub files_to_remove: Seq<FileMeta>,
}

impl EditView {
    /// The files that the edit makes visible.
    pub open spec fn added(self) -> Set<FileMeta> {
        self.files_to_add.to_set()
    }

    /// The files that the edit takes out of the file set.
    pub open spec fn removed(self) -> Set<FileMeta> {
        self.files_to_remove.to_set()
    }
}

impl View for RegionEdit {
    type V = EditView;

    open spec fn view(&self) -> EditView {
        EditView {
            region_version: self.region_version,
            flushed_sequence: self.flushed_sequence,
            files_to_add: self.files_to_add@,
            files_to_remove: self.files_to_remove@,
        }
    }
}

/// What a manifest describes.
pub struct ManifestState {
    pub region_version: u64,
    pub flushed_sequence: Option<u64>,
    pub files: Set<FileMeta>,
}

impl ManifestState {
    /// The state after `edit`: removed files leave, then added files enter. The
    /// flushed sequence number moves only if the edit carries one.
    pub open spec fn apply(self, edit: EditView) -> ManifestState {
        ManifestState {
            region_version: self.region_version,
            flushed_sequence: if edit.flushed_sequence is Some {
                edit.flushed_sequence
            } else {
                self.flushed_sequence
            },
            files: self.files.difference(edit.removed()).union(edit.added()),
        }
    }
}

/// An edit accounts for every change of the file set: a file that is no longer
/// part of it was removed by the edit, and a file that has become part of it was
/// added by the edit.
pub proof fn lemma_edit_accounts_for_changes(before: ManifestState, edit: EditView)
    ensures
        forall|meta: FileMeta|
            before.files.contains(meta) && !before.apply(edit).files.contains(meta)
                ==> edit.removed().contains(meta),
        forall|meta: FileMeta|
            !before.files.contains(meta) && before.apply(edit).files.contains(meta)
                ==> edit.added().contains(meta),
        before.apply(edit).region_version == before.region_version,
{
}

/// The collaborator that makes an edit durable, in the write-ahead log and in the
/// stored manifest. The library relies on nothing about its answer.
pub trait RegionWriter {
    fn write_edit(&mut self, edit: &RegionEdit) -> Result<(), CommitFault>;
}

/// Whether `files` holds `meta`.
pub fn contains_meta(files: &Vec<FileMeta>, meta: FileMeta) -> (found: bool)
    ensures
        found == files@.contains(meta),
{
    let mut i: usize = 0;
    while i < files.len()
        invariant
            0 <= i <= files.len(),
            forall|j: int| 0 <= j < i ==> files@[j] != meta,
        decreases files.len() - i,
    {
        if files[i] == meta {
            return true;
        }
        i += 1;
    }
    false
}

/// Appends to `seen` every element of `items` that it does not hold yet.
pub fn append_unique(seen: &mut Vec<FileMeta>, items: &Vec<FileMeta>)
    ensures
        final(seen)@ == extend_unique(old(seen)@, items@),
{
    let mut i: usize = 0;
    while i < items.len()
        invariant
            0 <= i <= items.len(),
            seen@ == extend_unique(old(seen)@, items@.take(i as int)),
        decreases items.len() - i,
    {
        let item = items[i];
        proof {
            assert(items@.take(i + 1).drop_last() =~= items@.take(i as int));
        }
        if !contains_meta(seen, item) {
            seen.push(item);
        }
        i += 1;
    }
    proof {
        assert(items@.take(items.len() as int) =~= items@);
    }
}

/// Description of the files that currently make up a region.
pub struct RegionManifest {
    region_version: u64,
    flushed_sequence: Option<u64>,
    files: Vec<FileMeta>,
}

impl View for RegionManifest {
    type V = ManifestState;

    closed spec fn view(&self) -> ManifestState {
        ManifestState {
            region_version: self.region_version,
            flushed_sequence: self.flushed_sequence,
            files: self.files@.to_set(),
        }
    }
}

impl RegionManifest {
    #[verifier::type_invariant]
    spec fn distinct(self) -> bool {
        self.files@.no_duplicates()
    }

    /// The manifest of a region at `region_version` that holds no file yet.
    pub fn new(region_version: u64) -> (manifest: RegionManifest)
        ensures
            manifest@ == (ManifestState {
                region_version,
                flushed_sequence: None,
                files: Set::empty(),
            }),
    {
        let manifest = RegionManifest { region_version, flushed_sequence: None, files: Vec::new() };
        assert(manifest.files@.to_set() =~= Set::<FileMeta>::empty());
        manifest
    }

    pub fn region_version(&self) -> (version: u64)
        ensures
            version == self@.region_version,
    {
        self.region_version
    }

    pub fn flushed_sequence(&self) -> (sequence: Option<u64>)
        ensures
            sequence == self@.flushed_sequence,
    {
        self.flushed_sequence
    }

    /// Whether `meta` is part of the file set.
    pub fn contains(&self, meta: FileMeta) -> (found: bool)
        ensures
            found == self@.files.contains(meta),
    {
        contains_meta(&self.files, meta)
    }

    /// The files of the set, each once.
    pub fn files(&self) -> (files: Vec<FileMeta>)
        ensures
            files@.no_duplicates(),
            files@.to_set() == self@.files,
    {
        proof {
            use_type_invariant(self);
        }
        let mut files: Vec<FileMeta> = Vec::new();
        let mut i: usize = 0;
        while i < self.files.len()
            invariant
                0 <= i <= self.files.len(),
                files@ == self.files@.take(i as int),
            decreases self.files.len() - i,
        {
            files.push(self.files[i]);
            i += 1;
            assert(files@ =~= self.files@.take(i as int));
        }
        assert(files@ =~= self.files@);
        files
    }

    /// The region moves to another version, as a change of its schema does.
    pub fn set_region_version(&mut self, region_version: u64)
        ensures
            final(self)@ == (ManifestState { region_version, ..old(self)@ }),
    {
        proof {
            use_type_invariant(&*self);
        }
        self.region_version = region_version;
    }

    /// Whether `edit` was built against the current region version; if not, the
    /// error names both versions.
    pub fn accepts(&self, edit: &RegionEdit) -> (accepted: Result<(), CommitFault>)
        ensures
            edit.region_version == self@.region_version ==> accepted is Ok,
            edit.region_version != self@.region_version ==> accepted == Err::<(), CommitFault>(
                version_mismatch(edit.region_version, self@.region_version),
            ),
    {
        if edit.region_version == self.region_version {
            Ok(())
        } else {
            Err(
                CommitFault::VersionMismatch {
                    expected: edit.region_version,
                    found: self.region_version,
                },
            )
        }
    }

    /// Applies `edit` if it was built against the current region version, and
    /// changes nothing otherwise.
    pub fn apply(&mut self, edit: &RegionEdit) -> (outcome: Result<(), CommitFault>)
        ensures
            edit.region_version == old(self)@.region_version ==> outcome is Ok && final(self)@
                == old(self)@.apply(edit@),
            edit.region_version != old(self)@.region_version ==> *final(self) == *old(self)
                && outcome == Err::<(), CommitFault>(
                version_mismatch(edit.region_version, old(self)@.region_version),
            ),
    {
        proof {
            use_type_invariant(&*self);
        }
        if let Err(fault) = self.accepts(edit) {
            return Err(fault);
        }
        let mut kept: Vec<FileMeta> = Vec::new();
        let mut i: usize = 0;
        while i < self.files.len()
            invariant
                0 <= i <= self.files.len(),
                self.files@.no_duplicates(),
                kept@.no_duplicates(),
                forall|m: FileMeta| #[trigger]
                    kept@.contains(m) <==> self.files@.take(i as int).contains(m)
                        && !edit.files_to_remove@.contains(m),
            decreases self.files.len() - i,
        {
            let file = self.files[i];
            proof {
                assert(self.files@.take(i + 1) =~= self.files@.take(i as int).push(file));
            }
            if !contains_meta(&edit.files_to_remove, file) {
                proof {
                    // `file` occurs once in the file set, so not among the earlier files
                    assert(!self.files@.take(i as int).contains(file)) by {
                        if self.files@.take(i as int).contains(file) {
                            let j = choose|j: int|
                                0 <= j < i && self.files@.take(i as int)[j] == file;
                            assert(self.files@[j] == self.files@[i as int]);
                        }
                    }
                    assert(!kept@.contains(file));
                }
                kept.push(file);
            }
            i += 1;
        }
        proof {
            assert(self.files@.take(self.files.len() as int) =~= self.files@);
            lemma_extend_unique(kept@, edit.files_to_add@);
        }
        append_unique(&mut kept, &edit.files_to_add);
        proof {
            assert(kept@.to_set() =~= self.files@.to_set().difference(edit@.removed()).union(
                edit@.added(),
            ));
        }
        self.files = kept;
        if edit.flushed_sequence.is_some() {
            self.flushed_sequence = edit.flushed_sequence;
        }
        Ok(())
    }
}

/// Whether a writer in the state `writer` can give `answer` when it is handed an
/// edit that says `edit`. Nothing is known of a writer's answers but what its own
/// `write_edit` promises.
pub open spec fn writer_answered<W: RegionWriter>(
    writer: W,
    edit: EditView,
    answer: Result<(), CommitFault>,
) -> bool {
    exists|asked: &mut W, handed: RegionEdit|
        mut_ref_current(asked) == writer && handed@ == edit && #[trigger] call_ensures(
            W::write_edit,
            (asked, &handed),
            answer,
        )
}

/// Concludes the commit of `edit` from the writer's answer `written`: after a
/// failed write the writer's fault is returned and the manifest is what it was;
/// after a successful one the edit is applied, if it was built against the
/// current region version.
pub fn conclude_commit(
    manifest: &mut RegionManifest,
    edit: &RegionEdit,
    written: Result<(), CommitFault>,
) -> (outcome: Result<(), CommitFault>)
    ensures
        written is Err ==> outcome == written && *final(manifest) == *old(manifest),
        written is Ok && edit.region_version == old(manifest)@.region_version ==> outcome is Ok
            && final(manifest)@ == old(manifest)@.apply(edit@),
        written is Ok && edit.region_version != old(manifest)@.region_version ==> *final(manifest)
            == *old(manifest) && outcome == Err::<(), CommitFault>(
            version_mismatch(edit.region_version, old(manifest)@.region_version),
        ),
{
    match written {
        Ok(()) => manifest.apply(edit),
        Err(fault) => Err(fault),
    }
}

/// Commits `edit`: checks it against the current region version, has `writer` make
/// it durable, and only then changes the file set.
///
/// An edit built against another region version is refused before the writer is
/// asked. Any other edit is handed to the writer once, and the writer's answer is
/// the outcome: the edit is applied exactly when the write succeeded. On any
/// failure the manifest is what it was.
pub fn write_edit_and_apply<W: RegionWriter>(
    writer: &mut W,
    manifest: &mut RegionManifest,
    edit: &RegionEdit,
) -> (outcome: Result<(), CommitFault>)
    ensures
        outcome is Ok ==> edit.region_version == old(manifest)@.region_version,
        outcome is Ok ==> final(manifest)@ == old(manifest)@.apply(edit@),
        outcome is Err ==> *final(manifest) == *old(manifest),
        edit.region_version != old(manifest)@.region_version ==> outcome == Err::<(), CommitFault>(
            version_mismatch(edit.region_version, old(manifest)@.region_version),
        ),
        edit.region_version != old(manifest)@.region_version ==> *final(writer) == *old(writer),
        edit.region_version == old(manifest)@.region_version ==> exists|asked: &mut W|
            mut_ref_current(asked) == *old(writer) && mut_ref_future(asked) == *final(writer)
                && #[trigger] call_ensures(W::write_edit, (asked, edit), outcome),
        edit.region_version == old(manifest)@.region_version ==> writer_answered(
            *old(writer),
            edit@,
            outcome,
        ),
{
    if let Err(fault) = manifest.accepts(edit) {
        return Err(fault);
    }
    let ghost before = *writer;
    let written = writer.write_edit(edit);
    proof {
        assert(exists|asked: &mut W|
            mut_ref_current(asked) == before && mut_ref_future(asked) == *writer
                && #[trigger] call_ensures(W::write_edit, (asked, edit), written));
        let asked = choose|asked: &mut W|
            mut_ref_current(asked) == before && mut_ref_future(asked) == *writer
                && #[trigger] call_ensures(W::write_edit, (asked, edit), written);
        assert(call_ensures(W::write_edit, (asked, &*edit), written));
    }
    let outcome = conclude_commit(manifest, edit, written);
    proof {
        assert(edit.region_version == old(manifest)@.region_version);
        if written is Ok {
            assert(outcome is Ok);
            assert(outcome->Ok_0 == written->Ok_0);
        }
        assert(outcome == written);
        assert(writer_answered(before, edit@, outcome));
    }
    outcome
}

} // verus!
