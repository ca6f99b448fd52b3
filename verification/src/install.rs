use vstd::prelude::*;

use crate::errors::ExtractError;
use crate::errors::FetchError;
use crate::errors::InstallError;
use crate::errors::ManifestError;
use crate::extract::ArchiveEntry;
use crate::extract::ArchiveEntryView;
use crate::extract::FsAction;
use crate::extract::ZipEntryModel;
use crate::extract::entry_views;
use crate::extract::manifest_entry_index;
use crate::extract::manifest_from_entries;
use crate::extract::planned_action;
use crate::extract::read_archive;
use crate::extract::unpack_actions;
use crate::extract::zip_parse;
use crate::fetch::FetchPlan;
use crate::fetch::plan_fetch;
use crate::json::json_parse;
use crate::manifest::spec_decode_manifest;
use crate::mrpack::MRPack;
use crate::mrpack::MRPackView;
use crate::paths::joined_path;
use crate::paths::safe_rel_path;

verus! {

/// Counts of completed work, reported after a successful install.
#[derive(Debug, Clone, Copy, PartialEq, Eq, Structural)]
pub struct InstallSummary {
    /// Entries materialized from the archive.
    pub files_extracted: usize,
    /// Manifest entries fetched from their download URLs.
    pub files_fetched: usize,
}

/// The steps of one install run, in order; any failure moves to `Failed`
/// and no further step is accepted, leaving already-written files on disk.
#[derive(Debug, Clone, Copy, PartialEq, Eq, Structural)]
pub enum InstallPhase {
    Start,
    Extracted,
    ManifestLoaded,
    Fetching,
    Done,
    Failed,
}

/// Tracks one install run through extract, manifest load and the
/// sequential fetch of every manifest entry; the driver performs the
/// filesystem and network work and reports each outcome here.
#[derive(Debug, Clone)]
pub struct Installer {
    pub phase: InstallPhase,
    pub manifest: Option<MRPack>,
    pub files_extracted: usize,
    pub files_fetched: usize,
}

impl Installer {
    /// The phases in which a manifest is held, with the fetch cursor in
    /// range.
    pub open spec fn wf(self) -> bool {
        match self.phase {
            InstallPhase::Start => self.manifest is None && self.files_extracted == 0
                && self.files_fetched == 0,
            InstallPhase::Extracted => self.manifest is None && self.files_fetched == 0,
            InstallPhase::ManifestLoaded => self.manifest matches Some(m) && self.files_fetched
                <= m@.files.len(),
            InstallPhase::Fetching => self.manifest matches Some(m) && self.files_fetched
                <= m@.files.len(),
            InstallPhase::Done => self.manifest is Some,
            InstallPhase::Failed => true,
        }
    }

    /// A fresh run, before any work.
    pub fn new() -> (r: Installer)
        ensures
            r.wf(),
            r.phase == InstallPhase::Start,
            r.files_extracted == 0,
            r.files_fetched == 0,
    {
        Installer {
            phase: InstallPhase::Start,
            manifest: None,
            files_extracted: 0,
            files_fetched: 0,
        }
    }

    /// Records a completed extraction of `n` archive entries.
    pub fn on_extracted(&mut self, n: usize)
        requires
            old(self).wf(),
            old(self).phase == InstallPhase::Start,
        ensures
            final(self).wf(),
            final(self).phase == InstallPhase::Extracted,
            final(self).files_extracted == n,
            final(self).files_fetched == 0,
            final(self).manifest == old(self).manifest,
    {
        self.phase = InstallPhase::Extracted;
        self.files_extracted = n;
    }

    /// Records a failed extraction; the run aborts with the step-tagged
    /// error and accepts no further step.
    pub fn on_extract_failed(&mut self, e: ExtractError) -> (r: InstallError)
        requires
            old(self).wf(),
            old(self).phase == InstallPhase::Start,
        ensures
            final(self).wf(),
            final(self).phase == InstallPhase::Failed,
            r == InstallError::Extract(e),
    {
        self.phase = InstallPhase::Failed;
        InstallError::Extract(e)
    }

    /// Records the decoded manifest; fetching then proceeds in manifest
    /// order from the first entry.
    pub fn on_manifest(&mut self, m: MRPack)
        requires
            old(self).wf(),
            old(self).phase == InstallPhase::Extracted,
        ensures
            final(self).wf(),
            final(self).phase == InstallPhase::ManifestLoaded,
            final(self).manifest == Some(m),
            final(self).files_extracted == old(self).files_extracted,
            final(self).files_fetched == 0,
    {
        self.phase = InstallPhase::ManifestLoaded;
        self.manifest = Some(m);
    }

    /// Records a failed manifest read; the run aborts.
    pub fn on_manifest_failed(&mut self, e: ManifestError) -> (r: InstallError)
        requires
            old(self).wf(),
            old(self).phase == InstallPhase::Extracted,
        ensures
            final(self).wf(),
            final(self).phase == InstallPhase::Failed,
            r == InstallError::Manifest(e),
    {
        self.phase = InstallPhase::Failed;
        InstallError::Manifest(e)
    }

    /// The index of the next manifest entry to fetch, in manifest order;
    /// `None` once every entry is done.
    pub fn next_fetch_index(&self) -> (r: Option<usize>)
        requires
            self.wf(),
            self.phase == InstallPhase::ManifestLoaded || self.phase == InstallPhase::Fetching,
        ensures
            r is Some <==> self.files_fetched < self.manifest->Some_0@.files.len(),
            r matches Some(i) ==> i == self.files_fetched,
    {
        let m = match &self.manifest {
            Some(m) => m,
            None => {
                proof {
                    assert(false);
                }
                return None;
            },
        };
        if self.files_fetched < m.files.len() {
            Some(self.files_fetched)
        } else {
            None
        }
    }

    /// Records one fetched entry.
    pub fn on_fetch_done(&mut self)
        requires
            old(self).wf(),
            old(self).phase == InstallPhase::ManifestLoaded || old(self).phase
                == InstallPhase::Fetching,
            old(self).files_fetched < old(self).manifest->Some_0@.files.len(),
        ensures
            final(self).wf(),
            final(self).phase == InstallPhase::Fetching,
            final(self).files_fetched == old(self).files_fetched + 1,
            final(self).files_extracted == old(self).files_extracted,
            final(self).manifest == old(self).manifest,
    {
        self.phase = InstallPhase::Fetching;
        let cap = match &self.manifest {
            Some(m) => m.files.len(),
            None => {
                proof {
                    assert(false);
                }
                0
            },
        };
        proof {
            assert(self.files_fetched < cap);
        }
        self.files_fetched = self.files_fetched + 1;
    }

    /// Records a failed fetch: the run aborts at this entry, tagged with
    /// its index, and no later entry is fetched.
    pub fn on_fetch_failed(&mut self, e: FetchError) -> (r: InstallError)
        requires
            old(self).wf(),
            old(self).phase == InstallPhase::ManifestLoaded || old(self).phase
                == InstallPhase::Fetching,
        ensures
            final(self).wf(),
            final(self).phase == InstallPhase::Failed,
            r == InstallError::Fetch(old(self).files_fetched, e),
    {
        self.phase = InstallPhase::Failed;
        InstallError::Fetch(self.files_fetched, e)
    }

    /// Closes a run whose every manifest entry is fetched.
    pub fn finish(&mut self) -> (r: InstallSummary)
        requires
            old(self).wf(),
            old(self).phase == InstallPhase::ManifestLoaded || old(self).phase
                == InstallPhase::Fetching,
            old(self).files_fetched == old(self).manifest->Some_0@.files.len(),
        ensures
            final(self).wf(),
            final(self).phase == InstallPhase::Done,
            r.files_extracted == old(self).files_extracted,
            r.files_fetched == old(self).files_fetched,
    {
        self.phase = InstallPhase::Done;
        InstallSummary { files_extracted: self.files_extracted, files_fetched: self.files_fetched }
    }
}

pub open spec fn views_of_models(ms: Seq<ZipEntryModel>) -> Seq<ArchiveEntryView> {
    ms.map_values(|m: ZipEntryModel| ArchiveEntryView { name: m.name, data: m.data })
}

/// The byte image is a readable archive: its directory parses and every
/// entry decompresses.
pub open spec fn archive_readable(bytes: Seq<u8>) -> bool {
    zip_parse(bytes) matches Some(ms) && (forall|i: int|
        0 <= i < ms.len() ==> (#[trigger] ms[i]).readable)
}

/// Every entry name stays within the output root.
pub open spec fn entries_all_safe(ms: Seq<ZipEntryModel>) -> bool {
    forall|i: int| 0 <= i < ms.len() ==> safe_rel_path((#[trigger] ms[i]).name)
}

/// The manifest the archive's entries carry, if they carry one that
/// decodes.
pub open spec fn spec_manifest_of(ms: Seq<ZipEntryModel>) -> Option<MRPackView> {
    let vs = views_of_models(ms);
    match manifest_entry_index(vs) {
        Some(k) => if vstd::utf8::valid_utf8(vs[k].data) {
            match json_parse(vstd::utf8::decode_utf8(vs[k].data)) {
                Some(d) => spec_decode_manifest(d),
                None => None,
            }
        } else {
            None
        },
        None => None,
    }
}

/// One manifest entry can be fetched: it lists a URL and its path stays
/// within the installation root.
pub open spec fn file_fetchable(f: crate::mrpack::ModpackFileView) -> bool {
    f.downloads.len() > 0 && safe_rel_path(f.path)
}

pub open spec fn all_files_fetchable(mv: MRPackView) -> bool {
    forall|i: int| 0 <= i < mv.files.len() ==> file_fetchable(#[trigger] mv.files[i])
}

/// When a whole install run can be planned: readable archive, safe entry
/// names, a decodable manifest, and every manifest entry fetchable.
pub open spec fn spec_install_ok(bytes: Seq<u8>) -> bool {
    &&& archive_readable(bytes)
    &&& (zip_parse(bytes) matches Some(ms) && entries_all_safe(ms) && (spec_manifest_of(ms) matches
    Some(mv) && all_files_fetchable(mv)))
}

/// Everything one install run will do, computed up front from the archive
/// bytes alone: the unpack plan, the decoded manifest, and one fetch plan
/// per manifest entry, in manifest order. Every entry is validated before
/// any network or filesystem work starts.
pub struct InstallPlan {
    pub actions: Vec<FsAction>,
    pub manifest: MRPack,
    pub fetches: Vec<FetchPlan>,
}

/// Plans a whole install run: reads the archive, plans its unpacking under
/// the instance directory, decodes the manifest, and plans every fetch.
/// Fails with the step tag of the first step that cannot be completed.
#[verifier::loop_isolation(false)]
pub fn plan_install(bytes: Vec<u8>, instance_dir: &str) -> (r: Result<InstallPlan, InstallError>)
    ensures
        r matches Ok(p) ==> (zip_parse(bytes@) matches Some(ms) && {
            let vs = views_of_models(ms);
            &&& forall|i: int| 0 <= i < ms.len() ==> (#[trigger] ms[i]).readable
            &&& forall|i: int| 0 <= i < ms.len() ==> safe_rel_path((#[trigger] ms[i]).name)
            &&& p.actions@.len() == ms.len()
            &&& forall|i: int|
                0 <= i < ms.len() ==> (#[trigger] p.actions@[i])@ == planned_action(
                    instance_dir@,
                    vs[i],
                )
            &&& manifest_entry_index(vs) matches Some(k) && vstd::utf8::valid_utf8(vs[k].data)
                && (json_parse(vstd::utf8::decode_utf8(vs[k].data)) matches Some(d)
                && spec_decode_manifest(d) == Some(p.manifest@))
            &&& p.fetches@.len() == p.manifest@.files.len()
            &&& forall|i: int|
                0 <= i < p.manifest@.files.len() ==> (#[trigger] p.manifest@.files[i]).downloads.len()
                    > 0 && safe_rel_path(p.manifest@.files[i].path)
            &&& forall|i: int|
                0 <= i < p.fetches@.len() ==> (#[trigger] p.fetches@[i])@.url
                    == p.manifest@.files[i].downloads[0] && p.fetches@[i]@.dest == joined_path(
                    instance_dir@,
                    p.manifest@.files[i].path,
                )
        }),
        r is Ok <==> spec_install_ok(bytes@),
        r matches Err(e) ==> ((e is Extract && !(archive_readable(bytes@) && (zip_parse(bytes@)
            matches Some(ms) && entries_all_safe(ms)))) || (e is Manifest && (zip_parse(bytes@)
            matches Some(ms) && spec_manifest_of(ms) is None)) || (e matches InstallError::Fetch(
            i,
            fe,
        ) && (zip_parse(bytes@) matches Some(ms) && (spec_manifest_of(ms) matches Some(mv) && 0 <= i
            < mv.files.len() && !file_fetchable(mv.files[i as int]) && (forall|j: int|
            0 <= j < i ==> file_fetchable(#[trigger] mv.files[j])))))),
{
    let ghost bv = bytes@;
    let entries = match read_archive(bytes) {
        Ok(es) => es,
        Err(e) => {
            return Err(InstallError::Extract(e));
        },
    };
    let actions = match unpack_actions(&entries, instance_dir) {
        Ok(a) => a,
        Err(e) => {
            proof {
                let ms = zip_parse(bv)->Some_0;
                let nm = e->PathTraversalRejected_0;
                let i = choose|i: int|
                    0 <= i < entries@.len() && (#[trigger] entries@[i])@.name == nm@
                        && !safe_rel_path(nm@);
                assert(ms[i].name == entries@[i]@.name);
                assert(!entries_all_safe(ms));
            }
            return Err(InstallError::Extract(e));
        },
    };
    let manifest = match manifest_from_entries(&entries) {
        Ok(m) => m,
        Err(e) => {
            proof {
                let ms = zip_parse(bv)->Some_0;
                assert(entry_views(entries@) =~= views_of_models(ms));
                assert(spec_manifest_of(ms) is None);
            }
            return Err(InstallError::Manifest(e));
        },
    };
    proof {
        let ms = zip_parse(bv)->Some_0;
        assert(entry_views(entries@) =~= views_of_models(ms));
        assert(spec_manifest_of(ms) == Some(manifest@));
    }
    let n = manifest.files.len();
    let mut fetches: Vec<FetchPlan> = Vec::new();
    let mut i: usize = 0;
    while i < n
        invariant
            i <= n,
            n == manifest@.files.len(),
            fetches@.len() == i,
            forall|j: int|
                0 <= j < i ==> (#[trigger] manifest@.files[j]).downloads.len() > 0 && safe_rel_path(
                    manifest@.files[j].path,
                ),
            forall|j: int|
                0 <= j < i ==> (#[trigger] fetches@[j])@.url == manifest@.files[j].downloads[0]
                    && fetches@[j]@.dest == joined_path(instance_dir@, manifest@.files[j].path),
        decreases n - i,
    {
        match plan_fetch(&manifest.files[i], instance_dir) {
            Ok(p) => {
                let ghost prev = fetches@;
                fetches.push(p);
                proof {
                    assert(manifest@.files[i as int] == manifest.files@[i as int]@);
                    assert forall|j: int|
                        0 <= j < i + 1 implies (#[trigger] fetches@[j])@.url
                        == manifest@.files[j].downloads[0] && fetches@[j]@.dest == joined_path(
                        instance_dir@,
                        manifest@.files[j].path,
                    ) by {
                        if j < i {
                            assert(fetches@[j] == prev[j]);
                        } else {
                            assert(fetches@[j] == fetches@.last());
                        }
                    }
                }
            },
            Err(e) => {
                proof {
                    assert(manifest@.files[i as int] == manifest.files@[i as int]@);
                    assert(!file_fetchable(manifest@.files[i as int]));
                }
                return Err(InstallError::Fetch(i, e));
            },
        }
        i = i + 1;
    }
    proof {
        let ms = zip_parse(bv)->Some_0;
        let vs = views_of_models(ms);
        assert(entry_views(entries@) =~= vs);
        assert forall|k: int| 0 <= k < ms.len() implies safe_rel_path((#[trigger] ms[k]).name) by {
            assert(safe_rel_path((#[trigger] entries@[k])@.name));
            assert(entry_views(entries@)[k] == vs[k]);
        }
        assert forall|k: int|
            0 <= k < ms.len() implies (#[trigger] actions@[k])@ == planned_action(
            instance_dir@,
            vs[k],
        ) by {
            assert(actions@[k]@ == planned_action(instance_dir@, (#[trigger] entries@[k])@));
            assert(entry_views(entries@)[k] == vs[k]);
        }
    }
    Ok(InstallPlan { actions: actions, manifest: manifest, fetches: fetches })
}

} // verus!
