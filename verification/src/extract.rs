use vstd::prelude::*;
use vstd::string::StrSliceExecFns;

use crate::errors::ExtractError;
use crate::errors::ManifestError;
use crate::manifest::read_manifest_str;
use crate::manifest::spec_decode_manifest;
use crate::mrpack::MRPack;
use crate::json::json_parse;
use crate::paths::is_path_sep;
use crate::paths::is_safe_rel_path;
use crate::paths::join_path;
use crate::paths::joined_path;
use crate::paths::safe_rel_path;
use crate::strutil::str_eq;

verus! {

/// Spec-level model of one archive entry: its declared name, its
/// decompressed content, and whether the content can be decompressed.
pub ghost struct ZipEntryModel {
    pub name: Seq<char>,
    pub data: Seq<u8>,
    pub readable: bool,
}

/// Declares std::io::Cursor, the in-memory reader the archive is opened
/// over; opaque here.
#[verifier::external_type_specification]
#[verifier::external_body]
#[verifier::reject_recursive_types(T)]
pub struct ExCursor<T>(std::io::Cursor<T>);

/// Declares zip::ZipArchive, the open archive handle; opaque here, its
/// entries modeled by `archive_contents`.
#[verifier::external_type_specification]
#[verifier::external_body]
#[verifier::reject_recursive_types(R)]
pub struct ExZipArchive<R>(zip::ZipArchive<R>);

/// The entry list the central directory of a zip byte image holds; `None`
/// when the image is not a readable archive.
pub uninterp spec fn zip_parse(bytes: Seq<u8>) -> Option<Seq<ZipEntryModel>>;

/// The entries an open archive holds.
pub uninterp spec fn archive_contents(a: zip::ZipArchive<std::io::Cursor<Vec<u8>>>) -> Seq<
    ZipEntryModel,
>;

/// Relies on zip::ZipArchive::new over an in-memory cursor: reading the
/// central directory is a function of the byte image alone, and fails
/// exactly on a malformed image.
#[verifier::external_body]
fn zip_open(bytes: Vec<u8>) -> (r: Option<zip::ZipArchive<std::io::Cursor<Vec<u8>>>>)
    ensures
        r is Some <==> zip_parse(bytes@) is Some,
        r matches Some(a) ==> (zip_parse(bytes@) matches Some(es) && archive_contents(a) == es),
{
    zip::ZipArchive::new(std::io::Cursor::new(bytes)).ok()
}

/// Relies on zip::ZipArchive::len: the number of entries in the archive.
#[verifier::external_body]
fn zip_len(a: &zip::ZipArchive<std::io::Cursor<Vec<u8>>>) -> (r: usize)
    ensures
        r == archive_contents(*a).len(),
{
    a.len()
}

/// Relies on zip::ZipArchive::by_index, zip::read::ZipFile::name and
/// std::io::Read::read_to_end: yields one entry's declared name and
/// decompressed content; over an in-memory cursor, whether an entry
/// decompresses is a function of the byte image alone.
#[verifier::external_body]
fn zip_read_entry(a: &mut zip::ZipArchive<std::io::Cursor<Vec<u8>>>, i: usize) -> (r: Option<
    (String, Vec<u8>),
>)
    requires
        i < archive_contents(*old(a)).len(),
    ensures
        archive_contents(*final(a)) == archive_contents(*old(a)),
        r is Some <==> archive_contents(*old(a))[i as int].readable,
        r matches Some(e) ==> e.0@ == archive_contents(*old(a))[i as int].name && e.1@
            == archive_contents(*old(a))[i as int].data,
{
    let mut f = match a.by_index(i) {
        Ok(f) => f,
        Err(_) => {
            return None;
        },
    };
    let name = f.name().to_string();
    let mut buf: Vec<u8> = Vec::new();
    match std::io::Read::read_to_end(&mut f, &mut buf) {
        Ok(_) => Some((name, buf)),
        Err(_) => None,
    }
}

/// Relies on String::from_utf8: succeeds exactly on valid UTF-8 and
/// decodes it.
#[verifier::external_body]
fn string_from_utf8(bytes: Vec<u8>) -> (r: Option<String>)
    ensures
        r is Some <==> vstd::utf8::valid_utf8(bytes@),
        r matches Some(s) ==> s@ == vstd::utf8::decode_utf8(bytes@),
{
    String::from_utf8(bytes).ok()
}

/// One entry of an archive, read into memory.
#[derive(Debug, Clone, PartialEq, Eq)]
pub struct ArchiveEntry {
    pub name: String,
    pub data: Vec<u8>,
}

pub ghost struct ArchiveEntryView {
    pub name: Seq<char>,
    pub data: Seq<u8>,
}

impl View for ArchiveEntry {
    type V = ArchiveEntryView;

    open spec fn view(&self) -> ArchiveEntryView {
        ArchiveEntryView { name: self.name@, data: self.data@ }
    }
}

/// Reads every entry of a zip byte image into memory, in central-directory
/// order, reproducing each entry's content exactly.
#[verifier::loop_isolation(false)]
pub fn read_archive(bytes: Vec<u8>) -> (r: Result<Vec<ArchiveEntry>, ExtractError>)
    ensures
        r matches Ok(es) ==> (zip_parse(bytes@) matches Some(ms) && es@.len() == ms.len() && (forall|
            i: int,
        |
            0 <= i < ms.len() ==> (#[trigger] ms[i]).readable) && (forall|i: int|
            0 <= i < ms.len() ==> (#[trigger] es@[i])@.name == ms[i].name && es@[i]@.data
                == ms[i].data)),
        r matches Err(e) ==> e == ExtractError::MalformedArchive && (zip_parse(bytes@) is None || (
        zip_parse(bytes@) matches Some(ms) && exists|i: int|
            0 <= i < ms.len() && !(#[trigger] ms[i]).readable)),
{
    let ghost bv = bytes@;
    let mut archive = match zip_open(bytes) {
        Some(a) => a,
        None => {
            return Err(ExtractError::MalformedArchive);
        },
    };
    let ghost ms = archive_contents(archive);
    let n = zip_len(&archive);
    let mut entries: Vec<ArchiveEntry> = Vec::new();
    let mut i: usize = 0;
    while i < n
        invariant
            i <= n,
            archive_contents(archive) == ms,
            zip_parse(bv) == Some(ms),
            n == ms.len(),
            entries@.len() == i,
            forall|j: int| 0 <= j < i ==> (#[trigger] ms[j]).readable,
            forall|j: int|
                0 <= j < i ==> (#[trigger] entries@[j])@.name == ms[j].name && entries@[j]@.data
                    == ms[j].data,
        decreases n - i,
    {
        match zip_read_entry(&mut archive, i) {
            Some(e) => {
                let ghost prev = entries@;
                entries.push(ArchiveEntry { name: e.0, data: e.1 });
                proof {
                    assert forall|j: int| 0 <= j < i + 1 implies (#[trigger] ms[j]).readable by {}
                    assert forall|j: int|
                        0 <= j < i + 1 implies (#[trigger] entries@[j])@.name == ms[j].name
                        && entries@[j]@.data == ms[j].data by {
                        if j < i {
                            assert(entries@[j] == prev[j]);
                        } else {
                            assert(entries@[j] == entries@.last());
                        }
                    }
                }
            },
            None => {
                proof {
                    assert(!ms[i as int].readable);
                }
                return Err(ExtractError::MalformedArchive);
            },
        }
        i = i + 1;
    }
    Ok(entries)
}

/// One filesystem step of an unpack plan, with the full output path.
#[derive(Debug, Clone, PartialEq, Eq)]
pub enum FsAction {
    /// Create this directory and its missing ancestors; idempotent.
    MkDir(String),
    /// Create or truncate this file, creating missing ancestors of it, and
    /// write the given bytes.
    WriteFile(String, Vec<u8>),
}

pub ghost enum FsActionView {
    MkDir(Seq<char>),
    WriteFile(Seq<char>, Seq<u8>),
}

impl View for FsAction {
    type V = FsActionView;

    open spec fn view(&self) -> FsActionView {
        match self {
            FsAction::MkDir(p) => FsActionView::MkDir(p@),
            FsAction::WriteFile(p, d) => FsActionView::WriteFile(p@, d@),
        }
    }
}

/// The full output path an action touches.
pub open spec fn action_path(a: FsActionView) -> Seq<char> {
    match a {
        FsActionView::MkDir(p) => p,
        FsActionView::WriteFile(p, d) => p,
    }
}

pub open spec fn action_views(acts: Seq<FsAction>) -> Seq<FsActionView> {
    acts.map_values(|a: FsAction| a@)
}

/// How many actions of a plan write a file; directory actions do not
/// count.
pub open spec fn spec_write_count(acts: Seq<FsActionView>) -> int
    decreases acts.len(),
{
    if acts.len() == 0 {
        0
    } else {
        spec_write_count(acts.drop_last()) + if acts.last() is WriteFile {
            1int
        } else {
            0int
        }
    }
}

/// Counts the file-writing actions of a plan: the number of files one
/// extraction materializes.
pub fn write_count(acts: &Vec<FsAction>) -> (r: usize)
    ensures
        r == spec_write_count(action_views(acts@)),
{
    let n = acts.len();
    let mut count: usize = 0;
    let mut i: usize = 0;
    while i < n
        invariant
            i <= n,
            n == acts@.len(),
            count <= i,
            count == spec_write_count(action_views(acts@).subrange(0, i as int)),
        decreases n - i,
    {
        let is_write = match &acts[i] {
            FsAction::WriteFile(_, _) => true,
            FsAction::MkDir(_) => false,
        };
        if is_write {
            count = count + 1;
        }
        proof {
            let vs = action_views(acts@);
            assert(vs.subrange(0, i + 1).drop_last() =~= vs.subrange(0, i as int));
            assert(vs.subrange(0, i + 1).last() == vs[i as int]);
        }
        i = i + 1;
    }
    proof {
        assert(action_views(acts@).subrange(0, n as int) =~= action_views(acts@));
    }
    count
}

/// An archive entry whose name ends in a separator denotes a directory.
pub open spec fn is_dir_name(name: Seq<char>) -> bool {
    name.len() > 0 && is_path_sep(name[name.len() - 1])
}

/// The one action planned for an entry: create the directory, or write the
/// entry's exact bytes at the joined path.
pub open spec fn planned_action(root: Seq<char>, e: ArchiveEntryView) -> FsActionView {
    if is_dir_name(e.name) {
        FsActionView::MkDir(joined_path(root, e.name))
    } else {
        FsActionView::WriteFile(joined_path(root, e.name), e.data)
    }
}

fn is_dir_entry_name(name: &str) -> (r: bool)
    ensures
        r == is_dir_name(name@),
{
    let n = name.unicode_len();
    if n == 0 {
        return false;
    }
    let c = name.get_char(n - 1);
    c == '/' || c == '\\'
}

fn clone_bytes(v: &Vec<u8>) -> (r: Vec<u8>)
    ensures
        r@ == v@,
{
    let mut out: Vec<u8> = Vec::new();
    let n = v.len();
    for i in 0..n
        invariant
            n == v@.len(),
            out@ =~= v@.subrange(0, i as int),
    {
        out.push(v[i]);
        proof {
            assert(out@ =~= v@.subrange(0, i + 1));
        }
    }
    proof {
        assert(v@.subrange(0, n as int) =~= v@);
    }
    out
}

/// Plans the unpacking of archive entries under an output root: every
/// entry name is checked against traversal and absolute paths before any
/// path is formed; on success the plan holds one action per entry, in
/// order, carrying the entry's exact bytes.
pub fn unpack_actions(entries: &Vec<ArchiveEntry>, output_dir: &str) -> (r: Result<
    Vec<FsAction>,
    ExtractError,
>)
    ensures
        r matches Ok(acts) ==> (forall|i: int|
            0 <= i < entries@.len() ==> safe_rel_path((#[trigger] entries@[i])@.name)) && acts@.len()
            == entries@.len() && (forall|i: int|
            0 <= i < acts@.len() ==> (#[trigger] acts@[i])@ == planned_action(
                output_dir@,
                entries@[i]@,
            )),
        r matches Err(e) ==> (e matches ExtractError::PathTraversalRejected(nm) && exists|i: int|
            0 <= i < entries@.len() && (#[trigger] entries@[i])@.name == nm@ && !safe_rel_path(
                nm@,
            )),
{
    let n = entries.len();
    let mut acts: Vec<FsAction> = Vec::new();
    for i in 0..n
        invariant
            n == entries@.len(),
            acts@.len() == i,
            forall|j: int| 0 <= j < i ==> safe_rel_path((#[trigger] entries@[j])@.name),
            forall|j: int|
                0 <= j < i ==> (#[trigger] acts@[j])@ == planned_action(
                    output_dir@,
                    entries@[j]@,
                ),
    {
        let name = &entries[i].name;
        if !is_safe_rel_path(name.as_str()) {
            return Err(ExtractError::PathTraversalRejected(name.clone()));
        }
        let dest = join_path(output_dir, name.as_str());
        if is_dir_entry_name(name.as_str()) {
            acts.push(FsAction::MkDir(dest));
        } else {
            acts.push(FsAction::WriteFile(dest, clone_bytes(&entries[i].data)));
        }
    }
    Ok(acts)
}

/// A path lies within a root when it is the root, one separator, and a
/// safe relative remainder: no action formed from a safe entry name can
/// name anything outside the root.
pub open spec fn within_root(root: Seq<char>, p: Seq<char>) -> bool {
    &&& p.len() > root.len() + 1
    &&& p.subrange(0, root.len() as int) == root
    &&& p[root.len() as int] == '/'
    &&& safe_rel_path(p.subrange(root.len() as int + 1, p.len() as int))
}

proof fn lemma_join_within_root(root: Seq<char>, rel: Seq<char>)
    requires
        safe_rel_path(rel),
    ensures
        within_root(root, joined_path(root, rel)),
{
    let p = joined_path(root, rel);
    assert(p.subrange(0, root.len() as int) =~= root);
    assert(p.subrange(root.len() as int + 1, p.len() as int) =~= rel);
}

/// No planned action can touch anything outside the output root: every
/// action of a plan formed from safe entry names, as a successful
/// `unpack_actions` call guarantees, names a path within the root.
pub proof fn lemma_plan_within_root(
    root: Seq<char>,
    entries: Seq<ArchiveEntryView>,
    acts: Seq<FsActionView>,
)
    requires
        acts.len() == entries.len(),
        forall|i: int| 0 <= i < entries.len() ==> safe_rel_path((#[trigger] entries[i]).name),
        forall|i: int| 0 <= i < acts.len() ==> (#[trigger] acts[i]) == planned_action(
            root,
            entries[i],
        ),
    ensures
        forall|i: int| 0 <= i < acts.len() ==> within_root(root, action_path(#[trigger] acts[i])),
{
    assert forall|i: int| 0 <= i < acts.len() implies within_root(
        root,
        action_path(#[trigger] acts[i]),
    ) by {
        lemma_join_within_root(root, entries[i].name);
    }
}

/// A file tree, modeled as the mapping from full paths to file contents;
/// directories are left implicit, and creating one changes no file.
pub open spec fn apply_action(fs: Map<Seq<char>, Seq<u8>>, a: FsActionView) -> Map<
    Seq<char>,
    Seq<u8>,
> {
    match a {
        FsActionView::MkDir(_) => fs,
        FsActionView::WriteFile(p, d) => fs.insert(p, d),
    }
}

/// The file tree after a plan runs, action by action.
pub open spec fn apply_plan(fs: Map<Seq<char>, Seq<u8>>, plan: Seq<FsActionView>) -> Map<
    Seq<char>,
    Seq<u8>,
>
    decreases plan.len(),
{
    if plan.len() == 0 {
        fs
    } else {
        apply_action(apply_plan(fs, plan.drop_last()), plan.last())
    }
}

/// Whether some action of the plan writes the file at `k`.
pub open spec fn plan_writes(plan: Seq<FsActionView>, k: Seq<char>) -> bool
    decreases plan.len(),
{
    if plan.len() == 0 {
        false
    } else {
        (plan.last() matches FsActionView::WriteFile(p, _) && p == k) || plan_writes(
            plan.drop_last(),
            k,
        )
    }
}

/// The content the plan's last write leaves at `k`.
pub open spec fn last_write(plan: Seq<FsActionView>, k: Seq<char>) -> Seq<u8>
    recommends
        plan_writes(plan, k),
    decreases plan.len(),
{
    if plan.len() == 0 {
        Seq::empty()
    } else {
        match plan.last() {
            FsActionView::WriteFile(p, d) => if p == k {
                d
            } else {
                last_write(plan.drop_last(), k)
            },
            FsActionView::MkDir(_) => last_write(plan.drop_last(), k),
        }
    }
}

proof fn lemma_apply_plan_at(fs: Map<Seq<char>, Seq<u8>>, plan: Seq<FsActionView>, k: Seq<char>)
    ensures
        apply_plan(fs, plan).dom().contains(k) <==> (fs.dom().contains(k) || plan_writes(plan, k)),
        plan_writes(plan, k) ==> apply_plan(fs, plan)[k] == last_write(plan, k),
        (!plan_writes(plan, k) && fs.dom().contains(k)) ==> apply_plan(fs, plan)[k] == fs[k],
    decreases plan.len(),
{
    if plan.len() > 0 {
        lemma_apply_plan_at(fs, plan.drop_last(), k);
    }
}

/// Extraction reproduces content: after a plan runs, the path of any write
/// that no later write shadows holds exactly the bytes that write carried.
/// With the plan a successful `unpack_actions` call returns, those are the
/// entry's own decompressed bytes at its name joined under the root.
pub proof fn lemma_plan_reproduces_bytes(
    fs: Map<Seq<char>, Seq<u8>>,
    plan: Seq<FsActionView>,
    i: int,
)
    requires
        0 <= i < plan.len(),
        plan[i] is WriteFile,
        forall|j: int|
            i < j < plan.len() ==> !((#[trigger] plan[j]) is WriteFile && action_path(plan[j])
                == action_path(plan[i])),
    ensures
        apply_plan(fs, plan).dom().contains(action_path(plan[i])),
        apply_plan(fs, plan)[action_path(plan[i])] == plan[i]->WriteFile_1,
    decreases plan.len(),
{
    if i < plan.len() - 1 {
        assert(plan.drop_last()[i] == plan[i]);
        assert forall|j: int|
            i < j < plan.drop_last().len() implies !((#[trigger] plan.drop_last()[j]) is WriteFile
            && action_path(plan.drop_last()[j]) == action_path(plan.drop_last()[i])) by {
            assert(plan.drop_last()[j] == plan[j]);
        }
        lemma_plan_reproduces_bytes(fs, plan.drop_last(), i);
        assert(!(plan.last() is WriteFile && action_path(plan.last()) == action_path(plan[i])));
    }
}

/// Unpacking is idempotent on the file tree: running one plan twice leaves
/// exactly the tree that running it once leaves, so re-extracting the same
/// archive into the same directory yields identical file contents.
pub proof fn lemma_apply_plan_idempotent(fs: Map<Seq<char>, Seq<u8>>, plan: Seq<FsActionView>)
    ensures
        apply_plan(apply_plan(fs, plan), plan) == apply_plan(fs, plan),
{
    let g = apply_plan(fs, plan);
    let h = apply_plan(g, plan);
    assert forall|k: Seq<char>| #[trigger] h.dom().contains(k) implies g.dom().contains(k) && h[k]
        == g[k] by {
        lemma_apply_plan_at(fs, plan, k);
        lemma_apply_plan_at(g, plan, k);
    }
    assert forall|k: Seq<char>| #[trigger] g.dom().contains(k) implies h.dom().contains(k) by {
        lemma_apply_plan_at(fs, plan, k);
        lemma_apply_plan_at(g, plan, k);
    }
    assert(h =~= g);
}

/// The fixed root-relative name of the manifest file in a modpack archive.
pub fn manifest_file_name() -> (r: &'static str)
    ensures
        r@ == "modrinth.index.json"@,
{
    "modrinth.index.json"
}

/// The index of the first entry carrying the fixed manifest name, if any:
/// that entry decides what the manifest is.
pub open spec fn manifest_entry_index(entries: Seq<ArchiveEntryView>) -> Option<int>
    decreases entries.len(),
{
    if entries.len() == 0 {
        None
    } else if entries[0].name == "modrinth.index.json"@ {
        Some(0)
    } else {
        match manifest_entry_index(entries.subrange(1, entries.len() as int)) {
            Some(i) => Some(i + 1),
            None => None,
        }
    }
}

proof fn lemma_manifest_index_skip(entries: Seq<ArchiveEntryView>, i: int)
    requires
        0 <= i <= entries.len(),
        forall|j: int| 0 <= j < i ==> (#[trigger] entries[j]).name != "modrinth.index.json"@,
    ensures
        manifest_entry_index(entries) == (match manifest_entry_index(
            entries.subrange(i, entries.len() as int),
        ) {
            Some(k) => Some(k + i),
            None => None,
        }),
    decreases i,
{
    if i > 0 {
        let tail = entries.subrange(1, entries.len() as int);
        lemma_manifest_index_skip(tail, i - 1);
        assert(tail.subrange(i - 1, tail.len() as int) =~= entries.subrange(
            i,
            entries.len() as int,
        ));
    } else {
        assert(entries.subrange(0, entries.len() as int) =~= entries);
    }
}

pub open spec fn entry_views(entries: Seq<ArchiveEntry>) -> Seq<ArchiveEntryView> {
    entries.map_values(|e: ArchiveEntry| e@)
}

/// Reads the manifest out of extracted archive entries: no entry with the
/// fixed manifest name means `NotFound`; manifest bytes that are not UTF-8
/// text or do not decode as a manifest mean `Malformed`.
pub fn manifest_from_entries(entries: &Vec<ArchiveEntry>) -> (r: Result<MRPack, ManifestError>)
    ensures
        manifest_entry_index(entry_views(entries@)) is None ==> r == Err::<
            MRPack,
            ManifestError,
        >(ManifestError::NotFound),
        r matches Ok(p) ==> (manifest_entry_index(entry_views(entries@)) matches Some(i)
            && vstd::utf8::valid_utf8(entry_views(entries@)[i].data) && (json_parse(
            vstd::utf8::decode_utf8(entry_views(entries@)[i].data),
        ) matches Some(d) && spec_decode_manifest(d) == Some(p@))),
        manifest_entry_index(entry_views(entries@)) matches Some(i) ==> (r is Err ==> (r == Err::<
            MRPack,
            ManifestError,
        >(ManifestError::Malformed) && (!vstd::utf8::valid_utf8(entry_views(entries@)[i].data)
            || json_parse(vstd::utf8::decode_utf8(entry_views(entries@)[i].data)) is None
            || spec_decode_manifest(
            json_parse(vstd::utf8::decode_utf8(entry_views(entries@)[i].data))->Some_0,
        ) is None))),
{
    let n = entries.len();
    for i in 0..n
        invariant
            n == entries@.len(),
            forall|j: int|
                0 <= j < i ==> (#[trigger] entry_views(entries@)[j]).name
                    != "modrinth.index.json"@,
    {
        if str_eq(entries[i].name.as_str(), manifest_file_name()) {
            proof {
                let vs = entry_views(entries@);
                assert(vs[i as int].name == "modrinth.index.json"@);
                lemma_manifest_index_skip(vs, i as int);
                assert(vs.subrange(i as int, vs.len() as int)[0] == vs[i as int]);
                assert(manifest_entry_index(vs) == Some(i as int));
            }
            let text = match string_from_utf8(clone_bytes(&entries[i].data)) {
                Some(t) => t,
                None => {
                    return Err(ManifestError::Malformed);
                },
            };
            return read_manifest_str(text.as_str());
        }
    }
    proof {
        let vs = entry_views(entries@);
        lemma_manifest_index_skip(vs, n as int);
        assert(vs.subrange(n as int, vs.len() as int).len() == 0);
    }
    Err(ManifestError::NotFound)
}

} // verus!
