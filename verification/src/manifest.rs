use vstd::prelude::*;
use vstd::string::StringExecFns;

use crate::errors::ManifestError;
use crate::json::JsonData;
use crate::json::json_as_array;
use crate::json::json_as_str;
use crate::json::json_as_u64;
use crate::json::json_from_str;
use crate::json::json_get;
use crate::json::json_is_null;
use crate::json::json_object_keys;
use crate::json::json_parse;
use crate::json::json_of_array;
use crate::json::json_of_object;
use crate::json::json_of_string;
use crate::json::json_of_u64;
use crate::json::obj_map_of_pairs;
use crate::json::pairs_view;
use crate::json::json_model;
use crate::json::models_of;
use crate::json::obj_map;
use crate::mrpack::DependencyID;
use crate::mrpack::Env;
use crate::mrpack::EnvTypes;
use crate::mrpack::FileHashes;
use crate::mrpack::FileHashesView;
use crate::mrpack::MRPack;
use crate::mrpack::MRPackView;
use crate::mrpack::ModpackFile;
use crate::mrpack::ModpackFileView;
use crate::mrpack::SUPPORTED_FORMAT_VERSION;
use crate::mrpack::dep_id_of_key;
use crate::mrpack::deps_map;
use crate::mrpack::deps_pairs_view;
use crate::mrpack::files_view;
use crate::mrpack::string_pairs_map;
use crate::mrpack::string_pairs_view;
use crate::strutil::str_eq;

verus! {

// ---------------------------------------------------------------------
// What each fragment of manifest JSON decodes to, if anything. These spec
// functions are the authoritative statement of the manifest format; the
// executable decoders below are proved to return exactly what they say.
// ---------------------------------------------------------------------

/// An environment requirement is one of three fixed strings.
pub open spec fn spec_decode_env_req(d: JsonData) -> Option<EnvTypes> {
    if d == JsonData::Str("required"@) {
        Some(EnvTypes::Required)
    } else if d == JsonData::Str("optional"@) {
        Some(EnvTypes::Optional)
    } else if d == JsonData::Str("unsupported"@) {
        Some(EnvTypes::Unsupported)
    } else {
        None
    }
}

/// An `env` object needs `client` and `server` requirements; other keys are
/// ignored.
pub open spec fn spec_decode_env(d: JsonData) -> Option<Env> {
    if d is Obj {
        let m = obj_map(d);
        if m.dom().contains("client"@) && m.dom().contains("server"@) {
            match (spec_decode_env_req(m["client"@]), spec_decode_env_req(m["server"@])) {
                (Some(c), Some(s)) => Some(Env { client: c, server: s }),
                _ => None,
            }
        } else {
            None
        }
    } else {
        None
    }
}

pub open spec fn all_values_strings(m: Map<Seq<char>, JsonData>) -> bool {
    forall|k: Seq<char>| #[trigger] m.dom().contains(k) ==> m[k] is Str
}

pub open spec fn str_map_of(m: Map<Seq<char>, JsonData>) -> Map<Seq<char>, Seq<char>> {
    Map::new(|k: Seq<char>| m.dom().contains(k), |k: Seq<char>| m[k]->Str_0)
}

/// An object whose values are all strings, read as a string-to-string map.
pub open spec fn spec_decode_string_map(d: JsonData) -> Option<Map<Seq<char>, Seq<char>>> {
    if d is Obj && all_values_strings(obj_map(d)) {
        Some(str_map_of(obj_map(d)))
    } else {
        None
    }
}

/// An optional field: an absent key and an explicit `null` both mean "not
/// given".
pub open spec fn opt_field(m: Map<Seq<char>, JsonData>, key: Seq<char>) -> Option<JsonData> {
    if m.dom().contains(key) && !(m[key] is Null) {
        Some(m[key])
    } else {
        None
    }
}

/// A `hashes` object needs string `sha1` and `sha512` digests and may carry
/// further digests under `other_hashes`.
pub open spec fn spec_decode_hashes(d: JsonData) -> Option<FileHashesView> {
    if d is Obj {
        let m = obj_map(d);
        if m.dom().contains("sha1"@) && m["sha1"@] is Str && m.dom().contains("sha512"@)
            && m["sha512"@] is Str {
            match opt_field(m, "other_hashes"@) {
                None => Some(
                    FileHashesView {
                        sha1: m["sha1"@]->Str_0,
                        sha512: m["sha512"@]->Str_0,
                        other_hashes: None,
                    },
                ),
                Some(oh) => match spec_decode_string_map(oh) {
                    Some(om) => Some(
                        FileHashesView {
                            sha1: m["sha1"@]->Str_0,
                            sha512: m["sha512"@]->Str_0,
                            other_hashes: Some(om),
                        },
                    ),
                    None => None,
                },
            }
        } else {
            None
        }
    } else {
        None
    }
}

/// An array of strings, in order.
pub open spec fn spec_decode_strings(s: Seq<JsonData>) -> Option<Seq<Seq<char>>>
    decreases s.len(),
{
    if s.len() == 0 {
        Some(Seq::empty())
    } else if s.last() is Str {
        match spec_decode_strings(s.drop_last()) {
            Some(r) => Some(r.push(s.last()->Str_0)),
            None => None,
        }
    } else {
        None
    }
}

/// One manifest file entry. `path`, `hashes`, `downloads` and `fileSize`
/// are required; `env` is optional; unknown keys are ignored. `downloads`
/// may be empty here: the fetcher, not the decoder, rejects that.
pub open spec fn spec_decode_file(d: JsonData) -> Option<ModpackFileView> {
    if d is Obj {
        let m = obj_map(d);
        if m.dom().contains("path"@) && m["path"@] is Str && m.dom().contains("hashes"@)
            && m.dom().contains("downloads"@) && m["downloads"@] is Arr && m.dom().contains(
            "fileSize"@,
        ) && m["fileSize"@] is UInt && m["fileSize"@]->UInt_0 <= u32::MAX {
            let ev: Option<Option<Env>> = match opt_field(m, "env"@) {
                None => Some(None),
                Some(e) => match spec_decode_env(e) {
                    Some(env) => Some(Some(env)),
                    None => None,
                },
            };
            match (spec_decode_hashes(m["hashes"@]), spec_decode_strings(m["downloads"@]->Arr_0), ev) {
                (Some(h), Some(ds), Some(env)) => Some(
                    ModpackFileView {
                        path: m["path"@]->Str_0,
                        hashes: h,
                        env: env,
                        downloads: ds,
                        file_size: m["fileSize"@]->UInt_0 as u32,
                    },
                ),
                _ => None,
            }
        } else {
            None
        }
    } else {
        None
    }
}

/// The `files` array, every entry decoded in order.
pub open spec fn spec_decode_files(s: Seq<JsonData>) -> Option<Seq<ModpackFileView>>
    decreases s.len(),
{
    if s.len() == 0 {
        Some(Seq::empty())
    } else {
        match (spec_decode_files(s.drop_last()), spec_decode_file(s.last())) {
            (Some(fs), Some(f)) => Some(fs.push(f)),
            _ => None,
        }
    }
}

pub open spec fn known_dep_keys(m: Map<Seq<char>, JsonData>) -> bool {
    forall|k: Seq<char>| #[trigger] m.dom().contains(k) ==> dep_id_of_key(k) is Some
}

/// The version string given for a dependency kind: its canonical key wins
/// over its shorthand.
pub open spec fn dep_lookup(m: Map<Seq<char>, JsonData>, id: DependencyID) -> Option<JsonData> {
    if m.dom().contains(id.spec_key()) {
        Some(m[id.spec_key()])
    } else {
        match id.spec_alias() {
            Some(a) => if m.dom().contains(a) {
                Some(m[a])
            } else {
                None
            },
            None => None,
        }
    }
}

pub open spec fn deps_of_obj(m: Map<Seq<char>, JsonData>) -> Map<DependencyID, Seq<char>> {
    Map::new(
        |id: DependencyID| dep_lookup(m, id) is Some,
        |id: DependencyID| dep_lookup(m, id)->Some_0->Str_0,
    )
}

/// The `dependencies` object: every key must be a recognized dependency
/// name and every value a string; an unrecognized key fails the whole
/// manifest.
pub open spec fn spec_decode_deps(d: JsonData) -> Option<Map<DependencyID, Seq<char>>> {
    if d is Obj && known_dep_keys(obj_map(d)) && all_values_strings(obj_map(d)) {
        Some(deps_of_obj(obj_map(d)))
    } else {
        None
    }
}

/// A whole manifest: a supported `formatVersion`, string `game`, `name`
/// and `versionId`, optional string `summary`, a `dependencies` object and
/// a `files` array. Unknown keys are ignored.
pub open spec fn spec_decode_manifest(d: JsonData) -> Option<MRPackView> {
    if d is Obj {
        let m = obj_map(d);
        if m.dom().contains("formatVersion"@) && m["formatVersion"@] == JsonData::UInt(
            SUPPORTED_FORMAT_VERSION as u64,
        ) && m.dom().contains("game"@) && m["game"@] is Str && m.dom().contains("name"@)
            && m["name"@] is Str && m.dom().contains("versionId"@) && m["versionId"@] is Str
            && m.dom().contains("dependencies"@) && m.dom().contains("files"@)
            && m["files"@] is Arr {
            let sv: Option<Option<Seq<char>>> = match opt_field(m, "summary"@) {
                None => Some(None),
                Some(s) => if s is Str {
                    Some(Some(s->Str_0))
                } else {
                    None
                },
            };
            match (spec_decode_deps(m["dependencies"@]), spec_decode_files(m["files"@]->Arr_0), sv) {
                (Some(deps), Some(files), Some(summary)) => Some(
                    MRPackView {
                        dependencies: deps,
                        files: files,
                        format_version: SUPPORTED_FORMAT_VERSION,
                        game: m["game"@]->Str_0,
                        name: m["name"@]->Str_0,
                        version_id: m["versionId"@]->Str_0,
                        summary: summary,
                    },
                ),
                _ => None,
            }
        } else {
            None
        }
    } else {
        None
    }
}

// ---------------------------------------------------------------------
// Executable decoders, each exact against its spec function.
// ---------------------------------------------------------------------

/// Decodes one environment requirement string.
pub fn decode_env_req(v: &serde_json::Value) -> (r: Result<EnvTypes, ManifestError>)
    ensures
        r matches Ok(e) ==> spec_decode_env_req(json_model(*v)) == Some(e),
        r matches Err(e) ==> spec_decode_env_req(json_model(*v)) is None && e
            == ManifestError::Malformed,
{
    match json_as_str(v) {
        None => Err(ManifestError::Malformed),
        Some(s) => {
            if str_eq(s, "required") {
                Ok(EnvTypes::Required)
            } else if str_eq(s, "optional") {
                Ok(EnvTypes::Optional)
            } else if str_eq(s, "unsupported") {
                Ok(EnvTypes::Unsupported)
            } else {
                Err(ManifestError::Malformed)
            }
        },
    }
}

/// Decodes an `env` object.
pub fn decode_env(v: &serde_json::Value) -> (r: Result<Env, ManifestError>)
    ensures
        r matches Ok(e) ==> spec_decode_env(json_model(*v)) == Some(e),
        r matches Err(e) ==> spec_decode_env(json_model(*v)) is None && e
            == ManifestError::Malformed,
{
    let cv = match json_get(v, "client") {
        Some(x) => x,
        None => {
            return Err(ManifestError::Malformed);
        },
    };
    let sv = match json_get(v, "server") {
        Some(x) => x,
        None => {
            return Err(ManifestError::Malformed);
        },
    };
    match (decode_env_req(cv), decode_env_req(sv)) {
        (Ok(c), Ok(s)) => Ok(Env { client: c, server: s }),
        _ => Err(ManifestError::Malformed),
    }
}

proof fn lemma_string_pairs_push(s: Seq<(String, String)>, k: String, v: String)
    ensures
        string_pairs_map(string_pairs_view(s.push((k, v)))) == string_pairs_map(
            string_pairs_view(s),
        ).insert(k@, v@),
{
    assert(string_pairs_view(s.push((k, v))) =~= string_pairs_view(s).push((k@, v@)));
    assert(string_pairs_view(s).push((k@, v@)).drop_last() =~= string_pairs_view(s));
}

/// Decodes an object of string values into key/value pairs, in the order
/// the object yields its keys.
pub fn decode_string_map(v: &serde_json::Value) -> (r: Result<Vec<(String, String)>, ManifestError>)
    ensures
        r matches Ok(pairs) ==> spec_decode_string_map(json_model(*v)) == Some(
            string_pairs_map(string_pairs_view(pairs@)),
        ),
        r matches Err(e) ==> spec_decode_string_map(json_model(*v)) is None && e
            == ManifestError::Malformed,
{
    let ks = match json_object_keys(v) {
        Some(ks) => ks,
        None => {
            return Err(ManifestError::Malformed);
        },
    };
    let ghost m = obj_map(json_model(*v));
    let mut out: Vec<(String, String)> = Vec::new();
    let n = ks.len();
    for i in 0..n
        invariant
            n == ks@.len(),
            json_model(*v) is Obj,
            m == obj_map(json_model(*v)),
            forall|j: int| 0 <= j < ks@.len() ==> m.dom().contains(#[trigger] ks@[j]@),
            forall|k: Seq<char>| #[trigger] m.dom().contains(k) ==> exists|j: int|
                0 <= j < ks@.len() && ks@[j]@ == k,
            forall|j: int| 0 <= j < i ==> m[#[trigger] ks@[j]@] is Str,
            forall|k: Seq<char>|
                #[trigger] string_pairs_map(string_pairs_view(out@)).dom().contains(k) ==> (
                m.dom().contains(k) && m[k] is Str && string_pairs_map(string_pairs_view(out@))[k]
                    == m[k]->Str_0),
            forall|j: int|
                0 <= j < i ==> string_pairs_map(string_pairs_view(out@)).dom().contains(
                    #[trigger] ks@[j]@,
                ),
    {
        let key = &ks[i];
        let val = match json_get(v, key.as_str()) {
            Some(x) => x,
            None => {
                proof {
                    assert(false);
                }
                return Err(ManifestError::Malformed);
            },
        };
        let sval = match json_as_str(val) {
            Some(s) => s,
            None => {
                return Err(ManifestError::Malformed);
            },
        };
        let ghost prev = out@;
        out.push((key.clone(), sval.to_owned()));
        proof {
            lemma_string_pairs_push(prev, out@.last().0, out@.last().1);
            assert(out@.drop_last() =~= prev);
        }
    }
    proof {
        assert forall|k: Seq<char>| #[trigger] m.dom().contains(k) implies m[k] is Str by {
            let j = choose|j: int| 0 <= j < ks@.len() && ks@[j]@ == k;
            assert(m[ks@[j]@] is Str);
        }
        assert forall|k: Seq<char>| #[trigger] str_map_of(m).dom().contains(k) implies
        string_pairs_map(string_pairs_view(out@)).dom().contains(k) && string_pairs_map(
            string_pairs_view(out@),
        )[k] == str_map_of(m)[k] by {
            let j = choose|j: int| 0 <= j < ks@.len() && ks@[j]@ == k;
            assert(string_pairs_map(string_pairs_view(out@)).dom().contains(ks@[j]@));
        }
        assert(string_pairs_map(string_pairs_view(out@)) =~= str_map_of(m));
    }
    Ok(out)
}

/// Fetches a required string field of an object.
fn get_str_field(v: &serde_json::Value, key: &str) -> (r: Option<String>)
    ensures
        r is Some <==> (json_model(*v) is Obj && obj_map(json_model(*v)).dom().contains(key@)
            && obj_map(json_model(*v))[key@] is Str),
        r matches Some(s) ==> obj_map(json_model(*v))[key@] == JsonData::Str(s@),
{
    match json_get(v, key) {
        Some(x) => match json_as_str(x) {
            Some(s) => Some(s.to_owned()),
            None => None,
        },
        None => None,
    }
}

/// Decodes a `hashes` object.
pub fn decode_hashes(v: &serde_json::Value) -> (r: Result<FileHashes, ManifestError>)
    ensures
        r matches Ok(h) ==> spec_decode_hashes(json_model(*v)) == Some(h@),
        r matches Err(e) ==> spec_decode_hashes(json_model(*v)) is None && e
            == ManifestError::Malformed,
{
    let sha1 = match get_str_field(v, "sha1") {
        Some(s) => s,
        None => {
            return Err(ManifestError::Malformed);
        },
    };
    let sha512 = match get_str_field(v, "sha512") {
        Some(s) => s,
        None => {
            return Err(ManifestError::Malformed);
        },
    };
    let other_hashes = match json_get(v, "other_hashes") {
        None => None,
        Some(x) => {
            if json_is_null(x) {
                None
            } else {
                match decode_string_map(x) {
                    Ok(pairs) => Some(pairs),
                    Err(e) => {
                        return Err(e);
                    },
                }
            }
        },
    };
    Ok(FileHashes { sha1: sha1, sha512: sha512, other_hashes: other_hashes })
}

proof fn lemma_decode_strings_elem_none(s: Seq<JsonData>, i: int)
    requires
        0 <= i < s.len(),
        !(s[i] is Str),
    ensures
        spec_decode_strings(s) is None,
    decreases s.len(),
{
    if i < s.len() - 1 {
        assert(s.drop_last()[i] == s[i]);
        lemma_decode_strings_elem_none(s.drop_last(), i);
    }
}

/// Decodes an array of strings, in order.
pub fn decode_strings(arr: &Vec<serde_json::Value>) -> (r: Result<Vec<String>, ManifestError>)
    ensures
        r matches Ok(us) ==> spec_decode_strings(models_of(arr@)) == Some(us.deep_view()),
        r matches Err(e) ==> spec_decode_strings(models_of(arr@)) is None && e
            == ManifestError::Malformed,
{
    let n = arr.len();
    let mut urls: Vec<String> = Vec::new();
    for i in 0..n
        invariant
            n == arr@.len(),
            spec_decode_strings(models_of(arr@).subrange(0, i as int)) == Some(urls.deep_view()),
    {
        match json_as_str(&arr[i]) {
            Some(s) => {
                let ghost prev = urls.deep_view();
                urls.push(s.to_owned());
                proof {
                    let ms = models_of(arr@);
                    assert(ms[i as int] == json_model(arr@[i as int]));
                    assert(ms.subrange(0, i + 1).drop_last() =~= ms.subrange(0, i as int));
                    assert(ms.subrange(0, i + 1).last() == ms[i as int]);
                    assert(urls.deep_view() =~= prev.push(s@));
                }
            },
            None => {
                proof {
                    let ms = models_of(arr@);
                    assert(ms[i as int] == json_model(arr@[i as int]));
                    lemma_decode_strings_elem_none(ms, i as int);
                }
                return Err(ManifestError::Malformed);
            },
        }
    }
    proof {
        assert(models_of(arr@).subrange(0, n as int) =~= models_of(arr@));
    }
    Ok(urls)
}

/// Decodes one manifest file entry.
pub fn decode_file(v: &serde_json::Value) -> (r: Result<ModpackFile, ManifestError>)
    ensures
        r matches Ok(f) ==> spec_decode_file(json_model(*v)) == Some(f@),
        r matches Err(e) ==> spec_decode_file(json_model(*v)) is None && e
            == ManifestError::Malformed,
{
    let path = match get_str_field(v, "path") {
        Some(s) => s,
        None => {
            return Err(ManifestError::Malformed);
        },
    };
    let hv = match json_get(v, "hashes") {
        Some(x) => x,
        None => {
            return Err(ManifestError::Malformed);
        },
    };
    let size_v = match json_get(v, "fileSize") {
        Some(x) => x,
        None => {
            return Err(ManifestError::Malformed);
        },
    };
    let size64 = match json_as_u64(size_v) {
        Some(nv) => nv,
        None => {
            return Err(ManifestError::Malformed);
        },
    };
    if size64 > u32::MAX as u64 {
        return Err(ManifestError::Malformed);
    }
    let dl_v = match json_get(v, "downloads") {
        Some(x) => x,
        None => {
            return Err(ManifestError::Malformed);
        },
    };
    let dl_arr = match json_as_array(dl_v) {
        Some(a) => a,
        None => {
            return Err(ManifestError::Malformed);
        },
    };
    let hashes = match decode_hashes(hv) {
        Ok(h) => h,
        Err(e) => {
            return Err(e);
        },
    };
    let downloads = match decode_strings(dl_arr) {
        Ok(ds) => ds,
        Err(e) => {
            return Err(e);
        },
    };
    let env = match json_get(v, "env") {
        None => None,
        Some(x) => {
            if json_is_null(x) {
                None
            } else {
                match decode_env(x) {
                    Ok(e) => Some(e),
                    Err(e) => {
                        return Err(e);
                    },
                }
            }
        },
    };
    Ok(
        ModpackFile {
            path: path,
            hashes: hashes,
            env: env,
            downloads: downloads,
            file_size: size64 as u32,
        },
    )
}

proof fn lemma_decode_files_elem_none(s: Seq<JsonData>, i: int)
    requires
        0 <= i < s.len(),
        spec_decode_file(s[i]) is None,
    ensures
        spec_decode_files(s) is None,
    decreases s.len(),
{
    if i < s.len() - 1 {
        assert(s.drop_last()[i] == s[i]);
        lemma_decode_files_elem_none(s.drop_last(), i);
    }
}

/// Decodes the `files` array, in order.
pub fn decode_files(arr: &Vec<serde_json::Value>) -> (r: Result<Vec<ModpackFile>, ManifestError>)
    ensures
        r matches Ok(fs) ==> spec_decode_files(models_of(arr@)) == Some(files_view(fs@)),
        r matches Err(e) ==> spec_decode_files(models_of(arr@)) is None && e
            == ManifestError::Malformed,
{
    let n = arr.len();
    let mut files: Vec<ModpackFile> = Vec::new();
    for i in 0..n
        invariant
            n == arr@.len(),
            spec_decode_files(models_of(arr@).subrange(0, i as int)) == Some(files_view(files@)),
    {
        match decode_file(&arr[i]) {
            Ok(f) => {
                let ghost prev = files@;
                files.push(f);
                proof {
                    let ms = models_of(arr@);
                    assert(ms[i as int] == json_model(arr@[i as int]));
                    assert(ms.subrange(0, i + 1).drop_last() =~= ms.subrange(0, i as int));
                    assert(ms.subrange(0, i + 1).last() == ms[i as int]);
                    assert(files_view(files@) =~= files_view(prev).push(files@.last()@));
                }
            },
            Err(e) => {
                proof {
                    let ms = models_of(arr@);
                    assert(ms[i as int] == json_model(arr@[i as int]));
                    lemma_decode_files_elem_none(ms, i as int);
                }
                return Err(e);
            },
        }
    }
    proof {
        assert(models_of(arr@).subrange(0, n as int) =~= models_of(arr@));
    }
    Ok(files)
}

/// The dependency kinds in the canonical order the decoder emits them.
pub open spec fn spec_id_at(i: int) -> DependencyID {
    if i == 0 {
        DependencyID::Minecraft
    } else if i == 1 {
        DependencyID::Forge
    } else if i == 2 {
        DependencyID::Neoforge
    } else if i == 3 {
        DependencyID::FabricLoader
    } else {
        DependencyID::QuiltLoader
    }
}

pub open spec fn id_index(id: DependencyID) -> int {
    match id {
        DependencyID::Minecraft => 0,
        DependencyID::Forge => 1,
        DependencyID::Neoforge => 2,
        DependencyID::FabricLoader => 3,
        DependencyID::QuiltLoader => 4,
    }
}

fn id_at(i: usize) -> (r: DependencyID)
    requires
        i < 5,
    ensures
        r == spec_id_at(i as int),
        id_index(r) == i,
{
    if i == 0 {
        DependencyID::Minecraft
    } else if i == 1 {
        DependencyID::Forge
    } else if i == 2 {
        DependencyID::Neoforge
    } else if i == 3 {
        DependencyID::FabricLoader
    } else {
        DependencyID::QuiltLoader
    }
}

/// `deps_of_obj` restricted to the first `i` dependency kinds.
pub open spec fn deps_of_obj_prefix(m: Map<Seq<char>, JsonData>, i: int) -> Map<
    DependencyID,
    Seq<char>,
> {
    Map::new(
        |id: DependencyID| dep_lookup(m, id) is Some && id_index(id) < i,
        |id: DependencyID| dep_lookup(m, id)->Some_0->Str_0,
    )
}

proof fn lemma_deps_map_push(s: Seq<(DependencyID, String)>, id: DependencyID, val: String)
    ensures
        deps_map(deps_pairs_view(s.push((id, val)))) == deps_map(deps_pairs_view(s)).insert(
            id,
            val@,
        ),
{
    assert(deps_pairs_view(s.push((id, val))) =~= deps_pairs_view(s).push((id, val@)));
    assert(deps_pairs_view(s).push((id, val@)).drop_last() =~= deps_pairs_view(s));
}

/// The version string an object gives for one dependency kind, its
/// canonical key winning over its shorthand.
fn dep_entry(v: &serde_json::Value, id: DependencyID) -> (r: Option<String>)
    requires
        json_model(*v) is Obj,
        all_values_strings(obj_map(json_model(*v))),
    ensures
        r is Some <==> dep_lookup(obj_map(json_model(*v)), id) is Some,
        r matches Some(s) ==> dep_lookup(obj_map(json_model(*v)), id) == Some(
            JsonData::Str(s@),
        ),
{
    match json_get(v, id.key()) {
        Some(x) => match json_as_str(x) {
            Some(s) => Some(s.to_owned()),
            None => {
                proof {
                    assert(false);
                }
                None
            },
        },
        None => {
            let alias_v = match id {
                DependencyID::FabricLoader => json_get(v, "fabric"),
                DependencyID::QuiltLoader => json_get(v, "quilt"),
                _ => None,
            };
            match alias_v {
                Some(x) => match json_as_str(x) {
                    Some(s) => Some(s.to_owned()),
                    None => {
                        proof {
                            assert(false);
                        }
                        None
                    },
                },
                None => None,
            }
        },
    }
}

/// Decodes the `dependencies` object: every key must be recognized and
/// every value a string; the result lists the present kinds in canonical
/// order.
pub fn decode_deps(v: &serde_json::Value) -> (r: Result<
    Vec<(DependencyID, String)>,
    ManifestError,
>)
    ensures
        r matches Ok(ds) ==> spec_decode_deps(json_model(*v)) == Some(
            deps_map(deps_pairs_view(ds@)),
        ),
        r matches Err(e) ==> spec_decode_deps(json_model(*v)) is None && e
            == ManifestError::Malformed,
{
    let ks = match json_object_keys(v) {
        Some(ks) => ks,
        None => {
            return Err(ManifestError::Malformed);
        },
    };
    let ghost m = obj_map(json_model(*v));
    let n = ks.len();
    for i in 0..n
        invariant
            n == ks@.len(),
            json_model(*v) is Obj,
            m == obj_map(json_model(*v)),
            forall|j: int| 0 <= j < ks@.len() ==> m.dom().contains(#[trigger] ks@[j]@),
            forall|k: Seq<char>| #[trigger] m.dom().contains(k) ==> exists|j: int|
                0 <= j < ks@.len() && ks@[j]@ == k,
            forall|j: int|
                0 <= j < i ==> dep_id_of_key(#[trigger] ks@[j]@) is Some && m[ks@[j]@] is Str,
    {
        let key = &ks[i];
        match DependencyID::try_from(key.as_str()) {
            Ok(_) => {},
            Err(_) => {
                return Err(ManifestError::Malformed);
            },
        }
        let val = match json_get(v, key.as_str()) {
            Some(x) => x,
            None => {
                proof {
                    assert(false);
                }
                return Err(ManifestError::Malformed);
            },
        };
        match json_as_str(val) {
            Some(_) => {},
            None => {
                return Err(ManifestError::Malformed);
            },
        }
    }
    proof {
        assert forall|k: Seq<char>| #[trigger] m.dom().contains(k) implies dep_id_of_key(k) is Some
            && m[k] is Str by {
            let j = choose|j: int| 0 <= j < ks@.len() && ks@[j]@ == k;
            assert(dep_id_of_key(ks@[j]@) is Some && m[ks@[j]@] is Str);
        }
    }
    let mut out: Vec<(DependencyID, String)> = Vec::new();
    for i in 0..5usize
        invariant
            json_model(*v) is Obj,
            m == obj_map(json_model(*v)),
            all_values_strings(m),
            deps_map(deps_pairs_view(out@)) == deps_of_obj_prefix(m, i as int),
    {
        let id = id_at(i);
        match dep_entry(v, id) {
            Some(s) => {
                let ghost prev = out@;
                out.push((id, s));
                proof {
                    lemma_deps_map_push(prev, out@.last().0, out@.last().1);
                    assert(out@.drop_last() =~= prev);
                    assert(deps_map(deps_pairs_view(out@)) =~= deps_of_obj_prefix(m, i + 1));
                }
            },
            None => {
                proof {
                    assert(deps_of_obj_prefix(m, i as int) =~= deps_of_obj_prefix(m, i + 1));
                }
            },
        }
    }
    proof {
        assert(deps_of_obj_prefix(m, 5) =~= deps_of_obj(m));
    }
    Ok(out)
}

/// Decodes a whole manifest value.
pub fn decode_manifest(v: &serde_json::Value) -> (r: Result<MRPack, ManifestError>)
    ensures
        r matches Ok(p) ==> spec_decode_manifest(json_model(*v)) == Some(p@),
        r matches Err(e) ==> spec_decode_manifest(json_model(*v)) is None && e
            == ManifestError::Malformed,
{
    let fv = match json_get(v, "formatVersion") {
        Some(x) => x,
        None => {
            return Err(ManifestError::Malformed);
        },
    };
    let version = match json_as_u64(fv) {
        Some(nv) => nv,
        None => {
            return Err(ManifestError::Malformed);
        },
    };
    if version != SUPPORTED_FORMAT_VERSION as u64 {
        return Err(ManifestError::Malformed);
    }
    let game = match get_str_field(v, "game") {
        Some(s) => s,
        None => {
            return Err(ManifestError::Malformed);
        },
    };
    let name = match get_str_field(v, "name") {
        Some(s) => s,
        None => {
            return Err(ManifestError::Malformed);
        },
    };
    let version_id = match get_str_field(v, "versionId") {
        Some(s) => s,
        None => {
            return Err(ManifestError::Malformed);
        },
    };
    let summary = match json_get(v, "summary") {
        None => None,
        Some(x) => {
            if json_is_null(x) {
                None
            } else {
                match json_as_str(x) {
                    Some(s) => Some(s.to_owned()),
                    None => {
                        return Err(ManifestError::Malformed);
                    },
                }
            }
        },
    };
    let deps_v = match json_get(v, "dependencies") {
        Some(x) => x,
        None => {
            return Err(ManifestError::Malformed);
        },
    };
    let dependencies = match decode_deps(deps_v) {
        Ok(d) => d,
        Err(e) => {
            return Err(e);
        },
    };
    let files_v = match json_get(v, "files") {
        Some(x) => x,
        None => {
            return Err(ManifestError::Malformed);
        },
    };
    let files_arr = match json_as_array(files_v) {
        Some(a) => a,
        None => {
            return Err(ManifestError::Malformed);
        },
    };
    let files = match decode_files(files_arr) {
        Ok(f) => f,
        Err(e) => {
            return Err(e);
        },
    };
    Ok(
        MRPack {
            dependencies: dependencies,
            files: files,
            format_version: SUPPORTED_FORMAT_VERSION,
            game: game,
            name: name,
            version_id: version_id,
            summary: summary,
        },
    )
}

/// Decodes manifest text: parses it as JSON and decodes the manifest shape.
pub fn read_manifest_str(text: &str) -> (r: Result<MRPack, ManifestError>)
    ensures
        r matches Ok(p) ==> (json_parse(text@) matches Some(d) && spec_decode_manifest(d) == Some(
            p@,
        )),
        r matches Err(e) ==> e == ManifestError::Malformed,
        r is Err ==> (json_parse(text@) is None || (json_parse(text@) matches Some(d)
            && spec_decode_manifest(d) is None)),
{
    match json_from_str(text) {
        None => Err(ManifestError::Malformed),
        Some(v) => decode_manifest(&v),
    }
}

// ---------------------------------------------------------------------
// Encoding a manifest back to JSON. The executable encoders build real
// `serde_json` values; the spec functions state exactly which JSON
// document comes out, so that decoding it again provably restores the
// manifest.
// ---------------------------------------------------------------------

pub open spec fn env_req_key(e: EnvTypes) -> Seq<char> {
    match e {
        EnvTypes::Required => "required"@,
        EnvTypes::Optional => "optional"@,
        EnvTypes::Unsupported => "unsupported"@,
    }
}

pub open spec fn spec_encode_env(e: Env) -> JsonData {
    JsonData::Obj(
        Map::empty().insert("client"@, JsonData::Str(env_req_key(e.client))).insert(
            "server"@,
            JsonData::Str(env_req_key(e.server)),
        ),
    )
}

pub open spec fn str_map_wrap(m: Map<Seq<char>, Seq<char>>) -> Map<Seq<char>, JsonData> {
    Map::new(|k: Seq<char>| m.dom().contains(k), |k: Seq<char>| JsonData::Str(m[k]))
}

pub open spec fn spec_encode_string_map(m: Map<Seq<char>, Seq<char>>) -> JsonData {
    JsonData::Obj(str_map_wrap(m))
}

pub open spec fn spec_encode_hashes(h: FileHashesView) -> JsonData {
    let base = Map::empty().insert("sha1"@, JsonData::Str(h.sha1)).insert(
        "sha512"@,
        JsonData::Str(h.sha512),
    );
    JsonData::Obj(
        match h.other_hashes {
            Some(om) => base.insert("other_hashes"@, spec_encode_string_map(om)),
            None => base,
        },
    )
}

pub open spec fn spec_encode_strings(s: Seq<Seq<char>>) -> Seq<JsonData> {
    s.map_values(|x: Seq<char>| JsonData::Str(x))
}

pub open spec fn spec_encode_file(f: ModpackFileView) -> JsonData {
    let base = Map::empty().insert("path"@, JsonData::Str(f.path)).insert(
        "hashes"@,
        spec_encode_hashes(f.hashes),
    ).insert("downloads"@, JsonData::Arr(spec_encode_strings(f.downloads))).insert(
        "fileSize"@,
        JsonData::UInt(f.file_size as u64),
    );
    JsonData::Obj(
        match f.env {
            Some(e) => base.insert("env"@, spec_encode_env(e)),
            None => base,
        },
    )
}

pub open spec fn spec_encode_files(fs: Seq<ModpackFileView>) -> Seq<JsonData> {
    fs.map_values(|f: ModpackFileView| spec_encode_file(f))
}

/// The dependency kind a canonical key denotes; total, with an arbitrary
/// default on non-keys.
pub open spec fn dep_of_spec_key(k: Seq<char>) -> DependencyID {
    if k == "forge"@ {
        DependencyID::Forge
    } else if k == "neoforge"@ {
        DependencyID::Neoforge
    } else if k == "fabric-loader"@ {
        DependencyID::FabricLoader
    } else if k == "quilt-loader"@ {
        DependencyID::QuiltLoader
    } else {
        DependencyID::Minecraft
    }
}

pub open spec fn dep_wrap(dm: Map<DependencyID, Seq<char>>) -> Map<Seq<char>, JsonData> {
    Map::new(
        |k: Seq<char>|
            exists|id: DependencyID| #[trigger] dm.dom().contains(id) && id.spec_key() == k,
        |k: Seq<char>| JsonData::Str(dm[dep_of_spec_key(k)]),
    )
}

pub open spec fn spec_encode_deps(dm: Map<DependencyID, Seq<char>>) -> JsonData {
    JsonData::Obj(dep_wrap(dm))
}

pub open spec fn spec_encode_manifest(mv: MRPackView) -> JsonData {
    let base = Map::empty().insert("formatVersion"@, JsonData::UInt(mv.format_version as u64)).insert(
        "game"@,
        JsonData::Str(mv.game),
    ).insert("name"@, JsonData::Str(mv.name)).insert(
        "versionId"@,
        JsonData::Str(mv.version_id),
    ).insert("dependencies"@, spec_encode_deps(mv.dependencies)).insert(
        "files"@,
        JsonData::Arr(spec_encode_files(mv.files)),
    );
    JsonData::Obj(
        match mv.summary {
            Some(s) => base.insert("summary"@, JsonData::Str(s)),
            None => base,
        },
    )
}

proof fn lemma_obj_pairs_push(s: Seq<(String, serde_json::Value)>, k: String, v: serde_json::Value)
    ensures
        obj_map_of_pairs(pairs_view(s.push((k, v)))) == obj_map_of_pairs(pairs_view(s)).insert(
            k@,
            json_model(v),
        ),
{
    assert(pairs_view(s.push((k, v))) =~= pairs_view(s).push((k@, json_model(v))));
    assert(pairs_view(s).push((k@, json_model(v))).drop_last() =~= pairs_view(s));
}

fn env_req_key_str(e: EnvTypes) -> (r: &'static str)
    ensures
        r@ == env_req_key(e),
{
    match e {
        EnvTypes::Required => "required",
        EnvTypes::Optional => "optional",
        EnvTypes::Unsupported => "unsupported",
    }
}

/// Encodes an `env` object.
pub fn encode_env(e: &Env) -> (r: serde_json::Value)
    ensures
        json_model(r) == spec_encode_env(*e),
{
    let mut entries: Vec<(String, serde_json::Value)> = Vec::new();
    let ghost s0 = entries@;
    entries.push((String::from_str("client"), json_of_string(String::from_str(env_req_key_str(e.client)))));
    proof {
        lemma_obj_pairs_push(s0, entries@.last().0, entries@.last().1);
    }
    let ghost s1 = entries@;
    entries.push((String::from_str("server"), json_of_string(String::from_str(env_req_key_str(e.server)))));
    proof {
        lemma_obj_pairs_push(s1, entries@.last().0, entries@.last().1);
    }
    json_of_object(entries)
}

/// Encodes extra digests as an object of string values.
pub fn encode_string_map(pairs: &Vec<(String, String)>) -> (r: serde_json::Value)
    ensures
        json_model(r) == spec_encode_string_map(string_pairs_map(string_pairs_view(pairs@))),
{
    let n = pairs.len();
    let mut entries: Vec<(String, serde_json::Value)> = Vec::new();
    for i in 0..n
        invariant
            n == pairs@.len(),
            obj_map_of_pairs(pairs_view(entries@)) == str_map_wrap(
                string_pairs_map(string_pairs_view(pairs@.subrange(0, i as int))),
            ),
    {
        let ghost s0 = entries@;
        let ghost p0 = string_pairs_map(string_pairs_view(pairs@.subrange(0, i as int)));
        entries.push((pairs[i].0.clone(), json_of_string(pairs[i].1.clone())));
        proof {
            lemma_obj_pairs_push(s0, entries@.last().0, entries@.last().1);
            lemma_string_pairs_push(
                pairs@.subrange(0, i as int),
                pairs@[i as int].0,
                pairs@[i as int].1,
            );
            assert((pairs@[i as int].0, pairs@[i as int].1) == pairs@[i as int]);
            assert(pairs@.subrange(0, i as int).push(pairs@[i as int]) =~= pairs@.subrange(
                0,
                i + 1,
            ));
            assert(str_map_wrap(p0.insert(pairs@[i as int].0@, pairs@[i as int].1@)) =~= str_map_wrap(
                p0,
            ).insert(pairs@[i as int].0@, JsonData::Str(pairs@[i as int].1@)));
        }
    }
    proof {
        assert(pairs@.subrange(0, n as int) =~= pairs@);
    }
    json_of_object(entries)
}

/// Encodes a `hashes` object.
pub fn encode_hashes(h: &FileHashes) -> (r: serde_json::Value)
    ensures
        json_model(r) == spec_encode_hashes(h@),
{
    let mut entries: Vec<(String, serde_json::Value)> = Vec::new();
    let ghost s0 = entries@;
    entries.push((String::from_str("sha1"), json_of_string(h.sha1.clone())));
    proof {
        lemma_obj_pairs_push(s0, entries@.last().0, entries@.last().1);
    }
    let ghost s1 = entries@;
    entries.push((String::from_str("sha512"), json_of_string(h.sha512.clone())));
    proof {
        lemma_obj_pairs_push(s1, entries@.last().0, entries@.last().1);
    }
    match &h.other_hashes {
        None => {},
        Some(pairs) => {
            let ghost s2 = entries@;
            entries.push((String::from_str("other_hashes"), encode_string_map(pairs)));
            proof {
                lemma_obj_pairs_push(s2, entries@.last().0, entries@.last().1);
            }
        },
    }
    json_of_object(entries)
}

/// Encodes a list of download URLs.
pub fn encode_strings(urls: &Vec<String>) -> (r: Vec<serde_json::Value>)
    ensures
        models_of(r@) == spec_encode_strings(urls.deep_view()),
{
    let n = urls.len();
    let mut items: Vec<serde_json::Value> = Vec::new();
    for i in 0..n
        invariant
            n == urls@.len(),
            models_of(items@) == spec_encode_strings(urls.deep_view().subrange(0, i as int)),
    {
        let ghost m0 = models_of(items@);
        items.push(json_of_string(urls[i].clone()));
        proof {
            assert(models_of(items@) =~= m0.push(JsonData::Str(urls@[i as int]@)));
            assert(urls.deep_view()[i as int] == urls@[i as int]@);
            assert(spec_encode_strings(urls.deep_view().subrange(0, i + 1)) =~= m0.push(
                JsonData::Str(urls@[i as int]@),
            ));
        }
    }
    proof {
        assert(urls.deep_view().subrange(0, n as int) =~= urls.deep_view());
    }
    items
}

/// Encodes one manifest file entry.
pub fn encode_file(f: &ModpackFile) -> (r: serde_json::Value)
    ensures
        json_model(r) == spec_encode_file(f@),
{
    let mut entries: Vec<(String, serde_json::Value)> = Vec::new();
    let ghost s0 = entries@;
    entries.push((String::from_str("path"), json_of_string(f.path.clone())));
    proof {
        lemma_obj_pairs_push(s0, entries@.last().0, entries@.last().1);
    }
    let ghost s1 = entries@;
    entries.push((String::from_str("hashes"), encode_hashes(&f.hashes)));
    proof {
        lemma_obj_pairs_push(s1, entries@.last().0, entries@.last().1);
    }
    let ghost s2 = entries@;
    entries.push((String::from_str("downloads"), json_of_array(encode_strings(&f.downloads))));
    proof {
        lemma_obj_pairs_push(s2, entries@.last().0, entries@.last().1);
    }
    let ghost s3 = entries@;
    entries.push((String::from_str("fileSize"), json_of_u64(f.file_size as u64)));
    proof {
        lemma_obj_pairs_push(s3, entries@.last().0, entries@.last().1);
    }
    match &f.env {
        None => {},
        Some(e) => {
            let ghost s4 = entries@;
            entries.push((String::from_str("env"), encode_env(e)));
            proof {
                lemma_obj_pairs_push(s4, entries@.last().0, entries@.last().1);
            }
        },
    }
    json_of_object(entries)
}

/// Encodes the `files` array.
pub fn encode_files(fs: &Vec<ModpackFile>) -> (r: Vec<serde_json::Value>)
    ensures
        models_of(r@) == spec_encode_files(files_view(fs@)),
{
    let n = fs.len();
    let mut items: Vec<serde_json::Value> = Vec::new();
    for i in 0..n
        invariant
            n == fs@.len(),
            models_of(items@) == spec_encode_files(files_view(fs@.subrange(0, i as int))),
    {
        let ghost m0 = models_of(items@);
        items.push(encode_file(&fs[i]));
        proof {
            assert(models_of(items@) =~= m0.push(spec_encode_file(fs@[i as int]@)));
            assert(files_view(fs@.subrange(0, i + 1)) =~= files_view(fs@.subrange(0, i as int)).push(
                fs@[i as int]@,
            ));
            assert(spec_encode_files(files_view(fs@.subrange(0, i + 1))) =~= m0.push(
                spec_encode_file(fs@[i as int]@),
            ));
        }
    }
    proof {
        assert(fs@.subrange(0, n as int) =~= fs@);
    }
    items
}

/// Canonical dependency keys are pairwise distinct, denote their own kind,
/// and are disjoint from the shorthand keys.
pub proof fn lemma_dep_key_facts()
    ensures
        forall|id: DependencyID| #[trigger] dep_of_spec_key(id.spec_key()) == id,
        forall|id: DependencyID| #[trigger] dep_id_of_key(id.spec_key()) == Some(id),
        forall|id: DependencyID, id2: DependencyID|
            (#[trigger] id.spec_alias()) is Some ==> #[trigger] id2.spec_key()
                != id.spec_alias()->Some_0,
{
    crate::mrpack::lemma_dep_key_literals();
    assert(dep_of_spec_key(DependencyID::Minecraft.spec_key()) == DependencyID::Minecraft);
    assert(dep_of_spec_key(DependencyID::Forge.spec_key()) == DependencyID::Forge);
    assert(dep_of_spec_key(DependencyID::Neoforge.spec_key()) == DependencyID::Neoforge);
    assert(dep_of_spec_key(DependencyID::FabricLoader.spec_key()) == DependencyID::FabricLoader);
    assert(dep_of_spec_key(DependencyID::QuiltLoader.spec_key()) == DependencyID::QuiltLoader);
    assert(dep_id_of_key(DependencyID::Minecraft.spec_key()) == Some(DependencyID::Minecraft));
    assert(dep_id_of_key(DependencyID::Forge.spec_key()) == Some(DependencyID::Forge));
    assert(dep_id_of_key(DependencyID::Neoforge.spec_key()) == Some(DependencyID::Neoforge));
    assert(dep_id_of_key(DependencyID::FabricLoader.spec_key()) == Some(
        DependencyID::FabricLoader,
    ));
    assert(dep_id_of_key(DependencyID::QuiltLoader.spec_key()) == Some(DependencyID::QuiltLoader));
    assert forall|id: DependencyID| #[trigger] dep_of_spec_key(id.spec_key()) == id by {
        assert(id == DependencyID::Minecraft || id == DependencyID::Forge || id
            == DependencyID::Neoforge || id == DependencyID::FabricLoader || id
            == DependencyID::QuiltLoader);
    }
    assert forall|id: DependencyID| #[trigger] dep_id_of_key(id.spec_key()) == Some(id) by {
        assert(id == DependencyID::Minecraft || id == DependencyID::Forge || id
            == DependencyID::Neoforge || id == DependencyID::FabricLoader || id
            == DependencyID::QuiltLoader);
    }
    assert forall|id: DependencyID, id2: DependencyID|
        (#[trigger] id.spec_alias()) is Some implies #[trigger] id2.spec_key()
        != id.spec_alias()->Some_0 by {
        assert(id2 == DependencyID::Minecraft || id2 == DependencyID::Forge || id2
            == DependencyID::Neoforge || id2 == DependencyID::FabricLoader || id2
            == DependencyID::QuiltLoader);
        assert(id == DependencyID::Minecraft || id == DependencyID::Forge || id
            == DependencyID::Neoforge || id == DependencyID::FabricLoader || id
            == DependencyID::QuiltLoader);
    }
}

proof fn lemma_dep_wrap_insert(dm: Map<DependencyID, Seq<char>>, id: DependencyID, val: Seq<char>)
    ensures
        dep_wrap(dm.insert(id, val)) == dep_wrap(dm).insert(id.spec_key(), JsonData::Str(val)),
{
    lemma_dep_key_facts();
    assert forall|k: Seq<char>| #[trigger] dep_wrap(dm.insert(id, val)).dom().contains(k) implies
    dep_wrap(dm).insert(id.spec_key(), JsonData::Str(val)).dom().contains(k) by {
        let id2 = choose|id2: DependencyID|
            #[trigger] dm.insert(id, val).dom().contains(id2) && id2.spec_key() == k;
        if id2 != id {
            assert(dm.dom().contains(id2) && id2.spec_key() == k);
        }
    }
    assert forall|k: Seq<char>|
        #[trigger] dep_wrap(dm).insert(id.spec_key(), JsonData::Str(val)).dom().contains(
            k,
        ) implies dep_wrap(dm.insert(id, val)).dom().contains(k) by {
        if k == id.spec_key() {
            assert(dm.insert(id, val).dom().contains(id) && id.spec_key() == k);
        } else {
            let id2 = choose|id2: DependencyID|
                #[trigger] dm.dom().contains(id2) && id2.spec_key() == k;
            assert(dm.insert(id, val).dom().contains(id2) && id2.spec_key() == k);
        }
    }
    assert forall|k: Seq<char>| #[trigger] dep_wrap(dm.insert(id, val)).dom().contains(k) implies
    dep_wrap(dm.insert(id, val))[k] == dep_wrap(dm).insert(id.spec_key(), JsonData::Str(val))[k] by {
        let id2 = choose|id2: DependencyID|
            #[trigger] dm.insert(id, val).dom().contains(id2) && id2.spec_key() == k;
        assert(dep_of_spec_key(id2.spec_key()) == id2);
        if k == id.spec_key() {
            assert(dep_of_spec_key(k) == id);
        } else {
            assert(id2 != id);
        }
    }
    assert(dep_wrap(dm.insert(id, val)) =~= dep_wrap(dm).insert(id.spec_key(), JsonData::Str(val)));
}

/// Encodes the dependency mapping under the canonical keys.
pub fn encode_deps(deps: &Vec<(DependencyID, String)>) -> (r: serde_json::Value)
    ensures
        json_model(r) == spec_encode_deps(deps_map(deps_pairs_view(deps@))),
{
    let n = deps.len();
    let mut entries: Vec<(String, serde_json::Value)> = Vec::new();
    for i in 0..n
        invariant
            n == deps@.len(),
            obj_map_of_pairs(pairs_view(entries@)) == dep_wrap(
                deps_map(deps_pairs_view(deps@.subrange(0, i as int))),
            ),
    {
        let ghost s0 = entries@;
        let ghost d0 = deps_map(deps_pairs_view(deps@.subrange(0, i as int)));
        let id = deps[i].0;
        entries.push((String::from_str(id.key()), json_of_string(deps[i].1.clone())));
        proof {
            lemma_obj_pairs_push(s0, entries@.last().0, entries@.last().1);
            lemma_deps_map_push(deps@.subrange(0, i as int), deps@[i as int].0, deps@[i as int].1);
            assert((deps@[i as int].0, deps@[i as int].1) == deps@[i as int]);
            assert(deps@.subrange(0, i as int).push(deps@[i as int]) =~= deps@.subrange(0, i + 1));
            lemma_dep_wrap_insert(d0, deps@[i as int].0, deps@[i as int].1@);
        }
    }
    proof {
        assert(deps@.subrange(0, n as int) =~= deps@);
    }
    json_of_object(entries)
}

/// Encodes a whole manifest.
pub fn encode_manifest(p: &MRPack) -> (r: serde_json::Value)
    ensures
        json_model(r) == spec_encode_manifest(p@),
{
    let mut entries: Vec<(String, serde_json::Value)> = Vec::new();
    let ghost s0 = entries@;
    entries.push((String::from_str("formatVersion"), json_of_u64(p.format_version as u64)));
    proof {
        lemma_obj_pairs_push(s0, entries@.last().0, entries@.last().1);
    }
    let ghost s1 = entries@;
    entries.push((String::from_str("game"), json_of_string(p.game.clone())));
    proof {
        lemma_obj_pairs_push(s1, entries@.last().0, entries@.last().1);
    }
    let ghost s2 = entries@;
    entries.push((String::from_str("name"), json_of_string(p.name.clone())));
    proof {
        lemma_obj_pairs_push(s2, entries@.last().0, entries@.last().1);
    }
    let ghost s3 = entries@;
    entries.push((String::from_str("versionId"), json_of_string(p.version_id.clone())));
    proof {
        lemma_obj_pairs_push(s3, entries@.last().0, entries@.last().1);
    }
    let ghost s4 = entries@;
    entries.push((String::from_str("dependencies"), encode_deps(&p.dependencies)));
    proof {
        lemma_obj_pairs_push(s4, entries@.last().0, entries@.last().1);
    }
    let ghost s5 = entries@;
    entries.push((String::from_str("files"), json_of_array(encode_files(&p.files))));
    proof {
        lemma_obj_pairs_push(s5, entries@.last().0, entries@.last().1);
    }
    match &p.summary {
        None => {},
        Some(s) => {
            let ghost s6 = entries@;
            entries.push((String::from_str("summary"), json_of_string(s.clone())));
            proof {
                lemma_obj_pairs_push(s6, entries@.last().0, entries@.last().1);
            }
        },
    }
    json_of_object(entries)
}

// ---------------------------------------------------------------------
// The round-trip law: decoding an encoded manifest restores it exactly.
// ---------------------------------------------------------------------

/// The manifest key and value literals are pairwise distinct wherever they
/// can meet in one object.
proof fn lemma_manifest_literals()
    ensures
        "formatVersion"@.len() == 13,
        "game"@.len() == 4,
        "name"@.len() == 4,
        "versionId"@.len() == 9,
        "dependencies"@.len() == 12,
        "files"@.len() == 5,
        "summary"@.len() == 7,
        "game"@ != "name"@,
        "path"@.len() == 4,
        "hashes"@.len() == 6,
        "downloads"@.len() == 9,
        "fileSize"@.len() == 8,
        "env"@.len() == 3,
        "sha1"@.len() == 4,
        "sha512"@.len() == 6,
        "other_hashes"@.len() == 12,
        "client"@.len() == 6,
        "server"@.len() == 6,
        "client"@ != "server"@,
        "required"@.len() == 8,
        "optional"@.len() == 8,
        "unsupported"@.len() == 11,
        "required"@ != "optional"@,
{
    reveal_strlit("formatVersion");
    reveal_strlit("game");
    reveal_strlit("name");
    reveal_strlit("versionId");
    reveal_strlit("dependencies");
    reveal_strlit("files");
    reveal_strlit("summary");
    reveal_strlit("path");
    reveal_strlit("hashes");
    reveal_strlit("downloads");
    reveal_strlit("fileSize");
    reveal_strlit("env");
    reveal_strlit("sha1");
    reveal_strlit("sha512");
    reveal_strlit("other_hashes");
    reveal_strlit("client");
    reveal_strlit("server");
    reveal_strlit("required");
    reveal_strlit("optional");
    reveal_strlit("unsupported");
    assert("game"@[0] == 'g');
    assert("name"@[0] == 'n');
    assert("client"@[0] == 'c');
    assert("server"@[0] == 's');
    assert("required"@[0] == 'r');
    assert("optional"@[0] == 'o');
}

proof fn lemma_env_round_trip(e: Env)
    ensures
        spec_decode_env(spec_encode_env(e)) == Some(e),
{
    lemma_manifest_literals();
    let m = obj_map(spec_encode_env(e));
    assert(m["client"@] == JsonData::Str(env_req_key(e.client)));
    assert(m["server"@] == JsonData::Str(env_req_key(e.server)));
    assert(spec_decode_env_req(JsonData::Str(env_req_key(e.client))) == Some(e.client)) by {
        assert(e.client is Required || e.client is Optional || e.client is Unsupported);
    }
    assert(spec_decode_env_req(JsonData::Str(env_req_key(e.server))) == Some(e.server)) by {
        assert(e.server is Required || e.server is Optional || e.server is Unsupported);
    }
}

proof fn lemma_string_map_round_trip(om: Map<Seq<char>, Seq<char>>)
    ensures
        spec_decode_string_map(spec_encode_string_map(om)) == Some(om),
{
    let m = str_map_wrap(om);
    assert forall|k: Seq<char>| #[trigger] m.dom().contains(k) implies m[k] is Str by {
        assert(om.dom().contains(k));
    }
    assert(str_map_of(m) =~= om);
}

proof fn lemma_hashes_round_trip(h: FileHashesView)
    ensures
        spec_decode_hashes(spec_encode_hashes(h)) == Some(h),
{
    lemma_manifest_literals();
    let m = obj_map(spec_encode_hashes(h));
    assert(m["sha1"@] == JsonData::Str(h.sha1));
    assert(m["sha512"@] == JsonData::Str(h.sha512));
    match h.other_hashes {
        None => {
            assert(!m.dom().contains("other_hashes"@));
        },
        Some(om) => {
            lemma_string_map_round_trip(om);
            assert(m["other_hashes"@] == spec_encode_string_map(om));
        },
    }
}

proof fn lemma_strings_round_trip(ds: Seq<Seq<char>>)
    ensures
        spec_decode_strings(spec_encode_strings(ds)) == Some(ds),
    decreases ds.len(),
{
    let es = spec_encode_strings(ds);
    if ds.len() == 0 {
        assert(es.len() == 0);
    } else {
        lemma_strings_round_trip(ds.drop_last());
        assert(es.drop_last() =~= spec_encode_strings(ds.drop_last()));
        assert(es.last() == JsonData::Str(ds.last()));
        assert(ds.drop_last().push(ds.last()) =~= ds);
    }
}

proof fn lemma_file_round_trip(f: ModpackFileView)
    ensures
        spec_decode_file(spec_encode_file(f)) == Some(f),
{
    lemma_manifest_literals();
    lemma_hashes_round_trip(f.hashes);
    lemma_strings_round_trip(f.downloads);
    let m = obj_map(spec_encode_file(f));
    assert(m["path"@] == JsonData::Str(f.path));
    assert(m["hashes"@] == spec_encode_hashes(f.hashes));
    assert(m["downloads"@] == JsonData::Arr(spec_encode_strings(f.downloads)));
    assert(m["fileSize"@] == JsonData::UInt(f.file_size as u64));
    match f.env {
        None => {
            assert(!m.dom().contains("env"@));
        },
        Some(e) => {
            lemma_env_round_trip(e);
            assert(m["env"@] == spec_encode_env(e));
        },
    }
}

proof fn lemma_files_round_trip(fs: Seq<ModpackFileView>)
    ensures
        spec_decode_files(spec_encode_files(fs)) == Some(fs),
    decreases fs.len(),
{
    let es = spec_encode_files(fs);
    if fs.len() == 0 {
        assert(es.len() == 0);
    } else {
        lemma_files_round_trip(fs.drop_last());
        lemma_file_round_trip(fs.last());
        assert(es.drop_last() =~= spec_encode_files(fs.drop_last()));
        assert(es.last() == spec_encode_file(fs.last()));
        assert(fs.drop_last().push(fs.last()) =~= fs);
    }
}

proof fn lemma_deps_round_trip(dm: Map<DependencyID, Seq<char>>)
    ensures
        spec_decode_deps(spec_encode_deps(dm)) == Some(dm),
{
    lemma_dep_key_facts();
    let m = dep_wrap(dm);
    assert forall|k: Seq<char>| #[trigger] m.dom().contains(k) implies dep_id_of_key(k) is Some
        && m[k] is Str by {
        let id2 = choose|id2: DependencyID|
            #[trigger] dm.dom().contains(id2) && id2.spec_key() == k;
        assert(dep_id_of_key(id2.spec_key()) == Some(id2));
        assert(dep_of_spec_key(id2.spec_key()) == id2);
    }
    assert forall|id: DependencyID| #[trigger] dep_lookup(m, id) == (if dm.dom().contains(id) {
        Some(JsonData::Str(dm[id]))
    } else {
        Option::<JsonData>::None
    }) by {
        if dm.dom().contains(id) {
            assert(m.dom().contains(id.spec_key()));
            assert(dep_of_spec_key(id.spec_key()) == id);
            assert(m[id.spec_key()] == JsonData::Str(dm[id]));
        } else {
            if m.dom().contains(id.spec_key()) {
                let id2 = choose|id2: DependencyID|
                    #[trigger] dm.dom().contains(id2) && id2.spec_key() == id.spec_key();
                assert(dep_of_spec_key(id2.spec_key()) == id2);
                assert(dep_of_spec_key(id.spec_key()) == id);
                assert(false);
            }
            match id.spec_alias() {
                Some(a) => {
                    if m.dom().contains(a) {
                        let id2 = choose|id2: DependencyID|
                            #[trigger] dm.dom().contains(id2) && id2.spec_key() == a;
                        assert(false);
                    }
                },
                None => {},
            }
        }
    }
    assert(deps_of_obj(m) =~= dm);
}

/// The round-trip law: a well-formed manifest, encoded to JSON and decoded
/// back, is restored exactly, field for field.
pub proof fn lemma_manifest_round_trip(mv: MRPackView)
    requires
        mv.wf(),
    ensures
        spec_decode_manifest(spec_encode_manifest(mv)) == Some(mv),
{
    lemma_manifest_literals();
    lemma_deps_round_trip(mv.dependencies);
    lemma_files_round_trip(mv.files);
    let m = obj_map(spec_encode_manifest(mv));
    assert(m["formatVersion"@] == JsonData::UInt(mv.format_version as u64));
    assert(m["game"@] == JsonData::Str(mv.game));
    assert(m["name"@] == JsonData::Str(mv.name));
    assert(m["versionId"@] == JsonData::Str(mv.version_id));
    assert(m["dependencies"@] == spec_encode_deps(mv.dependencies));
    assert(m["files"@] == JsonData::Arr(spec_encode_files(mv.files)));
    match mv.summary {
        None => {
            assert(!m.dom().contains("summary"@));
        },
        Some(s) => {
            assert(m["summary"@] == JsonData::Str(s));
        },
    }
}

} // verus!
