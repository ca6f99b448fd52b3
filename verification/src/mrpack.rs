use vstd::prelude::*;
use vstd::string::StringExecFns;

use crate::errors::SynrinthErr;
use crate::strutil::str_eq;

verus! {

/// The manifest format version this library understands.
pub const SUPPORTED_FORMAT_VERSION: u32 = 1;

/// The game or loader component a manifest dependency refers to.
#[derive(Debug, Clone, Copy, PartialEq, Eq, Structural)]
pub enum DependencyID {
    Minecraft,
    Forge,
    Neoforge,
    FabricLoader,
    QuiltLoader,
}

/// Whether a file is needed on one side of the game.
#[derive(Debug, Clone, Copy, PartialEq, Eq, Structural)]
pub enum EnvTypes {
    Required,
    Optional,
    Unsupported,
}

/// Per-side environment requirements of one file.
#[derive(Debug, Clone, Copy, PartialEq, Eq, Structural)]
pub struct Env {
    pub client: EnvTypes,
    pub server: EnvTypes,
}

/// Declared digests of one file's content.
#[derive(Debug, Clone, PartialEq, Eq)]
pub struct FileHashes {
    pub sha1: String,
    pub sha512: String,
    pub other_hashes: Option<Vec<(String, String)>>,
}

/// One manifest-declared file: where it goes, how to check it, and where to
/// get it. `path` is untrusted input and is validated before any join.
#[derive(Debug, Clone, PartialEq, Eq)]
pub struct ModpackFile {
    pub path: String,
    pub hashes: FileHashes,
    pub env: Option<Env>,
    pub downloads: Vec<String>,
    pub file_size: u32,
}

/// A modpack manifest: format version, identity, dependency mapping and the
/// ordered list of files to fetch.
#[derive(Debug, Clone, PartialEq, Eq)]
pub struct MRPack {
    pub dependencies: Vec<(DependencyID, String)>,
    pub files: Vec<ModpackFile>,
    pub format_version: u32,
    pub game: String,
    pub name: String,
    pub version_id: String,
    pub summary: Option<String>,
}

pub ghost struct FileHashesView {
    pub sha1: Seq<char>,
    pub sha512: Seq<char>,
    pub other_hashes: Option<Map<Seq<char>, Seq<char>>>,
}

pub ghost struct ModpackFileView {
    pub path: Seq<char>,
    pub hashes: FileHashesView,
    pub env: Option<Env>,
    pub downloads: Seq<Seq<char>>,
    pub file_size: u32,
}

pub ghost struct MRPackView {
    pub dependencies: Map<DependencyID, Seq<char>>,
    pub files: Seq<ModpackFileView>,
    pub format_version: u32,
    pub game: Seq<char>,
    pub name: Seq<char>,
    pub version_id: Seq<char>,
    pub summary: Option<Seq<char>>,
}

pub open spec fn string_pairs_view(s: Seq<(String, String)>) -> Seq<(Seq<char>, Seq<char>)> {
    s.map_values(|p: (String, String)| (p.0@, p.1@))
}

/// The mapping a list of key/value pairs denotes, a later duplicate key
/// overwriting an earlier one.
pub open spec fn string_pairs_map(s: Seq<(Seq<char>, Seq<char>)>) -> Map<Seq<char>, Seq<char>>
    decreases s.len(),
{
    if s.len() == 0 {
        Map::empty()
    } else {
        string_pairs_map(s.drop_last()).insert(s.last().0, s.last().1)
    }
}

pub open spec fn deps_pairs_view(s: Seq<(DependencyID, String)>) -> Seq<(DependencyID, Seq<char>)> {
    s.map_values(|p: (DependencyID, String)| (p.0, p.1@))
}

/// The mapping a dependency list denotes, a later duplicate overwriting an
/// earlier one.
pub open spec fn deps_map(s: Seq<(DependencyID, Seq<char>)>) -> Map<DependencyID, Seq<char>>
    decreases s.len(),
{
    if s.len() == 0 {
        Map::empty()
    } else {
        deps_map(s.drop_last()).insert(s.last().0, s.last().1)
    }
}

pub open spec fn files_view(s: Seq<ModpackFile>) -> Seq<ModpackFileView> {
    s.map_values(|f: ModpackFile| f@)
}

impl View for FileHashes {
    type V = FileHashesView;

    open spec fn view(&self) -> FileHashesView {
        FileHashesView {
            sha1: self.sha1@,
            sha512: self.sha512@,
            other_hashes: match self.other_hashes {
                Some(v) => Some(string_pairs_map(string_pairs_view(v@))),
                None => None,
            },
        }
    }
}

impl View for ModpackFile {
    type V = ModpackFileView;

    open spec fn view(&self) -> ModpackFileView {
        ModpackFileView {
            path: self.path@,
            hashes: self.hashes@,
            env: self.env,
            downloads: self.downloads.deep_view(),
            file_size: self.file_size,
        }
    }
}

impl View for MRPack {
    type V = MRPackView;

    open spec fn view(&self) -> MRPackView {
        MRPackView {
            dependencies: deps_map(deps_pairs_view(self.dependencies@)),
            files: files_view(self.files@),
            format_version: self.format_version,
            game: self.game@,
            name: self.name@,
            version_id: self.version_id@,
            summary: match self.summary {
                Some(s) => Some(s@),
                None => None,
            },
        }
    }
}

impl MRPackView {
    /// A manifest the decoder could have produced.
    pub open spec fn wf(self) -> bool {
        self.format_version == SUPPORTED_FORMAT_VERSION
    }
}

impl DependencyID {
    /// The canonical manifest key of this dependency kind.
    pub open spec fn spec_key(self) -> Seq<char> {
        match self {
            DependencyID::Minecraft => "minecraft"@,
            DependencyID::Forge => "forge"@,
            DependencyID::Neoforge => "neoforge"@,
            DependencyID::FabricLoader => "fabric-loader"@,
            DependencyID::QuiltLoader => "quilt-loader"@,
        }
    }

    /// The shorthand key some manifests use instead of the canonical one.
    pub open spec fn spec_alias(self) -> Option<Seq<char>> {
        match self {
            DependencyID::FabricLoader => Some("fabric"@),
            DependencyID::QuiltLoader => Some("quilt"@),
            _ => None,
        }
    }

    /// The canonical manifest key of this dependency kind.
    pub fn key(self) -> (r: &'static str)
        ensures
            r@ == self.spec_key(),
    {
        match self {
            DependencyID::Minecraft => "minecraft",
            DependencyID::Forge => "forge",
            DependencyID::Neoforge => "neoforge",
            DependencyID::FabricLoader => "fabric-loader",
            DependencyID::QuiltLoader => "quilt-loader",
        }
    }

    /// Parses a dependency key, accepting the canonical names and the
    /// `fabric`/`quilt` shorthands; any other key is rejected.
    pub fn try_from(value: &str) -> (r: Result<DependencyID, SynrinthErr>)
        ensures
            r matches Ok(id) ==> dep_id_of_key(value@) == Some(id),
            r matches Err(e) ==> dep_id_of_key(value@) is None && (e matches
            SynrinthErr::InvalidDependency(s) && s@ == value@),
    {
        proof {
            lemma_dep_key_literals();
        }
        if str_eq(value, "minecraft") {
            Ok(DependencyID::Minecraft)
        } else if str_eq(value, "fabric") || str_eq(value, "fabric-loader") {
            Ok(DependencyID::FabricLoader)
        } else if str_eq(value, "neoforge") {
            Ok(DependencyID::Neoforge)
        } else if str_eq(value, "quilt") || str_eq(value, "quilt-loader") {
            Ok(DependencyID::QuiltLoader)
        } else if str_eq(value, "forge") {
            Ok(DependencyID::Forge)
        } else {
            Err(SynrinthErr::InvalidDependency(String::from_str(value)))
        }
    }
}

/// The seven recognized dependency key strings are pairwise distinct; these
/// facts back every proof that tells the keys apart.
pub proof fn lemma_dep_key_literals()
    ensures
        "minecraft"@.len() == 9,
        "forge"@.len() == 5,
        "neoforge"@.len() == 8,
        "fabric"@.len() == 6,
        "fabric-loader"@.len() == 13,
        "quilt"@.len() == 5,
        "quilt-loader"@.len() == 12,
        "forge"@ != "quilt"@,
{
    reveal_strlit("minecraft");
    reveal_strlit("forge");
    reveal_strlit("neoforge");
    reveal_strlit("fabric");
    reveal_strlit("fabric-loader");
    reveal_strlit("quilt");
    reveal_strlit("quilt-loader");
    assert("minecraft"@.len() == 9);
    assert("forge"@.len() == 5);
    assert("neoforge"@.len() == 8);
    assert("fabric"@.len() == 6);
    assert("fabric-loader"@.len() == 13);
    assert("quilt"@.len() == 5);
    assert("quilt-loader"@.len() == 12);
    assert("forge"@[0] == 'f');
    assert("quilt"@[0] == 'q');
}

/// The dependency kind a manifest key string denotes, if any.
pub open spec fn dep_id_of_key(s: Seq<char>) -> Option<DependencyID> {
    if s == "minecraft"@ {
        Some(DependencyID::Minecraft)
    } else if s == "forge"@ {
        Some(DependencyID::Forge)
    } else if s == "neoforge"@ {
        Some(DependencyID::Neoforge)
    } else if s == "fabric"@ || s == "fabric-loader"@ {
        Some(DependencyID::FabricLoader)
    } else if s == "quilt"@ || s == "quilt-loader"@ {
        Some(DependencyID::QuiltLoader)
    } else {
        None
    }
}

} // verus!
