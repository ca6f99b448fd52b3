use synrinth::errors::ManifestError;
use synrinth::errors::SynrinthErr;
use synrinth::manifest::decode_manifest;
use synrinth::manifest::encode_manifest;
use synrinth::manifest::read_manifest_str;
use synrinth::mrpack::DependencyID;
use synrinth::mrpack::Env;
use synrinth::mrpack::EnvTypes;
use synrinth::mrpack::FileHashes;
use synrinth::mrpack::MRPack;
use synrinth::mrpack::ModpackFile;

fn minimal_manifest_text() -> &'static str {
    "{\"formatVersion\":1,\"game\":\"minecraft\",\"name\":\"Test\",\"versionId\":\"1.0\",\
     \"dependencies\":{\"minecraft\":\"1.20.1\"},\
     \"files\":[{\"path\":\"mods/a.jar\",\"hashes\":{\"sha1\":\"aa\",\"sha512\":\"bb\"},\
     \"downloads\":[\"http://host/a.jar\"],\"fileSize\":10}]}"
}

#[test]
fn decode_minimal_manifest() {
    let m = read_manifest_str(minimal_manifest_text()).unwrap();
    assert_eq!(m.format_version, 1);
    assert_eq!(m.game, "minecraft");
    assert_eq!(m.name, "Test");
    assert_eq!(m.version_id, "1.0");
    assert_eq!(m.summary, None);
    assert_eq!(
        m.dependencies,
        vec![(DependencyID::Minecraft, String::from("1.20.1"))]
    );
    assert_eq!(m.files.len(), 1);
    let f = &m.files[0];
    assert_eq!(f.path, "mods/a.jar");
    assert_eq!(f.hashes.sha1, "aa");
    assert_eq!(f.hashes.sha512, "bb");
    assert_eq!(f.hashes.other_hashes, None);
    assert!(f.env.is_none());
    assert_eq!(f.downloads, vec![String::from("http://host/a.jar")]);
    assert_eq!(f.file_size, 10);
}

#[test]
fn decode_rejects_missing_files_field() {
    let text = "{\"formatVersion\":1,\"game\":\"minecraft\",\"name\":\"T\",\
                \"versionId\":\"1\",\"dependencies\":{}}";
    assert_eq!(read_manifest_str(text), Err(ManifestError::Malformed));
}

#[test]
fn decode_rejects_unknown_dependency_key() {
    let text = "{\"formatVersion\":1,\"game\":\"minecraft\",\"name\":\"T\",\"versionId\":\"1\",\
                \"dependencies\":{\"quake\":\"1.0\"},\"files\":[]}";
    assert_eq!(read_manifest_str(text), Err(ManifestError::Malformed));
}

#[test]
fn decode_rejects_unsupported_format_version() {
    let text = "{\"formatVersion\":2,\"game\":\"minecraft\",\"name\":\"T\",\"versionId\":\"1\",\
                \"dependencies\":{},\"files\":[]}";
    assert_eq!(read_manifest_str(text), Err(ManifestError::Malformed));
}

#[test]
fn decode_rejects_invalid_json() {
    assert_eq!(read_manifest_str("{not json"), Err(ManifestError::Malformed));
}

#[test]
fn decode_rejects_bad_env_string() {
    let text = "{\"formatVersion\":1,\"game\":\"minecraft\",\"name\":\"T\",\"versionId\":\"1\",\
                \"dependencies\":{},\"files\":[{\"path\":\"a\",\
                \"hashes\":{\"sha1\":\"x\",\"sha512\":\"y\"},\
                \"env\":{\"client\":\"sometimes\",\"server\":\"required\"},\
                \"downloads\":[\"u\"],\"fileSize\":1}]}";
    assert_eq!(read_manifest_str(text), Err(ManifestError::Malformed));
}

#[test]
fn decode_accepts_empty_downloads_list() {
    let text = "{\"formatVersion\":1,\"game\":\"minecraft\",\"name\":\"T\",\"versionId\":\"1\",\
                \"dependencies\":{},\"files\":[{\"path\":\"a\",\
                \"hashes\":{\"sha1\":\"x\",\"sha512\":\"y\"},\"downloads\":[],\"fileSize\":1}]}";
    let m = read_manifest_str(text).unwrap();
    assert_eq!(m.files[0].downloads.len(), 0);
}

#[test]
fn decode_accepts_dependency_aliases() {
    let text = "{\"formatVersion\":1,\"game\":\"minecraft\",\"name\":\"T\",\"versionId\":\"1\",\
                \"dependencies\":{\"fabric\":\"0.15\",\"quilt\":\"0.21\"},\"files\":[]}";
    let m = read_manifest_str(text).unwrap();
    assert_eq!(
        m.dependencies,
        vec![
            (DependencyID::FabricLoader, String::from("0.15")),
            (DependencyID::QuiltLoader, String::from("0.21")),
        ]
    );
}

#[test]
fn decode_env_and_summary_and_extra_hashes() {
    let text = "{\"formatVersion\":1,\"game\":\"minecraft\",\"name\":\"T\",\"versionId\":\"1\",\
                \"summary\":\"a pack\",\"dependencies\":{\"forge\":\"47\"},\
                \"files\":[{\"path\":\"mods/b.jar\",\
                \"hashes\":{\"sha1\":\"x\",\"sha512\":\"y\",\
                \"other_hashes\":{\"md5\":\"z\"}},\
                \"env\":{\"client\":\"required\",\"server\":\"unsupported\"},\
                \"downloads\":[\"u1\",\"u2\"],\"fileSize\":77}]}";
    let m = read_manifest_str(text).unwrap();
    assert_eq!(m.summary, Some(String::from("a pack")));
    assert_eq!(m.dependencies, vec![(DependencyID::Forge, String::from("47"))]);
    let f = &m.files[0];
    assert_eq!(
        f.env,
        Some(Env { client: EnvTypes::Required, server: EnvTypes::Unsupported })
    );
    assert_eq!(
        f.hashes.other_hashes,
        Some(vec![(String::from("md5"), String::from("z"))])
    );
    assert_eq!(f.downloads, vec![String::from("u1"), String::from("u2")]);
}

#[test]
fn decode_treats_null_summary_as_absent() {
    let text = "{\"formatVersion\":1,\"game\":\"minecraft\",\"name\":\"T\",\"versionId\":\"1\",\
                \"summary\":null,\"dependencies\":{},\"files\":[]}";
    let m = read_manifest_str(text).unwrap();
    assert_eq!(m.summary, None);
}

fn sample_pack() -> MRPack {
    MRPack {
        dependencies: vec![
            (DependencyID::Minecraft, String::from("1.20.1")),
            (DependencyID::FabricLoader, String::from("0.15.3")),
        ],
        files: vec![ModpackFile {
            path: String::from("mods/a.jar"),
            hashes: FileHashes {
                sha1: String::from("aa"),
                sha512: String::from("bb"),
                other_hashes: Some(vec![(String::from("md5"), String::from("cc"))]),
            },
            env: Some(Env { client: EnvTypes::Required, server: EnvTypes::Optional }),
            downloads: vec![String::from("http://host/a.jar")],
            file_size: 10,
        }],
        format_version: 1,
        game: String::from("minecraft"),
        name: String::from("Test"),
        version_id: String::from("1.0"),
        summary: Some(String::from("a pack")),
    }
}

#[test]
fn encode_then_decode_round_trips() {
    let m = sample_pack();
    let v = encode_manifest(&m);
    let m2 = decode_manifest(&v).unwrap();
    assert_eq!(m2, m);
}

#[test]
fn encode_produces_expected_json() {
    let m = sample_pack();
    let v = encode_manifest(&m);
    let expected: serde_json::Value = serde_json::from_str(
        "{\"formatVersion\":1,\"game\":\"minecraft\",\"name\":\"Test\",\"versionId\":\"1.0\",\
         \"summary\":\"a pack\",\
         \"dependencies\":{\"minecraft\":\"1.20.1\",\"fabric-loader\":\"0.15.3\"},\
         \"files\":[{\"path\":\"mods/a.jar\",\
         \"hashes\":{\"sha1\":\"aa\",\"sha512\":\"bb\",\"other_hashes\":{\"md5\":\"cc\"}},\
         \"downloads\":[\"http://host/a.jar\"],\"fileSize\":10,\
         \"env\":{\"client\":\"required\",\"server\":\"optional\"}}]}",
    )
    .unwrap();
    assert_eq!(v, expected);
}

#[test]
fn dependency_key_parsing() {
    assert_eq!(DependencyID::try_from("minecraft"), Ok(DependencyID::Minecraft));
    assert_eq!(DependencyID::try_from("forge"), Ok(DependencyID::Forge));
    assert_eq!(DependencyID::try_from("neoforge"), Ok(DependencyID::Neoforge));
    assert_eq!(DependencyID::try_from("fabric"), Ok(DependencyID::FabricLoader));
    assert_eq!(DependencyID::try_from("fabric-loader"), Ok(DependencyID::FabricLoader));
    assert_eq!(DependencyID::try_from("quilt"), Ok(DependencyID::QuiltLoader));
    assert_eq!(DependencyID::try_from("quilt-loader"), Ok(DependencyID::QuiltLoader));
    assert_eq!(
        DependencyID::try_from("quake"),
        Err(SynrinthErr::InvalidDependency(String::from("quake")))
    );
}
