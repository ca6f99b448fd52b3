use std::io::Write;

use synrinth::errors::ExtractError;
use synrinth::errors::ManifestError;
use synrinth::extract::ArchiveEntry;
use synrinth::extract::FsAction;
use synrinth::extract::manifest_from_entries;
use synrinth::extract::read_archive;
use synrinth::extract::unpack_actions;
use synrinth::extract::write_count;
use synrinth::paths::is_safe_rel_path;
use synrinth::paths::join_path;

fn zip_of(entries: &[(&str, Option<&[u8]>)]) -> Vec<u8> {
    let mut cursor = std::io::Cursor::new(Vec::new());
    let mut w = zip::ZipWriter::new(&mut cursor);
    let opts = zip::write::SimpleFileOptions::default();
    for (name, data) in entries {
        match data {
            None => {
                w.add_directory(*name, opts).unwrap();
            },
            Some(bytes) => {
                w.start_file(*name, opts).unwrap();
                w.write_all(bytes).unwrap();
            },
        }
    }
    w.finish().unwrap();
    cursor.into_inner()
}

#[test]
fn safe_path_rules() {
    assert!(is_safe_rel_path("mods/a.jar"));
    assert!(is_safe_rel_path("config"));
    assert!(is_safe_rel_path("a..b/c"));
    assert!(is_safe_rel_path("mods/"));
    assert!(!is_safe_rel_path(""));
    assert!(!is_safe_rel_path(".."));
    assert!(!is_safe_rel_path("../x"));
    assert!(!is_safe_rel_path("a/../b"));
    assert!(!is_safe_rel_path("a/.."));
    assert!(!is_safe_rel_path("/etc/passwd"));
    assert!(!is_safe_rel_path("\\windows"));
    assert!(!is_safe_rel_path("a\\..\\b"));
}

#[test]
fn join_path_inserts_separator() {
    assert_eq!(join_path("out", "mods/a.jar"), "out/mods/a.jar");
}

#[test]
fn read_archive_reproduces_entry_bytes() {
    let bytes = zip_of(&[
        ("mods/", None),
        ("mods/a.jar", Some(b"0123456789")),
        ("config/x.toml", Some(b"k = 1\n")),
    ]);
    let entries = read_archive(bytes).unwrap();
    assert_eq!(entries.len(), 3);
    assert_eq!(entries[0].name, "mods/");
    assert_eq!(entries[0].data, b"");
    assert_eq!(entries[1].name, "mods/a.jar");
    assert_eq!(entries[1].data, b"0123456789");
    assert_eq!(entries[2].name, "config/x.toml");
    assert_eq!(entries[2].data, b"k = 1\n");
}

#[test]
fn read_archive_rejects_garbage() {
    let r = read_archive(vec![1, 2, 3, 4, 5]);
    assert_eq!(r, Err(ExtractError::MalformedArchive));
}

#[test]
fn unpack_plan_writes_exact_bytes_and_is_repeatable() {
    let bytes = zip_of(&[("mods/", None), ("mods/a.jar", Some(b"0123456789"))]);
    let entries = read_archive(bytes).unwrap();
    let plan = unpack_actions(&entries, "out").unwrap();
    assert_eq!(plan.len(), 2);
    assert_eq!(plan[0], FsAction::MkDir(String::from("out/mods/")));
    assert_eq!(
        plan[1],
        FsAction::WriteFile(String::from("out/mods/a.jar"), b"0123456789".to_vec())
    );
    let again = unpack_actions(&entries, "out").unwrap();
    assert_eq!(plan, again);
    assert_eq!(write_count(&plan), 1);
}

#[test]
fn unpack_plan_rejects_traversal_names() {
    let bytes = zip_of(&[("../evil.txt", Some(b"boom"))]);
    let entries = read_archive(bytes).unwrap();
    let r = unpack_actions(&entries, "out");
    assert_eq!(
        r,
        Err(ExtractError::PathTraversalRejected(String::from("../evil.txt")))
    );
}

#[test]
fn unpack_plan_rejects_absolute_names() {
    let entries = vec![ArchiveEntry { name: String::from("/etc/passwd"), data: vec![1] }];
    let r = unpack_actions(&entries, "out");
    assert_eq!(
        r,
        Err(ExtractError::PathTraversalRejected(String::from("/etc/passwd")))
    );
}

#[test]
fn manifest_entry_is_found_and_decoded() {
    let text = "{\"formatVersion\":1,\"game\":\"minecraft\",\"name\":\"T\",\"versionId\":\"1\",\
                \"dependencies\":{},\"files\":[]}";
    let bytes = zip_of(&[("modrinth.index.json", Some(text.as_bytes()))]);
    let entries = read_archive(bytes).unwrap();
    let m = manifest_from_entries(&entries).unwrap();
    assert_eq!(m.game, "minecraft");
}

#[test]
fn missing_manifest_entry_is_not_found() {
    let bytes = zip_of(&[("mods/a.jar", Some(b"x"))]);
    let entries = read_archive(bytes).unwrap();
    assert_eq!(manifest_from_entries(&entries), Err(ManifestError::NotFound));
}

#[test]
fn manifest_entry_with_invalid_utf8_is_malformed() {
    let entries = vec![ArchiveEntry {
        name: String::from("modrinth.index.json"),
        data: vec![0xff, 0xfe, 0x00],
    }];
    assert_eq!(manifest_from_entries(&entries), Err(ManifestError::Malformed));
}
