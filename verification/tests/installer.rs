use std::io::Write;

use synrinth::errors::FetchError;
use synrinth::errors::InstallError;
use synrinth::fetch::check_status;
use synrinth::fetch::plan_fetch;
use synrinth::install::InstallPhase;
use synrinth::install::Installer;
use synrinth::install::plan_install;
use synrinth::extract::write_count;
use synrinth::mrpack::FileHashes;
use synrinth::mrpack::ModpackFile;

fn entry(path: &str, downloads: &[&str]) -> ModpackFile {
    ModpackFile {
        path: String::from(path),
        hashes: FileHashes {
            sha1: String::from("aa"),
            sha512: String::from("bb"),
            other_hashes: None,
        },
        env: None,
        downloads: downloads.iter().map(|u| String::from(*u)).collect(),
        file_size: 10,
    }
}

fn pack_zip(manifest: &str, overrides: &[(&str, &[u8])]) -> Vec<u8> {
    let mut cursor = std::io::Cursor::new(Vec::new());
    let mut w = zip::ZipWriter::new(&mut cursor);
    let opts = zip::write::SimpleFileOptions::default();
    w.start_file("modrinth.index.json", opts).unwrap();
    w.write_all(manifest.as_bytes()).unwrap();
    for (name, data) in overrides {
        w.start_file(*name, opts).unwrap();
        w.write_all(data).unwrap();
    }
    w.finish().unwrap();
    cursor.into_inner()
}

#[test]
fn plan_fetch_takes_first_url_and_joins_path() {
    let f = entry("mods/a.jar", &["http://host/a.jar", "http://mirror/a.jar"]);
    let p = plan_fetch(&f, "inst").unwrap();
    assert_eq!(p.url, "http://host/a.jar");
    assert_eq!(p.dest, "inst/mods/a.jar");
}

#[test]
fn plan_fetch_rejects_empty_downloads() {
    let f = entry("mods/a.jar", &[]);
    assert_eq!(
        plan_fetch(&f, "inst"),
        Err(FetchError::NoDownloads(String::from("mods/a.jar")))
    );
}

#[test]
fn plan_fetch_rejects_escaping_path() {
    let f = entry("../../outside.jar", &["http://host/a.jar"]);
    assert_eq!(
        plan_fetch(&f, "inst"),
        Err(FetchError::PathTraversalRejected(String::from("../../outside.jar")))
    );
}

#[test]
fn status_classification() {
    assert_eq!(check_status(200), Ok(()));
    assert_eq!(check_status(204), Ok(()));
    assert_eq!(check_status(299), Ok(()));
    assert_eq!(check_status(404), Err(FetchError::HttpStatus(404)));
    assert_eq!(check_status(301), Err(FetchError::HttpStatus(301)));
    assert_eq!(check_status(500), Err(FetchError::HttpStatus(500)));
}

#[test]
fn minimal_pack_installs_to_mods_dir() {
    let manifest = "{\"formatVersion\":1,\"game\":\"minecraft\",\"name\":\"Test\",\
                    \"versionId\":\"1.0\",\"dependencies\":{\"minecraft\":\"1.20.1\"},\
                    \"files\":[{\"path\":\"mods/a.jar\",\
                    \"hashes\":{\"sha1\":\"aa\",\"sha512\":\"bb\"},\
                    \"downloads\":[\"http://host/a.jar\"],\"fileSize\":10}]}";
    let bytes = pack_zip(manifest, &[]);
    let plan = plan_install(bytes, "inst").unwrap();

    assert_eq!(plan.manifest.name, "Test");
    assert_eq!(plan.fetches.len(), 1);
    assert_eq!(plan.fetches[0].url, "http://host/a.jar");
    assert_eq!(plan.fetches[0].dest, "inst/mods/a.jar");

    // Drive one run, standing in for the transport: the server answers 200
    // with a ten-byte body, which lands at the planned destination.
    let mut disk: Vec<(String, Vec<u8>)> = Vec::new();
    let mut run = Installer::new();
    run.on_extracted(write_count(&plan.actions));
    run.on_manifest(plan.manifest.clone());
    while let Some(i) = run.next_fetch_index() {
        let target = &plan.fetches[i];
        assert_eq!(check_status(200), Ok(()));
        let body: Vec<u8> = b"0123456789".to_vec();
        disk.push((target.dest.clone(), body));
        run.on_fetch_done();
    }
    let summary = run.finish();
    assert_eq!(summary.files_fetched, 1);
    assert_eq!(summary.files_extracted, 1);
    assert_eq!(disk.len(), 1);
    assert_eq!(disk[0].0, "inst/mods/a.jar");
    assert_eq!(disk[0].1.len(), 10);
}

#[test]
fn empty_downloads_fail_before_any_fetch() {
    let manifest = "{\"formatVersion\":1,\"game\":\"minecraft\",\"name\":\"T\",\
                    \"versionId\":\"1\",\"dependencies\":{},\
                    \"files\":[{\"path\":\"mods/a.jar\",\
                    \"hashes\":{\"sha1\":\"aa\",\"sha512\":\"bb\"},\
                    \"downloads\":[],\"fileSize\":10}]}";
    let bytes = pack_zip(manifest, &[]);
    let r = plan_install(bytes, "inst");
    assert_eq!(
        r.err(),
        Some(InstallError::Fetch(
            0,
            FetchError::NoDownloads(String::from("mods/a.jar"))
        ))
    );
}

#[test]
fn http_404_aborts_remaining_entries() {
    let manifest = "{\"formatVersion\":1,\"game\":\"minecraft\",\"name\":\"T\",\
                    \"versionId\":\"1\",\"dependencies\":{},\
                    \"files\":[{\"path\":\"mods/a.jar\",\
                    \"hashes\":{\"sha1\":\"aa\",\"sha512\":\"bb\"},\
                    \"downloads\":[\"http://host/a.jar\"],\"fileSize\":10},\
                    {\"path\":\"mods/b.jar\",\
                    \"hashes\":{\"sha1\":\"cc\",\"sha512\":\"dd\"},\
                    \"downloads\":[\"http://host/b.jar\"],\"fileSize\":10}]}";
    let bytes = pack_zip(manifest, &[]);
    let plan = plan_install(bytes, "inst").unwrap();
    assert_eq!(plan.fetches.len(), 2);

    let mut fetched: usize = 0;
    let mut run = Installer::new();
    run.on_extracted(plan.actions.len());
    run.on_manifest(plan.manifest.clone());
    let mut outcome: Option<InstallError> = None;
    while let Some(_i) = run.next_fetch_index() {
        // The server answers the first request with 404; the run aborts
        // there and the second entry is never requested.
        match check_status(404) {
            Ok(()) => {
                fetched += 1;
                run.on_fetch_done();
            },
            Err(e) => {
                outcome = Some(run.on_fetch_failed(e));
                break;
            },
        }
    }
    assert_eq!(fetched, 0);
    assert_eq!(
        outcome,
        Some(InstallError::Fetch(0, FetchError::HttpStatus(404)))
    );
    assert_eq!(run.phase, InstallPhase::Failed);
}

#[test]
fn install_plan_tags_archive_failures() {
    let r = plan_install(vec![9, 9, 9], "inst");
    assert_eq!(
        r.err(),
        Some(InstallError::Extract(synrinth::errors::ExtractError::MalformedArchive))
    );
}

#[test]
fn install_plan_tags_missing_manifest() {
    let mut cursor = std::io::Cursor::new(Vec::new());
    let mut w = zip::ZipWriter::new(&mut cursor);
    let opts = zip::write::SimpleFileOptions::default();
    w.start_file("mods/a.jar", opts).unwrap();
    w.write_all(b"x").unwrap();
    w.finish().unwrap();
    let r = plan_install(cursor.into_inner(), "inst");
    assert_eq!(
        r.err(),
        Some(InstallError::Manifest(synrinth::errors::ManifestError::NotFound))
    );
}

#[test]
fn install_plan_covers_override_files() {
    let manifest = "{\"formatVersion\":1,\"game\":\"minecraft\",\"name\":\"T\",\
                    \"versionId\":\"1\",\"dependencies\":{},\"files\":[]}";
    let bytes = pack_zip(manifest, &[("overrides/config/x.toml", b"k = 1\n")]);
    let plan = plan_install(bytes, "inst").unwrap();
    assert_eq!(plan.actions.len(), 2);
    assert_eq!(write_count(&plan.actions), 2);
    assert_eq!(plan.fetches.len(), 0);
}
