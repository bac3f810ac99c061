use std::io::Write;

use flodviddar::github::{ArchiveFault, Artifact, GetAllArtifacts, GithubApi};

fn artifact(id: u64, name: &str) -> Artifact {
    Artifact { id, name: name.to_string(), size: 10, url: format!("https://example.invalid/{id}") }
}

fn archive(entry: &str, text: &str) -> Vec<u8> {
    let mut w = zip::ZipWriter::new(std::io::Cursor::new(Vec::new()));
    let opts = zip::write::SimpleFileOptions::default()
        .compression_method(zip::CompressionMethod::Stored);
    w.start_file(entry, opts).unwrap();
    w.write_all(text.as_bytes()).unwrap();
    w.finish().unwrap().into_inner()
}

#[test]
fn api_keeps_run_and_repo() {
    let api = GithubApi::new("77".to_string(), "owner/repo".to_string());
    assert_eq!(api.run_id(), "77");
    assert_eq!(api.repo(), "owner/repo");
}

#[test]
fn finds_first_plain_or_augmented_artifact() {
    let list = GetAllArtifacts {
        total_count: 3,
        artifacts: vec![artifact(1, "other"), artifact(2, "augment_wl.json"), artifact(3, "wl")],
    };
    assert_eq!(GithubApi::find_whitelist_artifact(&list.artifacts, "wl"), Some(1));
    assert_eq!(GithubApi::find_whitelist_artifact(&list.artifacts, "other"), Some(0));
    assert_eq!(GithubApi::find_whitelist_artifact(&list.artifacts, "none"), None);
    assert_eq!(GithubApi::find_whitelist_artifact(&Vec::new(), "wl"), None);
}

#[test]
fn reads_whitelist_entry_from_archive() {
    let bytes = archive("whitelist.json", "{\"rules\":[]}");
    assert_eq!(GithubApi::whitelist_from_archive(&bytes), Ok("{\"rules\":[]}".to_string()));
}

#[test]
fn archive_without_whitelist_entry() {
    let bytes = archive("other.json", "{}");
    assert_eq!(GithubApi::whitelist_from_archive(&bytes), Err(ArchiveFault::EntryMissing));
}

#[test]
fn bytes_that_are_no_archive() {
    assert_eq!(
        GithubApi::whitelist_from_archive(b"not a zip"),
        Err(ArchiveFault::InvalidArchive)
    );
}
