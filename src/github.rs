//! Whitelist artifacts published by earlier GitHub Actions runs.
use vstd::prelude::*;

verus! {

/// The run whose artifacts are read.
pub struct GithubApi {
    run_id: String,
    repo: String,
}

/// One artifact of a repository, as the GitHub API lists it.
pub struct Artifact {
    pub id: u64,
    pub name: String,
    pub size: u64,
    pub url: String,
}

/// The artifact list of a repository.
pub struct GetAllArtifacts {
    pub total_count: u64,
    pub artifacts: Vec<Artifact>,
}

/// Why a whitelist could not be taken from an artifact archive.
#[derive(Clone, Copy, Debug, PartialEq, Eq, Structural)]
pub enum ArchiveFault {
    /// The bytes are not a ZIP archive.
    InvalidArchive,
    /// The archive holds no entry of that name.
    EntryMissing,
    /// The entry could not be read as text.
    Unreadable,
}

/// The name of the whitelist entry inside an artifact archive.
pub const WHITELIST_ENTRY: &'static str = "whitelist.json";

/// The text of the entry `name` of the ZIP archive `bytes`, if it has one
/// that reads as UTF-8 text.
pub uninterp spec fn archive_entry(bytes: Seq<u8>, name: Seq<char>) -> Option<Seq<char>>;

/// Relies on zip's `ZipArchive::new`, `ZipArchive::by_name` and the entry's
/// `Read` impl: the text of entry `name` depends on the bytes and the name
/// alone.
#[verifier::external_body]
fn read_archive_entry(bytes: &[u8], name: &str) -> (r: Result<String, ArchiveFault>)
    ensures
        r is Ok <==> archive_entry(bytes@, name@) is Some,
        r matches Ok(s) ==> archive_entry(bytes@, name@) == Some(s@),
{
    let mut archive = match zip::ZipArchive::new(std::io::Cursor::new(bytes)) {
        Ok(a) => a,
        Err(_) => return Err(ArchiveFault::InvalidArchive),
    };
    let mut file = match archive.by_name(name) {
        Ok(f) => f,
        Err(zip::result::ZipError::FileNotFound) => return Err(ArchiveFault::EntryMissing),
        Err(_) => return Err(ArchiveFault::Unreadable),
    };
    let mut text = String::new();
    match std::io::Read::read_to_string(&mut file, &mut text) {
        Ok(_) => Ok(text),
        Err(_) => Err(ArchiveFault::Unreadable),
    }
}

/// An artifact holds the whitelist named `name` when it bears that name or
/// is its augmented form `augment_<name>.json`.
pub open spec fn holds_whitelist(artifact_name: Seq<char>, name: Seq<char>) -> bool {
    artifact_name == name || artifact_name == "augment_"@ + name + ".json"@
}

impl GithubApi {
    pub closed spec fn spec_run_id(self) -> Seq<char> {
        self.run_id@
    }

    pub closed spec fn spec_repo(self) -> Seq<char> {
        self.repo@
    }

    pub fn new(run_id: String, repo: String) -> (r: GithubApi)
        ensures
            r.spec_run_id() == run_id@,
            r.spec_repo() == repo@,
    {
        GithubApi { run_id, repo }
    }

    pub fn run_id(&self) -> (r: &String)
        ensures
            r@ == self.spec_run_id(),
    {
        &self.run_id
    }

    /// The repository, as `owner/name`.
    pub fn repo(&self) -> (r: &String)
        ensures
            r@ == self.spec_repo(),
    {
        &self.repo
    }

    /// The position of the first artifact that holds the whitelist `name`,
    /// or `None` when no artifact does.
    pub fn find_whitelist_artifact(artifacts: &Vec<Artifact>, name: &str) -> (r: Option<usize>)
        ensures
            r is None <==> forall|i: int|
                0 <= i < artifacts@.len() ==> !holds_whitelist(#[trigger] artifacts@[i].name@, name@),
            r matches Some(i) ==> i < artifacts@.len() && holds_whitelist(
                artifacts@[i as int].name@,
                name@,
            ) && forall|j: int| 0 <= j < i ==> !holds_whitelist(#[trigger] artifacts@[j].name@, name@),
    {
        let plain = name.to_owned();
        let augmented = String::from_str("augment_").concat(name).concat(".json");
        let mut i: usize = 0;
        while i < artifacts.len()
            invariant
                i <= artifacts@.len(),
                plain@ == name@,
                augmented@ == "augment_"@ + name@ + ".json"@,
                forall|j: int| 0 <= j < i ==> !holds_whitelist(#[trigger] artifacts@[j].name@, name@),
            decreases artifacts.len() - i,
        {
            if artifacts[i].name == plain || artifacts[i].name == augmented {
                return Some(i);
            }
            i = i + 1;
        }
        None
    }

    /// The whitelist text of an artifact archive: its `whitelist.json` entry.
    pub fn whitelist_from_archive(bytes: &[u8]) -> (r: Result<String, ArchiveFault>)
        ensures
            r is Ok <==> archive_entry(bytes@, WHITELIST_ENTRY@) is Some,
            r matches Ok(s) ==> archive_entry(bytes@, WHITELIST_ENTRY@) == Some(s@),
    {
        read_archive_entry(bytes, WHITELIST_ENTRY)
    }
}

} // verus!
