//! Backup configuration as data: symbolic target directories and their
//! resolution to absolute paths, the exclude-pattern table and its flag
//! expansion, and repository credentials with the environment pairs the
//! backup tool needs.

use vstd::prelude::*;
use vstd::string::*;
use crate::errors::Error;
use crate::strings::views_of;

verus! {

/// A symbolic backup target: a path relative to the user's home directory,
/// or an absolute path taken as is.
#[derive(Debug, Clone)]
pub enum BackupDir {
    Home(String),
    Root(String),
}

/// Whether some entry needs the home directory to resolve.
pub open spec fn spec_needs_home(dirs: Seq<BackupDir>) -> bool {
    exists|i: int| 0 <= i < dirs.len() && dirs[i] is Home
}

/// The absolute path an entry resolves to, given the home directory.
pub open spec fn spec_resolved_dir(d: BackupDir, home: Option<String>) -> Seq<char> {
    match d {
        BackupDir::Home(rel) => match home {
            Some(h) => h@ + "/"@ + rel@,
            None => Seq::empty(),
        },
        BackupDir::Root(abs) => abs@,
    }
}

/// Resolves every symbolic target to an absolute path string: home-relative
/// entries are joined to the home directory, absolute entries pass through.
/// Fails atomically, with no partial result, if any entry needs the home
/// directory and it is unavailable.
pub fn backup_dirs_to_strings(backup_dirs: &Vec<BackupDir>, home: &Option<String>) -> (r: Result<
    Vec<String>,
    Error,
>)
    ensures
        r is Err <==> (*home) is None && spec_needs_home(backup_dirs@),
        r matches Err(e) ==> e == Error::HomeDirUnavailable,
        r matches Ok(v) ==> {
            &&& v@.len() == backup_dirs@.len()
            &&& forall|i: int|
                0 <= i < v@.len() ==> v@[i]@ == spec_resolved_dir(backup_dirs@[i], *home)
        },
{
    let mut out: Vec<String> = Vec::new();
    let mut i: usize = 0;
    while i < backup_dirs.len()
        invariant
            i <= backup_dirs@.len(),
            out@.len() == i,
            forall|j: int| 0 <= j < i as int ==> out@[j]@ == spec_resolved_dir(
                backup_dirs@[j],
                *home,
            ),
            forall|j: int| 0 <= j < i as int ==> ((*home) is None ==> !(backup_dirs@[j] is Home)),
        decreases backup_dirs@.len() - i,
    {
        match &backup_dirs[i] {
            BackupDir::Home(rel) => {
                match home {
                    Some(h) => {
                        let mut path = h.clone();
                        path.append("/");
                        path.append(rel.as_str());
                        out.push(path);
                    },
                    None => {
                        return Err(Error::HomeDirUnavailable);
                    },
                }
            },
            BackupDir::Root(abs) => {
                out.push(abs.clone());
            },
        }
        i += 1;
    }
    Ok(out)
}

/// The flag list that a pattern table expands to: the pair
/// `--exclude <pattern>` for each pattern, input order preserved.
pub open spec fn spec_exclude_flag_views(patterns: Seq<Seq<char>>) -> Seq<Seq<char>> {
    Seq::new(
        2 * patterns.len(),
        |k: int|
            if k % 2 == 0 {
                "--exclude"@
            } else {
                patterns[k / 2]
            },
    )
}

/// Expands the exclude patterns into the backup tool's flag list: each
/// pattern becomes the pair `--exclude <pattern>`, input order preserved,
/// so the output is exactly twice as long as the input.
pub fn gen_exclude_flags(patterns: &Vec<String>) -> (r: Vec<String>)
    ensures
        views_of(r@) == spec_exclude_flag_views(views_of(patterns@)),
        r@.len() == 2 * patterns@.len(),
{
    let mut out: Vec<String> = Vec::new();
    let mut i: usize = 0;
    while i < patterns.len()
        invariant
            i <= patterns@.len(),
            out@.len() == 2 * i,
            forall|k: int|
                0 <= k < out@.len() ==> #[trigger] out@[k]@ == if k % 2 == 0 {
                    "--exclude"@
                } else {
                    patterns@[k / 2]@
                },
        decreases patterns@.len() - i,
    {
        out.push(String::from_str("--exclude"));
        out.push(patterns[i].clone());
        i += 1;
    }
    proof {
        assert(views_of(out@) =~= spec_exclude_flag_views(views_of(patterns@)));
    }
    out
}

/// One backup destination: a display name, the repository URI, its
/// passphrase, and optional cloud credentials. Secrets are never rendered
/// by the library.
#[derive(Debug, Clone)]
pub struct ResticConfig {
    pub name: String,
    pub restic_repository: String,
    pub restic_password: String,
    pub aws_access_key_id: Option<String>,
    pub aws_secret_access_key: Option<String>,
}

/// Whether the cloud credential pair is fully present. The derived
/// environment is all-or-nothing: a partially supplied pair is ignored.
pub open spec fn spec_has_cloud_creds(c: ResticConfig) -> bool {
    c.aws_access_key_id is Some && c.aws_secret_access_key is Some
}

/// The cloud credential pair of a configuration, as character sequences,
/// present exactly when both halves were supplied.
pub open spec fn spec_cloud_views(c: ResticConfig) -> Option<(Seq<char>, Seq<char>)> {
    if spec_has_cloud_creds(c) {
        Some((c.aws_access_key_id->0@, c.aws_secret_access_key->0@))
    } else {
        None
    }
}

/// What the derived environment of a destination looks like: repository
/// URI and passphrase always lead, and the cloud credential pair follows
/// exactly when it is fully present — two pairs or four, never three.
pub open spec fn spec_restic_env(
    repo: Seq<char>,
    pass: Seq<char>,
    cloud: Option<(Seq<char>, Seq<char>)>,
    env: Seq<(String, String)>,
) -> bool {
    &&& env.len() == if cloud is Some {
        4int
    } else {
        2int
    }
    &&& env[0].0@ == "RESTIC_REPOSITORY"@ && env[0].1@ == repo
    &&& env[1].0@ == "RESTIC_PASSWORD"@ && env[1].1@ == pass
    &&& cloud matches Some(kv) ==> {
        &&& env[2].0@ == "AWS_ACCESS_KEY_ID"@ && env[2].1@ == kv.0
        &&& env[3].0@ == "AWS_SECRET_ACCESS_KEY"@ && env[3].1@ == kv.1
    }
}

/// Derives the environment pairs the backup tool needs from a destination
/// configuration: repository URI and passphrase always; the cloud
/// credential pair exactly when both of its halves were supplied.
pub fn restic_config_to_env(config: &ResticConfig) -> (r: Vec<(String, String)>)
    ensures
        spec_restic_env(
            config.restic_repository@,
            config.restic_password@,
            spec_cloud_views(*config),
            r@,
        ),
{
    let mut env_pairs: Vec<(String, String)> = Vec::new();
    env_pairs.push(
        (String::from_str("RESTIC_REPOSITORY"), config.restic_repository.clone()),
    );
    env_pairs.push((String::from_str("RESTIC_PASSWORD"), config.restic_password.clone()));
    match (&config.aws_access_key_id, &config.aws_secret_access_key) {
        (Some(key_id), Some(secret)) => {
            env_pairs.push((String::from_str("AWS_ACCESS_KEY_ID"), key_id.clone()));
            env_pairs.push((String::from_str("AWS_SECRET_ACCESS_KEY"), secret.clone()));
        },
        _ => {},
    }
    env_pairs
}

/// The relative paths of the fixed macOS backup targets.
pub open spec fn spec_mac_backup_dirs() -> Seq<Seq<char>> {
    seq![
        "Documents"@,
        "Pictures"@,
        "Music"@,
        "Movies"@,
        "Library/CloudStorage/Dropbox"@,
        "Library/Application Support/Anki2"@,
    ]
}

/// The fixed macOS backup targets, all relative to the home directory.
pub fn mac_backup_dirs() -> (r: Vec<BackupDir>)
    ensures
        r@.len() == spec_mac_backup_dirs().len(),
        forall|i: int|
            0 <= i < r@.len() ==> (#[trigger] r@[i] matches BackupDir::Home(p) && p@
                == spec_mac_backup_dirs()[i]),
{
    let mut dirs: Vec<BackupDir> = Vec::new();
    dirs.push(BackupDir::Home(String::from_str("Documents")));
    dirs.push(BackupDir::Home(String::from_str("Pictures")));
    dirs.push(BackupDir::Home(String::from_str("Music")));
    dirs.push(BackupDir::Home(String::from_str("Movies")));
    dirs.push(BackupDir::Home(String::from_str("Library/CloudStorage/Dropbox")));
    dirs.push(BackupDir::Home(String::from_str("Library/Application Support/Anki2")));
    dirs
}

/// The fixed exclude-pattern table, shared by every operating system.
pub open spec fn spec_exclude_patterns() -> Seq<Seq<char>> {
    seq![
        "node_modules/**"@,
        ".cache/**"@,
        ".vscode/**"@,
        ".npm/**"@,
        ".vscode-server/**"@,
        "*.photoslibrary"@,
        ".DS_Store"@,
        "build*/**"@,
        "Photo Booth Library"@,
        "target/debug/**"@,
        "target/release/**"@,
    ]
}

/// Builds the fixed exclude-pattern table.
pub fn exclude_patterns() -> (r: Vec<String>)
    ensures
        views_of(r@) == spec_exclude_patterns(),
{
    let mut patterns: Vec<String> = Vec::new();
    patterns.push(String::from_str("node_modules/**"));
    patterns.push(String::from_str(".cache/**"));
    patterns.push(String::from_str(".vscode/**"));
    patterns.push(String::from_str(".npm/**"));
    patterns.push(String::from_str(".vscode-server/**"));
    patterns.push(String::from_str("*.photoslibrary"));
    patterns.push(String::from_str(".DS_Store"));
    patterns.push(String::from_str("build*/**"));
    patterns.push(String::from_str("Photo Booth Library"));
    patterns.push(String::from_str("target/debug/**"));
    patterns.push(String::from_str("target/release/**"));
    proof {
        assert(views_of(patterns@) =~= spec_exclude_patterns());
    }
    patterns
}

} // verus!
