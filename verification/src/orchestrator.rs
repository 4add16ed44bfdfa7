//! Planning one full backup run: loading the destination configurations
//! from the configuration environment, and laying out the fixed sequence of
//! tasks — package upgrades first, then one filesystem backup per
//! destination. Every task runs unconditionally in order; only a missing
//! required configuration variable is fatal and yields no plan at all.

use vstd::prelude::*;
use vstd::string::*;
use crate::command::{sh, ShBuilder};
use crate::config::{
    backup_dirs_to_strings, exclude_patterns, gen_exclude_flags, mac_backup_dirs,
    restic_config_to_env, spec_cloud_views, spec_exclude_flag_views, spec_exclude_patterns,
    spec_mac_backup_dirs, spec_needs_home, spec_resolved_dir, spec_restic_env, BackupDir,
    ResticConfig,
};
use crate::errors::Error;
use crate::strings::{join_strings, spec_join, views_of};

verus! {

/// One planned, independently failable unit of work: a display name, an
/// optional destination label for logging, and either the command to run
/// or the failure that planning produced (recorded as the task's own
/// failure when the run reaches it).
#[derive(Debug)]
pub struct TaskSpec {
    pub name: String,
    pub destination: Option<String>,
    pub command: Result<ShBuilder, Error>,
}

/// The fixed lead of every backup invocation: the tool, its subcommand,
/// the targets fed over standard input, and cache-directory exclusion.
pub open spec fn spec_base_restic_cmd() -> Seq<Seq<char>> {
    seq!["restic"@, "backup"@, "--files-from"@, "-"@, "--exclude-caches"@]
}

/// The whole argument vector of one backup invocation: the fixed lead,
/// the extra arguments, then the expanded exclude flags.
pub open spec fn spec_restic_cmd(extra: Seq<Seq<char>>, patterns: Seq<Seq<char>>) -> Seq<
    Seq<char>,
> {
    spec_base_restic_cmd() + extra + spec_exclude_flag_views(patterns)
}

/// The absolute paths the symbolic targets resolve to.
pub open spec fn spec_resolved_dirs(dirs: Seq<BackupDir>, home: Option<String>) -> Seq<Seq<char>> {
    Seq::new(dirs.len(), |i: int| spec_resolved_dir(dirs[i], home))
}

/// Builds the command specification for one filesystem backup: the backup
/// tool's argument vector with the extra arguments and the exclude flags,
/// the resolved targets joined by newlines as the standard-input payload,
/// the destination's derived environment, live output, and the checking
/// failure policy. Fails, with no partial command, exactly when a target
/// needs the home directory and it is unavailable.
pub fn backup_filesystem_to(
    file_patterns: &Vec<BackupDir>,
    config: &ResticConfig,
    extra_restic_args: &Vec<String>,
    patterns: &Vec<String>,
    home: &Option<String>,
) -> (r: Result<ShBuilder, Error>)
    ensures
        r is Err <==> (*home) is None && spec_needs_home(file_patterns@),
        r matches Err(e) ==> e == Error::HomeDirUnavailable,
        r matches Ok(b) ==> {
            &&& views_of(b.cmd@) == spec_restic_cmd(
                views_of(extra_restic_args@),
                views_of(patterns@),
            )
            &&& spec_restic_env(
                config.restic_repository@,
                config.restic_password@,
                spec_cloud_views(*config),
                b.env@,
            )
            &&& b.input@ == spec_join(spec_resolved_dirs(file_patterns@, *home), "\n"@)
            &&& b.show_output == true
            &&& b.check == true
        },
{
    let mut restic_args: Vec<String> = Vec::new();
    restic_args.push(String::from_str("restic"));
    restic_args.push(String::from_str("backup"));
    restic_args.push(String::from_str("--files-from"));
    restic_args.push(String::from_str("-"));
    restic_args.push(String::from_str("--exclude-caches"));
    proof {
        assert(views_of(restic_args@) =~= spec_base_restic_cmd());
    }
    let mut i: usize = 0;
    while i < extra_restic_args.len()
        invariant
            i <= extra_restic_args@.len(),
            views_of(restic_args@) == spec_base_restic_cmd() + views_of(
                extra_restic_args@.take(i as int),
            ),
        decreases extra_restic_args@.len() - i,
    {
        let ghost pre = restic_args@;
        restic_args.push(extra_restic_args[i].clone());
        proof {
            let x = extra_restic_args@[i as int];
            crate::strings::lemma_views_of_push(pre, x);
            crate::strings::lemma_views_of_push(extra_restic_args@.take(i as int), x);
            assert(extra_restic_args@.take(i as int + 1) =~= extra_restic_args@.take(
                i as int,
            ).push(x));
            assert(views_of(restic_args@) =~= spec_base_restic_cmd() + views_of(
                extra_restic_args@.take(i as int + 1),
            ));
        }
        i += 1;
    }
    proof {
        assert(extra_restic_args@.take(extra_restic_args@.len() as int) =~= extra_restic_args@);
    }
    let flags = gen_exclude_flags(patterns);
    let mut j: usize = 0;
    while j < flags.len()
        invariant
            j <= flags@.len(),
            views_of(flags@) == spec_exclude_flag_views(views_of(patterns@)),
            views_of(restic_args@) == spec_base_restic_cmd() + views_of(extra_restic_args@)
                + views_of(flags@).take(j as int),
        decreases flags@.len() - j,
    {
        let ghost pre = restic_args@;
        restic_args.push(flags[j].clone());
        proof {
            let x = flags@[j as int];
            crate::strings::lemma_views_of_push(pre, x);
            assert(views_of(flags@)[j as int] == x@);
            assert(views_of(flags@).take(j as int + 1) =~= views_of(flags@).take(
                j as int,
            ).push(x@));
            assert(views_of(restic_args@) =~= spec_base_restic_cmd() + views_of(
                extra_restic_args@,
            ) + views_of(flags@).take(j as int + 1));
        }
        j += 1;
    }
    proof {
        assert(views_of(flags@).take(views_of(flags@).len() as int) =~= views_of(flags@));
        assert(views_of(restic_args@) =~= spec_restic_cmd(
            views_of(extra_restic_args@),
            views_of(patterns@),
        ));
    }
    let dirs = match backup_dirs_to_strings(file_patterns, home) {
        Ok(v) => v,
        Err(e) => {
            return Err(e);
        },
    };
    proof {
        assert(views_of(dirs@) =~= spec_resolved_dirs(file_patterns@, *home));
    }
    let input_payload = join_strings(&dirs, "\n");
    let env_pairs = restic_config_to_env(config);
    Ok(sh(restic_args).env(env_pairs).input(input_payload).show_output())
}

/// What the package-upgrade task looks like: named `macOS Upgrades`, no
/// destination, and the package manager's upgrade command with live
/// output under the checking failure policy.
pub open spec fn spec_upgrade_task(t: TaskSpec) -> bool {
    &&& t.name@ == "macOS Upgrades"@
    &&& t.destination is None
    &&& t.command matches Ok(b) && {
        &&& views_of(b.cmd@) == seq!["brew"@, "upgrade"@]
        &&& b.env@.len() == 0
        &&& b.input@.len() == 0
        &&& b.show_output == true
        &&& b.check == true
    }
}

/// The command that runs the operating-system package upgrades, with its
/// output streamed live so progress stays visible.
pub fn do_macos_upgrades() -> (r: ShBuilder)
    ensures
        views_of(r.cmd@) == seq!["brew"@, "upgrade"@],
        r.env@.len() == 0,
        r.input@.len() == 0,
        r.show_output == true,
        r.check == true,
{
    let mut cmd: Vec<String> = Vec::new();
    cmd.push(String::from_str("brew"));
    cmd.push(String::from_str("upgrade"));
    proof {
        assert(views_of(cmd@) =~= seq!["brew"@, "upgrade"@]);
    }
    sh(cmd).show_output()
}

/// What one planned macOS filesystem-backup task looks like, for a
/// destination with the given label, repository, passphrase and optional
/// cloud credential pair: the fixed targets and exclude table, tagged
/// `macOS`, or the atomic resolution failure when the home directory is
/// unavailable.
pub open spec fn spec_macos_backup_task(
    t: TaskSpec,
    label: Seq<char>,
    repo: Seq<char>,
    pass: Seq<char>,
    cloud: Option<(Seq<char>, Seq<char>)>,
    home: Option<String>,
) -> bool {
    &&& t.name@ == "Backup macOS Filesystem"@
    &&& t.destination matches Some(d) && d@ == label
    &&& match home {
        None => t.command matches Err(e) && e == Error::HomeDirUnavailable,
        Some(h) => t.command matches Ok(b) && {
            &&& views_of(b.cmd@) == spec_restic_cmd(
                seq!["--tag"@, "macOS"@],
                spec_exclude_patterns(),
            )
            &&& spec_restic_env(repo, pass, cloud, b.env@)
            &&& b.input@ == spec_join(
                spec_mac_backup_dirs().map_values(|rel: Seq<char>| h@ + "/"@ + rel),
                "\n"@,
            )
            &&& b.show_output == true
            &&& b.check == true
        },
    }
}

/// Plans the backup of the fixed macOS targets to one destination, as one
/// named task that the run records like any other.
pub fn do_backup_macos(cloud_config: &ResticConfig, home: &Option<String>) -> (r: TaskSpec)
    ensures
        spec_macos_backup_task(
            r,
            cloud_config.name@,
            cloud_config.restic_repository@,
            cloud_config.restic_password@,
            spec_cloud_views(*cloud_config),
            *home,
        ),
{
    let dirs = mac_backup_dirs();
    let patterns = exclude_patterns();
    let mut extra: Vec<String> = Vec::new();
    extra.push(String::from_str("--tag"));
    extra.push(String::from_str("macOS"));
    proof {
        assert(views_of(extra@) =~= seq!["--tag"@, "macOS"@]);
        assert(dirs@[0] is Home);
        if (*home) is Some {
            let h = (*home)->0;
            assert(spec_resolved_dirs(dirs@, *home) =~= spec_mac_backup_dirs().map_values(
                |rel: Seq<char>| h@ + "/"@ + rel,
            ));
        }
    }
    let command = backup_filesystem_to(&dirs, cloud_config, &extra, &patterns, home);
    TaskSpec {
        name: String::from_str("Backup macOS Filesystem"),
        destination: Some(cloud_config.name.clone()),
        command,
    }
}

/// The configuration environment of a run: the value of each variable the
/// run consumes, `None` where the variable is unset.
pub struct BackupEnv {
    pub nas_repository: Option<String>,
    pub password: Option<String>,
    pub aws_repository: Option<String>,
    pub aws_access_key_id: Option<String>,
    pub aws_secret_access_key: Option<String>,
}

/// The name of the first required variable that is unset, if any, in the
/// order the run reads them.
pub open spec fn spec_first_missing(env: BackupEnv) -> Option<Seq<char>> {
    if env.nas_repository is None {
        Some("BACKUPER_NAS_REPOSITORY"@)
    } else if env.password is None {
        Some("BACKUPER_PASSWORD"@)
    } else if env.aws_repository is None {
        Some("BACKUPER_AWS_REPOSITORY"@)
    } else if env.aws_access_key_id is None {
        Some("BACKUPER_AWS_ACCESS_KEY_ID"@)
    } else if env.aws_secret_access_key is None {
        Some("BACKUPER_AWS_SECRET_ACCESS_KEY"@)
    } else {
        None
    }
}

/// Reads one required configuration value, failing with the variable's
/// name when it is unset.
pub fn get_env_var(value: &Option<String>, var: &str) -> (r: Result<String, Error>)
    ensures
        (*value) matches Some(v) ==> (r matches Ok(s) && s@ == v@),
        (*value) is None ==> (r matches Err(e) && e matches Error::ConfigMissing(n) && n@
            == var@),
{
    match value {
        Some(v) => Ok(v.clone()),
        None => Err(Error::ConfigMissing(String::from_str(var))),
    }
}

/// Assembles the two backup destinations — the NAS repository and the
/// cloud repository — from the configuration environment. Fails with the
/// first missing required variable's name, before any task starts.
pub fn backup_configs(env: &BackupEnv) -> (r: Result<Vec<ResticConfig>, Error>)
    ensures
        r is Err <==> spec_first_missing(*env) is Some,
        r matches Err(e) ==> e matches Error::ConfigMissing(v) && v@ == spec_first_missing(
            *env,
        )->0,
        r matches Ok(configs) ==> {
            &&& configs@.len() == 2
            &&& configs@[0].name@ == "NAS REST"@
            &&& configs@[0].restic_repository@ == env.nas_repository->0@
            &&& configs@[0].restic_password@ == env.password->0@
            &&& configs@[0].aws_access_key_id is None
            &&& configs@[0].aws_secret_access_key is None
            &&& configs@[1].name@ == "Cloud B2"@
            &&& configs@[1].restic_repository@ == env.aws_repository->0@
            &&& configs@[1].restic_password@ == env.password->0@
            &&& configs@[1].aws_access_key_id matches Some(k) && k@ == env.aws_access_key_id->0@
            &&& configs@[1].aws_secret_access_key matches Some(s) && s@
                == env.aws_secret_access_key->0@
        },
{
    let nas_repository = match get_env_var(&env.nas_repository, "BACKUPER_NAS_REPOSITORY") {
        Ok(v) => v,
        Err(e) => {
            return Err(e);
        },
    };
    let nas_password = match get_env_var(&env.password, "BACKUPER_PASSWORD") {
        Ok(v) => v,
        Err(e) => {
            return Err(e);
        },
    };
    let aws_repository = match get_env_var(&env.aws_repository, "BACKUPER_AWS_REPOSITORY") {
        Ok(v) => v,
        Err(e) => {
            return Err(e);
        },
    };
    let aws_password = match get_env_var(&env.password, "BACKUPER_PASSWORD") {
        Ok(v) => v,
        Err(e) => {
            return Err(e);
        },
    };
    let aws_access_key_id = match get_env_var(
        &env.aws_access_key_id,
        "BACKUPER_AWS_ACCESS_KEY_ID",
    ) {
        Ok(v) => v,
        Err(e) => {
            return Err(e);
        },
    };
    let aws_secret_access_key = match get_env_var(
        &env.aws_secret_access_key,
        "BACKUPER_AWS_SECRET_ACCESS_KEY",
    ) {
        Ok(v) => v,
        Err(e) => {
            return Err(e);
        },
    };
    let nas_config = ResticConfig {
        name: String::from_str("NAS REST"),
        restic_repository: nas_repository,
        restic_password: nas_password,
        aws_access_key_id: None,
        aws_secret_access_key: None,
    };
    let cloud_config = ResticConfig {
        name: String::from_str("Cloud B2"),
        restic_repository: aws_repository,
        restic_password: aws_password,
        aws_access_key_id: Some(aws_access_key_id),
        aws_secret_access_key: Some(aws_secret_access_key),
    };
    let mut configs: Vec<ResticConfig> = Vec::new();
    configs.push(nas_config);
    configs.push(cloud_config);
    Ok(configs)
}

/// Plans one full run: the package-upgrade task, then one backup task per
/// destination, in fixed order. The surrounding binary executes each
/// task's command in sequence and records every outcome; nothing here
/// aborts the plan once it exists. Fails, and yields no plan, exactly
/// when a required configuration variable is missing.
pub fn do_backup(env: &BackupEnv, home: &Option<String>) -> (r: Result<Vec<TaskSpec>, Error>)
    ensures
        r is Err <==> spec_first_missing(*env) is Some,
        r matches Err(e) ==> e matches Error::ConfigMissing(v) && v@ == spec_first_missing(
            *env,
        )->0,
        r matches Ok(tasks) ==> {
            &&& tasks@.len() == 3
            &&& spec_upgrade_task(tasks@[0])
            &&& spec_macos_backup_task(
                tasks@[1],
                "NAS REST"@,
                env.nas_repository->0@,
                env.password->0@,
                None,
                *home,
            )
            &&& spec_macos_backup_task(
                tasks@[2],
                "Cloud B2"@,
                env.aws_repository->0@,
                env.password->0@,
                Some((env.aws_access_key_id->0@, env.aws_secret_access_key->0@)),
                *home,
            )
        },
{
    let configs = match backup_configs(env) {
        Ok(c) => c,
        Err(e) => {
            return Err(e);
        },
    };
    let mut tasks: Vec<TaskSpec> = Vec::new();
    tasks.push(
        TaskSpec {
            name: String::from_str("macOS Upgrades"),
            destination: None,
            command: Ok(do_macos_upgrades()),
        },
    );
    tasks.push(do_backup_macos(&configs[0], home));
    tasks.push(do_backup_macos(&configs[1], home));
    Ok(tasks)
}

} // verus!
