use backuper::allowlist::{join_colon_list, split_colon_list, update_allow_list};
use backuper::errors::Error;
use backuper::orchestrator::{
    backup_configs, do_backup, do_backup_macos, do_macos_upgrades, get_env_var, BackupEnv,
};
use backuper::tasks::{record_all, try_task, TaskRecord};

fn s(x: &str) -> String {
    x.to_string()
}

fn full_env() -> BackupEnv {
    BackupEnv {
        nas_repository: Some(s("rest:http://nas/repo")),
        password: Some(s("pw")),
        aws_repository: Some(s("s3:bucket/repo")),
        aws_access_key_id: Some(s("key-id")),
        aws_secret_access_key: Some(s("key-secret")),
    }
}

#[test]
fn try_task_success_leaves_list_untouched() {
    let mut errors: Vec<String> = Vec::new();
    try_task("macOS Upgrades", &Ok(()), 3, &mut errors);
    assert!(errors.is_empty());
}

#[test]
fn try_task_failure_appends_one_formatted_entry() {
    let mut errors = vec![s("earlier")];
    try_task(
        "macOS Upgrades",
        &Err(Error::CommandFailed(s("brew exploded"))),
        61,
        &mut errors,
    );
    assert_eq!(
        errors,
        vec![s("earlier"), s("[macOS Upgrades in 1min 1sec] brew exploded")]
    );
}

#[test]
fn task_isolation_single_failure() {
    // Five tasks; only the third fails: every task still runs, and the
    // error list holds exactly the one entry for the failing task.
    let records: Vec<TaskRecord> = (0..5)
        .map(|k| TaskRecord {
            name: format!("task {k}"),
            result: if k == 2 {
                Err(Error::CommandFailed(s("boom")))
            } else {
                Ok(())
            },
            elapsed_sec: k,
        })
        .collect();
    let mut errors: Vec<String> = Vec::new();
    record_all(&records, &mut errors);
    assert_eq!(errors, vec![s("[task 2 in 2sec] boom")]);
}

#[test]
fn end_to_end_one_failed_upgrade_two_good_backups() {
    // One upgrade task that fails and two backup tasks that succeed: the
    // final error list has exactly one entry, and the notification reports
    // one error with the upgrade task's formatted message.
    let records = vec![
        TaskRecord {
            name: s("macOS Upgrades"),
            result: Err(Error::CommandFailed(s("brew upgrade failed"))),
            elapsed_sec: 2,
        },
        TaskRecord { name: s("Backup macOS Filesystem"), result: Ok(()), elapsed_sec: 10 },
        TaskRecord { name: s("Backup macOS Filesystem"), result: Ok(()), elapsed_sec: 20 },
    ];
    let mut errors: Vec<String> = Vec::new();
    record_all(&records, &mut errors);
    assert_eq!(errors.len(), 1);
    assert_eq!(errors[0], "[macOS Upgrades in 2sec] brew upgrade failed");
    assert_eq!(
        backuper::notify::failure_headline(errors.len()),
        "Backup failed! 1 error"
    );
    assert_eq!(
        backuper::notify::completion_message(&errors, 32),
        "Completed in 32sec\n\n[macOS Upgrades in 2sec] brew upgrade failed"
    );
}

#[test]
fn get_env_var_reports_missing_name() {
    assert_eq!(get_env_var(&Some(s("v")), "X"), Ok(s("v")));
    assert_eq!(
        get_env_var(&None, "BACKUPER_PASSWORD"),
        Err(Error::ConfigMissing(s("BACKUPER_PASSWORD")))
    );
}

#[test]
fn backup_configs_builds_both_destinations() {
    let configs = backup_configs(&full_env()).unwrap();
    assert_eq!(configs.len(), 2);
    assert_eq!(configs[0].name, "NAS REST");
    assert_eq!(configs[0].restic_repository, "rest:http://nas/repo");
    assert_eq!(configs[0].restic_password, "pw");
    assert!(configs[0].aws_access_key_id.is_none());
    assert!(configs[0].aws_secret_access_key.is_none());
    assert_eq!(configs[1].name, "Cloud B2");
    assert_eq!(configs[1].restic_repository, "s3:bucket/repo");
    assert_eq!(configs[1].aws_access_key_id.as_deref(), Some("key-id"));
    assert_eq!(configs[1].aws_secret_access_key.as_deref(), Some("key-secret"));
}

#[test]
fn backup_configs_fails_on_first_missing_variable() {
    let mut env = full_env();
    env.password = None;
    assert_eq!(
        backup_configs(&env).unwrap_err(),
        Error::ConfigMissing(s("BACKUPER_PASSWORD"))
    );
    let mut env = full_env();
    env.nas_repository = None;
    env.password = None;
    assert_eq!(
        backup_configs(&env).unwrap_err(),
        Error::ConfigMissing(s("BACKUPER_NAS_REPOSITORY"))
    );
    let mut env = full_env();
    env.aws_secret_access_key = None;
    assert_eq!(
        backup_configs(&env).unwrap_err(),
        Error::ConfigMissing(s("BACKUPER_AWS_SECRET_ACCESS_KEY"))
    );
}

#[test]
fn upgrade_command_is_brew_upgrade() {
    let b = do_macos_upgrades();
    assert_eq!(b.cmd, vec![s("brew"), s("upgrade")]);
    assert!(b.env.is_empty());
    assert_eq!(b.input, "");
    assert!(b.show_output);
    assert!(b.check);
}

#[test]
fn backup_task_command_is_fully_formed() {
    let configs = backup_configs(&full_env()).unwrap();
    let task = do_backup_macos(&configs[0], &Some(s("/Users/me")));
    assert_eq!(task.name, "Backup macOS Filesystem");
    assert_eq!(task.destination.as_deref(), Some("NAS REST"));
    let b = task.command.unwrap();
    assert_eq!(
        &b.cmd[..7],
        &[
            s("restic"),
            s("backup"),
            s("--files-from"),
            s("-"),
            s("--exclude-caches"),
            s("--tag"),
            s("macOS"),
        ]
    );
    assert_eq!(b.cmd.len(), 7 + 22);
    assert_eq!(b.cmd[7], "--exclude");
    assert_eq!(b.cmd[8], "node_modules/**");
    assert_eq!(
        b.input,
        "/Users/me/Documents\n/Users/me/Pictures\n/Users/me/Music\n/Users/me/Movies\n\
         /Users/me/Library/CloudStorage/Dropbox\n\
         /Users/me/Library/Application Support/Anki2"
    );
    assert_eq!(
        b.env,
        vec![
            (s("RESTIC_REPOSITORY"), s("rest:http://nas/repo")),
            (s("RESTIC_PASSWORD"), s("pw")),
        ]
    );
    assert!(b.show_output);
    assert!(b.check);
}

#[test]
fn backup_task_without_home_fails_as_one_task() {
    let configs = backup_configs(&full_env()).unwrap();
    let task = do_backup_macos(&configs[0], &None);
    assert_eq!(task.command.unwrap_err(), Error::HomeDirUnavailable);
}

#[test]
fn do_backup_plans_three_tasks_in_order() {
    let tasks = do_backup(&full_env(), &Some(s("/Users/me"))).unwrap();
    assert_eq!(tasks.len(), 3);
    assert_eq!(tasks[0].name, "macOS Upgrades");
    assert!(tasks[0].destination.is_none());
    assert_eq!(tasks[0].command.as_ref().unwrap().cmd, vec![s("brew"), s("upgrade")]);
    assert_eq!(tasks[1].name, "Backup macOS Filesystem");
    assert_eq!(tasks[1].destination.as_deref(), Some("NAS REST"));
    assert_eq!(tasks[1].command.as_ref().unwrap().env.len(), 2);
    assert_eq!(tasks[2].destination.as_deref(), Some("Cloud B2"));
    let cloud = tasks[2].command.as_ref().unwrap();
    assert_eq!(cloud.env.len(), 4);
    assert_eq!(cloud.env[2], (s("AWS_ACCESS_KEY_ID"), s("key-id")));
}

#[test]
fn do_backup_fails_fatally_on_missing_config() {
    let mut env = full_env();
    env.aws_repository = None;
    let r = do_backup(&env, &Some(s("/Users/me")));
    assert_eq!(r.unwrap_err(), Error::ConfigMissing(s("BACKUPER_AWS_REPOSITORY")));
}

#[test]
fn split_colon_list_cases() {
    assert!(split_colon_list("").is_empty());
    assert_eq!(split_colon_list("A"), vec![s("A")]);
    assert_eq!(split_colon_list("A:B"), vec![s("A"), s("B")]);
    assert_eq!(split_colon_list("A::B"), vec![s("A"), s(""), s("B")]);
    assert_eq!(split_colon_list("WSLENV:PATH/l"), vec![s("WSLENV"), s("PATH/l")]);
}

#[test]
fn allow_list_forwarding_adds_each_name_once() {
    let existing = split_colon_list("A:B");
    let updated = update_allow_list(
        &existing,
        &vec![s("C"), s("D")],
        &s("WSLENV"),
    );
    assert_eq!(updated, vec![s("A"), s("B"), s("C"), s("D"), s("WSLENV")]);
    assert_eq!(join_colon_list(&updated), "A:B:C:D:WSLENV");
}

#[test]
fn allow_list_forwarding_drops_repeats() {
    let existing = split_colon_list("WSLENV:RESTIC_REPOSITORY");
    let updated = update_allow_list(
        &existing,
        &vec![s("RESTIC_REPOSITORY"), s("RESTIC_PASSWORD"), s("RESTIC_PASSWORD")],
        &s("WSLENV"),
    );
    assert_eq!(
        join_colon_list(&updated),
        "WSLENV:RESTIC_REPOSITORY:RESTIC_PASSWORD"
    );
}

#[test]
fn split_then_join_is_identity() {
    for list in ["A", "A:B", "A::B", "WSLENV:PATH/l:USERPROFILE/p"] {
        assert_eq!(join_colon_list(&split_colon_list(list)), list);
    }
}
