use backuper::command::{sh, CommandOutcome};
use backuper::config::{
    backup_dirs_to_strings, exclude_patterns, gen_exclude_flags, mac_backup_dirs,
    restic_config_to_env, BackupDir, ResticConfig,
};
use backuper::duration::pretty_duration;
use backuper::errors::Error;
use backuper::notify::{completion_message, error_word, failure_headline};
use backuper::strings::{join_strings, u64_to_decimal};

fn s(x: &str) -> String {
    x.to_string()
}

#[test]
fn duration_zero() {
    assert_eq!(pretty_duration(0), "0sec");
}

#[test]
fn duration_under_a_minute() {
    assert_eq!(pretty_duration(59), "59sec");
}

#[test]
fn duration_minutes() {
    assert_eq!(pretty_duration(61), "1min 1sec");
    assert_eq!(pretty_duration(60), "1min 0sec");
    assert_eq!(pretty_duration(3599), "59min 59sec");
}

#[test]
fn duration_hours() {
    assert_eq!(pretty_duration(3661), "1hr 1min 1sec");
    assert_eq!(pretty_duration(3600), "1hr 0min 0sec");
}

#[test]
fn duration_days() {
    assert_eq!(pretty_duration(90000), "1d 1hr 0min 0sec");
    assert_eq!(pretty_duration(86400), "1d 0hr 0min 0sec");
    assert_eq!(pretty_duration(90061), "1d 1hr 1min 1sec");
}

#[test]
fn duration_breakdown_recovers_seconds() {
    // Parse the rendered breakdown back and check it recovers the input.
    for &secs in &[0u64, 1, 59, 60, 61, 3599, 3600, 3661, 86399, 86400, 90000, 123456789] {
        let rendered = pretty_duration(secs);
        let mut total = 0u64;
        for part in rendered.split(' ') {
            let (value, unit): (u64, &str) = if let Some(v) = part.strip_suffix("sec") {
                (v.parse().unwrap(), "sec")
            } else if let Some(v) = part.strip_suffix("min") {
                (v.parse().unwrap(), "min")
            } else if let Some(v) = part.strip_suffix("hr") {
                (v.parse().unwrap(), "hr")
            } else {
                (part.strip_suffix('d').unwrap().parse().unwrap(), "d")
            };
            total += value
                * match unit {
                    "sec" => 1,
                    "min" => 60,
                    "hr" => 3600,
                    _ => 86400,
                };
        }
        assert_eq!(total, secs, "breakdown of {rendered} should recover {secs}");
    }
}

#[test]
fn decimal_rendering() {
    assert_eq!(u64_to_decimal(0), "0");
    assert_eq!(u64_to_decimal(7), "7");
    assert_eq!(u64_to_decimal(10), "10");
    assert_eq!(u64_to_decimal(1234567890), "1234567890");
    assert_eq!(u64_to_decimal(u64::MAX), "18446744073709551615");
}

#[test]
fn exclude_flags_interleave_in_order() {
    let flags = gen_exclude_flags(&vec![s("a"), s("b"), s("c")]);
    assert_eq!(
        flags,
        vec![s("--exclude"), s("a"), s("--exclude"), s("b"), s("--exclude"), s("c")]
    );
}

#[test]
fn exclude_flags_empty() {
    let flags = gen_exclude_flags(&Vec::new());
    assert!(flags.is_empty());
}

#[test]
fn exclude_table_expands_to_double_length() {
    let patterns = exclude_patterns();
    let flags = gen_exclude_flags(&patterns);
    assert_eq!(flags.len(), 2 * patterns.len());
    assert_eq!(flags[0], "--exclude");
    assert_eq!(flags[1], "node_modules/**");
    assert_eq!(flags[21], "target/release/**");
}

fn base_config() -> ResticConfig {
    ResticConfig {
        name: s("NAS REST"),
        restic_repository: s("rest:http://nas/repo"),
        restic_password: s("pw"),
        aws_access_key_id: None,
        aws_secret_access_key: None,
    }
}

#[test]
fn credentials_base_yields_two_pairs() {
    let env = restic_config_to_env(&base_config());
    assert_eq!(
        env,
        vec![
            (s("RESTIC_REPOSITORY"), s("rest:http://nas/repo")),
            (s("RESTIC_PASSWORD"), s("pw")),
        ]
    );
}

#[test]
fn credentials_full_cloud_yields_four_pairs() {
    let mut config = base_config();
    config.aws_access_key_id = Some(s("id"));
    config.aws_secret_access_key = Some(s("secret"));
    let env = restic_config_to_env(&config);
    assert_eq!(env.len(), 4);
    assert_eq!(env[2], (s("AWS_ACCESS_KEY_ID"), s("id")));
    assert_eq!(env[3], (s("AWS_SECRET_ACCESS_KEY"), s("secret")));
}

#[test]
fn credentials_partial_cloud_is_all_or_nothing() {
    let mut only_id = base_config();
    only_id.aws_access_key_id = Some(s("id"));
    assert_eq!(restic_config_to_env(&only_id).len(), 2);

    let mut only_secret = base_config();
    only_secret.aws_secret_access_key = Some(s("secret"));
    assert_eq!(restic_config_to_env(&only_secret).len(), 2);
}

#[test]
fn resolve_home_and_root_targets() {
    let dirs = vec![BackupDir::Home(s("Documents")), BackupDir::Root(s("/etc"))];
    let resolved = backup_dirs_to_strings(&dirs, &Some(s("/Users/me"))).unwrap();
    assert_eq!(resolved, vec![s("/Users/me/Documents"), s("/etc")]);
}

#[test]
fn resolve_fails_atomically_without_home() {
    let dirs = vec![BackupDir::Root(s("/etc")), BackupDir::Home(s("Documents"))];
    let r = backup_dirs_to_strings(&dirs, &None);
    assert_eq!(r, Err(Error::HomeDirUnavailable));
}

#[test]
fn resolve_without_home_is_fine_for_root_only() {
    let dirs = vec![BackupDir::Root(s("/etc"))];
    let r = backup_dirs_to_strings(&dirs, &None).unwrap();
    assert_eq!(r, vec![s("/etc")]);
}

#[test]
fn mac_targets_are_home_relative() {
    let dirs = mac_backup_dirs();
    assert_eq!(dirs.len(), 6);
    match &dirs[0] {
        BackupDir::Home(p) => assert_eq!(p, "Documents"),
        BackupDir::Root(_) => panic!("expected a home-relative target"),
    }
}

#[test]
fn builder_defaults_and_setters() {
    let b = sh(vec![s("echo"), s("hi")]);
    assert_eq!(b.cmd, vec![s("echo"), s("hi")]);
    assert!(b.env.is_empty());
    assert_eq!(b.input, "");
    assert!(!b.show_output);
    assert!(b.check);

    let b = b
        .env(vec![(s("K"), s("V"))])
        .input(s("payload"))
        .show_output()
        .check(false);
    assert_eq!(b.env, vec![(s("K"), s("V"))]);
    assert_eq!(b.input, "payload");
    assert!(b.show_output);
    assert!(!b.check);
}

#[test]
fn command_line_joins_argv_with_spaces() {
    let b = sh(vec![s("restic"), s("backup"), s("--files-from"), s("-")]);
    assert_eq!(b.command_line(), "restic backup --files-from -");
}

#[test]
fn check_enabled_nonzero_exit_fails_with_stderr() {
    let b = sh(vec![s("restic")]);
    let r = b.conclude(CommandOutcome::Exited {
        exit_ok: false,
        stderr: s("repository locked"),
    });
    assert_eq!(r, Err(Error::CommandFailed(s("repository locked"))));
}

#[test]
fn check_disabled_nonzero_exit_succeeds() {
    let b = sh(vec![s("pkill"), s("restic")]).check(false);
    let r = b.conclude(CommandOutcome::Exited {
        exit_ok: false,
        stderr: s("no process found"),
    });
    assert_eq!(r, Ok(()));
}

#[test]
fn zero_exit_succeeds_either_way() {
    let b = sh(vec![s("restic")]);
    assert_eq!(
        b.conclude(CommandOutcome::Exited { exit_ok: true, stderr: s("") }),
        Ok(())
    );
    let b = sh(vec![s("restic")]).check(false);
    assert_eq!(
        b.conclude(CommandOutcome::Exited { exit_ok: true, stderr: s("") }),
        Ok(())
    );
}

#[test]
fn spawn_and_stdin_failures_always_fail() {
    let b = sh(vec![s("restic")]).check(false);
    assert_eq!(
        b.conclude(CommandOutcome::SpawnFailed(s("not found"))),
        Err(Error::SpawnFailed(s("not found")))
    );
    assert_eq!(
        b.conclude(CommandOutcome::StdinUnavailable(s("Failed to get stdin"))),
        Err(Error::StdinUnavailable(s("Failed to get stdin")))
    );
}

#[test]
fn error_messages() {
    assert_eq!(
        Error::ConfigMissing(s("BACKUPER_PASSWORD")).message(),
        "Env var not found: BACKUPER_PASSWORD"
    );
    assert_eq!(Error::HomeDirUnavailable.message(), "Failed to get home dir");
    assert_eq!(Error::SpawnFailed(s("no such file")).message(), "no such file");
    assert_eq!(Error::StdinUnavailable(s("broken pipe")).message(), "broken pipe");
    assert_eq!(Error::CommandFailed(s("stderr text")).message(), "stderr text");
    assert_eq!(Error::CredentialForwardFailure(s("bad list")).message(), "bad list");
}

#[test]
fn join_strings_with_separator() {
    assert_eq!(join_strings(&Vec::new(), "\n"), "");
    assert_eq!(join_strings(&vec![s("a")], "\n"), "a");
    assert_eq!(join_strings(&vec![s("a"), s("b"), s("c")], " "), "a b c");
}

#[test]
fn error_word_agrees_with_count() {
    assert_eq!(error_word(1), "error");
    assert_eq!(error_word(0), "errors");
    assert_eq!(error_word(2), "errors");
}

#[test]
fn completion_message_success() {
    assert_eq!(completion_message(&Vec::new(), 61), "Completed in 1min 1sec");
}

#[test]
fn completion_message_with_failures() {
    let errors = vec![s("[a in 1sec] boom"), s("[b in 2sec] bang")];
    assert_eq!(
        completion_message(&errors, 3),
        "Completed in 3sec\n\n[a in 1sec] boom\n[b in 2sec] bang"
    );
}

#[test]
fn failure_headline_counts() {
    assert_eq!(failure_headline(1), "Backup failed! 1 error");
    assert_eq!(failure_headline(3), "Backup failed! 3 errors");
}
