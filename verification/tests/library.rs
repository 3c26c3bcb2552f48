use ptto::cli::{Cli, Command, DbCommand};
use ptto::commands::{dispatch, plan_with_config, resolve_app_for_logs};
use ptto::config::{ConfigSource, PttoConfig};
use ptto::error::PttoError;
use ptto::plan::{Action, Program, RunState, Step};
use ptto::remote::{
    blue_green_deploy_commands, caddyfile_for_port, db_pull_temp, db_push_script, db_push_temp,
    db_shell_script, logs_script, remote_db_path, sudo_prefix, traffic_script,
};
use ptto::shell::shell_quote;
use ptto::ssh::{build_scp_download_args, SshClient};
use ptto::validate::{validate_app_name, validate_domain, validate_systemd_unit_name};

/// Reads a word made of single- and double-quoted parts the way a POSIX shell does.
fn read_quoted_word(word: &str) -> Option<String> {
    let mut out = String::new();
    let mut chars = word.chars();
    while let Some(c) = chars.next() {
        match c {
            '\'' => loop {
                match chars.next()? {
                    '\'' => break,
                    other => out.push(other),
                }
            },
            '"' => loop {
                match chars.next()? {
                    '"' => break,
                    '$' | '`' | '\\' => return None,
                    other => out.push(other),
                }
            },
            _ => return None,
        }
    }
    Some(out)
}

fn exec_steps(steps: &[Step]) -> usize {
    steps
        .iter()
        .filter(|s| matches!(s.action, Action::Exec { .. } | Action::GoBuild { .. }))
        .count()
}

fn printed(steps: &[Step]) -> Vec<String> {
    steps
        .iter()
        .filter_map(|s| match &s.action {
            Action::Print(line) => Some(line.clone()),
            _ => None,
        })
        .collect()
}

fn host_config() -> PttoConfig {
    PttoConfig {
        host: Some("root@host".to_string()),
        domain: Some("example.com".to_string()),
        ..PttoConfig::default()
    }
}

#[test]
fn shell_quote_escapes_single_quotes() {
    assert_eq!(shell_quote(""), "''");
    assert_eq!(shell_quote("plain"), "'plain'");
    assert_eq!(shell_quote("it's"), "'it'\"'\"'s'");
    assert_eq!(shell_quote("$(touch /tmp/pwn)"), "'$(touch /tmp/pwn)'");
}

#[test]
fn shell_quote_reads_back_as_the_value() {
    for value in ["", "a b", "it's", "''", "$HOME `id` \\n", "x'y\"z", "ünï'cødé"] {
        assert_eq!(read_quoted_word(&shell_quote(value)).as_deref(), Some(value));
    }
}

#[test]
fn sudo_prefix_names_the_phase() {
    assert_eq!(
        sudo_prefix("logs"),
        "if [ \"$(id -u)\" -eq 0 ]; then SUDO=\"\"; elif command -v sudo >/dev/null 2>&1; then if sudo -n true >/dev/null 2>&1; then SUDO=\"sudo\"; else echo \"[ptto] error: passwordless sudo is required for non-interactive logs\"; exit 1; fi; else echo \"[ptto] error: root or sudo is required\"; exit 1; fi; "
    );
}

#[test]
fn caddyfile_exact_text() {
    assert_eq!(
        caddyfile_for_port("shop", "shop.example.com", "8080"),
        "shop.example.com {\n    reverse_proxy 127.0.0.1:8080\n    log {\n        output file /var/log/caddy/shop-access.log\n        format console\n    }\n}\n"
    );
}

#[test]
fn logs_script_quotes_the_service() {
    let script = logs_script("web@1.service");
    assert!(script.starts_with("set -eu; if [ \"$(id -u)\""));
    assert!(script.ends_with("; $SUDO journalctl -u 'web@1.service' -f --no-pager"));
}

#[test]
fn apps_get_distinct_paths() {
    let apps = ["ptto-app", "ptto", "a", "b", "ab", "a-b"];
    for x in apps {
        for y in apps {
            if x != y {
                assert_ne!(remote_db_path(x), remote_db_path(y));
            }
        }
    }
    assert_eq!(db_pull_temp("shop"), "/tmp/ptto-db-pull-shop.sqlite");
    assert_eq!(db_push_temp("shop"), "/tmp/ptto-database-shop.sqlite");
}

#[test]
fn domain_validation_error_variants() {
    assert_eq!(validate_domain("example"), Err(PttoError::DomainNotDnsStyle));
    assert_eq!(validate_domain("a..com"), Err(PttoError::DomainLabelLength));
    assert_eq!(validate_domain("example.com."), Err(PttoError::DomainLabelLength));
    assert_eq!(validate_domain("exa_mple.com"), Err(PttoError::DomainLabelChars));
    assert_eq!(validate_domain("*.*.com"), Err(PttoError::DomainLabelChars));
    assert_eq!(validate_domain("bad\u{7f}.com"), Err(PttoError::DomainWhitespace));
    assert_eq!(validate_domain("a.b\u{85}"), Err(PttoError::DomainWhitespace));
    assert_eq!(validate_domain("ex-ample.c0m"), Ok(()));
    let max = format!("{}.{}.{}.{}", "a".repeat(63), "b".repeat(63), "c".repeat(63), "d".repeat(61));
    assert_eq!(max.len(), 253);
    assert_eq!(validate_domain(&max), Ok(()));
    let over = format!("{}.{}", "é".repeat(127), "com");
    assert_eq!(validate_domain(&over), Err(PttoError::DomainLength));
}

#[test]
fn name_validation_error_variants() {
    assert_eq!(validate_app_name(&"a".repeat(64)), Ok(()));
    assert_eq!(validate_app_name(&"a".repeat(65)), Err(PttoError::AppNameLength));
    assert_eq!(validate_app_name("a.b"), Err(PttoError::AppNameChars));
    assert_eq!(validate_systemd_unit_name(""), Err(PttoError::ServiceNameLength));
    assert_eq!(validate_systemd_unit_name(&"s".repeat(257)), Err(PttoError::ServiceNameLength));
    assert_eq!(validate_systemd_unit_name("getty@tty1.service"), Ok(()));
    assert_eq!(validate_systemd_unit_name("a b"), Err(PttoError::ServiceNameChars));
}

#[test]
fn error_messages() {
    assert_eq!(
        PttoError::MissingLocalDatabase("./db.sqlite".to_string()).message(),
        "local database file does not exist: ./db.sqlite"
    );
    assert_eq!(PttoError::ServiceNameLength.message(), "invalid service name: expected 1-256 characters");
    assert_eq!(PttoError::AppNameLength.message(), "invalid app name: expected 1-64 characters");
    assert_eq!(PttoError::MissingDomain.message(), "missing domain: pass --domain or set domain in .ptto.toml");
}

#[test]
fn load_returns_defaults_when_file_missing() {
    let config = PttoConfig::load_from_path(".ptto.toml", ConfigSource::NotFound)
        .expect("load should succeed");
    assert!(config.host.is_none());
    assert!(config.domain.is_none());
    assert!(config.ssh_key.is_none());
}

#[test]
fn load_surfaces_parse_errors_with_context() {
    let err = PttoConfig::load(ConfigSource::ParseFailed("expected `}`".to_string()))
        .expect_err("invalid toml should fail");
    let err_message = err.message();
    assert!(err_message.contains("failed to parse"));
    assert!(err_message.contains(".ptto.toml"));
    assert_eq!(err.cause().as_deref(), Some("expected `}`"));
}

#[test]
fn load_reports_unreadable_file_and_keeps_parsed_values() {
    let err = PttoConfig::load(ConfigSource::ReadFailed("permission denied".to_string()))
        .expect_err("unreadable file should fail");
    assert_eq!(err.message(), "failed to read .ptto.toml");
    let config = PttoConfig::load(ConfigSource::Parsed(host_config())).expect("parsed");
    assert_eq!(config.host.as_deref(), Some("root@host"));
    assert_eq!(config.domain.as_deref(), Some("example.com"));
}

#[test]
fn dry_runs_execute_nothing() {
    let init = Cli { command: Command::Init { target: None, dry_run: true } };
    let steps = plan_with_config(init, host_config()).expect("init plans");
    assert_eq!(exec_steps(&steps), 0);
    assert!(printed(&steps)[1].starts_with("[ptto] dry-run: ssh -o BatchMode=yes"));

    let deploy = |dry_run| Cli {
        command: Command::Deploy {
            app: None,
            domain: None,
            target: None,
            artifact: "./dist/app".to_string(),
            source: None,
            dry_run,
        },
    };
    let steps = plan_with_config(deploy(true), host_config()).expect("deploy plans");
    assert_eq!(exec_steps(&steps), 0);
    let steps = plan_with_config(deploy(false), host_config()).expect("deploy plans");
    assert_eq!(exec_steps(&steps), 3);
    assert!(steps.iter().any(|s| matches!(
        &s.action,
        Action::Exec { program: Program::Scp, args } if args.last().map(String::as_str) == Some("root@host:/tmp/ptto-app")
    )));
    assert!(steps.iter().any(|s| matches!(
        &s.action,
        Action::GoBuild { source, artifact } if source == "." && artifact == "./dist/app"
    )));
}

#[test]
fn logs_follow_the_app_service_by_default() {
    let config = PttoConfig { app: Some("blog".to_string()), ..host_config() };
    assert_eq!(resolve_app_for_logs(None, &config), "blog");
    let cli = Cli {
        command: Command::Logs { service: "ptto-app".to_string(), app: None, target: None },
    };
    let steps = plan_with_config(cli, config).expect("logs plans");
    assert_eq!(printed(&steps), vec!["[ptto] streaming logs for service blog".to_string()]);
    match &steps[1].action {
        Action::Exec { program: Program::Ssh, args } => {
            assert_eq!(args[0], "-t");
            assert!(args.last().unwrap().contains("journalctl -u 'blog' -f"));
        }
        other => panic!("unexpected step {other:?}"),
    }

    let cli = Cli {
        command: Command::Logs { service: "bad name".to_string(), app: None, target: None },
    };
    assert_eq!(plan_with_config(cli, host_config()).unwrap_err(), PttoError::ServiceNameChars);
}

#[test]
fn db_pull_reports_download_failure_after_cleanup() {
    let cli = Cli {
        command: Command::Db {
            app: Some("shop".to_string()),
            target: None,
            command: DbCommand::Pull { local_path: "./backup/shop.sqlite".to_string() },
        },
    };
    let steps = plan_with_config(cli, host_config()).expect("db pull plans");
    assert_eq!(steps.len(), 5);
    assert!(steps[3].keep_going);
    match &steps[3].action {
        Action::Exec { program: Program::Scp, args } => {
            assert_eq!(
                &args[args.len() - 2..],
                &["root@host:/tmp/ptto-db-pull-shop.sqlite".to_string(), "./backup/shop.sqlite".to_string()]
            );
        }
        other => panic!("unexpected step {other:?}"),
    }
    match &steps[4].action {
        Action::Exec { args, .. } => {
            assert_eq!(args.last().unwrap(), "set -eu; rm -f '/tmp/ptto-db-pull-shop.sqlite'")
        }
        other => panic!("unexpected step {other:?}"),
    }

    // download fails, cleanup succeeds: the download's failure is the result
    let total = steps.len();
    let mut state = RunState::start(total);
    for (index, ok) in [true, true, true, false, true].into_iter().enumerate() {
        state = state.after(total, steps[index].keep_going, ok);
    }
    assert_eq!(state, RunState::Finished { failed: Some(3) });

    // both fail: still the download's failure
    let mut state = RunState::start(total);
    for (index, ok) in [true, true, true, false, false].into_iter().enumerate() {
        state = state.after(total, steps[index].keep_going, ok);
    }
    assert_eq!(state, RunState::Finished { failed: Some(3) });
}

#[test]
fn run_state_stops_at_first_failure() {
    assert_eq!(RunState::start(0), RunState::Finished { failed: None });
    let state = RunState::start(3);
    assert_eq!(state, RunState::Running { next: 0, deferred: None });
    let state = state.after(3, false, true);
    assert_eq!(state, RunState::Running { next: 1, deferred: None });
    assert_eq!(state.after(3, false, false), RunState::Finished { failed: Some(1) });
    let done = state.after(3, false, true).after(3, false, true);
    assert_eq!(done, RunState::Finished { failed: None });
}

#[test]
fn db_push_requires_local_file_then_uploads() {
    let cli = Cli {
        command: Command::Db {
            app: None,
            target: Some("root@db".to_string()),
            command: DbCommand::Push { local_path: "./local.sqlite".to_string() },
        },
    };
    let steps = plan_with_config(cli, PttoConfig::default()).expect("db push plans");
    assert_eq!(
        printed(&steps),
        vec!["[ptto] pushing local database ./local.sqlite to /opt/ptto/data/database.sqlite".to_string()]
    );
    assert!(matches!(&steps[1].action, Action::RequireLocalFile(p) if p == "./local.sqlite"));
    match &steps[2].action {
        Action::Exec { program: Program::Scp, args } => {
            assert_eq!(args.last().unwrap(), "root@db:/tmp/ptto-database-ptto-app.sqlite")
        }
        other => panic!("unexpected step {other:?}"),
    }
}

#[test]
fn ssh_client_actions() {
    let client = SshClient::new("root@h".to_string(), Some("~/.ssh/k"), true);
    match client.run("echo ok") {
        Action::Print(line) => assert_eq!(
            line,
            "[ptto] dry-run: ssh -o BatchMode=yes -o StrictHostKeyChecking=accept-new -i ~/.ssh/k -- root@h echo ok"
        ),
        other => panic!("unexpected action {other:?}"),
    }
    let live = SshClient::new("root@h".to_string(), None, false);
    match live.copy_file("./app", "/tmp/ptto-app") {
        Action::Exec { program, args } => {
            assert_eq!(program, Program::Scp);
            assert_eq!(args[5..], ["./app".to_string(), "root@h:/tmp/ptto-app".to_string()]);
        }
        other => panic!("unexpected action {other:?}"),
    }
    assert_eq!(
        build_scp_download_args("u@h", None, "/r", "./l"),
        vec!["-o", "BatchMode=yes", "-o", "StrictHostKeyChecking=accept-new", "--", "u@h:/r", "./l"]
    );
}

#[test]
fn interactive_scripts_have_no_empty_command() {
    for script in [db_shell_script("shop"), logs_script("shop"), traffic_script()] {
        assert!(!script.contains("; ;"), "empty command in {script}");
        assert!(script.contains("exit 1; fi; $SUDO ") || script.contains("exit 1; fi; if ! command -v goaccess"));
    }
    assert!(db_shell_script("shop").ends_with("fi; $SUDO sqlite3 '/opt/ptto/apps/shop/data/database.sqlite'"));
    assert!(logs_script("web").ends_with("fi; $SUDO journalctl -u 'web' -f --no-pager"));
}

#[test]
fn db_push_and_deploy_share_process_paths() {
    let push = db_push_script("shop");
    let deploy = &blue_green_deploy_commands("shop", "shop.example.com")[0];
    for path in [
        "'/opt/ptto/apps/shop/run/shop.pid'",
        "'/opt/ptto/apps/shop/run/shop.port'",
        "'/opt/ptto/apps/shop/bin/shop'",
    ] {
        assert!(push.contains(path), "{path} missing from push script");
        assert!(deploy.contains(path), "{path} missing from deploy script");
    }
}

#[test]
fn health_check_comes_before_the_switch() {
    let script = &blue_green_deploy_commands("ptto-app", "example.com")[0];
    let positions: Vec<usize> = [
        "new release failed health check",
        "$SUDO install -m 644 \"$tmp_caddy\" \"$app_caddy\"",
        "caddy validate --config /etc/caddy/Caddyfile",
        "systemctl reload caddy",
        "kill -TERM \"$old_pid\"",
        "ln -sfn",
    ]
    .iter()
    .map(|needle| script.find(needle).expect("fragment present"))
    .collect();
    assert!(positions.windows(2).all(|w| w[0] < w[1]));
    let gate_end = script.find("exit 1; fi; tmp_caddy").expect("failure branch exits");
    assert!(gate_end < positions[1]);
}

#[test]
fn broken_config_stops_every_command_but_generate_key() {
    let broken = || ConfigSource::ParseFailed("expected `}`".to_string());
    let top = Cli { command: Command::Top { target: Some("root@h".to_string()) } };
    let err = dispatch(top, broken()).expect_err("broken config stops top");
    assert_eq!(err.message(), "failed to parse .ptto.toml");
    let unreadable = ConfigSource::ReadFailed("permission denied".to_string());
    let init = Cli { command: Command::Init { target: Some("root@h".to_string()), dry_run: true } };
    assert_eq!(dispatch(init, unreadable).unwrap_err().message(), "failed to read .ptto.toml");
    let steps = dispatch(Cli { command: Command::GenerateKey }, broken()).expect("generate-key plans");
    assert_eq!(printed(&steps), vec!["[ptto] key generation hook planned for CI/CD".to_string()]);
    let init = Cli { command: Command::Init { target: None, dry_run: true } };
    let steps = dispatch(init, ConfigSource::Parsed(host_config())).expect("init plans");
    assert_eq!(printed(&steps)[0], "[ptto] bootstrap starting for root@host");
}

#[test]
fn db_push_stages_the_upload_next_to_the_database() {
    let push = db_push_script("shop");
    assert!(push.contains(
        "tmp_db='/opt/ptto/apps/shop/data'\"/.database.sqlite.ptto-tmp-\"$$; \
         $SUDO install -m 640 '/tmp/ptto-database-shop.sqlite' \"$tmp_db\"; \
         $SUDO mv -f \"$tmp_db\" '/opt/ptto/apps/shop/data/database.sqlite'"
    ));
    assert!(!push.contains("tmp_db=\"'"));
    let default = db_push_script("ptto-app");
    assert!(default.contains("tmp_db='/opt/ptto/data'\"/.database.sqlite.ptto-tmp-\"$$; "));
}

#[test]
fn run_states_stay_inside_the_plan() {
    for total in 0..4usize {
        for outcomes in 0..(1u32 << (2 * total)) {
            let mut state = RunState::start(total);
            let mut step = 0;
            while let RunState::Running { next, deferred } = state {
                assert!(next < total);
                if let Some(d) = deferred {
                    assert!(d < next);
                }
                let keep_going = outcomes >> (2 * step) & 1 == 1;
                let succeeded = outcomes >> (2 * step + 1) & 1 == 1;
                state = state.after(total, keep_going, succeeded);
                step += 1;
            }
            if let RunState::Finished { failed: Some(f) } = state {
                assert!(f < total);
            }
        }
    }
}
