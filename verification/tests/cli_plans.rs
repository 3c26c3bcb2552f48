use ptto::cli::{Cli, Command, DbCommand};
use ptto::commands::dispatch;
use ptto::config::{ConfigSource, PttoConfig};
use ptto::error::PttoError;
use ptto::plan::{Action, Step};

/// What the plan prints, one line per `Print` step.
fn printed(steps: &[Step]) -> String {
    let mut out = String::new();
    for step in steps {
        if let Action::Print(line) = &step.action {
            out.push_str(line);
            out.push('\n');
        }
    }
    out
}

fn deploy(app: Option<&str>, domain: Option<&str>, target: Option<&str>, source: Option<&str>) -> Cli {
    Cli {
        command: Command::Deploy {
            app: app.map(str::to_string),
            domain: domain.map(str::to_string),
            target: target.map(str::to_string),
            artifact: "./app".to_string(),
            source: source.map(str::to_string),
            dry_run: true,
        },
    }
}

#[test]
fn init_command_accepts_target() {
    let cli = Cli {
        command: Command::Init { target: Some("root@127.0.0.1".to_string()), dry_run: true },
    };
    let steps = dispatch(cli, ConfigSource::Parsed(PttoConfig::default())).expect("init should plan");
    assert!(printed(&steps).contains("bootstrap starting for root@127.0.0.1"));
}

#[test]
fn init_without_target_and_without_config_fails() {
    let cli = Cli { command: Command::Init { target: None, dry_run: true } };
    let err = dispatch(cli, ConfigSource::Parsed(PttoConfig::default())).expect_err("init needs a target");
    assert!(err.message().contains("missing SSH target"));
    assert!(err.message().contains("positional target (init)"));
}

#[test]
fn deploy_command_supports_ssh_transfer_dry_run() {
    let cli = deploy(None, Some("example.com"), Some("root@127.0.0.1"), None);
    let steps = dispatch(cli, ConfigSource::Parsed(PttoConfig::default())).expect("deploy should plan");
    assert!(printed(&steps).contains("artifact staged over ssh"));
}

#[test]
fn deploy_uses_ptto_toml_defaults() {
    let config = PttoConfig {
        host: Some("root@127.0.0.1".to_string()),
        domain: Some("example.com".to_string()),
        ssh_key: Some("~/.ssh/custom_key".to_string()),
        ..PttoConfig::default()
    };
    let steps = dispatch(deploy(None, None, None, None), ConfigSource::Parsed(config)).expect("deploy should plan");
    let out = printed(&steps);
    assert!(out.contains("deploy pipeline planned for domain example.com"));
    assert!(out.contains("scp -o BatchMode=yes -o StrictHostKeyChecking=accept-new -i ~/.ssh/custom_key"));
    assert!(out.contains("go build -o './app' '.'"));
}

#[test]
fn deploy_uses_source_from_ptto_toml_and_allows_cli_override() {
    let config = || PttoConfig {
        host: Some("root@127.0.0.1".to_string()),
        domain: Some("example.com".to_string()),
        source: Some("./cmd/server".to_string()),
        ..PttoConfig::default()
    };
    let steps = dispatch(deploy(None, None, None, None), ConfigSource::Parsed(config())).expect("deploy should plan");
    assert!(printed(&steps).contains("go build -o './app' './cmd/server'"));

    let steps = dispatch(deploy(None, None, None, Some("./cmd/custom")), ConfigSource::Parsed(config()))
        .expect("deploy should plan");
    assert!(printed(&steps).contains("go build -o './app' './cmd/custom'"));
}

#[test]
fn logs_requires_target_when_not_in_config() {
    let cli = Cli {
        command: Command::Logs { service: "ptto-app".to_string(), app: None, target: None },
    };
    let err = dispatch(cli, ConfigSource::Parsed(PttoConfig::default())).expect_err("logs needs a target");
    assert!(err.message().contains("missing SSH target"));
    assert!(err.message().contains("pass --target"));
}

#[test]
fn top_requires_target_when_not_in_config() {
    let cli = Cli { command: Command::Top { target: None } };
    let err = dispatch(cli, ConfigSource::Parsed(PttoConfig::default())).expect_err("top needs a target");
    assert!(err.message().contains("missing SSH target"));
}

#[test]
fn generate_key_does_not_require_or_parse_ptto_toml() {
    let command = Command::GenerateKey;
    assert!(!ptto::commands::needs_config(&command));
    let steps = dispatch(Cli { command }, ConfigSource::Parsed(PttoConfig::default())).expect("generate-key plans");
    assert!(printed(&steps).contains("key generation hook planned for CI/CD"));
}

#[test]
fn deploy_rejects_invalid_domain_input() {
    let cli = deploy(None, Some("example.com\nbad"), Some("root@127.0.0.1"), None);
    let err = dispatch(cli, ConfigSource::Parsed(PttoConfig::default())).expect_err("domain should be rejected");
    assert!(err.message().contains("invalid domain"));
    assert!(err.message().contains("whitespace/control characters"));
}

#[test]
fn deploy_rejects_tab_whitespace_in_domain() {
    let cli = deploy(None, Some("example\t.com"), Some("root@127.0.0.1"), None);
    let err = dispatch(cli, ConfigSource::Parsed(PttoConfig::default())).expect_err("domain should be rejected");
    assert!(err.message().contains("invalid domain"));
    assert!(err.message().contains("whitespace/control characters"));
}

#[test]
fn db_pull_requires_target_when_not_in_config() {
    let cli = Cli {
        command: Command::Db {
            app: None,
            target: None,
            command: DbCommand::Pull { local_path: "./database.sqlite".to_string() },
        },
    };
    let err = dispatch(cli, ConfigSource::Parsed(PttoConfig::default())).expect_err("db needs a target");
    assert!(err.message().contains("missing SSH target"));
    assert!(err.message().contains("pass --target to ptto db"));
}

fn all_text(steps: &[Step]) -> String {
    let mut out = String::new();
    for step in steps {
        match &step.action {
            Action::Print(line) => out.push_str(line),
            Action::Exec { args, .. } => out.push_str(&args.join(" ")),
            Action::EnsureParentDir(p) | Action::RequireLocalFile(p) => out.push_str(p),
            Action::GoBuild { source, artifact } => {
                out.push_str(source);
                out.push_str(artifact);
            }
        }
        out.push('\n');
    }
    out
}

#[test]
fn deploy_supports_app_multi_tenancy_via_cli_and_toml() {
    let config = || PttoConfig {
        host: Some("root@127.0.0.1".to_string()),
        domain: Some("tenant1.example.com".to_string()),
        app: Some("tenant-one".to_string()),
        ..PttoConfig::default()
    };
    let steps = dispatch(deploy(None, None, None, None), ConfigSource::Parsed(config())).expect("deploy should plan");
    let out = all_text(&steps);
    assert!(out.contains("deploy pipeline planned for app 'tenant-one' and domain tenant1.example.com"));
    assert!(out.contains("/opt/ptto/apps/tenant-one/bin"));
    assert!(out.contains("/etc/caddy/apps/tenant-one.caddy"));

    let steps = dispatch(deploy(Some("override-app"), None, None, None), ConfigSource::Parsed(config()))
        .expect("deploy should plan");
    let out = all_text(&steps);
    assert!(out.contains("deploy pipeline planned for app 'override-app' and domain tenant1.example.com"));
    assert!(out.contains("/opt/ptto/apps/override-app/bin"));
    assert!(out.contains("/etc/caddy/apps/override-app.caddy"));
}

#[test]
fn deploy_rejects_invalid_app_names() {
    let cli = deploy(Some("bad app with spaces"), Some("example.com"), Some("root@127.0.0.1"), None);
    let err = dispatch(cli, ConfigSource::Parsed(PttoConfig::default())).expect_err("app name should be rejected");
    assert!(err.message().contains("invalid app name"));
    assert_eq!(err, PttoError::AppNameChars);
}

#[test]
fn go_build_wrapper_is_dry_run_safe() {
    let steps = ptto::commands::build_go_linux_amd64_binary("./cmd/server", "./app", true);
    assert!(steps.iter().all(|s| !matches!(s.action, Action::GoBuild { .. } | Action::Exec { .. })));
}
