use ptto::commands::{
    resolve_app, resolve_domain, resolve_source, resolve_target, resolve_target_for_db,
    resolve_target_for_telemetry,
};
use ptto::config::PttoConfig;
use ptto::remote::{blue_green_deploy_commands, caddy_init_commands, caddyfile_for_port, remote_db_path};
use ptto::shell::go_build_command_preview;
use ptto::validate::{validate_app_name, validate_domain, validate_systemd_unit_name};

#[test]
fn caddy_init_contains_install_and_service_steps() {
    let commands = caddy_init_commands();
    assert_eq!(commands.len(), 2);
    assert!(commands[0].contains("apt-get install -y caddy goaccess"));
    assert!(commands[0].contains("command -v goaccess"));
    assert!(commands[0].contains("goaccess install requires apt-get"));
    assert!(commands[1].contains("install -d -m 755 /opt/ptto/data"));
    assert!(commands[1].contains("install -d -m 755 /etc/caddy/apps"));
    assert!(commands[1].contains("import /etc/caddy/apps/*.caddy"));
    assert!(commands[1].contains("systemctl enable --now caddy"));
    assert!(commands[0].contains("sudo -n true"));
    assert!(commands[1].contains("sudo -n true"));
    assert!(commands[0]
        .contains("curl -1sLf https://dl.cloudsmith.io/public/caddy/stable/debian.deb.txt -o"));
}

#[test]
fn blue_green_deploy_contains_swap_steps() {
    let commands = blue_green_deploy_commands("ptto-app", "example.com");
    assert_eq!(commands.len(), 1);
    assert!(commands[0].contains(
        "install -d -m 755 '/opt/ptto/bin' '/opt/ptto/run' '/opt/ptto/data' /etc/caddy/apps"
    ));
    assert!(commands[0].contains("import /etc/caddy/apps/*.caddy"));
    assert!(commands[0].contains("install -m 755 /tmp/ptto-app"));
    assert!(commands[0].contains("pick_port()"));
    assert!(commands[0].contains("new_port=\"$(pick_port)\""));
    assert!(commands[0].contains("/etc/caddy/apps/ptto-app.caddy"));
    assert!(commands[0].contains("caddy validate --config /etc/caddy/Caddyfile"));
    assert!(commands[0].contains("systemctl reload caddy"));
    assert!(commands[0].contains("$SUDO kill -0"));
    assert!(commands[0].contains("kill -TERM"));
    assert!(commands[0].contains("sudo -n true"));
}

#[test]
fn blue_green_deploy_isolates_named_apps() {
    let commands = blue_green_deploy_commands("blog-svc", "blog.example.com");
    assert_eq!(commands.len(), 1);
    assert!(commands[0].contains("/opt/ptto/apps/blog-svc/bin"));
    assert!(commands[0].contains("/opt/ptto/apps/blog-svc/run"));
    assert!(commands[0].contains("/opt/ptto/apps/blog-svc/data"));
    assert!(commands[0].contains("/etc/caddy/apps/blog-svc.caddy"));
    assert!(commands[0].contains("/var/log/blog-svc.log"));
    assert!(commands[0].contains("ln -sfn \"$new_bin\" '/opt/ptto/apps/blog-svc/bin/blog-svc'"));
}

#[test]
fn caddyfile_for_port_renders_reverse_proxy_target() {
    let caddyfile = caddyfile_for_port("ptto-app", "example.com", "__PTTO_PORT__");
    assert!(caddyfile.contains("reverse_proxy 127.0.0.1:__PTTO_PORT__"));
    assert!(caddyfile.contains("output file /var/log/caddy/ptto-access.log"));

    let tenant_caddyfile = caddyfile_for_port("api-service", "api.example.com", "__PTTO_PORT__");
    assert!(tenant_caddyfile.contains("reverse_proxy 127.0.0.1:__PTTO_PORT__"));
    assert!(tenant_caddyfile.contains("output file /var/log/caddy/api-service-access.log"));
}

#[test]
fn domain_validation_rejects_newline_characters() {
    let err = validate_domain("example.com\nrm -rf /").expect_err("domain should be rejected");
    assert!(err
        .message()
        .contains("whitespace/control characters are not allowed"));
}

#[test]
fn domain_validation_accepts_wildcard_only_in_leftmost_label() {
    validate_domain("*.example.com").expect("leftmost wildcard should be valid");

    let err = validate_domain("api.*.example.com")
        .expect_err("wildcard outside leftmost label should be rejected");
    assert!(err
        .message()
        .contains("labels may only contain ASCII letters, digits, and hyphens"));
}

#[test]
fn domain_validation_rejects_non_ascii_domains() {
    let err = validate_domain("tést.example.com").expect_err("unicode should be rejected");
    assert!(err
        .message()
        .contains("only ASCII DNS-style domains are currently supported"));
}

#[test]
fn domain_validation_enforces_length_constraints() {
    let empty = validate_domain("").expect_err("empty should be rejected");
    assert!(empty.message().contains("must be 1-253 characters"));

    let too_long_domain = format!("{}.com", "a".repeat(250));
    let too_long = validate_domain(&too_long_domain).expect_err("too long should be rejected");
    assert!(too_long.message().contains("must be 1-253 characters"));

    let label_too_long = format!("{}.com", "a".repeat(64));
    let label_error =
        validate_domain(&label_too_long).expect_err("label longer than 63 should fail");
    assert!(label_error
        .message()
        .contains("labels must be 1-63 characters"));
}

#[test]
fn domain_validation_rejects_labels_with_edge_hyphens() {
    let leading = validate_domain("-api.example.com")
        .expect_err("leading hyphen in label should be rejected");
    assert!(leading
        .message()
        .contains("labels cannot start or end with hyphens"));

    let trailing = validate_domain("api-.example.com")
        .expect_err("trailing hyphen in label should be rejected");
    assert!(trailing
        .message()
        .contains("labels cannot start or end with hyphens"));
}

#[test]
fn go_build_preview_uses_quoted_values() {
    let preview = go_build_command_preview("./cmd/my server", "./dist/my app");
    assert_eq!(
        preview,
        "GOOS=linux GOARCH=amd64 go build -o './dist/my app' './cmd/my server'"
    );
}

#[test]
fn systemd_service_name_validation_rejects_shell_metacharacters() {
    let err = validate_systemd_unit_name("ptto-app$(touch /tmp/pwn)")
        .expect_err("service name should be rejected");
    assert!(err.message().contains("invalid service name"));
}

#[test]
fn resolve_helpers_prefer_cli_values_over_config() {
    let config = PttoConfig {
        host: Some("root@from-config".to_string()),
        domain: Some("from-config.example.com".to_string()),
        ssh_key: None,
        source: Some("./from-config".to_string()),
        app: None,
    };

    let target = resolve_target(Some("root@from-cli".to_string()), &config)
        .expect("target should resolve from cli");
    let db_target = resolve_target_for_db(Some("root@db-cli".to_string()), &config)
        .expect("db target should resolve from cli");
    let telemetry_target =
        resolve_target_for_telemetry(Some("root@telemetry-cli".to_string()), &config)
            .expect("telemetry target should resolve from cli");
    let domain =
        resolve_domain(Some("from-cli.example.com".to_string()), &config).expect("domain");
    let source = resolve_source(Some("./from-cli".to_string()), &config);

    assert_eq!(target, "root@from-cli");
    assert_eq!(db_target, "root@db-cli");
    assert_eq!(telemetry_target, "root@telemetry-cli");
    assert_eq!(domain, "from-cli.example.com");
    assert_eq!(source, "./from-cli");
}

#[test]
fn resolve_helpers_fall_back_to_config_values() {
    let config = PttoConfig {
        host: Some("root@config-host".to_string()),
        domain: Some("config.example.com".to_string()),
        ssh_key: None,
        source: Some("./config-source".to_string()),
        app: None,
    };

    let target = resolve_target(None, &config).expect("target should come from config");
    let db_target =
        resolve_target_for_db(None, &config).expect("db target should come from config");
    let telemetry_target = resolve_target_for_telemetry(None, &config)
        .expect("telemetry target should come from config");
    let domain = resolve_domain(None, &config).expect("domain should come from config");
    let source = resolve_source(None, &config);

    assert_eq!(target, "root@config-host");
    assert_eq!(db_target, "root@config-host");
    assert_eq!(telemetry_target, "root@config-host");
    assert_eq!(domain, "config.example.com");
    assert_eq!(source, "./config-source");
}

#[test]
fn resolve_helpers_return_actionable_errors_when_missing() {
    let config = PttoConfig::default();

    let target_error = resolve_target(None, &config).expect_err("target should be required");
    let db_error =
        resolve_target_for_db(None, &config).expect_err("db target should be required");
    let telemetry_error = resolve_target_for_telemetry(None, &config)
        .expect_err("telemetry target should be required");
    let domain_error = resolve_domain(None, &config).expect_err("domain should be required");
    let default_source = resolve_source(None, &config);

    let target_error_text = target_error.message();
    let domain_error_text = domain_error.message();

    assert!(target_error_text.contains("missing SSH target"));
    assert!(target_error_text.contains("--target"));
    assert!(target_error_text.contains(".ptto.toml"));
    assert!(db_error.message().contains("pass --target to ptto db"));
    assert!(telemetry_error.message().contains("pass --target"));
    assert!(domain_error_text.contains("missing domain"));
    assert!(domain_error_text.contains("--domain"));
    assert!(domain_error_text.contains(".ptto.toml"));
    assert_eq!(default_source, ".");
}

#[test]
fn resolve_app_prefers_cli_then_config_then_default() {
    let empty_config = PttoConfig::default();
    assert_eq!(
        resolve_app(None, &empty_config).expect("default app"),
        "ptto-app"
    );

    let config_with_app = PttoConfig {
        app: Some("config-app".to_string()),
        ..PttoConfig::default()
    };
    assert_eq!(
        resolve_app(None, &config_with_app).expect("config app"),
        "config-app"
    );

    assert_eq!(
        resolve_app(Some("cli-app".to_string()), &config_with_app).expect("cli app"),
        "cli-app"
    );
}

#[test]
fn app_name_validation_enforces_rules() {
    assert!(validate_app_name("my-service_1").is_ok());
    assert!(validate_app_name("").is_err());
    assert!(validate_app_name("bad name with space").is_err());
    assert!(validate_app_name("bad/slash").is_err());
    assert!(validate_app_name(&"a".repeat(65)).is_err());
}

#[test]
fn remote_db_path_backward_compatible_and_tenant_isolated() {
    assert_eq!(remote_db_path("ptto-app"), "/opt/ptto/data/database.sqlite");
    assert_eq!(
        remote_db_path("second-app"),
        "/opt/ptto/apps/second-app/data/database.sqlite"
    );
}
