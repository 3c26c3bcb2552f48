//! How each command is resolved against the configuration and planned into steps.

use vstd::prelude::*;

use crate::cli::{Cli, Command, DbCommand};
use crate::config::{is_empty_config, ConfigSource, PttoConfig, CONFIG_FILENAME};
use crate::error::PttoError;
use crate::plan::{
    keep_going_on_failure, print, step, steps_view, stop_on_failure, Action, ActionModel, Program,
    Step, StepModel,
};
use crate::remote::{
    blue_green_deploy_commands, caddy_init_commands, db_pull_script, db_pull_temp, db_push_script,
    db_push_temp, db_shell_script, is_default_app, is_default_app_name, logs_script, remote_db_path,
    spec_blue_green_script, spec_caddy_init_commands, spec_cleanup_script, spec_db_pull_script,
    spec_db_pull_temp, spec_db_push_script, spec_db_push_temp, spec_db_shell_script,
    spec_logs_script, spec_remote_db_path, spec_sudo_prefix, spec_traffic_script, traffic_script, cleanup_script,
    DEFAULT_APP, TOP_SCRIPT,
};
use crate::shell::{go_build_command_preview, spec_go_build_preview, spec_shell_quote};
use crate::ssh::{
    opt_string_view, opt_view, spec_interactive_ssh_args, spec_invoke, spec_scp_args,
    safety_flags, spec_scp_download_args, spec_ssh_args, SshClient, SshTarget,
};
use crate::text::{byte_len, join, join_with, owned, str_eq, string_views};
use crate::validate::{
    app_name_error, domain_error, unit_name_error, validate_app_name, validate_domain,
    validate_systemd_unit_name,
};

verus! {

/// The command-line value where one is given, else the configured one.
pub open spec fn or_else(cli: Option<String>, fallback: Option<String>) -> Option<String> {
    match cli {
        Some(v) => Some(v),
        None => fallback,
    }
}

/// The app name chosen by the command line, else the configuration, else `ptto-app`.
pub open spec fn app_choice(cli_app: Option<String>, config: PttoConfig) -> Seq<char> {
    match or_else(cli_app, config.app) {
        Some(a) => a@,
        None => DEFAULT_APP@,
    }
}

/// The Go source chosen by the command line, else the configuration, else `.`.
pub open spec fn source_choice(cli_source: Option<String>, config: PttoConfig) -> Seq<char> {
    match or_else(cli_source, config.source) {
        Some(s) => s@,
        None => "."@,
    }
}

/// A required value: the chosen one, else `missing`.
pub open spec fn required(choice: Option<String>, missing: PttoError) -> Result<String, PttoError> {
    match choice {
        Some(v) => Ok(v),
        None => Err(missing),
    }
}

fn copy_opt(o: &Option<String>) -> (res: Option<String>)
    ensures
        res == *o,
{
    match o {
        Some(s) => Some(s.clone()),
        None => None,
    }
}

fn pick(cli: Option<String>, fallback: &Option<String>) -> (res: Option<String>)
    ensures
        res == or_else(cli, *fallback),
{
    match cli {
        Some(v) => Some(v),
        None => copy_opt(fallback),
    }
}

/// The SSH target for `init` and `deploy`: the command line's, else the configured host.
pub fn resolve_target(cli_target: Option<String>, config: &PttoConfig) -> (res: Result<String, PttoError>)
    ensures
        res == required(or_else(cli_target, config.host), PttoError::MissingTarget),
{
    match pick(cli_target, &config.host) {
        Some(t) => Ok(t),
        None => Err(PttoError::MissingTarget),
    }
}

/// The SSH target for `db`: the command line's, else the configured host.
pub fn resolve_target_for_db(cli_target: Option<String>, config: &PttoConfig) -> (res: Result<String, PttoError>)
    ensures
        res == required(or_else(cli_target, config.host), PttoError::MissingDbTarget),
{
    match pick(cli_target, &config.host) {
        Some(t) => Ok(t),
        None => Err(PttoError::MissingDbTarget),
    }
}

/// The SSH target for `logs`, `top` and `traffic`: the command line's, else the configured host.
pub fn resolve_target_for_telemetry(cli_target: Option<String>, config: &PttoConfig) -> (res: Result<String, PttoError>)
    ensures
        res == required(or_else(cli_target, config.host), PttoError::MissingTelemetryTarget),
{
    match pick(cli_target, &config.host) {
        Some(t) => Ok(t),
        None => Err(PttoError::MissingTelemetryTarget),
    }
}

/// The domain to deploy to: the command line's, else the configured one.
pub fn resolve_domain(cli_domain: Option<String>, config: &PttoConfig) -> (res: Result<String, PttoError>)
    ensures
        res == required(or_else(cli_domain, config.domain), PttoError::MissingDomain),
{
    match pick(cli_domain, &config.domain) {
        Some(d) => Ok(d),
        None => Err(PttoError::MissingDomain),
    }
}

/// The Go package to build: the command line's, else the configured one, else `.`.
pub fn resolve_source(cli_source: Option<String>, config: &PttoConfig) -> (res: String)
    ensures
        res@ == source_choice(cli_source, *config),
{
    match pick(cli_source, &config.source) {
        Some(s) => s,
        None => owned("."),
    }
}

/// The app name for `logs`, unchecked: the command line's, else the configured one,
/// else `ptto-app`.
pub fn resolve_app_for_logs(cli_app: Option<String>, config: &PttoConfig) -> (res: String)
    ensures
        res@ == app_choice(cli_app, *config),
{
    match pick(cli_app, &config.app) {
        Some(a) => a,
        None => owned(DEFAULT_APP),
    }
}

/// What `resolve_app` gives for the chosen name `name`.
pub open spec fn checked_app(name: Seq<char>, res: Result<String, PttoError>) -> bool {
    match app_name_error(name, byte_len(name)) {
        Some(e) => res == Err::<String, PttoError>(e),
        None => res matches Ok(s) && s@ == name,
    }
}

/// The app name for `deploy` and `db`: chosen as for `logs`, then checked.
pub fn resolve_app(cli_app: Option<String>, config: &PttoConfig) -> (res: Result<String, PttoError>)
    ensures
        checked_app(app_choice(cli_app, *config), res),
{
    let name = resolve_app_for_logs(cli_app, config);
    match validate_app_name(name.as_str()) {
        Ok(()) => Ok(name),
        Err(e) => Err(e),
    }
}

/// Whether planning the command needs the configuration file (`generate-key` does not
/// read it, so a broken file does not stop it).
pub open spec fn spec_needs_config(command: Command) -> bool {
    !(command is GenerateKey)
}

pub fn needs_config(command: &Command) -> (res: bool)
    ensures
        res == spec_needs_config(*command),
{
    match command {
        Command::GenerateKey => false,
        _ => true,
    }
}

pub const MSG_CONNECTIVITY_CHECK: &'static str = "echo '[ptto] SSH connectivity check succeeded'";
pub const MSG_INIT_DONE: &'static str = "[ptto] server init complete (Caddy/goaccess installed and Caddy started)";
pub const MSG_STAGED: &'static str = "[ptto] artifact staged over ssh at /tmp/ptto-app";
pub const MSG_DEPLOY_DONE: &'static str = "[ptto] blue-green deployment completed with graceful handoff";
pub const MSG_KEY_HOOK: &'static str = "[ptto] key generation hook planned for CI/CD";
pub const MSG_TOP: &'static str = "[ptto] opening remote process dashboard";
pub const MSG_TRAFFIC: &'static str = "[ptto] streaming caddy access telemetry via goaccess";
pub const STAGED_ARTIFACT: &'static str = "/tmp/ptto-app";

pub open spec fn say(line: Seq<char>) -> StepModel {
    stop_on_failure(ActionModel::Print(line))
}

/// A remote command run over SSH.
pub open spec fn remote(ssh: SshTarget, command: Seq<char>) -> StepModel {
    stop_on_failure(
        spec_invoke(Program::Ssh, ssh.dry_run, spec_ssh_args(ssh.target, ssh.ssh_key, command)),
    )
}

/// A remote command run over SSH with a terminal.
pub open spec fn remote_interactive(ssh: SshTarget, command: Seq<char>) -> StepModel {
    stop_on_failure(
        spec_invoke(
            Program::Ssh,
            ssh.dry_run,
            spec_interactive_ssh_args(ssh.target, ssh.ssh_key, command),
        ),
    )
}

/// An upload with `scp`.
pub open spec fn upload(ssh: SshTarget, local: Seq<char>, remote_path: Seq<char>) -> StepModel {
    stop_on_failure(
        spec_invoke(Program::Scp, ssh.dry_run, spec_scp_args(ssh.target, ssh.ssh_key, local, remote_path)),
    )
}

/// The connection that a command uses.
pub open spec fn connection(target: Seq<char>, key: Option<Seq<char>>, dry_run: bool) -> SshTarget {
    SshTarget { target, ssh_key: key, dry_run }
}

/// The steps of `init`: check that SSH works, install and start Caddy and goaccess.
pub open spec fn spec_init_plan(target: Seq<char>, key: Option<Seq<char>>, dry_run: bool) -> Seq<StepModel> {
    let ssh = connection(target, key, dry_run);
    seq![
        say("[ptto] bootstrap starting for "@ + target),
        remote(ssh, MSG_CONNECTIVITY_CHECK@),
        remote(ssh, join_with(spec_caddy_init_commands(), "\n"@)),
        say(MSG_INIT_DONE@),
    ]
}

/// The line that announces a deploy.
pub open spec fn deploy_announcement(app: Seq<char>, domain: Seq<char>) -> Seq<char> {
    if is_default_app(app) {
        "[ptto] deploy pipeline planned for domain "@ + domain
    } else {
        "[ptto] deploy pipeline planned for app '"@ + app + "' and domain "@ + domain
    }
}

/// The steps of the Go build: make the artifact's directory, then show the build command
/// (a dry run stops there), else announce and run it.
pub open spec fn spec_build_plan(source: Seq<char>, artifact: Seq<char>, dry_run: bool) -> Seq<StepModel> {
    let preview = spec_go_build_preview(source, artifact);
    if dry_run {
        seq![
            stop_on_failure(ActionModel::EnsureParentDir(artifact)),
            say("[ptto] dry-run: "@ + preview),
        ]
    } else {
        seq![
            stop_on_failure(ActionModel::EnsureParentDir(artifact)),
            say("[ptto] compiling with: "@ + preview),
            stop_on_failure(ActionModel::GoBuild { source, artifact }),
        ]
    }
}

/// The steps of `deploy` for a checked app name and domain: build, upload the artifact,
/// run the blue-green release script.
pub open spec fn spec_deploy_plan(
    app: Seq<char>,
    domain: Seq<char>,
    target: Seq<char>,
    key: Option<Seq<char>>,
    artifact: Seq<char>,
    source: Seq<char>,
    dry_run: bool,
) -> Seq<StepModel> {
    let ssh = connection(target, key, dry_run);
    seq![say(deploy_announcement(app, domain))] + spec_build_plan(source, artifact, dry_run) + seq![
        upload(ssh, artifact, STAGED_ARTIFACT@),
        say(MSG_STAGED@),
        remote(ssh, spec_blue_green_script(app, domain)),
        say(MSG_DEPLOY_DONE@),
    ]
}

/// `deploy`: the plan where the domain is accepted, else why it is not.
pub open spec fn spec_deploy(
    app: Seq<char>,
    domain: Seq<char>,
    target: Seq<char>,
    key: Option<Seq<char>>,
    artifact: Seq<char>,
    source: Seq<char>,
    dry_run: bool,
) -> Result<Seq<StepModel>, PttoError> {
    match domain_error(domain, byte_len(domain)) {
        Some(e) => Err(e),
        None => Ok(spec_deploy_plan(app, domain, target, key, artifact, source, dry_run)),
    }
}

/// `logs`: follow the journal of a checked service name.
pub open spec fn spec_logs(service: Seq<char>, ssh: SshTarget) -> Result<Seq<StepModel>, PttoError> {
    match unit_name_error(service, byte_len(service)) {
        Some(e) => Err(e),
        None => Ok(
            seq![
                say("[ptto] streaming logs for service "@ + service),
                remote_interactive(ssh, spec_logs_script(service)),
            ],
        ),
    }
}

pub open spec fn spec_top(ssh: SshTarget) -> Seq<StepModel> {
    seq![say(MSG_TOP@), remote_interactive(ssh, TOP_SCRIPT@)]
}

pub open spec fn spec_traffic(ssh: SshTarget) -> Seq<StepModel> {
    seq![say(MSG_TRAFFIC@), remote_interactive(ssh, spec_traffic_script())]
}

/// The steps of `db`, for a checked app name.
pub open spec fn spec_db_plan(app: Seq<char>, command: DbCommand, ssh: SshTarget) -> Seq<StepModel> {
    let db_path = spec_remote_db_path(app);
    match command {
        DbCommand::Shell => seq![
            say("[ptto] opening remote sqlite shell at "@ + db_path),
            remote_interactive(ssh, spec_db_shell_script(app)),
        ],
        DbCommand::Pull { local_path } => seq![
            say("[ptto] pulling remote database from "@ + db_path + " to "@ + local_path@),
            stop_on_failure(ActionModel::EnsureParentDir(local_path@)),
            remote(ssh, spec_db_pull_script(app)),
            keep_going_on_failure(
                spec_invoke(
                    Program::Scp,
                    ssh.dry_run,
                    spec_scp_download_args(ssh.target, ssh.ssh_key, spec_db_pull_temp(app), local_path@),
                ),
            ),
            remote(ssh, spec_cleanup_script(spec_db_pull_temp(app))),
        ],
        DbCommand::Push { local_path } => seq![
            say("[ptto] pushing local database "@ + local_path@ + " to "@ + db_path),
            stop_on_failure(ActionModel::RequireLocalFile(local_path@)),
            upload(ssh, local_path@, spec_db_push_temp(app)),
            remote(ssh, spec_db_push_script(app)),
        ],
    }
}

/// The service `logs` follows: the one named, unless it is the default name, in which
/// case the chosen app's.
pub open spec fn logs_service(service: Seq<char>, app: Seq<char>) -> Seq<char> {
    if service != DEFAULT_APP@ {
        service
    } else {
        app
    }
}

/// The plan of a command, given the configuration, or the reason it cannot be planned.
/// Values given on the command line win over configured ones; `logs`, `top`, `traffic`
/// and `db` never run in a dry run.
pub open spec fn spec_plan_with_config(cli: Cli, config: PttoConfig) -> Result<Seq<StepModel>, PttoError> {
    let key = opt_string_view(config.ssh_key);
    match cli.command {
        Command::Init { target, dry_run } => match or_else(target, config.host) {
            None => Err(PttoError::MissingTarget),
            Some(t) => Ok(spec_init_plan(t@, key, dry_run)),
        },
        Command::Deploy { app, domain, target, artifact, source, dry_run } => {
            let name = app_choice(app, config);
            match app_name_error(name, byte_len(name)) {
                Some(e) => Err(e),
                None => match or_else(domain, config.domain) {
                    None => Err(PttoError::MissingDomain),
                    Some(d) => match or_else(target, config.host) {
                        None => Err(PttoError::MissingTarget),
                        Some(t) => spec_deploy(
                            name,
                            d@,
                            t@,
                            key,
                            artifact@,
                            source_choice(source, config),
                            dry_run,
                        ),
                    },
                },
            }
        },
        Command::Logs { service, app, target } => {
            let svc = logs_service(service@, app_choice(app, config));
            match or_else(target, config.host) {
                None => Err(PttoError::MissingTelemetryTarget),
                Some(t) => spec_logs(svc, connection(t@, key, false)),
            }
        },
        Command::Top { target } => match or_else(target, config.host) {
            None => Err(PttoError::MissingTelemetryTarget),
            Some(t) => Ok(spec_top(connection(t@, key, false))),
        },
        Command::Traffic { target } => match or_else(target, config.host) {
            None => Err(PttoError::MissingTelemetryTarget),
            Some(t) => Ok(spec_traffic(connection(t@, key, false))),
        },
        Command::Db { app, target, command } => {
            let name = app_choice(app, config);
            match app_name_error(name, byte_len(name)) {
                Some(e) => Err(e),
                None => match or_else(target, config.host) {
                    None => Err(PttoError::MissingDbTarget),
                    Some(t) => Ok(spec_db_plan(name, command, connection(t@, key, false))),
                },
            }
        },
        Command::GenerateKey => Ok(seq![say(MSG_KEY_HOOK@)]),
    }
}

/// `Ok(steps)` whose models are `plan`, or the same error.
pub open spec fn plan_matches(res: Result<Vec<Step>, PttoError>, plan: Result<Seq<StepModel>, PttoError>) -> bool {
    match plan {
        Ok(p) => res matches Ok(steps) && steps_view(steps@) == p,
        Err(e) => res == Err::<Vec<Step>, PttoError>(e),
    }
}

fn key_of(config: &PttoConfig) -> (res: Option<&str>)
    ensures
        opt_view(res) == opt_string_view(config.ssh_key),
{
    match &config.ssh_key {
        Some(k) => Some(k.as_str()),
        None => None,
    }
}

fn concat(prefix: &str, rest: &str) -> (res: String)
    ensures
        res@ == prefix@ + rest@,
{
    let mut s = owned(prefix);
    s.push_str(rest);
    s
}

/// Plans `init`: bootstrap the host at `target`.
fn init(target: String, ssh_key: Option<&str>, dry_run: bool) -> (res: Vec<Step>)
    ensures
        steps_view(res@) == spec_init_plan(target@, opt_view(ssh_key), dry_run),
{
    let announce = concat("[ptto] bootstrap starting for ", target.as_str());
    let ssh = SshClient::new(target, ssh_key, dry_run);
    let check = ssh.run(MSG_CONNECTIVITY_CHECK);
    let commands = caddy_init_commands();
    let script = join(commands.as_slice(), "\n");
    let install = ssh.run(script.as_str());
    let res = vec![print(announce), step(check), step(install), print(owned(MSG_INIT_DONE))];
    assert(steps_view(res@) =~= spec_init_plan(ssh@.target, opt_view(ssh_key), dry_run));
    res
}

/// Plans the Linux amd64 build of the Go package `source` into `artifact`.
pub fn build_go_linux_amd64_binary(source: &str, artifact: &str, dry_run: bool) -> (res: Vec<Step>)
    ensures
        steps_view(res@) == spec_build_plan(source@, artifact@, dry_run),
{
    let preview = go_build_command_preview(source, artifact);
    if dry_run {
        let res = vec![
            step(Action::EnsureParentDir(owned(artifact))),
            print(concat("[ptto] dry-run: ", preview.as_str())),
        ];
        assert(steps_view(res@) =~= spec_build_plan(source@, artifact@, dry_run));
        res
    } else {
        let res = vec![
            step(Action::EnsureParentDir(owned(artifact))),
            print(concat("[ptto] compiling with: ", preview.as_str())),
            step(Action::GoBuild { source: owned(source), artifact: owned(artifact) }),
        ];
        assert(steps_view(res@) =~= spec_build_plan(source@, artifact@, dry_run));
        res
    }
}

/// Plans `deploy` of `app` to `domain` on `target`, once the domain is checked.
fn deploy(
    app: &str,
    domain: &str,
    target: String,
    ssh_key: Option<&str>,
    artifact: &str,
    source: &str,
    dry_run: bool,
) -> (res: Result<Vec<Step>, PttoError>)
    ensures
        plan_matches(
            res,
            spec_deploy(app@, domain@, target@, opt_view(ssh_key), artifact@, source@, dry_run),
        ),
{
    validate_domain(domain)?;
    let announce = if is_default_app_name(app) {
        concat("[ptto] deploy pipeline planned for domain ", domain)
    } else {
        let mut s = concat("[ptto] deploy pipeline planned for app '", app);
        s.push_str("' and domain ");
        s.push_str(domain);
        s
    };
    let mut res: Vec<Step> = vec![print(announce)];
    let mut build = build_go_linux_amd64_binary(source, artifact, dry_run);
    let ghost first = steps_view(res@);
    let ghost middle = steps_view(build@);
    res.append(&mut build);
    assert(steps_view(res@) =~= first + middle);
    let ssh = SshClient::new(target, ssh_key, dry_run);
    let staged = ssh.copy_file(artifact, STAGED_ARTIFACT);
    let commands = blue_green_deploy_commands(app, domain);
    let script = join(commands.as_slice(), "\n");
    assert(string_views(commands@).len() == 1);
    let release = ssh.run(script.as_str());
    res.push(step(staged));
    res.push(print(owned(MSG_STAGED)));
    res.push(step(release));
    res.push(print(owned(MSG_DEPLOY_DONE)));
    assert(steps_view(res@) =~= spec_deploy_plan(
        app@,
        domain@,
        ssh@.target,
        opt_view(ssh_key),
        artifact@,
        source@,
        dry_run,
    ));
    Ok(res)
}

/// Plans `logs`: follow the journal of `service`, once its name is checked.
fn logs(service: &str, ssh: &SshClient) -> (res: Result<Vec<Step>, PttoError>)
    ensures
        plan_matches(res, spec_logs(service@, ssh@)),
{
    validate_systemd_unit_name(service)?;
    let res = vec![
        print(concat("[ptto] streaming logs for service ", service)),
        step(ssh.run_interactive(logs_script(service).as_str())),
    ];
    assert(steps_view(res@) =~= spec_logs(service@, ssh@)->Ok_0);
    Ok(res)
}

/// Plans `top`: open htop, btop or top on the host.
fn top(ssh: &SshClient) -> (res: Vec<Step>)
    ensures
        steps_view(res@) == spec_top(ssh@),
{
    let res = vec![print(owned(MSG_TOP)), step(ssh.run_interactive(TOP_SCRIPT))];
    assert(steps_view(res@) =~= spec_top(ssh@));
    res
}

/// Plans `traffic`: stream the Caddy access log through goaccess.
fn traffic(ssh: &SshClient) -> (res: Vec<Step>)
    ensures
        steps_view(res@) == spec_traffic(ssh@),
{
    let res = vec![print(owned(MSG_TRAFFIC)), step(ssh.run_interactive(traffic_script().as_str()))];
    assert(steps_view(res@) =~= spec_traffic(ssh@));
    res
}

/// Plans `generate-key`.
fn generate_key() -> (res: Vec<Step>)
    ensures
        steps_view(res@) == seq![say(MSG_KEY_HOOK@)],
{
    let res = vec![print(owned(MSG_KEY_HOOK))];
    assert(steps_view(res@) =~= seq![say(MSG_KEY_HOOK@)]);
    res
}

/// Plans a `db` subcommand on the database of `app`.
fn db(app: &str, command: DbCommand, ssh: &SshClient) -> (res: Vec<Step>)
    ensures
        steps_view(res@) == spec_db_plan(app@, command, ssh@),
{
    let db_path = remote_db_path(app);
    match command {
        DbCommand::Shell => {
            let res = vec![
                print(concat("[ptto] opening remote sqlite shell at ", db_path.as_str())),
                step(ssh.run_interactive(db_shell_script(app).as_str())),
            ];
            assert(steps_view(res@) =~= spec_db_plan(app@, command, ssh@));
            res
        },
        DbCommand::Pull { local_path } => {
            let mut line = concat("[ptto] pulling remote database from ", db_path.as_str());
            line.push_str(" to ");
            line.push_str(local_path.as_str());
            let temp = db_pull_temp(app);
            let res = vec![
                print(line),
                step(Action::EnsureParentDir(owned(local_path.as_str()))),
                step(ssh.run(db_pull_script(app).as_str())),
                Step {
                    action: ssh.copy_file_from_remote(temp.as_str(), local_path.as_str()),
                    keep_going: true,
                },
                step(ssh.run(cleanup_script(temp.as_str()).as_str())),
            ];
            assert(steps_view(res@) =~= spec_db_plan(app@, command, ssh@));
            res
        },
        DbCommand::Push { local_path } => {
            let mut line = concat("[ptto] pushing local database ", local_path.as_str());
            line.push_str(" to ");
            line.push_str(db_path.as_str());
            let temp = db_push_temp(app);
            let res = vec![
                print(line),
                step(Action::RequireLocalFile(owned(local_path.as_str()))),
                step(ssh.copy_file(local_path.as_str(), temp.as_str())),
                step(ssh.run(db_push_script(app).as_str())),
            ];
            assert(steps_view(res@) =~= spec_db_plan(app@, command, ssh@));
            res
        },
    }
}

/// Plans a command: resolves its values against the configuration, checks them, and
/// gives the steps to run, in order.
pub fn plan_with_config(cli: Cli, config: PttoConfig) -> (res: Result<Vec<Step>, PttoError>)
    ensures
        plan_matches(res, spec_plan_with_config(cli, config)),
{
    let key = key_of(&config);
    match cli.command {
        Command::Init { target, dry_run } => {
            let target = resolve_target(target, &config)?;
            Ok(init(target, key, dry_run))
        },
        Command::Deploy { app, domain, target, artifact, source, dry_run } => {
            let app = resolve_app(app, &config)?;
            let domain = resolve_domain(domain, &config)?;
            let target = resolve_target(target, &config)?;
            let source = resolve_source(source, &config);
            deploy(app.as_str(), domain.as_str(), target, key, artifact.as_str(), source.as_str(), dry_run)
        },
        Command::Logs { service, app, target } => {
            let app_name = resolve_app_for_logs(app, &config);
            let service_name = if !str_eq(service.as_str(), DEFAULT_APP) {
                service
            } else {
                app_name
            };
            let target = resolve_target_for_telemetry(target, &config)?;
            let ssh = SshClient::new(target, key, false);
            logs(service_name.as_str(), &ssh)
        },
        Command::Top { target } => {
            let target = resolve_target_for_telemetry(target, &config)?;
            let ssh = SshClient::new(target, key, false);
            Ok(top(&ssh))
        },
        Command::Traffic { target } => {
            let target = resolve_target_for_telemetry(target, &config)?;
            let ssh = SshClient::new(target, key, false);
            Ok(traffic(&ssh))
        },
        Command::Db { app, target, command } => {
            let app_name = resolve_app(app, &config)?;
            let target = resolve_target_for_db(target, &config)?;
            let ssh = SshClient::new(target, key, false);
            Ok(db(app_name.as_str(), command, &ssh))
        },
        Command::GenerateKey => Ok(generate_key()),
    }
}

/// The configuration with every value unset.
pub open spec fn empty_config() -> PttoConfig {
    PttoConfig { host: None, domain: None, ssh_key: None, source: None, app: None }
}

/// What `dispatch` gives for a command and what reading `.ptto.toml` gave.
pub open spec fn spec_dispatch(cli: Cli, config_file: ConfigSource, res: Result<Vec<Step>, PttoError>) -> bool {
    if !spec_needs_config(cli.command) {
        plan_matches(res, spec_plan_with_config(cli, empty_config()))
    } else {
        match config_file {
            ConfigSource::NotFound => plan_matches(res, spec_plan_with_config(cli, empty_config())),
            ConfigSource::Parsed(config) => plan_matches(res, spec_plan_with_config(cli, config)),
            ConfigSource::ReadFailed(r) => res matches Err(PttoError::ConfigUnreadable { path, reason })
                && path@ == CONFIG_FILENAME@ && reason == r,
            ConfigSource::ParseFailed(r) => res matches Err(PttoError::ConfigMalformed { path, reason })
                && path@ == CONFIG_FILENAME@ && reason == r,
        }
    }
}

/// Plans a command from what reading `.ptto.toml` gave. A file that could not be read or
/// parsed stops every command but `generate-key` with that error, so no step is planned;
/// `generate-key` does not look at the file at all.
pub fn dispatch(cli: Cli, config_file: ConfigSource) -> (res: Result<Vec<Step>, PttoError>)
    ensures
        spec_dispatch(cli, config_file, res),
{
    let config = if needs_config(&cli.command) {
        PttoConfig::load(config_file)?
    } else {
        PttoConfig::default()
    };
    proof {
        if is_empty_config(config) {
            assert(config == empty_config());
        }
    }
    plan_with_config(cli, config)
}

/// A command that asks for a dry run of `init` or `deploy`.
pub open spec fn is_dry_run_of_init_or_deploy(command: Command) -> bool {
    match command {
        Command::Init { dry_run, .. } => dry_run,
        Command::Deploy { dry_run, .. } => dry_run,
        _ => false,
    }
}

/// A dry run of `init` or `deploy` only prints and creates local directories: it starts
/// no build, no `ssh` and no `scp`.
pub proof fn lemma_dry_run_executes_nothing(cli: Cli, config: PttoConfig)
    requires
        is_dry_run_of_init_or_deploy(cli.command),
    ensures
        spec_plan_with_config(cli, config) matches Ok(plan) ==> forall|i: int|
            0 <= i < plan.len() ==> (#[trigger] plan[i]).action is Print
                || plan[i].action is EnsureParentDir,
{
    match spec_plan_with_config(cli, config) {
        Ok(plan) => {
            assert forall|i: int| 0 <= i < plan.len() implies (#[trigger] plan[i]).action is Print
                || plan[i].action is EnsureParentDir by {
                match cli.command {
                    Command::Deploy { app, domain, target, artifact, source, dry_run } => {
                        let name = app_choice(app, config);
                        let d = or_else(domain, config.domain).unwrap();
                        let t = or_else(target, config.host).unwrap();
                        let build = spec_build_plan(source_choice(source, config), artifact@, true);
                        assert(build.len() == 2);
                        assert(domain_error(d@, byte_len(d@)) is None);
                        assert(plan == spec_deploy_plan(
                            name,
                            d@,
                            t@,
                            opt_string_view(config.ssh_key),
                            artifact@,
                            source_choice(source, config),
                            true,
                        ));
                    },
                    _ => {},
                }
            }
        },
        Err(_) => {},
    }
}

/// `generate-key` is planned the same whatever the configuration holds.
pub proof fn lemma_generate_key_ignores_config(config1: PttoConfig, config2: PttoConfig)
    ensures
        spec_plan_with_config(Cli { command: Command::GenerateKey }, config1) == spec_plan_with_config(
            Cli { command: Command::GenerateKey },
            config2,
        ),
        !spec_needs_config(Command::GenerateKey),
{
}

/// Arguments that start with the non-interactive, accept-new-host-key options, possibly
/// after `-t`.
pub open spec fn guarded_args(args: Seq<Seq<char>>) -> bool {
    ||| args.len() >= 4 && args.take(4) == safety_flags()
    ||| args.len() >= 5 && args[0] == "-t"@ && args.subrange(1, 5) == safety_flags()
}

/// A step that starts no program, or starts `ssh` or `scp` with guarded arguments.
pub open spec fn step_is_guarded(s: StepModel) -> bool {
    match s.action {
        ActionModel::Exec { program, args } => guarded_args(args),
        _ => true,
    }
}

proof fn lemma_invoke_guarded(program: Program, dry_run: bool, args: Seq<Seq<char>>, keep_going: bool)
    requires
        guarded_args(args),
    ensures
        step_is_guarded(StepModel { action: spec_invoke(program, dry_run, args), keep_going }),
{
}

proof fn lemma_calls_guarded(ssh: SshTarget, a: Seq<char>, b: Seq<char>)
    ensures
        step_is_guarded(remote(ssh, a)),
        step_is_guarded(remote_interactive(ssh, a)),
        step_is_guarded(upload(ssh, a, b)),
        step_is_guarded(
            keep_going_on_failure(
                spec_invoke(Program::Scp, ssh.dry_run, spec_scp_download_args(ssh.target, ssh.ssh_key, a, b)),
            ),
        ),
{
    let plain = spec_ssh_args(ssh.target, ssh.ssh_key, a);
    assert(plain.take(4) =~= safety_flags());
    let tty = crate::ssh::spec_interactive_ssh_args(ssh.target, ssh.ssh_key, a);
    assert(tty[0] == "-t"@);
    assert(tty.subrange(1, 5) =~= safety_flags());
    let up = spec_scp_args(ssh.target, ssh.ssh_key, a, b);
    assert(up.take(4) =~= safety_flags());
    let down = spec_scp_download_args(ssh.target, ssh.ssh_key, a, b);
    assert(down.take(4) =~= safety_flags());
    lemma_invoke_guarded(Program::Ssh, ssh.dry_run, plain, false);
    lemma_invoke_guarded(Program::Ssh, ssh.dry_run, tty, false);
    lemma_invoke_guarded(Program::Scp, ssh.dry_run, up, false);
    lemma_invoke_guarded(Program::Scp, ssh.dry_run, down, true);
}

/// Every `ssh` and `scp` that a plan starts runs in batch mode (no password or passphrase
/// prompt) and accepts a host key only the first time it sees the host.
pub proof fn lemma_remote_calls_are_batch_mode(cli: Cli, config: PttoConfig)
    ensures
        spec_plan_with_config(cli, config) matches Ok(plan) ==> forall|i: int|
            0 <= i < plan.len() ==> step_is_guarded(#[trigger] plan[i]),
{
    let key = opt_string_view(config.ssh_key);
    match spec_plan_with_config(cli, config) {
        Ok(plan) => {
            match cli.command {
                Command::Init { target, dry_run } => {
                    let t = or_else(target, config.host).unwrap();
                    let ssh = connection(t@, key, dry_run);
                    lemma_calls_guarded(ssh, MSG_CONNECTIVITY_CHECK@, Seq::empty());
                    lemma_calls_guarded(ssh, join_with(spec_caddy_init_commands(), "\n"@), Seq::empty());
                },
                Command::Deploy { app, domain, target, artifact, source, dry_run } => {
                    let name = app_choice(app, config);
                    let d = or_else(domain, config.domain).unwrap();
                    let t = or_else(target, config.host).unwrap();
                    let ssh = connection(t@, key, dry_run);
                    lemma_calls_guarded(ssh, artifact@, STAGED_ARTIFACT@);
                    lemma_calls_guarded(ssh, spec_blue_green_script(name, d@), Seq::empty());
                    let build = spec_build_plan(source_choice(source, config), artifact@, dry_run);
                    assert forall|i: int| 0 <= i < build.len() implies step_is_guarded(#[trigger] build[i]) by {}
                    assert(plan == spec_deploy_plan(name, d@, t@, key, artifact@, source_choice(source, config), dry_run));
                    assert forall|i: int| 0 <= i < plan.len() implies step_is_guarded(#[trigger] plan[i]) by {
                        if 1 <= i < 1 + build.len() {
                            assert(plan[i] == build[i - 1]);
                        }
                    }
                },
                Command::Logs { service, app, target } => {
                    let svc = logs_service(service@, app_choice(app, config));
                    let t = or_else(target, config.host).unwrap();
                    lemma_calls_guarded(connection(t@, key, false), spec_logs_script(svc), Seq::empty());
                },
                Command::Top { target } => {
                    let t = or_else(target, config.host).unwrap();
                    lemma_calls_guarded(connection(t@, key, false), TOP_SCRIPT@, Seq::empty());
                },
                Command::Traffic { target } => {
                    let t = or_else(target, config.host).unwrap();
                    lemma_calls_guarded(connection(t@, key, false), spec_traffic_script(), Seq::empty());
                },
                Command::Db { app, target, command } => {
                    let name = app_choice(app, config);
                    let t = or_else(target, config.host).unwrap();
                    let ssh = connection(t@, key, false);
                    lemma_calls_guarded(ssh, spec_db_shell_script(name), Seq::empty());
                    lemma_calls_guarded(ssh, spec_db_pull_script(name), Seq::empty());
                    lemma_calls_guarded(ssh, spec_cleanup_script(spec_db_pull_temp(name)), Seq::empty());
                    lemma_calls_guarded(ssh, spec_db_push_script(name), Seq::empty());
                    match command {
                        DbCommand::Pull { local_path } => {
                            lemma_calls_guarded(ssh, spec_db_pull_temp(name), local_path@);
                        },
                        DbCommand::Push { local_path } => {
                            lemma_calls_guarded(ssh, local_path@, spec_db_push_temp(name));
                        },
                        DbCommand::Shell => {},
                    }
                },
                Command::GenerateKey => {},
            }
        },
        Err(_) => {},
    }
}

/// `logs` follows the journal of the service named on the command line whenever that is
/// not the default `ptto-app`, whatever app the command line or the configuration chooses:
/// it announces that service and runs `journalctl -u <service>` on the host. It plans this
/// whenever a host is known and the name is a valid unit name.
pub proof fn lemma_logs_follows_the_named_service(
    service: String,
    app: Option<String>,
    target: Option<String>,
    config: PttoConfig,
)
    requires
        service@ != "ptto-app"@,
    ensures
        ({
            let cli = Cli { command: Command::Logs { service, app, target } };
            &&& (or_else(target, config.host) is Some && unit_name_error(service@, byte_len(service@)) is None)
                ==> spec_plan_with_config(cli, config) is Ok
            &&& spec_plan_with_config(cli, config) matches Ok(plan) ==> {
                &&& plan.len() == 2
                &&& plan[0].action == ActionModel::Print("[ptto] streaming logs for service "@ + service@)
                &&& plan[1].action matches ActionModel::Exec { program, args } && program == Program::Ssh
                    && args.len() > 0 && args.last() == "set -eu; "@ + spec_sudo_prefix("logs"@)
                    + "$SUDO journalctl -u "@ + spec_shell_quote(service@) + " -f --no-pager"@
            }
        }),
{
    reveal_strlit("ptto-app");
    let cli = Cli { command: Command::Logs { service, app, target } };
    assert(logs_service(service@, app_choice(app, config)) == service@);
    match spec_plan_with_config(cli, config) {
        Ok(plan) => {
            let t = or_else(target, config.host).unwrap();
            let ssh = connection(t@, opt_string_view(config.ssh_key), false);
            let args = spec_interactive_ssh_args(ssh.target, ssh.ssh_key, spec_logs_script(service@));
            assert(args.last() == spec_logs_script(service@));
        },
        Err(_) => {},
    }
}

} // verus!
