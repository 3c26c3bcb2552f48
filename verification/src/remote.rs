//! The remote shell scripts and paths that `ptto` runs and uses on the target host.

use vstd::prelude::*;

use crate::shell::{lemma_quoted_then, read_quoted_word, shell_quote, spec_shell_quote, QuoteState};
use crate::text::{
    concat_all, concat_strings, lemma_occurs_within, lemma_offsets_ordered, lemma_segment_occurs,
    lemma_segments_occur, occurs_at, owned, segment_offset, str_eq, string_views,
};

verus! {

/// The app name used when none is given; it keeps the single-app layout under `/opt/ptto`.
pub const DEFAULT_APP: &'static str = "ptto-app";

pub const TOP_SCRIPT: &'static str = "set -eu; if command -v htop >/dev/null 2>&1; then exec htop; elif command -v btop >/dev/null 2>&1; then exec btop; elif command -v top >/dev/null 2>&1; then exec top; else echo '[ptto] error: no top utility found (expected htop, btop, or top)'; exit 1; fi";
pub const TRAFFIC_0: &'static str = "set -eu; ";
pub const TRAFFIC_1: &'static str = "if ! command -v goaccess >/dev/null 2>&1; then echo '[ptto] error: goaccess is not installed (run ptto init)'; exit 1; fi; if [ -f /var/log/caddy/ptto-access.log ]; then log_file=/var/log/caddy/ptto-access.log; elif [ -f /var/log/caddy/access.log ]; then log_file=/var/log/caddy/access.log; else echo '[ptto] error: no Caddy access log found at /var/log/caddy/ptto-access.log or /var/log/caddy/access.log'; exit 1; fi; $SUDO test -r \"$log_file\"; $SUDO tail -F \"$log_file\" | goaccess --log-format=CADDY -";

pub const SUDO_0: &'static str = "if [ \"$(id -u)\" -eq 0 ]; then SUDO=\"\"; elif command -v sudo >/dev/null 2>&1; then if sudo -n true >/dev/null 2>&1; then SUDO=\"sudo\"; else echo \"[ptto] error: passwordless sudo is required for non-interactive ";
pub const SUDO_1: &'static str = "\"; exit 1; fi; else echo \"[ptto] error: root or sudo is required\"; exit 1; fi; ";

pub const INIT_PACKAGES_0: &'static str = "set -eu; ";
pub const INIT_PACKAGES_1: &'static str = "if command -v caddy >/dev/null 2>&1; then echo \"[ptto] Caddy already installed\"; if ! command -v goaccess >/dev/null 2>&1; then if ! command -v apt-get >/dev/null 2>&1; then echo \"[ptto] error: goaccess install requires apt-get (Ubuntu/Debian)\"; exit 1; fi; $SUDO apt-get update; $SUDO apt-get install -y goaccess; fi; else if ! command -v apt-get >/dev/null 2>&1; then echo \"[ptto] error: apt-get is required (Ubuntu/Debian)\"; exit 1; fi; $SUDO apt-get update; $SUDO apt-get install -y debian-keyring debian-archive-keyring apt-transport-https curl gnupg; $SUDO mkdir -p /usr/share/keyrings; tmp_gpg=\"$(mktemp)\"; tmp_list=\"$(mktemp)\"; trap 'rm -f \"$tmp_gpg\" \"$tmp_list\"' EXIT; curl -1sLf https://dl.cloudsmith.io/public/caddy/stable/gpg.key -o \"$tmp_gpg\"; curl -1sLf https://dl.cloudsmith.io/public/caddy/stable/debian.deb.txt -o \"$tmp_list\"; $SUDO gpg --dearmor -o /usr/share/keyrings/caddy-stable-archive-keyring.gpg \"$tmp_gpg\"; $SUDO mv \"$tmp_list\" /etc/apt/sources.list.d/caddy-stable.list; $SUDO apt-get update; $SUDO apt-get install -y caddy goaccess; fi";

pub const INIT_LAYOUT_0: &'static str = "set -eu; ";
pub const INIT_LAYOUT_1: &'static str = "$SUDO install -d -m 755 /opt/ptto/data; $SUDO install -d -m 755 /etc/caddy/apps; if [ ! -f /etc/caddy/Caddyfile ]; then echo 'import /etc/caddy/apps/*.caddy' | $SUDO tee /etc/caddy/Caddyfile >/dev/null; elif ! grep -F -q 'import /etc/caddy/apps/*.caddy' /etc/caddy/Caddyfile; then echo 'import /etc/caddy/apps/*.caddy' | $SUDO tee -a /etc/caddy/Caddyfile >/dev/null; fi; $SUDO systemctl enable --now caddy; $SUDO systemctl status caddy --no-pager --lines=0";


pub const DEPLOY_0: &'static str = "set -eu; ";
pub const DEPLOY_1: &'static str = "$SUDO install -d -m 755 ";
pub const DEPLOY_2: &'static str = " ";
pub const DEPLOY_3: &'static str = " ";
pub const DEPLOY_4: &'static str = " /etc/caddy/apps; if [ ! -f /etc/caddy/Caddyfile ]; then echo 'import /etc/caddy/apps/*.caddy' | $SUDO tee /etc/caddy/Caddyfile >/dev/null; elif ! grep -F -q 'import /etc/caddy/apps/*.caddy' /etc/caddy/Caddyfile; then echo 'import /etc/caddy/apps/*.caddy' | $SUDO tee -a /etc/caddy/Caddyfile >/dev/null; fi; release=\"$(date +%Y%m%d%H%M%S)-$$\"; new_bin=\"";
pub const DEPLOY_5: &'static str = "/";
pub const DEPLOY_6: &'static str = "-$release\"; $SUDO install -m 755 /tmp/ptto-app \"$new_bin\"; pick_port() { while :; do p=\"$(shuf -i 20000-45000 -n 1)\"; if ! ss -ltn \"( sport = :$p )\" | grep -q LISTEN; then echo \"$p\"; return 0; fi; done; }; new_port=\"$(pick_port)\"; new_pid_file=\"";
pub const DEPLOY_7: &'static str = "/";
pub const DEPLOY_8: &'static str = ".next.pid\"; $SUDO sh -c \"PORT=$new_port nohup '$new_bin' >";
pub const DEPLOY_9A: &'static str = " 2>&1 & echo \\$! > '$new_pid_file'\"; attempt=0; until curl -fsS \"http://127.0.0.1:$new_port\" >/dev/null 2>&1 || [ \"$attempt\" -ge 20 ]; do attempt=\"$((attempt+1))\"; sleep 0.5; done; ";
pub const DEPLOY_HEALTH_GATE: &'static str = "if ! curl -fsS \"http://127.0.0.1:$new_port\" >/dev/null 2>&1; then echo \"[ptto] error: new release failed health check\"; new_pid=\"$($SUDO cat \"$new_pid_file\")\"; $SUDO kill \"$new_pid\" >/dev/null 2>&1 || true; $SUDO rm -f \"$new_pid_file\"; exit 1; fi; ";
pub const DEPLOY_9B: &'static str = "tmp_caddy=\"$(mktemp)\"; trap 'rm -f \"$tmp_caddy\"' EXIT; printf '%s' ";
pub const DEPLOY_10: &'static str = " | sed \"s/__PTTO_PORT__/$new_port/g\" > \"$tmp_caddy\"; app_caddy=\"/etc/caddy/apps/";
pub const DEPLOY_11: &'static str = ".caddy\"; backup_dir=\"/etc/caddy/backups\"; $SUDO install -d -m 755 \"$backup_dir\"; if [ -f \"$app_caddy\" ]; then $SUDO cp \"$app_caddy\" \"$backup_dir/";
pub const DEPLOY_12A: &'static str = ".caddy.$(date +%Y%m%d%H%M%S).bak\"; fi; if [ -f /etc/caddy/Caddyfile ]; then $SUDO cp /etc/caddy/Caddyfile \"$backup_dir/Caddyfile.$(date +%Y%m%d%H%M%S).bak\"; fi; ";
pub const DEPLOY_SITE_INSTALL: &'static str = "$SUDO install -m 644 \"$tmp_caddy\" \"$app_caddy\"; ";
pub const DEPLOY_CADDY_VALIDATE: &'static str = "$SUDO caddy validate --config /etc/caddy/Caddyfile; ";
pub const DEPLOY_CADDY_RELOAD: &'static str = "$SUDO systemctl reload caddy; ";
pub const DEPLOY_12B: &'static str = "if $SUDO test -f ";
pub const DEPLOY_13: &'static str = "; then old_pid=\"$($SUDO cat ";
pub const DEPLOY_14A: &'static str = ")\"; if [ -n \"$old_pid\" ] && $SUDO kill -0 \"$old_pid\" >/dev/null 2>&1; then ";
pub const DEPLOY_OLD_TERM: &'static str = "$SUDO kill -TERM \"$old_pid\" || true; ";
pub const DEPLOY_14B: &'static str = "for _ in $(seq 1 20); do if ! $SUDO kill -0 \"$old_pid\" >/dev/null 2>&1; then break; fi; sleep 0.5; done; if $SUDO kill -0 \"$old_pid\" >/dev/null 2>&1; then $SUDO kill -KILL \"$old_pid\" || true; fi; fi; fi; $SUDO mv \"$new_pid_file\" ";
pub const DEPLOY_15: &'static str = "; $SUDO sh -c \"echo '$new_port' > ";
pub const DEPLOY_16A: &'static str = "\"; ";
pub const DEPLOY_LINK: &'static str = "$SUDO ln -sfn \"$new_bin\" ";
pub const DEPLOY_17: &'static str = "; $SUDO systemctl status caddy --no-pager --lines=0";

pub const DB_PULL_0: &'static str = "set -eu; ";
pub const DB_PULL_1: &'static str = "$SUDO install -m 600 ";
pub const DB_PULL_2: &'static str = " ";
pub const DB_PULL_3: &'static str = ";";

pub const DB_PUSH_0: &'static str = "set -eu; ";
pub const DB_PUSH_1: &'static str = "$SUDO install -d -m 755 ";
pub const DB_PUSH_2: &'static str = "; restart_mode=\"none\"; if $SUDO test -f ";
pub const DB_PUSH_3: &'static str = "; then db_old_pid=\"$($SUDO cat ";
pub const DB_PUSH_4: &'static str = ")\"; if [ -n \"$db_old_pid\" ] && $SUDO kill -0 \"$db_old_pid\" >/dev/null 2>&1; then restart_mode=\"pid\"; $SUDO kill -TERM \"$db_old_pid\" || true; for _ in $(seq 1 20); do if ! $SUDO kill -0 \"$db_old_pid\" >/dev/null 2>&1; then break; fi; sleep 0.5; done; if $SUDO kill -0 \"$db_old_pid\" >/dev/null 2>&1; then $SUDO kill -KILL \"$db_old_pid\" || true; fi; fi; elif $SUDO systemctl list-unit-files ";
pub const DB_PUSH_5: &'static str = ".service >/dev/null 2>&1; then restart_mode=\"systemd\"; $SUDO systemctl stop ";
pub const DB_PUSH_6: &'static str = "; fi; tmp_db=";
/// The name of the staging file, in double quotes, that follows the quoted data directory.
pub const DB_PUSH_STAGE: &'static str = "\"/.database.sqlite.ptto-tmp-\"";
pub const DB_PUSH_7: &'static str = "$$; $SUDO install -m 640 ";
pub const DB_PUSH_8: &'static str = " \"$tmp_db\"; $SUDO mv -f \"$tmp_db\" ";
pub const DB_PUSH_9: &'static str = "; $SUDO rm -f ";
pub const DB_PUSH_10: &'static str = "; if [ \"$restart_mode\" = \"pid\" ]; then if $SUDO test -f ";
pub const DB_PUSH_11: &'static str = " && $SUDO test -f ";
pub const DB_PUSH_12: &'static str = "; then db_port=\"$($SUDO cat ";
pub const DB_PUSH_13: &'static str = ")\"; $SUDO sh -c \"PORT=$db_port nohup '";
pub const DB_PUSH_14: &'static str = "' >/var/log/";
pub const DB_PUSH_15: &'static str = ".log 2>&1 & echo \\$! > ";
pub const DB_PUSH_16: &'static str = "\"; fi; elif [ \"$restart_mode\" = \"systemd\" ]; then $SUDO systemctl start ";
pub const DB_PUSH_17: &'static str = "; fi";


/// Whether `app` is the default app, which keeps the single-app layout.
pub open spec fn is_default_app(app: Seq<char>) -> bool {
    app == DEFAULT_APP@
}

/// The directory that holds everything of `app` on the host.
pub open spec fn app_root(app: Seq<char>) -> Seq<char> {
    if is_default_app(app) {
        "/opt/ptto"@
    } else {
        "/opt/ptto/apps/"@ + app
    }
}

pub open spec fn bin_dir(app: Seq<char>) -> Seq<char> {
    app_root(app) + "/bin"@
}

pub open spec fn run_dir(app: Seq<char>) -> Seq<char> {
    app_root(app) + "/run"@
}

pub open spec fn data_dir(app: Seq<char>) -> Seq<char> {
    app_root(app) + "/data"@
}

/// The link to the live release binary.
pub open spec fn bin_link(app: Seq<char>) -> Seq<char> {
    app_root(app) + "/bin/"@ + app
}

pub open spec fn pid_file(app: Seq<char>) -> Seq<char> {
    app_root(app) + "/run/"@ + app + ".pid"@
}

pub open spec fn port_file(app: Seq<char>) -> Seq<char> {
    app_root(app) + "/run/"@ + app + ".port"@
}

/// The file that the app's standard output and error go to.
pub open spec fn app_log_file(app: Seq<char>) -> Seq<char> {
    "/var/log/"@ + app + ".log"@
}

/// The SQLite database of `app`.
pub open spec fn spec_remote_db_path(app: Seq<char>) -> Seq<char> {
    app_root(app) + "/data/database.sqlite"@
}

/// The Caddy access log of `app`.
pub open spec fn caddy_access_log(app: Seq<char>) -> Seq<char> {
    if is_default_app(app) {
        "/var/log/caddy/ptto-access.log"@
    } else {
        "/var/log/caddy/"@ + app + "-access.log"@
    }
}

/// The Caddy site file of `app`, included by the main Caddyfile.
pub open spec fn caddy_site_file(app: Seq<char>) -> Seq<char> {
    "/etc/caddy/apps/"@ + app + ".caddy"@
}

pub fn is_default_app_name(app: &str) -> (res: bool)
    ensures
        res == is_default_app(app@),
{
    str_eq(app, DEFAULT_APP)
}

/// `app_root(app)` followed by `suffix`.
fn app_path(app: &str, suffix: &str) -> (res: String)
    ensures
        res@ == app_root(app@) + suffix@,
{
    let mut out: String;
    if is_default_app_name(app) {
        out = owned("/opt/ptto");
    } else {
        out = owned("/opt/ptto/apps/");
        out.push_str(app);
    }
    out.push_str(suffix);
    out
}

/// Where the database of `app` lives on the host.
pub fn remote_db_path(app: &str) -> (res: String)
    ensures
        res@ == spec_remote_db_path(app@),
{
    let res = app_path(app, "/data/database.sqlite");
    assert(res@ =~= spec_remote_db_path(app@));
    res
}

fn bin_dir_of(app: &str) -> (res: String)
    ensures
        res@ == bin_dir(app@),
{
    app_path(app, "/bin")
}

fn run_dir_of(app: &str) -> (res: String)
    ensures
        res@ == run_dir(app@),
{
    app_path(app, "/run")
}

fn data_dir_of(app: &str) -> (res: String)
    ensures
        res@ == data_dir(app@),
{
    app_path(app, "/data")
}

fn bin_link_of(app: &str) -> (res: String)
    ensures
        res@ == bin_link(app@),
{
    let mut out = app_path(app, "/bin/");
    out.push_str(app);
    assert(out@ =~= bin_link(app@));
    out
}

fn pid_file_of(app: &str) -> (res: String)
    ensures
        res@ == pid_file(app@),
{
    let mut out = app_path(app, "/run/");
    out.push_str(app);
    out.push_str(".pid");
    assert(out@ =~= pid_file(app@));
    out
}

fn port_file_of(app: &str) -> (res: String)
    ensures
        res@ == port_file(app@),
{
    let mut out = app_path(app, "/run/");
    out.push_str(app);
    out.push_str(".port");
    assert(out@ =~= port_file(app@));
    out
}

fn app_log_file_of(app: &str) -> (res: String)
    ensures
        res@ == app_log_file(app@),
{
    let mut out = owned("/var/log/");
    out.push_str(app);
    out.push_str(".log");
    out
}

/// The shell prelude that sets `$SUDO` to empty for root, to `sudo` where passwordless sudo
/// works, and otherwise stops with an error that names the phase.
pub open spec fn spec_sudo_prefix(phase: Seq<char>) -> Seq<char> {
    SUDO_0@ + phase + SUDO_1@
}

pub fn sudo_prefix(phase: &str) -> (res: String)
    ensures
        res@ == spec_sudo_prefix(phase@),
{
    let mut out = owned(SUDO_0);
    out.push_str(phase);
    out.push_str(SUDO_1);
    out
}

/// The Caddy site block that proxies `domain` to `127.0.0.1:<port_expr>` and logs to the
/// app's access log.
pub open spec fn spec_caddyfile(app: Seq<char>, domain: Seq<char>, port_expr: Seq<char>) -> Seq<char> {
    domain + " {\n    reverse_proxy 127.0.0.1:"@ + port_expr + "\n    log {\n        output file "@
        + caddy_access_log(app) + "\n        format console\n    }\n}\n"@
}

pub fn caddyfile_for_port(app: &str, domain: &str, port_expr: &str) -> (res: String)
    ensures
        res@ == spec_caddyfile(app@, domain@, port_expr@),
{
    let log_file: String;
    if is_default_app_name(app) {
        log_file = owned("/var/log/caddy/ptto-access.log");
    } else {
        let mut s = owned("/var/log/caddy/");
        s.push_str(app);
        s.push_str("-access.log");
        log_file = s;
    }
    let mut out = owned(domain);
    out.push_str(" {\n    reverse_proxy 127.0.0.1:");
    out.push_str(port_expr);
    out.push_str("\n    log {\n        output file ");
    out.push_str(log_file.as_str());
    out.push_str("\n        format console\n    }\n}\n");
    out
}

/// The two bootstrap scripts: install Caddy and goaccess, then lay out the directories,
/// make the main Caddyfile import the app sites, and enable Caddy.
pub open spec fn spec_caddy_init_commands() -> Seq<Seq<char>> {
    seq![
        INIT_PACKAGES_0@ + spec_sudo_prefix("init"@) + INIT_PACKAGES_1@,
        INIT_LAYOUT_0@ + spec_sudo_prefix("init"@) + INIT_LAYOUT_1@,
    ]
}

pub fn caddy_init_commands() -> (res: Vec<String>)
    ensures
        string_views(res@) == spec_caddy_init_commands(),
{
    let mut first = owned(INIT_PACKAGES_0);
    first.push_str(sudo_prefix("init").as_str());
    first.push_str(INIT_PACKAGES_1);
    let mut second = owned(INIT_LAYOUT_0);
    second.push_str(sudo_prefix("init").as_str());
    second.push_str(INIT_LAYOUT_1);
    let res = vec![first, second];
    assert(string_views(res@) =~= spec_caddy_init_commands());
    res
}

/// The pieces of the blue-green release script of `app` for `domain`, in order.
pub open spec fn spec_deploy_segments(app: Seq<char>, domain: Seq<char>) -> Seq<Seq<char>> {
    seq![
        DEPLOY_0@,
        spec_sudo_prefix("deploy"@),
        DEPLOY_1@,
        spec_shell_quote(bin_dir(app)),
        DEPLOY_2@,
        spec_shell_quote(run_dir(app)),
        DEPLOY_3@,
        spec_shell_quote(data_dir(app)),
        DEPLOY_4@,
        bin_dir(app),
        DEPLOY_5@,
        app,
        DEPLOY_6@,
        run_dir(app),
        DEPLOY_7@,
        app,
        DEPLOY_8@,
        spec_shell_quote(app_log_file(app)),
        DEPLOY_9A@,
        DEPLOY_HEALTH_GATE@,
        DEPLOY_9B@,
        spec_shell_quote(spec_caddyfile(app, domain, "__PTTO_PORT__"@)),
        DEPLOY_10@,
        app,
        DEPLOY_11@,
        app,
        DEPLOY_12A@,
        DEPLOY_SITE_INSTALL@,
        DEPLOY_CADDY_VALIDATE@,
        DEPLOY_CADDY_RELOAD@,
        DEPLOY_12B@,
        spec_shell_quote(pid_file(app)),
        DEPLOY_13@,
        spec_shell_quote(pid_file(app)),
        DEPLOY_14A@,
        DEPLOY_OLD_TERM@,
        DEPLOY_14B@,
        spec_shell_quote(pid_file(app)),
        DEPLOY_15@,
        spec_shell_quote(port_file(app)),
        DEPLOY_16A@,
        DEPLOY_LINK@,
        spec_shell_quote(bin_link(app)),
        DEPLOY_17@,
    ]
}

/// The blue-green release script of `app` for `domain`: install the new binary, start it
/// on a free port, wait for it to answer (or stop it and fail), point the app's Caddy
/// site at it, reload Caddy, stop the previous process and record the new one.
pub open spec fn spec_blue_green_script(app: Seq<char>, domain: Seq<char>) -> Seq<char> {
    concat_all(spec_deploy_segments(app, domain))
}

pub fn blue_green_deploy_commands(app: &str, domain: &str) -> (res: Vec<String>)
    ensures
        string_views(res@) == seq![spec_blue_green_script(app@, domain@)],
{
    let caddy_template = shell_quote(caddyfile_for_port(app, domain, "__PTTO_PORT__").as_str());
    let bin = bin_dir_of(app);
    let run = run_dir_of(app);
    let data = data_dir_of(app);
    let link = bin_link_of(app);
    let pid = pid_file_of(app);
    let port = port_file_of(app);
    let log = app_log_file_of(app);
    let parts: Vec<String> = vec![
        owned(DEPLOY_0),
        sudo_prefix("deploy"),
        owned(DEPLOY_1),
        shell_quote(bin.as_str()),
        owned(DEPLOY_2),
        shell_quote(run.as_str()),
        owned(DEPLOY_3),
        shell_quote(data.as_str()),
        owned(DEPLOY_4),
        bin.clone(),
        owned(DEPLOY_5),
        owned(app),
        owned(DEPLOY_6),
        run.clone(),
        owned(DEPLOY_7),
        owned(app),
        owned(DEPLOY_8),
        shell_quote(log.as_str()),
        owned(DEPLOY_9A),
        owned(DEPLOY_HEALTH_GATE),
        owned(DEPLOY_9B),
        caddy_template,
        owned(DEPLOY_10),
        owned(app),
        owned(DEPLOY_11),
        owned(app),
        owned(DEPLOY_12A),
        owned(DEPLOY_SITE_INSTALL),
        owned(DEPLOY_CADDY_VALIDATE),
        owned(DEPLOY_CADDY_RELOAD),
        owned(DEPLOY_12B),
        shell_quote(pid.as_str()),
        owned(DEPLOY_13),
        shell_quote(pid.as_str()),
        owned(DEPLOY_14A),
        owned(DEPLOY_OLD_TERM),
        owned(DEPLOY_14B),
        shell_quote(pid.as_str()),
        owned(DEPLOY_15),
        shell_quote(port.as_str()),
        owned(DEPLOY_16A),
        owned(DEPLOY_LINK),
        shell_quote(link.as_str()),
        owned(DEPLOY_17),
    ];
    assert(string_views(parts@) =~= spec_deploy_segments(app@, domain@));
    let script = concat_strings(parts.as_slice());
    let res = vec![script];
    assert(string_views(res@) =~= seq![spec_blue_green_script(app@, domain@)]);
    res
}

/// The interactive SQLite shell on the database of `app`.
pub open spec fn spec_db_shell_script(app: Seq<char>) -> Seq<char> {
    "set -eu; "@ + spec_sudo_prefix("db shell"@) + "$SUDO sqlite3 "@ + spec_shell_quote(
        spec_remote_db_path(app),
    )
}

pub fn db_shell_script(app: &str) -> (res: String)
    ensures
        res@ == spec_db_shell_script(app@),
{
    let mut out = owned("set -eu; ");
    out.push_str(sudo_prefix("db shell").as_str());
    out.push_str("$SUDO sqlite3 ");
    out.push_str(shell_quote(remote_db_path(app).as_str()).as_str());
    out
}

/// The host file that `db pull` copies the database to before downloading it.
pub open spec fn spec_db_pull_temp(app: Seq<char>) -> Seq<char> {
    "/tmp/ptto-db-pull-"@ + app + ".sqlite"@
}

pub fn db_pull_temp(app: &str) -> (res: String)
    ensures
        res@ == spec_db_pull_temp(app@),
{
    let mut out = owned("/tmp/ptto-db-pull-");
    out.push_str(app);
    out.push_str(".sqlite");
    out
}

/// The host file that `db push` uploads the database to before installing it.
pub open spec fn spec_db_push_temp(app: Seq<char>) -> Seq<char> {
    "/tmp/ptto-database-"@ + app + ".sqlite"@
}

pub fn db_push_temp(app: &str) -> (res: String)
    ensures
        res@ == spec_db_push_temp(app@),
{
    let mut out = owned("/tmp/ptto-database-");
    out.push_str(app);
    out.push_str(".sqlite");
    out
}

/// Copies the database of `app` to the pull staging file, readable only by its owner.
pub open spec fn spec_db_pull_script(app: Seq<char>) -> Seq<char> {
    DB_PULL_0@ + spec_sudo_prefix("db pull"@) + DB_PULL_1@ + spec_shell_quote(
        spec_remote_db_path(app),
    ) + DB_PULL_2@ + spec_shell_quote(spec_db_pull_temp(app)) + DB_PULL_3@
}

pub fn db_pull_script(app: &str) -> (res: String)
    ensures
        res@ == spec_db_pull_script(app@),
{
    let mut out = owned(DB_PULL_0);
    out.push_str(sudo_prefix("db pull").as_str());
    out.push_str(DB_PULL_1);
    out.push_str(shell_quote(remote_db_path(app).as_str()).as_str());
    out.push_str(DB_PULL_2);
    out.push_str(shell_quote(db_pull_temp(app).as_str()).as_str());
    out.push_str(DB_PULL_3);
    out
}

/// Removes a staging file on the host.
pub open spec fn spec_cleanup_script(path: Seq<char>) -> Seq<char> {
    "set -eu; rm -f "@ + spec_shell_quote(path)
}

pub fn cleanup_script(path: &str) -> (res: String)
    ensures
        res@ == spec_cleanup_script(path@),
{
    let mut out = owned("set -eu; rm -f ");
    out.push_str(shell_quote(path).as_str());
    out
}

/// The pieces of the script that replaces the database of `app`, in order.
pub open spec fn spec_db_push_segments(app: Seq<char>) -> Seq<Seq<char>> {
    seq![
        DB_PUSH_0@,
        spec_sudo_prefix("db push"@),
        DB_PUSH_1@,
        spec_shell_quote(data_dir(app)),
        DB_PUSH_2@,
        spec_shell_quote(pid_file(app)),
        DB_PUSH_3@,
        spec_shell_quote(pid_file(app)),
        DB_PUSH_4@,
        spec_shell_quote(app),
        DB_PUSH_5@,
        spec_shell_quote(app),
        DB_PUSH_6@,
        spec_shell_quote(data_dir(app)),
        DB_PUSH_STAGE@,
        DB_PUSH_7@,
        spec_shell_quote(spec_db_push_temp(app)),
        DB_PUSH_8@,
        spec_shell_quote(spec_remote_db_path(app)),
        DB_PUSH_9@,
        spec_shell_quote(spec_db_push_temp(app)),
        DB_PUSH_10@,
        spec_shell_quote(bin_link(app)),
        DB_PUSH_11@,
        spec_shell_quote(port_file(app)),
        DB_PUSH_12@,
        spec_shell_quote(port_file(app)),
        DB_PUSH_13@,
        spec_shell_quote(bin_link(app)),
        DB_PUSH_14@,
        spec_shell_quote(app),
        DB_PUSH_15@,
        spec_shell_quote(pid_file(app)),
        DB_PUSH_16@,
        spec_shell_quote(app),
        DB_PUSH_17@,
    ]
}

/// Stops the running app (by its pid file, or its systemd unit), installs the uploaded
/// database in its place and starts the app again the way it was running.
pub open spec fn spec_db_push_script(app: Seq<char>) -> Seq<char> {
    concat_all(spec_db_push_segments(app))
}

pub fn db_push_script(app: &str) -> (res: String)
    ensures
        res@ == spec_db_push_script(app@),
{
    let dir = shell_quote(data_dir_of(app).as_str());
    let pid = shell_quote(pid_file_of(app).as_str());
    let name = shell_quote(app);
    let temp = shell_quote(db_push_temp(app).as_str());
    let db = shell_quote(remote_db_path(app).as_str());
    let bin = shell_quote(bin_link_of(app).as_str());
    let port = shell_quote(port_file_of(app).as_str());
    let parts: Vec<String> = vec![
        owned(DB_PUSH_0),
        sudo_prefix("db push"),
        owned(DB_PUSH_1),
        dir.clone(),
        owned(DB_PUSH_2),
        pid.clone(),
        owned(DB_PUSH_3),
        pid.clone(),
        owned(DB_PUSH_4),
        name.clone(),
        owned(DB_PUSH_5),
        name.clone(),
        owned(DB_PUSH_6),
        dir.clone(),
        owned(DB_PUSH_STAGE),
        owned(DB_PUSH_7),
        temp.clone(),
        owned(DB_PUSH_8),
        db.clone(),
        owned(DB_PUSH_9),
        temp.clone(),
        owned(DB_PUSH_10),
        bin.clone(),
        owned(DB_PUSH_11),
        port.clone(),
        owned(DB_PUSH_12),
        port.clone(),
        owned(DB_PUSH_13),
        bin.clone(),
        owned(DB_PUSH_14),
        name.clone(),
        owned(DB_PUSH_15),
        pid.clone(),
        owned(DB_PUSH_16),
        name.clone(),
        owned(DB_PUSH_17),
    ];
    assert(string_views(parts@) =~= spec_db_push_segments(app@));
    concat_strings(parts.as_slice())
}

/// Follows the journal of a systemd unit.
pub open spec fn spec_logs_script(service: Seq<char>) -> Seq<char> {
    "set -eu; "@ + spec_sudo_prefix("logs"@) + "$SUDO journalctl -u "@ + spec_shell_quote(service)
        + " -f --no-pager"@
}

pub fn logs_script(service: &str) -> (res: String)
    ensures
        res@ == spec_logs_script(service@),
{
    let mut out = owned("set -eu; ");
    out.push_str(sudo_prefix("logs").as_str());
    out.push_str("$SUDO journalctl -u ");
    out.push_str(shell_quote(service).as_str());
    out.push_str(" -f --no-pager");
    out
}

/// Streams the Caddy access log into goaccess.
pub open spec fn spec_traffic_script() -> Seq<char> {
    TRAFFIC_0@ + spec_sudo_prefix("traffic"@) + TRAFFIC_1@
}

pub fn traffic_script() -> (res: String)
    ensures
        res@ == spec_traffic_script(),
{
    let mut out = owned(TRAFFIC_0);
    out.push_str(sudo_prefix("traffic").as_str());
    out.push_str(TRAFFIC_1);
    out
}

proof fn lemma_infix_injective(p: Seq<char>, a: Seq<char>, b: Seq<char>, q: Seq<char>)
    requires
        p + a + q == p + b + q,
    ensures
        a == b,
{
    let x = p + a + q;
    let y = p + b + q;
    assert(x.len() == y.len());
    assert((p + a).len() == p.len() + a.len());
    assert((p + b).len() == p.len() + b.len());
    assert(x.len() == (p + a).len() + q.len());
    assert(y.len() == (p + b).len() + q.len());
    assert(a.len() == b.len());
    assert(x.subrange(p.len() as int, (p.len() + a.len()) as int) =~= a);
    assert(y.subrange(p.len() as int, (p.len() + b.len()) as int) =~= b);
}

/// Apps never share a database, a data, binary or run directory, a Caddy site file or an
/// output log:
/// different app names give different paths.
pub proof fn lemma_apps_are_isolated(a: Seq<char>, b: Seq<char>)
    requires
        a != b,
    ensures
        spec_remote_db_path(a) != spec_remote_db_path(b),
        data_dir(a) != data_dir(b),
        bin_dir(a) != bin_dir(b),
        run_dir(a) != run_dir(b),
        caddy_site_file(a) != caddy_site_file(b),
        app_log_file(a) != app_log_file(b),
{
    reveal_strlit("/opt/ptto");
    reveal_strlit("/opt/ptto/apps/");
    reveal_strlit("/data/database.sqlite");
    reveal_strlit("/data");
    reveal_strlit("/bin");
    reveal_strlit("/run");
    let root = "/opt/ptto/apps/"@;
    let empty = Seq::<char>::empty();
    if caddy_site_file(a) == caddy_site_file(b) {
        lemma_infix_injective("/etc/caddy/apps/"@, a, b, ".caddy"@);
    }
    if app_log_file(a) == app_log_file(b) {
        lemma_infix_injective("/var/log/"@, a, b, ".log"@);
    }
    let suffixes = seq!["/data/database.sqlite"@, "/data"@, "/bin"@, "/run"@];
    assert forall|k: int| 0 <= k < 4 implies app_root(a) + #[trigger] suffixes[k] != app_root(b) + suffixes[k] by {
        let sfx = suffixes[k];
        if app_root(a) + sfx == app_root(b) + sfx {
            if is_default_app(a) && is_default_app(b) {
                assert(a == b);
            } else if !is_default_app(a) && !is_default_app(b) {
                lemma_infix_injective(root, a, b, sfx);
            } else {
                assert((app_root(a) + sfx).len() != (app_root(b) + sfx).len());
            }
        }
    }
    assert(suffixes[0] == "/data/database.sqlite"@);
    assert(suffixes[1] == "/data"@);
    assert(suffixes[2] == "/bin"@);
    assert(suffixes[3] == "/run"@);
}

/// `needle` stands somewhere in `hay`.
pub open spec fn occurs_in(hay: Seq<char>, needle: Seq<char>) -> bool {
    exists|i: int| occurs_at(hay, needle, i)
}

/// `db push` stops and restarts the app through the same pid file, port file and binary
/// link that the deploy script of that app records.
pub proof fn lemma_db_push_uses_deploy_paths(app: Seq<char>, domain: Seq<char>)
    ensures
        occurs_in(spec_db_push_script(app), spec_shell_quote(pid_file(app))),
        occurs_in(spec_blue_green_script(app, domain), spec_shell_quote(pid_file(app))),
        occurs_in(spec_db_push_script(app), spec_shell_quote(port_file(app))),
        occurs_in(spec_blue_green_script(app, domain), spec_shell_quote(port_file(app))),
        occurs_in(spec_db_push_script(app), spec_shell_quote(bin_link(app))),
        occurs_in(spec_blue_green_script(app, domain), spec_shell_quote(bin_link(app))),
{
    let push = spec_db_push_segments(app);
    let deploy = spec_deploy_segments(app, domain);
    lemma_segment_occurs(push, 5);
    lemma_segment_occurs(push, 24);
    lemma_segment_occurs(push, 22);
    lemma_segment_occurs(deploy, 31);
    lemma_segment_occurs(deploy, 39);
    lemma_segment_occurs(deploy, 42);
}

/// The word that `db push` assigns to `tmp_db`, before the shell's pid is appended.
pub open spec fn db_push_stage_word(app: Seq<char>) -> Seq<char> {
    spec_shell_quote(data_dir(app)) + DB_PUSH_STAGE@
}

proof fn lemma_stage_name_reads()
    ensures
        read_quoted_word(DB_PUSH_STAGE@, QuoteState::Unquoted) == Some("/.database.sqlite.ptto-tmp-"@),
{
    reveal_strlit("\"/.database.sqlite.ptto-tmp-\"");
    reveal_strlit("/.database.sqlite.ptto-tmp-");
    reveal_with_fuel(read_quoted_word, 32);
}

proof fn lemma_db_push_staging_run(app: Seq<char>)
    ensures
        occurs_in(
            spec_db_push_script(app),
            DB_PUSH_6@ + db_push_stage_word(app) + DB_PUSH_7@ + spec_shell_quote(spec_db_push_temp(app))
                + DB_PUSH_8@ + spec_shell_quote(spec_remote_db_path(app)),
        ),
{
    let push = spec_db_push_segments(app);
    lemma_segments_occur(push, 12, 19);
    let run = push.subrange(12, 19);
    assert(run =~= seq![
        DB_PUSH_6@,
        spec_shell_quote(data_dir(app)),
        DB_PUSH_STAGE@,
        DB_PUSH_7@,
        spec_shell_quote(spec_db_push_temp(app)),
        DB_PUSH_8@,
        spec_shell_quote(spec_remote_db_path(app)),
    ]);
    reveal_with_fuel(concat_all, 8);
    assert(concat_all(run) =~= DB_PUSH_6@ + db_push_stage_word(app) + DB_PUSH_7@
        + spec_shell_quote(spec_db_push_temp(app)) + DB_PUSH_8@ + spec_shell_quote(
        spec_remote_db_path(app),
    ));
}

/// `db push` replaces the database through a staging file next to it: the word assigned to
/// `tmp_db` reads, in a POSIX shell, as the app's data directory followed by
/// `/.database.sqlite.ptto-tmp-` (the shell's pid follows it); the upload is installed
/// there and then moved onto the database path, which lies in that same directory.
pub proof fn lemma_db_push_stages_next_to_database(app: Seq<char>)
    ensures
        read_quoted_word(db_push_stage_word(app), QuoteState::Unquoted) == Some(
            data_dir(app) + "/.database.sqlite.ptto-tmp-"@,
        ),
        spec_remote_db_path(app) == data_dir(app) + "/database.sqlite"@,
        occurs_in(
            spec_db_push_script(app),
            DB_PUSH_6@ + db_push_stage_word(app) + DB_PUSH_7@ + spec_shell_quote(spec_db_push_temp(app))
                + DB_PUSH_8@ + spec_shell_quote(spec_remote_db_path(app)),
        ),
{
    lemma_stage_name_reads();
    lemma_quoted_then(data_dir(app), DB_PUSH_STAGE@);
    reveal_strlit("/data");
    reveal_strlit("/database.sqlite");
    reveal_strlit("/data/database.sqlite");
    assert(spec_remote_db_path(app) =~= data_dir(app) + "/database.sqlite"@);
    lemma_db_push_staging_run(app);
}

/// The release fragments stand in `s` at these positions, each after the one before.
pub open spec fn release_in_order(s: Seq<char>, gate: int, site: int, check: int, reload: int, term: int, link: int) -> bool {
    &&& occurs_at(s, DEPLOY_HEALTH_GATE@, gate)
    &&& gate + DEPLOY_HEALTH_GATE@.len() <= site
    &&& occurs_at(s, DEPLOY_SITE_INSTALL@, site)
    &&& site + DEPLOY_SITE_INSTALL@.len() <= check
    &&& occurs_at(s, DEPLOY_CADDY_VALIDATE@, check)
    &&& check + DEPLOY_CADDY_VALIDATE@.len() <= reload
    &&& occurs_at(s, DEPLOY_CADDY_RELOAD@, reload)
    &&& reload + DEPLOY_CADDY_RELOAD@.len() <= term
    &&& occurs_at(s, DEPLOY_OLD_TERM@, term)
    &&& term + DEPLOY_OLD_TERM@.len() <= link
    &&& occurs_at(s, DEPLOY_LINK@, link)
}

/// In the deploy script, the health check's failure branch (which stops the new process
/// and exits) comes before the app's Caddy site is written, Caddy is checked and reloaded,
/// the old process is sent TERM and the live link is switched, in that order.
pub proof fn lemma_health_check_gates_the_switch(app: Seq<char>, domain: Seq<char>)
    ensures
        DEPLOY_HEALTH_GATE@.len() >= 12,
        DEPLOY_HEALTH_GATE@.subrange(DEPLOY_HEALTH_GATE@.len() - 12, DEPLOY_HEALTH_GATE@.len() as int)
            == "exit 1; fi; "@,
        exists|gate: int, site: int, check: int, reload: int, term: int, link: int|
            #[trigger] release_in_order(
                spec_blue_green_script(app, domain),
                gate,
                site,
                check,
                reload,
                term,
                link,
            ),
{
    reveal_strlit("if ! curl -fsS \"http://127.0.0.1:$new_port\" >/dev/null 2>&1; then echo \"[ptto] error: new release failed health check\"; new_pid=\"$($SUDO cat \"$new_pid_file\")\"; $SUDO kill \"$new_pid\" >/dev/null 2>&1 || true; $SUDO rm -f \"$new_pid_file\"; exit 1; fi; ");
    reveal_strlit("exit 1; fi; ");
    let g = DEPLOY_HEALTH_GATE@;
    assert(g.subrange(g.len() - 12, g.len() as int) =~= "exit 1; fi; "@);
    let segs = spec_deploy_segments(app, domain);
    let s = spec_blue_green_script(app, domain);
    lemma_segment_occurs(segs, 19);
    lemma_segment_occurs(segs, 27);
    lemma_segment_occurs(segs, 28);
    lemma_segment_occurs(segs, 29);
    lemma_segment_occurs(segs, 35);
    lemma_segment_occurs(segs, 41);
    lemma_offsets_ordered(segs, 19, 27);
    lemma_offsets_ordered(segs, 27, 28);
    lemma_offsets_ordered(segs, 28, 29);
    lemma_offsets_ordered(segs, 29, 35);
    lemma_offsets_ordered(segs, 35, 41);
    let gate = segment_offset(segs, 19);
    let site = segment_offset(segs, 27);
    let check = segment_offset(segs, 28);
    let reload = segment_offset(segs, 29);
    let term = segment_offset(segs, 35);
    let link = segment_offset(segs, 41);
    assert(occurs_at(s, DEPLOY_HEALTH_GATE@, gate));
    assert(occurs_at(s, DEPLOY_SITE_INSTALL@, site));
    assert(occurs_at(s, DEPLOY_CADDY_VALIDATE@, check));
    assert(occurs_at(s, DEPLOY_CADDY_RELOAD@, reload));
    assert(occurs_at(s, DEPLOY_OLD_TERM@, term));
    assert(occurs_at(s, DEPLOY_LINK@, link));
    assert(release_in_order(s, gate, site, check, reload, term, link));
}

/// The Caddy site that a deploy writes proxies to the placeholder port `__PTTO_PORT__`, and
/// the script pipes it through a `sed` that replaces the placeholder with the port the new
/// release was started on: after the switch Caddy proxies to the new release.
pub proof fn lemma_deploy_points_caddy_at_new_port(app: Seq<char>, domain: Seq<char>)
    ensures
        occurs_in(
            spec_blue_green_script(app, domain),
            "printf '%s' "@ + spec_shell_quote(
                domain + " {\n    reverse_proxy 127.0.0.1:__PTTO_PORT__\n    log {\n        output file "@
                    + caddy_access_log(app) + "\n        format console\n    }\n}\n"@,
            ) + " | sed \"s/__PTTO_PORT__/$new_port/g\" > \"$tmp_caddy\""@,
        ),
{
    let before = "tmp_caddy=\"$(mktemp)\"; trap 'rm -f \"$tmp_caddy\"' EXIT; "@;
    let print = "printf '%s' "@;
    let pipe = " | sed \"s/__PTTO_PORT__/$new_port/g\" > \"$tmp_caddy\""@;
    let after = "; app_caddy=\"/etc/caddy/apps/"@;
    reveal_strlit("tmp_caddy=\"$(mktemp)\"; trap 'rm -f \"$tmp_caddy\"' EXIT; printf '%s' ");
    reveal_strlit("tmp_caddy=\"$(mktemp)\"; trap 'rm -f \"$tmp_caddy\"' EXIT; ");
    reveal_strlit("printf '%s' ");
    reveal_strlit(" | sed \"s/__PTTO_PORT__/$new_port/g\" > \"$tmp_caddy\"; app_caddy=\"/etc/caddy/apps/");
    reveal_strlit(" | sed \"s/__PTTO_PORT__/$new_port/g\" > \"$tmp_caddy\"");
    reveal_strlit("; app_caddy=\"/etc/caddy/apps/");
    assert(DEPLOY_9B@ =~= before + print);
    assert(DEPLOY_10@ =~= pipe + after);
    reveal_strlit("__PTTO_PORT__");
    reveal_strlit(" {\n    reverse_proxy 127.0.0.1:");
    reveal_strlit("\n    log {\n        output file ");
    reveal_strlit(" {\n    reverse_proxy 127.0.0.1:__PTTO_PORT__\n    log {\n        output file ");
    let site = domain + " {\n    reverse_proxy 127.0.0.1:__PTTO_PORT__\n    log {\n        output file "@
        + caddy_access_log(app) + "\n        format console\n    }\n}\n"@;
    assert(spec_caddyfile(app, domain, "__PTTO_PORT__"@) =~= site);
    let segs = spec_deploy_segments(app, domain);
    lemma_segments_occur(segs, 20, 23);
    let run = segs.subrange(20, 23);
    assert(run =~= seq![DEPLOY_9B@, spec_shell_quote(site), DEPLOY_10@]);
    reveal_with_fuel(concat_all, 4);
    let whole = before + print + spec_shell_quote(site) + pipe + after;
    assert(concat_all(run) =~= whole);
    let at = segment_offset(segs, 20);
    lemma_occurs_within(
        spec_blue_green_script(app, domain),
        whole,
        at,
        before.len() as int,
        whole.len() - after.len(),
    );
    assert(whole.subrange(before.len() as int, whole.len() - after.len()) =~= print + spec_shell_quote(
        site,
    ) + pipe);
}

/// After `db push` has moved the staged upload onto the database, it removes the upload it
/// copied to `/tmp/ptto-database-<app>.sqlite`, which is never the database itself.
pub proof fn lemma_db_push_removes_only_the_upload(app: Seq<char>)
    ensures
        occurs_in(
            spec_db_push_script(app),
            "$SUDO mv -f \"$tmp_db\" "@ + spec_shell_quote(app_root(app) + "/data/database.sqlite"@)
                + "; $SUDO rm -f "@ + spec_shell_quote("/tmp/ptto-database-"@ + app + ".sqlite"@)
                + "; "@,
        ),
        "/tmp/ptto-database-"@ + app + ".sqlite"@ != app_root(app) + "/data/database.sqlite"@,
{
    let moved = " \"$tmp_db\"; "@;
    let mv = "$SUDO mv -f \"$tmp_db\" "@;
    let rm = "; $SUDO rm -f "@;
    let semi = "; "@;
    let rest = "if [ \"$restart_mode\" = \"pid\" ]; then if $SUDO test -f "@;
    reveal_strlit(" \"$tmp_db\"; $SUDO mv -f \"$tmp_db\" ");
    reveal_strlit(" \"$tmp_db\"; ");
    reveal_strlit("$SUDO mv -f \"$tmp_db\" ");
    reveal_strlit("; if [ \"$restart_mode\" = \"pid\" ]; then if $SUDO test -f ");
    reveal_strlit("; ");
    reveal_strlit("if [ \"$restart_mode\" = \"pid\" ]; then if $SUDO test -f ");
    assert(DB_PUSH_8@ =~= moved + mv);
    assert(DB_PUSH_10@ =~= semi + rest);
    let db = app_root(app) + "/data/database.sqlite"@;
    let temp = "/tmp/ptto-database-"@ + app + ".sqlite"@;
    assert(spec_remote_db_path(app) == db);
    assert(spec_db_push_temp(app) == temp);
    let segs = spec_db_push_segments(app);
    lemma_segments_occur(segs, 17, 22);
    let run = segs.subrange(17, 22);
    assert(run =~= seq![DB_PUSH_8@, spec_shell_quote(db), DB_PUSH_9@, spec_shell_quote(temp), DB_PUSH_10@]);
    reveal_with_fuel(concat_all, 6);
    let whole = moved + mv + spec_shell_quote(db) + rm + spec_shell_quote(temp) + semi + rest;
    assert(concat_all(run) =~= whole);
    lemma_occurs_within(
        spec_db_push_script(app),
        whole,
        segment_offset(segs, 17),
        moved.len() as int,
        whole.len() - rest.len(),
    );
    assert(whole.subrange(moved.len() as int, whole.len() - rest.len()) =~= mv + spec_shell_quote(db)
        + rm + spec_shell_quote(temp) + semi);
    reveal_strlit("/tmp/ptto-database-");
    reveal_strlit("/opt/ptto");
    reveal_strlit("/opt/ptto/apps/");
    assert(temp[1] == 't');
    assert(db[1] == 'o');
}

/// `db pull` copies the app's live database to the staging file
/// `/tmp/ptto-db-pull-<app>.sqlite` that is then downloaded: the database is the source of
/// the copy, never its destination.
pub proof fn lemma_db_pull_copies_from_the_database(app: Seq<char>)
    ensures
        spec_db_pull_script(app) == "set -eu; "@ + spec_sudo_prefix("db pull"@) + "$SUDO install -m 600 "@
            + spec_shell_quote(app_root(app) + "/data/database.sqlite"@) + " "@ + spec_shell_quote(
            "/tmp/ptto-db-pull-"@ + app + ".sqlite"@,
        ) + ";"@,
        "/tmp/ptto-db-pull-"@ + app + ".sqlite"@ != app_root(app) + "/data/database.sqlite"@,
{
    let db = app_root(app) + "/data/database.sqlite"@;
    let temp = "/tmp/ptto-db-pull-"@ + app + ".sqlite"@;
    assert(spec_remote_db_path(app) == db);
    reveal_strlit("/tmp/ptto-db-pull-");
    reveal_strlit("/opt/ptto");
    reveal_strlit("/opt/ptto/apps/");
    assert(temp[1] == 't');
    assert(db[1] == 'o');
}

} // verus!
