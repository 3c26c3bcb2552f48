//! Command lines for `ssh` and `scp`, and the actions that run them (or, in a dry run,
//! print them).

use vstd::prelude::*;

use crate::plan::{Action, ActionModel, Program};
use crate::text::{join, join_with, owned, string_views};

verus! {

/// The options every `ssh` and `scp` call carries: never prompt, and accept a host key
/// only the first time it is seen.
pub open spec fn safety_flags() -> Seq<Seq<char>> {
    seq!["-o"@, "BatchMode=yes"@, "-o"@, "StrictHostKeyChecking=accept-new"@]
}

/// `-i <key>` where an identity file is given.
pub open spec fn identity_flags(ssh_key: Option<Seq<char>>) -> Seq<Seq<char>> {
    match ssh_key {
        Some(key) => seq!["-i"@, key],
        None => Seq::empty(),
    }
}

/// The arguments of `ssh` that run `remote_command` on `target`.
pub open spec fn spec_ssh_args(target: Seq<char>, ssh_key: Option<Seq<char>>, remote_command: Seq<char>) -> Seq<Seq<char>> {
    safety_flags() + identity_flags(ssh_key) + seq!["--"@, target, remote_command]
}

/// The arguments of `ssh` for a command that needs a terminal.
pub open spec fn spec_interactive_ssh_args(
    target: Seq<char>,
    ssh_key: Option<Seq<char>>,
    remote_command: Seq<char>,
) -> Seq<Seq<char>> {
    seq!["-t"@] + spec_ssh_args(target, ssh_key, remote_command)
}

/// The arguments of `scp` that upload `local_file` to `remote_path` on `target`.
pub open spec fn spec_scp_args(
    target: Seq<char>,
    ssh_key: Option<Seq<char>>,
    local_file: Seq<char>,
    remote_path: Seq<char>,
) -> Seq<Seq<char>> {
    safety_flags() + identity_flags(ssh_key) + seq!["--"@, local_file, target + ":"@ + remote_path]
}

/// The arguments of `scp` that download `remote_path` on `target` to `local_file`.
pub open spec fn spec_scp_download_args(
    target: Seq<char>,
    ssh_key: Option<Seq<char>>,
    remote_path: Seq<char>,
    local_file: Seq<char>,
) -> Seq<Seq<char>> {
    safety_flags() + identity_flags(ssh_key) + seq!["--"@, target + ":"@ + remote_path, local_file]
}

/// Run `program` with `args`, or in a dry run print the command line instead.
pub open spec fn spec_invoke(program: Program, dry_run: bool, args: Seq<Seq<char>>) -> ActionModel {
    if dry_run {
        ActionModel::Print(
            "[ptto] dry-run: "@ + program_name(program) + " "@ + join_with(args, " "@),
        )
    } else {
        ActionModel::Exec { program, args }
    }
}

pub open spec fn program_name(program: Program) -> Seq<char> {
    match program {
        Program::Ssh => "ssh"@,
        Program::Scp => "scp"@,
    }
}

pub open spec fn opt_view(o: Option<&str>) -> Option<Seq<char>> {
    match o {
        Some(s) => Some(s@),
        None => None,
    }
}

pub open spec fn opt_string_view(o: Option<String>) -> Option<Seq<char>> {
    match o {
        Some(s) => Some(s@),
        None => None,
    }
}

fn safety_flag_args(ssh_key: Option<&str>) -> (res: Vec<String>)
    ensures
        string_views(res@) == safety_flags() + identity_flags(opt_view(ssh_key)),
{
    let mut args: Vec<String> = vec![
        owned("-o"),
        owned("BatchMode=yes"),
        owned("-o"),
        owned("StrictHostKeyChecking=accept-new"),
    ];
    match ssh_key {
        Some(key) => {
            args.push(owned("-i"));
            args.push(owned(key));
        },
        None => {},
    }
    assert(string_views(args@) =~= safety_flags() + identity_flags(opt_view(ssh_key)));
    args
}

/// `-o BatchMode=yes -o StrictHostKeyChecking=accept-new [-i <key>] -- <target> <command>`.
pub fn build_ssh_args(target: &str, ssh_key: Option<&str>, remote_command: &str) -> (res: Vec<String>)
    ensures
        string_views(res@) == spec_ssh_args(target@, opt_view(ssh_key), remote_command@),
{
    let mut args = safety_flag_args(ssh_key);
    let ghost before = string_views(args@);
    args.push(owned("--"));
    args.push(owned(target));
    args.push(owned(remote_command));
    assert(string_views(args@) =~= before + seq!["--"@, target@, remote_command@]);
    args
}

/// `-o BatchMode=yes -o StrictHostKeyChecking=accept-new [-i <key>] -- <local> <target>:<remote>`.
pub fn build_scp_args(target: &str, ssh_key: Option<&str>, local_file: &str, remote_path: &str) -> (res: Vec<String>)
    ensures
        string_views(res@) == spec_scp_args(target@, opt_view(ssh_key), local_file@, remote_path@),
{
    let mut args = safety_flag_args(ssh_key);
    let ghost before = string_views(args@);
    let mut destination = owned(target);
    destination.push_str(":");
    destination.push_str(remote_path);
    args.push(owned("--"));
    args.push(owned(local_file));
    args.push(destination);
    assert(string_views(args@) =~= before + seq!["--"@, local_file@, target@ + ":"@ + remote_path@]);
    args
}

/// `-o BatchMode=yes -o StrictHostKeyChecking=accept-new [-i <key>] -- <target>:<remote> <local>`.
pub fn build_scp_download_args(
    target: &str,
    ssh_key: Option<&str>,
    remote_path: &str,
    local_file: &str,
) -> (res: Vec<String>)
    ensures
        string_views(res@) == spec_scp_download_args(target@, opt_view(ssh_key), remote_path@, local_file@),
{
    let mut args = safety_flag_args(ssh_key);
    let ghost before = string_views(args@);
    let mut source = owned(target);
    source.push_str(":");
    source.push_str(remote_path);
    args.push(owned("--"));
    args.push(source);
    args.push(owned(local_file));
    assert(string_views(args@) =~= before + seq!["--"@, target@ + ":"@ + remote_path@, local_file@]);
    args
}

fn invoke(program: Program, dry_run: bool, args: Vec<String>) -> (res: Action)
    ensures
        res@ == spec_invoke(program, dry_run, string_views(args@)),
{
    if dry_run {
        let mut line = owned("[ptto] dry-run: ");
        match program {
            Program::Ssh => line.push_str("ssh"),
            Program::Scp => line.push_str("scp"),
        }
        line.push_str(" ");
        line.push_str(join(args.as_slice(), " ").as_str());
        Action::Print(line)
    } else {
        Action::Exec { program, args }
    }
}

/// An SSH connection target: `user@host`, an optional identity file, and whether remote
/// work is only shown.
#[derive(Debug, Clone)]
pub struct SshClient {
    target: String,
    ssh_key: Option<String>,
    dry_run: bool,
}

/// What an `SshClient` stands for.
pub struct SshTarget {
    pub target: Seq<char>,
    pub ssh_key: Option<Seq<char>>,
    pub dry_run: bool,
}

impl View for SshClient {
    type V = SshTarget;

    closed spec fn view(&self) -> SshTarget {
        SshTarget {
            target: self.target@,
            ssh_key: opt_string_view(self.ssh_key),
            dry_run: self.dry_run,
        }
    }
}

impl SshClient {
    pub fn new(target: String, ssh_key: Option<&str>, dry_run: bool) -> (res: SshClient)
        ensures
            res@.target == target@,
            res@.ssh_key == opt_view(ssh_key),
            res@.dry_run == dry_run,
    {
        let key: Option<String> = match ssh_key {
            Some(k) => Some(owned(k)),
            None => None,
        };
        SshClient { target, ssh_key: key, dry_run }
    }

    fn key(&self) -> (res: Option<&str>)
        ensures
            opt_view(res) == self@.ssh_key,
    {
        match &self.ssh_key {
            Some(k) => Some(k.as_str()),
            None => None,
        }
    }

    /// Runs `remote_command` on the target (or prints the `ssh` command line in a dry run).
    pub fn run(&self, remote_command: &str) -> (res: Action)
        ensures
            res@ == spec_invoke(
                Program::Ssh,
                self@.dry_run,
                spec_ssh_args(self@.target, self@.ssh_key, remote_command@),
            ),
    {
        let args = build_ssh_args(self.target.as_str(), self.key(), remote_command);
        invoke(Program::Ssh, self.dry_run, args)
    }

    /// Runs `remote_command` on the target with a terminal attached.
    pub fn run_interactive(&self, remote_command: &str) -> (res: Action)
        ensures
            res@ == spec_invoke(
                Program::Ssh,
                self@.dry_run,
                spec_interactive_ssh_args(self@.target, self@.ssh_key, remote_command@),
            ),
    {
        let mut args = build_ssh_args(self.target.as_str(), self.key(), remote_command);
        let ghost tail = string_views(args@);
        args.insert(0, owned("-t"));
        assert(string_views(args@) =~= seq!["-t"@] + tail);
        invoke(Program::Ssh, self.dry_run, args)
    }

    /// Uploads `local_file` to `remote_path` on the target.
    pub fn copy_file(&self, local_file: &str, remote_path: &str) -> (res: Action)
        ensures
            res@ == spec_invoke(
                Program::Scp,
                self@.dry_run,
                spec_scp_args(self@.target, self@.ssh_key, local_file@, remote_path@),
            ),
    {
        let args = build_scp_args(self.target.as_str(), self.key(), local_file, remote_path);
        invoke(Program::Scp, self.dry_run, args)
    }

    /// Downloads `remote_path` on the target to `local_file`.
    pub fn copy_file_from_remote(&self, remote_path: &str, local_file: &str) -> (res: Action)
        ensures
            res@ == spec_invoke(
                Program::Scp,
                self@.dry_run,
                spec_scp_download_args(self@.target, self@.ssh_key, remote_path@, local_file@),
            ),
    {
        let args = build_scp_download_args(self.target.as_str(), self.key(), remote_path, local_file);
        invoke(Program::Scp, self.dry_run, args)
    }
}

} // verus!
