use ptto::ssh::{build_scp_args, build_ssh_args};

#[test]
fn ssh_args_include_safety_flags() {
    let args = build_ssh_args("root@example.com", None, "echo ok");
    assert_eq!(
        args,
        vec![
            "-o",
            "BatchMode=yes",
            "-o",
            "StrictHostKeyChecking=accept-new",
            "--",
            "root@example.com",
            "echo ok"
        ]
    );
}

#[test]
fn scp_args_include_source_and_target() {
    let args = build_scp_args("deployer@example.com", None, "./app", "/tmp/app");
    assert_eq!(
        args,
        vec![
            "-o",
            "BatchMode=yes",
            "-o",
            "StrictHostKeyChecking=accept-new",
            "--",
            "./app",
            "deployer@example.com:/tmp/app"
        ]
    );
}

#[test]
fn ssh_args_include_optional_identity_key() {
    let args = build_ssh_args("root@example.com", Some("~/.ssh/key"), "echo ok");
    assert!(args.windows(2).any(|w| w == ["-i", "~/.ssh/key"]));
    assert!(args.contains(&"--".to_string()));
}
