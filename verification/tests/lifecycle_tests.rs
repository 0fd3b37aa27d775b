use sentinel::init::InitSystem;
use sentinel::lifecycle::{installation_plan, restart_plan, saved_config_plan, uninstallation_plan};
use sentinel::plan::{after_step, failure_report, Invocation, NextAction, Step};
use sentinel::service::{openrc_script, runit_run_script, systemd_unit, sysv_script, launchd_plist};

const ALL: [InitSystem; 5] = [
    InitSystem::Systemd,
    InitSystem::OpenRc,
    InitSystem::Runit,
    InitSystem::SysVinit,
    InitSystem::Launchd,
];

fn inv(program: &str, args: &[&str]) -> Invocation {
    Invocation { program: program.to_string(), args: args.iter().map(|a| a.to_string()).collect() }
}

fn say(s: &str) -> Step {
    Step::Say(s.to_string())
}

#[test]
fn install_without_root_only_reports() {
    let plan = installation_plan(false, InitSystem::Systemd, true, true);
    assert_eq!(
        plan,
        vec![
            say("[*] Checking environment privileges..."),
            Step::Fail("[x] Error: Root privileges required for system installation. Run with 'sudo'.".to_string()),
        ]
    );
}

#[test]
fn install_without_service_manager_only_reports() {
    let plan = installation_plan(true, InitSystem::Unknown, true, true);
    assert_eq!(
        plan,
        vec![
            say("[*] Checking environment privileges..."),
            say("[*] Target system detection results: Unknown"),
            Step::Fail("[x] Error: Unsupported init architecture. Sentinel handles systemd, OpenRC, runit, SysVinit, and launchd.".to_string()),
        ]
    );
}

#[test]
fn install_with_systemd() {
    let plan = installation_plan(true, InitSystem::Systemd, false, false);
    assert_eq!(
        plan,
        vec![
            say("[*] Checking environment privileges..."),
            say("[*] Target system detection results: Systemd"),
            Step::CopySelfTo("/usr/local/bin/sentinel".to_string()),
            say("[*] Binary deployed to /usr/local/bin/sentinel"),
            Step::CreateDirAll("/etc/sentinel".to_string()),
            Step::WriteFile {
                path: "/etc/systemd/system/sentinel.service".to_string(),
                content: systemd_unit(),
            },
            Step::Run(inv("systemctl", &["daemon-reload"])),
            Step::Run(inv("systemctl", &["enable", "sentinel"])),
            Step::Run(inv("systemctl", &["start", "sentinel"])),
            say("[*] Sentinel service activated successfully for framework: Systemd"),
            say("[*] Run 'sudo sentinel config' to finalize parameters."),
        ]
    );
}

#[test]
fn install_with_runit_picks_directories() {
    let plan = installation_plan(true, InitSystem::Runit, true, false);
    assert_eq!(plan[5], Step::CreateDirAll("/etc/sv/sentinel".to_string()));
    assert_eq!(
        plan[6],
        Step::WriteFile { path: "/etc/sv/sentinel/run".to_string(), content: runit_run_script() }
    );
    assert_eq!(plan[7], Step::Run(inv("chmod", &["+x", "/etc/sv/sentinel/run"])));
    assert_eq!(plan[8], Step::Run(inv("ln", &["-s", "/etc/sv/sentinel", "/service/sentinel"])));
    let other = installation_plan(true, InitSystem::Runit, false, true);
    assert_eq!(other[5], Step::CreateDirAll("/etc/runit/sv/sentinel".to_string()));
    assert_eq!(other[8], Step::Run(inv("ln", &["-s", "/etc/runit/sv/sentinel", "/var/service/sentinel"])));
}

#[test]
fn install_with_sysvinit_falls_back_to_chkconfig() {
    let plan = installation_plan(true, InitSystem::SysVinit, false, false);
    assert_eq!(plan[5], Step::WriteFile { path: "/etc/init.d/sentinel".to_string(), content: sysv_script() });
    assert_eq!(
        plan[7],
        Step::RunOrElse {
            first: inv("update-rc.d", &["sentinel", "defaults"]),
            fallback: inv("chkconfig", &["--add", "sentinel"]),
        }
    );
    assert_eq!(plan[8], Step::Run(inv("/etc/init.d/sentinel", &["start"])));
}

#[test]
fn install_with_openrc_and_launchd() {
    let plan = installation_plan(true, InitSystem::OpenRc, false, false);
    assert_eq!(plan[5], Step::WriteFile { path: "/etc/init.d/sentinel".to_string(), content: openrc_script() });
    assert_eq!(plan[7], Step::Run(inv("rc-update", &["add", "sentinel", "default"])));
    let plan = installation_plan(true, InitSystem::Launchd, false, false);
    assert_eq!(
        plan[5],
        Step::WriteFile {
            path: "/Library/LaunchDaemons/com.speedycoder.sentinel.plist".to_string(),
            content: launchd_plist(),
        }
    );
    assert_eq!(
        plan[6],
        Step::Run(inv("launchctl", &["load", "/Library/LaunchDaemons/com.speedycoder.sentinel.plist"]))
    );
}

#[test]
fn uninstall_without_root_only_reports() {
    let plan = uninstallation_plan(false, InitSystem::Systemd, true, true);
    assert_eq!(
        plan,
        vec![
            say("[*] Disabling and removing sentinel daemon configuration profiles..."),
            Step::Fail("[x] Error: Root privileges required for uninstallation. Run with 'sudo'.".to_string()),
        ]
    );
}

#[test]
fn uninstall_with_systemd() {
    let plan = uninstallation_plan(true, InitSystem::Systemd, false, true);
    assert_eq!(
        plan,
        vec![
            say("[*] Disabling and removing sentinel daemon configuration profiles..."),
            Step::Run(inv("systemctl", &["stop", "sentinel"])),
            Step::Run(inv("systemctl", &["disable", "sentinel"])),
            Step::RemoveFile("/etc/systemd/system/sentinel.service".to_string()),
            Step::Run(inv("systemctl", &["daemon-reload"])),
            Step::RemoveFile("/usr/local/bin/sentinel".to_string()),
            Step::RemoveDirAll("/etc/sentinel".to_string()),
            say("[*] Uninstallation clean and complete."),
        ]
    );
}

#[test]
fn uninstall_without_service_manager_kills_process() {
    let plan = uninstallation_plan(true, InitSystem::Unknown, false, true);
    assert_eq!(plan[1], Step::Run(inv("pkill", &["-f", "/usr/local/bin/sentinel"])));
    assert_eq!(plan.len(), 5);
}

#[test]
fn uninstall_with_runit_removes_found_link() {
    let plan = uninstallation_plan(true, InitSystem::Runit, true, true);
    assert_eq!(plan[1], Step::RemoveFile("/var/service/sentinel".to_string()));
    let plan = uninstallation_plan(true, InitSystem::Runit, false, true);
    assert_eq!(plan[1], Step::RemoveFile("/service/sentinel".to_string()));
    assert_eq!(plan[3], Step::RemoveDirAll("/etc/sv/sentinel".to_string()));
    assert_eq!(plan[4], Step::RemoveDirAll("/etc/runit/sv/sentinel".to_string()));
}

fn created(step: &Step) -> Option<String> {
    match step {
        Step::CopySelfTo(p) | Step::CreateDirAll(p) => Some(p.clone()),
        Step::WriteFile { path, .. } => Some(path.clone()),
        Step::Run(inv) if inv.program == "ln" && inv.args.len() == 3 && inv.args[0] == "-s" => {
            Some(inv.args[2].clone())
        }
        _ => None,
    }
}

fn cleared(plan: &[Step], path: &str) -> bool {
    plan.iter().any(|s| match s {
        Step::RemoveFile(p) => p == path,
        Step::RemoveDirAll(d) => path == d || path.starts_with(&format!("{}/", d)),
        _ => false,
    })
}

#[test]
fn uninstall_clears_install_example() {
    for init in ALL {
        for (a, b) in [(false, false), (true, true), (true, false), (false, true)] {
            let install = installation_plan(true, init, a, b);
            let uninstall = uninstallation_plan(true, init, b, true);
            let paths: Vec<String> = install.iter().filter_map(created).collect();
            assert!(paths.len() >= 3);
            for p in paths {
                assert!(cleared(&uninstall, &p), "{:?}: {}", init, p);
            }
        }
    }
}

#[test]
fn restart_after_configuration() {
    assert_eq!(restart_plan(InitSystem::Systemd), vec![Step::Run(inv("systemctl", &["restart", "sentinel"]))]);
    assert_eq!(restart_plan(InitSystem::Runit), vec![Step::Run(inv("sv", &["restart", "sentinel"]))]);
    assert_eq!(
        restart_plan(InitSystem::SysVinit),
        vec![
            Step::Run(inv("/etc/init.d/sentinel", &["stop"])),
            Step::Run(inv("/etc/init.d/sentinel", &["start"])),
        ]
    );
    assert_eq!(restart_plan(InitSystem::Unknown), vec![]);
    let plan = saved_config_plan("/etc/sentinel/config.toml", "x = 1\n".to_string(), true, InitSystem::OpenRc);
    assert_eq!(
        plan,
        vec![
            Step::WriteConfig {
                path: "/etc/sentinel/config.toml".to_string(),
                content: "x = 1\n".to_string(),
            },
            say("[*] Configuration updated successfully inside: /etc/sentinel/config.toml"),
            Step::Run(inv("rc-service", &["sentinel", "restart"])),
        ]
    );
    let local = saved_config_plan("config.toml", String::new(), false, InitSystem::Systemd);
    assert_eq!(
        local,
        vec![
            Step::WriteConfig { path: "config.toml".to_string(), content: String::new() },
            say("[*] Configuration updated successfully inside: config.toml"),
        ]
    );
}

#[test]
fn service_definitions_run_global_binary() {
    assert_eq!(
        systemd_unit(),
        "[Unit]\nDescription=Sentinel System Monitor\nAfter=network.target\n\n[Service]\nType=simple\nExecStart=/usr/local/bin/sentinel\nWorkingDirectory=/etc/sentinel\nRestart=always\n\n[Install]\nWantedBy=multi-user.target\n"
    );
    assert_eq!(runit_run_script(), "#!/bin/sh\nexec 2>&1\ncd /etc/sentinel\nexec /usr/local/bin/sentinel\n");
    assert!(openrc_script().contains("command=\"/usr/local/bin/sentinel\"\n"));
    assert!(openrc_script().ends_with("depend() {\n    need net\n}\n"));
    assert!(sysv_script().contains("pkill -f /usr/local/bin/sentinel\n"));
    assert!(sysv_script().contains("{start|stop}"));
    assert!(launchd_plist().contains("\t\t<string>/usr/local/bin/sentinel</string>\n"));
}

#[test]
fn runit_link_is_removed_by_uninstall() {
    for found in [false, true] {
        let install = installation_plan(true, InitSystem::Runit, true, found);
        let link = created(&install[8]).unwrap();
        assert!(cleared(&uninstallation_plan(true, InitSystem::Runit, found, true), &link));
    }
}

#[test]
fn uninstall_keeps_missing_binary_alone() {
    let plan = uninstallation_plan(true, InitSystem::Systemd, false, false);
    assert!(!plan.contains(&Step::RemoveFile("/usr/local/bin/sentinel".to_string())));
    assert_eq!(plan[plan.len() - 2], Step::RemoveDirAll("/etc/sentinel".to_string()));
    assert_eq!(plan.len(), 7);
}

fn run_removals(plan: &[Step], host: &mut Vec<String>) {
    host.retain(|p| !cleared(plan, p));
}

#[test]
fn uninstall_twice_removes_the_same() {
    let mut host: Vec<String> = ["/usr/local/bin/sentinel", "/var/service/sentinel", "/etc/sv/sentinel/run", "/etc/other"]
        .iter()
        .map(|s| s.to_string())
        .collect();
    let probe = |host: &Vec<String>| {
        (
            host.iter().any(|p| p == "/var/service/sentinel"),
            host.iter().any(|p| p == "/usr/local/bin/sentinel"),
        )
    };
    let (link, bin) = probe(&host);
    run_removals(&uninstallation_plan(true, InitSystem::Runit, link, bin), &mut host);
    let once = host.clone();
    assert_eq!(once, vec!["/etc/other".to_string()]);
    let (link, bin) = probe(&host);
    assert!(!link && !bin);
    let second = uninstallation_plan(true, InitSystem::Runit, link, bin);
    assert!(second.contains(&Step::RemoveFile("/service/sentinel".to_string())));
    run_removals(&second, &mut host);
    assert_eq!(host, once);
}

#[test]
fn failure_reports() {
    assert_eq!(
        failure_report(&Step::CopySelfTo("/usr/local/bin/sentinel".to_string()), "Permission denied (os error 13)"),
        Some("[x] Failed to copy binary to /usr/local/bin/sentinel: Permission denied (os error 13)".to_string())
    );
    assert_eq!(
        failure_report(
            &Step::WriteConfig { path: "config.toml".to_string(), content: String::new() },
            "Read-only file system (os error 30)"
        ),
        Some("[x] Failed to write configuration file: Read-only file system (os error 30).".to_string())
    );
    assert_eq!(failure_report(&Step::RemoveFile("/x".to_string()), "e"), None);
    let config = Step::WriteConfig { path: "config.toml".to_string(), content: String::new() };
    assert_eq!(after_step(&config, false), NextAction::Exit);
    assert_eq!(after_step(&config, true), NextAction::Continue);
}

#[test]
fn step_failures_decide_what_follows() {
    let copy = Step::CopySelfTo("/usr/local/bin/sentinel".to_string());
    assert_eq!(after_step(&copy, true), NextAction::Continue);
    assert_eq!(after_step(&copy, false), NextAction::Exit);
    let write = Step::WriteFile { path: "/x".to_string(), content: String::new() };
    assert_eq!(after_step(&write, true), NextAction::Continue);
    assert_eq!(after_step(&write, false), NextAction::Abort);
    let fallback = Step::RunOrElse {
        first: inv("update-rc.d", &["sentinel", "defaults"]),
        fallback: inv("chkconfig", &["--add", "sentinel"]),
    };
    assert_eq!(after_step(&fallback, true), NextAction::Continue);
    assert_eq!(after_step(&fallback, false), NextAction::RunFallback);
    assert_eq!(after_step(&Step::Fail("x".to_string()), true), NextAction::Exit);
    for ignored in [
        Step::Run(inv("systemctl", &["daemon-reload"])),
        Step::RemoveFile("/x".to_string()),
        Step::RemoveDirAll("/x".to_string()),
        Step::CreateDirAll("/x".to_string()),
        say("x"),
    ] {
        assert_eq!(after_step(&ignored, false), NextAction::Continue);
    }
}
