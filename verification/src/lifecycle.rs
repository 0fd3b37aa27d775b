//! The plans of `--install`, `--uninstall` and of the service restart that
//! follows `config`, for each supported service manager.

use vstd::prelude::*;
use crate::error::{SetupError, error_text};
use crate::init::{InitSystem, init_name};
use crate::text::joined;
use crate::plan::{
    Step, StepView, InvocationView, call, steps_view, invocation, push_step, append_steps, say, fail, run,
    remove_file, remove_dir_all, create_dir_all, write_file, created_path, within, clears,
    cleared_by, plan_effect, step_effect, lemma_removals_only, removes_only,
};
use crate::service::{
    BINARY_GLOBAL_PATH, launchd_plist, launchd_plist_text, systemd_unit, systemd_unit_text,
    openrc_script, openrc_script_text, runit_run_script, runit_run_script_text, sysv_script,
    sysv_script_text,
};

verus! {

/// The launchd job definition of the service.
pub const LAUNCHD_PLIST_PATH: &'static str = "/Library/LaunchDaemons/com.speedycoder.sentinel.plist";

/// The systemd unit file of the service.
pub const SYSTEMD_UNIT_PATH: &'static str = "/etc/systemd/system/sentinel.service";

/// The OpenRC or SysV init script of the service.
pub const INITD_SCRIPT_PATH: &'static str = "/etc/init.d/sentinel";

/// The directory of the global configuration.
pub const GLOBAL_CONFIG_DIR: &'static str = "/etc/sentinel";

/// The runit service directory used where `/etc/sv` exists.
pub const RUNIT_SV_DIR: &'static str = "/etc/sv/sentinel";

/// The runit service directory used elsewhere.
pub const RUNIT_ALT_SV_DIR: &'static str = "/etc/runit/sv/sentinel";

/// The runit service link used where `/var/service` exists.
pub const RUNIT_LINK: &'static str = "/var/service/sentinel";

/// The runit service link used elsewhere.
pub const RUNIT_ALT_LINK: &'static str = "/service/sentinel";

/// The runit service directory chosen at installation.
pub open spec fn runit_sv_dir(etc_sv_exists: bool) -> Seq<char> {
    if etc_sv_exists { RUNIT_SV_DIR@ } else { RUNIT_ALT_SV_DIR@ }
}

/// The runit service link chosen at installation.
pub open spec fn runit_link(var_service_exists: bool) -> Seq<char> {
    if var_service_exists { RUNIT_LINK@ } else { RUNIT_ALT_LINK@ }
}

/// The steps that register the service with `init`.
pub open spec fn register_steps(init: InitSystem, etc_sv_exists: bool, var_service_exists: bool) -> Seq<StepView> {
    match init {
        InitSystem::Launchd => seq![
            StepView::WriteFile { path: LAUNCHD_PLIST_PATH@, content: launchd_plist_text() },
            StepView::Run(call("launchctl"@, seq!["load"@, LAUNCHD_PLIST_PATH@])),
        ],
        InitSystem::Systemd => seq![
            StepView::WriteFile { path: SYSTEMD_UNIT_PATH@, content: systemd_unit_text() },
            StepView::Run(call("systemctl"@, seq!["daemon-reload"@])),
            StepView::Run(call("systemctl"@, seq!["enable"@, "sentinel"@])),
            StepView::Run(call("systemctl"@, seq!["start"@, "sentinel"@])),
        ],
        InitSystem::OpenRc => seq![
            StepView::WriteFile { path: INITD_SCRIPT_PATH@, content: openrc_script_text() },
            StepView::Run(call("chmod"@, seq!["+x"@, INITD_SCRIPT_PATH@])),
            StepView::Run(call("rc-update"@, seq!["add"@, "sentinel"@, "default"@])),
            StepView::Run(call("rc-service"@, seq!["sentinel"@, "start"@])),
        ],
        InitSystem::Runit => {
            let dir = runit_sv_dir(etc_sv_exists);
            seq![
                StepView::CreateDirAll(dir),
                StepView::WriteFile { path: dir + "/run"@, content: runit_run_script_text() },
                StepView::Run(call("chmod"@, seq!["+x"@, dir + "/run"@])),
                StepView::Run(call("ln"@, seq!["-s"@, dir, runit_link(var_service_exists)])),
            ]
        },
        InitSystem::SysVinit => seq![
            StepView::WriteFile { path: INITD_SCRIPT_PATH@, content: sysv_script_text() },
            StepView::Run(call("chmod"@, seq!["+x"@, INITD_SCRIPT_PATH@])),
            StepView::RunOrElse {
                first: call("update-rc.d"@, seq!["sentinel"@, "defaults"@]),
                fallback: call("chkconfig"@, seq!["--add"@, "sentinel"@]),
            },
            StepView::Run(call(INITD_SCRIPT_PATH@, seq!["start"@])),
        ],
        InitSystem::Unknown => seq![],
    }
}

/// The plan of `--install`: check for root, report the service manager,
/// copy the binary to the global path, create the configuration directory,
/// register the service and report success.
pub open spec fn install_steps(
    is_admin: bool,
    init: InitSystem,
    etc_sv_exists: bool,
    var_service_exists: bool,
) -> Seq<StepView> {
    let check = seq![StepView::Say("[*] Checking environment privileges..."@)];
    if !is_admin {
        check.push(StepView::Fail(error_text(SetupError::InstallNeedsRoot)))
    } else {
        let reported = check.push(
            StepView::Say("[*] Target system detection results: "@ + init_name(init)),
        );
        if init == InitSystem::Unknown {
            reported.push(StepView::Fail(error_text(SetupError::UnsupportedInit)))
        } else {
            reported + seq![
                StepView::CopySelfTo(BINARY_GLOBAL_PATH@),
                StepView::Say("[*] Binary deployed to "@ + BINARY_GLOBAL_PATH@),
                StepView::CreateDirAll(GLOBAL_CONFIG_DIR@),
            ] + register_steps(init, etc_sv_exists, var_service_exists) + seq![
                StepView::Say(
                    "[*] Sentinel service activated successfully for framework: "@ + init_name(init),
                ),
                StepView::Say("[*] Run 'sudo sentinel config' to finalize parameters."@),
            ]
        }
    }
}

/// The steps that stop the service and remove its registration with `init`.
pub open spec fn unregister_steps(init: InitSystem, runit_link_exists: bool) -> Seq<StepView> {
    match init {
        InitSystem::Launchd => seq![
            StepView::Run(call("launchctl"@, seq!["unload"@, LAUNCHD_PLIST_PATH@])),
            StepView::RemoveFile(LAUNCHD_PLIST_PATH@),
        ],
        InitSystem::Systemd => seq![
            StepView::Run(call("systemctl"@, seq!["stop"@, "sentinel"@])),
            StepView::Run(call("systemctl"@, seq!["disable"@, "sentinel"@])),
            StepView::RemoveFile(SYSTEMD_UNIT_PATH@),
            StepView::Run(call("systemctl"@, seq!["daemon-reload"@])),
        ],
        InitSystem::OpenRc => seq![
            StepView::Run(call("rc-service"@, seq!["sentinel"@, "stop"@])),
            StepView::Run(call("rc-update"@, seq!["del"@, "sentinel"@])),
            StepView::RemoveFile(INITD_SCRIPT_PATH@),
        ],
        InitSystem::Runit => seq![
            StepView::RemoveFile(runit_link(runit_link_exists)),
            StepView::Run(call("pkill"@, seq!["-f"@, BINARY_GLOBAL_PATH@])),
            StepView::RemoveDirAll(RUNIT_SV_DIR@),
            StepView::RemoveDirAll(RUNIT_ALT_SV_DIR@),
        ],
        InitSystem::SysVinit => seq![
            StepView::Run(call(INITD_SCRIPT_PATH@, seq!["stop"@])),
            StepView::RunOrElse {
                first: call("update-rc.d"@, seq!["sentinel"@, "remove"@]),
                fallback: call("chkconfig"@, seq!["--del"@, "sentinel"@]),
            },
            StepView::RemoveFile(INITD_SCRIPT_PATH@),
        ],
        InitSystem::Unknown => seq![
            StepView::Run(call("pkill"@, seq!["-f"@, BINARY_GLOBAL_PATH@])),
        ],
    }
}

/// The last steps of `--uninstall`: remove the global binary where it was
/// found, remove the configuration directory, and report.
pub open spec fn cleanup_steps(binary_present: bool) -> Seq<StepView> {
    (if binary_present {
        seq![StepView::RemoveFile(BINARY_GLOBAL_PATH@)]
    } else {
        Seq::empty()
    }) + seq![
        StepView::RemoveDirAll(GLOBAL_CONFIG_DIR@),
        StepView::Say("[*] Uninstallation clean and complete."@),
    ]
}

/// The plan of `--uninstall`: check for root, unregister the service, remove
/// the global binary if it exists and the configuration directory, and report.
pub open spec fn uninstall_steps(
    is_admin: bool,
    init: InitSystem,
    runit_link_exists: bool,
    binary_present: bool,
) -> Seq<StepView> {
    let intro = seq![
        StepView::Say("[*] Disabling and removing sentinel daemon configuration profiles..."@),
    ];
    if !is_admin {
        intro.push(StepView::Fail(error_text(SetupError::UninstallNeedsRoot)))
    } else {
        intro + unregister_steps(init, runit_link_exists) + cleanup_steps(binary_present)
    }
}

/// The steps that make a running service read a new configuration.
pub open spec fn restart_steps(init: InitSystem) -> Seq<StepView> {
    match init {
        InitSystem::Launchd => seq![
            StepView::Run(call("launchctl"@, seq!["unload"@, LAUNCHD_PLIST_PATH@])),
            StepView::Run(call("launchctl"@, seq!["load"@, LAUNCHD_PLIST_PATH@])),
        ],
        InitSystem::Systemd => seq![StepView::Run(call("systemctl"@, seq!["restart"@, "sentinel"@]))],
        InitSystem::OpenRc => seq![StepView::Run(call("rc-service"@, seq!["sentinel"@, "restart"@]))],
        InitSystem::Runit => seq![StepView::Run(call("sv"@, seq!["restart"@, "sentinel"@]))],
        InitSystem::SysVinit => seq![
            StepView::Run(call(INITD_SCRIPT_PATH@, seq!["stop"@])),
            StepView::Run(call(INITD_SCRIPT_PATH@, seq!["start"@])),
        ],
        InitSystem::Unknown => seq![],
    }
}

/// How `config` saves: write the configuration, report, and restart the
/// service where the configuration is the global one.
pub open spec fn saved_config_steps(
    config_path: Seq<char>,
    content: Seq<char>,
    is_global: bool,
    init: InitSystem,
) -> Seq<StepView> {
    let report = seq![
        StepView::WriteConfig { path: config_path, content },
        StepView::Say("[*] Configuration updated successfully inside: "@ + config_path),
    ];
    if is_global {
        report + restart_steps(init)
    } else {
        report
    }
}

proof fn lemma_view_args1(v: Vec<&str>, a: &str)
    requires
        v@ == seq![a],
    ensures
        v@.map_values(|x: &str| x@) == seq![a@],
{
    assert(v@.map_values(|x: &str| x@) =~= seq![a@]);
}

proof fn lemma_view_args2(v: Vec<&str>, a: &str, b: &str)
    requires
        v@ == seq![a, b],
    ensures
        v@.map_values(|x: &str| x@) == seq![a@, b@],
{
    assert(v@.map_values(|x: &str| x@) =~= seq![a@, b@]);
}

proof fn lemma_view_args3(v: Vec<&str>, a: &str, b: &str, c: &str)
    requires
        v@ == seq![a, b, c],
    ensures
        v@.map_values(|x: &str| x@) == seq![a@, b@, c@],
{
    assert(v@.map_values(|x: &str| x@) =~= seq![a@, b@, c@]);
}

/// A step that runs `program` with one argument.
fn run1(program: &str, a: &str) -> (r: Step)
    ensures
        r@ == StepView::Run(call(program@, seq![a@])),
{
    let mut args: Vec<&str> = Vec::new();
    args.push(a);
    proof {
        assert(args@ =~= seq![a]);
        lemma_view_args1(args, a);
    }
    run(program, args)
}

/// A step that runs `program` with two arguments.
fn run2(program: &str, a: &str, b: &str) -> (r: Step)
    ensures
        r@ == StepView::Run(call(program@, seq![a@, b@])),
{
    let args = vec![a, b];
    proof {
        lemma_view_args2(args, a, b);
    }
    run(program, args)
}

/// A step that runs `program` with three arguments.
fn run3(program: &str, a: &str, b: &str, c: &str) -> (r: Step)
    ensures
        r@ == StepView::Run(call(program@, seq![a@, b@, c@])),
{
    let args = vec![a, b, c];
    proof {
        lemma_view_args3(args, a, b, c);
    }
    run(program, args)
}

/// A step that runs `update-rc.d sentinel <action>`, or `chkconfig <flag> sentinel`
/// where `update-rc.d` cannot be started.
fn run_rc_or_chkconfig(action: &str, flag: &str) -> (r: Step)
    ensures
        r@ == (StepView::RunOrElse {
            first: call("update-rc.d"@, seq!["sentinel"@, action@]),
            fallback: call("chkconfig"@, seq![flag@, "sentinel"@]),
        }),
{
    let first_args = vec!["sentinel", action];
    let fallback_args = vec![flag, "sentinel"];
    proof {
        lemma_view_args2(first_args, "sentinel", action);
        lemma_view_args2(fallback_args, flag, "sentinel");
    }
    Step::RunOrElse {
        first: invocation("update-rc.d", first_args),
        fallback: invocation("chkconfig", fallback_args),
    }
}

/// The steps that register the service with `init`.
pub fn register_plan(init: InitSystem, etc_sv_exists: bool, var_service_exists: bool) -> (r: Vec<
    Step,
>)
    ensures
        steps_view(r@) == register_steps(init, etc_sv_exists, var_service_exists),
{
    let mut plan: Vec<Step> = Vec::new();
    match init {
        InitSystem::Launchd => {
            push_step(&mut plan, write_file(LAUNCHD_PLIST_PATH, launchd_plist()));
            push_step(&mut plan, run2("launchctl", "load", LAUNCHD_PLIST_PATH));
        },
        InitSystem::Systemd => {
            push_step(&mut plan, write_file(SYSTEMD_UNIT_PATH, systemd_unit()));
            push_step(&mut plan, run1("systemctl", "daemon-reload"));
            push_step(&mut plan, run2("systemctl", "enable", "sentinel"));
            push_step(&mut plan, run2("systemctl", "start", "sentinel"));
        },
        InitSystem::OpenRc => {
            push_step(&mut plan, write_file(INITD_SCRIPT_PATH, openrc_script()));
            push_step(&mut plan, run2("chmod", "+x", INITD_SCRIPT_PATH));
            push_step(&mut plan, run3("rc-update", "add", "sentinel", "default"));
            push_step(&mut plan, run2("rc-service", "sentinel", "start"));
        },
        InitSystem::Runit => {
            let dir = if etc_sv_exists { RUNIT_SV_DIR } else { RUNIT_ALT_SV_DIR };
            let link = if var_service_exists { RUNIT_LINK } else { RUNIT_ALT_LINK };
            let mut run_path = String::from_str(dir);
            run_path.append("/run");
            push_step(&mut plan, create_dir_all(dir));
            push_step(&mut plan, write_file(run_path.as_str(), runit_run_script()));
            push_step(&mut plan, run2("chmod", "+x", run_path.as_str()));
            push_step(&mut plan, run3("ln", "-s", dir, link));
        },
        InitSystem::SysVinit => {
            push_step(&mut plan, write_file(INITD_SCRIPT_PATH, sysv_script()));
            push_step(&mut plan, run2("chmod", "+x", INITD_SCRIPT_PATH));
            push_step(&mut plan, run_rc_or_chkconfig("defaults", "--add"));
            push_step(&mut plan, run1(INITD_SCRIPT_PATH, "start"));
        },
        InitSystem::Unknown => {},
    }
    assert(steps_view(plan@) =~= register_steps(init, etc_sv_exists, var_service_exists));
    plan
}

/// The plan of `--install`.
pub fn installation_plan(
    is_admin: bool,
    init: InitSystem,
    etc_sv_exists: bool,
    var_service_exists: bool,
) -> (r: Vec<Step>)
    ensures
        steps_view(r@) == install_steps(is_admin, init, etc_sv_exists, var_service_exists),
{
    let mut plan: Vec<Step> = Vec::new();
    push_step(&mut plan, say("[*] Checking environment privileges..."));
    if !is_admin {
        push_step(&mut plan, fail(SetupError::InstallNeedsRoot.message()));
        return plan;
    }
    let report = joined("[*] Target system detection results: ", init.name());
    push_step(&mut plan, Step::Say(report));
    if init == InitSystem::Unknown {
        push_step(&mut plan, fail(SetupError::UnsupportedInit.message()));
        return plan;
    }
    let ghost reported = steps_view(plan@);
    push_step(&mut plan, Step::CopySelfTo(String::from_str(BINARY_GLOBAL_PATH)));
    push_step(&mut plan, Step::Say(joined("[*] Binary deployed to ", BINARY_GLOBAL_PATH)));
    push_step(&mut plan, create_dir_all(GLOBAL_CONFIG_DIR));
    let ghost prepared = steps_view(plan@);
    assert(prepared =~= reported + seq![
        StepView::CopySelfTo(BINARY_GLOBAL_PATH@),
        StepView::Say("[*] Binary deployed to "@ + BINARY_GLOBAL_PATH@),
        StepView::CreateDirAll(GLOBAL_CONFIG_DIR@),
    ]);
    append_steps(&mut plan, register_plan(init, etc_sv_exists, var_service_exists));
    let ghost registered = steps_view(plan@);
    push_step(
        &mut plan,
        Step::Say(joined("[*] Sentinel service activated successfully for framework: ", init.name())),
    );
    push_step(&mut plan, say("[*] Run 'sudo sentinel config' to finalize parameters."));
    assert(steps_view(plan@) =~= registered + seq![
        StepView::Say("[*] Sentinel service activated successfully for framework: "@ + init_name(init)),
        StepView::Say("[*] Run 'sudo sentinel config' to finalize parameters."@),
    ]);
    plan
}

/// The steps that stop the service and remove its registration with `init`.
pub fn unregister_plan(init: InitSystem, runit_link_exists: bool) -> (r: Vec<Step>)
    ensures
        steps_view(r@) == unregister_steps(init, runit_link_exists),
{
    let mut plan: Vec<Step> = Vec::new();
    match init {
        InitSystem::Launchd => {
            push_step(&mut plan, run2("launchctl", "unload", LAUNCHD_PLIST_PATH));
            push_step(&mut plan, remove_file(LAUNCHD_PLIST_PATH));
        },
        InitSystem::Systemd => {
            push_step(&mut plan, run2("systemctl", "stop", "sentinel"));
            push_step(&mut plan, run2("systemctl", "disable", "sentinel"));
            push_step(&mut plan, remove_file(SYSTEMD_UNIT_PATH));
            push_step(&mut plan, run1("systemctl", "daemon-reload"));
        },
        InitSystem::OpenRc => {
            push_step(&mut plan, run2("rc-service", "sentinel", "stop"));
            push_step(&mut plan, run2("rc-update", "del", "sentinel"));
            push_step(&mut plan, remove_file(INITD_SCRIPT_PATH));
        },
        InitSystem::Runit => {
            let link = if runit_link_exists { RUNIT_LINK } else { RUNIT_ALT_LINK };
            push_step(&mut plan, remove_file(link));
            push_step(&mut plan, run2("pkill", "-f", BINARY_GLOBAL_PATH));
            push_step(&mut plan, remove_dir_all(RUNIT_SV_DIR));
            push_step(&mut plan, remove_dir_all(RUNIT_ALT_SV_DIR));
        },
        InitSystem::SysVinit => {
            push_step(&mut plan, run1(INITD_SCRIPT_PATH, "stop"));
            push_step(&mut plan, run_rc_or_chkconfig("remove", "--del"));
            push_step(&mut plan, remove_file(INITD_SCRIPT_PATH));
        },
        InitSystem::Unknown => {
            push_step(&mut plan, run2("pkill", "-f", BINARY_GLOBAL_PATH));
        },
    }
    assert(steps_view(plan@) =~= unregister_steps(init, runit_link_exists));
    plan
}

/// The plan of `--uninstall`, given whether the runit link
/// `/var/service/sentinel` and the global binary exist.
pub fn uninstallation_plan(
    is_admin: bool,
    init: InitSystem,
    runit_link_exists: bool,
    binary_present: bool,
) -> (r: Vec<Step>)
    ensures
        steps_view(r@) == uninstall_steps(is_admin, init, runit_link_exists, binary_present),
{
    let mut plan: Vec<Step> = Vec::new();
    push_step(&mut plan, say("[*] Disabling and removing sentinel daemon configuration profiles..."));
    if !is_admin {
        push_step(&mut plan, fail(SetupError::UninstallNeedsRoot.message()));
        return plan;
    }
    append_steps(&mut plan, unregister_plan(init, runit_link_exists));
    let ghost unregistered = steps_view(plan@);
    if binary_present {
        push_step(&mut plan, remove_file(BINARY_GLOBAL_PATH));
    }
    push_step(&mut plan, remove_dir_all(GLOBAL_CONFIG_DIR));
    push_step(&mut plan, say("[*] Uninstallation clean and complete."));
    assert(steps_view(plan@) =~= unregistered + cleanup_steps(binary_present));
    plan
}

/// The steps that make a running service read a new configuration.
pub fn restart_plan(init: InitSystem) -> (r: Vec<Step>)
    ensures
        steps_view(r@) == restart_steps(init),
{
    let mut plan: Vec<Step> = Vec::new();
    match init {
        InitSystem::Launchd => {
            push_step(&mut plan, run2("launchctl", "unload", LAUNCHD_PLIST_PATH));
            push_step(&mut plan, run2("launchctl", "load", LAUNCHD_PLIST_PATH));
        },
        InitSystem::Systemd => {
            push_step(&mut plan, run2("systemctl", "restart", "sentinel"));
        },
        InitSystem::OpenRc => {
            push_step(&mut plan, run2("rc-service", "sentinel", "restart"));
        },
        InitSystem::Runit => {
            push_step(&mut plan, run2("sv", "restart", "sentinel"));
        },
        InitSystem::SysVinit => {
            push_step(&mut plan, run1(INITD_SCRIPT_PATH, "stop"));
            push_step(&mut plan, run1(INITD_SCRIPT_PATH, "start"));
        },
        InitSystem::Unknown => {},
    }
    assert(steps_view(plan@) =~= restart_steps(init));
    plan
}

/// How `config` saves `content`, the configuration as text, at `config_path`.
pub fn saved_config_plan(config_path: &str, content: String, is_global: bool, init: InitSystem) -> (r:
    Vec<Step>)
    ensures
        steps_view(r@) == saved_config_steps(config_path@, content@, is_global, init),
{
    let ghost text = content@;
    let mut plan: Vec<Step> = Vec::new();
    push_step(&mut plan, Step::WriteConfig { path: String::from_str(config_path), content });
    push_step(
        &mut plan,
        Step::Say(joined("[*] Configuration updated successfully inside: ", config_path)),
    );
    if is_global {
        append_steps(&mut plan, restart_plan(init));
    }
    assert(steps_view(plan@) =~= saved_config_steps(config_path@, text, is_global, init));
    plan
}

proof fn lemma_runit_run_within(dir: Seq<char>)
    ensures
        within(dir + "/run"@, dir),
{
    reveal_strlit("/run");
    assert((dir + "/run"@).subrange(0, dir.len() as int) =~= dir);
    assert((dir + "/run"@)[dir.len() as int] == "/run"@[0]);
}

/// Uninstalling removes every path that installing created: the global
/// binary, the configuration directory, the service definition and, for
/// runit, the service directory and the service link, for every service
/// manager and whatever the probes found, provided the probe for the runit
/// link at removal agrees with the probe for `/var/service` at installation
/// and the binary is found where installing put it.
pub proof fn uninstall_clears_install(
    init: InitSystem,
    etc_sv_exists: bool,
    var_service_exists: bool,
    runit_link_exists: bool,
)
    requires
        runit_link_exists == var_service_exists,
    ensures
        forall|i: int|
            0 <= i < install_steps(true, init, etc_sv_exists, var_service_exists).len()
                && #[trigger] created_path(
                install_steps(true, init, etc_sv_exists, var_service_exists)[i],
            ) is Some ==> cleared_by(
                uninstall_steps(true, init, runit_link_exists, true),
                created_path(install_steps(true, init, etc_sv_exists, var_service_exists)[i])->0,
            ),
{
    let inst = install_steps(true, init, etc_sv_exists, var_service_exists);
    let un = uninstall_steps(true, init, runit_link_exists, true);
    let unreg = unregister_steps(init, runit_link_exists);
    let reg = register_steps(init, etc_sv_exists, var_service_exists);
    let k: int = unreg.len() as int + 1;
    assert(un[k] == cleanup_steps(true)[0]);
    assert(un[k + 1] == cleanup_steps(true)[1]);
    assert(un[k] == StepView::RemoveFile(BINARY_GLOBAL_PATH@));
    assert(clears(un[k], BINARY_GLOBAL_PATH@));
    assert(un[k + 1] == StepView::RemoveDirAll(GLOBAL_CONFIG_DIR@));
    assert(clears(un[k + 1], GLOBAL_CONFIG_DIR@));
    assert("rc-update"@ != "ln"@) by {
        reveal_strlit("rc-update");
        reveal_strlit("ln");
        assert("rc-update"@.len() == 9);
        assert("ln"@.len() == 2);
    }
    assert forall|i: int|
        0 <= i < inst.len() && #[trigger] created_path(inst[i]) is Some implies cleared_by(
        un,
        created_path(inst[i])->0,
    ) by {
        if init != InitSystem::Unknown {
            let head = seq![StepView::Say("[*] Checking environment privileges..."@)].push(
                StepView::Say("[*] Target system detection results: "@ + init_name(init)),
            ) + seq![
                StepView::CopySelfTo(BINARY_GLOBAL_PATH@),
                StepView::Say("[*] Binary deployed to "@ + BINARY_GLOBAL_PATH@),
                StepView::CreateDirAll(GLOBAL_CONFIG_DIR@),
            ];
            assert(head.len() == 5);
            if 5 <= i < 5 + reg.len() {
                assert(inst[i] == reg[i - 5]);
                let p = created_path(inst[i])->0;
                match init {
                    InitSystem::Launchd => {
                        assert(un[2] == unreg[1]);
                        assert(clears(un[2], p));
                    },
                    InitSystem::Systemd => {
                        assert(un[3] == unreg[2]);
                        assert(clears(un[3], p));
                    },
                    InitSystem::OpenRc => {
                        assert(i == 5);
                        assert(un[3] == unreg[2]);
                        assert(clears(un[3], p));
                    },
                    InitSystem::SysVinit => {
                        assert(un[3] == unreg[2]);
                        assert(clears(un[3], p));
                    },
                    InitSystem::Runit => {
                        lemma_runit_run_within(runit_sv_dir(etc_sv_exists));
                        assert(un[1] == unreg[0]);
                        assert(un[3] == unreg[2]);
                        assert(un[4] == unreg[3]);
                        if i == 8 {
                            assert(clears(un[1], p));
                        } else if etc_sv_exists {
                            assert(clears(un[3], p));
                        } else {
                            assert(clears(un[4], p));
                        }
                    },
                    InitSystem::Unknown => {},
                }
            } else if i < 5 {
                assert(inst[i] == head[i]);
            } else {
                assert(created_path(inst[i]) is None);
            }
        }
    }
}

/// The plan of `--uninstall`, run with root privileges, removes and stops
/// services but creates nothing and never stops early.
proof fn lemma_uninstall_removes_only(init: InitSystem, runit_link_exists: bool, binary_present: bool)
    ensures
        removes_only(uninstall_steps(true, init, runit_link_exists, binary_present)),
{
    let un = uninstall_steps(true, init, runit_link_exists, binary_present);
    let unreg = unregister_steps(init, runit_link_exists);
    let tail = cleanup_steps(binary_present);
    assert forall|i: int| 0 <= i < un.len() implies !(un[i] is Fail) && (#[trigger] created_path(
        un[i],
    )) is None by {
        if 1 <= i < 1 + unreg.len() {
            assert(un[i] == unreg[i - 1]);
        } else if i >= 1 + unreg.len() {
            assert(un[i] == tail[i - 1 - unreg.len()]);
        }
    }
}

/// The paths that the plan of `--uninstall`, run with root privileges, removes:
/// those its unregistering removes, the binary where it was found, and the
/// configuration directory with its contents.
proof fn lemma_uninstall_cleared(
    init: InitSystem,
    runit_link_exists: bool,
    binary_present: bool,
    q: Seq<char>,
)
    ensures
        cleared_by(uninstall_steps(true, init, runit_link_exists, binary_present), q) <==> (
        cleared_by(unregister_steps(init, runit_link_exists), q) || (binary_present && q
            == BINARY_GLOBAL_PATH@) || within(q, GLOBAL_CONFIG_DIR@)),
{
    let un = uninstall_steps(true, init, runit_link_exists, binary_present);
    let unreg = unregister_steps(init, runit_link_exists);
    let tail = cleanup_steps(binary_present);
    let n = unreg.len() as int;
    if cleared_by(un, q) {
        let j = choose|j: int| 0 <= j < un.len() && #[trigger] clears(un[j], q);
        if 1 <= j < 1 + n {
            assert(un[j] == unreg[j - 1]);
            assert(clears(unreg[j - 1], q));
        } else if j >= 1 + n {
            assert(un[j] == tail[j - 1 - n]);
        }
    }
    if cleared_by(unreg, q) {
        let j = choose|j: int| 0 <= j < unreg.len() && #[trigger] clears(unreg[j], q);
        assert(un[j + 1] == unreg[j]);
        assert(clears(un[j + 1], q));
    }
    if binary_present && q == BINARY_GLOBAL_PATH@ {
        assert(un[1 + n] == tail[0]);
        assert(clears(un[1 + n], q));
    }
    if within(q, GLOBAL_CONFIG_DIR@) {
        let m: int = if binary_present { 2 + n } else { 1 + n };
        assert(un[m] == tail[m - 1 - n]);
        assert(clears(un[m], q));
    }
}

/// Unregistering with another answer of the runit link probe removes nothing
/// more than the link that answer names.
proof fn lemma_unregister_link(init: InitSystem, first: bool, second: bool, q: Seq<char>)
    ensures
        cleared_by(unregister_steps(init, second), q) ==> cleared_by(unregister_steps(init, first), q)
            || (init == InitSystem::Runit && q == runit_link(second)),
{
    let a = unregister_steps(init, first);
    let b = unregister_steps(init, second);
    if cleared_by(b, q) {
        let j = choose|j: int| 0 <= j < b.len() && #[trigger] clears(b[j], q);
        if !(init == InitSystem::Runit && j == 0) {
            assert(a[j] == b[j]);
            assert(clears(a[j], q));
        }
    }
}

/// After installing and then uninstalling, none of the paths that installing
/// created exists any more, whatever existed before, every step succeeding,
/// the runit link probe at removal agreeing with installation and the binary
/// probe at removal reading the host that installing left.
pub proof fn uninstall_leaves_no_trace(
    init: InitSystem,
    etc_sv_exists: bool,
    var_service_exists: bool,
    runit_link_exists: bool,
    before: Set<Seq<char>>,
)
    requires
        runit_link_exists == var_service_exists,
    ensures
        ({
            let inst = install_steps(true, init, etc_sv_exists, var_service_exists);
            let installed = plan_effect(inst, before);
            let un = uninstall_steps(
                true,
                init,
                runit_link_exists,
                installed.contains(BINARY_GLOBAL_PATH@),
            );
            forall|i: int|
                0 <= i < inst.len() && #[trigger] created_path(inst[i]) is Some
                    ==> !plan_effect(un, installed).contains(created_path(inst[i])->0)
        }),
{
    let inst = install_steps(true, init, etc_sv_exists, var_service_exists);
    let installed = plan_effect(inst, before);
    let bin = installed.contains(BINARY_GLOBAL_PATH@);
    let un = uninstall_steps(true, init, runit_link_exists, bin);
    uninstall_clears_install(init, etc_sv_exists, var_service_exists, runit_link_exists);
    lemma_uninstall_removes_only(init, runit_link_exists, bin);
    lemma_removals_only(un, installed);
    assert forall|i: int| 0 <= i < inst.len() && #[trigger] created_path(inst[i]) is Some implies !plan_effect(
        un,
        installed,
    ).contains(created_path(inst[i])->0) by {
        let p = created_path(inst[i])->0;
        lemma_uninstall_cleared(init, runit_link_exists, true, p);
        lemma_uninstall_cleared(init, runit_link_exists, bin, p);
    }
}

/// Running `--uninstall` a second time, with the probes that the second run
/// makes on the host that the first run left, changes nothing. The premises:
/// the first run's probes read the host it ran on; and, on runit, where the
/// first run removed `/var/service/sentinel`, `/service/sentinel` does not
/// exist either, as the second run, no longer finding the first link,
/// removes the second.
pub proof fn uninstall_is_idempotent(
    is_admin: bool,
    init: InitSystem,
    runit_link_exists: bool,
    binary_present: bool,
    before: Set<Seq<char>>,
)
    requires
        runit_link_exists == before.contains(RUNIT_LINK@),
        binary_present == before.contains(BINARY_GLOBAL_PATH@),
        init == InitSystem::Runit ==> !plan_effect(
            uninstall_steps(is_admin, init, runit_link_exists, binary_present),
            before,
        ).contains(RUNIT_ALT_LINK@),
    ensures
        ({
            let after = plan_effect(
                uninstall_steps(is_admin, init, runit_link_exists, binary_present),
                before,
            );
            plan_effect(
                uninstall_steps(
                    is_admin,
                    init,
                    after.contains(RUNIT_LINK@),
                    after.contains(BINARY_GLOBAL_PATH@),
                ),
                after,
            ) == after
        }),
{
    let un1 = uninstall_steps(is_admin, init, runit_link_exists, binary_present);
    let after = plan_effect(un1, before);
    let l2 = after.contains(RUNIT_LINK@);
    let b2 = after.contains(BINARY_GLOBAL_PATH@);
    let un2 = uninstall_steps(is_admin, init, l2, b2);
    if is_admin {
        lemma_uninstall_removes_only(init, runit_link_exists, binary_present);
        lemma_uninstall_removes_only(init, l2, b2);
        lemma_removals_only(un1, before);
        lemma_removals_only(un2, after);
        assert forall|q: Seq<char>| after.contains(q) implies !cleared_by(un2, q) by {
            lemma_uninstall_cleared(init, runit_link_exists, binary_present, q);
            lemma_uninstall_cleared(init, l2, b2, q);
            lemma_unregister_link(init, runit_link_exists, l2, q);
            if init == InitSystem::Runit && l2 && q == RUNIT_LINK@ {
                let unreg1 = unregister_steps(init, runit_link_exists);
                assert(clears(unreg1[0], q));
            }
        }
        assert(after.filter(|q: Seq<char>| !cleared_by(un2, q)) =~= after);
    } else {
        reveal_with_fuel(plan_effect, 3);
        assert(un1.drop_first()[0] is Fail);
        assert(step_effect(un1[0], before) =~= before);
        assert(after == before);
        assert(un2.drop_first()[0] is Fail);
        assert(step_effect(un2[0], after) =~= after);
    }
}

/// The step only reports: it prints, or prints and stops.
pub open spec fn only_reports(s: StepView) -> bool {
    s is Say || s is Fail
}

/// A refused `--install` or `--uninstall` reports and stops without touching
/// the host: without root privileges, or, for `--install`, without a
/// supported service manager, every step only prints, and the last one stops
/// the program.
pub proof fn refusal_changes_nothing(
    is_admin: bool,
    init: InitSystem,
    etc_sv_exists: bool,
    var_service_exists: bool,
    runit_link_exists: bool,
    binary_present: bool,
)
    ensures
        !is_admin || init == InitSystem::Unknown ==> {
            let inst = install_steps(is_admin, init, etc_sv_exists, var_service_exists);
            &&& forall|i: int| 0 <= i < inst.len() ==> only_reports(#[trigger] inst[i])
            &&& inst.last() is Fail
        },
        !is_admin ==> {
            let un = uninstall_steps(is_admin, init, runit_link_exists, binary_present);
            &&& forall|i: int| 0 <= i < un.len() ==> only_reports(#[trigger] un[i])
            &&& un.last() is Fail
        },
{
}

/// An argument that asks a service manager to start or reload a service.
pub open spec fn start_word(a: Seq<char>) -> bool {
    a == "start"@ || a == "restart"@ || a == "load"@
}

/// The invocation asks for a service to start: `ln` (which links a service
/// into runit's supervised directory) or an argument that is a start word.
pub open spec fn invocation_starts(c: InvocationView) -> bool {
    c.program == "ln"@ || exists|k: int| 0 <= k < c.args.len() && start_word(#[trigger] c.args[k])
}

/// The step starts a service.
pub open spec fn starts(s: StepView) -> bool {
    match s {
        StepView::Run(c) => invocation_starts(c),
        StepView::RunOrElse { first, fallback } => invocation_starts(first) || invocation_starts(
            fallback,
        ),
        _ => false,
    }
}

/// The file that defines the service for `init`.
pub open spec fn definition_path(init: InitSystem, etc_sv_exists: bool) -> Seq<char> {
    match init {
        InitSystem::Launchd => LAUNCHD_PLIST_PATH@,
        InitSystem::Systemd => SYSTEMD_UNIT_PATH@,
        InitSystem::Runit => runit_sv_dir(etc_sv_exists) + "/run"@,
        _ => INITD_SCRIPT_PATH@,
    }
}

/// The step that brings the installed service up: loading the launchd job
/// (which runs at load), starting the systemd, OpenRC or SysV service, or
/// linking the runit service directory where runit supervises it.
pub open spec fn start_step(init: InitSystem, etc_sv_exists: bool, var_service_exists: bool) -> StepView {
    match init {
        InitSystem::Launchd => StepView::Run(call("launchctl"@, seq!["load"@, LAUNCHD_PLIST_PATH@])),
        InitSystem::Systemd => StepView::Run(call("systemctl"@, seq!["start"@, "sentinel"@])),
        InitSystem::OpenRc => StepView::Run(call("rc-service"@, seq!["sentinel"@, "start"@])),
        InitSystem::Runit => StepView::Run(
            call("ln"@, seq!["-s"@, runit_sv_dir(etc_sv_exists), runit_link(var_service_exists)]),
        ),
        _ => StepView::Run(call(INITD_SCRIPT_PATH@, seq!["start"@])),
    }
}

/// The step that enables the service at boot, for the service managers
/// where that is a step of its own.
pub open spec fn enable_step(init: InitSystem) -> Option<StepView> {
    match init {
        InitSystem::Systemd => Some(StepView::Run(call("systemctl"@, seq!["enable"@, "sentinel"@]))),
        InitSystem::OpenRc => Some(
            StepView::Run(call("rc-update"@, seq!["add"@, "sentinel"@, "default"@])),
        ),
        InitSystem::SysVinit => Some(
            StepView::RunOrElse {
                first: call("update-rc.d"@, seq!["sentinel"@, "defaults"@]),
                fallback: call("chkconfig"@, seq!["--add"@, "sentinel"@]),
            },
        ),
        _ => None,
    }
}

/// The step that stops the running service.
pub open spec fn stop_step(init: InitSystem) -> StepView {
    match init {
        InitSystem::Launchd => StepView::Run(call("launchctl"@, seq!["unload"@, LAUNCHD_PLIST_PATH@])),
        InitSystem::Systemd => StepView::Run(call("systemctl"@, seq!["stop"@, "sentinel"@])),
        InitSystem::OpenRc => StepView::Run(call("rc-service"@, seq!["sentinel"@, "stop"@])),
        InitSystem::SysVinit => StepView::Run(call(INITD_SCRIPT_PATH@, seq!["stop"@])),
        _ => StepView::Run(call("pkill"@, seq!["-f"@, BINARY_GLOBAL_PATH@])),
    }
}

/// Installing as root on a host with a supported service manager copies the
/// binary, then writes the service definition, then (where it is a step of
/// its own) enables the service, then starts it, so that sentinel runs once
/// `--install` is done. The result gives the positions of these steps:
/// copy, definition, enabling, start.
pub proof fn install_starts_service(init: InitSystem, etc_sv_exists: bool, var_service_exists: bool) -> (at: (int, int, int, int))
    requires
        init != InitSystem::Unknown,
    ensures
        ({
            let inst = install_steps(true, init, etc_sv_exists, var_service_exists);
            &&& 0 <= at.0 < at.1 < at.3 < inst.len()
            &&& inst[at.0] == StepView::CopySelfTo(BINARY_GLOBAL_PATH@)
            &&& inst[at.1] matches StepView::WriteFile { path, .. } && path == definition_path(
                init,
                etc_sv_exists,
            )
            &&& inst[at.3] == start_step(init, etc_sv_exists, var_service_exists)
            &&& starts(inst[at.3])
            &&& enable_step(init) matches Some(e) ==> at.1 < at.2 < at.3 && inst[at.2] == e
        }),
{
    let inst = install_steps(true, init, etc_sv_exists, var_service_exists);
    let reg = register_steps(init, etc_sv_exists, var_service_exists);
    let head = seq![StepView::Say("[*] Checking environment privileges..."@)].push(
        StepView::Say("[*] Target system detection results: "@ + init_name(init)),
    ) + seq![
        StepView::CopySelfTo(BINARY_GLOBAL_PATH@),
        StepView::Say("[*] Binary deployed to "@ + BINARY_GLOBAL_PATH@),
        StepView::CreateDirAll(GLOBAL_CONFIG_DIR@),
    ];
    assert(inst[2] == head[2]);
    reveal_strlit("start");
    reveal_strlit("load");
    assert(start_word("start"@));
    assert(start_word("load"@));
    match init {
        InitSystem::Launchd => {
            assert(inst[5] == reg[0]);
            assert(inst[6] == reg[1]);
            assert(start_step(init, etc_sv_exists, var_service_exists)->Run_0.args[0] == "load"@);
            (2, 5, 5, 6)
        },
        InitSystem::Runit => {
            assert(inst[6] == reg[1]);
            assert(inst[8] == reg[3]);
            (2, 6, 6, 8)
        },
        _ => {
            assert(inst[5] == reg[0]);
            assert(inst[7] == reg[2]);
            assert(inst[8] == reg[3]);
            if init == InitSystem::Systemd {
                assert(start_step(init, etc_sv_exists, var_service_exists)->Run_0.args[0] == "start"@);
            } else {
                assert(start_step(init, etc_sv_exists, var_service_exists)->Run_0.args.last() == "start"@);
            }
            (2, 5, 7, 8)
        },
    }
}

proof fn lemma_uninstall_words()
    ensures
        !start_word("unload"@),
        !start_word("stop"@),
        !start_word("sentinel"@),
        !start_word("disable"@),
        !start_word("daemon-reload"@),
        !start_word("del"@),
        !start_word("-f"@),
        !start_word("remove"@),
        !start_word("--del"@),
        !start_word(LAUNCHD_PLIST_PATH@),
        !start_word(BINARY_GLOBAL_PATH@),
        "launchctl"@ != "ln"@,
        "systemctl"@ != "ln"@,
        "rc-service"@ != "ln"@,
        "rc-update"@ != "ln"@,
        "pkill"@ != "ln"@,
        "update-rc.d"@ != "ln"@,
        "chkconfig"@ != "ln"@,
        INITD_SCRIPT_PATH@ != "ln"@,
{
    reveal_strlit("start");
    reveal_strlit("restart");
    reveal_strlit("load");
    reveal_strlit("ln");
    reveal_strlit("unload");
    reveal_strlit("stop");
    reveal_strlit("sentinel");
    reveal_strlit("disable");
    reveal_strlit("daemon-reload");
    reveal_strlit("del");
    reveal_strlit("-f");
    reveal_strlit("remove");
    reveal_strlit("--del");
    reveal_strlit("/Library/LaunchDaemons/com.speedycoder.sentinel.plist");
    reveal_strlit("/usr/local/bin/sentinel");
    reveal_strlit("launchctl");
    reveal_strlit("systemctl");
    reveal_strlit("rc-service");
    reveal_strlit("rc-update");
    reveal_strlit("pkill");
    reveal_strlit("update-rc.d");
    reveal_strlit("chkconfig");
    reveal_strlit("/etc/init.d/sentinel");
    assert("start"@.len() == 5);
    assert("restart"@.len() == 7);
    assert("load"@.len() == 4);
    assert("unload"@.len() == 6);
    assert("stop"@.len() == 4);
    assert("stop"@[0] != "load"@[0]);
    assert("disable"@[0] != "restart"@[0]);
    assert("--del"@[0] != "start"@[0]);
    assert("ln"@.len() == 2);
    assert("launchctl"@.len() == 9);
    assert("systemctl"@.len() == 9);
    assert("rc-service"@.len() == 10);
    assert("rc-update"@.len() == 9);
    assert("pkill"@.len() == 5);
    assert("update-rc.d"@.len() == 11);
    assert("chkconfig"@.len() == 9);
    assert(INITD_SCRIPT_PATH@.len() == 20);
    assert("-f"@.len() != "ln"@.len() || "-f"@[0] != "ln"@[0]);
}

/// `--uninstall` never starts a service, for any service manager and any
/// probe outcome: no step it runs asks a service to start, restart or load.
pub proof fn uninstall_never_starts(
    is_admin: bool,
    init: InitSystem,
    runit_link_exists: bool,
    binary_present: bool,
)
    ensures
        forall|i: int|
            0 <= i < uninstall_steps(is_admin, init, runit_link_exists, binary_present).len()
                ==> !starts(
                #[trigger] uninstall_steps(is_admin, init, runit_link_exists, binary_present)[i],
            ),
{
    lemma_uninstall_words();
    let un = uninstall_steps(is_admin, init, runit_link_exists, binary_present);
    let unreg = unregister_steps(init, runit_link_exists);
    let tail = cleanup_steps(binary_present);
    assert forall|i: int| 0 <= i < un.len() implies !starts(#[trigger] un[i]) by {
        if is_admin {
            if 1 <= i < 1 + unreg.len() {
                assert(un[i] == unreg[i - 1]);
            } else if i >= 1 + unreg.len() {
                assert(un[i] == tail[i - 1 - unreg.len()]);
            }
        }
    }
}

/// `--uninstall` as root stops the running service before it removes the
/// service definition. The result gives the positions of the stop and of
/// the removal.
pub proof fn uninstall_stops_before_removing(
    init: InitSystem,
    etc_sv_exists: bool,
    runit_link_exists: bool,
    binary_present: bool,
) -> (at: (int, int))
    requires
        init != InitSystem::Unknown,
    ensures
        ({
            let un = uninstall_steps(true, init, runit_link_exists, binary_present);
            &&& 0 <= at.0 < at.1 < un.len()
            &&& un[at.0] == stop_step(init)
            &&& clears(un[at.1], definition_path(init, etc_sv_exists))
        }),
{
    let un = uninstall_steps(true, init, runit_link_exists, binary_present);
    let unreg = unregister_steps(init, runit_link_exists);
    match init {
        InitSystem::Launchd => {
            assert(un[1] == unreg[0]);
            assert(un[2] == unreg[1]);
            (1, 2)
        },
        InitSystem::Runit => {
            lemma_runit_run_within(runit_sv_dir(etc_sv_exists));
            assert(un[2] == unreg[1]);
            assert(un[3] == unreg[2]);
            assert(un[4] == unreg[3]);
            if etc_sv_exists {
                (2, 3)
            } else {
                (2, 4)
            }
        },
        _ => {
            assert(un[1] == unreg[0]);
            assert(un[3] == unreg[2]);
            (1, 3)
        },
    }
}

/// The step that a restart ends with, after which the service runs with the
/// new configuration.
pub open spec fn resume_step(init: InitSystem) -> StepView {
    match init {
        InitSystem::Launchd => StepView::Run(call("launchctl"@, seq!["load"@, LAUNCHD_PLIST_PATH@])),
        InitSystem::Systemd => StepView::Run(call("systemctl"@, seq!["restart"@, "sentinel"@])),
        InitSystem::OpenRc => StepView::Run(call("rc-service"@, seq!["sentinel"@, "restart"@])),
        InitSystem::Runit => StepView::Run(call("sv"@, seq!["restart"@, "sentinel"@])),
        _ => StepView::Run(call(INITD_SCRIPT_PATH@, seq!["start"@])),
    }
}

/// A restart leaves the service running: its last step starts the service
/// again, and where the restart takes two steps, the first one stops it.
/// The same holds of what `config` does after saving a global configuration.
pub proof fn restart_leaves_service_running(init: InitSystem, config_path: Seq<char>, content: Seq<char>)
    requires
        init != InitSystem::Unknown,
    ensures
        restart_steps(init).len() > 0,
        restart_steps(init).last() == resume_step(init),
        starts(restart_steps(init).last()),
        restart_steps(init).len() == 2 ==> restart_steps(init)[0] == stop_step(init),
        forall|i: int| 0 <= i < restart_steps(init).len() - 1 ==> !starts(#[trigger] restart_steps(init)[i]),
        saved_config_steps(config_path, content, true, init).last() == resume_step(init),
{
    lemma_uninstall_words();
    reveal_strlit("start");
    reveal_strlit("restart");
    reveal_strlit("load");
    let rs = restart_steps(init);
    let last = rs.last();
    assert(last->Run_0.args[0] == "load"@ || last->Run_0.args[0] == "restart"@ || last->Run_0.args.last()
        == "restart"@ || last->Run_0.args[0] == "start"@);
    assert(starts(last));
    let saved = saved_config_steps(config_path, content, true, init);
    assert(saved.last() == rs.last());
}

} // verus!
