use sentinel::init::{detect_init_system, InitProbe, InitSystem};

fn nothing() -> InitProbe {
    InitProbe {
        is_macos: false,
        run_systemd_system: false,
        systemd_running: false,
        sbin_openrc_run: false,
        initd_functions_sh: false,
        etc_runit: false,
        var_service: false,
        etc_initd: false,
    }
}

#[test]
fn macos_uses_launchd() {
    let p = InitProbe { is_macos: true, run_systemd_system: true, ..nothing() };
    assert_eq!(detect_init_system(&p), InitSystem::Launchd);
}

#[test]
fn systemd_is_found_by_marker_or_process() {
    assert_eq!(detect_init_system(&InitProbe { run_systemd_system: true, ..nothing() }), InitSystem::Systemd);
    assert_eq!(
        detect_init_system(&InitProbe { systemd_running: true, sbin_openrc_run: true, ..nothing() }),
        InitSystem::Systemd
    );
}

#[test]
fn openrc_runit_sysvinit_in_order() {
    assert_eq!(
        detect_init_system(&InitProbe { initd_functions_sh: true, etc_runit: true, ..nothing() }),
        InitSystem::OpenRc
    );
    assert_eq!(
        detect_init_system(&InitProbe { var_service: true, etc_initd: true, ..nothing() }),
        InitSystem::Runit
    );
    assert_eq!(detect_init_system(&InitProbe { etc_initd: true, ..nothing() }), InitSystem::SysVinit);
    assert_eq!(detect_init_system(&nothing()), InitSystem::Unknown);
}

#[test]
fn systemd_marker_excludes_sysvinit_example() {
    let p = InitProbe { run_systemd_system: true, etc_initd: true, ..nothing() };
    assert_ne!(detect_init_system(&p), InitSystem::SysVinit);
}

#[test]
fn names_match_debug_output() {
    for init in [
        InitSystem::Systemd,
        InitSystem::OpenRc,
        InitSystem::Runit,
        InitSystem::SysVinit,
        InitSystem::Launchd,
        InitSystem::Unknown,
    ] {
        assert_eq!(init.name(), format!("{:?}", init));
    }
}
