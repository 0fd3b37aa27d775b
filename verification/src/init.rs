//! Which service manager runs the host, decided from probes of the filesystem.

use vstd::prelude::*;

verus! {

/// The service managers sentinel knows how to register itself with.
#[derive(Debug, Clone, Copy, PartialEq, Eq, Structural)]
pub enum InitSystem {
    Systemd,
    OpenRc,
    Runit,
    SysVinit,
    Launchd,
    Unknown,
}

/// What the host showed when probed: the platform, the presence of marker
/// paths, and whether a `systemd` process is running.
#[derive(Debug, Clone, Copy, PartialEq, Eq, Structural)]
pub struct InitProbe {
    /// Built for macOS.
    pub is_macos: bool,
    /// `/run/systemd/system` exists.
    pub run_systemd_system: bool,
    /// `pidof systemd` printed at least one process id.
    pub systemd_running: bool,
    /// `/sbin/openrc-run` exists.
    pub sbin_openrc_run: bool,
    /// `/etc/init.d/functions.sh` exists.
    pub initd_functions_sh: bool,
    /// `/etc/runit` exists.
    pub etc_runit: bool,
    /// `/var/service` exists.
    pub var_service: bool,
    /// `/etc/init.d` exists.
    pub etc_initd: bool,
}

/// The service manager that the probes point to, the first that matches in
/// the order launchd, systemd, OpenRC, runit, SysVinit.
pub open spec fn detected(p: InitProbe) -> InitSystem {
    if p.is_macos {
        InitSystem::Launchd
    } else if p.run_systemd_system || p.systemd_running {
        InitSystem::Systemd
    } else if p.sbin_openrc_run || p.initd_functions_sh {
        InitSystem::OpenRc
    } else if p.etc_runit || p.var_service {
        InitSystem::Runit
    } else if p.etc_initd && !p.run_systemd_system {
        InitSystem::SysVinit
    } else {
        InitSystem::Unknown
    }
}

/// The service manager of the probed host.
pub fn detect_init_system(probe: &InitProbe) -> (init: InitSystem)
    ensures
        init == detected(*probe),
{
    if probe.is_macos {
        return InitSystem::Launchd;
    }
    if probe.run_systemd_system || probe.systemd_running {
        InitSystem::Systemd
    } else if probe.sbin_openrc_run || probe.initd_functions_sh {
        InitSystem::OpenRc
    } else if probe.etc_runit || probe.var_service {
        InitSystem::Runit
    } else if probe.etc_initd && !probe.run_systemd_system {
        InitSystem::SysVinit
    } else {
        InitSystem::Unknown
    }
}

/// The name under which a service manager is reported to the user.
pub open spec fn init_name(init: InitSystem) -> Seq<char> {
    match init {
        InitSystem::Systemd => "Systemd"@,
        InitSystem::OpenRc => "OpenRc"@,
        InitSystem::Runit => "Runit"@,
        InitSystem::SysVinit => "SysVinit"@,
        InitSystem::Launchd => "Launchd"@,
        InitSystem::Unknown => "Unknown"@,
    }
}

impl InitSystem {
    /// The name under which this service manager is reported to the user.
    pub fn name(&self) -> (r: &'static str)
        ensures
            r@ == init_name(*self),
    {
        match self {
            InitSystem::Systemd => "Systemd",
            InitSystem::OpenRc => "OpenRc",
            InitSystem::Runit => "Runit",
            InitSystem::SysVinit => "SysVinit",
            InitSystem::Launchd => "Launchd",
            InitSystem::Unknown => "Unknown",
        }
    }
}

/// A host on which `/run/systemd/system` exists is never taken for SysVinit.
pub proof fn systemd_marker_excludes_sysvinit(p: InitProbe)
    requires
        p.run_systemd_system,
    ensures
        detected(p) != InitSystem::SysVinit,
{
}

/// How each marker decides: macOS always means launchd; elsewhere a systemd
/// marker means systemd; without one, an OpenRC marker (`/sbin/openrc-run`
/// or `/etc/init.d/functions.sh`) means OpenRC; without those, a runit
/// marker means runit; a bare `/etc/init.d` means SysVinit; and a host with
/// none of these markers has no supported service manager.
pub proof fn detection_follows_markers(p: InitProbe)
    ensures
        p.is_macos ==> detected(p) == InitSystem::Launchd,
        !p.is_macos && (p.run_systemd_system || p.systemd_running) ==> detected(p)
            == InitSystem::Systemd,
        !p.is_macos && !p.run_systemd_system && !p.systemd_running && p.sbin_openrc_run
            ==> detected(p) == InitSystem::OpenRc,
        !p.is_macos && !p.run_systemd_system && !p.systemd_running && p.initd_functions_sh
            ==> detected(p) == InitSystem::OpenRc,
        !p.is_macos && !p.run_systemd_system && !p.systemd_running && !p.sbin_openrc_run
            && !p.initd_functions_sh && (p.etc_runit || p.var_service) ==> detected(p)
            == InitSystem::Runit,
        !p.is_macos && !p.run_systemd_system && !p.systemd_running && !p.sbin_openrc_run
            && !p.initd_functions_sh && !p.etc_runit && !p.var_service && p.etc_initd
            ==> detected(p) == InitSystem::SysVinit,
        !p.is_macos && !p.run_systemd_system && !p.systemd_running && !p.sbin_openrc_run
            && !p.initd_functions_sh && !p.etc_runit && !p.var_service && !p.etc_initd
            ==> detected(p) == InitSystem::Unknown,
{
}

} // verus!
