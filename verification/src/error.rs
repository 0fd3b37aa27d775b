//! The conditions on which sentinel refuses to go on, and what it tells the user.

use vstd::prelude::*;

verus! {

/// Why a command stops with exit status 1.
#[derive(Debug, Clone, Copy, PartialEq, Eq, Structural)]
pub enum SetupError {
    /// `--install` was run without root privileges.
    InstallNeedsRoot,
    /// `--uninstall` was run without root privileges.
    UninstallNeedsRoot,
    /// `config` was run without root privileges on a host with a global configuration.
    ConfigNeedsRoot,
    /// No supported service manager was found.
    UnsupportedInit,
    /// Neither the user nor the existing configuration gave a webhook URL.
    EmptyWebhook,
    /// No configuration file, webhook argument or `SENTINEL_WEBHOOK` was found.
    NoConfiguration,
}

/// The line printed on standard error for `e`.
pub open spec fn error_text(e: SetupError) -> Seq<char> {
    match e {
        SetupError::InstallNeedsRoot =>
            "[x] Error: Root privileges required for system installation. Run with 'sudo'."@,
        SetupError::UninstallNeedsRoot =>
            "[x] Error: Root privileges required for uninstallation. Run with 'sudo'."@,
        SetupError::ConfigNeedsRoot =>
            "[x] Error: Write access to /etc/sentinel denied. Run configuration step with 'sudo'."@,
        SetupError::UnsupportedInit =>
            "[x] Error: Unsupported init architecture. Sentinel handles systemd, OpenRC, runit, SysVinit, and launchd."@,
        SetupError::EmptyWebhook => "[x] Config cannot be empty without target webhook definition."@,
        SetupError::NoConfiguration =>
            "[x] Error: No configuration found. Run 'sudo sentinel config' or provide a webhook URL via arguments."@,
    }
}

impl SetupError {
    /// The line printed on standard error for this error.
    pub fn message(&self) -> (r: &'static str)
        ensures
            r@ == error_text(*self),
    {
        match self {
            SetupError::InstallNeedsRoot =>
                "[x] Error: Root privileges required for system installation. Run with 'sudo'.",
            SetupError::UninstallNeedsRoot =>
                "[x] Error: Root privileges required for uninstallation. Run with 'sudo'.",
            SetupError::ConfigNeedsRoot =>
                "[x] Error: Write access to /etc/sentinel denied. Run configuration step with 'sudo'.",
            SetupError::UnsupportedInit =>
                "[x] Error: Unsupported init architecture. Sentinel handles systemd, OpenRC, runit, SysVinit, and launchd.",
            SetupError::EmptyWebhook => "[x] Config cannot be empty without target webhook definition.",
            SetupError::NoConfiguration =>
                "[x] Error: No configuration found. Run 'sudo sentinel config' or provide a webhook URL via arguments.",
        }
    }
}

} // verus!
