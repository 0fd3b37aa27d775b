//! The service definitions that register the globally installed binary with
//! each supported service manager.

use vstd::prelude::*;

verus! {

/// Where the binary is installed for all users.
pub const BINARY_GLOBAL_PATH: &'static str = "/usr/local/bin/sentinel";

/// The launchd property list that starts the binary at boot and keeps it alive.
pub open spec fn launchd_plist_text() -> Seq<char> {
    "<?xml version=\"1.0\" encoding=\"UTF-8\"?>\n<!DOCTYPE plist PUBLIC \"-//Apple//DTD PLIST 1.0//EN\" \"http://www.apple.com/DTDs/PropertyList-1.0.dtd\">\n<plist version=\"1.0\">\n<dict>\n\t<key>Label</key>\n\t<string>com.speedycoder.sentinel</string>\n\t<key>ProgramArguments</key>\n\t<array>\n\t\t<string>"@
        + BINARY_GLOBAL_PATH@
        + "</string>\n\t</array>\n\t<key>WorkingDirectory</key>\n\t<string>/etc/sentinel</string>\n\t<key>RunAtLoad</key>\n\t<true/>\n\t<key>KeepAlive</key>\n\t<true/>\n</dict>\n</plist>\n"@
}

/// The systemd unit that runs the binary as a simple, always restarted service.
pub open spec fn systemd_unit_text() -> Seq<char> {
    "[Unit]\nDescription=Sentinel System Monitor\nAfter=network.target\n\n[Service]\nType=simple\nExecStart="@
        + BINARY_GLOBAL_PATH@
        + "\nWorkingDirectory=/etc/sentinel\nRestart=always\n\n[Install]\nWantedBy=multi-user.target\n"@
}

/// The OpenRC script that runs the binary in the background once the network is up.
pub open spec fn openrc_script_text() -> Seq<char> {
    "#!/sbin/openrc-run\ndescription=\"Sentinel System Monitor Daemon\"\ncommand=\""@
        + BINARY_GLOBAL_PATH@
        + "\"\ncommand_background=\"true\"\npidfile=\"/run/sentinel.pid\"\nworking_directory=\"/etc/sentinel\"\ndepend() {\n    need net\n}\n"@
}

/// The runit `run` script that executes the binary.
pub open spec fn runit_run_script_text() -> Seq<char> {
    "#!/bin/sh\nexec 2>&1\ncd /etc/sentinel\nexec "@ + BINARY_GLOBAL_PATH@ + "\n"@
}

/// The SysV init script that starts the binary in the background and stops it.
pub open spec fn sysv_script_text() -> Seq<char> {
    "#!/bin/sh\n### BEGIN INIT INFO\n# Provides: sentinel\n# Required-Start: $network\n# Default-Start: 2 3 4 5\n### END INIT INFO\ncase \"$1\" in\n  start)\n    echo \"Starting sentinel...\"\n    cd /etc/sentinel && "@
        + BINARY_GLOBAL_PATH@
        + " > /dev/null 2>&1 &\n    ;;\nstop)\n    echo \"Stopping sentinel...\"\n    pkill -f "@
        + BINARY_GLOBAL_PATH@
        + "\n    ;;\n  *)\n    echo \"Usage: /etc/init.d/sentinel {start|stop}\"\n    exit 1\nesac\nexit 0\n"@
}

/// The launchd property list of the service.
pub fn launchd_plist() -> (r: String)
    ensures
        r@ == launchd_plist_text(),
{
    let mut s = String::from_str(
        "<?xml version=\"1.0\" encoding=\"UTF-8\"?>\n<!DOCTYPE plist PUBLIC \"-//Apple//DTD PLIST 1.0//EN\" \"http://www.apple.com/DTDs/PropertyList-1.0.dtd\">\n<plist version=\"1.0\">\n<dict>\n\t<key>Label</key>\n\t<string>com.speedycoder.sentinel</string>\n\t<key>ProgramArguments</key>\n\t<array>\n\t\t<string>",
    );
    s.append(BINARY_GLOBAL_PATH);
    s.append(
        "</string>\n\t</array>\n\t<key>WorkingDirectory</key>\n\t<string>/etc/sentinel</string>\n\t<key>RunAtLoad</key>\n\t<true/>\n\t<key>KeepAlive</key>\n\t<true/>\n</dict>\n</plist>\n",
    );
    s
}

/// The systemd unit of the service.
pub fn systemd_unit() -> (r: String)
    ensures
        r@ == systemd_unit_text(),
{
    let mut s = String::from_str(
        "[Unit]\nDescription=Sentinel System Monitor\nAfter=network.target\n\n[Service]\nType=simple\nExecStart=",
    );
    s.append(BINARY_GLOBAL_PATH);
    s.append(
        "\nWorkingDirectory=/etc/sentinel\nRestart=always\n\n[Install]\nWantedBy=multi-user.target\n",
    );
    s
}

/// The OpenRC script of the service.
pub fn openrc_script() -> (r: String)
    ensures
        r@ == openrc_script_text(),
{
    let mut s = String::from_str(
        "#!/sbin/openrc-run\ndescription=\"Sentinel System Monitor Daemon\"\ncommand=\"",
    );
    s.append(BINARY_GLOBAL_PATH);
    s.append(
        "\"\ncommand_background=\"true\"\npidfile=\"/run/sentinel.pid\"\nworking_directory=\"/etc/sentinel\"\ndepend() {\n    need net\n}\n",
    );
    s
}

/// The runit `run` script of the service.
pub fn runit_run_script() -> (r: String)
    ensures
        r@ == runit_run_script_text(),
{
    let mut s = String::from_str("#!/bin/sh\nexec 2>&1\ncd /etc/sentinel\nexec ");
    s.append(BINARY_GLOBAL_PATH);
    s.append("\n");
    s
}

/// The SysV init script of the service.
pub fn sysv_script() -> (r: String)
    ensures
        r@ == sysv_script_text(),
{
    let mut s = String::from_str(
        "#!/bin/sh\n### BEGIN INIT INFO\n# Provides: sentinel\n# Required-Start: $network\n# Default-Start: 2 3 4 5\n### END INIT INFO\ncase \"$1\" in\n  start)\n    echo \"Starting sentinel...\"\n    cd /etc/sentinel && ",
    );
    s.append(BINARY_GLOBAL_PATH);
    s.append(" > /dev/null 2>&1 &\n    ;;\nstop)\n    echo \"Stopping sentinel...\"\n    pkill -f ");
    s.append(BINARY_GLOBAL_PATH);
    s.append(
        "\n    ;;\n  *)\n    echo \"Usage: /etc/init.d/sentinel {start|stop}\"\n    exit 1\nesac\nexit 0\n",
    );
    s
}

} // verus!
