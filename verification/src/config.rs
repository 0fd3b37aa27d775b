//! The monitor's configuration: its defaults, where it is kept, and how the
//! webhook URL is chosen.

use vstd::prelude::*;
use crate::error::SetupError;
use crate::text::{joined, trim_white_space, trimmed};

verus! {

/// The global configuration file, used where `/etc/sentinel` exists.
pub const GLOBAL_CONFIG_PATH: &'static str = "/etc/sentinel/config.toml";

/// The configuration file in the working directory.
pub const LOCAL_CONFIG_PATH: &'static str = "config.toml";

/// What the monitor runs with. A threshold is a percentage, held as the
/// bit pattern of its IEEE-754 single-precision value.
#[derive(Debug, Clone, PartialEq, Eq)]
pub struct Config {
    /// Seconds to wait between two checks.
    pub check_interval_secs: u64,
    /// CPU usage above which an alert is sent.
    pub cpu_threshold_bits: u32,
    /// RAM usage above which an alert is sent.
    pub ram_threshold_bits: u32,
    /// The Discord webhook that receives the notifications.
    pub webhook_url: String,
}

/// The default number of seconds between two checks.
pub open spec fn spec_default_interval() -> u64 {
    60
}

/// The bit pattern of the default threshold, 90.0 percent.
pub open spec fn spec_default_threshold_bits() -> u32 {
    0x42b4_0000
}

/// The default number of seconds between two checks.
pub fn default_interval() -> (r: u64)
    ensures
        r == spec_default_interval(),
{
    60
}

/// The bit pattern of the default CPU threshold, 90.0 percent.
pub fn default_cpu_threshold_bits() -> (r: u32)
    ensures
        r == spec_default_threshold_bits(),
{
    0x42b4_0000
}

/// The bit pattern of the default RAM threshold, 90.0 percent.
pub fn default_ram_threshold_bits() -> (r: u32)
    ensures
        r == spec_default_threshold_bits(),
{
    0x42b4_0000
}

/// The configuration with default interval and thresholds for `url`.
pub open spec fn is_default_for(c: Config, url: Seq<char>) -> bool {
    &&& c.check_interval_secs == spec_default_interval()
    &&& c.cpu_threshold_bits == spec_default_threshold_bits()
    &&& c.ram_threshold_bits == spec_default_threshold_bits()
    &&& c.webhook_url@ == url
}

impl Config {
    /// The configuration that sends to `webhook_url` with every other setting at its default.
    pub fn with_webhook(webhook_url: String) -> (r: Config)
        ensures
            is_default_for(r, webhook_url@),
    {
        Config {
            check_interval_secs: default_interval(),
            cpu_threshold_bits: default_cpu_threshold_bits(),
            ram_threshold_bits: default_ram_threshold_bits(),
            webhook_url,
        }
    }
}

/// The webhook URL of an existing configuration, or nothing.
pub open spec fn previous_webhook_text(existing: Option<Config>) -> Seq<char> {
    match existing {
        Some(c) => c.webhook_url@,
        None => Seq::empty(),
    }
}

/// The webhook URL of an existing configuration, or the empty string where there is none.
pub fn previous_webhook(existing: Option<Config>) -> (r: String)
    ensures
        r@ == previous_webhook_text(existing),
{
    match existing {
        Some(c) => c.webhook_url,
        None => String::new(),
    }
}

/// The question that asks for the webhook URL, showing the one kept if the answer is empty.
pub fn webhook_prompt(previous: &str) -> (r: String)
    ensures
        r@ == "Enter Discord Webhook URL ["@ + previous@ + "]: "@,
{
    let mut s = joined("Enter Discord Webhook URL [", previous);
    s.append("]: ");
    s
}

/// The webhook URL that `config` saves: the answer without surrounding white
/// space, else the previous URL, else nothing.
pub open spec fn chosen_webhook(answer: Seq<char>, previous: Seq<char>) -> Result<Seq<char>, SetupError> {
    if trimmed(answer).len() > 0 {
        Ok(trimmed(answer))
    } else if previous.len() > 0 {
        Ok(previous)
    } else {
        Err(SetupError::EmptyWebhook)
    }
}

/// The webhook URL that `config` saves, from the user's answer and the previous URL.
pub fn resolve_webhook(answer: &str, previous: String) -> (r: Result<String, SetupError>)
    ensures
        match (r, chosen_webhook(answer@, previous@)) {
            (Ok(url), Ok(expected)) => url@ == expected,
            (Err(e), Err(expected)) => e == expected,
            _ => false,
        },
{
    let typed = trim_white_space(answer);
    if typed.as_str().unicode_len() > 0 {
        Ok(typed)
    } else if previous.as_str().unicode_len() > 0 {
        Ok(previous)
    } else {
        Err(SetupError::EmptyWebhook)
    }
}

/// The file that `config` writes: the global one where `/etc/sentinel` exists.
pub open spec fn config_path_for(is_global: bool) -> Seq<char> {
    if is_global { GLOBAL_CONFIG_PATH@ } else { LOCAL_CONFIG_PATH@ }
}

/// The files a configuration is looked for in, in order.
pub open spec fn search_paths() -> Seq<Seq<char>> {
    seq![GLOBAL_CONFIG_PATH@, LOCAL_CONFIG_PATH@]
}

/// Where `config` writes: the global file where `/etc/sentinel` exists, which
/// takes root privileges, else the file in the working directory.
pub fn config_target(is_global: bool, is_admin: bool) -> (r: Result<&'static str, SetupError>)
    ensures
        is_global && !is_admin ==> r == Err::<&'static str, SetupError>(SetupError::ConfigNeedsRoot),
        is_global && is_admin ==> (r matches Ok(p) && p@ == config_path_for(is_global)),
        !is_global ==> (r matches Ok(p) && p@ == config_path_for(is_global)),
{
    if is_global {
        if !is_admin {
            return Err(SetupError::ConfigNeedsRoot);
        }
        Ok(GLOBAL_CONFIG_PATH)
    } else {
        Ok(LOCAL_CONFIG_PATH)
    }
}

/// The files a configuration is looked for in, in order.
pub fn config_search_paths() -> (r: Vec<&'static str>)
    ensures
        r@.map_values(|p: &'static str| p@) == search_paths(),
{
    let mut paths: Vec<&'static str> = Vec::new();
    paths.push(GLOBAL_CONFIG_PATH);
    paths.push(LOCAL_CONFIG_PATH);
    assert(paths@.map_values(|p: &'static str| p@) =~= search_paths());
    paths
}

/// The first configuration that was found, if any.
pub open spec fn first_found(candidates: Seq<Option<Config>>) -> Option<Config>
    decreases candidates.len(),
{
    if candidates.len() == 0 {
        None
    } else if candidates[0] is Some {
        candidates[0]
    } else {
        first_found(candidates.drop_first())
    }
}

/// The configuration that the monitor loads: the first of the candidates,
/// read in the order of `config_search_paths`, that was read and parsed.
pub fn select_config(candidates: Vec<Option<Config>>) -> (r: Option<Config>)
    ensures
        r == first_found(candidates@),
{
    let mut rest = candidates;
    while rest.len() > 0
        invariant
            first_found(candidates@) == first_found(rest@),
        decreases rest@.len(),
    {
        let ghost before = rest@;
        let next = rest.remove(0);
        assert(rest@ =~= before.drop_first());
        if next.is_some() {
            return next;
        }
    }
    None
}

/// The configuration the monitor runs with: the one loaded from a file, else
/// defaults for the webhook URL given as argument, else defaults for the one
/// in `SENTINEL_WEBHOOK`.
pub open spec fn run_config_ok(
    r: Config,
    loaded: Option<Config>,
    arg_url: Option<String>,
    env_url: Option<String>,
) -> bool {
    match loaded {
        Some(c) => r == c,
        None => match arg_url {
            Some(u) => is_default_for(r, u@),
            None => match env_url {
                Some(u) => is_default_for(r, u@),
                None => false,
            },
        },
    }
}

/// The configuration the monitor runs with; an error where there is none.
pub fn resolve_run_config(
    loaded: Option<Config>,
    arg_url: Option<String>,
    env_url: Option<String>,
) -> (r: Result<Config, SetupError>)
    ensures
        loaded is None && arg_url is None && env_url is None <==> r is Err,
        loaded matches Some(c) ==> r == Ok::<Config, SetupError>(c),
        r matches Ok(c) ==> run_config_ok(c, loaded, arg_url, env_url),
        r matches Err(e) ==> e == SetupError::NoConfiguration,
{
    match loaded {
        Some(c) => Ok(c),
        None => match arg_url {
            Some(u) => Ok(Config::with_webhook(u)),
            None => match env_url {
                Some(u) => Ok(Config::with_webhook(u)),
                None => Err(SetupError::NoConfiguration),
            },
        },
    }
}

/// The webhook URL that `config` saves is never empty.
pub proof fn saved_webhook_is_never_empty(answer: Seq<char>, previous: Seq<char>)
    ensures
        chosen_webhook(answer, previous) matches Ok(url) ==> url.len() > 0,
        chosen_webhook(answer, previous) is Err <==> trimmed(answer).len() == 0 && previous.len() == 0,
{
}

/// What `config` saves is what the monitor loads next. The premises: the
/// saved configuration carries the chosen webhook and the defaults, as
/// `Config::with_webhook` and `resolve_webhook` make it; the file that
/// `config` wrote reads back as what was saved; and where `/etc/sentinel`
/// does not exist, which is when `config` writes the local file, nothing is
/// read from the global file inside it.
pub proof fn saved_config_is_loaded_next(
    is_global: bool,
    answer: Seq<char>,
    previous: Seq<char>,
    saved: Config,
    found: Seq<Option<Config>>,
)
    requires
        chosen_webhook(answer, previous) is Ok,
        is_default_for(saved, chosen_webhook(answer, previous)->Ok_0),
        found.len() == search_paths().len(),
        forall|i: int|
            0 <= i < found.len() && search_paths()[i] == config_path_for(is_global) ==> found[i]
                == Some(saved),
        !is_global ==> found[0] is None,
    ensures
        first_found(found) == Some(saved),
        trimmed(answer).len() > 0 ==> saved.webhook_url@ == trimmed(answer),
        trimmed(answer).len() == 0 ==> saved.webhook_url@ == previous,
        saved.check_interval_secs == spec_default_interval(),
        saved.cpu_threshold_bits == spec_default_threshold_bits(),
        saved.ram_threshold_bits == spec_default_threshold_bits(),
{
    reveal_with_fuel(first_found, 2);
    assert(GLOBAL_CONFIG_PATH@ != LOCAL_CONFIG_PATH@) by {
        reveal_strlit("/etc/sentinel/config.toml");
        reveal_strlit("config.toml");
        assert(GLOBAL_CONFIG_PATH@.len() != LOCAL_CONFIG_PATH@.len());
    }
    if is_global {
        assert(search_paths()[0] == config_path_for(is_global));
    } else {
        assert(search_paths()[1] == config_path_for(is_global));
        assert(found.drop_first()[0] == found[1]);
    }
}

/// A configuration loaded from a file is run exactly as it is, whatever URL
/// the argument or `SENTINEL_WEBHOOK` gives; only without a file does the
/// monitor fall back to the defaults with the argument's URL, else the
/// environment's.
pub proof fn loaded_config_wins(
    r: Config,
    loaded: Option<Config>,
    arg_url: Option<String>,
    env_url: Option<String>,
)
    requires
        run_config_ok(r, loaded, arg_url, env_url),
    ensures
        loaded matches Some(c) ==> r == c,
        loaded is None && arg_url is Some ==> r.webhook_url@ == arg_url->0@
            && r.check_interval_secs == 60,
        loaded is None && arg_url is None ==> env_url is Some && r.webhook_url@ == env_url->0@
            && r.check_interval_secs == 60,
{
}

} // verus!
