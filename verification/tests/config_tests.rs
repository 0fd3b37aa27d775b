use sentinel::config::{
    config_search_paths, config_target, default_cpu_threshold_bits, default_interval,
    default_ram_threshold_bits, previous_webhook, resolve_run_config, resolve_webhook,
    select_config, webhook_prompt, Config,
};
use sentinel::error::SetupError;

fn config(url: &str, interval: u64) -> Config {
    Config {
        check_interval_secs: interval,
        cpu_threshold_bits: 75.5f32.to_bits(),
        ram_threshold_bits: 80.0f32.to_bits(),
        webhook_url: url.to_string(),
    }
}

#[test]
fn defaults_are_sixty_seconds_and_ninety_percent() {
    assert_eq!(default_interval(), 60);
    assert_eq!(f32::from_bits(default_cpu_threshold_bits()), 90.0);
    assert_eq!(f32::from_bits(default_ram_threshold_bits()), 90.0);
    let c = Config::with_webhook("https://hook".to_string());
    assert_eq!(c.check_interval_secs, 60);
    assert_eq!(f32::from_bits(c.cpu_threshold_bits), 90.0);
    assert_eq!(f32::from_bits(c.ram_threshold_bits), 90.0);
    assert_eq!(c.webhook_url, "https://hook");
}

#[test]
fn webhook_answer_is_trimmed() {
    assert_eq!(resolve_webhook("  https://hook/a \n", String::new()), Ok("https://hook/a".to_string()));
    assert_eq!(resolve_webhook("https://new\r\n", "https://old".to_string()), Ok("https://new".to_string()));
}

#[test]
fn empty_answer_keeps_previous_webhook() {
    assert_eq!(resolve_webhook("\n", "https://old".to_string()), Ok("https://old".to_string()));
    assert_eq!(resolve_webhook("", "https://old".to_string()), Ok("https://old".to_string()));
}

#[test]
fn empty_answer_without_previous_is_refused() {
    assert_eq!(resolve_webhook(" \t\n", String::new()), Err(SetupError::EmptyWebhook));
    assert_eq!(
        SetupError::EmptyWebhook.message(),
        "[x] Config cannot be empty without target webhook definition."
    );
}

#[test]
fn prompt_shows_previous_webhook() {
    assert_eq!(webhook_prompt("https://old"), "Enter Discord Webhook URL [https://old]: ");
    assert_eq!(webhook_prompt(""), "Enter Discord Webhook URL []: ");
}

#[test]
fn previous_webhook_of_existing_config() {
    assert_eq!(previous_webhook(Some(config("https://x", 5))), "https://x");
    assert_eq!(previous_webhook(None), "");
}

#[test]
fn config_target_depends_on_global_directory() {
    assert_eq!(config_target(true, true), Ok("/etc/sentinel/config.toml"));
    assert_eq!(config_target(false, false), Ok("config.toml"));
    assert_eq!(config_target(false, true), Ok("config.toml"));
    assert_eq!(config_target(true, false), Err(SetupError::ConfigNeedsRoot));
    assert_eq!(
        SetupError::ConfigNeedsRoot.message(),
        "[x] Error: Write access to /etc/sentinel denied. Run configuration step with 'sudo'."
    );
}

#[test]
fn search_paths_prefer_global_file() {
    assert_eq!(config_search_paths(), vec!["/etc/sentinel/config.toml", "config.toml"]);
}

#[test]
fn select_config_takes_first_found() {
    assert_eq!(select_config(vec![None, Some(config("b", 2))]), Some(config("b", 2)));
    assert_eq!(
        select_config(vec![Some(config("a", 1)), Some(config("b", 2))]),
        Some(config("a", 1))
    );
    assert_eq!(select_config(vec![None, None]), None);
    assert_eq!(select_config(vec![]), None);
}

#[test]
fn run_config_prefers_file_then_argument_then_environment() {
    let file = config("file", 30);
    assert_eq!(
        resolve_run_config(Some(file.clone()), Some("arg".to_string()), Some("env".to_string())),
        Ok(file)
    );
    assert_eq!(
        resolve_run_config(None, Some("arg".to_string()), Some("env".to_string())),
        Ok(Config::with_webhook("arg".to_string()))
    );
    assert_eq!(
        resolve_run_config(None, None, Some("env".to_string())),
        Ok(Config::with_webhook("env".to_string()))
    );
}

#[test]
fn run_config_missing_everywhere_is_refused() {
    assert_eq!(resolve_run_config(None, None, None), Err(SetupError::NoConfiguration));
    assert_eq!(
        SetupError::NoConfiguration.message(),
        "[x] Error: No configuration found. Run 'sudo sentinel config' or provide a webhook URL via arguments."
    );
}

#[test]
fn saved_config_is_loaded_next_example() {
    let saved = Config::with_webhook(resolve_webhook(" https://new \n", String::new()).unwrap());
    assert_eq!(select_config(vec![Some(saved.clone()), None]), Some(saved.clone()));
    assert_eq!(select_config(vec![None, Some(saved.clone())]), Some(saved.clone()));
    assert_eq!(saved.webhook_url, "https://new");
    assert_eq!(saved.check_interval_secs, 60);
}
