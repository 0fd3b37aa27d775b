use sentinel::notify::{
    alert_payload, startup_payload, status_payload, tick_alerts, AlertKind, DiscordEmbed,
    EmbedField,
};

fn field(name: &str, value: &str) -> EmbedField {
    EmbedField { name: name.to_string(), value: value.to_string(), inline: true }
}

#[test]
fn alerts_follow_crossed_thresholds() {
    assert_eq!(tick_alerts(false, false), vec![]);
    assert_eq!(tick_alerts(true, false), vec![AlertKind::Cpu]);
    assert_eq!(tick_alerts(false, true), vec![AlertKind::Ram]);
    assert_eq!(tick_alerts(true, true), vec![AlertKind::Cpu, AlertKind::Ram]);
}

#[test]
fn alert_payload_shows_both_usages() {
    let p = alert_payload("T", "D", 7, "12.34", "56.78");
    assert_eq!(
        p.embeds,
        vec![DiscordEmbed {
            title: "T".to_string(),
            description: "D".to_string(),
            color: 7,
            fields: vec![field("Current CPU", "12.34%"), field("Current RAM", "56.78%")],
        }]
    );
}

#[test]
fn cpu_and_ram_alerts() {
    let cpu = AlertKind::Cpu.payload("95.00", "40.00");
    assert_eq!(cpu.embeds[0].title, "Alert: High CPU Utilization Detected");
    assert_eq!(cpu.embeds[0].description, "Operational processing limits exceeded.");
    assert_eq!(cpu.embeds[0].color, 15158332);
    let ram = AlertKind::Ram.payload("10.00", "91.50");
    assert_eq!(ram.embeds[0].title, "Alert: Memory Cap Exceeded");
    assert_eq!(ram.embeds[0].description, "Memory buffer crossed.");
    assert_eq!(ram.embeds[0].fields[1], field("Current RAM", "91.50%"));
    assert_eq!(AlertKind::Cpu.notice("95.00", "40.00"), "[!] CPU threshold crossed: 95.00%");
    assert_eq!(AlertKind::Ram.notice("10.00", "91.50"), "[!] RAM threshold crossed: 91.50%");
}

#[test]
fn startup_notice() {
    let p = startup_payload();
    assert_eq!(
        p.embeds,
        vec![DiscordEmbed {
            title: "Sentinel Online".to_string(),
            description: "The background resource monitoring daemon has started successfully.".to_string(),
            color: 3066993,
            fields: vec![],
        }]
    );
}

#[test]
fn status_report() {
    let p = status_payload("3.50", "42.00");
    assert_eq!(p.embeds.len(), 1);
    assert_eq!(p.embeds[0].title, "Sentinel Status Report");
    assert_eq!(p.embeds[0].fields, vec![field("Current CPU", "3.50%"), field("Current RAM", "42.00%")]);
}
