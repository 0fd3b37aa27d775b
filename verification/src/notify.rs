//! The Discord messages the monitor sends, and which alerts a check raises.

use vstd::prelude::*;
use crate::text::joined;

verus! {

/// A name/value line of an embed.
#[derive(Debug, Clone, PartialEq, Eq)]
pub struct EmbedField {
    pub name: String,
    pub value: String,
    pub inline: bool,
}

/// A Discord embed: a titled, coloured card with fields.
#[derive(Debug, Clone, PartialEq, Eq)]
pub struct DiscordEmbed {
    pub title: String,
    pub description: String,
    pub color: u32,
    pub fields: Vec<EmbedField>,
}

/// The body posted to a Discord webhook.
#[derive(Debug, Clone, PartialEq, Eq)]
pub struct DiscordPayload {
    pub embeds: Vec<DiscordEmbed>,
}

/// A field as character sequences.
pub struct EmbedFieldView {
    pub name: Seq<char>,
    pub value: Seq<char>,
    pub inline: bool,
}

/// An embed as character sequences.
pub struct DiscordEmbedView {
    pub title: Seq<char>,
    pub description: Seq<char>,
    pub color: u32,
    pub fields: Seq<EmbedFieldView>,
}

impl View for EmbedField {
    type V = EmbedFieldView;

    open spec fn view(&self) -> EmbedFieldView {
        EmbedFieldView { name: self.name@, value: self.value@, inline: self.inline }
    }
}

impl View for DiscordEmbed {
    type V = DiscordEmbedView;

    open spec fn view(&self) -> DiscordEmbedView {
        DiscordEmbedView {
            title: self.title@,
            description: self.description@,
            color: self.color,
            fields: self.fields@.map_values(|f: EmbedField| f@),
        }
    }
}

impl View for DiscordPayload {
    type V = Seq<DiscordEmbedView>;

    open spec fn view(&self) -> Seq<DiscordEmbedView> {
        self.embeds@.map_values(|e: DiscordEmbed| e@)
    }
}

/// The colour of an alert, red.
pub const ALERT_COLOR: u32 = 15158332;

/// The colour of the startup notice, green.
pub const ONLINE_COLOR: u32 = 3066993;

/// The colour of a status report, blue.
pub const STATUS_COLOR: u32 = 3447003;

/// The two inline fields that show CPU and RAM usage, in percent.
pub open spec fn usage_fields(cpu_text: Seq<char>, ram_text: Seq<char>) -> Seq<EmbedFieldView> {
    seq![
        EmbedFieldView { name: "Current CPU"@, value: cpu_text + "%"@, inline: true },
        EmbedFieldView { name: "Current RAM"@, value: ram_text + "%"@, inline: true },
    ]
}

/// A payload of one embed.
pub open spec fn single_embed(
    title: Seq<char>,
    description: Seq<char>,
    color: u32,
    fields: Seq<EmbedFieldView>,
) -> Seq<DiscordEmbedView> {
    seq![DiscordEmbedView { title, description, color, fields }]
}

/// A field that shows `number_text` followed by a percent sign.
fn usage_field(name: &str, number_text: &str) -> (r: EmbedField)
    ensures
        r@ == (EmbedFieldView { name: name@, value: number_text@ + "%"@, inline: true }),
{
    EmbedField { name: String::from_str(name), value: joined(number_text, "%"), inline: true }
}

/// A payload of one embed with the given fields.
fn one_embed(title: &str, description: &str, color: u32, fields: Vec<EmbedField>) -> (r: DiscordPayload)
    ensures
        r@ == single_embed(title@, description@, color, fields@.map_values(|f: EmbedField| f@)),
{
    let embed = DiscordEmbed {
        title: String::from_str(title),
        description: String::from_str(description),
        color,
        fields,
    };
    let mut embeds: Vec<DiscordEmbed> = Vec::new();
    embeds.push(embed);
    let r = DiscordPayload { embeds };
    assert(r@ =~= single_embed(title@, description@, color, fields@.map_values(|f: EmbedField| f@)));
    r
}

/// The two usage fields, in order.
fn usage_field_list(cpu_text: &str, ram_text: &str) -> (r: Vec<EmbedField>)
    ensures
        r@.map_values(|f: EmbedField| f@) == usage_fields(cpu_text@, ram_text@),
{
    let mut fields: Vec<EmbedField> = Vec::new();
    fields.push(usage_field("Current CPU", cpu_text));
    fields.push(usage_field("Current RAM", ram_text));
    assert(fields@.map_values(|f: EmbedField| f@) =~= usage_fields(cpu_text@, ram_text@));
    fields
}

/// The alert with the given title, description and colour, showing CPU and
/// RAM usage; each text is a number that a percent sign follows.
pub fn alert_payload(
    title: &str,
    description: &str,
    color: u32,
    cpu_text: &str,
    ram_text: &str,
) -> (r: DiscordPayload)
    ensures
        r@ == single_embed(title@, description@, color, usage_fields(cpu_text@, ram_text@)),
{
    one_embed(title, description, color, usage_field_list(cpu_text, ram_text))
}

/// The notice that the daemon has started.
pub fn startup_payload() -> (r: DiscordPayload)
    ensures
        r@ == single_embed(
            "Sentinel Online"@,
            "The background resource monitoring daemon has started successfully."@,
            ONLINE_COLOR,
            Seq::empty(),
        ),
{
    let fields: Vec<EmbedField> = Vec::new();
    let r = one_embed(
        "Sentinel Online",
        "The background resource monitoring daemon has started successfully.",
        ONLINE_COLOR,
        fields,
    );
    assert(fields@.map_values(|f: EmbedField| f@) =~= Seq::<EmbedFieldView>::empty());
    r
}

/// The on-demand report of the current CPU and RAM usage.
pub fn status_payload(cpu_text: &str, ram_text: &str) -> (r: DiscordPayload)
    ensures
        r@ == single_embed(
            "Sentinel Status Report"@,
            "Current system vitals collected on demand."@,
            STATUS_COLOR,
            usage_fields(cpu_text@, ram_text@),
        ),
{
    one_embed(
        "Sentinel Status Report",
        "Current system vitals collected on demand.",
        STATUS_COLOR,
        usage_field_list(cpu_text, ram_text),
    )
}

/// A resource whose usage can cross its threshold.
#[derive(Debug, Clone, Copy, PartialEq, Eq, Structural)]
pub enum AlertKind {
    Cpu,
    Ram,
}

/// The title of the alert for `kind`.
pub open spec fn alert_title(kind: AlertKind) -> Seq<char> {
    match kind {
        AlertKind::Cpu => "Alert: High CPU Utilization Detected"@,
        AlertKind::Ram => "Alert: Memory Cap Exceeded"@,
    }
}

/// The description of the alert for `kind`.
pub open spec fn alert_description(kind: AlertKind) -> Seq<char> {
    match kind {
        AlertKind::Cpu => "Operational processing limits exceeded."@,
        AlertKind::Ram => "Memory buffer crossed."@,
    }
}

/// The console line's start for `kind`; the usage and a percent sign follow it.
pub open spec fn notice_prefix(kind: AlertKind) -> Seq<char> {
    match kind {
        AlertKind::Cpu => "[!] CPU threshold crossed: "@,
        AlertKind::Ram => "[!] RAM threshold crossed: "@,
    }
}

impl AlertKind {
    /// The title of this alert.
    pub fn title(&self) -> (r: &'static str)
        ensures
            r@ == alert_title(*self),
    {
        match self {
            AlertKind::Cpu => "Alert: High CPU Utilization Detected",
            AlertKind::Ram => "Alert: Memory Cap Exceeded",
        }
    }

    /// The description of this alert.
    pub fn description(&self) -> (r: &'static str)
        ensures
            r@ == alert_description(*self),
    {
        match self {
            AlertKind::Cpu => "Operational processing limits exceeded.",
            AlertKind::Ram => "Memory buffer crossed.",
        }
    }

    /// The console line that reports this alert, with the usage of its own
    /// resource taken from the two usage texts.
    pub fn notice(&self, cpu_text: &str, ram_text: &str) -> (r: String)
        ensures
            r@ == notice_prefix(*self) + (match *self {
                AlertKind::Cpu => cpu_text@,
                AlertKind::Ram => ram_text@,
            }) + "%"@,
    {
        let mut s = match self {
            AlertKind::Cpu => joined("[!] CPU threshold crossed: ", cpu_text),
            AlertKind::Ram => joined("[!] RAM threshold crossed: ", ram_text),
        };
        s.append("%");
        s
    }

    /// The Discord alert for this resource, showing both usages.
    pub fn payload(&self, cpu_text: &str, ram_text: &str) -> (r: DiscordPayload)
        ensures
            r@ == single_embed(
                alert_title(*self),
                alert_description(*self),
                ALERT_COLOR,
                usage_fields(cpu_text@, ram_text@),
            ),
    {
        alert_payload(self.title(), self.description(), ALERT_COLOR, cpu_text, ram_text)
    }
}

/// The alerts of one check: one for each resource above its threshold, CPU first.
pub open spec fn raised_alerts(cpu_over: bool, ram_over: bool) -> Seq<AlertKind> {
    (if cpu_over { seq![AlertKind::Cpu] } else { Seq::empty() }) + (if ram_over {
        seq![AlertKind::Ram]
    } else {
        Seq::empty()
    })
}

/// The alerts of one check, given which usages are above their thresholds.
pub fn tick_alerts(cpu_over: bool, ram_over: bool) -> (r: Vec<AlertKind>)
    ensures
        r@ == raised_alerts(cpu_over, ram_over),
{
    let mut alerts: Vec<AlertKind> = Vec::new();
    if cpu_over {
        alerts.push(AlertKind::Cpu);
    }
    if ram_over {
        alerts.push(AlertKind::Ram);
    }
    assert(alerts@ =~= raised_alerts(cpu_over, ram_over));
    alerts
}

/// A check raises the CPU alert exactly when CPU usage is above its
/// threshold and the RAM alert exactly when RAM usage is above its own, each
/// once, the CPU alert first.
pub proof fn alerts_match_crossed_thresholds(cpu_over: bool, ram_over: bool)
    ensures
        raised_alerts(cpu_over, ram_over).contains(AlertKind::Cpu) <==> cpu_over,
        raised_alerts(cpu_over, ram_over).contains(AlertKind::Ram) <==> ram_over,
        raised_alerts(cpu_over, ram_over).len() == (if cpu_over { 1int } else { 0 }) + (if ram_over {
            1int
        } else {
            0
        }),
        cpu_over ==> raised_alerts(cpu_over, ram_over)[0] == AlertKind::Cpu,
{
    let r = raised_alerts(cpu_over, ram_over);
    if cpu_over {
        assert(r[0] == AlertKind::Cpu);
    }
    if ram_over {
        assert(r[r.len() - 1] == AlertKind::Ram);
    }
    if !cpu_over {
        assert forall|i: int| 0 <= i < r.len() implies r[i] != AlertKind::Cpu by {}
    }
    if !ram_over {
        assert forall|i: int| 0 <= i < r.len() implies r[i] != AlertKind::Ram by {}
    }
}

} // verus!
