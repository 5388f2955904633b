use lanyarrs::config::{
    validation_issues, ApiConfig, AppConfig, ConfigError, ConfigField, ConfigRule, DiscordConfig,
    ValidationIssue,
};
use lanyarrs::discord::client::{
    ClientAction, GatewayMessage, GuildCreateData, GuildMember, HelloData, IDENTIFY_INTENTS,
};
use lanyarrs::discord::gateway::{read_step, Backoff, ReadEvent, ReadStep};
use lanyarrs::discord::{Client, Gateway, Presence, PresenceUser, User};
use lanyarrs::storage::{presence_key, updates_channel, user_key};

fn config(token: &str, guild: &str, url: &str) -> (DiscordConfig, ApiConfig, String) {
    (
        DiscordConfig { bot_token: token.to_string(), guild_id: guild.to_string() },
        ApiConfig { port: 8080 },
        url.to_string(),
    )
}

fn app_config() -> AppConfig {
    let (d, a, u) = config("token-xyz", "555", "redis://127.0.0.1:6379/");
    AppConfig::new(d, a, u).expect("valid configuration")
}

fn issues_of(token: &str, guild: &str, url: &str) -> Vec<ValidationIssue> {
    let (d, a, u) = config(token, guild, url);
    match AppConfig::new(d, a, u) {
        Ok(_) => vec![],
        Err(ConfigError::ValidationError(v)) => v,
    }
}

fn issue(field: ConfigField, rule: ConfigRule) -> ValidationIssue {
    ValidationIssue { field, rule }
}

#[test]
fn valid_configuration_is_accepted() {
    let c = app_config();
    assert_eq!(c.discord.bot_token, "token-xyz");
    assert_eq!(c.discord.guild_id, "555");
    assert_eq!(c.api.port, 8080);
    assert_eq!(c.redis_url, "redis://127.0.0.1:6379/");
    assert!(c.validate().is_ok());
}

#[test]
fn each_broken_rule_is_reported_in_field_order() {
    assert_eq!(
        issues_of("", "555", "redis://localhost/"),
        vec![issue(ConfigField::DiscordBotToken, ConfigRule::Length)]
    );
    assert_eq!(
        issues_of("t", "", "redis://localhost/"),
        vec![
            issue(ConfigField::DiscordGuildId, ConfigRule::Length),
            issue(ConfigField::DiscordGuildId, ConfigRule::Pattern)
        ]
    );
    assert_eq!(
        issues_of("t", "12a", "redis://localhost/"),
        vec![issue(ConfigField::DiscordGuildId, ConfigRule::Pattern)]
    );
    assert_eq!(
        issues_of("t", "1", "not a url"),
        vec![issue(ConfigField::RedisUrl, ConfigRule::Url)]
    );
    assert_eq!(
        issues_of("", "x", ""),
        vec![
            issue(ConfigField::DiscordBotToken, ConfigRule::Length),
            issue(ConfigField::DiscordGuildId, ConfigRule::Pattern),
            issue(ConfigField::RedisUrl, ConfigRule::Url)
        ]
    );
}

#[test]
fn guild_id_digits_follow_the_regex_engine() {
    // `\d` in the regex crate is any Unicode decimal digit.
    assert_eq!(issues_of("t", "\u{0661}\u{0662}", "redis://localhost/"), vec![]);
    assert_eq!(
        issues_of("t", " 12", "redis://localhost/"),
        vec![issue(ConfigField::DiscordGuildId, ConfigRule::Pattern)]
    );
}

#[test]
fn validation_issues_from_check_results() {
    assert_eq!(validation_issues("a", "1", true, true), vec![]);
    assert_eq!(
        validation_issues("a", "1", false, false),
        vec![
            issue(ConfigField::DiscordGuildId, ConfigRule::Pattern),
            issue(ConfigField::RedisUrl, ConfigRule::Url)
        ]
    );
}

#[test]
fn storage_keys() {
    assert_eq!(user_key("123"), "user:123");
    assert_eq!(presence_key("123"), "presence:123");
    assert_eq!(updates_channel("123"), "updates:123");
    assert_eq!(user_key(""), "user:");
    assert_ne!(user_key("presence:1"), presence_key("1"));
}

#[test]
fn backoff_doubles_up_to_the_cap() {
    let mut b = Gateway::reconnect_backoff();
    let waits: Vec<u64> = (0..8).map(|_| b.next()).collect();
    assert_eq!(waits, vec![1000, 2000, 4000, 8000, 16000, 32000, 39000, 39000]);
    b.reset();
    assert_eq!(b.next(), 1000);
}

#[test]
fn backoff_with_min_above_max() {
    let mut b = Backoff::new(10, 5);
    assert_eq!(b.next(), 10);
    assert_eq!(b.next(), 5);
    assert_eq!(b.next(), 5);
}

#[test]
fn backoff_near_the_integer_limit() {
    let mut b = Backoff::new(u64::MAX / 2 + 1, u64::MAX);
    assert_eq!(b.next(), u64::MAX / 2 + 1);
    assert_eq!(b.next(), u64::MAX);
    assert_eq!(b.next(), u64::MAX);
}

#[test]
fn reconnect_plan() {
    let mut b = Gateway::reconnect_backoff();
    assert_eq!(b.plan_reconnect(false, 0), Some(1000));
    assert_eq!(b.plan_reconnect(false, 9999), Some(2000));
    assert_eq!(b.plan_reconnect(true, 0), None);
    assert_eq!(b.plan_reconnect(false, 500), Some(4000));
    assert_eq!(b.plan_reconnect(false, 10000), Some(1000));
    assert_eq!(b.plan_reconnect(false, 0), Some(2000));
}

#[test]
fn gateway_reads() {
    assert_eq!(read_step(ReadEvent::Text), ReadStep::Handle);
    assert_eq!(read_step(ReadEvent::OtherFrame), ReadStep::Skip);
    assert_eq!(read_step(ReadEvent::Cancelled), ReadStep::Stop);
    assert_eq!(read_step(ReadEvent::Ended), ReadStep::Stop);
    assert_eq!(read_step(ReadEvent::Failed), ReadStep::StopWithError);
}

fn msg(op: i64, t: Option<&str>, s: Option<i64>) -> GatewayMessage {
    GatewayMessage { op, t: t.map(|x| x.to_string()), s }
}

#[test]
fn client_dispatches_by_opcode_then_event() {
    let mut c = Client::new(app_config());
    assert_eq!(c.handle_message(&msg(10, None, None)), ClientAction::Hello);
    assert_eq!(c.handle_message(&msg(11, None, None)), ClientAction::HeartbeatAck);
    assert_eq!(c.handle_message(&msg(0, Some("READY"), Some(1))), ClientAction::Ready);
    assert_eq!(c.handle_message(&msg(0, Some("GUILD_CREATE"), Some(2))), ClientAction::GuildCreate);
    assert_eq!(
        c.handle_message(&msg(0, Some("PRESENCE_UPDATE"), Some(3))),
        ClientAction::PresenceUpdate
    );
    assert_eq!(c.handle_message(&msg(0, Some("TYPING_START"), None)), ClientAction::Unhandled);
    assert_eq!(c.handle_message(&msg(0, None, None)), ClientAction::Unhandled);
    assert_eq!(c.handle_message(&msg(10, Some("READY"), None)), ClientAction::Hello);
    assert_eq!(c.handle_message(&msg(1, Some("READY"), None)), ClientAction::Ready);
    assert_eq!(c.handle_message(&msg(7, Some("READY"), Some(9))), ClientAction::Malformed);
}

#[test]
fn heartbeat_carries_the_last_sequence() {
    let mut c = Client::new(app_config());
    assert_eq!(c.heartbeat_payload(), None);
    c.handle_message(&msg(0, Some("READY"), Some(41)));
    assert_eq!(c.heartbeat_payload(), Some(41));
    c.handle_message(&msg(11, None, None));
    assert_eq!(c.heartbeat_payload(), Some(41));
    c.handle_message(&msg(42, None, Some(99)));
    assert_eq!(c.heartbeat_payload(), Some(41));
    c.handle_message(&msg(0, Some("X"), Some(42)));
    assert_eq!(c.heartbeat_payload(), Some(42));
}

#[test]
fn identify_names_token_and_intents() {
    let c = Client::new(app_config());
    let id = c.identify_data();
    assert_eq!(id.token, "token-xyz");
    assert_eq!(id.intents, 259);
    assert_eq!(IDENTIFY_INTENTS, 1 << 0 | 1 << 1 | 1 << 8);
    assert_eq!(id.properties.os, "linux");
    assert_eq!(id.properties.browser, "lanyarrs");
    assert_eq!(id.properties.device, "lanyarrs");
}

fn member(id: &str) -> GuildMember {
    GuildMember {
        user: User {
            id: id.to_string(),
            username: format!("u{id}"),
            discriminator: "0".to_string(),
            global_name: None,
            avatar: None,
            bot: None,
            public_flags: None,
            avatar_decoration_data: None,
            collectibles: None,
            primary_guild: None,
            display_name_styles: None,
        },
    }
}

#[test]
fn guild_create_only_for_the_configured_guild() {
    let c = Client::new(app_config());
    let other = GuildCreateData { id: "556".to_string(), members: vec![member("1")], presences: vec![] };
    assert!(c.guild_users(other).is_none());
    let ours = GuildCreateData {
        id: "555".to_string(),
        members: vec![member("1"), member("2"), member("3")],
        presences: vec![],
    };
    let users = c.guild_users(ours).expect("users");
    let ids: Vec<&str> = users.iter().map(|u| u.id.as_str()).collect();
    assert_eq!(ids, vec!["1", "2", "3"]);
}

fn presence_in(guild: Option<&str>) -> Presence {
    Presence {
        user: PresenceUser { id: "1".to_string() },
        guild_id: guild.map(|g| g.to_string()),
        status: "online".to_string(),
        activities: vec![],
        client_status: Default::default(),
    }
}

#[test]
fn presence_updates_only_for_the_configured_guild() {
    let c = Client::new(app_config());
    assert!(c.accepts_presence(&presence_in(Some("555"))));
    assert!(!c.accepts_presence(&presence_in(Some("5555"))));
    assert!(!c.accepts_presence(&presence_in(None)));
}

#[test]
fn zero_heartbeat_interval_is_refused() {
    assert_eq!(Client::heartbeat_period(&HelloData { heartbeat_interval: 0 }), None);
    assert_eq!(Client::heartbeat_period(&HelloData { heartbeat_interval: 41250 }), Some(41250));
}

#[test]
fn backoff_waits_stay_between_the_bounds_across_resets() {
    for (min, max) in [(10u64, 5u64), (1000, 39000), (0, 7), (3, 3)] {
        let lo = min.min(max);
        let hi = min.max(max);
        let mut b = Backoff::new(min, max);
        for step in 0..20 {
            if step % 7 == 6 {
                b.reset();
            }
            let w = b.next();
            assert!(lo <= w && w <= hi, "wait {w} outside [{lo}, {hi}]");
        }
    }
}
