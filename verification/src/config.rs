//! The relay's configuration and the checks it must pass before use.

use vstd::prelude::*;
use crate::outside::{regex_is_match, regex_outcome, url_rule_accepts, url_rule_holds};

verus! {

/// The pattern that a guild id must match: digits only.
pub const NUMERIC_PATTERN: &'static str = "^\\d+$";

#[derive(Debug, Clone)]
pub struct DiscordConfig {
    pub bot_token: String,
    pub guild_id: String,
}

#[derive(Debug, Clone)]
pub struct ApiConfig {
    pub port: u16,
}

#[derive(Debug, Clone)]
pub struct AppConfig {
    pub discord: DiscordConfig,
    pub api: ApiConfig,
    pub redis_url: String,
}

/// The configuration fields that carry a rule.
#[derive(Debug, Clone, Copy, PartialEq, Eq, Structural)]
pub enum ConfigField {
    DiscordBotToken,
    DiscordGuildId,
    RedisUrl,
}

/// The rule that a field broke.
#[derive(Debug, Clone, Copy, PartialEq, Eq, Structural)]
pub enum ConfigRule {
    /// At least one character.
    Length,
    /// Matches `NUMERIC_PATTERN`.
    Pattern,
    /// Accepted by garde's `url` rule.
    Url,
}

#[derive(Debug, Clone, Copy, PartialEq, Eq, Structural)]
pub struct ValidationIssue {
    pub field: ConfigField,
    pub rule: ConfigRule,
}

#[derive(Debug)]
pub enum ConfigError {
    /// The configuration broke these rules, in field order.
    ValidationError(Vec<ValidationIssue>),
}

pub open spec fn issue(field: ConfigField, rule: ConfigRule) -> ValidationIssue {
    ValidationIssue { field, rule }
}

/// `Seq::empty()` when `cond` holds, else the one issue.
pub open spec fn unless(cond: bool, i: ValidationIssue) -> Seq<ValidationIssue> {
    if cond { Seq::empty() } else { seq![i] }
}

/// Every rule that the configuration breaks, in the order of the fields and
/// of the rules on each field.
pub open spec fn issues_of(
    bot_token: Seq<char>,
    guild_id: Seq<char>,
    guild_id_numeric: bool,
    redis_url_valid: bool,
) -> Seq<ValidationIssue> {
    unless(bot_token.len() >= 1, issue(ConfigField::DiscordBotToken, ConfigRule::Length))
        + unless(guild_id.len() >= 1, issue(ConfigField::DiscordGuildId, ConfigRule::Length))
        + unless(guild_id_numeric, issue(ConfigField::DiscordGuildId, ConfigRule::Pattern))
        + unless(redis_url_valid, issue(ConfigField::RedisUrl, ConfigRule::Url))
}

/// Whether the guild id matches `NUMERIC_PATTERN`, as the regex engine says.
pub open spec fn guild_id_is_numeric(guild_id: Seq<char>) -> bool {
    regex_outcome(NUMERIC_PATTERN@, guild_id) == Some(true)
}

/// The issues of a configuration, from what the two outside checks said.
pub fn validation_issues(
    bot_token: &str,
    guild_id: &str,
    guild_id_numeric: bool,
    redis_url_valid: bool,
) -> (r: Vec<ValidationIssue>)
    ensures
        r@ == issues_of(bot_token@, guild_id@, guild_id_numeric, redis_url_valid),
{
    let mut issues: Vec<ValidationIssue> = Vec::new();
    if bot_token.is_empty() {
        issues.push(ValidationIssue { field: ConfigField::DiscordBotToken, rule: ConfigRule::Length });
    }
    if guild_id.is_empty() {
        issues.push(ValidationIssue { field: ConfigField::DiscordGuildId, rule: ConfigRule::Length });
    }
    if !guild_id_numeric {
        issues.push(ValidationIssue { field: ConfigField::DiscordGuildId, rule: ConfigRule::Pattern });
    }
    if !redis_url_valid {
        issues.push(ValidationIssue { field: ConfigField::RedisUrl, rule: ConfigRule::Url });
    }
    assert(issues@ =~= issues_of(bot_token@, guild_id@, guild_id_numeric, redis_url_valid));
    issues
}

/// Each rule is reported exactly when it is broken: the bot token and the
/// guild id are too short only when empty, the guild id breaks the pattern
/// only when the regex engine says it does not match `^\d+$`, and the redis
/// URL only when garde's URL rule refuses it. A configuration is accepted
/// exactly when none of these holds.
pub proof fn lemma_issues_exactly_broken_rules(c: AppConfig)
    ensures
        c.issues().contains(issue(ConfigField::DiscordBotToken, ConfigRule::Length))
            <==> c.discord.bot_token@.len() == 0,
        c.issues().contains(issue(ConfigField::DiscordGuildId, ConfigRule::Length))
            <==> c.discord.guild_id@.len() == 0,
        c.issues().contains(issue(ConfigField::DiscordGuildId, ConfigRule::Pattern))
            <==> regex_outcome("^\\d+$"@, c.discord.guild_id@) != Some(true),
        c.issues().contains(issue(ConfigField::RedisUrl, ConfigRule::Url))
            <==> !url_rule_accepts(c.redis_url@),
        c.issues().len() == 0 <==> (c.discord.bot_token@.len() > 0 && c.discord.guild_id@.len() > 0
            && regex_outcome("^\\d+$"@, c.discord.guild_id@) == Some(true) && url_rule_accepts(
            c.redis_url@,
        )),
        forall|i: int| 0 <= i < c.issues().len() ==> c.issues()[i] == issue(ConfigField::DiscordBotToken, ConfigRule::Length)
            || c.issues()[i] == issue(ConfigField::DiscordGuildId, ConfigRule::Length)
            || c.issues()[i] == issue(ConfigField::DiscordGuildId, ConfigRule::Pattern)
            || c.issues()[i] == issue(ConfigField::RedisUrl, ConfigRule::Url),
{
    let t = unless(c.discord.bot_token@.len() >= 1, issue(ConfigField::DiscordBotToken, ConfigRule::Length));
    let g = unless(c.discord.guild_id@.len() >= 1, issue(ConfigField::DiscordGuildId, ConfigRule::Length));
    let p = unless(guild_id_is_numeric(c.discord.guild_id@), issue(ConfigField::DiscordGuildId, ConfigRule::Pattern));
    let u = unless(url_rule_accepts(c.redis_url@), issue(ConfigField::RedisUrl, ConfigRule::Url));
    let all = t + g + p + u;
    assert(c.issues() == all);
    assert(NUMERIC_PATTERN@ == "^\\d+$"@);
    let bt = issue(ConfigField::DiscordBotToken, ConfigRule::Length);
    let gl = issue(ConfigField::DiscordGuildId, ConfigRule::Length);
    let gp = issue(ConfigField::DiscordGuildId, ConfigRule::Pattern);
    let ru = issue(ConfigField::RedisUrl, ConfigRule::Url);
    assert(all.len() == t.len() + g.len() + p.len() + u.len());
    assert forall|i: int| 0 <= i < all.len() implies all[i] == bt || all[i] == gl || all[i] == gp
        || all[i] == ru by {
        if i < t.len() {
        } else if i < t.len() + g.len() {
        } else if i < t.len() + g.len() + p.len() {
        } else {
        }
    }
    if c.discord.bot_token@.len() == 0 {
        assert(all[0] == bt);
    }
    if c.discord.guild_id@.len() == 0 {
        assert(all[t.len() as int] == gl);
    }
    if !guild_id_is_numeric(c.discord.guild_id@) {
        assert(all[(t.len() + g.len()) as int] == gp);
    }
    if !url_rule_accepts(c.redis_url@) {
        assert(all[(t.len() + g.len() + p.len()) as int] == ru);
    }
    assert(all.contains(bt) ==> c.discord.bot_token@.len() == 0) by {
        if all.contains(bt) {
            let i = choose|i: int| 0 <= i < all.len() && all[i] == bt;
            assert(i < t.len());
        }
    }
    assert(all.contains(gl) ==> c.discord.guild_id@.len() == 0) by {
        if all.contains(gl) {
            let i = choose|i: int| 0 <= i < all.len() && all[i] == gl;
            assert(t.len() <= i < t.len() + g.len());
        }
    }
    assert(all.contains(gp) ==> !guild_id_is_numeric(c.discord.guild_id@)) by {
        if all.contains(gp) {
            let i = choose|i: int| 0 <= i < all.len() && all[i] == gp;
            assert(t.len() + g.len() <= i < t.len() + g.len() + p.len());
        }
    }
    assert(all.contains(ru) ==> !url_rule_accepts(c.redis_url@)) by {
        if all.contains(ru) {
            let i = choose|i: int| 0 <= i < all.len() && all[i] == ru;
            assert(t.len() + g.len() + p.len() <= i);
        }
    }
}

impl AppConfig {
    /// The issues of this configuration.
    pub open spec fn issues(&self) -> Seq<ValidationIssue> {
        issues_of(
            self.discord.bot_token@,
            self.discord.guild_id@,
            guild_id_is_numeric(self.discord.guild_id@),
            url_rule_accepts(self.redis_url@),
        )
    }

    /// Checks every rule; fails with all the broken ones.
    pub fn validate(&self) -> (r: Result<(), ConfigError>)
        ensures
            r is Ok <==> self.issues().len() == 0,
            r matches Err(e) ==> e matches ConfigError::ValidationError(v) && v@ == self.issues(),
    {
        let numeric = match regex_is_match(NUMERIC_PATTERN, self.discord.guild_id.as_str()) {
            Some(b) => b,
            None => false,
        };
        let url_ok = url_rule_holds(&self.redis_url);
        let issues = validation_issues(
            self.discord.bot_token.as_str(),
            self.discord.guild_id.as_str(),
            numeric,
            url_ok,
        );
        if issues.len() == 0 {
            Ok(())
        } else {
            Err(ConfigError::ValidationError(issues))
        }
    }

    /// The configuration made of these parts, when it passes every rule.
    pub fn new(discord: DiscordConfig, api: ApiConfig, redis_url: String) -> (r: Result<
        AppConfig,
        ConfigError,
    >)
        ensures
            ({
                let c = AppConfig { discord, api, redis_url };
                &&& r is Ok <==> c.issues().len() == 0
                &&& r matches Ok(cfg) ==> cfg == c
                &&& r matches Err(e) ==> e matches ConfigError::ValidationError(v) && v@ == c.issues()
            }),
    {
        let config = AppConfig { discord, api, redis_url };
        match config.validate() {
            Ok(()) => Ok(config),
            Err(e) => Err(e),
        }
    }
}

} // verus!
