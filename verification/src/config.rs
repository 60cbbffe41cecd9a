//! Settings: defaults, overrides, hot reload, and the settings file.

use vstd::prelude::*;

use crate::json;
use crate::provider;
use crate::provider::parse_mode;
use crate::provider::parse_provider;
use crate::provider::parse_strategy;
use crate::provider::DnsMode;
use crate::provider::DnsProvider;
use crate::provider::DnsStrategy;
use crate::text;

verus! {

/// The settings of the proxy, as the user wrote them.
#[derive(Debug)]
pub struct Config {
    pub mode: String,
    pub provider: String,
    pub strategy: String,
}

impl Clone for Config {
    fn clone(&self) -> (r: Self)
        ensures
            r == *self,
    {
        Config {
            mode: self.mode.clone(),
            provider: self.provider.clone(),
            strategy: self.strategy.clone(),
        }
    }
}

impl Default for Config {
    fn default() -> (r: Self)
        ensures
            r.is_default(),
    {
        Config {
            mode: "doh".to_owned(),
            provider: "cloudflare".to_owned(),
            strategy: "single".to_owned(),
        }
    }
}

/// A setting after an optional override.
pub open spec fn overridden(setting: String, by: Option<String>) -> String {
    match by {
        Some(s) => s,
        None => setting,
    }
}

/// A setting after an override that is in force unless it is empty.
pub open spec fn replaced(setting: String, by: String) -> String {
    if by@.len() == 0 {
        setting
    } else {
        by
    }
}

impl Config {
    /// Single provider, Cloudflare over HTTPS.
    pub open spec fn is_default(self) -> bool {
        &&& self.mode@ == "doh"@
        &&& self.provider@ == "cloudflare"@
        &&& self.strategy@ == "single"@
    }

    /// The mode that the settings select.
    pub open spec fn mode_spec(self) -> DnsMode {
        provider::mode_named(text::unicode_lower(self.mode@))
    }

    /// The provider that the settings select.
    pub open spec fn provider_spec(self) -> DnsProvider {
        provider::provider_named(text::unicode_lower(self.provider@))
    }

    /// The strategy that the settings select.
    pub open spec fn strategy_spec(self) -> DnsStrategy {
        provider::strategy_named(text::unicode_lower(self.strategy@))
    }

    /// The settings to start with: the stored ones where they could be read
    /// and parsed, the defaults otherwise.
    pub fn load(stored: Option<Config>) -> (r: Config)
        ensures
            match stored {
                Some(c) => r == c,
                None => r.is_default(),
            },
    {
        match stored {
            Some(c) => c,
            None => Config::default(),
        }
    }

    /// Settings as they are stored. The strategy may be missing from a settings
    /// file, and is a single provider then.
    pub fn stored(mode: String, provider: String, strategy: Option<String>) -> (r: Config)
        ensures
            r.mode == mode,
            r.provider == provider,
            match strategy {
                Some(s) => r.strategy == s,
                None => r.strategy@ == "single"@,
            },
    {
        let strategy: String = match strategy {
            Some(s) => s,
            None => "single".to_owned(),
        };
        Config { mode, provider, strategy }
    }

    /// The settings with command-line flags taking precedence.
    pub open spec fn with_flags_spec(
        self,
        mode: Option<String>,
        provider: Option<String>,
        strategy: Option<String>,
    ) -> Config {
        Config {
            mode: overridden(self.mode, mode),
            provider: overridden(self.provider, provider),
            strategy: overridden(self.strategy, strategy),
        }
    }

    /// Apply command-line flags, which take precedence over the settings.
    pub fn with_flags(
        self,
        mode: Option<String>,
        provider: Option<String>,
        strategy: Option<String>,
    ) -> (r: Config)
        ensures
            r == self.with_flags_spec(mode, provider, strategy),
    {
        let mut config = self;
        if let Some(m) = mode {
            config.mode = m;
        }
        if let Some(p) = provider {
            config.provider = p;
        }
        if let Some(s) = strategy {
            config.strategy = s;
        }
        config
    }

    /// The settings with the non-empty fields of a request in their place.
    pub open spec fn merged_spec(self, mode: String, provider: String, strategy: String) -> Config {
        Config {
            mode: replaced(self.mode, mode),
            provider: replaced(self.provider, provider),
            strategy: replaced(self.strategy, strategy),
        }
    }

    /// Replace the settings that a request names. An empty field of the
    /// request leaves the setting as it is.
    pub fn merged(&self, mode: String, provider: String, strategy: String) -> (r: Config)
        ensures
            r == self.merged_spec(mode, provider, strategy),
    {
        let mut config = self.clone();
        if !mode.as_str().is_empty() {
            config.mode = mode;
        }
        if !provider.as_str().is_empty() {
            config.provider = provider;
        }
        if !strategy.as_str().is_empty() {
            config.strategy = strategy;
        }
        config
    }
}

/// `mode`, `provider` and `strategy` are those that the settings select, where
/// they are in ASCII.
pub open spec fn selected(
    c: Config,
    mode: DnsMode,
    provider: DnsProvider,
    strategy: DnsStrategy,
) -> bool {
    &&& provider::selects_mode(c.mode@, mode)
    &&& provider::selects_provider(c.provider@, provider)
    &&& provider::selects_strategy(c.strategy@, strategy)
}

/// Take over settings that were read while the proxy runs. Where they ask for
/// another mode they are handed back, so that the caller can enter the loop of
/// that mode, and nothing is changed. Otherwise provider and strategy follow
/// them.
pub fn check_reload(
    cfg: Config,
    expected: DnsMode,
    provider: &mut DnsProvider,
    strategy: &mut DnsStrategy,
) -> (r: Option<Config>)
    ensures
        r == (if cfg.mode_spec() != expected {
            Some(cfg)
        } else {
            None
        }),
        *final(provider) == (if cfg.mode_spec() != expected {
            *old(provider)
        } else {
            cfg.provider_spec()
        }),
        *final(strategy) == (if cfg.mode_spec() != expected {
            *old(strategy)
        } else {
            cfg.strategy_spec()
        }),
        r is None ==> selected(cfg, expected, *final(provider), *final(strategy)),
        r is Some ==> provider::selects_mode(
            cfg.mode@,
            if expected == DnsMode::DoH {
                DnsMode::DoT
            } else {
                DnsMode::DoH
            },
        ),
{
    let mode: DnsMode = parse_mode(cfg.mode.as_str());
    if mode != expected {
        return Some(cfg);
    }
    *provider = parse_provider(cfg.provider.as_str());
    *strategy = parse_strategy(cfg.strategy.as_str());
    None
}

// ── Settings file ──────────────────────────────────────────────────────

/// What to do with the settings file.
pub enum ConfigWrite {
    /// Replace its contents by this text.
    Write(String),
    /// The document could not be written as text: leave no file.
    Unwritable,
    /// The file holds JSON that is neither an object nor `null`, so it has no
    /// sections to set.
    NotAnObject,
}

/// The text of a settings file; `None` stands for a file that cannot be read.
pub open spec fn file_text(file: Option<&str>) -> Option<Seq<char>> {
    match file {
        Some(t) => Some(t@),
        None => None,
    }
}

/// The document in a settings file: `None` stands for a file that cannot be
/// read or is not JSON.
pub open spec fn stored_document(file: Option<Seq<char>>) -> Option<serde_json::Value> {
    match file {
        Some(t) => json::parsed_json(t),
        None => None,
    }
}

/// The sections of a settings file. One that is missing or broken has none.
pub open spec fn stored_sections(file: Option<Seq<char>>) -> Map<Seq<char>, serde_json::Value> {
    match stored_document(file) {
        Some(v) if json::is_json_object(v) => json::json_members(v),
        _ => json::no_members(),
    }
}

/// Whether sections can be set in a settings file.
pub open spec fn accepts_sections(file: Option<Seq<char>>) -> bool {
    match stored_document(file) {
        Some(v) => json::is_json_object(v) || json::is_json_null(v),
        None => true,
    }
}

/// Sections with the settings of the proxy put in.
pub open spec fn with_settings(
    sections: Map<Seq<char>, serde_json::Value>,
    mode: Seq<char>,
    provider: Seq<char>,
    strategy: Seq<char>,
) -> Map<Seq<char>, serde_json::Value> {
    sections.insert("mode"@, json::json_string(mode)).insert(
        "provider"@,
        json::json_string(provider),
    ).insert("strategy"@, json::json_string(strategy))
}

/// `w` writes a document with exactly these sections.
pub open spec fn writes_sections(
    w: ConfigWrite,
    sections: Map<Seq<char>, serde_json::Value>,
) -> bool {
    exists|v: serde_json::Value| #[trigger]
        json::is_json_object(v) && json::json_members(v) == sections && writes_document(w, v)
}

/// `w` writes the document `v`.
pub open spec fn writes_document(w: ConfigWrite, v: serde_json::Value) -> bool {
    match json::pretty_json(v) {
        Some(t) => w matches ConfigWrite::Write(s) && s@ == t,
        None => w is Unwritable,
    }
}

/// Whether all sections are plain documents, so that they are read back as they
/// were written.
pub open spec fn plain_sections(sections: Map<Seq<char>, serde_json::Value>) -> bool {
    json::plain_members(sections, (json::plain_depth() - 1) as nat)
}

/// Where all sections are plain, what `w` writes is read back as these sections.
pub open spec fn reads_back(
    w: ConfigWrite,
    sections: Map<Seq<char>, serde_json::Value>,
) -> bool {
    plain_sections(sections) ==> match w {
        ConfigWrite::Write(t) => json::spells_object(t@, sections),
        _ => false,
    }
}

/// The document of a settings file; an empty object where the file cannot be
/// read or is not JSON.
pub fn load_config_json(file: Option<&str>) -> (r: serde_json::Value)
    ensures
        match stored_document(file_text(file)) {
            Some(v) => r == v,
            None => json::is_json_object(r) && json::json_members(r) == json::no_members(),
        },
{
    match file {
        Some(t) => match json::parse(t) {
            Some(v) => v,
            None => json::object(),
        },
        None => json::object(),
    }
}

/// How a document is written to the settings file.
pub fn write_config_json(cfg: &serde_json::Value) -> (r: ConfigWrite)
    ensures
        writes_document(r, *cfg),
        json::is_json_object(*cfg) ==> reads_back(r, json::json_members(*cfg)),
{
    match json::pretty(cfg) {
        Some(t) => ConfigWrite::Write(t),
        None => ConfigWrite::Unwritable,
    }
}

/// Put the settings of the proxy into a document.
pub fn set_settings(cfg: &mut serde_json::Value, mode: &str, provider: &str, strategy: &str)
    requires
        json::is_json_object(*old(cfg)) || json::is_json_null(*old(cfg)),
    ensures
        json::is_json_object(*final(cfg)),
        json::is_json_object(*old(cfg)) ==> json::json_members(*final(cfg)) == with_settings(
            json::json_members(*old(cfg)),
            mode@,
            provider@,
            strategy@,
        ),
        !json::is_json_object(*old(cfg)) ==> json::json_members(*final(cfg)) == with_settings(
            json::no_members(),
            mode@,
            provider@,
            strategy@,
        ),
{
    json::set(cfg, "mode", json::string(mode));
    json::set(cfg, "provider", json::string(provider));
    json::set(cfg, "strategy", json::string(strategy));
}

/// Save the settings so that a running proxy can pick them up without being
/// restarted. `file` is what the settings file holds now; its other sections
/// are preserved.
pub fn save_config(file: Option<&str>, mode: &str, provider: &str, strategy: &str) -> (r:
    ConfigWrite)
    ensures
        r is NotAnObject <==> !accepts_sections(file_text(file)),
        accepts_sections(file_text(file)) ==> {
            let sections = with_settings(stored_sections(file_text(file)), mode@, provider@, strategy@);
            writes_sections(r, sections) && reads_back(r, sections)
        },
{
    let mut cfg: serde_json::Value = load_config_json(file);
    if !json::is_object(&cfg) && !json::is_null(&cfg) {
        return ConfigWrite::NotAnObject;
    }
    set_settings(&mut cfg, mode, provider, strategy);
    let w = write_config_json(&cfg);
    assert(json::is_json_object(cfg) && writes_document(w, cfg));
    w
}

/// Save the block/allow policy, an array of patterns with their actions. The
/// other sections of the settings file are preserved.
pub fn save_policy(file: Option<&str>, policy: &serde_json::Value) -> (r: ConfigWrite)
    ensures
        r is NotAnObject <==> !accepts_sections(file_text(file)),
        accepts_sections(file_text(file)) ==> {
            let sections = stored_sections(file_text(file)).insert("policy"@, *policy);
            writes_sections(r, sections) && reads_back(r, sections)
        },
{
    let mut cfg: serde_json::Value = load_config_json(file);
    if !json::is_object(&cfg) && !json::is_null(&cfg) {
        return ConfigWrite::NotAnObject;
    }
    json::set(&mut cfg, "policy", policy.clone());
    let w = write_config_json(&cfg);
    assert(json::is_json_object(cfg) && writes_document(w, cfg));
    w
}

impl Config {
    /// The sections of a settings file that holds these settings alone.
    pub open spec fn sections(self) -> Map<Seq<char>, serde_json::Value> {
        with_settings(json::no_members(), self.mode@, self.provider@, self.strategy@)
    }

    /// Save these settings as all that the settings file holds. It is read back
    /// as it was written.
    pub fn save(&self) -> (r: ConfigWrite)
        ensures
            writes_sections(r, self.sections()),
            r matches ConfigWrite::Write(t) && json::spells_object(t@, self.sections()),
    {
        let mut cfg: serde_json::Value = json::object();
        set_settings(
            &mut cfg,
            self.mode.as_str(),
            self.provider.as_str(),
            self.strategy.as_str(),
        );
        proof {
            law_settings_are_plain(
                json::no_members(),
                self.mode@,
                self.provider@,
                self.strategy@,
            );
        }
        let w = write_config_json(&cfg);
        assert(json::is_json_object(cfg) && writes_document(w, cfg));
        w
    }

    /// Save these settings into the settings file, which holds `file` now. Its
    /// other sections are preserved; a file that can have none is replaced.
    pub fn save_into(&self, file: Option<&str>) -> (r: ConfigWrite)
        ensures
            ({
                let sections = if accepts_sections(file_text(file)) {
                    with_settings(
                        stored_sections(file_text(file)),
                        self.mode@,
                        self.provider@,
                        self.strategy@,
                    )
                } else {
                    self.sections()
                };
                writes_sections(r, sections) && reads_back(r, sections)
            }),
    {
        match save_config(
            file,
            self.mode.as_str(),
            self.provider.as_str(),
            self.strategy.as_str(),
        ) {
            ConfigWrite::NotAnObject => self.save(),
            w => w,
        }
    }
}

// ── Laws ───────────────────────────────────────────────────────────────

/// Saving the settings keeps every other section of the file, the policy among
/// them, and sets exactly the three settings.
pub proof fn law_settings_keep_other_sections(
    sections: Map<Seq<char>, serde_json::Value>,
    mode: Seq<char>,
    provider: Seq<char>,
    strategy: Seq<char>,
    key: Seq<char>,
)
    ensures
        key != "mode"@ && key != "provider"@ && key != "strategy"@ ==> {
            &&& with_settings(sections, mode, provider, strategy).dom().contains(key)
                == sections.dom().contains(key)
            &&& sections.dom().contains(key) ==> with_settings(
                sections,
                mode,
                provider,
                strategy,
            )[key] == sections[key]
        },
        sections.dom().contains("policy"@) ==> with_settings(
            sections,
            mode,
            provider,
            strategy,
        )["policy"@] == sections["policy"@],
        with_settings(sections, mode, provider, strategy)["mode"@] == json::json_string(mode),
        with_settings(sections, mode, provider, strategy)["provider"@] == json::json_string(
            provider,
        ),
        with_settings(sections, mode, provider, strategy)["strategy"@] == json::json_string(
            strategy,
        ),
{
    reveal_strlit("mode");
    reveal_strlit("provider");
    reveal_strlit("strategy");
    reveal_strlit("policy");
    assert("mode"@.len() == 4 && "provider"@.len() == 8 && "strategy"@.len() == 8 && "policy"@.len()
        == 6);
    assert("provider"@[0] == 'p' && "strategy"@[0] == 's');
}

/// Settings are plain, so a settings file that holds nothing else is always read
/// back as it was written, and saving settings into a file with plain sections
/// keeps that.
pub proof fn law_settings_are_plain(
    sections: Map<Seq<char>, serde_json::Value>,
    mode: Seq<char>,
    provider: Seq<char>,
    strategy: Seq<char>,
)
    requires
        plain_sections(sections),
    ensures
        plain_sections(json::no_members()),
        plain_sections(with_settings(sections, mode, provider, strategy)),
{
    reveal_strlit("mode");
    reveal_strlit("provider");
    reveal_strlit("strategy");
    reveal_strlit("$serde_json::private::RawValue");
    assert("mode"@.len() == 4 && "provider"@.len() == 8 && "strategy"@.len() == 8);
    let after = with_settings(sections, mode, provider, strategy);
    let depth = (json::plain_depth() - 1) as nat;
    assert forall|k: Seq<char>| #[trigger] after.dom().contains(k) implies json::plain_key(k)
        && json::plain(after[k], depth) by {
        if k != "mode"@ && k != "provider"@ && k != "strategy"@ {
            assert(sections.dom().contains(k));
        }
    }
}

/// The settings and the policy are independent sections: saving one and then
/// the other gives the same file in either order.
pub proof fn law_settings_and_policy_commute(
    sections: Map<Seq<char>, serde_json::Value>,
    mode: Seq<char>,
    provider: Seq<char>,
    strategy: Seq<char>,
    policy: serde_json::Value,
)
    ensures
        with_settings(sections.insert("policy"@, policy), mode, provider, strategy)
            == with_settings(sections, mode, provider, strategy).insert("policy"@, policy),
{
    reveal_strlit("mode");
    reveal_strlit("provider");
    reveal_strlit("strategy");
    reveal_strlit("policy");
    assert("mode"@.len() == 4 && "provider"@.len() == 8 && "strategy"@.len() == 8 && "policy"@.len()
        == 6);
    assert(with_settings(sections.insert("policy"@, policy), mode, provider, strategy)
        =~= with_settings(sections, mode, provider, strategy).insert("policy"@, policy));
}

/// A plain policy added to plain sections leaves them plain.
proof fn lemma_policy_is_plain(
    sections: Map<Seq<char>, serde_json::Value>,
    policy: serde_json::Value,
)
    requires
        plain_sections(sections),
        json::plain(policy, (json::plain_depth() - 1) as nat),
    ensures
        plain_sections(sections.insert("policy"@, policy)),
{
    reveal_strlit("policy");
    reveal_strlit("$serde_json::private::RawValue");
    assert("policy"@.len() == 6);
    let saved = sections.insert("policy"@, policy);
    let depth = (json::plain_depth() - 1) as nat;
    assert forall|k: Seq<char>| #[trigger] saved.dom().contains(k) implies json::plain_key(k)
        && json::plain(saved[k], depth) by {
        if k != "policy"@ {
            assert(sections.dom().contains(k));
        }
    }
}

/// A plain policy survives: after `save_policy` wrote `first` into a file with
/// plain sections and `save_config` then wrote `second` into that file, the file
/// holds the policy as it was saved, the settings, and the other sections.
pub proof fn law_policy_survives(
    sections: Map<Seq<char>, serde_json::Value>,
    policy: serde_json::Value,
    first: String,
    mode: Seq<char>,
    provider: Seq<char>,
    strategy: Seq<char>,
    second: String,
)
    requires
        plain_sections(sections),
        json::plain(policy, (json::plain_depth() - 1) as nat),
        reads_back(ConfigWrite::Write(first), sections.insert("policy"@, policy)),
        reads_back(
            ConfigWrite::Write(second),
            with_settings(stored_sections(Some(first@)), mode, provider, strategy),
        ),
    ensures
        accepts_sections(Some(first@)),
        stored_sections(Some(first@)) == sections.insert("policy"@, policy),
        stored_sections(Some(second@)) == with_settings(
            sections.insert("policy"@, policy),
            mode,
            provider,
            strategy,
        ),
        stored_sections(Some(second@))["policy"@] == policy,
{
    let saved = sections.insert("policy"@, policy);
    lemma_policy_is_plain(sections, policy);
    law_settings_are_plain(saved, mode, provider, strategy);
    law_settings_keep_other_sections(saved, mode, provider, strategy, "policy"@);
}

/// The order of saving makes no difference to the file: into a file with plain
/// sections, `save_policy` wrote `a1` and `save_config` then `a2`; into the same
/// file, `save_config` wrote `b1` and `save_policy` then `b2`. Both files hold
/// the same sections in the end.
pub proof fn law_saves_commute(
    sections: Map<Seq<char>, serde_json::Value>,
    policy: serde_json::Value,
    mode: Seq<char>,
    provider: Seq<char>,
    strategy: Seq<char>,
    a1: String,
    a2: String,
    b1: String,
    b2: String,
)
    requires
        plain_sections(sections),
        json::plain(policy, (json::plain_depth() - 1) as nat),
        reads_back(ConfigWrite::Write(a1), sections.insert("policy"@, policy)),
        reads_back(
            ConfigWrite::Write(a2),
            with_settings(stored_sections(Some(a1@)), mode, provider, strategy),
        ),
        reads_back(
            ConfigWrite::Write(b1),
            with_settings(sections, mode, provider, strategy),
        ),
        reads_back(
            ConfigWrite::Write(b2),
            stored_sections(Some(b1@)).insert("policy"@, policy),
        ),
    ensures
        accepts_sections(Some(a1@)),
        accepts_sections(Some(b1@)),
        stored_sections(Some(a2@)) == stored_sections(Some(b2@)),
        stored_sections(Some(b2@)) == with_settings(sections, mode, provider, strategy).insert(
            "policy"@,
            policy,
        ),
{
    law_policy_survives(sections, policy, a1, mode, provider, strategy, a2);
    law_settings_are_plain(sections, mode, provider, strategy);
    lemma_policy_is_plain(with_settings(sections, mode, provider, strategy), policy);
    law_settings_and_policy_commute(sections, mode, provider, strategy, policy);
}

/// A run without flags keeps the settings that it finds, so what one run saves
/// is what the next run uses; a flag replaces its own setting and no other.
pub proof fn law_flags_override_settings(c: Config, flag: String)
    ensures
        c.with_flags_spec(None, None, None) == c,
        c.with_flags_spec(Some(flag), None, None) == (Config { mode: flag, ..c }),
        c.with_flags_spec(None, Some(flag), None) == (Config { provider: flag, ..c }),
        c.with_flags_spec(None, None, Some(flag)) == (Config { strategy: flag, ..c }),
{
}

/// An empty request changes nothing, and repeating a request changes nothing
/// more.
pub proof fn law_merge(c: Config, mode: String, provider: String, strategy: String, empty: String)
    requires
        empty@.len() == 0,
    ensures
        c.merged_spec(empty, empty, empty) == c,
        c.merged_spec(mode, provider, strategy).merged_spec(mode, provider, strategy)
            == c.merged_spec(mode, provider, strategy),
{
}

/// Every combination of flags: each setting is its own flag where that is
/// given and the stored setting where it is not, whatever the other flags are.
pub proof fn law_each_flag_sets_its_own(
    c: Config,
    mode: Option<String>,
    provider: Option<String>,
    strategy: Option<String>,
)
    ensures
        ({
            let r = c.with_flags_spec(mode, provider, strategy);
            &&& mode matches Some(m) ==> r.mode == m
            &&& mode is None ==> r.mode == c.mode
            &&& provider matches Some(p) ==> r.provider == p
            &&& provider is None ==> r.provider == c.provider
            &&& strategy matches Some(s) ==> r.strategy == s
            &&& strategy is None ==> r.strategy == c.strategy
        }),
{
}

/// Every combination of fields in a request: each setting is its own field
/// where that is not empty and the old setting where it is, whatever the other
/// fields are.
pub proof fn law_each_field_sets_its_own(
    c: Config,
    mode: String,
    provider: String,
    strategy: String,
)
    ensures
        ({
            let r = c.merged_spec(mode, provider, strategy);
            &&& mode@.len() > 0 ==> r.mode == mode
            &&& mode@.len() == 0 ==> r.mode == c.mode
            &&& provider@.len() > 0 ==> r.provider == provider
            &&& provider@.len() == 0 ==> r.provider == c.provider
            &&& strategy@.len() > 0 ==> r.strategy == strategy
            &&& strategy@.len() == 0 ==> r.strategy == c.strategy
        }),
{
}

/// The default settings name DNS over HTTPS, Cloudflare, and a single provider,
/// and whatever goes by them selects just these.
pub proof fn law_defaults_select(
    c: Config,
    mode: DnsMode,
    provider: DnsProvider,
    strategy: DnsStrategy,
)
    requires
        c.is_default(),
    ensures
        c.mode@ == seq!['d', 'o', 'h'],
        c.provider@ == seq!['c', 'l', 'o', 'u', 'd', 'f', 'l', 'a', 'r', 'e'],
        c.strategy@ == seq!['s', 'i', 'n', 'g', 'l', 'e'],
        provider::mode_named(text::ascii_lower(c.mode@)) == DnsMode::DoH,
        provider::provider_named(text::ascii_lower(c.provider@)) == DnsProvider::Cloudflare,
        provider::strategy_named(text::ascii_lower(c.strategy@)) == DnsStrategy::Single,
        selected(c, mode, provider, strategy) ==> mode == DnsMode::DoH && provider
            == DnsProvider::Cloudflare && strategy == DnsStrategy::Single,
{
    reveal_strlit("doh");
    reveal_strlit("cloudflare");
    reveal_strlit("single");
    assert(c.mode@ =~= seq!['d', 'o', 'h']);
    assert(c.provider@ =~= seq!['c', 'l', 'o', 'u', 'd', 'f', 'l', 'a', 'r', 'e']);
    assert(c.strategy@ =~= seq!['s', 'i', 'n', 'g', 'l', 'e']);
    provider::law_modes_in_any_case(c.mode@);
    provider::law_providers_in_any_case(c.provider@);
    provider::law_strategies_in_any_case(c.strategy@);
}

/// A settings file has the members of the object that it holds. One that
/// cannot be read, is not JSON, or holds `null` has none but can be given some;
/// one that holds anything else cannot.
pub proof fn law_sections_of_a_file(file: Option<Seq<char>>)
    ensures
        stored_document(file) == (match file {
            Some(t) => json::parsed_json(t),
            None => None,
        }),
        file is None ==> stored_sections(file) == Map::<Seq<char>, serde_json::Value>::empty()
            && accepts_sections(file),
        file matches Some(t) ==> match json::parsed_json(t) {
            None => stored_sections(file) == Map::<Seq<char>, serde_json::Value>::empty()
                && accepts_sections(file),
            Some(v) => if json::is_json_object(v) {
                stored_sections(file) == json::json_members(v) && accepts_sections(file)
            } else {
                &&& stored_sections(file) == Map::<Seq<char>, serde_json::Value>::empty()
                &&& accepts_sections(file) == json::is_json_null(v)
            },
        },
{
}

/// Saving settings sets the three of them and keeps the rest: a section is in
/// the file afterwards where it was there before or is a setting.
pub proof fn law_saved_sections(
    sections: Map<Seq<char>, serde_json::Value>,
    mode: Seq<char>,
    provider: Seq<char>,
    strategy: Seq<char>,
    key: Seq<char>,
)
    ensures
        ({
            let after = with_settings(sections, mode, provider, strategy);
            let name_m = seq!['m', 'o', 'd', 'e'];
            let name_p = seq!['p', 'r', 'o', 'v', 'i', 'd', 'e', 'r'];
            let name_s = seq!['s', 't', 'r', 'a', 't', 'e', 'g', 'y'];
            &&& after.dom().contains(key) <==> sections.dom().contains(key) || key == name_m || key
                == name_p || key == name_s
            &&& after.dom().contains(key) ==> after[key] == (if key == name_m {
                json::json_string(mode)
            } else if key == name_p {
                json::json_string(provider)
            } else if key == name_s {
                json::json_string(strategy)
            } else {
                sections[key]
            })
        }),
{
    reveal_strlit("mode");
    reveal_strlit("provider");
    reveal_strlit("strategy");
    assert("mode"@ =~= seq!['m', 'o', 'd', 'e']);
    assert("provider"@ =~= seq!['p', 'r', 'o', 'v', 'i', 'd', 'e', 'r']);
    assert("strategy"@ =~= seq!['s', 't', 'r', 'a', 't', 'e', 'g', 'y']);
    assert("provider"@[0] == 'p' && "strategy"@[0] == 's');
}

/// What is written as plain sections is a text, and a file with that text has
/// just these sections again. Sections are plain where each is nested at most
/// 126 deep and none has the key with a meaning of its own.
pub proof fn law_plain_sections_read_back(
    w: ConfigWrite,
    sections: Map<Seq<char>, serde_json::Value>,
)
    requires
        forall|k: Seq<char>| #[trigger]
            sections.dom().contains(k) ==> k != "$serde_json::private::RawValue"@ && json::plain(
                sections[k],
                126,
            ),
        reads_back(w, sections),
    ensures
        w matches ConfigWrite::Write(t) && stored_sections(Some(t@)) == sections
            && accepts_sections(Some(t@)),
{
    assert(plain_sections(sections));
}

/// Writing sections writes the text of an object with just these members, or
/// nothing where that object has no text.
pub proof fn law_writes_the_text_of_an_object(
    w: ConfigWrite,
    sections: Map<Seq<char>, serde_json::Value>,
)
    requires
        writes_sections(w, sections),
    ensures
        exists|v: serde_json::Value|
            {
                &&& #[trigger] json::is_json_object(v)
                &&& json::json_members(v) == sections
                &&& match w {
                    ConfigWrite::Write(t) => json::pretty_json(v) == Some(t@),
                    ConfigWrite::Unwritable => json::pretty_json(v) is None,
                    ConfigWrite::NotAnObject => false,
                }
            },
{
    let v = choose|v: serde_json::Value| #[trigger]
        json::is_json_object(v) && json::json_members(v) == sections && writes_document(w, v);
    assert(json::is_json_object(v));
}

/// A settings file that can be read is read whole.
pub proof fn law_files_are_read_whole(t: &str)
    ensures
        file_text(Some(t)) == Some(t@),
        file_text(None) is None,
{
}

/// Settings that are saved alone are all that the file holds.
pub proof fn law_settings_alone(c: Config)
    ensures
        c.sections().dom() == set!["mode"@, "provider"@, "strategy"@],
        c.sections()["mode"@] == json::json_string(c.mode@),
        c.sections()["provider"@] == json::json_string(c.provider@),
        c.sections()["strategy"@] == json::json_string(c.strategy@),
{
    reveal_strlit("mode");
    reveal_strlit("provider");
    reveal_strlit("strategy");
    assert("mode"@.len() == 4 && "provider"@.len() == 8 && "strategy"@.len() == 8);
    assert("provider"@[0] == 'p' && "strategy"@[0] == 's');
    assert(c.sections().dom() =~= set!["mode"@, "provider"@, "strategy"@]);
}

/// Settings select by the lowercase form of their text: the words that name
/// something other than the default, and the default for all else.
pub proof fn law_settings_select_by_lowercase(c: Config)
    ensures
        c.mode_spec() == DnsMode::DoT <==> text::unicode_lower(c.mode@) == "dot"@,
        c.provider_spec() == DnsProvider::Google <==> text::unicode_lower(c.provider@)
            == "google"@,
        c.provider_spec() == DnsProvider::Quad9 <==> text::unicode_lower(c.provider@) == "quad9"@,
        c.strategy_spec() == DnsStrategy::RoundRobin <==> text::unicode_lower(c.strategy@)
            == "round-robin"@,
        c.strategy_spec() == DnsStrategy::Failover <==> text::unicode_lower(c.strategy@)
            == "failover"@,
{
    reveal_strlit("google");
    reveal_strlit("quad9");
    reveal_strlit("round-robin");
    reveal_strlit("failover");
    assert("google"@.len() == 6 && "quad9"@.len() == 5);
    assert("round-robin"@.len() == 11 && "failover"@.len() == 8);
}

} // verus!
