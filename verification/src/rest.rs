//! The local REST interface: where it listens, and the JSON that it speaks.

use vstd::prelude::*;

use crate::json;
use crate::service::StatusReply;
use crate::text;

verus! {

/// Port of the REST interface unless another one is asked for.
pub const DEFAULT_PORT: u16 = 8090;

/// The port that the REST interface listens on, by `DNS_GUARD_HTTP` and
/// `DNS_GUARD_HTTP_PORT`. `None` where the interface is switched off.
pub fn http_port(http: Option<&str>, port: Option<&str>) -> (r: Option<u16>)
    ensures
        r == (if http is Some && http->0@ == "0"@ {
            None
        } else if port is Some && text::spelled_u16(port->0@) is Some {
            text::spelled_u16(port->0@)
        } else {
            Some(DEFAULT_PORT)
        }),
{
    if let Some(h) = http {
        if text::same_text(h, "0") {
            return None;
        }
    }
    if let Some(p) = port {
        let chars: Vec<char> = text::to_chars(p);
        if let Some(n) = text::parse_u16(chars.as_slice()) {
            return Some(n);
        }
    }
    Some(DEFAULT_PORT)
}

// ── Bodies ─────────────────────────────────────────────────────────────

/// The members of a reply with a message.
pub open spec fn reply_members(ok: bool, message: Seq<char>) -> Map<Seq<char>, serde_json::Value> {
    json::no_members().insert("ok"@, json::json_bool(ok)).insert(
        "message"@,
        json::json_string(message),
    )
}

/// A reply with a message.
pub fn reply_body(ok: bool, message: &str) -> (r: serde_json::Value)
    ensures
        json::is_object_of(r, reply_members(ok, message@)),
{
    let mut v: serde_json::Value = json::object();
    json::set(&mut v, "ok", json::boolean(ok));
    json::set(&mut v, "message", json::string(message));
    v
}

/// The reply to a request that failed.
pub fn error_body(error: &str) -> (r: serde_json::Value)
    ensures
        json::is_object_of(r, reply_members(false, error@)),
{
    reply_body(false, error)
}

/// The reply to a change of the settings.
pub fn config_body(ok: bool) -> (r: serde_json::Value)
    ensures
        json::is_object_of(r, json::no_members().insert("ok"@, json::json_bool(ok))),
{
    let mut v: serde_json::Value = json::object();
    json::set(&mut v, "ok", json::boolean(ok));
    v
}

/// The members of a status.
pub open spec fn status_members(
    running: bool,
    pid: u32,
    mode: Seq<char>,
    provider: Seq<char>,
    strategy: Seq<char>,
) -> Map<Seq<char>, serde_json::Value> {
    json::no_members().insert("running"@, json::json_bool(running)).insert(
        "pid"@,
        json::json_number(pid as int),
    ).insert("mode"@, json::json_string(mode)).insert(
        "provider"@,
        json::json_string(provider),
    ).insert("strategy"@, json::json_string(strategy))
}

/// A status.
pub fn status_body(s: &StatusReply) -> (r: serde_json::Value)
    ensures
        json::is_object_of(
            r,
            status_members(s.running, s.pid, s.mode@, s.provider@, s.strategy@),
        ),
{
    let mut v: serde_json::Value = json::object();
    json::set(&mut v, "running", json::boolean(s.running));
    json::set(&mut v, "pid", json::number(s.pid as u64));
    json::set(&mut v, "mode", json::string(s.mode.as_str()));
    json::set(&mut v, "provider", json::string(s.provider.as_str()));
    json::set(&mut v, "strategy", json::string(s.strategy.as_str()));
    v
}

/// A record of one query.
#[derive(Debug)]
pub struct QueryRecord {
    pub domain: String,
    pub provider: String,
    pub mode: String,
    pub strategy: String,
    pub rtt_ms: u64,
    pub cached: bool,
    pub blocked: bool,
    pub error: String,
    pub ts_ms: u64,
}

impl QueryRecord {
    /// The members of the record.
    pub open spec fn members(self) -> Map<Seq<char>, serde_json::Value> {
        json::no_members().insert("domain"@, json::json_string(self.domain@)).insert(
            "provider"@,
            json::json_string(self.provider@),
        ).insert("mode"@, json::json_string(self.mode@)).insert(
            "strategy"@,
            json::json_string(self.strategy@),
        ).insert("rtt_ms"@, json::json_number(self.rtt_ms as int)).insert(
            "cached"@,
            json::json_bool(self.cached),
        ).insert("blocked"@, json::json_bool(self.blocked)).insert(
            "error"@,
            json::json_string(self.error@),
        ).insert("ts_ms"@, json::json_number(self.ts_ms as int))
    }
}

/// A record of one query, as JSON.
pub fn query_record_json(rec: &QueryRecord) -> (r: serde_json::Value)
    ensures
        json::is_object_of(r, rec.members()),
{
    let mut v: serde_json::Value = json::object();
    json::set(&mut v, "domain", json::string(rec.domain.as_str()));
    json::set(&mut v, "provider", json::string(rec.provider.as_str()));
    json::set(&mut v, "mode", json::string(rec.mode.as_str()));
    json::set(&mut v, "strategy", json::string(rec.strategy.as_str()));
    json::set(&mut v, "rtt_ms", json::number(rec.rtt_ms));
    json::set(&mut v, "cached", json::boolean(rec.cached));
    json::set(&mut v, "blocked", json::boolean(rec.blocked));
    json::set(&mut v, "error", json::string(rec.error.as_str()));
    json::set(&mut v, "ts_ms", json::number(rec.ts_ms));
    v
}

/// `items` are the records `recs` as JSON, in order.
pub open spec fn are_records(items: Seq<serde_json::Value>, recs: Seq<QueryRecord>) -> bool {
    &&& items.len() == recs.len()
    &&& forall|i: int|
        0 <= i < items.len() ==> json::is_object_of(#[trigger] items[i], recs[i].members())
}

/// The history of queries.
pub fn queries_body(recs: &Vec<QueryRecord>) -> (r: serde_json::Value)
    ensures
        exists|items: Seq<serde_json::Value>| #[trigger]
            are_records(items, recs@) && json::is_object_of(
                r,
                json::no_members().insert("queries"@, json::json_array(items)),
            ),
{
    let mut items: Vec<serde_json::Value> = Vec::new();
    let mut i: usize = 0;
    while i < recs.len()
        invariant
            i <= recs@.len(),
            are_records(items@, recs@.take(i as int)),
        decreases recs@.len() - i,
    {
        items.push(query_record_json(&recs[i]));
        i = i + 1;
    }
    assert(recs@.take(i as int) =~= recs@);
    let mut v: serde_json::Value = json::object();
    json::set(&mut v, "queries", json::array(items));
    v
}

/// The log lines `lines` as JSON strings, in order.
pub open spec fn json_lines(lines: Seq<Seq<char>>) -> Seq<serde_json::Value> {
    lines.map_values(|l: Seq<char>| json::json_string(l))
}

/// The history of log lines.
pub fn logs_body(lines: &Vec<String>) -> (r: serde_json::Value)
    ensures
        json::is_object_of(
            r,
            json::no_members().insert(
                "lines"@,
                json::json_array(json_lines(text::texts(lines@))),
            ),
        ),
{
    let mut items: Vec<serde_json::Value> = Vec::new();
    let mut i: usize = 0;
    while i < lines.len()
        invariant
            i <= lines@.len(),
            items@.len() == i,
            forall|k: int| 0 <= k < i ==> #[trigger] items@[k] == json::json_string(lines@[k]@),
        decreases lines@.len() - i,
    {
        items.push(json::string(lines[i].as_str()));
        i = i + 1;
    }
    assert(items@ =~= json_lines(text::texts(lines@)));
    let mut v: serde_json::Value = json::object();
    json::set(&mut v, "lines", json::array(items));
    v
}

/// Totals over all queries.
#[derive(Debug)]
pub struct Totals {
    pub queries_total: u64,
    pub cached_total: u64,
    pub blocked_total: u64,
    pub errors_total: u64,
}

/// The statistics: totals, and the counts per provider and per domain as they
/// were collected.
pub fn stats_body(
    totals: &Totals,
    per_provider: serde_json::Value,
    top_domains: serde_json::Value,
) -> (r: serde_json::Value)
    ensures
        json::is_object_of(
            r,
            json::no_members().insert(
                "queries_total"@,
                json::json_number(totals.queries_total as int),
            ).insert("cached_total"@, json::json_number(totals.cached_total as int)).insert(
                "blocked_total"@,
                json::json_number(totals.blocked_total as int),
            ).insert("errors_total"@, json::json_number(totals.errors_total as int)).insert(
                "per_provider"@,
                per_provider,
            ).insert("top_domains"@, top_domains),
        ),
{
    let mut v: serde_json::Value = json::object();
    json::set(&mut v, "queries_total", json::number(totals.queries_total));
    json::set(&mut v, "cached_total", json::number(totals.cached_total));
    json::set(&mut v, "blocked_total", json::number(totals.blocked_total));
    json::set(&mut v, "errors_total", json::number(totals.errors_total));
    json::set(&mut v, "per_provider", per_provider);
    json::set(&mut v, "top_domains", top_domains);
    v
}

// ── Policy ─────────────────────────────────────────────────────────────

/// A rule of the policy: names that match `pattern` are allowed or, with action
/// 1, blocked.
#[derive(Debug)]
pub struct PolicyRule {
    pub pattern: String,
    pub action: i32,
}

/// The word for an action.
pub open spec fn action_word(action: i32) -> Seq<char> {
    if action == 1 {
        "block"@
    } else {
        "allow"@
    }
}

/// The action that a word asks for.
pub open spec fn worded_action(word: Seq<char>) -> i32 {
    if word == "block"@ {
        1
    } else {
        0
    }
}

/// The word for an action.
pub fn action_name(action: i32) -> (r: &'static str)
    ensures
        r@ == action_word(action),
{
    if action == 1 {
        "block"
    } else {
        "allow"
    }
}

/// The action that a word asks for: only `block` blocks.
pub fn action_code(word: &str) -> (r: i32)
    ensures
        r == worded_action(word@),
{
    if text::same_text(word, "block") {
        1
    } else {
        0
    }
}

impl PolicyRule {
    /// The members of the rule.
    pub open spec fn members(self) -> Map<Seq<char>, serde_json::Value> {
        json::no_members().insert("pattern"@, json::json_string(self.pattern@)).insert(
            "action"@,
            json::json_string(action_word(self.action)),
        )
    }
}

/// `items` are the rules `rules` as JSON, in order.
pub open spec fn are_rules(items: Seq<serde_json::Value>, rules: Seq<PolicyRule>) -> bool {
    &&& items.len() == rules.len()
    &&& forall|i: int|
        0 <= i < items.len() ==> json::is_object_of(#[trigger] items[i], rules[i].members())
}

/// The rules of the policy, as a JSON array.
pub fn policy_rules(rules: &Vec<PolicyRule>) -> (r: serde_json::Value)
    ensures
        exists|items: Seq<serde_json::Value>| #[trigger]
            are_rules(items, rules@) && r == json::json_array(items),
{
    let mut items: Vec<serde_json::Value> = Vec::new();
    let mut i: usize = 0;
    while i < rules.len()
        invariant
            i <= rules@.len(),
            are_rules(items@, rules@.take(i as int)),
        decreases rules@.len() - i,
    {
        let mut rule: serde_json::Value = json::object();
        json::set(&mut rule, "pattern", json::string(rules[i].pattern.as_str()));
        json::set(&mut rule, "action", json::string(action_name(rules[i].action)));
        items.push(rule);
        i = i + 1;
    }
    assert(rules@.take(i as int) =~= rules@);
    let ghost all = items@;
    let r = json::array(items);
    assert(are_rules(all, rules@));
    r
}

/// The policy, as JSON.
pub fn policy_body(rules: &Vec<PolicyRule>) -> (r: serde_json::Value)
    ensures
        exists|items: Seq<serde_json::Value>| #[trigger]
            are_rules(items, rules@) && json::is_object_of(
                r,
                json::no_members().insert("rules"@, json::json_array(items)),
            ),
{
    let mut v: serde_json::Value = json::object();
    json::set(&mut v, "rules", policy_rules(rules));
    v
}

// ── Laws ───────────────────────────────────────────────────────────────

/// An action keeps its meaning when it is worded and read again, and so does a
/// word: what blocks goes on blocking and nothing else begins to.
pub proof fn law_actions_round_trip(action: i32, word: Seq<char>)
    ensures
        worded_action(action_word(action)) == 1 <==> action == 1,
        action_word(worded_action(word)) == "block"@ <==> word == "block"@,
{
    reveal_strlit("block");
    reveal_strlit("allow");
    assert("block"@[0] != "allow"@[0]);
}

/// The rules of a policy are plain JSON, so that they are read back from the
/// settings file as they were saved.
pub proof fn law_rules_are_plain(items: Seq<serde_json::Value>, rules: Seq<PolicyRule>)
    requires
        are_rules(items, rules),
    ensures
        json::plain(json::json_array(items), (json::plain_depth() - 1) as nat),
{
    reveal_strlit("pattern");
    reveal_strlit("action");
    reveal_strlit("$serde_json::private::RawValue");
    assert("pattern"@.len() == 7 && "action"@.len() == 6);
    assert forall|i: int| 0 <= i < items.len() implies json::plain(#[trigger] items[i], 1) by {
        let members = rules[i].members();
        assert(json::is_object_of(items[i], members));
        assert forall|k: Seq<char>| #[trigger] members.dom().contains(k) implies json::plain_key(k)
            && json::plain(members[k], 0) by {
        }
        assert(json::plain_members(members, 0));
    }
    assert(json::plain_items(items, 1));
    assert(json::plain(json::json_array(items), 2));
    json::lemma_plain_deeper(json::json_array(items), 2, (json::plain_depth() - 1) as nat);
}

/// A reply has two members: `ok`, a boolean, and `message`, a string.
pub proof fn law_reply_members(ok: bool, message: Seq<char>)
    ensures
        reply_members(ok, message).dom() == set!["ok"@, "message"@],
        reply_members(ok, message)["ok"@] == json::json_bool(ok),
        reply_members(ok, message)["message"@] == json::json_string(message),
{
    reveal_strlit("ok");
    reveal_strlit("message");
    assert("ok"@.len() == 2 && "message"@.len() == 7);
    assert(reply_members(ok, message).dom() =~= set!["ok"@, "message"@]);
}

/// A status has five members: whether a proxy is running, its PID, and the
/// three settings.
pub proof fn law_status_members(
    running: bool,
    pid: u32,
    mode: Seq<char>,
    provider: Seq<char>,
    strategy: Seq<char>,
)
    ensures
        ({
            let m = status_members(running, pid, mode, provider, strategy);
            &&& m.dom() == set!["running"@, "pid"@, "mode"@, "provider"@, "strategy"@]
            &&& m["running"@] == json::json_bool(running)
            &&& m["pid"@] == json::json_number(pid as int)
            &&& m["mode"@] == json::json_string(mode)
            &&& m["provider"@] == json::json_string(provider)
            &&& m["strategy"@] == json::json_string(strategy)
        }),
{
    reveal_strlit("running");
    reveal_strlit("pid");
    reveal_strlit("mode");
    reveal_strlit("provider");
    reveal_strlit("strategy");
    assert("running"@.len() == 7 && "pid"@.len() == 3 && "mode"@.len() == 4);
    assert("provider"@.len() == 8 && "strategy"@.len() == 8);
    assert("provider"@[0] == 'p' && "strategy"@[0] == 's');
    assert(status_members(running, pid, mode, provider, strategy).dom() =~= set![
        "running"@,
        "pid"@,
        "mode"@,
        "provider"@,
        "strategy"@,
    ]);
}

/// The record of a query has nine members, one for each thing that is recorded,
/// and a list of records has them in order.
pub proof fn law_record_members(rec: QueryRecord)
    ensures
        rec.members().dom() == set![
            "domain"@,
            "provider"@,
            "mode"@,
            "strategy"@,
            "rtt_ms"@,
            "cached"@,
            "blocked"@,
            "error"@,
            "ts_ms"@,
        ],
        rec.members()["domain"@] == json::json_string(rec.domain@),
        rec.members()["provider"@] == json::json_string(rec.provider@),
        rec.members()["mode"@] == json::json_string(rec.mode@),
        rec.members()["strategy"@] == json::json_string(rec.strategy@),
        rec.members()["rtt_ms"@] == json::json_number(rec.rtt_ms as int),
        rec.members()["cached"@] == json::json_bool(rec.cached),
        rec.members()["blocked"@] == json::json_bool(rec.blocked),
        rec.members()["error"@] == json::json_string(rec.error@),
        rec.members()["ts_ms"@] == json::json_number(rec.ts_ms as int),
{
    reveal_strlit("domain");
    reveal_strlit("provider");
    reveal_strlit("mode");
    reveal_strlit("strategy");
    reveal_strlit("rtt_ms");
    reveal_strlit("cached");
    reveal_strlit("blocked");
    reveal_strlit("error");
    reveal_strlit("ts_ms");
    assert("provider"@.len() == 8 && "provider"@[0] == 'p');
    assert("strategy"@.len() == 8 && "strategy"@[0] == 's');
    assert("domain"@.len() == 6 && "domain"@[0] == 'd');
    assert("rtt_ms"@.len() == 6 && "rtt_ms"@[0] == 'r');
    assert("cached"@.len() == 6 && "cached"@[0] == 'c');
    assert("mode"@.len() == 4 && "blocked"@.len() == 7);
    assert("error"@.len() == 5 && "error"@[0] == 'e');
    assert("ts_ms"@.len() == 5 && "ts_ms"@[0] == 't');
    assert(rec.members().dom() =~= set![
        "domain"@,
        "provider"@,
        "mode"@,
        "strategy"@,
        "rtt_ms"@,
        "cached"@,
        "blocked"@,
        "error"@,
        "ts_ms"@,
    ]);
}

/// Lists keep their length and order: the record, the rule or the line at a
/// position stands at the same position of the array.
pub proof fn law_lists_keep_their_order(
    records: Seq<serde_json::Value>,
    recs: Seq<QueryRecord>,
    ruled: Seq<serde_json::Value>,
    rules: Seq<PolicyRule>,
    lines: Seq<Seq<char>>,
    i: int,
)
    requires
        are_records(records, recs),
        are_rules(ruled, rules),
    ensures
        records.len() == recs.len(),
        0 <= i < recs.len() ==> json::is_json_object(records[i]) && json::json_members(records[i])
            == recs[i].members(),
        ruled.len() == rules.len(),
        0 <= i < rules.len() ==> json::is_json_object(ruled[i]) && json::json_members(ruled[i])
            == rules[i].members(),
        json_lines(lines).len() == lines.len(),
        0 <= i < lines.len() ==> json_lines(lines)[i] == json::json_string(lines[i]),
{
    if 0 <= i < recs.len() {
        assert(json::is_object_of(records[i], recs[i].members()));
    }
    if 0 <= i < rules.len() {
        assert(json::is_object_of(ruled[i], rules[i].members()));
    }
}

/// A rule has two members: its pattern, and `block` for action 1 or `allow` for
/// any other. Only the word `block` is read as action 1; every other is 0.
pub proof fn law_rule_members(rule: PolicyRule, word: Seq<char>)
    ensures
        rule.members().dom() == set!["pattern"@, "action"@],
        rule.members()["pattern"@] == json::json_string(rule.pattern@),
        rule.action == 1 ==> rule.members()["action"@] == json::json_string("block"@),
        rule.action != 1 ==> rule.members()["action"@] == json::json_string("allow"@),
        word == seq!['b', 'l', 'o', 'c', 'k'] ==> worded_action(word) == 1,
        word != seq!['b', 'l', 'o', 'c', 'k'] ==> worded_action(word) == 0,
{
    reveal_strlit("pattern");
    reveal_strlit("action");
    reveal_strlit("block");
    assert("pattern"@.len() == 7 && "action"@.len() == 6);
    assert("block"@ =~= seq!['b', 'l', 'o', 'c', 'k']);
    assert(rule.members().dom() =~= set!["pattern"@, "action"@]);
}

} // verus!
