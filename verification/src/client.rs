//! What the command-line client prints, and the code that it ends with.

use vstd::prelude::*;

use crate::json;
use crate::rest;
use crate::rest::error_body;
use crate::rest::reply_body;
use crate::rest::status_body;
use crate::service::StatusReply;
use crate::text;

verus! {

/// The outcome of a client command. Each line is printed with a line ending.
#[derive(Debug)]
pub struct Output {
    /// Lines for the standard output.
    pub stdout: Vec<String>,
    /// Lines for the error output.
    pub stderr: Vec<String>,
    /// The code that the process ends with.
    pub code: i32,
}

impl Output {
    /// Exactly this is printed, and the process ends with this code.
    pub open spec fn is(self, stdout: Seq<Seq<char>>, stderr: Seq<Seq<char>>, code: i32) -> bool {
        &&& text::texts(self.stdout@) == stdout
        &&& text::texts(self.stderr@) == stderr
        &&& self.code == code
    }

    /// One line of JSON with these members is printed to the standard output.
    pub open spec fn is_json(self, members: Map<Seq<char>, serde_json::Value>, code: i32) -> bool {
        exists|v: serde_json::Value| #[trigger]
            json::is_object_of(v, members) && self.is(
                seq![json::compact_json(v)],
                Seq::empty(),
                code,
            )
    }
}

fn printed(line: String, code: i32) -> (r: Output)
    ensures
        r.is(seq![line@], Seq::empty(), code),
{
    let mut stdout: Vec<String> = Vec::new();
    stdout.push(line);
    let r = Output { stdout, stderr: Vec::new(), code };
    assert(text::texts(r.stdout@) =~= seq![line@]);
    assert(text::texts(r.stderr@) =~= Seq::empty());
    r
}

fn complained(line: String, code: i32) -> (r: Output)
    ensures
        r.is(Seq::empty(), seq![line@], code),
{
    let mut stderr: Vec<String> = Vec::new();
    stderr.push(line);
    let r = Output { stdout: Vec::new(), stderr, code };
    assert(text::texts(r.stdout@) =~= Seq::empty());
    assert(text::texts(r.stderr@) =~= seq![line@]);
    r
}

/// The code of a command that succeeded or not.
pub open spec fn exit_code(ok: bool) -> i32 {
    if ok {
        0
    } else {
        1
    }
}

/// The output of a command whose reply is `ok` with `message`; `done` is what
/// a success is called in words.
pub open spec fn is_reply_output(
    o: Output,
    json: bool,
    ok: bool,
    message: Seq<char>,
    done: Seq<char>,
) -> bool {
    if json {
        o.is_json(rest::reply_members(ok, message), exit_code(ok))
    } else if ok {
        o.is(seq![done], Seq::empty(), 0)
    } else {
        o.is(Seq::empty(), seq![message], 1)
    }
}

/// The output of a command that could not be carried out.
pub open spec fn is_error_output(o: Output, json: bool, error: Seq<char>) -> bool {
    if json {
        o.is_json(rest::reply_members(false, error), 1)
    } else {
        o.is(Seq::empty(), seq!["error: "@ + error], 1)
    }
}

fn reply_output(json: bool, ok: bool, message: &str, done: &str) -> (r: Output)
    ensures
        is_reply_output(r, json, ok, message@, done@),
{
    let code: i32 = if ok {
        0
    } else {
        1
    };
    if json {
        let v: serde_json::Value = reply_body(ok, message);
        let r = printed(json::compact(&v), code);
        assert(json::is_object_of(v, rest::reply_members(ok, message@)));
        r
    } else if ok {
        printed(done.to_owned(), 0)
    } else {
        complained(message.to_owned(), 1)
    }
}

fn error_output(json: bool, error: &str) -> (r: Output)
    ensures
        is_error_output(r, json, error@),
{
    if json {
        let v: serde_json::Value = error_body(error);
        let r = printed(json::compact(&v), 1);
        assert(json::is_object_of(v, rest::reply_members(false, error@)));
        r
    } else {
        complained(text::joined("error: ", error), 1)
    }
}

/// The output of `start`, by the reply (success and message) or the error.
pub fn cmd_client_start(reply: Result<(bool, String), String>, json: bool) -> (r: Output)
    ensures
        match reply {
            Ok((ok, message)) => is_reply_output(r, json, ok, message@, "proxy started"@),
            Err(e) => is_error_output(r, json, e@),
        },
{
    match reply {
        Ok((ok, message)) => reply_output(json, ok, message.as_str(), "proxy started"),
        Err(e) => error_output(json, e.as_str()),
    }
}

/// What `stop` reports in JSON where the reply has no message.
pub open spec fn stop_message(ok: bool, message: Seq<char>) -> Seq<char> {
    if message.len() > 0 {
        message
    } else if ok {
        "proxy stopped"@
    } else {
        "stop failed"@
    }
}

/// The output of `stop`, by the reply (success and message) or the error. In
/// JSON an empty message is replaced by a general one; in words it is printed
/// as it is.
pub fn cmd_client_stop(reply: Result<(bool, String), String>, json: bool) -> (r: Output)
    ensures
        match reply {
            Ok((ok, message)) => if json {
                is_reply_output(r, true, ok, stop_message(ok, message@), "proxy stopped"@)
            } else {
                is_reply_output(r, false, ok, message@, "proxy stopped"@)
            },
            Err(e) => is_error_output(r, json, e@),
        },
{
    match reply {
        Ok((ok, message)) => {
            if json && message.as_str().is_empty() {
                if ok {
                    reply_output(true, ok, "proxy stopped", "proxy stopped")
                } else {
                    reply_output(true, ok, "stop failed", "proxy stopped")
                }
            } else {
                reply_output(json, ok, message.as_str(), "proxy stopped")
            }
        },
        Err(e) => error_output(json, e.as_str()),
    }
}

/// `true` or `false`.
pub open spec fn bool_word(b: bool) -> Seq<char> {
    if b {
        "true"@
    } else {
        "false"@
    }
}

/// A status in words, line by line.
pub open spec fn status_lines(s: StatusReply) -> Seq<Seq<char>> {
    seq![
        "running: "@ + bool_word(s.running),
        "pid: "@ + text::decimal_text(s.pid as nat),
        "mode: "@ + s.mode@,
        "provider: "@ + s.provider@,
        "strategy: "@ + s.strategy@,
    ]
}

fn status_text(s: &StatusReply) -> (r: Output)
    ensures
        r.is(status_lines(*s), Seq::empty(), 0),
{
    let mut stdout: Vec<String> = Vec::new();
    if s.running {
        stdout.push(text::joined("running: ", "true"));
    } else {
        stdout.push(text::joined("running: ", "false"));
    }
    stdout.push(text::joined("pid: ", text::decimal(s.pid).as_str()));
    stdout.push(text::joined("mode: ", s.mode.as_str()));
    stdout.push(text::joined("provider: ", s.provider.as_str()));
    stdout.push(text::joined("strategy: ", s.strategy.as_str()));
    let r = Output { stdout, stderr: Vec::new(), code: 0 };
    assert(text::texts(r.stdout@) =~= status_lines(*s));
    assert(text::texts(r.stderr@) =~= Seq::empty());
    r
}

/// The output of `status`, by the status or the error. In JSON a daemon that
/// cannot be reached is reported as no running proxy.
pub fn cmd_client_status(reply: Result<StatusReply, String>, json: bool) -> (r: Output)
    ensures
        match reply {
            Ok(s) => if json {
                r.is_json(
                    rest::status_members(s.running, s.pid, s.mode@, s.provider@, s.strategy@),
                    0,
                )
            } else {
                r.is(status_lines(s), Seq::empty(), 0)
            },
            Err(e) => if json {
                r.is_json(
                    rest::status_members(false, 0, Seq::empty(), Seq::empty(), Seq::empty()),
                    1,
                )
            } else {
                r.is(Seq::empty(), seq!["error: "@ + e@], 1)
            },
        },
{
    match reply {
        Ok(s) => {
            if json {
                let v: serde_json::Value = status_body(&s);
                let r = printed(json::compact(&v), 0);
                assert(json::is_object_of(
                    v,
                    rest::status_members(s.running, s.pid, s.mode@, s.provider@, s.strategy@),
                ));
                r
            } else {
                status_text(&s)
            }
        },
        Err(e) => {
            if json {
                let none = StatusReply {
                    running: false,
                    pid: 0,
                    mode: String::new(),
                    provider: String::new(),
                    strategy: String::new(),
                };
                let v: serde_json::Value = status_body(&none);
                let r = printed(json::compact(&v), 1);
                assert(json::is_object_of(
                    v,
                    rest::status_members(false, 0, Seq::empty(), Seq::empty(), Seq::empty()),
                ));
                r
            } else {
                complained(text::joined("error: ", e.as_str()), 1)
            }
        },
    }
}

/// The output of `set-password`, by the reply (success and message) or the
/// error.
pub fn cmd_client_set_password(reply: Result<(bool, String), String>, json: bool) -> (r: Output)
    ensures
        match reply {
            Ok((ok, message)) => is_reply_output(r, json, ok, message@, "authenticated"@),
            Err(e) => is_error_output(r, json, e@),
        },
{
    match reply {
        Ok((ok, message)) => reply_output(json, ok, message.as_str(), "authenticated"),
        Err(e) => error_output(json, e.as_str()),
    }
}

/// What came of following the log.
pub enum LogEvent {
    /// The log could not be followed.
    Refused(String),
    /// A line.
    Line(String),
    /// The stream reported an error; it may go on.
    Broken(String),
}

/// What `logs` prints for one event. The command never reports failure by its
/// code.
pub fn cmd_client_logs(event: LogEvent) -> (r: Output)
    ensures
        match event {
            LogEvent::Refused(e) => r.is(Seq::empty(), seq!["error: "@ + e@], 0),
            LogEvent::Line(line) => r.is(seq![line@], Seq::empty(), 0),
            LogEvent::Broken(e) => r.is(Seq::empty(), seq!["stream error: "@ + e@], 0),
        },
{
    match event {
        LogEvent::Refused(e) => complained(text::joined("error: ", e.as_str()), 0),
        LogEvent::Line(line) => printed(line, 0),
        LogEvent::Broken(e) => complained(text::joined("stream error: ", e.as_str()), 0),
    }
}

// ── Laws ───────────────────────────────────────────────────────────────

/// Whatever the format, a command reports by its code whether it succeeded: a
/// refused request never looks like a success to a script.
pub proof fn law_code_tells_success(o: Output, json: bool, ok: bool, message: Seq<char>, done: Seq<
    char,
>)
    requires
        is_reply_output(o, json, ok, message, done),
    ensures
        o.code == 0 <==> ok,
{
}

/// An output is its lines and its code.
pub proof fn law_output_lines(o: Output, stdout: Seq<Seq<char>>, stderr: Seq<Seq<char>>, code: i32)
    requires
        o.is(stdout, stderr, code),
    ensures
        o.stdout@.len() == stdout.len(),
        forall|i: int| 0 <= i < stdout.len() ==> (#[trigger] o.stdout@[i])@ == stdout[i],
        o.stderr@.len() == stderr.len(),
        forall|i: int| 0 <= i < stderr.len() ==> (#[trigger] o.stderr@[i])@ == stderr[i],
        o.code == code,
{
    assert forall|i: int| 0 <= i < stdout.len() implies (#[trigger] o.stdout@[i])@
        == stdout[i] by {
        assert(text::texts(o.stdout@)[i] == o.stdout@[i]@);
    }
    assert forall|i: int| 0 <= i < stderr.len() implies (#[trigger] o.stderr@[i])@
        == stderr[i] by {
        assert(text::texts(o.stderr@)[i] == o.stderr@[i]@);
    }
}

/// In words, a success prints what was done, one line, and a refusal the
/// message, one line to the error output. In JSON one line is printed either
/// way, whose members are `ok` and `message`. The code is 0 for a success and 1
/// for a refusal.
pub proof fn law_replies_are_printed(
    o: Output,
    json: bool,
    ok: bool,
    message: Seq<char>,
    done: Seq<char>,
)
    requires
        is_reply_output(o, json, ok, message, done),
    ensures
        ok ==> o.code == 0,
        !ok ==> o.code == 1,
        o.stdout@.len() + o.stderr@.len() == 1,
        o.stdout@.len() == 1 <==> json || ok,
        !json && ok ==> o.stdout@[0]@ == done,
        !json && !ok ==> o.stderr@[0]@ == message,
        json ==> exists|v: serde_json::Value|
            {
                &&& #[trigger] json::compact_json(v) == o.stdout@[0]@
                &&& json::is_json_object(v)
                &&& json::json_members(v).dom() == set!["ok"@, "message"@]
                &&& json::json_members(v)["ok"@] == json::json_bool(ok)
                &&& json::json_members(v)["message"@] == json::json_string(message)
            },
{
    if json {
        let v = choose|v: serde_json::Value| #[trigger]
            json::is_object_of(v, rest::reply_members(ok, message)) && o.is(
                seq![json::compact_json(v)],
                Seq::empty(),
                exit_code(ok),
            );
        law_output_lines(o, seq![json::compact_json(v)], Seq::empty(), exit_code(ok));
        rest::law_reply_members(ok, message);
        assert(json::compact_json(v) == o.stdout@[0]@);
    } else if ok {
        law_output_lines(o, seq![done], Seq::empty(), 0);
    } else {
        law_output_lines(o, Seq::empty(), seq![message], 1);
    }
}

/// A command that could not be carried out prints the error: in words to the
/// error output, behind "error: ", in JSON as a refusal. Its code is 1.
pub proof fn law_errors_are_printed(o: Output, json: bool, error: Seq<char>)
    requires
        is_error_output(o, json, error),
    ensures
        o.code == 1,
        json ==> is_reply_output(o, true, false, error, Seq::empty()),
        !json ==> o.stdout@.len() == 0 && o.stderr@.len() == 1 && o.stderr@[0]@ == seq![
            'e',
            'r',
            'r',
            'o',
            'r',
            ':',
            ' ',
        ] + error,
{
    reveal_strlit("error: ");
    if !json {
        law_output_lines(o, Seq::empty(), seq!["error: "@ + error], 1);
        assert("error: "@ =~= seq!['e', 'r', 'r', 'o', 'r', ':', ' ']);
    }
}

/// A stop that says something is reported with what it says; one that says
/// nothing is reported as stopped or failed, never as the other.
pub proof fn law_stop_says_something(ok: bool, message: Seq<char>)
    ensures
        stop_message(ok, message).len() > 0,
        message.len() > 0 ==> stop_message(ok, message) == message,
        message.len() == 0 && ok ==> stop_message(ok, message) == "proxy stopped"@,
        message.len() == 0 && !ok ==> stop_message(ok, message) == "stop failed"@,
{
    reveal_strlit("proxy stopped");
    reveal_strlit("stop failed");
}

/// A status in words has five lines, one for each member of the status, each
/// with its name in front.
pub proof fn law_status_in_words(s: StatusReply)
    ensures
        status_lines(s).len() == 5,
        s.running ==> status_lines(s)[0] == "running: true"@,
        !s.running ==> status_lines(s)[0] == "running: false"@,
        status_lines(s)[1] == "pid: "@ + text::decimal_text(s.pid as nat),
        status_lines(s)[2] == "mode: "@ + s.mode@,
        status_lines(s)[3] == "provider: "@ + s.provider@,
        status_lines(s)[4] == "strategy: "@ + s.strategy@,
{
    reveal_strlit("running: ");
    reveal_strlit("true");
    reveal_strlit("false");
    reveal_strlit("running: true");
    reveal_strlit("running: false");
    assert("running: "@ + "true"@ =~= "running: true"@);
    assert("running: "@ + "false"@ =~= "running: false"@);
}

/// In JSON one line is printed: an object with the given members.
pub proof fn law_json_is_one_line(
    o: Output,
    members: Map<Seq<char>, serde_json::Value>,
    code: i32,
)
    requires
        o.is_json(members, code),
    ensures
        o.code == code,
        o.stderr@.len() == 0,
        o.stdout@.len() == 1,
        exists|v: serde_json::Value|
            #[trigger] json::compact_json(v) == o.stdout@[0]@ && json::is_json_object(v)
                && json::json_members(v) == members,
{
    let v = choose|v: serde_json::Value| #[trigger]
        json::is_object_of(v, members) && o.is(seq![json::compact_json(v)], Seq::empty(), code);
    law_output_lines(o, seq![json::compact_json(v)], Seq::empty(), code);
    assert(json::compact_json(v) == o.stdout@[0]@);
}

} // verus!
