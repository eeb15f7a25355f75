//! The decisions of the MCP tool server: command-line port, JSON-RPC method routing,
//! tool-call validation and the per-tool sliding-window rate limit.
use vstd::prelude::*;
use crate::registry::{position_of, schema_names, texts, ToolSchema};
use crate::text::{join, owned, parse_u16, spec_parse_uint, starts_with, strip_prefix};

verus! {

/// The port named on a command line, scanning from argument `i`: `--port N` or `-p N`
/// (with a following argument) gives `N` parsed as a port, `--port=N` gives `N` parsed;
/// the first such argument decides, and an unparsable number gives `None`.
pub open spec fn spec_port_from(args: Seq<Seq<char>>, i: int) -> Option<u16>
    decreases args.len() - i,
{
    if i < 0 || i >= args.len() {
        None
    } else if (args[i] == "--port"@ || args[i] == "-p"@) && i + 1 < args.len() {
        match spec_parse_uint(args[i + 1], 65535) {
            Some(v) => Some(v as u16),
            None => None,
        }
    } else if starts_with(args[i], "--port="@) {
        match spec_parse_uint(args[i].skip(7), 65535) {
            Some(v) => Some(v as u16),
            None => None,
        }
    } else {
        spec_port_from(args, i + 1)
    }
}

/// The texts of the arguments.
pub open spec fn arg_texts(args: Seq<String>) -> Seq<Seq<char>> {
    args.map_values(|s: String| s@)
}

/// Are two texts equal?
pub fn text_equals(a: &str, b: &str) -> (r: bool)
    ensures
        r == (a@ == b@),
{
    owned(a) == owned(b)
}

/// The port given on the command line (`--port N`, `-p N` or `--port=N`).
pub fn extract_port(args: &[String]) -> (r: Option<u16>)
    ensures
        r == spec_port_from(arg_texts(args@), 0),
{
    let ghost a = arg_texts(args@);
    let mut i: usize = 0;
    while i < args.len()
        invariant
            a == arg_texts(args@),
            i <= args@.len(),
            spec_port_from(a, 0) == spec_port_from(a, i as int),
        decreases args@.len() - i,
    {
        assert(a[i as int] == args@[i as int]@);
        let flag = text_equals(args[i].as_str(), "--port") || text_equals(args[i].as_str(), "-p");
        if flag && i + 1 < args.len() {
            assert(a[i as int + 1] == args@[i as int + 1]@);
            return match parse_u16(args[i + 1].as_str()) {
                Some(v) => Some(v),
                None => None,
            };
        }
        match strip_prefix(args[i].as_str(), "--port=") {
            Some(rest) => {
                proof {
                    reveal_strlit("--port=");
                }
                return match parse_u16(rest.as_str()) {
                    Some(v) => Some(v),
                    None => None,
                };
            },
            None => {},
        }
        i = i + 1;
    }
    None
}

/// JSON-RPC methods the server answers.
#[derive(Clone, Copy, Debug, PartialEq, Eq, Structural)]
pub enum McpMethod {
    Initialize,
    ToolsList,
    ToolsCall,
    Ping,
    /// Anything else: answered with "method not found".
    NotFound,
}

pub open spec fn spec_method(m: Seq<char>) -> McpMethod {
    if m == "initialize"@ {
        McpMethod::Initialize
    } else if m == "tools/list"@ {
        McpMethod::ToolsList
    } else if m == "tools/call"@ {
        McpMethod::ToolsCall
    } else if m == "ping"@ {
        McpMethod::Ping
    } else {
        McpMethod::NotFound
    }
}

/// Which handler answers a request method.
pub fn route_method(method: &str) -> (r: McpMethod)
    ensures
        r == spec_method(method@),
{
    if text_equals(method, "initialize") {
        McpMethod::Initialize
    } else if text_equals(method, "tools/list") {
        McpMethod::ToolsList
    } else if text_equals(method, "tools/call") {
        McpMethod::ToolsCall
    } else if text_equals(method, "ping") {
        McpMethod::Ping
    } else {
        McpMethod::NotFound
    }
}

/// A JSON-RPC error: code and message.
pub struct RpcError {
    pub code: i64,
    pub message: String,
}

/// The error for an unknown method.
pub fn method_not_found(method: &str) -> (r: RpcError)
    ensures
        r.code == -32601,
        r.message@ == "Method not found: "@ + method@,
{
    RpcError { code: -32601, message: join(owned("Method not found: "), method) }
}

/// Why a tool call is refused before it runs.
pub open spec fn spec_call_rejection(name: Seq<char>, tools: Seq<Seq<char>>) -> Option<(int, Seq<char>)> {
    if name.len() == 0 {
        Some((-32602, "Missing tool name"@))
    } else if !tools.contains(name) {
        Some((-32602, "Unknown tool: "@ + name))
    } else {
        None
    }
}

/// Checks a tool call against the tools on offer: the name must be given and offered.
pub fn validate_tool_call(tool_name: &str, available: &Vec<ToolSchema>) -> (r: Option<RpcError>)
    ensures
        match r {
            Some(e) => spec_call_rejection(tool_name@, schema_names(available@)) == Some(
                (e.code as int, e.message@),
            ),
            None => spec_call_rejection(tool_name@, schema_names(available@)) is None,
        },
{
    if tool_name.unicode_len() == 0 {
        return Some(RpcError { code: -32602, message: owned("Missing tool name") });
    }
    let mut i: usize = 0;
    while i < available.len()
        invariant
            i <= available@.len(),
            tool_name@.len() > 0,
            forall|j: int| 0 <= j < i ==> available@[j].name@ != tool_name@,
        decreases available@.len() - i,
    {
        if text_equals(available[i].name.as_str(), tool_name) {
            assert(schema_names(available@)[i as int] == tool_name@);
            assert(schema_names(available@).contains(tool_name@));
            return None;
        }
        i = i + 1;
    }
    proof {
        if schema_names(available@).contains(tool_name@) {
            let k = choose|k: int|
                0 <= k < schema_names(available@).len() && schema_names(available@)[k] == tool_name@;
            assert(available@[k].name@ == tool_name@);
        }
    }
    Some(RpcError { code: -32602, message: join(owned("Unknown tool: "), tool_name) })
}

/// The error for a tool over its rate limit.
pub fn rate_limited_error(tool_name: &str) -> (r: RpcError)
    ensures
        r.code == -32000,
        r.message@ == "Rate limited: "@ + tool_name@ + " \u{2014} too many requests"@,
{
    let s = join(owned("Rate limited: "), tool_name);
    RpcError { code: -32000, message: join(s, " \u{2014} too many requests") }
}

/// The request times still inside the one-minute window at `now_ms`, in order.
pub open spec fn recent(s: Seq<u64>, now_ms: u64) -> Seq<u64>
    decreases s.len(),
{
    if s.len() == 0 {
        Seq::empty()
    } else {
        let r = recent(s.drop_last(), now_ms);
        if s.last() + 60_000 > now_ms {
            r.push(s.last())
        } else {
            r
        }
    }
}

/// The window never grows by dropping expired times.
pub proof fn lemma_recent_len(s: Seq<u64>, now_ms: u64)
    ensures
        recent(s, now_ms).len() <= s.len(),
    decreases s.len(),
{
    if s.len() > 0 {
        lemma_recent_len(s.drop_last(), now_ms);
    }
}

/// Per-tool sliding-window rate limiter: at most `max_per_minute` granted requests per
/// tool within any minute.
pub struct RateLimiter {
    max_per_minute: usize,
    tools: Vec<String>,
    stamps: Vec<Vec<u64>>,
}

impl RateLimiter {
    pub closed spec fn max(&self) -> nat {
        self.max_per_minute as nat
    }

    /// The recorded request times of a tool (empty for a tool never seen).
    pub closed spec fn window(&self, tool: Seq<char>) -> Seq<u64> {
        if exists|i: int| 0 <= i < self.tools@.len() && self.tools@[i]@ == tool {
            let i = choose|i: int| 0 <= i < self.tools@.len() && self.tools@[i]@ == tool;
            self.stamps@[i]@
        } else {
            Seq::empty()
        }
    }

    /// Tool names are distinct, each has its list of times, and no list is longer than
    /// the limit.
    pub closed spec fn wf(&self) -> bool {
        &&& self.tools@.len() == self.stamps@.len()
        &&& forall|i: int, j: int|
            0 <= i < self.tools@.len() && 0 <= j < self.tools@.len() && i != j ==> self.tools@[i]@
                != self.tools@[j]@
        &&& forall|i: int| 0 <= i < self.stamps@.len() ==> (#[trigger] self.stamps@[i])@.len()
            <= self.max_per_minute
    }

    /// A limiter granting `max_per_minute` requests per tool per minute.
    pub fn new(max_per_minute: usize) -> (r: RateLimiter)
        ensures
            r.wf(),
            r.max() == max_per_minute,
            forall|t: Seq<char>| r.window(t) == Seq::<u64>::empty(),
    {
        RateLimiter { max_per_minute, tools: Vec::new(), stamps: Vec::new() }
    }

    /// Grants or refuses a request for `tool` at `now_ms` (milliseconds on a monotonic
    /// clock): times older than a minute are dropped; the request is granted, and its
    /// time recorded, when fewer than the limit remain.
    pub fn check(&mut self, tool: &str, now_ms: u64) -> (r: bool)
        requires
            old(self).wf(),
        ensures
            final(self).wf(),
            final(self).max() == old(self).max(),
            r == (recent(old(self).window(tool@), now_ms).len() < old(self).max()),
            final(self).window(tool@) == if r {
                recent(old(self).window(tool@), now_ms).push(now_ms)
            } else {
                recent(old(self).window(tool@), now_ms)
            },
            forall|t: Seq<char>| t != tool@ ==> final(self).window(t) == old(self).window(t),
    {
        let ghost old_self = *old(self);
        let pos = position_of(&self.tools, tool);
        let idx: usize = match pos {
            Some(i) => {
                proof {
                    self.lemma_window_at(i as int, tool@);
                }
                i
            },
            None => {
                proof {
                    assert(!exists|i: int| 0 <= i < self.tools@.len() && self.tools@[i]@ == tool@) by {
                        if exists|i: int| 0 <= i < self.tools@.len() && self.tools@[i]@ == tool@ {
                            let i = choose|i: int| 0 <= i < self.tools@.len() && self.tools@[i]@ == tool@;
                            assert(texts(self.tools@)[i] == tool@);
                        }
                    }
                }
                self.tools.push(owned(tool));
                self.stamps.push(Vec::new());
                proof {
                    assert(self.stamps@[self.stamps@.len() - 1]@ == Seq::<u64>::empty());
                }
                self.tools.len() - 1
            },
        };
        assert(self.tools@[idx as int]@ == tool@);
        assert(self.stamps@[idx as int]@ == old_self.window(tool@));
        let ghost before = self.stamps@[idx as int]@;
        let mut kept: Vec<u64> = Vec::new();
        let mut j: usize = 0;
        let n = self.stamps[idx].len();
        while j < n
            invariant
                idx < self.stamps@.len(),
                n == before.len(),
                self.stamps@[idx as int]@ == before,
                j <= n,
                kept@ == recent(before.take(j as int), now_ms),
            decreases n - j,
        {
            let t = self.stamps[idx][j];
            proof {
                assert(before.take(j as int + 1).drop_last() =~= before.take(j as int));
                assert(before.take(j as int + 1).last() == t);
            }
            if (t as u128) + 60_000 > now_ms as u128 {
                kept.push(t);
            }
            j = j + 1;
        }
        proof {
            assert(before.take(n as int) =~= before);
            lemma_recent_len(before, now_ms);
        }
        let allowed = kept.len() < self.max_per_minute;
        if allowed {
            kept.push(now_ms);
        }
        let ghost mid = *self;
        self.stamps.set(idx, kept);
        proof {
            assert forall|i: int| 0 <= i < self.stamps@.len() implies (#[trigger] self.stamps@[i])@.len()
                <= self.max_per_minute by {
                if i != idx {
                    assert(self.stamps@[i] == mid.stamps@[i]);
                }
            }
            self.lemma_window_at(idx as int, tool@);
            assert forall|t: Seq<char>| t != tool@ implies self.window(t) == old_self.window(t) by {
                if exists|i: int| 0 <= i < self.tools@.len() && self.tools@[i]@ == t {
                    let i = choose|i: int| 0 <= i < self.tools@.len() && self.tools@[i]@ == t;
                    self.lemma_window_at(i, t);
                    assert(i != idx);
                    assert(i < old_self.tools@.len());
                    assert(old_self.tools@[i] == self.tools@[i]);
                    old_self.lemma_window_at(i, t);
                } else {
                    if exists|i: int| 0 <= i < old_self.tools@.len() && old_self.tools@[i]@ == t {
                        let i = choose|i: int| 0 <= i < old_self.tools@.len() && old_self.tools@[i]@ == t;
                        assert(self.tools@[i] == old_self.tools@[i]);
                    }
                }
            }
        }
        allowed
    }

    /// In a well-formed limiter, the window of the tool at index `i` is its list.
    proof fn lemma_window_at(&self, i: int, t: Seq<char>)
        requires
            self.wf(),
            0 <= i < self.tools@.len(),
            self.tools@[i]@ == t,
        ensures
            self.window(t) == self.stamps@[i]@,
    {
        let k = choose|k: int| 0 <= k < self.tools@.len() && self.tools@[k]@ == t;
        assert(k == i);
    }
}

/// A limiter never holds more granted requests for a tool than its limit.
pub proof fn lemma_window_within_limit(limiter: &RateLimiter, tool: Seq<char>)
    requires
        limiter.wf(),
    ensures
        limiter.window(tool).len() <= limiter.max(),
{
    if exists|i: int| 0 <= i < limiter.tools@.len() && limiter.tools@[i]@ == tool {
        let i = choose|i: int| 0 <= i < limiter.tools@.len() && limiter.tools@[i]@ == tool;
        limiter.lemma_window_at(i, tool);
        assert(limiter.stamps@[i]@.len() <= limiter.max_per_minute);
    }
}

} // verus!
