//! Context management MCP tools.
//!
//! Provides three tools for agent context storage backed by Redis:
//!
//! * [`ReadContext`] -- retrieve a value by key.
//! * [`WriteContext`] -- store a key/value pair.
//! * [`SearchMemory`] -- find keys matching a prefix.
//!
//! All keys are stored under the `synapse:ctx:` namespace in Redis to avoid
//! collisions with other Synapse subsystems. This module holds that naming
//! scheme and the shaping of the tools' results; the Redis commands are
//! issued by the runtime around the library.

use vstd::prelude::*;

use crate::storage::{redis_error_message, RedisError};
use crate::tools::{ToolErrorKind, ToolFailure};

verus! {

/// Redis key prefix used for all context entries.
pub open spec fn context_prefix() -> Seq<char> {
    "synapse:ctx:"@
}

/// The Redis key under which the context entry `key` is stored.
pub open spec fn context_key_of(key: Seq<char>) -> Seq<char> {
    context_prefix() + key
}

/// The context key named by a full Redis key: the rest of the key when it
/// lies in the context namespace, nothing otherwise.
pub open spec fn context_key_in(full_key: Seq<char>) -> Option<Seq<char>> {
    let n = context_prefix().len();
    if full_key.len() >= n && full_key.subrange(0, n as int) == context_prefix() {
        Some(full_key.subrange(n as int, full_key.len() as int))
    } else {
        None
    }
}

/// The context keys named by a list of full Redis keys, in order; keys
/// outside the context namespace are dropped.
pub open spec fn context_keys_in(full_keys: Seq<Seq<char>>) -> Seq<Seq<char>>
    decreases full_keys.len(),
{
    if full_keys.len() == 0 {
        Seq::empty()
    } else {
        let earlier = context_keys_in(full_keys.drop_last());
        match context_key_in(full_keys.last()) {
            Some(key) => earlier.push(key),
            None => earlier,
        }
    }
}

/// Returns the full Redis key for a context key.
pub fn context_key(key: &str) -> (full_key: String)
    ensures
        full_key@ == context_key_of(key@),
{
    let mut full_key = String::from_str("synapse:ctx:");
    full_key.append(key);
    full_key
}

/// Whether `c` has a meaning of its own in a Redis glob pattern.
pub open spec fn is_glob_special(c: char) -> bool {
    c == '*' || c == '?' || c == '[' || c == ']' || c == '\\'
}

/// `text` with a backslash before each glob-special character, so that a
/// Redis pattern matches it literally.
pub open spec fn glob_escaped(text: Seq<char>) -> Seq<char>
    decreases text.len(),
{
    if text.len() == 0 {
        Seq::empty()
    } else {
        let head = if is_glob_special(text[0]) {
            seq!['\\', text[0]]
        } else {
            seq![text[0]]
        };
        head + glob_escaped(text.drop_first())
    }
}

/// The literal text a glob pattern without wildcards stands for: a backslash
/// stands for the character after it.
pub open spec fn glob_unescaped(pattern: Seq<char>) -> Seq<char>
    decreases pattern.len(),
{
    if pattern.len() == 0 {
        Seq::empty()
    } else if pattern[0] == '\\' && pattern.len() >= 2 {
        seq![pattern[1]] + glob_unescaped(pattern.subrange(2, pattern.len() as int))
    } else {
        seq![pattern[0]] + glob_unescaped(pattern.drop_first())
    }
}

/// Escaping distributes over concatenation.
pub proof fn lemma_glob_escaped_concat(a: Seq<char>, b: Seq<char>)
    ensures
        glob_escaped(a + b) == glob_escaped(a) + glob_escaped(b),
    decreases a.len(),
{
    if a.len() == 0 {
        assert(a + b =~= b);
    } else {
        assert((a + b).drop_first() =~= a.drop_first() + b);
        lemma_glob_escaped_concat(a.drop_first(), b);
        assert((a + b)[0] == a[0]);
        let head = if is_glob_special(a[0]) {
            seq!['\\', a[0]]
        } else {
            seq![a[0]]
        };
        assert(glob_escaped(a + b) == head + glob_escaped(a.drop_first() + b));
        assert(head + (glob_escaped(a.drop_first()) + glob_escaped(b)) =~= (head
            + glob_escaped(a.drop_first())) + glob_escaped(b));
    }
}

/// Returns the Redis `KEYS` pattern that `search_memory` scans with: the
/// context namespace, the query with its glob characters escaped, then `*`,
/// so that exactly the keys that begin with the query match.
pub fn search_pattern(query: &str) -> (pattern: String)
    ensures
        pattern@ == context_key_of(glob_escaped(query@)) + "*"@,
{
    let mut pattern = String::from_str("synapse:ctx:");
    let ghost start = pattern@;
    let n = query.unicode_len();
    let mut i: usize = 0;
    proof {
        assert(query@.take(0) =~= Seq::<char>::empty());
        assert(start + glob_escaped(query@.take(0)) =~= start);
    }
    while i < n
        invariant
            n == query@.len(),
            i <= n,
            pattern@ == start + glob_escaped(query@.take(i as int)),
        decreases n - i,
    {
        let c = query.get_char(i);
        let ghost before = pattern@;
        if c == '*' || c == '?' || c == '[' || c == ']' || c == '\\' {
            pattern.append("\\");
        }
        pattern.append(query.substring_char(i, i + 1));
        proof {
            reveal_strlit("\\");
            let one = query@.subrange(i as int, i + 1);
            assert(query@.take(i + 1) =~= query@.take(i as int) + one);
            lemma_glob_escaped_concat(query@.take(i as int), one);
            assert(one.drop_first() =~= Seq::<char>::empty());
            assert(glob_escaped(one.drop_first()) =~= Seq::<char>::empty());
            assert(one[0] == c);
            if is_glob_special(c) {
                assert(glob_escaped(one) =~= seq!['\\', c]);
            } else {
                assert(glob_escaped(one) =~= seq![c]);
            }
        }
        i = i + 1;
    }
    pattern.append("*");
    proof {
        assert(query@.take(n as int) =~= query@);
    }
    pattern
}

/// Strips the context namespace from a full Redis key; `None` when the key
/// lies outside the namespace.
pub fn strip_context_prefix(full_key: &str) -> (key: Option<String>)
    ensures
        match key {
            Some(k) => context_key_in(full_key@) == Some(k@),
            None => context_key_in(full_key@) is None,
        },
{
    let prefix = "synapse:ctx:";
    proof {
        reveal_strlit("synapse:ctx:");
    }
    let n = full_key.unicode_len();
    let p = prefix.unicode_len();
    if n < p {
        return None;
    }
    let head = full_key.substring_char(0, p);
    if String::from_str(head) == String::from_str(prefix) {
        Some(String::from_str(full_key.substring_char(p, n)))
    } else {
        None
    }
}

/// The context keys (without the namespace) among the full keys Redis
/// matched, in the order Redis returned them.
pub fn context_keys(full_keys: &Vec<String>) -> (keys: Vec<String>)
    ensures
        keys.deep_view() == context_keys_in(full_keys.deep_view()),
{
    let mut keys: Vec<String> = Vec::new();
    let mut i: usize = 0;
    let ghost all = full_keys.deep_view();
    assert(all.take(0) =~= Seq::<Seq<char>>::empty());
    while i < full_keys.len()
        invariant
            i <= full_keys.len(),
            all == full_keys.deep_view(),
            keys.deep_view() == context_keys_in(all.take(i as int)),
        decreases full_keys.len() - i,
    {
        let ghost before = keys.deep_view();
        assert(all.take(i + 1).drop_last() =~= all.take(i as int));
        assert(all.take(i + 1).last() == full_keys[i as int]@);
        match strip_context_prefix(full_keys[i].as_str()) {
            Some(k) => {
                keys.push(k);
                assert(keys.deep_view() =~= before.push(keys[keys.len() - 1]@));
            },
            None => {},
        }
        i += 1;
    }
    assert(all.take(full_keys.len() as int) =~= all);
    keys
}

/// The message reported when a context tool runs without Redis.
pub open spec fn redis_unavailable_message() -> Seq<char> {
    "Redis connection not available"@
}

/// The failure reported when a context tool is invoked on a server without a
/// Redis connection.
pub fn redis_unavailable() -> (failure: ToolFailure)
    ensures
        failure.kind == ToolErrorKind::Internal,
        failure.message@ == redis_unavailable_message(),
{
    ToolFailure {
        kind: ToolErrorKind::Internal,
        message: String::from_str("Redis connection not available"),
    }
}

// ---------------------------------------------------------------------------
// read_context
// ---------------------------------------------------------------------------

/// MCP tool that reads a context value from Redis.
pub struct ReadContext;

/// Input parameters for the `read_context` tool.
#[derive(Debug)]
pub struct ReadContextInput {
    /// The context key to look up (without the `synapse:ctx:` prefix).
    pub key: String,
}

/// Output of the `read_context` tool.
#[derive(Debug)]
pub struct ReadContextOutput {
    /// The stored value, or `null` when the key does not exist.
    pub value: Option<String>,
}

impl ReadContext {
    /// The tool's name.
    pub fn name() -> (name: &'static str)
        ensures
            name@ == "read_context"@,
    {
        "read_context"
    }

    /// The tool's description.
    pub fn description() -> (description: Option<&'static str>)
        ensures
            description matches Some(d) && d@ == "Read a context value from Redis by key."@,
    {
        Some("Read a context value from Redis by key.")
    }

    /// The failure reported when the Redis `GET` failed.
    ///
    /// `source` is the displayed text of the client error `e` carries.
    pub fn get_failed(e: &RedisError, source: &str) -> (failure: ToolFailure)
        ensures
            failure.kind == ToolErrorKind::Internal,
            failure.message@ == "Redis GET failed: "@ + redis_error_message(*e, source@),
    {
        ToolFailure::with_detail(
            ToolErrorKind::Internal,
            "Redis GET failed: ",
            e.message(source).as_str(),
        )
    }
}

// ---------------------------------------------------------------------------
// write_context
// ---------------------------------------------------------------------------

/// MCP tool that writes a context value to Redis.
pub struct WriteContext;

/// Input parameters for the `write_context` tool.
#[derive(Debug)]
pub struct WriteContextInput {
    /// The context key to store (without the `synapse:ctx:` prefix).
    pub key: String,
    /// The value to associate with the key.
    pub value: String,
}

/// Output of the `write_context` tool.
#[derive(Debug)]
pub struct WriteContextOutput {
    /// Whether the write succeeded.
    pub success: bool,
}

impl WriteContext {
    /// The tool's name.
    pub fn name() -> (name: &'static str)
        ensures
            name@ == "write_context"@,
    {
        "write_context"
    }

    /// The tool's description.
    pub fn description() -> (description: Option<&'static str>)
        ensures
            description matches Some(d) && d@ == "Write a context key/value pair to Redis."@,
    {
        Some("Write a context key/value pair to Redis.")
    }

    /// The failure reported when the Redis `SET` failed.
    ///
    /// `source` is the displayed text of the client error `e` carries.
    pub fn set_failed(e: &RedisError, source: &str) -> (failure: ToolFailure)
        ensures
            failure.kind == ToolErrorKind::Internal,
            failure.message@ == "Redis SET failed: "@ + redis_error_message(*e, source@),
    {
        ToolFailure::with_detail(
            ToolErrorKind::Internal,
            "Redis SET failed: ",
            e.message(source).as_str(),
        )
    }
}

// ---------------------------------------------------------------------------
// search_memory
// ---------------------------------------------------------------------------

/// MCP tool that searches for context keys matching a prefix.
///
/// The current implementation performs a Redis `KEYS` prefix scan; a vector
/// search may replace it later.
pub struct SearchMemory;

/// Input parameters for the `search_memory` tool.
#[derive(Debug)]
pub struct SearchMemoryInput {
    /// Prefix query to match against context keys (without `synapse:ctx:`).
    pub query: String,
}

/// Output of the `search_memory` tool.
#[derive(Debug)]
pub struct SearchMemoryOutput {
    /// Context keys (without prefix) that matched the query.
    pub keys: Vec<String>,
}

impl SearchMemory {
    /// The tool's name.
    pub fn name() -> (name: &'static str)
        ensures
            name@ == "search_memory"@,
    {
        "search_memory"
    }

    /// The tool's description.
    pub fn description() -> (description: Option<&'static str>)
        ensures
            description matches Some(d) && d@
                == "Search for context keys matching a prefix. (Phase 2: will upgrade to Qdrant vector search.)"@,
    {
        Some(
            "Search for context keys matching a prefix. (Phase 2: will upgrade to Qdrant vector search.)",
        )
    }

    /// The failure reported when the Redis `KEYS` scan failed.
    ///
    /// `source` is the displayed text of the client error `e` carries.
    pub fn keys_failed(e: &RedisError, source: &str) -> (failure: ToolFailure)
        ensures
            failure.kind == ToolErrorKind::Internal,
            failure.message@ == "Redis KEYS failed: "@ + redis_error_message(*e, source@),
    {
        ToolFailure::with_detail(
            ToolErrorKind::Internal,
            "Redis KEYS failed: ",
            e.message(source).as_str(),
        )
    }
}

// ── Laws ────────────────────────────────────────────────────────────────────

/// Distinct context keys are stored under distinct Redis keys, so writing
/// one context entry never overwrites another.
pub proof fn lemma_context_key_injective(a: Seq<char>, b: Seq<char>)
    requires
        context_key_of(a) == context_key_of(b),
    ensures
        a == b,
{
    let n = context_prefix().len() as int;
    assert(a =~= context_key_of(a).subrange(n, context_key_of(a).len() as int));
    assert(b =~= context_key_of(b).subrange(n, context_key_of(b).len() as int));
}

/// A key stored by `write_context` is reported by `search_memory` exactly as
/// it was written: stripping the namespace undoes adding it.
pub proof fn lemma_search_reports_written_key(key: Seq<char>)
    ensures
        context_key_in(context_key_of(key)) == Some(key),
{
    let n = context_prefix().len() as int;
    assert(context_key_of(key).subrange(0, n) =~= context_prefix());
    assert(context_key_of(key).subrange(n, context_key_of(key).len() as int) =~= key);
}

/// Every key reported by `search_memory` names a full Redis key in the
/// context namespace: adding the namespace back gives a key Redis matched.
pub proof fn lemma_reported_keys_come_from_matches(full_keys: Seq<Seq<char>>, k: int)
    requires
        0 <= k < context_keys_in(full_keys).len(),
    ensures
        full_keys.contains(context_key_of(context_keys_in(full_keys)[k])),
    decreases full_keys.len(),
{
    let earlier = context_keys_in(full_keys.drop_last());
    if k < earlier.len() {
        lemma_reported_keys_come_from_matches(full_keys.drop_last(), k);
        let j = choose|j: int|
            0 <= j < full_keys.drop_last().len() && full_keys.drop_last()[j] == context_key_of(
                earlier[k],
            );
        assert(full_keys[j] == context_key_of(earlier[k]));
    } else {
        let last = full_keys.last();
        let n = context_prefix().len() as int;
        assert(context_key_of(context_keys_in(full_keys)[k]) =~= last);
        assert(full_keys[full_keys.len() - 1] == last);
    }
}

/// A context key that extends the query is stored under a Redis key that
/// extends the namespaced query, the text the `search_memory` pattern spells
/// literally before its closing `*`.
pub proof fn lemma_query_prefix_extends(query: Seq<char>, key: Seq<char>)
    requires
        query.is_prefix_of(key),
    ensures
        context_key_of(query).is_prefix_of(context_key_of(key)),
{
    let n = context_prefix().len() as int;
    assert forall|i: int| 0 <= i < context_key_of(query).len() implies context_key_of(query)[i]
        == context_key_of(key)[i] by {
        if i >= n {
            assert(query[i - n] == key[i - n]);
        }
    }
}

/// The pattern `search_memory` scans with reads back as the query: escaping
/// only marks the glob characters as literal and changes no character.
pub proof fn lemma_glob_escape_round_trip(text: Seq<char>)
    ensures
        glob_unescaped(glob_escaped(text)) == text,
    decreases text.len(),
{
    if text.len() > 0 {
        lemma_glob_escape_round_trip(text.drop_first());
        let rest = glob_escaped(text.drop_first());
        let e = glob_escaped(text);
        if is_glob_special(text[0]) {
            assert(e =~= seq!['\\', text[0]] + rest);
            assert(e.subrange(2, e.len() as int) =~= rest);
        } else {
            assert(e =~= seq![text[0]] + rest);
            assert(e.drop_first() =~= rest);
            assert(e[0] != '\\');
        }
        assert(text =~= seq![text[0]] + text.drop_first());
    }
}

/// Escaping leaves text without glob characters unchanged, so a query of
/// ordinary characters is scanned for as it stands.
pub proof fn lemma_plain_text_unescaped(text: Seq<char>)
    requires
        forall|i: int| 0 <= i < text.len() ==> !is_glob_special(#[trigger] text[i]),
    ensures
        glob_escaped(text) == text,
    decreases text.len(),
{
    if text.len() > 0 {
        assert forall|i: int| 0 <= i < text.drop_first().len() implies !is_glob_special(
            #[trigger] text.drop_first()[i],
        ) by {
            assert(text.drop_first()[i] == text[i + 1]);
        }
        lemma_plain_text_unescaped(text.drop_first());
        assert(!is_glob_special(text[0]));
        assert(text =~= seq![text[0]] + text.drop_first());
    }
}

/// A full Redis key names a context key exactly when it is that key under
/// the context namespace.
pub proof fn lemma_context_key_in_exact(full_key: Seq<char>, key: Seq<char>)
    ensures
        context_key_in(full_key) == Some(key) <==> full_key == context_key_of(key),
{
    let n = context_prefix().len() as int;
    if context_key_in(full_key) == Some(key) {
        assert(full_key =~= context_key_of(key));
    }
    if full_key == context_key_of(key) {
        lemma_search_reports_written_key(key);
    }
}

/// `search_memory` reports every matched key of the namespace, once per
/// match and in the order Redis returned them: the reported keys are the
/// matched keys with the namespace stripped, those outside it left out.
/// In particular every matched key in the namespace is reported, and there
/// are as many reported keys as matched keys in the namespace.
pub proof fn lemma_reported_keys_complete(full_keys: Seq<Seq<char>>)
    ensures
        context_keys_in(full_keys) == full_keys.filter_map(|k: Seq<char>| context_key_in(k)),
        forall|i: int|
            0 <= i < full_keys.len() && (#[trigger] context_key_in(full_keys[i])) is Some
                ==> context_keys_in(full_keys).contains(context_key_in(full_keys[i])->Some_0),
        context_keys_in(full_keys).len() == full_keys.filter(
            |k: Seq<char>| context_key_in(k) is Some,
        ).len(),
    decreases full_keys.len(),
{
    reveal(Seq::filter);
    if full_keys.len() > 0 {
        let front = full_keys.drop_last();
        lemma_reported_keys_complete(front);
        let earlier = context_keys_in(front);
        let now = context_keys_in(full_keys);
        assert forall|i: int|
            0 <= i < full_keys.len() && (#[trigger] context_key_in(full_keys[i])) is Some
                implies now.contains(context_key_in(full_keys[i])->Some_0) by {
            if i < full_keys.len() - 1 {
                assert(front[i] == full_keys[i]);
                assert(context_key_in(front[i]) is Some);
                let j = choose|j: int|
                    0 <= j < earlier.len() && earlier[j] == context_key_in(front[i])->Some_0;
                assert(now[j] == earlier[j]);
            } else {
                assert(now[now.len() - 1] == context_key_in(full_keys[i])->Some_0);
            }
        }
        match context_key_in(full_keys.last()) {
            Some(k) => {
                assert(now == earlier.push(k));
                assert(earlier.push(k) =~= earlier + seq![k]);
            },
            None => {},
        }
    }
}

/// Exactly the five glob characters `*`, `?`, `[`, `]` and the backslash are escaped
/// in the `search_memory` pattern, each by one backslash in front of it;
/// every other character of the query is kept as it is.
pub proof fn lemma_glob_escape_each_char(c: char)
    ensures
        (c == '*' || c == '?' || c == '[' || c == ']' || c == '\\') ==> glob_escaped(seq![c])
            == seq!['\\', c],
        !(c == '*' || c == '?' || c == '[' || c == ']' || c == '\\') ==> glob_escaped(seq![c])
            == seq![c],
{
    let one = seq![c];
    assert(one.drop_first() =~= Seq::<char>::empty());
    assert(glob_escaped(one.drop_first()) =~= Seq::<char>::empty());
    assert(seq!['\\', c] + Seq::<char>::empty() =~= seq!['\\', c]);
    assert(seq![c] + Seq::<char>::empty() =~= seq![c]);
}

} // verus!
