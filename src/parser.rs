use vstd::prelude::*;
use vstd::string::StrSliceExecFns;
use crate::errors::AppError;
use crate::json::JsonValue;
use crate::models::{PumpData, Timestamp, TokenCreatedEvent, TokenInfo};

verus! {

/// The log marker that announces a new mint.
pub const MINT_MARKER: &'static str = "InitializeMint";

/// The discriminator carried by every token creation event.
pub const TOKEN_CREATED: &'static str = "token_created";

/// Whether `pat` occurs in `s` as a run of consecutive characters.
pub open spec fn has_substring(s: Seq<char>, pat: Seq<char>) -> bool {
    exists|i: int| 0 <= i && i + pat.len() <= s.len() && #[trigger] s.subrange(i, i + pat.len()) == pat
}

/// The object at `params.result.value` of a notification.
pub open spec fn notification_value(raw: JsonValue) -> Option<JsonValue> {
    match raw.field("params"@) {
        Some(params) => match params.field("result"@) {
            Some(result) => result.field("value"@),
            None => None,
        },
        None => None,
    }
}

/// The log list at `params.result.value.logs`, when it is an array.
pub open spec fn notification_logs(raw: JsonValue) -> Option<Seq<JsonValue>> {
    match notification_value(raw) {
        Some(value) => match value.field("logs"@) {
            Some(logs) => logs.array_items(),
            None => None,
        },
        None => None,
    }
}

/// The signature at `params.result.value.signature`, or the empty string
/// where there is no such string.
pub open spec fn notification_signature(raw: JsonValue) -> Seq<char> {
    match notification_value(raw) {
        Some(value) => match value.field("signature"@) {
            Some(sig) => match sig.text() {
                Some(t) => t,
                None => Seq::empty(),
            },
            None => Seq::empty(),
        },
        None => Seq::empty(),
    }
}

/// A log entry that is a string holding the mint marker.
pub open spec fn is_mint_line(line: JsonValue) -> bool {
    match line.text() {
        Some(t) => has_substring(t, MINT_MARKER@),
        None => false,
    }
}

/// The index of the first mint line of `logs` at or after `start`.
pub open spec fn first_mint_from(logs: Seq<JsonValue>, start: int) -> Option<int>
    decreases logs.len() - start,
{
    if start < 0 || start >= logs.len() {
        None
    } else if is_mint_line(logs[start]) {
        Some(start)
    } else {
        first_mint_from(logs, start + 1)
    }
}

/// The index of the first mint line of `logs`, if there is one.
pub open spec fn first_mint_line(logs: Seq<JsonValue>) -> Option<int> {
    first_mint_from(logs, 0)
}

/// Whether a notification announces a token creation: it carries a log list
/// and one of its lines holds the mint marker.
pub open spec fn is_token_creation(raw: JsonValue) -> bool {
    match notification_logs(raw) {
        Some(logs) => exists|i: int| 0 <= i < logs.len() && is_mint_line(#[trigger] logs[i]),
        None => false,
    }
}

/// The event built for a recognized notification: the fixed discriminator,
/// the given time and signature, and empty token and curve fields.
pub open spec fn is_creation_event(ev: TokenCreatedEvent, signature: Seq<char>, at: Timestamp) -> bool {
    &&& ev.event_type@ == TOKEN_CREATED@
    &&& ev.timestamp == at
    &&& ev.transaction_signature@ == signature
    &&& ev.token.mint_address@.len() == 0
    &&& ev.token.name@.len() == 0
    &&& ev.token.symbol@.len() == 0
    &&& ev.token.creator@.len() == 0
    &&& ev.token.supply == 0
    &&& ev.token.decimals == 0
    &&& ev.pump_data.bonding_curve@.len() == 0
    &&& ev.pump_data.virtual_sol_reserves == 0
    &&& ev.pump_data.virtual_token_reserves == 0
}

/// Whether `pat` occurs in `s` starting at character `at`.
fn occurs_at(s: &str, pat: &str, at: usize, n: usize, m: usize) -> (r: bool)
    requires
        n == s@.len(),
        m == pat@.len(),
        at + m <= n,
    ensures
        r == (s@.subrange(at as int, at + m) == pat@),
{
    let mut k: usize = 0;
    while k < m
        invariant
            n == s@.len(),
            m == pat@.len(),
            at + m <= n,
            k <= m,
            forall|j: int| 0 <= j < k ==> s@[at + j] == pat@[j],
        decreases m - k,
    {
        if s.get_char(at + k) != pat.get_char(k) {
            assert(s@.subrange(at as int, at + m)[k as int] != pat@[k as int]);
            return false;
        }
        k = k + 1;
    }
    assert(s@.subrange(at as int, at + m) =~= pat@);
    true
}

/// Whether `pat` occurs in `s`.
pub fn str_contains(s: &str, pat: &str) -> (r: bool)
    ensures
        r == has_substring(s@, pat@),
{
    let n = s.unicode_len();
    let m = pat.unicode_len();
    if m > n {
        proof {
            if has_substring(s@, pat@) {
                let w = choose|w: int|
                    0 <= w && w + pat@.len() <= s@.len() && #[trigger] s@.subrange(
                        w,
                        w + pat@.len(),
                    ) == pat@;
            }
        }
        return false;
    }
    let mut i: usize = 0;
    loop
        invariant
            n == s@.len(),
            m == pat@.len(),
            m <= n,
            i <= n - m,
            forall|j: int| 0 <= j < i ==> #[trigger] s@.subrange(j, j + m) != pat@,
        decreases n - m - i,
    {
        if occurs_at(s, pat, i, n, m) {
            return true;
        }
        if i == n - m {
            proof {
                if has_substring(s@, pat@) {
                    let w = choose|w: int|
                        0 <= w && w + pat@.len() <= s@.len() && #[trigger] s@.subrange(
                            w,
                            w + pat@.len(),
                        ) == pat@;
                    assert(s@.subrange(w, w + m) != pat@);
                }
            }
            return false;
        }
        i = i + 1;
    }
}

/// A new string with the same characters.
pub(crate) fn owned(s: &str) -> (r: String)
    ensures
        r@ == s@,
{
    s.to_string()
}

/// The position of the first log line that holds the mint marker.
pub fn find_mint_line(logs: &Vec<JsonValue>) -> (r: Option<usize>)
    ensures
        match r {
            Some(i) => first_mint_line(logs@) == Some(i as int) && i < logs@.len(),
            None => first_mint_line(logs@) is None,
        },
{
    let mut i: usize = 0;
    while i < logs.len()
        invariant
            i <= logs@.len(),
            first_mint_line(logs@) == first_mint_from(logs@, i as int),
        decreases logs@.len() - i,
    {
        let hit = match logs[i].as_str() {
            Some(line) => str_contains(line, MINT_MARKER),
            None => false,
        };
        if hit {
            return Some(i);
        }
        i = i + 1;
    }
    None
}

/// Builds the token creation event of a notification read at time `now`, or
/// nothing where the notification announces no creation.
fn parse_token_created_at(raw: &JsonValue, now: Timestamp) -> (r: Option<TokenCreatedEvent>)
    ensures
        r is Some <==> is_token_creation(*raw),
        r matches Some(ev) ==> is_creation_event(ev, notification_signature(*raw), now),
{
    let params = match raw.get("params") {
        Some(p) => p,
        None => return None,
    };
    let result = match params.get("result") {
        Some(x) => x,
        None => return None,
    };
    let value = match result.get("value") {
        Some(v) => v,
        None => return None,
    };
    let logs = match value.get("logs") {
        Some(l) => match l.as_array() {
            Some(items) => items,
            None => return None,
        },
        None => return None,
    };
    let found = find_mint_line(logs);
    proof {
        lemma_first_mint_from_found(logs@, 0);
    }
    match found {
        None => None,
        Some(_) => {
            let signature = match value.get("signature") {
                Some(s) => match s.as_str() {
                    Some(t) => owned(t),
                    None => String::new(),
                },
                None => String::new(),
            };
            Some(TokenCreatedEvent {
                event_type: owned(TOKEN_CREATED),
                timestamp: now,
                transaction_signature: signature,
                token: TokenInfo {
                    mint_address: String::new(),
                    name: String::new(),
                    symbol: String::new(),
                    creator: String::new(),
                    supply: 0,
                    decimals: 0,
                },
                pump_data: PumpData {
                    bonding_curve: String::new(),
                    virtual_sol_reserves: 0,
                    virtual_token_reserves: 0,
                },
            })
        },
    }
}

/// Reads an upstream notification that arrived at time `now` and builds its
/// token creation event. Never fails: a notification of another shape is
/// simply not recognized.
pub fn parse_token_created(raw: &JsonValue, now: Timestamp) -> (r: Result<Option<TokenCreatedEvent>, AppError>)
    ensures
        r is Ok,
        r matches Ok(found) && (found is Some <==> is_token_creation(*raw)),
        r matches Ok(Some(ev)) ==> is_creation_event(ev, notification_signature(*raw), now),
{
    Ok(parse_token_created_at(raw, now))
}

/// A notification without a `params` member, or without a log list under it,
/// is never recognized.
pub proof fn lemma_without_logs_not_recognized(raw: JsonValue)
    requires
        raw.field("params"@) is None || notification_logs(raw) is None,
    ensures
        !is_token_creation(raw),
{
}

/// Searching from `start` finds a mint line exactly when there is one from
/// `start` on.
proof fn lemma_first_mint_from_found(logs: Seq<JsonValue>, start: int)
    requires
        0 <= start,
    ensures
        first_mint_from(logs, start) matches Some(k) ==> start <= k < logs.len() && is_mint_line(
            logs[k],
        ),
        first_mint_from(logs, start) is None ==> forall|j: int|
            start <= j < logs.len() ==> !is_mint_line(#[trigger] logs[j]),
    decreases logs.len() - start,
{
    if start < logs.len() && !is_mint_line(logs[start]) {
        lemma_first_mint_from_found(logs, start + 1);
    }
}

/// Where a mint line stands at `i` or later in `logs`, searching from
/// `start` finds one between `start` and `i`.
proof fn lemma_first_mint_from_bounded(logs: Seq<JsonValue>, start: int, i: int)
    requires
        0 <= start <= i < logs.len(),
        is_mint_line(logs[i]),
    ensures
        first_mint_from(logs, start) matches Some(k) && start <= k <= i,
    decreases i - start,
{
    if !is_mint_line(logs[start]) {
        lemma_first_mint_from_bounded(logs, start + 1, i);
    }
}

/// A notification whose log list holds a mint line is recognized, and the
/// first mint line is found at or before that one.
pub proof fn lemma_mint_line_recognized(raw: JsonValue, i: int)
    requires
        notification_logs(raw) is Some,
        0 <= i < notification_logs(raw)->Some_0.len(),
        is_mint_line(notification_logs(raw)->Some_0[i]),
    ensures
        is_token_creation(raw),
        first_mint_line(notification_logs(raw)->Some_0) matches Some(k) && 0 <= k <= i,
{
    lemma_first_mint_from_bounded(notification_logs(raw)->Some_0, 0, i);
}

} // verus!
