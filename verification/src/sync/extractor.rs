//! Acceptance of sync payloads: size limits, validation and batch limits,
//! and the sanitizing of text before it is logged.

use vstd::prelude::*;
use crate::config::sync;
use crate::config::logging;
use crate::config::{env_or_default_usize, resolve_setting, lemma_resolved_setting_within_bounds};
use crate::diagnostics::{LogLevel, LogLine};
use crate::http_constants::{HTTP_BAD_REQUEST, HTTP_PAYLOAD_TOO_LARGE};
use crate::sync::validation::outcome_view;
use crate::text::{append_decimal, nat_decimal, push_char};

verus! {

/// The maximum sync payload size in MB, resolved from the raw value of
/// `MAX_SYNC_PAYLOAD_SIZE_MB`.
pub open spec fn payload_size_mb(raw: Option<Seq<char>>) -> int {
    resolve_setting(
        raw,
        usize::MAX as nat,
        sync::DEFAULT_PAYLOAD_SIZE_MB as int,
        sync::MIN_PAYLOAD_SIZE_MB as int,
        sync::MAX_PAYLOAD_SIZE_MB as int,
    )
}

/// Maximum sync payload size in bytes (default: 250MB), resolved from the raw
/// value of `MAX_SYNC_PAYLOAD_SIZE_MB`: the size in MB shifted left by 20.
pub fn get_max_payload_size(raw: Option<&str>) -> (bytes: usize)
    ensures
        bytes == payload_size_mb(match raw { Some(s) => Some(s@), None => None }) * 1048576,
        1048576 <= bytes <= 1024 * 1048576,
{
    let size_mb = env_or_default_usize(
        raw,
        sync::DEFAULT_PAYLOAD_SIZE_MB,
        sync::MIN_PAYLOAD_SIZE_MB,
        sync::MAX_PAYLOAD_SIZE_MB,
    );
    proof {
        lemma_resolved_setting_within_bounds(
            match raw { Some(s) => Some(s@), None => None },
            usize::MAX as nat,
            sync::DEFAULT_PAYLOAD_SIZE_MB as int,
            sync::MIN_PAYLOAD_SIZE_MB as int,
            sync::MAX_PAYLOAD_SIZE_MB as int,
        );
    }
    size_mb * 1048576
}

/// Why a sync payload was refused: the HTTP status to answer with and the
/// response body.
pub struct PayloadRejection {
    pub status: u16,
    pub message: String,
}

/// The body that refuses a batch of `count` items.
pub open spec fn batch_too_large_message(count: nat) -> Seq<char> {
    "Batch too large: "@ + nat_decimal(count) + " items (max: "@
        + nat_decimal(sync::MAX_SYNC_ITEMS as nat) + ")"@
}

/// Validates that a sync batch size is within acceptable limits: more than
/// `MAX_SYNC_ITEMS` items are refused with 413 Payload Too Large.
/// `entity_type` names the batch in the caller's log.
pub fn validate_batch_size(item_count: usize, entity_type: &str) -> (r: Result<(), PayloadRejection>)
    ensures
        r is Ok <==> item_count <= sync::MAX_SYNC_ITEMS,
        r matches Err(e) ==> e.status == HTTP_PAYLOAD_TOO_LARGE
            && e.message@ == batch_too_large_message(item_count as nat),
{
    if item_count > sync::MAX_SYNC_ITEMS {
        let mut message = String::new();
        message.append("Batch too large: ");
        append_decimal(&mut message, item_count as u128);
        message.append(" items (max: ");
        append_decimal(&mut message, sync::MAX_SYNC_ITEMS as u128);
        message.append(")");
        proof {
            assert(message@ =~= batch_too_large_message(item_count as nat));
        }
        Err(PayloadRejection { status: HTTP_PAYLOAD_TOO_LARGE, message })
    } else {
        Ok(())
    }
}

/// Payloads that can be validated before they are synced.
pub trait ValidatePayload {
    /// The number of items that the payload carries.
    spec fn spec_item_count(&self) -> nat;

    /// The outcome of validating the payload.
    spec fn spec_validation(&self) -> Result<(), Seq<char>>;

    fn item_count(&self) -> (n: usize)
        requires
            self.spec_item_count() <= usize::MAX,
        ensures
            n == self.spec_item_count(),
    ;

    fn validate(&self) -> (r: Result<(), String>)
        ensures
            outcome_view(r) == self.spec_validation(),
    ;
}

/// Decides on a sync payload of `body_len` bytes, given what parsing its
/// body gave (`Err` carries the parser's message):
/// * a body larger than `max_size` is refused with 413 "Payload too large";
/// * a body that did not parse is refused with 400 "Invalid payload: <error>";
/// * a payload that fails validation is refused with 400 and the validation message;
/// * a payload of more than `MAX_SYNC_ITEMS` items is refused with 413;
/// * any other payload is accepted as it is.
pub fn extract_sync_payload<T: ValidatePayload>(
    body_len: usize,
    max_size: usize,
    parsed: Result<T, String>,
    entity_type: &str,
) -> (r: Result<T, PayloadRejection>)
    requires
        parsed matches Ok(t) ==> t.spec_item_count() <= usize::MAX,
    ensures
        body_len > max_size ==> (r matches Err(e) && e.status == HTTP_PAYLOAD_TOO_LARGE
            && e.message@ == "Payload too large"@),
        body_len <= max_size ==> match parsed {
            Err(m) => (r matches Err(e) && e.status == HTTP_BAD_REQUEST
                && e.message@ == "Invalid payload: "@ + m@),
            Ok(t) => match t.spec_validation() {
                Err(m) => (r matches Err(e) && e.status == HTTP_BAD_REQUEST && e.message@ == m),
                Ok(()) => if t.spec_item_count() > sync::MAX_SYNC_ITEMS {
                    (r matches Err(e) && e.status == HTTP_PAYLOAD_TOO_LARGE
                        && e.message@ == batch_too_large_message(t.spec_item_count()))
                } else {
                    r == Ok::<T, PayloadRejection>(t)
                },
            },
        },
{
    if body_len > max_size {
        return Err(PayloadRejection { status: HTTP_PAYLOAD_TOO_LARGE, message: String::from_str("Payload too large") });
    }
    let data = match parsed {
        Ok(d) => d,
        Err(e) => {
            let mut message = String::new();
            message.append("Invalid payload: ");
            message.append(e.as_str());
            return Err(PayloadRejection { status: HTTP_BAD_REQUEST, message });
        },
    };
    match data.validate() {
        Ok(()) => {},
        Err(e) => {
            return Err(PayloadRejection { status: HTTP_BAD_REQUEST, message: e });
        },
    }
    let item_count = data.item_count();
    match validate_batch_size(item_count, entity_type) {
        Ok(()) => Ok(data),
        Err(e) => Err(e),
    }
}

/// How one character appears in a log line: line breaks and tabs are shown
/// as escapes, NUL characters are dropped.
pub open spec fn log_escape(c: char) -> Seq<char> {
    if c == '\n' {
        seq!['\\', 'n']
    } else if c == '\r' {
        seq!['\\', 'r']
    } else if c == '\t' {
        seq!['\\', 't']
    } else if c == '\0' {
        Seq::empty()
    } else {
        seq![c]
    }
}

/// The escaped form of a whole string.
pub open spec fn log_escape_all(s: Seq<char>) -> Seq<char>
    decreases s.len(),
{
    if s.len() == 0 {
        Seq::empty()
    } else {
        log_escape_all(s.drop_last()) + log_escape(s.last())
    }
}

/// The longest text, in chars, that a sanitized log string keeps.
pub const MAX_LOG_CHARS: usize = 1000;

/// At most the first `n` elements of `s`.
pub open spec fn at_most(s: Seq<char>, n: nat) -> Seq<char> {
    if s.len() <= n { s } else { s.take(n as int) }
}

/// The sanitized form of `s`: escaped, then cut to `MAX_LOG_CHARS` chars.
pub open spec fn sanitized(s: Seq<char>) -> Seq<char> {
    at_most(log_escape_all(s), MAX_LOG_CHARS as nat)
}

/// Sanitizes a string for safe logging: '\n', '\r' and '\t' become the
/// two-character escapes "\n", "\r", "\t", NUL characters are removed, and the
/// result keeps at most its first 1000 chars.
pub fn sanitize_for_log(input: &str) -> (r: String)
    ensures
        r@ == sanitized(input@),
{
    let ghost text = input@;
    let mut out = String::new();
    let mut taken: usize = 0;
    for c in it: input.chars()
        invariant
            it.seq() == text,
            taken as int == out@.len(),
            taken <= MAX_LOG_CHARS,
            out@ == at_most(log_escape_all(text.take(it.index() as int)), MAX_LOG_CHARS as nat),
    {
        let ghost before = log_escape_all(text.take(it.index() as int));
        proof {
            assert(text.take(it.index() + 1).drop_last() =~= text.take(it.index() as int));
            assert(text.take(it.index() + 1).last() == c);
        }
        let ghost after = log_escape_all(text.take(it.index() + 1));
        assert(after == before + log_escape(c));
        if c == '\n' || c == '\r' || c == '\t' {
            let e = if c == '\n' { 'n' } else if c == '\r' { 'r' } else { 't' };
            if taken < MAX_LOG_CHARS {
                push_char(&mut out, '\\');
                taken = taken + 1;
            }
            if taken < MAX_LOG_CHARS {
                push_char(&mut out, e);
                taken = taken + 1;
            }
            proof {
                assert(log_escape(c) =~= seq!['\\', e]);
                if before.len() >= MAX_LOG_CHARS {
                    assert(after.take(MAX_LOG_CHARS as int) =~= before.take(MAX_LOG_CHARS as int));
                } else if before.len() + 1 == MAX_LOG_CHARS {
                    assert(after.take(MAX_LOG_CHARS as int) =~= before.push('\\'));
                } else {
                    assert(after =~= before.push('\\').push(e));
                }
            }
        } else if c == '\0' {
            proof {
                assert(after =~= before);
            }
        } else {
            if taken < MAX_LOG_CHARS {
                push_char(&mut out, c);
                taken = taken + 1;
            }
            proof {
                if before.len() >= MAX_LOG_CHARS {
                    assert(after.take(MAX_LOG_CHARS as int) =~= before.take(MAX_LOG_CHARS as int));
                } else {
                    assert(after =~= before.push(c));
                }
            }
        }
    }
    proof {
        assert(text.take(text.len() as int) =~= text);
    }
    out
}

/// Sanitized text is safe to log: it holds no line break, carriage return,
/// tab or NUL character, and at most 1000 chars.
pub proof fn lemma_sanitized_is_log_safe(s: Seq<char>)
    ensures
        sanitized(s).len() <= MAX_LOG_CHARS,
        forall|i: int| 0 <= i < sanitized(s).len() ==> {
            let c = #[trigger] sanitized(s)[i];
            c != '\n' && c != '\r' && c != '\t' && c != '\0'
        },
{
    lemma_escaped_is_log_safe(s);
}

proof fn lemma_escaped_is_log_safe(s: Seq<char>)
    ensures
        forall|i: int| 0 <= i < log_escape_all(s).len() ==> {
            let c = #[trigger] log_escape_all(s)[i];
            c != '\n' && c != '\r' && c != '\t' && c != '\0'
        },
    decreases s.len(),
{
    if s.len() > 0 {
        lemma_escaped_is_log_safe(s.drop_last());
        let p = log_escape_all(s.drop_last());
        let e = log_escape(s.last());
        assert forall|i: int| 0 <= i < log_escape_all(s).len() implies {
            let c = #[trigger] log_escape_all(s)[i];
            c != '\n' && c != '\r' && c != '\t' && c != '\0'
        } by {
            if i < p.len() {
                assert(log_escape_all(s)[i] == p[i]);
            } else {
                assert(log_escape_all(s)[i] == e[i - p.len()]);
            }
        }
    }
}

/// The text of the line that reports a finished sync.
pub open spec fn sync_complete_message(entity: Seq<char>, success: nat, failed: nat, duration_ms: nat) -> Seq<char> {
    if failed > 0 {
        "[SYNC] "@ + entity + " sync completed: "@ + nat_decimal(success) + " items processed, "@
            + nat_decimal(failed) + " failed in "@ + nat_decimal(duration_ms) + "ms"@
    } else {
        "[SYNC] "@ + entity + " sync completed: "@ + nat_decimal(success) + " items processed in "@
            + nat_decimal(duration_ms) + "ms"@
    }
}

/// The log line that reports a finished sync with structured metrics: a
/// warning when some items failed, information otherwise.
pub fn log_sync_complete(entity_type: &str, success_count: usize, failed_count: usize, duration_ms: u128) -> (line: LogLine)
    ensures
        line.level == (if failed_count > 0 { LogLevel::Warn } else { LogLevel::Info }),
        line.target@ == logging::SYNC_API@,
        line.message@ == sync_complete_message(entity_type@, success_count as nat, failed_count as nat, duration_ms as nat),
{
    let mut message = String::new();
    message.append("[SYNC] ");
    message.append(entity_type);
    message.append(" sync completed: ");
    append_decimal(&mut message, success_count as u128);
    if failed_count > 0 {
        message.append(" items processed, ");
        append_decimal(&mut message, failed_count as u128);
        message.append(" failed in ");
        append_decimal(&mut message, duration_ms);
        message.append("ms");
        proof {
            assert(message@ =~= sync_complete_message(entity_type@, success_count as nat, failed_count as nat, duration_ms as nat));
        }
        LogLine { level: LogLevel::Warn, target: logging::SYNC_API, message }
    } else {
        message.append(" items processed in ");
        append_decimal(&mut message, duration_ms);
        message.append("ms");
        proof {
            assert(message@ =~= sync_complete_message(entity_type@, success_count as nat, failed_count as nat, duration_ms as nat));
        }
        LogLine { level: LogLevel::Info, target: logging::SYNC_API, message }
    }
}

} // verus!
