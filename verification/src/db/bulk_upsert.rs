//! Bulk upsert: the choice of strategy from the server version, the upsert
//! filter, and the bookkeeping of a batch's per-item outcomes.

use vstd::prelude::*;
use crate::config::bulk_upsert;
use crate::config::logging;
use crate::config::{env_or_default_usize, resolve_setting, lemma_resolved_setting_within_bounds};
use crate::diagnostics::{LogLevel, LogLine};
use crate::oid::Oid;
use crate::text::{append_decimal, nat_decimal};

verus! {

/// The chunk size of sequential upserts, resolved from the raw value of
/// `BULK_UPSERT_CHUNK_SIZE`.
pub fn get_chunk_size(raw: Option<&str>) -> (n: usize)
    ensures
        n as int == resolve_setting(
            match raw { Some(s) => Some(s@), None => None },
            usize::MAX as nat,
            bulk_upsert::DEFAULT_CHUNK_SIZE as int,
            bulk_upsert::MIN_CHUNK_SIZE as int,
            bulk_upsert::MAX_CHUNK_SIZE as int,
        ),
        bulk_upsert::MIN_CHUNK_SIZE <= n <= bulk_upsert::MAX_CHUNK_SIZE,
{
    proof {
        lemma_resolved_setting_within_bounds(
            match raw { Some(s) => Some(s@), None => None },
            usize::MAX as nat,
            bulk_upsert::DEFAULT_CHUNK_SIZE as int,
            bulk_upsert::MIN_CHUNK_SIZE as int,
            bulk_upsert::MAX_CHUNK_SIZE as int,
        );
    }
    env_or_default_usize(
        raw,
        bulk_upsert::DEFAULT_CHUNK_SIZE,
        bulk_upsert::MIN_CHUNK_SIZE,
        bulk_upsert::MAX_CHUNK_SIZE,
    )
}

/// The number of concurrent upserts, resolved from the raw value of
/// `BULK_UPSERT_CONCURRENCY`.
pub fn get_concurrency(raw: Option<&str>) -> (n: usize)
    ensures
        n as int == resolve_setting(
            match raw { Some(s) => Some(s@), None => None },
            usize::MAX as nat,
            bulk_upsert::DEFAULT_CONCURRENCY as int,
            bulk_upsert::MIN_CONCURRENCY as int,
            bulk_upsert::MAX_CONCURRENCY as int,
        ),
        bulk_upsert::MIN_CONCURRENCY <= n <= bulk_upsert::MAX_CONCURRENCY,
{
    proof {
        lemma_resolved_setting_within_bounds(
            match raw { Some(s) => Some(s@), None => None },
            usize::MAX as nat,
            bulk_upsert::DEFAULT_CONCURRENCY as int,
            bulk_upsert::MIN_CONCURRENCY as int,
            bulk_upsert::MAX_CONCURRENCY as int,
        );
    }
    env_or_default_usize(
        raw,
        bulk_upsert::DEFAULT_CONCURRENCY,
        bulk_upsert::MIN_CONCURRENCY,
        bulk_upsert::MAX_CONCURRENCY,
    )
}

/// Result of a batch upsert operation
#[derive(Debug, Clone)]
pub struct UpsertBatchResult {
    pub modified_count: usize,
    pub matched_count: usize,
    pub failed_items: Vec<FailedItem>,
}

/// An item whose upsert failed, and why.
#[derive(Debug, Clone)]
pub struct FailedItem {
    pub id: i64,
    pub error: String,
}

impl FailedItem {
    /// The failure of an item that could not be turned into a document.
    pub fn serialization(id: i64, error: &str) -> (r: FailedItem)
        ensures
            r.id == id,
            r.error@ == "Serialization: "@ + error@,
    {
        let mut text = String::from_str("Serialization: ");
        text.append(error);
        FailedItem { id, error: text }
    }
}

/// What upserting one item gave.
pub enum UpsertOutcome {
    /// The update ran; it modified and matched these numbers of documents.
    Applied { modified: u64, matched: u64 },
    /// The item could not be upserted.
    Failed(FailedItem),
}

/// The documents modified over a sequence of outcomes.
pub open spec fn total_modified(s: Seq<UpsertOutcome>) -> nat
    decreases s.len(),
{
    if s.len() == 0 {
        0
    } else {
        total_modified(s.drop_last()) + match s.last() {
            UpsertOutcome::Applied { modified, matched } => modified as nat,
            UpsertOutcome::Failed(_) => 0nat,
        }
    }
}

/// The documents matched over a sequence of outcomes.
pub open spec fn total_matched(s: Seq<UpsertOutcome>) -> nat
    decreases s.len(),
{
    if s.len() == 0 {
        0
    } else {
        total_matched(s.drop_last()) + match s.last() {
            UpsertOutcome::Applied { modified, matched } => matched as nat,
            UpsertOutcome::Failed(_) => 0nat,
        }
    }
}

/// The failed items of a sequence of outcomes, in order.
pub open spec fn failures(s: Seq<UpsertOutcome>) -> Seq<FailedItem>
    decreases s.len(),
{
    if s.len() == 0 {
        Seq::empty()
    } else {
        failures(s.drop_last()) + match s.last() {
            UpsertOutcome::Applied { modified, matched } => Seq::<FailedItem>::empty(),
            UpsertOutcome::Failed(f) => seq![f],
        }
    }
}

impl UpsertBatchResult {
    /// The result of upserting no item.
    pub fn empty() -> (r: UpsertBatchResult)
        ensures
            r.modified_count == 0,
            r.matched_count == 0,
            r.failed_items@.len() == 0,
    {
        UpsertBatchResult { modified_count: 0, matched_count: 0, failed_items: Vec::new() }
    }

    /// Sums the outcomes of the items of a batch: the modified and matched
    /// documents of the updates that ran, and the failed items in order.
    pub fn from_outcomes(outcomes: Vec<UpsertOutcome>) -> (r: UpsertBatchResult)
        requires
            total_modified(outcomes@) <= usize::MAX,
            total_matched(outcomes@) <= usize::MAX,
        ensures
            r.modified_count == total_modified(outcomes@),
            r.matched_count == total_matched(outcomes@),
            r.failed_items@ == failures(outcomes@),
    {
        let ghost all = outcomes@;
        let mut modified_count: usize = 0;
        let mut matched_count: usize = 0;
        let mut failed_items: Vec<FailedItem> = Vec::new();
        for outcome in it: outcomes
            invariant
                it.seq() == all,
                total_modified(all) <= usize::MAX,
                total_matched(all) <= usize::MAX,
                modified_count == total_modified(all.take(it.index() as int)),
                matched_count == total_matched(all.take(it.index() as int)),
                failed_items@ == failures(all.take(it.index() as int)),
        {
            proof {
                assert(all.take(it.index() + 1).drop_last() =~= all.take(it.index() as int));
                assert(all.take(it.index() + 1).last() == outcome);
                lemma_totals_prefix(all, it.index() + 1);
            }
            match outcome {
                UpsertOutcome::Applied { modified, matched } => {
                    modified_count = modified_count + modified as usize;
                    matched_count = matched_count + matched as usize;
                },
                UpsertOutcome::Failed(f) => {
                    failed_items.push(f);
                },
            }
            proof {
                assert(failed_items@ =~= failures(all.take(it.index() + 1)));
            }
        }
        proof {
            assert(all.take(all.len() as int) =~= all);
        }
        UpsertBatchResult { modified_count, matched_count, failed_items }
    }
}

/// Whether the modified and matched totals of a sequence of outcomes fit a
/// `usize`, as `UpsertBatchResult::from_outcomes` needs.
pub fn total_counts_fit(outcomes: &Vec<UpsertOutcome>) -> (r: bool)
    ensures
        r == (total_modified(outcomes@) <= usize::MAX && total_matched(outcomes@) <= usize::MAX),
{
    let ghost all = outcomes@;
    let mut modified_count: usize = 0;
    let mut matched_count: usize = 0;
    let mut i: usize = 0;
    while i < outcomes.len()
        invariant
            all == outcomes@,
            0 <= i <= all.len(),
            modified_count == total_modified(all.take(i as int)),
            matched_count == total_matched(all.take(i as int)),
        decreases all.len() - i,
    {
        proof {
            assert(all.take(i + 1).drop_last() =~= all.take(i as int));
            assert(all.take(i + 1).last() == all[i as int]);
            lemma_totals_prefix(all, i + 1);
        }
        match &outcomes[i] {
            UpsertOutcome::Applied { modified, matched } => {
                if *modified as u128 > (usize::MAX - modified_count) as u128
                    || *matched as u128 > (usize::MAX - matched_count) as u128 {
                    return false;
                }
                modified_count = modified_count + *modified as usize;
                matched_count = matched_count + *matched as usize;
            },
            UpsertOutcome::Failed(_) => {},
        }
        i = i + 1;
    }
    proof {
        assert(all.take(all.len() as int) =~= all);
    }
    true
}

proof fn lemma_totals_prefix(s: Seq<UpsertOutcome>, k: int)
    requires
        0 <= k <= s.len(),
    ensures
        total_modified(s.take(k)) <= total_modified(s),
        total_matched(s.take(k)) <= total_matched(s),
    decreases s.len() - k,
{
    if k < s.len() {
        lemma_totals_prefix(s, k + 1);
        assert(s.take(k + 1).drop_last() =~= s.take(k));
    } else {
        assert(s.take(k) =~= s);
    }
}

/// The documents that one outcome modified.
pub open spec fn outcome_modified(o: UpsertOutcome) -> nat {
    match o {
        UpsertOutcome::Applied { modified, matched } => modified as nat,
        UpsertOutcome::Failed(_) => 0nat,
    }
}

/// The documents that one outcome matched.
pub open spec fn outcome_matched(o: UpsertOutcome) -> nat {
    match o {
        UpsertOutcome::Applied { modified, matched } => matched as nat,
        UpsertOutcome::Failed(_) => 0nat,
    }
}

/// The failed item of one outcome, if any.
pub open spec fn outcome_failure(o: UpsertOutcome) -> Seq<FailedItem> {
    match o {
        UpsertOutcome::Applied { modified, matched } => Seq::<FailedItem>::empty(),
        UpsertOutcome::Failed(f) => seq![f],
    }
}

proof fn lemma_outcomes_step(s: Seq<UpsertOutcome>)
    requires
        s.len() > 0,
    ensures
        total_modified(s) == total_modified(s.drop_last()) + outcome_modified(s.last()),
        total_matched(s) == total_matched(s.drop_last()) + outcome_matched(s.last()),
        failures(s) == failures(s.drop_last()) + outcome_failure(s.last()),
{
}

/// Taking one outcome out of a sequence takes its share out of the totals
/// and its failure out of the failures.
proof fn lemma_outcomes_remove(s: Seq<UpsertOutcome>, j: int)
    requires
        0 <= j < s.len(),
    ensures
        total_modified(s) == total_modified(s.remove(j)) + outcome_modified(s[j]),
        total_matched(s) == total_matched(s.remove(j)) + outcome_matched(s[j]),
        failures(s).to_multiset() == failures(s.remove(j)).to_multiset().add(outcome_failure(s[j]).to_multiset()),
    decreases s.len(),
{
    broadcast use vstd::seq_lib::lemma_multiset_commutative;
    lemma_outcomes_step(s);
    let t = s.drop_last();
    if j == s.len() - 1 {
        assert(s.remove(j) =~= t);
    } else {
        lemma_outcomes_remove(t, j);
        let r = s.remove(j);
        assert(r.drop_last() =~= t.remove(j));
        assert(r.last() == s.last());
        assert(s[j] == t[j]);
        lemma_outcomes_step(r);
        let a = failures(t.remove(j)).to_multiset();
        let b = outcome_failure(s[j]).to_multiset();
        let c = outcome_failure(s.last()).to_multiset();
        assert(failures(s).to_multiset() == failures(t).to_multiset().add(c));
        assert(failures(r).to_multiset() == a.add(c));
        assert(failures(s).to_multiset() =~= failures(r).to_multiset().add(b)) by {
            broadcast use vstd::multiset::group_multiset_axioms;
            assert(a.add(b).add(c) =~= a.add(c).add(b));
        }
    }
}

/// The result of a batch does not depend on the order in which the outcomes
/// of its items arrive: two sequences of the same outcomes, in any order,
/// give the same modified and matched totals and the same failed items (as a
/// multiset). So the concurrent strategy, whose outcomes arrive in
/// completion order, reports what the sequential one reports for the same
/// outcomes.
pub proof fn lemma_outcomes_order_irrelevant(s1: Seq<UpsertOutcome>, s2: Seq<UpsertOutcome>)
    requires
        s1.to_multiset() == s2.to_multiset(),
    ensures
        total_modified(s1) == total_modified(s2),
        total_matched(s1) == total_matched(s2),
        failures(s1).to_multiset() == failures(s2).to_multiset(),
    decreases s1.len(),
{
    broadcast use vstd::seq_lib::group_to_multiset_ensures;
    broadcast use vstd::multiset::group_multiset_axioms;
    if s1.len() == 0 {
        assert(s2.to_multiset().len() == 0);
        assert(s2 =~= Seq::<UpsertOutcome>::empty());
        assert(s1 =~= Seq::<UpsertOutcome>::empty());
    } else {
        let x = s1.last();
        let p = s1.drop_last();
        assert(p.push(x) =~= s1);
        assert(s1.to_multiset() == p.to_multiset().insert(x));
        assert(s2.to_multiset().count(x) > 0);
        assert(s2.contains(x));
        let j = choose|j: int| 0 <= j < s2.len() && s2[j] == x;
        let r = s2.remove(j);
        assert(r.to_multiset() == s2.to_multiset().remove(x));
        assert(p.to_multiset() =~= p.to_multiset().insert(x).remove(x));
        lemma_outcomes_order_irrelevant(p, r);
        lemma_outcomes_remove(s2, j);
        lemma_outcomes_step(s1);
        assert(failures(s1).to_multiset() == failures(p).to_multiset().add(outcome_failure(x).to_multiset())) by {
            broadcast use vstd::seq_lib::lemma_multiset_commutative;
        }
    }
}

/// The filter of an item's upsert: the item's ID and owner, and a stored
/// timestamp older than the item's, so that an upsert overwrites only older
/// data.
#[derive(PartialEq, Eq, Structural, Clone, Copy, Debug)]
pub struct UpsertFilter {
    pub id: i64,
    pub user: Oid,
    pub updated_before: i64,
}

impl UpsertFilter {
    /// The filter of the upsert of the item with key `(id, updated_at)`.
    pub fn for_item(user: Oid, id: i64, updated_at: i64) -> (f: UpsertFilter)
        ensures
            f.id == id,
            f.user == user,
            f.updated_before == updated_at,
    {
        UpsertFilter { id, user, updated_before: updated_at }
    }
}

/// A server version: its major, minor and patch numbers.
#[derive(PartialEq, Eq, Structural, Clone, Copy, Debug)]
pub struct ServerVersion {
    pub major: u64,
    pub minor: u64,
    pub patch: u64,
}

/// What `semver::Version::parse` gives for a version text: the (major,
/// minor, patch) numbers that it reads, or the text of the error with which
/// it refuses the version text.
pub uninterp spec fn semver_parse(text: Seq<char>) -> Result<(u64, u64, u64), Seq<char>>;

/// Parses a semantic version with `semver::Version::parse`.
///
/// Trusted: the result is success exactly when the parse succeeds, with its
/// major, minor and patch numbers, and otherwise the text of the parser's
/// error; both are functions of the text alone. An empty text is refused
/// (the parser's first check).
#[verifier::external_body]
fn parse_semver(text: &str) -> (r: Result<ServerVersion, String>)
    ensures
        r is Ok <==> semver_parse(text@) is Ok,
        r matches Ok(v) ==> (semver_parse(text@) matches Ok(p) && p == (v.major, v.minor, v.patch)),
        r matches Err(e) ==> (semver_parse(text@) matches Err(m) && m == e@),
        text@.len() == 0 ==> r is Err,
{
    match semver::Version::parse(text) {
        Ok(v) => Ok(ServerVersion { major: v.major, minor: v.minor, patch: v.patch }),
        Err(e) => Err(e.to_string()),
    }
}

/// How the MongoDB driver prints a custom error that carries `message`.
pub open spec fn custom_error_display(message: Seq<char>) -> Seq<char> {
    "Kind: Custom user error: "@ + message + ", labels: {}, source: None, server response: None"@
}

/// The text of a custom error of the MongoDB driver that carries `message`
/// (`mongodb::error::Error::custom`, then its `Display`).
///
/// Trusted: the driver prints the kind as "Custom user error: <message>", the
/// empty set of labels that a custom error starts with, and no source and no
/// server response (the driver is built without its `error-backtrace`
/// feature, which would append a backtrace).
#[verifier::external_body]
fn custom_error_text(message: String) -> (r: String)
    ensures
        r@ == custom_error_display(message@),
{
    mongodb::error::Error::custom(message).to_string()
}

/// Bulk upserter that selects the best strategy based on MongoDB version
#[derive(Clone, Copy, Debug, PartialEq, Eq, Structural)]
pub enum BulkUpserter {
    /// One update after another, in chunks.
    Legacy,
    /// Concurrent updates (MongoDB 8 and later).
    V8,
}

/// The strategy for a server whose version text was fetched (`Ok`) or could
/// not be fetched (`Err`): parallel updates from major version 8 on,
/// sequential updates otherwise and whenever the version is unknown.
pub open spec fn strategy_for(fetched: Result<Seq<char>, Seq<char>>) -> BulkUpserter {
    match fetched {
        Ok(text) => match semver_parse(text) {
            Ok(v) => if v.0 >= 8 { BulkUpserter::V8 } else { BulkUpserter::Legacy },
            Err(_) => BulkUpserter::Legacy,
        },
        Err(_) => BulkUpserter::Legacy,
    }
}

/// The strategy depends on the major version alone: a version text that
/// parses selects the parallel strategy exactly when its major number is at
/// least 8, whatever its minor and patch numbers; a text that does not
/// parse, or a version that could not be fetched, selects the sequential
/// strategy.
pub proof fn lemma_strategy_by_major(fetched: Result<Seq<char>, Seq<char>>)
    ensures
        (strategy_for(fetched) == BulkUpserter::V8) <==> (fetched matches Ok(t) && semver_parse(t) matches Ok(v) && v.0 >= 8),
        strategy_for(fetched) == BulkUpserter::V8 || strategy_for(fetched) == BulkUpserter::Legacy,
{
}

impl BulkUpserter {
    /// Chooses the upsert strategy from the server version that was fetched
    /// (`Ok` with its text) or could not be fetched (`Err` with the reason),
    /// and composes the line that reports the choice.
    pub fn detect(fetched: Result<String, String>) -> (r: (BulkUpserter, LogLine))
        ensures
            r.0 == strategy_for(match fetched { Ok(t) => Ok(t@), Err(e) => Err(e@) }),
            (r.0 == BulkUpserter::V8) <==> (fetched matches Ok(t) && semver_parse(t@) matches Ok(v) && v.0 >= 8),
            r.1.target@ == logging::SYNC_API@,
            match fetched {
                Ok(t) => match semver_parse(t@) {
                    Ok(_) => r.1.level == LogLevel::Info && r.1.message@ == "MongoDB "@ + t@ + (if r.0 == BulkUpserter::V8 {
                        " detected - using parallel update mode"@
                    } else {
                        " detected - using sequential update mode"@
                    }),
                    Err(reason) => r.1.level == LogLevel::Warn
                        && r.1.message@ == "Failed to detect MongoDB version ("@
                            + custom_error_display("Parse error: "@ + reason) + "), using legacy mode"@,
                },
                Err(e) => r.1.level == LogLevel::Warn
                    && r.1.message@ == "Failed to detect MongoDB version ("@ + e@ + "), using legacy mode"@,
            },
    {
        match fetched {
            Ok(text) => match parse_semver(text.as_str()) {
                Ok(version) => {
                    let mut message = String::from_str("MongoDB ");
                    message.append(text.as_str());
                    if version.major >= 8 {
                        message.append(" detected - using parallel update mode");
                        (BulkUpserter::V8, LogLine { level: LogLevel::Info, target: logging::SYNC_API, message })
                    } else {
                        message.append(" detected - using sequential update mode");
                        (BulkUpserter::Legacy, LogLine { level: LogLevel::Info, target: logging::SYNC_API, message })
                    }
                },
                Err(e) => {
                    let mut reason = String::from_str("Parse error: ");
                    reason.append(e.as_str());
                    let ghost reason_text = reason@;
                    let shown = custom_error_text(reason);
                    let mut message = String::from_str("Failed to detect MongoDB version (");
                    message.append(shown.as_str());
                    message.append("), using legacy mode");
                    assert(reason_text == "Parse error: "@ + e@);
                    assert(message@ == "Failed to detect MongoDB version ("@ + custom_error_display("Parse error: "@ + e@)
                        + "), using legacy mode"@);
                    (BulkUpserter::Legacy, LogLine { level: LogLevel::Warn, target: logging::SYNC_API, message })
                },
            },
            Err(e) => {
                let mut message = String::from_str("Failed to detect MongoDB version (");
                message.append(e.as_str());
                message.append("), using legacy mode");
                (BulkUpserter::Legacy, LogLine { level: LogLevel::Warn, target: logging::SYNC_API, message })
            },
        }
    }
}

/// The text that reports a batch of `total` items of which `failed` failed.
pub open spec fn batch_failures_message(strategy: BulkUpserter, failed: nat, total: nat) -> Seq<char> {
    (if strategy == BulkUpserter::V8 { "Parallel upsert: "@ } else { "Legacy upsert: "@ })
        + nat_decimal(failed) + " failures out of "@ + nat_decimal(total)
}

/// The line that reports a finished batch of `total` items: a warning that
/// counts the failures when there are any; otherwise, for the parallel
/// strategy, information that counts the items, and for the sequential one
/// no line.
pub fn upsert_report(strategy: BulkUpserter, failed: usize, total: usize) -> (r: Option<LogLine>)
    ensures
        failed > 0 ==> (r matches Some(line) && line.level == LogLevel::Warn
            && line.target@ == logging::SYNC_API@
            && line.message@ == batch_failures_message(strategy, failed as nat, total as nat)),
        failed == 0 && strategy == BulkUpserter::V8 ==> (r matches Some(line) && line.level == LogLevel::Info
            && line.target@ == logging::SYNC_API@
            && line.message@ == "Parallel upsert: "@ + nat_decimal(total as nat) + " items processed"@),
        failed == 0 && strategy == BulkUpserter::Legacy ==> r is None,
{
    if failed > 0 {
        let mut message = match strategy {
            BulkUpserter::V8 => String::from_str("Parallel upsert: "),
            BulkUpserter::Legacy => String::from_str("Legacy upsert: "),
        };
        append_decimal(&mut message, failed as u128);
        message.append(" failures out of ");
        append_decimal(&mut message, total as u128);
        proof {
            assert(message@ =~= batch_failures_message(strategy, failed as nat, total as nat));
        }
        Some(LogLine { level: LogLevel::Warn, target: logging::SYNC_API, message })
    } else {
        match strategy {
            BulkUpserter::V8 => {
                let mut message = String::from_str("Parallel upsert: ");
                append_decimal(&mut message, total as u128);
                message.append(" items processed");
                Some(LogLine { level: LogLevel::Info, target: logging::SYNC_API, message })
            },
            BulkUpserter::Legacy => None,
        }
    }
}

} // verus!
