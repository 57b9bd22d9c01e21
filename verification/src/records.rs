//! Data model of the record store: the registry, the stored record, the
//! validation rules and the error codes they report.

use vstd::prelude::*;
use vstd::string::StrSliceExecFns;
use crate::identity::Identity;

verus! {

/// Most tags one record may carry.
pub const MAX_TAGS: usize = 15;

/// Longest summary, in characters.
pub const MAX_SUMMARY_LEN: usize = 800;

/// Longest category label the store reserves space for; the content of the
/// category is deliberately not validated.
pub const MAX_CATEGORY_LEN: usize = 80;

/// Longest single tag the store reserves space for.
pub const MAX_TAG_LEN: usize = 50;

/// Exact length of a source transaction hash, in characters: a hex-encoded
/// 256-bit digest. The characters themselves are deliberately not checked.
pub const HASH_LEN: usize = 64;

/// The global registry: singleton state holding the identity that created the
/// store and a running count of every record ever created.
#[derive(Clone, Copy, Debug)]
pub struct SummaryStore {
    /// Who created the registry; informational, not an access-control gate.
    pub authority: Identity,
    /// Number of records ever created; the next record's sequence id.
    pub total_summaries: u64,
}

/// One immutable stored record of AI-generated metadata, tied to a source
/// transaction hash and the wallet that submitted it.
#[derive(Clone, Debug)]
pub struct TaggedSummary {
    /// Unique sequential id, assigned from the registry counter at creation.
    pub id: u64,
    /// Hex-encoded digest of the original transaction; exactly 64 characters.
    pub transaction_hash: String,
    /// AI-generated summary, at most `MAX_SUMMARY_LEN` characters.
    pub summary: String,
    /// AI-generated tags, at most `MAX_TAGS` of them, in submitted order.
    pub tags: Vec<String>,
    /// Primary category; free-form short label.
    pub category: String,
    /// AI confidence, 0 to 100 inclusive.
    pub confidence_score: u8,
    /// Seconds since the epoch, from the host's trusted clock at commit time.
    pub timestamp: i64,
    /// The wallet that authorized and paid for this record.
    pub student_wallet: Identity,
}

/// The validation errors a store operation can report, one per rule.
#[derive(Clone, Copy, Debug, PartialEq, Eq, Structural)]
pub enum ErrorCode {
    /// More than `MAX_TAGS` tags were submitted.
    TooManyTags,
    /// The summary is longer than `MAX_SUMMARY_LEN` characters.
    SummaryTooLong,
    /// The confidence score is above 100.
    InvalidConfidence,
    /// The transaction hash is not exactly `HASH_LEN` characters.
    InvalidHash,
}

/// The hash-shape rule: a source hash is exactly `HASH_LEN` characters.
pub open spec fn hash_ok(hash: Seq<char>) -> bool {
    hash.len() == HASH_LEN
}

/// The tag-count rule: at most `MAX_TAGS` tags.
pub open spec fn tags_ok(tags: Seq<String>) -> bool {
    tags.len() <= MAX_TAGS
}

/// The summary-length rule: at most `MAX_SUMMARY_LEN` characters.
pub open spec fn summary_ok(summary: Seq<char>) -> bool {
    summary.len() <= MAX_SUMMARY_LEN
}

/// The confidence-range rule: 0 to 100 inclusive.
pub open spec fn confidence_ok(confidence: u8) -> bool {
    confidence <= 100
}

/// All four validation rules together.
pub open spec fn inputs_ok(
    hash: Seq<char>,
    summary: Seq<char>,
    tags: Seq<String>,
    confidence: u8,
) -> bool {
    hash_ok(hash) && tags_ok(tags) && summary_ok(summary) && confidence_ok(confidence)
}

/// The first violated rule, in the order the rules are applied: hash shape,
/// tag count, summary length, confidence range. The rules are independent, so
/// the order decides only which error is reported when several are violated.
pub open spec fn first_violation(
    hash: Seq<char>,
    summary: Seq<char>,
    tags: Seq<String>,
    confidence: u8,
) -> Result<(), ErrorCode> {
    if !hash_ok(hash) {
        Err(ErrorCode::InvalidHash)
    } else if !tags_ok(tags) {
        Err(ErrorCode::TooManyTags)
    } else if !summary_ok(summary) {
        Err(ErrorCode::SummaryTooLong)
    } else if !confidence_ok(confidence) {
        Err(ErrorCode::InvalidConfidence)
    } else {
        Ok(())
    }
}

/// A record's own fields obey the four validation rules.
pub open spec fn record_fields_ok(record: TaggedSummary) -> bool {
    inputs_ok(record.transaction_hash@, record.summary@, record.tags@, record.confidence_score)
}

/// Checks the four input rules, reporting the first violated one, if any.
pub fn validate_inputs(
    transaction_hash: &str,
    summary: &str,
    tags: &Vec<String>,
    confidence_score: u8,
) -> (r: Result<(), ErrorCode>)
    ensures
        r == first_violation(transaction_hash@, summary@, tags@, confidence_score),
        r is Ok <==> inputs_ok(transaction_hash@, summary@, tags@, confidence_score),
{
    if transaction_hash.unicode_len() != HASH_LEN {
        Err(ErrorCode::InvalidHash)
    } else if tags.len() > MAX_TAGS {
        Err(ErrorCode::TooManyTags)
    } else if summary.unicode_len() > MAX_SUMMARY_LEN {
        Err(ErrorCode::SummaryTooLong)
    } else if confidence_score > 100 {
        Err(ErrorCode::InvalidConfidence)
    } else {
        Ok(())
    }
}

/// Bytes the host must reserve for the registry account: the fixed
/// discriminator, the authority key, and the counter.
pub fn summary_store_space() -> (r: u64)
    ensures
        r == 8 + 32 + 8,
{
    8 + 32 + 8
}

/// Bytes the host must reserve for one record account at creation time:
/// fixed discriminator, id, then each variable-length field at its configured
/// bound plus its length prefix, then confidence, timestamp and wallet key.
pub fn tagged_summary_space() -> (r: u64)
    ensures
        r == 8 + 8 + (4 + HASH_LEN) + (4 + MAX_SUMMARY_LEN) + (4 + (4 + MAX_TAG_LEN) * MAX_TAGS)
            + (4 + MAX_CATEGORY_LEN) + 1 + 8 + 32,
{
    8 + 8 + (4 + 64) + (4 + 800) + (4 + (4 + 50) * 15) + (4 + 80) + 1 + 8 + 32
}

} // verus!
