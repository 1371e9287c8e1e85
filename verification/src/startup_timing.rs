//! What is logged of the metadata requests that a client makes when it starts.
use vstd::prelude::*;

verus! {

/// How a metadata request was served.
#[derive(Clone, Copy, Debug, PartialEq, Eq, Structural)]
pub enum MetadataSource {
    Local,
    Cached,
    Upstream,
    Merged,
}

impl MetadataSource {
    /// The label of the source.
    pub open spec fn label(self) -> Seq<char> {
        match self {
            MetadataSource::Local => "local"@,
            MetadataSource::Cached => "cached"@,
            MetadataSource::Upstream => "upstream"@,
            MetadataSource::Merged => "merged"@,
        }
    }

    /// The label of the source.
    pub fn as_str(self) -> (r: &'static str)
        ensures
            r@ == self.label(),
    {
        match self {
            MetadataSource::Local => "local",
            MetadataSource::Cached => "cached",
            MetadataSource::Upstream => "upstream",
            MetadataSource::Merged => "merged",
        }
    }
}

/// What is logged of one request. Neither credentials nor bodies are part of it.
#[derive(Debug, PartialEq, Eq)]
pub struct MetadataRecord {
    pub path: String,
    pub source: &'static str,
    pub total_ms: u64,
    pub upstream_ms: Option<u64>,
    pub cache_hit: Option<bool>,
    pub cache_age_ms: Option<u64>,
}

/// The value of a [`MetadataRecord`].
pub struct RecordView {
    pub path: Seq<char>,
    pub source: Seq<char>,
    pub total_ms: u64,
    pub upstream_ms: Option<u64>,
    pub cache_hit: Option<bool>,
    pub cache_age_ms: Option<u64>,
}

impl View for MetadataRecord {
    type V = RecordView;

    open spec fn view(&self) -> RecordView {
        RecordView {
            path: self.path@,
            source: self.source@,
            total_ms: self.total_ms,
            upstream_ms: self.upstream_ms,
            cache_hit: self.cache_hit,
            cache_age_ms: self.cache_age_ms,
        }
    }
}

/// The low half of a number of milliseconds, which is all of it for any span that passes.
pub open spec fn low_half(millis: u128) -> u64 {
    (millis % 0x1_0000_0000_0000_0000) as u64
}

/// The low half of an optional number of milliseconds.
pub open spec fn optional_low_half(millis: Option<u128>) -> Option<u64> {
    match millis {
        Some(millis) => Some(low_half(millis)),
        None => None,
    }
}

fn truncate(millis: u128) -> (r: u64)
    ensures
        r == low_half(millis),
{
    (millis % 0x1_0000_0000_0000_0000) as u64
}

fn truncate_optional(millis: Option<u128>) -> (r: Option<u64>)
    ensures
        r == optional_low_half(millis),
{
    match millis {
        Some(millis) => Some(truncate(millis)),
        None => None,
    }
}

/// What is logged of one request: how it was served, how long it took in milliseconds, and what
/// came of the cache.
pub fn log_metadata(
    path: &str,
    source: MetadataSource,
    total_ms: u128,
    upstream_ms: Option<u128>,
    cache_hit: Option<bool>,
    cache_age_ms: Option<u128>,
) -> (r: MetadataRecord)
    ensures
        r@ == (RecordView {
            path: path@,
            source: source.label(),
            total_ms: low_half(total_ms),
            upstream_ms: optional_low_half(upstream_ms),
            cache_hit,
            cache_age_ms: optional_low_half(cache_age_ms),
        }),
{
    MetadataRecord {
        path: path.to_owned(),
        source: source.as_str(),
        total_ms: truncate(total_ms),
        upstream_ms: truncate_optional(upstream_ms),
        cache_hit,
        cache_age_ms: truncate_optional(cache_age_ms),
    }
}

/// The label of each source.
pub proof fn law_sources_have_their_labels()
    ensures
        MetadataSource::Local.label() == "local"@,
        MetadataSource::Cached.label() == "cached"@,
        MetadataSource::Upstream.label() == "upstream"@,
        MetadataSource::Merged.label() == "merged"@,
{
}

/// A span is logged as it is where it fits in the record, and as what is left of it by whole turns
/// of the counter where it does not. What was not measured is not logged.
pub proof fn law_spans_are_logged_as_they_are(millis: u128)
    ensures
        millis < 0x1_0000_0000_0000_0000 ==> low_half(millis) == millis,
        exists|turns: int| millis == low_half(millis) + #[trigger] (turns * 0x1_0000_0000_0000_0000),
        optional_low_half(Some(millis)) == Some(low_half(millis)),
        optional_low_half(None) is None,
{
    let turns = millis as int / 0x1_0000_0000_0000_0000;
    assert(millis == low_half(millis) + turns * 0x1_0000_0000_0000_0000);
}

} // verus!
