use crate::text::{utc_from_unix, utc_representable};
use std::collections::HashMap;
use vstd::prelude::*;

verus! {

/// A UTC instant: whole seconds since the Unix epoch plus a sub-second
/// nanosecond part, always one that the calendar library can represent.
#[derive(Clone, Copy, Debug, PartialEq, Eq)]
pub struct Timestamp {
    seconds: i64,
    nanos: u32,
}

impl Timestamp {
    #[verifier::type_invariant]
    spec fn representable(self) -> bool {
        self.wf()
    }

    /// A sub-second part below two seconds' worth of nanoseconds (a leap
    /// second may use the second one) and an instant chrono can represent.
    pub open spec fn wf(self) -> bool {
        &&& self.spec_nanos() < 2_000_000_000
        &&& utc_representable(self.spec_seconds() as int, self.spec_nanos() as int)
    }

    pub closed spec fn spec_seconds(self) -> i64 {
        self.seconds
    }

    pub closed spec fn spec_nanos(self) -> u32 {
        self.nanos
    }

    /// The instant `seconds` after the epoch plus `nanos` nanoseconds, or
    /// `None` where no such instant can be represented.
    pub fn from_unix(seconds: i64, nanos: u32) -> (r: Option<Timestamp>)
        ensures
            r is Some <==> utc_representable(seconds as int, nanos as int),
            r matches Some(t) ==> t.spec_seconds() == seconds && t.spec_nanos() == nanos,
    {
        match utc_from_unix(seconds, nanos) {
            Some(_) => Some(Timestamp { seconds, nanos }),
            None => None,
        }
    }

    /// Builds an instant already known to be representable.
    pub(crate) fn from_representable(seconds: i64, nanos: u32) -> (r: Timestamp)
        requires
            nanos < 2_000_000_000,
            utc_representable(seconds as int, nanos as int),
        ensures
            r.spec_seconds() == seconds,
            r.spec_nanos() == nanos,
    {
        Timestamp { seconds, nanos }
    }

    pub fn seconds(&self) -> (r: i64)
        ensures
            r == self.spec_seconds(),
    {
        self.seconds
    }

    pub fn nanos(&self) -> (r: u32)
        ensures
            r == self.spec_nanos(),
            self.wf(),
    {
        proof {
            use_type_invariant(self);
        }
        self.nanos
    }
}

/// What is known of a stored object. Absent values are `None`, never an
/// empty string.
#[derive(Debug, Clone, PartialEq)]
pub struct Metadata {
    pub content_type: Option<String>,
    pub content_encoding: Option<String>,
    pub size: i64,
    pub last_modified: Option<Timestamp>,
    pub etag: Option<String>,
    pub custom: HashMap<String, String>,
}

/// An optional text that is either absent or non-empty.
pub open spec fn no_empty_text(t: Option<String>) -> bool {
    t matches Some(s) ==> s@.len() > 0
}

/// The characters of an optional text.
pub open spec fn text_view(t: Option<String>) -> Option<Seq<char>> {
    match t {
        Some(s) => Some(s@),
        None => None,
    }
}

impl Metadata {
    /// Absence is `None` throughout: no optional field holds an empty string.
    pub open spec fn normalized(&self) -> bool {
        &&& no_empty_text(self.content_type)
        &&& no_empty_text(self.content_encoding)
        &&& no_empty_text(self.etag)
    }

    /// The zero value: nothing set, size 0, no custom entries.
    pub open spec fn is_zero(&self) -> bool {
        &&& self.content_type is None
        &&& self.content_encoding is None
        &&& self.size == 0
        &&& self.last_modified is None
        &&& self.etag is None
        &&& self.custom@ == Map::<String, String>::empty()
    }
}

impl Default for Metadata {
    fn default() -> (r: Metadata)
        ensures
            r.is_zero(),
    {
        Metadata {
            content_type: None,
            content_encoding: None,
            size: 0,
            last_modified: None,
            etag: None,
            custom: HashMap::new(),
        }
    }
}

/// An object key with a snapshot of its metadata.
#[derive(Debug, Clone)]
pub struct ObjectInfo {
    pub key: String,
    pub metadata: Metadata,
}

/// Outcome of storing an object.
#[derive(Debug, Clone)]
pub struct PutResponse {
    pub success: bool,
    pub message: Option<String>,
    pub etag: Option<String>,
}

/// Outcome of deleting an object.
#[derive(Debug, Clone)]
pub struct DeleteResponse {
    pub success: bool,
    pub message: Option<String>,
}

/// Parameters of a listing: key prefix, grouping delimiter, a cap on the
/// number of results and a continuation token, each optional.
#[derive(Debug, Clone)]
pub struct ListRequest {
    pub prefix: Option<String>,
    pub delimiter: Option<String>,
    pub max_results: Option<i32>,
    pub continue_from: Option<String>,
}

impl Default for ListRequest {
    fn default() -> (r: ListRequest)
        ensures
            r.prefix is None,
            r.delimiter is None,
            r.max_results is None,
            r.continue_from is None,
    {
        ListRequest { prefix: None, delimiter: None, max_results: None, continue_from: None }
    }
}

/// One page of a listing.
#[derive(Debug, Clone)]
pub struct ListResponse {
    pub objects: Vec<ObjectInfo>,
    pub common_prefixes: Vec<String>,
    pub next_token: Option<String>,
    pub truncated: bool,
}

/// How a server reports its own state.
#[derive(Debug, Clone, Copy, PartialEq, Eq, Structural)]
pub enum HealthStatus {
    Unknown,
    Serving,
    NotServing,
}

/// A server's health with an optional message.
#[derive(Debug, Clone)]
pub struct HealthResponse {
    pub status: HealthStatus,
    pub message: Option<String>,
}

/// A rule that deletes or archives objects under a prefix once they are
/// older than the retention period.
#[derive(Debug, Clone)]
pub struct LifecyclePolicy {
    pub id: String,
    pub prefix: String,
    pub retention_seconds: i64,
    pub action: String,
    pub destination_type: Option<String>,
    pub destination_settings: HashMap<String, String>,
}

/// Encryption settings of one storage layer.
#[derive(Debug, Clone)]
pub struct EncryptionConfig {
    pub enabled: bool,
    pub provider: String,
    pub default_key: String,
}

/// Encryption settings for each layer of a replication.
#[derive(Debug, Clone)]
pub struct EncryptionPolicy {
    pub backend: Option<EncryptionConfig>,
    pub source: Option<EncryptionConfig>,
    pub destination: Option<EncryptionConfig>,
}

/// Whether replicated objects stay directly readable at the destination.
#[derive(Debug, Clone, Copy, PartialEq, Eq, Structural)]
pub enum ReplicationMode {
    Transparent,
    Opaque,
}

/// A rule that keeps copying objects from one backend to another.
#[derive(Debug, Clone)]
pub struct ReplicationPolicy {
    pub id: String,
    pub source_backend: String,
    pub source_settings: HashMap<String, String>,
    pub source_prefix: String,
    pub destination_backend: String,
    pub destination_settings: HashMap<String, String>,
    pub check_interval_seconds: i64,
    pub last_sync_time: Option<Timestamp>,
    pub enabled: bool,
    pub encryption: Option<EncryptionPolicy>,
    pub replication_mode: ReplicationMode,
}

/// Counters of one replication run.
#[derive(Debug, Clone)]
pub struct SyncResult {
    pub policy_id: String,
    pub synced: i32,
    pub deleted: i32,
    pub failed: i32,
    pub bytes_total: i64,
    pub duration_ms: i64,
    pub errors: Vec<String>,
}

/// Running totals of a replication policy.
#[derive(Debug, Clone)]
pub struct ReplicationStatus {
    pub policy_id: String,
    pub source_backend: String,
    pub destination_backend: String,
    pub enabled: bool,
    pub total_objects_synced: i64,
    pub total_objects_deleted: i64,
    pub total_bytes_synced: i64,
    pub total_errors: i64,
    pub last_sync_time: Option<Timestamp>,
    pub average_sync_duration_ms: i64,
    pub sync_count: i64,
}

/// A copy of an optional text.
pub fn copy_text(t: &Option<String>) -> (r: Option<String>)
    ensures
        r == *t,
{
    match t {
        Some(s) => Some(s.clone()),
        None => None,
    }
}

} // verus!
