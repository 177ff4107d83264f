use crate::error::Error;
use crate::http::{copy_texts, instant_parts};
use crate::text::{utc_default, utc_from_unix, utc_representable};
use crate::types::{
    copy_text, DeleteResponse, EncryptionConfig, EncryptionPolicy, HealthResponse, HealthStatus,
    LifecyclePolicy, ListRequest, ListResponse, Metadata, ObjectInfo, PutResponse,
    ReplicationMode, ReplicationPolicy, ReplicationStatus, SyncResult, Timestamp,
};
use std::collections::HashMap;
use vstd::prelude::*;

verus! {

/// An instant as the gRPC API carries it: seconds and nanoseconds.
#[derive(Debug, Clone, Copy, PartialEq, Eq)]
pub struct WireTimestamp {
    pub seconds: i64,
    pub nanos: i32,
}

/// Metadata as the gRPC API carries it: absent texts are empty strings.
#[derive(Debug, Clone)]
pub struct WireMetadata {
    pub content_type: String,
    pub content_encoding: String,
    pub size: i64,
    pub last_modified: Option<WireTimestamp>,
    pub etag: String,
    pub custom: HashMap<String, String>,
}

/// A text with the empty string read as absent.
pub open spec fn nonempty(s: String) -> Option<String> {
    if s@.len() == 0 {
        None
    } else {
        Some(s)
    }
}

/// An optional text with absence written as the empty string.
pub open spec fn text_or_empty(t: Option<String>) -> Seq<char> {
    match t {
        Some(s) => s@,
        None => Seq::empty(),
    }
}

/// The instant a wire timestamp stands for: itself where chrono can
/// represent it, else the Unix epoch.
pub open spec fn wire_instant(w: WireTimestamp) -> (i64, u32) {
    if w.nanos >= 0 && utc_representable(w.seconds as int, w.nanos as int) {
        (w.seconds, w.nanos as u32)
    } else {
        (0i64, 0u32)
    }
}

/// The instant of an optional wire timestamp.
pub open spec fn wire_instant_of(w: Option<WireTimestamp>) -> Option<(i64, u32)> {
    match w {
        Some(t) => Some(wire_instant(t)),
        None => None,
    }
}

/// The wire form of an optional instant.
pub open spec fn wire_timestamp_of(t: Option<Timestamp>) -> Option<WireTimestamp> {
    match t {
        Some(x) => Some(WireTimestamp { seconds: x.spec_seconds(), nanos: x.spec_nanos() as i32 }),
        None => None,
    }
}

fn text_of(s: &String) -> (r: Option<String>)
    ensures
        r == nonempty(*s),
{
    if s.as_str().is_empty() {
        None
    } else {
        Some(s.clone())
    }
}

fn text_or_blank(t: &Option<String>) -> (r: String)
    ensures
        r@ == text_or_empty(*t),
{
    match t {
        Some(s) => s.clone(),
        None => String::new(),
    }
}

/// The instant a wire timestamp stands for.
pub fn timestamp_from_wire(w: WireTimestamp) -> (r: Timestamp)
    ensures
        (r.spec_seconds(), r.spec_nanos()) == wire_instant(w),
{
    if w.nanos >= 0 {
        match utc_from_unix(w.seconds, w.nanos as u32) {
            Some((seconds, nanos)) => {
                return Timestamp::from_representable(seconds, nanos);
            },
            None => {},
        }
    }
    let (seconds, nanos) = utc_default();
    Timestamp::from_representable(seconds, nanos)
}

/// An instant in wire form.
pub fn timestamp_to_wire(t: &Timestamp) -> (r: WireTimestamp)
    ensures
        Some(r) == wire_timestamp_of(Some(*t)),
{
    let nanos = t.nanos();
    WireTimestamp { seconds: t.seconds(), nanos: nanos as i32 }
}

fn optional_timestamp_from_wire(w: &Option<WireTimestamp>) -> (r: Option<Timestamp>)
    ensures
        instant_parts(r) == wire_instant_of(*w),
{
    match w {
        Some(t) => Some(timestamp_from_wire(*t)),
        None => None,
    }
}

fn optional_timestamp_to_wire(t: &Option<Timestamp>) -> (r: Option<WireTimestamp>)
    ensures
        r == wire_timestamp_of(*t),
{
    match t {
        Some(x) => Some(timestamp_to_wire(x)),
        None => None,
    }
}

/// What wire metadata says of metadata.
pub open spec fn wire_describes(w: WireMetadata, m: Metadata) -> bool {
    &&& m.content_type == nonempty(w.content_type)
    &&& m.content_encoding == nonempty(w.content_encoding)
    &&& m.size == w.size
    &&& instant_parts(m.last_modified) == wire_instant_of(w.last_modified)
    &&& m.etag == nonempty(w.etag)
    &&& m.custom@ == w.custom@
}

/// The wire form of metadata.
pub open spec fn wire_of(m: Metadata, w: WireMetadata) -> bool {
    &&& w.content_type@ == text_or_empty(m.content_type)
    &&& w.content_encoding@ == text_or_empty(m.content_encoding)
    &&& w.size == m.size
    &&& w.last_modified == wire_timestamp_of(m.last_modified)
    &&& w.etag@ == text_or_empty(m.etag)
    &&& w.custom@ == m.custom@
}

/// Metadata read from the wire: empty texts become absent.
pub fn metadata_from_wire(w: &WireMetadata) -> (r: Metadata)
    ensures
        wire_describes(*w, r),
        r.normalized(),
{
    Metadata {
        content_type: text_of(&w.content_type),
        content_encoding: text_of(&w.content_encoding),
        size: w.size,
        last_modified: optional_timestamp_from_wire(&w.last_modified),
        etag: text_of(&w.etag),
        custom: w.custom.clone(),
    }
}

/// Metadata in wire form: absent texts become empty.
pub fn metadata_to_wire(m: &Metadata) -> (r: WireMetadata)
    ensures
        wire_of(*m, r),
{
    WireMetadata {
        content_type: text_or_blank(&m.content_type),
        content_encoding: text_or_blank(&m.content_encoding),
        size: m.size,
        last_modified: optional_timestamp_to_wire(&m.last_modified),
        etag: text_or_blank(&m.etag),
        custom: m.custom.clone(),
    }
}

/// Metadata read from an optional wire message: the zero value when absent.
pub open spec fn wire_describes_opt(w: Option<WireMetadata>, m: Metadata) -> bool {
    match w {
        Some(x) => wire_describes(x, m),
        None => m.is_zero(),
    }
}

fn metadata_from_wire_opt(w: &Option<WireMetadata>) -> (r: Metadata)
    ensures
        wire_describes_opt(*w, r),
{
    match w {
        Some(x) => metadata_from_wire(x),
        None => Metadata::default(),
    }
}

/// One message of the stream that carries an object: a slice of its bytes
/// and, possibly, its metadata.
#[derive(Debug, Clone)]
pub struct WireChunk {
    pub data: Vec<u8>,
    pub metadata: Option<WireMetadata>,
}

/// The bytes of a sequence of chunks, in order.
pub open spec fn concat_chunks(chunks: Seq<WireChunk>) -> Seq<u8>
    decreases chunks.len(),
{
    if chunks.len() == 0 {
        Seq::empty()
    } else {
        concat_chunks(chunks.drop_last()) + chunks.last().data@
    }
}

/// The first metadata message of a sequence of chunks.
pub open spec fn first_metadata(chunks: Seq<WireChunk>) -> Option<WireMetadata>
    decreases chunks.len(),
{
    if chunks.len() == 0 {
        None
    } else if chunks[0].metadata is Some {
        chunks[0].metadata
    } else {
        first_metadata(chunks.drop_first())
    }
}

/// An object being received as a stream of chunks: the bytes so far and
/// the first metadata seen.
pub struct ObjectAssembly {
    pub data: Vec<u8>,
    pub metadata: Option<Metadata>,
}

impl ObjectAssembly {
    /// Nothing received yet.
    pub fn new() -> (r: ObjectAssembly)
        ensures
            r.data@ == Seq::<u8>::empty(),
            r.metadata is None,
    {
        ObjectAssembly { data: Vec::new(), metadata: None }
    }

    /// Takes in one chunk: its bytes are appended; its metadata is kept only
    /// if none was seen before.
    pub fn push(&mut self, chunk: &WireChunk)
        ensures
            final(self).data@ == old(self).data@ + chunk.data@,
            old(self).metadata is Some ==> final(self).metadata == old(self).metadata,
            old(self).metadata is None ==> match chunk.metadata {
                Some(w) => final(self).metadata matches Some(m) && wire_describes(w, m),
                None => final(self).metadata is None,
            },
    {
        crate::http::append_chunk(&mut self.data, chunk.data.as_slice());
        if self.metadata.is_none() {
            match &chunk.metadata {
                Some(w) => {
                    self.metadata = Some(metadata_from_wire(w));
                },
                None => {},
            }
        }
    }

    /// The object's bytes, and its metadata (the zero value if none came).
    pub fn finish(self) -> (r: (Vec<u8>, Metadata))
        ensures
            r.0@ == self.data@,
            self.metadata matches Some(m) ==> r.1 == m,
            self.metadata is None ==> r.1.is_zero(),
    {
        let metadata = match self.metadata {
            Some(m) => m,
            None => Metadata::default(),
        };
        (self.data, metadata)
    }
}

/// An object from the whole stream that carried it: the bytes of all chunks
/// in order, and the metadata of the first chunk that had any.
pub fn assemble_chunks(chunks: &Vec<WireChunk>) -> (r: (Vec<u8>, Metadata))
    ensures
        r.0@ == concat_chunks(chunks@),
        wire_describes_opt(first_metadata(chunks@), r.1),
{
    let mut assembly = ObjectAssembly::new();
    let mut i: usize = 0;
    proof {
        assert(chunks@.subrange(0, chunks@.len() as int) =~= chunks@);
        assert(first_metadata(chunks@.subrange(0, 0)) is None);
    }
    while i < chunks.len()
        invariant
            i <= chunks@.len(),
            assembly.data@ == concat_chunks(chunks@.subrange(0, i as int)),
            first_metadata(chunks@.subrange(0, i as int)) is None <==> assembly.metadata is None,
            forall|w: WireMetadata|
                first_metadata(chunks@.subrange(0, i as int)) == Some(w) ==> (
                assembly.metadata matches Some(m) && wire_describes(w, m)),
            first_metadata(chunks@.subrange(0, i as int)) is Some ==> first_metadata(chunks@)
                == first_metadata(chunks@.subrange(0, i as int)),
            first_metadata(chunks@.subrange(0, i as int)) is None ==> first_metadata(chunks@)
                == first_metadata(chunks@.subrange(i as int, chunks@.len() as int)),
        decreases chunks@.len() - i,
    {
        proof {
            let pre = chunks@.subrange(0, i as int);
            let next = chunks@.subrange(0, i + 1);
            assert(next.drop_last() =~= pre);
            assert(next.last() == chunks@[i as int]);
            lemma_first_metadata_extend(pre, chunks@[i as int]);
            assert(next =~= pre.push(chunks@[i as int]));
            let rest = chunks@.subrange(i as int, chunks@.len() as int);
            assert(rest[0] == chunks@[i as int]);
            assert(rest.drop_first() =~= chunks@.subrange(i + 1, chunks@.len() as int));
        }
        assembly.push(&chunks[i]);
        i = i + 1;
    }
    proof {
        assert(chunks@.subrange(0, i as int) =~= chunks@);
    }
    assembly.finish()
}

/// The first metadata of a sequence with one more chunk at its end.
pub proof fn lemma_first_metadata_extend(chunks: Seq<WireChunk>, c: WireChunk)
    ensures
        first_metadata(chunks.push(c)) == if first_metadata(chunks) is Some {
            first_metadata(chunks)
        } else {
            c.metadata
        },
    decreases chunks.len(),
{
    if chunks.len() == 0 {
        assert(chunks.push(c).drop_first() =~= Seq::<WireChunk>::empty());
        assert(first_metadata(chunks.push(c).drop_first()) is None);
    } else {
        assert(chunks.push(c)[0] == chunks[0]);
        assert(chunks.push(c).drop_first() =~= chunks.drop_first().push(c));
        lemma_first_metadata_extend(chunks.drop_first(), c);
    }
}

/// Replies of the gRPC API that report success with a flag and a message.
#[derive(Clone, Copy, Debug, PartialEq, Eq, Structural)]
pub enum GrpcCall {
    Put,
    Delete,
    GetMetadata,
    UpdateMetadata,
    Archive,
    AddPolicy,
    RemovePolicy,
    ApplyPolicies,
    AddReplicationPolicy,
    RemoveReplicationPolicy,
    TriggerReplication,
    GetReplicationStatus,
}

/// The message of a failure the server did not explain.
pub open spec fn fallback_message(call: GrpcCall) -> Seq<char> {
    match call {
        GrpcCall::Put => "Failed to put object"@,
        GrpcCall::Delete => "Failed to delete object"@,
        GrpcCall::GetMetadata => "Failed to get metadata"@,
        GrpcCall::UpdateMetadata => "Failed to update metadata"@,
        GrpcCall::Archive => "Failed to archive"@,
        GrpcCall::AddPolicy => "Failed to add policy"@,
        GrpcCall::RemovePolicy => "Failed to remove policy"@,
        GrpcCall::ApplyPolicies => "Failed to apply policies"@,
        GrpcCall::AddReplicationPolicy => "Failed to add replication policy"@,
        GrpcCall::RemoveReplicationPolicy => "Failed to remove replication policy"@,
        GrpcCall::TriggerReplication => "Failed to trigger replication"@,
        GrpcCall::GetReplicationStatus => "Failed to get replication status"@,
    }
}

fn fallback_text(call: GrpcCall) -> (r: &'static str)
    ensures
        r@ == fallback_message(call),
{
    match call {
        GrpcCall::Put => "Failed to put object",
        GrpcCall::Delete => "Failed to delete object",
        GrpcCall::GetMetadata => "Failed to get metadata",
        GrpcCall::UpdateMetadata => "Failed to update metadata",
        GrpcCall::Archive => "Failed to archive",
        GrpcCall::AddPolicy => "Failed to add policy",
        GrpcCall::RemovePolicy => "Failed to remove policy",
        GrpcCall::ApplyPolicies => "Failed to apply policies",
        GrpcCall::AddReplicationPolicy => "Failed to add replication policy",
        GrpcCall::RemoveReplicationPolicy => "Failed to remove replication policy",
        GrpcCall::TriggerReplication => "Failed to trigger replication",
        GrpcCall::GetReplicationStatus => "Failed to get replication status",
    }
}

/// The error of an unsuccessful reply: "operation failed" with the server's
/// message, or with the call's own message when the server gave none.
pub open spec fn reply_error(call: GrpcCall, message: Seq<char>, e: Error) -> bool {
    e matches Error::OperationFailed(m) && m@ == if message.len() == 0 {
        fallback_message(call)
    } else {
        message
    }
}

/// Judges a reply's success flag.
pub fn check_reply(call: GrpcCall, success: bool, message: &String) -> (r: Result<(), Error>)
    ensures
        r is Ok <==> success,
        r matches Err(e) ==> reply_error(call, message@, e),
{
    if success {
        Ok(())
    } else if message.as_str().is_empty() {
        Err(Error::OperationFailed(String::from_str(fallback_text(call))))
    } else {
        Err(Error::OperationFailed(message.clone()))
    }
}

/// The outcome of storing an object over gRPC: an "operation failed" error
/// when the flag says failure.
pub fn put_response_from_wire(success: bool, message: String, etag: String) -> (r: Result<PutResponse, Error>)
    ensures
        r is Ok <==> success,
        r matches Ok(p) ==> p.success && p.message == nonempty(message) && p.etag == nonempty(etag),
        r matches Err(e) ==> reply_error(GrpcCall::Put, message@, e),
{
    match check_reply(GrpcCall::Put, success, &message) {
        Ok(()) => Ok(PutResponse { success, message: text_of(&message), etag: text_of(&etag) }),
        Err(e) => Err(e),
    }
}

/// The outcome of deleting an object over gRPC: an "operation failed" error
/// when the flag says failure.
pub fn delete_response_from_wire(success: bool, message: String) -> (r: Result<DeleteResponse, Error>)
    ensures
        r is Ok <==> success,
        r matches Ok(d) ==> d.success && d.message == nonempty(message),
        r matches Err(e) ==> reply_error(GrpcCall::Delete, message@, e),
{
    match check_reply(GrpcCall::Delete, success, &message) {
        Ok(()) => Ok(DeleteResponse { success, message: text_of(&message) }),
        Err(e) => Err(e),
    }
}

/// The metadata a reply carries, once its flag says success.
pub fn metadata_reply(success: bool, message: &String, metadata: &Option<WireMetadata>) -> (r: Result<Metadata, Error>)
    ensures
        r is Ok <==> success,
        r matches Ok(m) ==> wire_describes_opt(*metadata, m),
        r matches Err(e) ==> reply_error(GrpcCall::GetMetadata, message@, e),
{
    match check_reply(GrpcCall::GetMetadata, success, message) {
        Ok(()) => Ok(metadata_from_wire_opt(metadata)),
        Err(e) => Err(e),
    }
}

/// A listing request as the gRPC API takes it.
#[derive(Debug, Clone)]
pub struct WireListRequest {
    pub prefix: String,
    pub delimiter: String,
    pub max_results: i32,
    pub continue_from: String,
}

/// A listing request in wire form: absent texts empty, and at most 100
/// results when no cap is given.
pub fn list_request_to_wire(req: &ListRequest) -> (r: WireListRequest)
    ensures
        r.prefix@ == text_or_empty(req.prefix),
        r.delimiter@ == text_or_empty(req.delimiter),
        r.max_results == match req.max_results {
            Some(n) => n,
            None => 100,
        },
        r.continue_from@ == text_or_empty(req.continue_from),
{
    WireListRequest {
        prefix: text_or_blank(&req.prefix),
        delimiter: text_or_blank(&req.delimiter),
        max_results: match req.max_results {
            Some(n) => n,
            None => 100,
        },
        continue_from: text_or_blank(&req.continue_from),
    }
}

/// An object of a gRPC listing.
#[derive(Debug, Clone)]
pub struct WireObjectInfo {
    pub key: String,
    pub metadata: Option<WireMetadata>,
}

/// A listing page as the gRPC API returns it.
#[derive(Debug, Clone)]
pub struct WireListResponse {
    pub objects: Vec<WireObjectInfo>,
    pub common_prefixes: Vec<String>,
    pub next_token: String,
    pub truncated: bool,
}

/// What a gRPC listing says of a listing page.
pub open spec fn wire_listing_of(w: WireListResponse, r: ListResponse) -> bool {
    &&& r.objects@.len() == w.objects@.len()
    &&& forall|i: int|
        0 <= i < r.objects@.len() ==> {
            &&& #[trigger] r.objects@[i].key == w.objects@[i].key
            &&& wire_describes_opt(w.objects@[i].metadata, r.objects@[i].metadata)
        }
    &&& r.common_prefixes@ == w.common_prefixes@
    &&& r.next_token == nonempty(w.next_token)
    &&& r.truncated == (w.truncated || r.next_token is Some)
}

/// The listing page a gRPC listing describes. A page that carries a
/// continuation token counts as truncated whatever the server's flag says.
pub fn listing_from_wire(w: &WireListResponse) -> (r: ListResponse)
    ensures
        wire_listing_of(*w, r),
{
    let mut objects: Vec<ObjectInfo> = Vec::new();
    let mut i: usize = 0;
    while i < w.objects.len()
        invariant
            i <= w.objects@.len(),
            objects@.len() == i,
            forall|j: int|
                0 <= j < i ==> {
                    &&& #[trigger] objects@[j].key == w.objects@[j].key
                    &&& wire_describes_opt(w.objects@[j].metadata, objects@[j].metadata)
                },
        decreases w.objects@.len() - i,
    {
        let o = &w.objects[i];
        objects.push(ObjectInfo { key: o.key.clone(), metadata: metadata_from_wire_opt(&o.metadata) });
        i = i + 1;
    }
    let next_token = text_of(&w.next_token);
    let truncated = w.truncated || next_token.is_some();
    ListResponse { objects, common_prefixes: copy_texts(&w.common_prefixes), next_token, truncated }
}

/// The health a gRPC server reports: status 1 is serving, 2 not serving,
/// anything else unknown.
pub fn health_from_wire(status: i32, message: String) -> (r: HealthResponse)
    ensures
        r.status == if status == 1 {
            HealthStatus::Serving
        } else if status == 2 {
            HealthStatus::NotServing
        } else {
            HealthStatus::Unknown
        },
        r.message == nonempty(message),
{
    let s = if status == 1 {
        HealthStatus::Serving
    } else if status == 2 {
        HealthStatus::NotServing
    } else {
        HealthStatus::Unknown
    };
    HealthResponse { status: s, message: text_of(&message) }
}

/// A lifecycle policy as the gRPC API carries it.
#[derive(Debug, Clone)]
pub struct WireLifecyclePolicy {
    pub id: String,
    pub prefix: String,
    pub retention_seconds: i64,
    pub action: String,
    pub destination_type: String,
    pub destination_settings: HashMap<String, String>,
}

/// A lifecycle policy in wire form: no destination type is an empty one.
pub fn lifecycle_to_wire(p: &LifecyclePolicy) -> (r: WireLifecyclePolicy)
    ensures
        r.id == p.id,
        r.prefix == p.prefix,
        r.retention_seconds == p.retention_seconds,
        r.action == p.action,
        r.destination_type@ == text_or_empty(p.destination_type),
        r.destination_settings@ == p.destination_settings@,
{
    WireLifecyclePolicy {
        id: p.id.clone(),
        prefix: p.prefix.clone(),
        retention_seconds: p.retention_seconds,
        action: p.action.clone(),
        destination_type: text_or_blank(&p.destination_type),
        destination_settings: p.destination_settings.clone(),
    }
}

/// A lifecycle policy read from the wire: an empty destination type is none.
pub fn lifecycle_from_wire(w: &WireLifecyclePolicy) -> (r: LifecyclePolicy)
    ensures
        r.id == w.id,
        r.prefix == w.prefix,
        r.retention_seconds == w.retention_seconds,
        r.action == w.action,
        r.destination_type == nonempty(w.destination_type),
        r.destination_settings@ == w.destination_settings@,
{
    LifecyclePolicy {
        id: w.id.clone(),
        prefix: w.prefix.clone(),
        retention_seconds: w.retention_seconds,
        action: w.action.clone(),
        destination_type: text_of(&w.destination_type),
        destination_settings: w.destination_settings.clone(),
    }
}

/// The lifecycle policies of a gRPC reply, in order.
pub fn lifecycles_from_wire(ws: &Vec<WireLifecyclePolicy>) -> (r: Vec<LifecyclePolicy>)
    ensures
        r@.len() == ws@.len(),
        forall|i: int|
            0 <= i < r@.len() ==> {
                &&& #[trigger] r@[i].id == ws@[i].id
                &&& r@[i].prefix == ws@[i].prefix
                &&& r@[i].retention_seconds == ws@[i].retention_seconds
                &&& r@[i].action == ws@[i].action
                &&& r@[i].destination_type == nonempty(ws@[i].destination_type)
                &&& r@[i].destination_settings@ == ws@[i].destination_settings@
            },
{
    let mut out: Vec<LifecyclePolicy> = Vec::new();
    let mut i: usize = 0;
    while i < ws.len()
        invariant
            i <= ws@.len(),
            out@.len() == i,
            forall|j: int|
                0 <= j < i ==> {
                    &&& #[trigger] out@[j].id == ws@[j].id
                    &&& out@[j].prefix == ws@[j].prefix
                    &&& out@[j].retention_seconds == ws@[j].retention_seconds
                    &&& out@[j].action == ws@[j].action
                    &&& out@[j].destination_type == nonempty(ws@[j].destination_type)
                    &&& out@[j].destination_settings@ == ws@[j].destination_settings@
                },
        decreases ws@.len() - i,
    {
        out.push(lifecycle_from_wire(&ws[i]));
        i = i + 1;
    }
    out
}

/// The pair of counts a successful run of the lifecycle policies reports.
pub fn apply_reply(success: bool, message: &String, policies_count: i32, objects_processed: i32) -> (r: Result<(i32, i32), Error>)
    ensures
        r is Ok <==> success,
        r matches Ok(p) ==> p == (policies_count, objects_processed),
        r matches Err(e) ==> reply_error(GrpcCall::ApplyPolicies, message@, e),
{
    match check_reply(GrpcCall::ApplyPolicies, success, message) {
        Ok(()) => Ok((policies_count, objects_processed)),
        Err(e) => Err(e),
    }
}

/// The wire code of a replication mode.
pub open spec fn mode_code(m: ReplicationMode) -> i32 {
    match m {
        ReplicationMode::Transparent => 0,
        ReplicationMode::Opaque => 1,
    }
}

/// The replication mode of a wire code: 1 is opaque, anything else
/// transparent.
pub open spec fn mode_of_code(c: i32) -> ReplicationMode {
    if c == 1 {
        ReplicationMode::Opaque
    } else {
        ReplicationMode::Transparent
    }
}

/// A replication policy as the gRPC API carries it.
#[derive(Debug, Clone)]
pub struct WireReplicationPolicy {
    pub id: String,
    pub source_backend: String,
    pub source_settings: HashMap<String, String>,
    pub source_prefix: String,
    pub destination_backend: String,
    pub destination_settings: HashMap<String, String>,
    pub check_interval_seconds: i64,
    pub last_sync_time: Option<WireTimestamp>,
    pub enabled: bool,
    pub encryption: Option<EncryptionPolicy>,
    pub replication_mode: i32,
}

fn copy_config(c: &Option<EncryptionConfig>) -> (r: Option<EncryptionConfig>)
    ensures
        r == *c,
{
    match c {
        Some(x) => Some(EncryptionConfig { enabled: x.enabled, provider: x.provider.clone(), default_key: x.default_key.clone() }),
        None => None,
    }
}

fn copy_encryption(e: &Option<EncryptionPolicy>) -> (r: Option<EncryptionPolicy>)
    ensures
        r == *e,
{
    match e {
        Some(x) => Some(EncryptionPolicy {
            backend: copy_config(&x.backend),
            source: copy_config(&x.source),
            destination: copy_config(&x.destination),
        }),
        None => None,
    }
}

/// The fields a replication policy and its wire form share.
pub open spec fn same_replication_fields(p: ReplicationPolicy, w: WireReplicationPolicy) -> bool {
    &&& p.id == w.id
    &&& p.source_backend == w.source_backend
    &&& p.source_settings@ == w.source_settings@
    &&& p.source_prefix == w.source_prefix
    &&& p.destination_backend == w.destination_backend
    &&& p.destination_settings@ == w.destination_settings@
    &&& p.check_interval_seconds == w.check_interval_seconds
    &&& p.enabled == w.enabled
    &&& p.encryption == w.encryption
}

/// A replication policy in wire form.
pub fn replication_policy_to_wire(p: &ReplicationPolicy) -> (r: WireReplicationPolicy)
    ensures
        same_replication_fields(*p, r),
        r.last_sync_time == wire_timestamp_of(p.last_sync_time),
        r.replication_mode == mode_code(p.replication_mode),
{
    WireReplicationPolicy {
        id: p.id.clone(),
        source_backend: p.source_backend.clone(),
        source_settings: p.source_settings.clone(),
        source_prefix: p.source_prefix.clone(),
        destination_backend: p.destination_backend.clone(),
        destination_settings: p.destination_settings.clone(),
        check_interval_seconds: p.check_interval_seconds,
        last_sync_time: optional_timestamp_to_wire(&p.last_sync_time),
        enabled: p.enabled,
        encryption: copy_encryption(&p.encryption),
        replication_mode: match p.replication_mode {
            ReplicationMode::Transparent => 0,
            ReplicationMode::Opaque => 1,
        },
    }
}

/// What a wire replication policy says of a replication policy.
pub open spec fn wire_policy_describes(w: WireReplicationPolicy, p: ReplicationPolicy) -> bool {
    &&& same_replication_fields(p, w)
    &&& instant_parts(p.last_sync_time) == wire_instant_of(w.last_sync_time)
    &&& p.replication_mode == mode_of_code(w.replication_mode)
}

/// A replication policy read from the wire.
pub fn replication_policy_from_wire(w: &WireReplicationPolicy) -> (r: ReplicationPolicy)
    ensures
        wire_policy_describes(*w, r),
{
    ReplicationPolicy {
        id: w.id.clone(),
        source_backend: w.source_backend.clone(),
        source_settings: w.source_settings.clone(),
        source_prefix: w.source_prefix.clone(),
        destination_backend: w.destination_backend.clone(),
        destination_settings: w.destination_settings.clone(),
        check_interval_seconds: w.check_interval_seconds,
        last_sync_time: optional_timestamp_from_wire(&w.last_sync_time),
        enabled: w.enabled,
        encryption: copy_encryption(&w.encryption),
        replication_mode: if w.replication_mode == 1 {
            ReplicationMode::Opaque
        } else {
            ReplicationMode::Transparent
        },
    }
}

/// The replication policies of a gRPC reply, in order.
pub fn replication_policies_from_wire(ws: &Vec<WireReplicationPolicy>) -> (r: Vec<ReplicationPolicy>)
    ensures
        r@.len() == ws@.len(),
        forall|i: int| 0 <= i < r@.len() ==> wire_policy_describes(ws@[i], #[trigger] r@[i]),
{
    let mut out: Vec<ReplicationPolicy> = Vec::new();
    let mut i: usize = 0;
    while i < ws.len()
        invariant
            i <= ws@.len(),
            out@.len() == i,
            forall|j: int| 0 <= j < i ==> wire_policy_describes(ws@[j], #[trigger] out@[j]),
        decreases ws@.len() - i,
    {
        out.push(replication_policy_from_wire(&ws[i]));
        i = i + 1;
    }
    out
}

/// The policy a lookup by identifier returned: "not found" when the reply
/// holds none.
pub fn replication_policy_reply(policy: &Option<WireReplicationPolicy>) -> (r: Result<ReplicationPolicy, Error>)
    ensures
        r is Ok <==> policy is Some,
        r matches Ok(p) ==> wire_policy_describes(policy.unwrap(), p),
        r matches Err(e) ==> (e matches Error::NotFound(m) && m@ == "Replication policy not found"@),
{
    match policy {
        Some(w) => Ok(replication_policy_from_wire(w)),
        None => Err(Error::NotFound(String::from_str("Replication policy not found"))),
    }
}

/// A copy of a run's counters.
fn copy_sync_result(s: &SyncResult) -> (r: SyncResult)
    ensures
        r.policy_id == s.policy_id,
        r.synced == s.synced,
        r.deleted == s.deleted,
        r.failed == s.failed,
        r.bytes_total == s.bytes_total,
        r.duration_ms == s.duration_ms,
        r.errors@ == s.errors@,
{
    SyncResult {
        policy_id: s.policy_id.clone(),
        synced: s.synced,
        deleted: s.deleted,
        failed: s.failed,
        bytes_total: s.bytes_total,
        duration_ms: s.duration_ms,
        errors: copy_texts(&s.errors),
    }
}

/// The counters a replication run reports: an "operation failed" error when
/// the flag says failure, an "invalid response" error when a successful
/// reply lacks them.
pub fn sync_result_reply(success: bool, message: &String, result: &Option<SyncResult>) -> (r: Result<SyncResult, Error>)
    ensures
        r is Ok <==> success && result is Some,
        r matches Ok(x) ==> {
            let s = result.unwrap();
            &&& x.policy_id == s.policy_id
            &&& x.synced == s.synced
            &&& x.deleted == s.deleted
            &&& x.failed == s.failed
            &&& x.bytes_total == s.bytes_total
            &&& x.duration_ms == s.duration_ms
            &&& x.errors@ == s.errors@
        },
        !success ==> (r matches Err(e) && reply_error(GrpcCall::TriggerReplication, message@, e)),
        success && result is None ==> (r matches Err(e) && e matches Error::InvalidResponse(m) && m@
            == "Missing sync result"@),
{
    match check_reply(GrpcCall::TriggerReplication, success, message) {
        Err(e) => Err(e),
        Ok(()) => match result {
            Some(s) => Ok(copy_sync_result(s)),
            None => Err(Error::InvalidResponse(String::from_str("Missing sync result"))),
        },
    }
}

/// Replication totals as the gRPC API carries them.
#[derive(Debug, Clone)]
pub struct WireReplicationStatus {
    pub policy_id: String,
    pub source_backend: String,
    pub destination_backend: String,
    pub enabled: bool,
    pub total_objects_synced: i64,
    pub total_objects_deleted: i64,
    pub total_bytes_synced: i64,
    pub total_errors: i64,
    pub last_sync_time: Option<WireTimestamp>,
    pub average_sync_duration_ms: i64,
    pub sync_count: i64,
}

/// What wire replication totals say of replication totals.
pub open spec fn wire_status_describes(w: WireReplicationStatus, s: ReplicationStatus) -> bool {
    &&& s.policy_id == w.policy_id
    &&& s.source_backend == w.source_backend
    &&& s.destination_backend == w.destination_backend
    &&& s.enabled == w.enabled
    &&& s.total_objects_synced == w.total_objects_synced
    &&& s.total_objects_deleted == w.total_objects_deleted
    &&& s.total_bytes_synced == w.total_bytes_synced
    &&& s.total_errors == w.total_errors
    &&& instant_parts(s.last_sync_time) == wire_instant_of(w.last_sync_time)
    &&& s.average_sync_duration_ms == w.average_sync_duration_ms
    &&& s.sync_count == w.sync_count
}

fn status_from_wire(w: &WireReplicationStatus) -> (r: ReplicationStatus)
    ensures
        wire_status_describes(*w, r),
{
    ReplicationStatus {
        policy_id: w.policy_id.clone(),
        source_backend: w.source_backend.clone(),
        destination_backend: w.destination_backend.clone(),
        enabled: w.enabled,
        total_objects_synced: w.total_objects_synced,
        total_objects_deleted: w.total_objects_deleted,
        total_bytes_synced: w.total_bytes_synced,
        total_errors: w.total_errors,
        last_sync_time: optional_timestamp_from_wire(&w.last_sync_time),
        average_sync_duration_ms: w.average_sync_duration_ms,
        sync_count: w.sync_count,
    }
}

/// The totals a status query reports: an "operation failed" error when the
/// flag says failure, an "invalid response" error when a successful reply
/// lacks them.
pub fn replication_status_reply(success: bool, message: &String, status: &Option<WireReplicationStatus>) -> (r: Result<ReplicationStatus, Error>)
    ensures
        r is Ok <==> success && status is Some,
        r matches Ok(x) ==> wire_status_describes(status.unwrap(), x),
        !success ==> (r matches Err(e) && reply_error(GrpcCall::GetReplicationStatus, message@, e)),
        success && status is None ==> (r matches Err(e) && e matches Error::InvalidResponse(m) && m@
            == "Missing replication status"@),
{
    match check_reply(GrpcCall::GetReplicationStatus, success, message) {
        Err(e) => Err(e),
        Ok(()) => match status {
            Some(w) => Ok(status_from_wire(w)),
            None => Err(Error::InvalidResponse(String::from_str("Missing replication status"))),
        },
    }
}

} // verus!
