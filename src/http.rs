use crate::error::Error;
use crate::text::{decimal_string, decimal_text, encode_utf8_of, percent_encoded, status_display, status_text, url_encode};
use crate::text::{format_rfc3339, parse_i64, parse_rfc2822, parse_rfc3339, parsed_i64, rfc2822_instant, rfc3339_instant, rfc3339_text};
use crate::types::{
    copy_text, DeleteResponse, HealthResponse, HealthStatus, ListRequest, ListResponse, Metadata,
    ObjectInfo, PutResponse, Timestamp,
};
use std::collections::HashMap;
use vstd::prelude::*;

verus! {

/// An HTTP status code, always three decimal digits.
#[derive(Clone, Copy, Debug, PartialEq, Eq)]
pub struct HttpStatus {
    code: u16,
}

impl HttpStatus {
    #[verifier::type_invariant]
    spec fn three_digits(self) -> bool {
        100 <= self.code <= 999
    }

    pub closed spec fn spec_code(self) -> int {
        self.code as int
    }

    /// The status with this code, or `None` for a code outside 100..=999.
    pub fn new(code: u16) -> (r: Option<HttpStatus>)
        ensures
            r is Some <==> 100 <= code <= 999,
            r matches Some(s) ==> s.spec_code() == code,
    {
        if 100 <= code && code <= 999 {
            Some(HttpStatus { code })
        } else {
            None
        }
    }

    pub fn code(&self) -> (r: u16)
        ensures
            r == self.spec_code(),
            100 <= r <= 999,
    {
        proof {
            use_type_invariant(self);
        }
        self.code
    }

    pub open spec fn spec_is_success(self) -> bool {
        200 <= self.spec_code() <= 299
    }

    /// Whether the code is in the 2xx range.
    pub fn is_success(&self) -> (r: bool)
        ensures
            r == self.spec_is_success(),
    {
        200 <= self.code && self.code <= 299
    }

    /// The code followed by its reason phrase, as HTTP writes it.
    pub fn text(&self) -> (r: String)
        ensures
            r@ == status_display(self.spec_code()),
    {
        status_text(self.code())
    }
}

/// The HTTP methods the object operations use.
#[derive(Clone, Copy, Debug, PartialEq, Eq, Structural)]
pub enum HttpMethod {
    Get,
    Put,
    Delete,
    Head,
}

/// A key as it stands in a request path.
pub open spec fn key_segment(key: Seq<char>) -> Seq<char> {
    percent_encoded(encode_utf8_of(key))
}

/// One `name=value` query parameter, present when the value is.
pub open spec fn text_param(name: Seq<char>, value: Option<String>) -> Seq<Seq<char>> {
    match value {
        Some(v) => seq![name + key_segment(v@)],
        None => Seq::empty(),
    }
}

/// The parameters of a listing, in the order they are sent.
pub open spec fn list_params(req: ListRequest) -> Seq<Seq<char>> {
    text_param("prefix="@, req.prefix) + text_param("delimiter="@, req.delimiter) + match req.max_results {
        Some(n) => seq!["limit="@ + decimal_text(n as int)],
        None => Seq::<Seq<char>>::empty(),
    } + text_param("token="@, req.continue_from)
}

/// Parameters joined by `&`.
pub open spec fn joined(ps: Seq<Seq<char>>) -> Seq<char>
    decreases ps.len(),
{
    if ps.len() == 0 {
        Seq::empty()
    } else if ps.len() == 1 {
        ps[0]
    } else {
        joined(ps.drop_last()) + "&"@ + ps.last()
    }
}

/// A query string: empty without parameters, else `?` and the parameters.
pub open spec fn query_of(ps: Seq<Seq<char>>) -> Seq<char> {
    if ps.len() == 0 {
        Seq::empty()
    } else {
        "?"@ + joined(ps)
    }
}

fn push_param(q: &mut String, p: String, ps: Ghost<Seq<Seq<char>>>)
    requires
        old(q)@ == query_of(ps@),
    ensures
        final(q)@ == query_of(ps@.push(p@)),
{
    proof {
        reveal_strlit("?");
    }
    if q.as_str().is_empty() {
        q.append("?");
    } else {
        q.append("&");
    }
    q.append(p.as_str());
    proof {
        let qs = ps@.push(p@);
        assert(qs.drop_last() =~= ps@);
        assert(q@ =~= query_of(qs));
    }
}

fn named_param(name: &str, value: &String) -> (r: String)
    ensures
        r@ == name@ + key_segment(value@),
{
    let mut p = String::from_str(name);
    let v = url_encode(value.as_str());
    p.append(v.as_str());
    p
}

/// The query string of a listing: `prefix`, `delimiter`, `limit` and `token`,
/// each only when the request sets it.
pub fn list_query(req: &ListRequest) -> (r: String)
    ensures
        r@ == query_of(list_params(*req)),
{
    let mut q = String::new();
    let ghost mut ps: Seq<Seq<char>> = Seq::empty();
    proof {
        assert(q@ =~= query_of(ps));
    }
    if let Some(prefix) = &req.prefix {
        push_param(&mut q, named_param("prefix=", prefix), Ghost(ps));
        proof { ps = ps.push("prefix="@ + key_segment(prefix@)); }
    }
    assert(ps =~= text_param("prefix="@, req.prefix));
    if let Some(delimiter) = &req.delimiter {
        push_param(&mut q, named_param("delimiter=", delimiter), Ghost(ps));
        proof { ps = ps.push("delimiter="@ + key_segment(delimiter@)); }
    }
    assert(ps =~= text_param("prefix="@, req.prefix) + text_param("delimiter="@, req.delimiter));
    if let Some(n) = req.max_results {
        let mut p = String::from_str("limit=");
        let digits = decimal_string(n as i64);
        p.append(digits.as_str());
        push_param(&mut q, p, Ghost(ps));
        proof { ps = ps.push("limit="@ + decimal_text(n as int)); }
    }
    if let Some(token) = &req.continue_from {
        push_param(&mut q, named_param("token=", token), Ghost(ps));
        proof { ps = ps.push("token="@ + key_segment(token@)); }
    }
    assert(ps =~= list_params(*req));
    q
}

/// The path of an object.
pub open spec fn object_path(key: Seq<char>) -> Seq<char> {
    "/objects/"@ + key_segment(key)
}

/// The path of an object's metadata on the REST API.
pub open spec fn rest_metadata_path(key: Seq<char>) -> Seq<char> {
    "/metadata/"@ + key_segment(key)
}

/// The path of an object's metadata on the QUIC API.
pub open spec fn quic_metadata_path(key: Seq<char>) -> Seq<char> {
    "/objects/"@ + key_segment(key) + "/metadata"@
}

/// The path and query of a listing.
pub open spec fn list_path(req: ListRequest) -> Seq<char> {
    "/objects"@ + query_of(list_params(req))
}

fn join2(a: &str, b: &str) -> (r: String)
    ensures
        r@ == a@ + b@,
{
    let mut r = String::from_str(a);
    r.append(b);
    r
}

fn join3(a: &str, b: &str, c: &str) -> (r: String)
    ensures
        r@ == a@ + b@ + c@,
{
    let mut r = String::from_str(a);
    r.append(b);
    r.append(c);
    r
}

fn object_path_text(key: &str) -> (r: String)
    ensures
        r@ == object_path(key@),
{
    let k = url_encode(key);
    join2("/objects/", k.as_str())
}

/// A request to send: its method, its target and the content type of its
/// body, if it has one.
#[derive(Debug, Clone)]
pub struct RequestPlan {
    pub method: HttpMethod,
    pub target: String,
    pub content_type: Option<String>,
}

/// The operations of the common contract that travel over HTTP.
#[derive(Clone, Copy, Debug, PartialEq, Eq, Structural)]
pub enum ObjectCall {
    Put,
    Get,
    Delete,
    Exists,
    List,
    GetMetadata,
    UpdateMetadata,
    Health,
}

/// The method each operation uses.
pub open spec fn method_of(op: ObjectCall) -> HttpMethod {
    match op {
        ObjectCall::Put | ObjectCall::UpdateMetadata => HttpMethod::Put,
        ObjectCall::Delete => HttpMethod::Delete,
        ObjectCall::Exists => HttpMethod::Head,
        _ => HttpMethod::Get,
    }
}

/// Where the REST API serves objects: a base URL, to which each operation
/// appends its path.
#[derive(Debug, Clone)]
pub struct RestRoutes {
    pub base_url: String,
}

/// The path of an operation on the REST API.
pub open spec fn rest_path(op: ObjectCall, key: Seq<char>, req: ListRequest) -> Seq<char> {
    match op {
        ObjectCall::List => list_path(req),
        ObjectCall::Health => "/health"@,
        ObjectCall::GetMetadata | ObjectCall::UpdateMetadata => rest_metadata_path(key),
        _ => object_path(key),
    }
}

/// The path of an operation on the QUIC API.
pub open spec fn quic_path(op: ObjectCall, key: Seq<char>, req: ListRequest) -> Seq<char> {
    match op {
        ObjectCall::List => list_path(req),
        ObjectCall::Health => "/health"@,
        ObjectCall::GetMetadata | ObjectCall::UpdateMetadata => quic_metadata_path(key),
        _ => object_path(key),
    }
}

fn path_of(op: ObjectCall, key: &str, req: &ListRequest, quic: bool) -> (r: String)
    ensures
        r@ == if quic { quic_path(op, key@, *req) } else { rest_path(op, key@, *req) },
{
    match op {
        ObjectCall::List => {
            let q = list_query(req);
            join2("/objects", q.as_str())
        },
        ObjectCall::Health => String::from_str("/health"),
        ObjectCall::GetMetadata | ObjectCall::UpdateMetadata => {
            let k = url_encode(key);
            if quic {
                join3("/objects/", k.as_str(), "/metadata")
            } else {
                join2("/metadata/", k.as_str())
            }
        },
        _ => object_path_text(key),
    }
}

fn method(op: ObjectCall) -> (r: HttpMethod)
    ensures
        r == method_of(op),
{
    match op {
        ObjectCall::Put | ObjectCall::UpdateMetadata => HttpMethod::Put,
        ObjectCall::Delete => HttpMethod::Delete,
        ObjectCall::Exists => HttpMethod::Head,
        _ => HttpMethod::Get,
    }
}

impl RestRoutes {
    pub fn new(base_url: String) -> (r: RestRoutes)
        ensures
            r.base_url == base_url,
    {
        RestRoutes { base_url }
    }

    /// The request for `op` on `key` (or, for a listing, on `req`). A stored
    /// body takes the metadata's content type; a metadata update is JSON.
    pub fn plan(&self, op: ObjectCall, key: &str, req: &ListRequest, metadata: &Option<Metadata>) -> (r: RequestPlan)
        ensures
            r.method == method_of(op),
            r.target@ == self.base_url@ + rest_path(op, key@, *req),
            op == ObjectCall::Put ==> r.content_type == match metadata {
                Some(m) => m.content_type,
                None => None,
            },
            op == ObjectCall::UpdateMetadata ==> (r.content_type matches Some(c) && c@ == "application/json"@),
            op != ObjectCall::Put && op != ObjectCall::UpdateMetadata ==> r.content_type is None,
    {
        let path = path_of(op, key, req, false);
        let target = join2(self.base_url.as_str(), path.as_str());
        let content_type = match op {
            ObjectCall::Put => match metadata {
                Some(m) => copy_text(&m.content_type),
                None => None,
            },
            ObjectCall::UpdateMetadata => Some(String::from_str("application/json")),
            _ => None,
        };
        RequestPlan { method: method(op), target, content_type }
    }
}

/// Where the QUIC API serves objects: every request goes to
/// `https://{server_name}` plus the operation's path.
#[derive(Debug, Clone)]
pub struct QuicRoutes {
    pub server_name: String,
}

impl QuicRoutes {
    pub fn new(server_name: String) -> (r: QuicRoutes)
        ensures
            r.server_name == server_name,
    {
        QuicRoutes { server_name }
    }

    /// The request for `op` on `key` (or, for a listing, on `req`). A stored
    /// body is sent as an octet stream and a metadata update as JSON.
    pub fn plan(&self, op: ObjectCall, key: &str, req: &ListRequest) -> (r: RequestPlan)
        ensures
            r.method == method_of(op),
            r.target@ == "https://"@ + self.server_name@ + quic_path(op, key@, *req),
            op == ObjectCall::Put ==> (r.content_type matches Some(c) && c@ == "application/octet-stream"@),
            op == ObjectCall::UpdateMetadata ==> (r.content_type matches Some(c) && c@ == "application/json"@),
            op != ObjectCall::Put && op != ObjectCall::UpdateMetadata ==> r.content_type is None,
    {
        let path = path_of(op, key, req, true);
        let target = join3("https://", self.server_name.as_str(), path.as_str());
        let content_type = match op {
            ObjectCall::Put => Some(String::from_str("application/octet-stream")),
            ObjectCall::UpdateMetadata => Some(String::from_str("application/json")),
            _ => None,
        };
        RequestPlan { method: method(op), target, content_type }
    }
}

/// Whether a reply with `status` counts as success: exactly 201 for storing
/// an object, any 2xx otherwise.
pub open spec fn accepted(op: ObjectCall, status: HttpStatus) -> bool {
    if op == ObjectCall::Put {
        status.spec_code() == 201
    } else {
        status.spec_is_success()
    }
}

/// Whether the operation names a key whose absence (404) is reported as such.
pub open spec fn reports_missing(op: ObjectCall) -> bool {
    op == ObjectCall::Get || op == ObjectCall::Delete || op == ObjectCall::GetMetadata
        || op == ObjectCall::UpdateMetadata
}

/// The start of the message of a failed operation.
pub open spec fn failure_prefix(op: ObjectCall) -> Seq<char> {
    match op {
        ObjectCall::Put => "Failed to put object: "@,
        ObjectCall::Get => "Failed to get object: "@,
        ObjectCall::Delete => "Failed to delete object: "@,
        ObjectCall::Exists => "Failed to check object: "@,
        ObjectCall::List => "Failed to list objects: "@,
        ObjectCall::GetMetadata => "Failed to get metadata: "@,
        ObjectCall::UpdateMetadata => "Failed to update metadata: "@,
        ObjectCall::Health => "Health check failed: "@,
    }
}

/// The error for a reply that was not accepted: "not found" with the key
/// where the operation reports absence and the status is 404, else
/// "operation failed" with the operation and the status.
pub open spec fn status_error(op: ObjectCall, status: HttpStatus, key: Seq<char>, e: Error) -> bool {
    if reports_missing(op) && status.spec_code() == 404 {
        e matches Error::NotFound(k) && k@ == key
    } else {
        e matches Error::OperationFailed(m) && m@ == failure_prefix(op) + status_display(status.spec_code())
    }
}

fn failure_prefix_text(op: ObjectCall) -> (r: &'static str)
    ensures
        r@ == failure_prefix(op),
{
    match op {
        ObjectCall::Put => "Failed to put object: ",
        ObjectCall::Get => "Failed to get object: ",
        ObjectCall::Delete => "Failed to delete object: ",
        ObjectCall::Exists => "Failed to check object: ",
        ObjectCall::List => "Failed to list objects: ",
        ObjectCall::GetMetadata => "Failed to get metadata: ",
        ObjectCall::UpdateMetadata => "Failed to update metadata: ",
        ObjectCall::Health => "Health check failed: ",
    }
}

/// Judges the status of a reply to `op` on `key`.
pub fn check_status(op: ObjectCall, status: HttpStatus, key: &str) -> (r: Result<(), Error>)
    ensures
        r is Ok <==> accepted(op, status),
        r matches Err(e) ==> status_error(op, status, key@, e),
{
    let ok = if op == ObjectCall::Put {
        status.code() == 201
    } else {
        status.is_success()
    };
    if ok {
        Ok(())
    } else if (op == ObjectCall::Get || op == ObjectCall::Delete || op == ObjectCall::GetMetadata
        || op == ObjectCall::UpdateMetadata) && status.code() == 404 {
        Err(Error::NotFound(String::from_str(key)))
    } else {
        let text = status.text();
        Err(Error::OperationFailed(join2(failure_prefix_text(op), text.as_str())))
    }
}

/// An optional text with an empty one read as absent.
pub open spec fn present(t: Option<String>) -> Option<String> {
    match t {
        Some(s) => if s@.len() == 0 { None } else { Some(s) },
        None => None,
    }
}

/// Reads an empty text as absent.
pub fn present_text(t: Option<String>) -> (r: Option<String>)
    ensures
        r == present(t),
{
    match t {
        Some(s) => if s.as_str().is_empty() { None } else { Some(s) },
        None => None,
    }
}

/// The outcome of storing an object, from the reply's status and entity tag.
pub fn put_outcome(status: HttpStatus, etag: Option<String>) -> (r: Result<PutResponse, Error>)
    ensures
        r is Ok <==> status.spec_code() == 201,
        r matches Ok(p) ==> p.success && p.message is None && p.etag == present(etag),
        r matches Err(e) ==> status_error(ObjectCall::Put, status, Seq::empty(), e),
{
    match check_status(ObjectCall::Put, status, "") {
        Ok(()) => Ok(PutResponse { success: true, message: None, etag: present_text(etag) }),
        Err(e) => Err(e),
    }
}

/// The outcome of deleting `key`, from the reply's status.
pub fn delete_outcome(status: HttpStatus, key: &str) -> (r: Result<DeleteResponse, Error>)
    ensures
        r is Ok <==> status.spec_is_success(),
        r matches Ok(d) ==> d.success && d.message is None,
        r matches Err(e) ==> status_error(ObjectCall::Delete, status, key@, e),
{
    match check_status(ObjectCall::Delete, status, key) {
        Ok(()) => Ok(DeleteResponse { success: true, message: None }),
        Err(e) => Err(e),
    }
}

/// Whether an object exists, from the status of a HEAD request: exactly
/// 200 means it does; any other status, a server error included, means it
/// does not.
pub fn exists_from_status(status: HttpStatus) -> (r: bool)
    ensures
        r == (status.spec_code() == 200),
{
    status.code() == 200
}

/// The health a QUIC server reports through its status alone: serving on
/// 2xx; any other status fails as a health check does over REST.
pub fn health_from_status(status: HttpStatus) -> (r: Result<HealthResponse, Error>)
    ensures
        r is Ok <==> status.spec_is_success(),
        r matches Ok(h) ==> h.status == HealthStatus::Serving && h.message is None,
        r matches Err(e) ==> status_error(ObjectCall::Health, status, Seq::empty(), e),
{
    match check_status(ObjectCall::Health, status, "") {
        Ok(()) => Ok(HealthResponse { status: HealthStatus::Serving, message: None }),
        Err(e) => Err(e),
    }
}

/// Appends a received chunk to a body.
pub fn append_chunk(body: &mut Vec<u8>, chunk: &[u8])
    ensures
        final(body)@ == old(body)@ + chunk@,
{
    let ghost start = body@;
    let mut i: usize = 0;
    while i < chunk.len()
        invariant
            i <= chunk@.len(),
            body@ == start + chunk@.subrange(0, i as int),
        decreases chunk@.len() - i,
    {
        body.push(chunk[i]);
        i = i + 1;
        proof {
            assert(chunk@.subrange(0, i as int) =~= chunk@.subrange(0, i - 1) + seq![chunk@[i - 1]]);
        }
    }
    proof {
        assert(chunk@.subrange(0, i as int) =~= chunk@);
    }
}

/// Metadata as the REST and QUIC APIs carry it in JSON: the last-modified
/// instant as RFC 3339 text and the custom map left out when empty.
#[derive(Debug, Clone)]
pub struct MetadataRecord {
    pub content_type: Option<String>,
    pub content_encoding: Option<String>,
    pub size: i64,
    pub last_modified: Option<String>,
    pub etag: Option<String>,
    pub custom: Option<HashMap<String, String>>,
}

/// An object as the REST and QUIC APIs describe it in JSON.
#[derive(Debug, Clone)]
pub struct ObjectRecord {
    pub key: String,
    pub size: i64,
    pub modified: Option<String>,
    pub etag: Option<String>,
    pub metadata: Option<HashMap<String, String>>,
}

/// A listing as the REST and QUIC APIs return it in JSON.
#[derive(Debug, Clone)]
pub struct ListRecord {
    pub objects: Vec<ObjectRecord>,
    pub common_prefixes: Option<Vec<String>>,
    pub next_token: Option<String>,
    pub truncated: bool,
}

/// The health body of the REST API.
#[derive(Debug, Clone)]
pub struct HealthRecord {
    pub status: String,
    pub version: Option<String>,
}

/// Seconds and nanoseconds of an optional instant.
pub open spec fn instant_parts(t: Option<Timestamp>) -> Option<(i64, u32)> {
    match t {
        Some(x) => Some((x.spec_seconds(), x.spec_nanos())),
        None => None,
    }
}

/// The instant an optional RFC 3339 text names, if it names one.
pub open spec fn rfc3339_parts(text: Option<String>) -> Option<(i64, u32)> {
    match text {
        Some(s) => rfc3339_instant(s@),
        None => None,
    }
}

/// The instant an optional RFC 2822 text names, if it names one.
pub open spec fn rfc2822_parts(text: Option<String>) -> Option<(i64, u32)> {
    match text {
        Some(s) => rfc2822_instant(s@),
        None => None,
    }
}

/// The custom entries an optional map holds.
pub open spec fn entries_of(m: Option<HashMap<String, String>>) -> Map<String, String> {
    match m {
        Some(c) => c@,
        None => Map::empty(),
    }
}

/// What a JSON object description says of the object's metadata.
pub open spec fn record_describes(o: ObjectRecord, m: Metadata) -> bool {
    &&& m.content_type is None
    &&& m.content_encoding is None
    &&& m.size == o.size
    &&& instant_parts(m.last_modified) == rfc3339_parts(o.modified)
    &&& m.etag == present(o.etag)
    &&& m.custom@ == entries_of(o.metadata)
}

fn instant_from_rfc3339(text: &Option<String>) -> (r: Option<Timestamp>)
    ensures
        instant_parts(r) == rfc3339_parts(*text),
{
    match text {
        Some(s) => match parse_rfc3339(s.as_str()) {
            Some((seconds, nanos)) => Some(Timestamp::from_representable(seconds, nanos)),
            None => None,
        },
        None => None,
    }
}

fn copy_entries(m: &Option<HashMap<String, String>>) -> (r: HashMap<String, String>)
    ensures
        r@ == entries_of(*m),
{
    match m {
        Some(c) => c.clone(),
        None => HashMap::new(),
    }
}

/// The metadata a JSON object description gives: size, last-modified
/// instant, entity tag and custom entries.
pub fn metadata_from_record(o: &ObjectRecord) -> (r: Metadata)
    ensures
        record_describes(*o, r),
        r.normalized(),
{
    Metadata {
        content_type: None,
        content_encoding: None,
        size: o.size,
        last_modified: instant_from_rfc3339(&o.modified),
        etag: present_text(copy_text(&o.etag)),
        custom: copy_entries(&o.metadata),
    }
}

/// The JSON form of metadata.
pub open spec fn record_of(m: Metadata, r: MetadataRecord) -> bool {
    &&& r.content_type == m.content_type
    &&& r.content_encoding == m.content_encoding
    &&& r.size == m.size
    &&& (match m.last_modified {
        Some(t) => r.last_modified matches Some(s) && s@ == rfc3339_text(
            t.spec_seconds() as int,
            t.spec_nanos() as int,
        ),
        None => r.last_modified is None,
    })
    &&& r.etag == m.etag
    &&& (if m.custom@.len() == 0 {
        r.custom is None
    } else {
        r.custom matches Some(c) && c@ == m.custom@
    })
}

/// Metadata in the form the REST and QUIC APIs take it.
pub fn metadata_record(m: &Metadata) -> (r: MetadataRecord)
    ensures
        record_of(*m, r),
{
    let last_modified = match &m.last_modified {
        Some(t) => {
            let nanos = t.nanos();
            Some(format_rfc3339(t.seconds(), nanos))
        },
        None => None,
    };
    let custom = if m.custom.is_empty() {
        None
    } else {
        Some(m.custom.clone())
    };
    proof {
        assert(m.custom@.is_empty() <==> m.custom@.len() == 0) by {
            if m.custom@.len() == 0 {
                assert(m.custom@ =~= Map::empty());
            }
        }
    }
    MetadataRecord {
        content_type: copy_text(&m.content_type),
        content_encoding: copy_text(&m.content_encoding),
        size: m.size,
        last_modified,
        etag: copy_text(&m.etag),
        custom,
    }
}

/// What a JSON listing says of a listing page.
pub open spec fn listing_of(rec: ListRecord, r: ListResponse) -> bool {
    &&& r.objects@.len() == rec.objects@.len()
    &&& forall|i: int|
        0 <= i < r.objects@.len() ==> {
            &&& #[trigger] r.objects@[i].key == rec.objects@[i].key
            &&& record_describes(rec.objects@[i], r.objects@[i].metadata)
        }
    &&& r.common_prefixes@ == match rec.common_prefixes {
        Some(v) => v@,
        None => Seq::<String>::empty(),
    }
    &&& r.next_token == present(rec.next_token)
    &&& r.truncated == (rec.truncated || r.next_token is Some)
}

/// A copy of a list of texts.
pub(crate) fn copy_texts(v: &Vec<String>) -> (r: Vec<String>)
    ensures
        r@ == v@,
{
    let mut out: Vec<String> = Vec::new();
    let mut i: usize = 0;
    while i < v.len()
        invariant
            i <= v@.len(),
            out@ == v@.subrange(0, i as int),
        decreases v@.len() - i,
    {
        out.push(v[i].clone());
        i = i + 1;
        proof {
            assert(out@ =~= v@.subrange(0, i as int));
        }
    }
    proof {
        assert(v@.subrange(0, i as int) =~= v@);
    }
    out
}

/// The listing page a JSON listing describes. A page that carries a
/// continuation token counts as truncated whatever the server's flag says.
pub fn listing_from_record(rec: &ListRecord) -> (r: ListResponse)
    ensures
        listing_of(*rec, r),
{
    let mut objects: Vec<ObjectInfo> = Vec::new();
    let mut i: usize = 0;
    while i < rec.objects.len()
        invariant
            i <= rec.objects@.len(),
            objects@.len() == i,
            forall|j: int|
                0 <= j < i ==> {
                    &&& #[trigger] objects@[j].key == rec.objects@[j].key
                    &&& record_describes(rec.objects@[j], objects@[j].metadata)
                },
        decreases rec.objects@.len() - i,
    {
        let o = &rec.objects[i];
        objects.push(ObjectInfo { key: o.key.clone(), metadata: metadata_from_record(o) });
        i = i + 1;
    }
    let common_prefixes = match &rec.common_prefixes {
        Some(v) => copy_texts(v),
        None => Vec::new(),
    };
    let next_token = present_text(copy_text(&rec.next_token));
    let truncated = rec.truncated || next_token.is_some();
    ListResponse { objects, common_prefixes, next_token, truncated }
}

/// The health the REST API reports in its body: serving exactly when the
/// status reads `healthy` or `serving`; the version, if any, as message.
pub fn health_from_record(rec: &HealthRecord) -> (r: HealthResponse)
    ensures
        r.status == if rec.status@ == "healthy"@ || rec.status@ == "serving"@ {
            HealthStatus::Serving
        } else {
            HealthStatus::NotServing
        },
        r.message == rec.version,
{
    let serving = rec.status == String::from_str("healthy") || rec.status == String::from_str("serving");
    HealthResponse {
        status: if serving { HealthStatus::Serving } else { HealthStatus::NotServing },
        message: copy_text(&rec.version),
    }
}

/// The size a `content-length` header gives: its value when it is a
/// decimal integer, else 0.
pub open spec fn length_of(text: Option<String>) -> i64 {
    match text {
        Some(s) => match parsed_i64(s@) {
            Some(n) => n,
            None => 0,
        },
        None => 0,
    }
}

/// The metadata the REST API sends in the headers of an object: content
/// type, length, entity tag and last-modified instant (RFC 2822).
pub fn metadata_from_headers(
    content_type: Option<String>,
    content_length: Option<String>,
    etag: Option<String>,
    last_modified: Option<String>,
) -> (r: Metadata)
    ensures
        r.content_type == present(content_type),
        r.content_encoding is None,
        r.size == length_of(content_length),
        r.etag == present(etag),
        instant_parts(r.last_modified) == rfc2822_parts(last_modified),
        r.custom@ == Map::<String, String>::empty(),
        r.normalized(),
{
    let size = match &content_length {
        Some(s) => match parse_i64(s.as_str()) {
            Some(n) => n,
            None => 0,
        },
        None => 0,
    };
    let last = match &last_modified {
        Some(s) => match parse_rfc2822(s.as_str()) {
            Some((seconds, nanos)) => Some(Timestamp::from_representable(seconds, nanos)),
            None => None,
        },
        None => None,
    };
    Metadata {
        content_type: present_text(content_type),
        content_encoding: None,
        size,
        last_modified: last,
        etag: present_text(etag),
        custom: HashMap::new(),
    }
}

/// The metadata the QUIC API gives with an object: content type and entity
/// tag from the headers, size from the body received.
pub fn metadata_from_body(content_type: Option<String>, etag: Option<String>, body: &Vec<u8>) -> (r: Metadata)
    requires
        body@.len() <= i64::MAX,
    ensures
        r.content_type == present(content_type),
        r.content_encoding is None,
        r.size == body@.len(),
        r.last_modified is None,
        r.etag == present(etag),
        r.custom@ == Map::<String, String>::empty(),
        r.normalized(),
{
    Metadata {
        content_type: present_text(content_type),
        content_encoding: None,
        size: body.len() as i64,
        last_modified: None,
        etag: present_text(etag),
        custom: HashMap::new(),
    }
}

} // verus!
