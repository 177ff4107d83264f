use crate::error::Error;
use crate::http::{
    accepted, entries_of, record_describes, record_of, status_error, HttpStatus, MetadataRecord,
    ObjectCall, ObjectRecord,
};
use crate::types::{text_view, Metadata, Timestamp};
use crate::wire::{
    concat_chunks, first_metadata, nonempty, text_or_empty, wire_describes, wire_instant,
    wire_of, WireChunk, WireMetadata, WireTimestamp,
};
use vstd::prelude::*;

verus! {

/// A key the server reports missing (404) reads as absent everywhere over
/// REST and QUIC: `exists` is false, and reading the object, reading its
/// metadata or updating its metadata fails with "not found" for that key.
pub proof fn law_missing_key(status: HttpStatus, key: Seq<char>, e: Error)
    requires
        status.spec_code() == 404,
    ensures
        status.spec_code() != 200,
        !accepted(ObjectCall::Get, status),
        !accepted(ObjectCall::GetMetadata, status),
        !accepted(ObjectCall::UpdateMetadata, status),
        status_error(ObjectCall::Get, status, key, e) <==> (e matches Error::NotFound(k) && k@ == key),
        status_error(ObjectCall::GetMetadata, status, key, e) <==> (e matches Error::NotFound(k) && k@
            == key),
        status_error(ObjectCall::UpdateMetadata, status, key, e) <==> (e matches Error::NotFound(k)
            && k@ == key),
{
}

/// Custom metadata survives the JSON round trip: what is sent with an
/// object and kept by the server is what a later metadata read returns.
pub proof fn law_custom_round_trip_json(m: Metadata, sent: MetadataRecord, stored: ObjectRecord, read: Metadata)
    requires
        record_of(m, sent),
        stored.metadata == sent.custom,
        record_describes(stored, read),
    ensures
        read.custom@ == m.custom@,
{
    if m.custom@.len() == 0 {
        assert(m.custom@ =~= Map::<String, String>::empty());
    }
}

/// A valid instant survives the gRPC timestamp round trip unchanged.
pub proof fn law_timestamp_round_trip(t: Timestamp)
    requires
        t.wf(),
    ensures
        wire_instant(WireTimestamp { seconds: t.spec_seconds(), nanos: t.spec_nanos() as i32 })
            == (t.spec_seconds(), t.spec_nanos()),
{
}

/// Normalized metadata survives the gRPC round trip field by field: absent
/// texts stay absent, present ones and the custom map stay as they were, and
/// a present instant stays the same instant.
pub proof fn law_metadata_round_trip_wire(m: Metadata, w: WireMetadata, back: Metadata)
    requires
        m.normalized(),
        m.last_modified matches Some(t) ==> t.wf(),
        wire_of(m, w),
        wire_describes(w, back),
    ensures
        text_view(back.content_type) == text_view(m.content_type),
        text_view(back.content_encoding) == text_view(m.content_encoding),
        back.size == m.size,
        text_view(back.etag) == text_view(m.etag),
        back.custom@ == m.custom@,
        back.last_modified is Some <==> m.last_modified is Some,
        m.last_modified matches Some(t) ==> (back.last_modified matches Some(u) && u.spec_seconds()
            == t.spec_seconds() && u.spec_nanos() == t.spec_nanos()),
{
    lemma_text_round_trip(m.content_type, w.content_type);
    lemma_text_round_trip(m.content_encoding, w.content_encoding);
    lemma_text_round_trip(m.etag, w.etag);
}

proof fn lemma_text_round_trip(t: Option<String>, s: String)
    requires
        t matches Some(x) ==> x@.len() > 0,
        s@ == text_or_empty(t),
    ensures
        text_view(nonempty(s)) == text_view(t),
{
}

/// In a stream, the metadata kept is that of the first chunk carrying any,
/// whatever later chunks carry.
pub proof fn law_first_metadata_wins(chunks: Seq<WireChunk>, k: int)
    requires
        0 <= k < chunks.len(),
        chunks[k].metadata is Some,
        forall|j: int| 0 <= j < k ==> (#[trigger] chunks[j]).metadata is None,
    ensures
        first_metadata(chunks) == chunks[k].metadata,
    decreases k,
{
    if k > 0 {
        assert(chunks[0].metadata is None);
        let rest = chunks.drop_first();
        assert forall|j: int| 0 <= j < k - 1 implies (#[trigger] rest[j]).metadata is None by {
            assert(rest[j] == chunks[j + 1]);
        }
        law_first_metadata_wins(rest, k - 1);
    }
}

/// The bytes of a stream cut anywhere are the bytes of its two parts, in
/// order: how an object is split into chunks does not change what is
/// assembled.
pub proof fn law_chunking_is_transparent(a: Seq<WireChunk>, b: Seq<WireChunk>)
    ensures
        concat_chunks(a + b) == concat_chunks(a) + concat_chunks(b),
    decreases b.len(),
{
    if b.len() == 0 {
        assert(a + b =~= a);
        assert(concat_chunks(b) =~= Seq::<u8>::empty());
        assert(concat_chunks(a) + concat_chunks(b) =~= concat_chunks(a));
    } else {
        assert((a + b).drop_last() =~= a + b.drop_last());
        assert((a + b).last() == b.last());
        law_chunking_is_transparent(a, b.drop_last());
        assert(concat_chunks(a) + concat_chunks(b) =~= concat_chunks(a) + concat_chunks(b.drop_last())
            + b.last().data@);
    }
}

} // verus!
