//! Client-side core of an object-storage SDK that speaks REST, gRPC and
//! QUIC/HTTP-3: the shared data model, the error taxonomy, and the rules that
//! map each operation to and from the three wire encodings.
//!
//! - `types`: the protocol-neutral data model.
//! - `error`: one error type for every failure, by kind.
//! - `http`: requests, status rules and JSON records of the REST and QUIC APIs.
//! - `wire`: message shapes and conversions of the gRPC API.
//! - `facade`: the protocol set and which operations each offers.
//! - `transport`: how a QUIC endpoint is set up.
//! - `laws`: properties that hold across operations.
//! - `text`: text encodings and the outside functions they rest on.

pub mod error;
pub mod facade;
pub mod http;
pub mod laws;
pub mod text;
pub mod transport;
pub mod types;
pub mod wire;

pub use error::{Error, Result};
pub use facade::{extended_gate, ExtendedOperation, Protocol};
pub use http::{HttpMethod, HttpStatus, ObjectCall, QuicRoutes, RequestPlan, RestRoutes};
pub use transport::{quic_setup, QuicSetup, TlsVerification};
pub use types::{
    DeleteResponse, EncryptionConfig, EncryptionPolicy, HealthResponse, HealthStatus,
    LifecyclePolicy, ListRequest, ListResponse, Metadata, ObjectInfo, PutResponse,
    ReplicationMode, ReplicationPolicy, ReplicationStatus, SyncResult, Timestamp,
};
