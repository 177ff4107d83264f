use crate::error::Error;
use vstd::prelude::*;

verus! {

/// The three wire protocols a client can be built on.
#[derive(Clone, Copy, Debug, PartialEq, Eq, Structural)]
pub enum Protocol {
    Rest,
    Grpc,
    Quic,
}

impl Protocol {
    /// Every protocol, each once.
    pub fn all() -> (r: Vec<Protocol>)
        ensures
            r@ == seq![Protocol::Rest, Protocol::Grpc, Protocol::Quic],
    {
        let mut v: Vec<Protocol> = Vec::new();
        v.push(Protocol::Rest);
        v.push(Protocol::Grpc);
        v.push(Protocol::Quic);
        proof {
            assert(v@ =~= seq![Protocol::Rest, Protocol::Grpc, Protocol::Quic]);
        }
        v
    }

    /// The protocol's display name.
    pub fn name(&self) -> (r: &'static str)
        ensures
            r@ == match *self {
                Protocol::Rest => "REST"@,
                Protocol::Grpc => "gRPC"@,
                Protocol::Quic => "QUIC"@,
            },
    {
        match self {
            Protocol::Rest => "REST",
            Protocol::Grpc => "gRPC",
            Protocol::Quic => "QUIC",
        }
    }

    /// Whether lifecycle, replication and archive operations are offered:
    /// over gRPC only.
    pub fn supports_advanced_features(&self) -> (r: bool)
        ensures
            r == (*self == Protocol::Grpc),
    {
        *self == Protocol::Grpc
    }
}

/// The operations beyond the common contract.
#[derive(Clone, Copy, Debug, PartialEq, Eq, Structural)]
pub enum ExtendedOperation {
    Archive,
    AddPolicy,
    RemovePolicy,
    GetPolicies,
    ApplyPolicies,
    AddReplicationPolicy,
    RemoveReplicationPolicy,
    GetReplicationPolicies,
    GetReplicationPolicy,
    TriggerReplication,
    GetReplicationStatus,
}

/// The message that names an extended operation's feature and where it is
/// offered.
pub open spec fn unsupported_message(op: ExtendedOperation) -> Seq<char> {
    match op {
        ExtendedOperation::Archive => "Archive only supported on gRPC client"@,
        ExtendedOperation::AddPolicy | ExtendedOperation::RemovePolicy | ExtendedOperation::GetPolicies
        | ExtendedOperation::ApplyPolicies => "Lifecycle policies only supported on gRPC client"@,
        ExtendedOperation::TriggerReplication => "Replication only supported on gRPC client"@,
        ExtendedOperation::GetReplicationStatus => "Replication status only supported on gRPC client"@,
        _ => "Replication policies only supported on gRPC client"@,
    }
}

/// Whether an extended operation may go ahead on a client of `protocol`.
/// Over REST or QUIC it fails at once with an "unsupported" error naming
/// the feature, before anything is sent.
pub fn extended_gate(protocol: Protocol, op: ExtendedOperation) -> (r: Result<(), Error>)
    ensures
        r is Ok <==> protocol == Protocol::Grpc,
        r matches Err(e) ==> (e matches Error::Unsupported(m) && m@ == unsupported_message(op)),
{
    if protocol == Protocol::Grpc {
        Ok(())
    } else {
        let m: &str = match op {
            ExtendedOperation::Archive => "Archive only supported on gRPC client",
            ExtendedOperation::AddPolicy | ExtendedOperation::RemovePolicy
            | ExtendedOperation::GetPolicies
            | ExtendedOperation::ApplyPolicies => "Lifecycle policies only supported on gRPC client",
            ExtendedOperation::TriggerReplication => "Replication only supported on gRPC client",
            ExtendedOperation::GetReplicationStatus => "Replication status only supported on gRPC client",
            _ => "Replication policies only supported on gRPC client",
        };
        Err(Error::Unsupported(String::from_str(m)))
    }
}

} // verus!
