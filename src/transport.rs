use vstd::prelude::*;

verus! {

/// How a QUIC client treats the server's certificate.
#[derive(Clone, Copy, Debug, PartialEq, Eq, Structural)]
pub enum TlsVerification {
    /// Check the chain against the platform's trusted roots and the host name.
    Enabled,
    /// Accept any certificate. Only for test environments.
    Disabled,
}

impl Default for TlsVerification {
    fn default() -> (r: TlsVerification)
        ensures
            r == TlsVerification::Enabled,
    {
        TlsVerification::Enabled
    }
}

/// The QUIC idle timeout, in seconds.
pub const IDLE_TIMEOUT_SECONDS: u64 = 30;

/// The warning printed when certificates go unchecked.
pub open spec fn insecure_warning() -> Seq<char> {
    "WARNING: TLS certificate verification is DISABLED. This is INSECURE and should only be used for testing!"@
}

/// How a QUIC endpoint is to be set up: whether certificates are checked,
/// the warning to print when they are not, the application protocol to
/// negotiate and the idle timeout.
#[derive(Debug, Clone)]
pub struct QuicSetup {
    pub verify_certificates: bool,
    pub warning: Option<String>,
    pub alpn: Vec<u8>,
    pub idle_timeout_seconds: u64,
}

/// The endpoint setup for a trust mode: checking certificates unless told
/// not to, with a loud warning then; HTTP/3 (`h3`) over a 30 s idle timeout
/// either way.
pub fn quic_setup(tls: TlsVerification) -> (r: QuicSetup)
    ensures
        r.verify_certificates == (tls == TlsVerification::Enabled),
        r.warning is Some <==> tls == TlsVerification::Disabled,
        r.warning matches Some(w) ==> w@ == insecure_warning(),
        r.alpn@ == seq![104u8, 51u8],
        r.idle_timeout_seconds == IDLE_TIMEOUT_SECONDS,
{
    let mut alpn: Vec<u8> = Vec::new();
    alpn.push(104u8);
    alpn.push(51u8);
    proof {
        assert(alpn@ =~= seq![104u8, 51u8]);
    }
    let warning = match tls {
        TlsVerification::Enabled => None,
        TlsVerification::Disabled => Some(String::from_str(
            "WARNING: TLS certificate verification is DISABLED. This is INSECURE and should only be used for testing!",
        )),
    };
    QuicSetup {
        verify_certificates: tls == TlsVerification::Enabled,
        warning,
        alpn,
        idle_timeout_seconds: IDLE_TIMEOUT_SECONDS,
    }
}

} // verus!
