//! The certificate trust policy of a run.

use vstd::prelude::*;
use vstd::string::*;

verus! {

/// How the server's certificate is judged during a handshake. Exactly one
/// policy is in force for a run.
#[derive(Clone, Copy, Debug, PartialEq, Eq, Structural)]
pub enum TrustPolicy {
    /// The chain and the handshake signatures are verified against the
    /// default trust anchors.
    VerifyDefaultRoots,
    /// Every certificate and every signature is accepted. The handshake is
    /// still carried out; only the checks are skipped.
    AcceptAny,
}

/// The three places of a handshake at which a verifier is asked.
#[derive(Clone, Copy, Debug, PartialEq, Eq, Structural)]
pub enum VerificationCall {
    ServerCert,
    Tls12Signature,
    Tls13Signature,
}

/// What a policy says to one verification call.
#[derive(Debug)]
pub enum Verdict {
    /// The policy does not interfere: the ordinary verifier decides.
    Deferred,
    /// The call succeeds unverified, and `warning` is shown to the user.
    AcceptedUnverified { warning: String },
}

/// The line shown each time a certificate or signature is accepted unverified.
pub open spec fn bypass_warning_text() -> Seq<char> {
    ";!!!THIS IS NOT VERIFYING THE SERVER TLS CERTIFICATE!!!"@
}

impl TrustPolicy {
    pub open spec fn of_flag(do_not_verify: bool) -> TrustPolicy {
        if do_not_verify {
            TrustPolicy::AcceptAny
        } else {
            TrustPolicy::VerifyDefaultRoots
        }
    }

    /// Whether the policy replaces the ordinary verifier.
    pub open spec fn overrides_verifier(self) -> bool {
        self is AcceptAny
    }

    /// The policy that the insecure flag selects.
    pub fn from_flag(do_not_verify: bool) -> (policy: TrustPolicy)
        ensures
            policy == Self::of_flag(do_not_verify),
    {
        if do_not_verify {
            TrustPolicy::AcceptAny
        } else {
            TrustPolicy::VerifyDefaultRoots
        }
    }

    pub fn replaces_verifier(self) -> (b: bool)
        ensures
            b == self.overrides_verifier(),
    {
        match self {
            TrustPolicy::AcceptAny => true,
            TrustPolicy::VerifyDefaultRoots => false,
        }
    }

    /// The answer to one verification call. Under `AcceptAny` each of the
    /// three calls is answered alike: accepted, with the warning once.
    pub fn on_verification(self, call: VerificationCall) -> (verdict: Verdict)
        ensures
            self is VerifyDefaultRoots ==> verdict is Deferred,
            self is AcceptAny ==> (verdict matches Verdict::AcceptedUnverified { warning }
                && warning@ == bypass_warning_text()),
    {
        match self {
            TrustPolicy::VerifyDefaultRoots => Verdict::Deferred,
            TrustPolicy::AcceptAny => Verdict::AcceptedUnverified {
                warning: String::from_str(
                    ";!!!THIS IS NOT VERIFYING THE SERVER TLS CERTIFICATE!!!",
                ),
            },
        }
    }
}

} // verus!
