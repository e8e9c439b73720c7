use dns_dispatch::{log_level, LogLevel, TrustPolicy, Verdict, VerificationCall};

const WARNING: &str = ";!!!THIS IS NOT VERIFYING THE SERVER TLS CERTIFICATE!!!";

#[test]
fn the_flag_selects_the_policy() {
    assert_eq!(TrustPolicy::from_flag(false), TrustPolicy::VerifyDefaultRoots);
    assert_eq!(TrustPolicy::from_flag(true), TrustPolicy::AcceptAny);
    assert!(!TrustPolicy::VerifyDefaultRoots.replaces_verifier());
    assert!(TrustPolicy::AcceptAny.replaces_verifier());
}

#[test]
fn every_bypassed_call_warns_once() {
    for call in [
        VerificationCall::ServerCert,
        VerificationCall::Tls12Signature,
        VerificationCall::Tls13Signature,
    ] {
        match TrustPolicy::AcceptAny.on_verification(call) {
            Verdict::AcceptedUnverified { warning } => assert_eq!(warning, WARNING),
            Verdict::Deferred => panic!("the override must answer {call:?}"),
        }
    }
}

#[test]
fn the_default_policy_leaves_every_call_alone() {
    for call in [
        VerificationCall::ServerCert,
        VerificationCall::Tls12Signature,
        VerificationCall::Tls13Signature,
    ] {
        assert!(matches!(
            TrustPolicy::VerifyDefaultRoots.on_verification(call),
            Verdict::Deferred
        ));
    }
}

#[test]
fn the_most_talkative_switch_wins() {
    assert_eq!(log_level(false, false, false, false), LogLevel::Off);
    assert_eq!(log_level(false, false, false, true), LogLevel::Error);
    assert_eq!(log_level(false, false, true, true), LogLevel::Warn);
    assert_eq!(log_level(false, true, false, true), LogLevel::Info);
    assert_eq!(log_level(true, true, true, true), LogLevel::Debug);
    assert_eq!(log_level(true, false, false, false), LogLevel::Debug);
    assert_eq!(log_level(false, false, true, false), LogLevel::Warn);
}
