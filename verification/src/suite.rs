use vstd::prelude::*;

verus! {

// The protocol engine is driven under one fixed cipher suite, resolved at
// build time: Ristretto255 for both the OPRF group and the key-exchange
// group, the triple-Diffie-Hellman key exchange, and Argon2 as the password
// hardening function. Every encoded artifact this crate produces or accepts
// belongs to this suite.

#[verifier::external_type_specification]
#[verifier::external_body]
pub struct ExRistretto255(opaque_ke::Ristretto255);

#[verifier::external_type_specification]
#[verifier::external_body]
pub struct ExTripleDh(opaque_ke::key_exchange::tripledh::TripleDh);

#[verifier::external_type_specification]
#[verifier::external_body]
pub struct ExArgon2<'key>(argon2::Argon2<'key>);

pub struct DefaultCipherSuite;

impl opaque_ke::CipherSuite for DefaultCipherSuite {
    type OprfCs = opaque_ke::Ristretto255;
    type KeGroup = opaque_ke::Ristretto255;
    type KeyExchange = opaque_ke::key_exchange::tripledh::TripleDh;
    type Ksf = argon2::Argon2<'static>;
}

} // verus!
