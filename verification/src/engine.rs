use vstd::prelude::*;

use crate::errors::Context;
use crate::errors::Context::{
    DeserializeClientLoginState, DeserializeClientRegistrationState,
    DeserializeFinishLoginRequest, DeserializeLoginResponse, DeserializeRegistrationRecord,
    DeserializeRegistrationRequest, DeserializeRegistrationResponse, DeserializeServerSetup,
    DeserializeServerLoginState, DeserializeStartLoginRequest, FinishClientRegistration,
    FinishServerLogin, StartServerLogin, StartServerRegistration,
};
use crate::suite::DefaultCipherSuite;
use opaque_ke::rand::rngs::OsRng;
use opaque_ke::{
    ClientLogin, ClientLoginFinishParameters, ClientRegistration,
    ClientRegistrationFinishParameters, CredentialFinalization, CredentialRequest,
    CredentialResponse, Identifiers, RegistrationRequest, RegistrationResponse,
    RegistrationUpload, ServerLogin, ServerLoginStartParameters, ServerRegistration, ServerSetup,
};

verus! {

// Whether a byte string deserializes as a typed protocol object of the fixed
// cipher suite is a function of the bytes alone; one name per deserializer.

/// Whether `ServerSetup::deserialize` accepts the bytes.
pub uninterp spec fn parses_server_setup(b: Seq<u8>) -> bool;

/// Whether `RegistrationRequest::deserialize` accepts the bytes.
pub uninterp spec fn parses_registration_request(b: Seq<u8>) -> bool;

/// Whether `RegistrationResponse::deserialize` accepts the bytes.
pub uninterp spec fn parses_registration_response(b: Seq<u8>) -> bool;

/// Whether `ClientRegistration::deserialize` accepts the bytes.
pub uninterp spec fn parses_client_registration_state(b: Seq<u8>) -> bool;

/// Whether `ServerRegistration::deserialize` accepts the bytes.
pub uninterp spec fn parses_registration_record(b: Seq<u8>) -> bool;

/// Whether `CredentialRequest::deserialize` accepts the bytes.
pub uninterp spec fn parses_credential_request(b: Seq<u8>) -> bool;

/// Whether `CredentialResponse::deserialize` accepts the bytes.
pub uninterp spec fn parses_credential_response(b: Seq<u8>) -> bool;

/// Whether `ClientLogin::deserialize` accepts the bytes.
pub uninterp spec fn parses_client_login_state(b: Seq<u8>) -> bool;

/// Whether `ServerLogin::deserialize` accepts the bytes.
pub uninterp spec fn parses_server_login_state(b: Seq<u8>) -> bool;

/// Whether `CredentialFinalization::deserialize` accepts the bytes.
pub uninterp spec fn parses_credential_finalization(b: Seq<u8>) -> bool;

/// The serialized public half of the keypair held in a serialized server
/// setup; meaningful where the setup bytes parse.
pub uninterp spec fn server_public_key_of(setup: Seq<u8>) -> Seq<u8>;

/// The serialized registration response that `ServerRegistration::start`
/// derives from a parsed setup, a parsed request and a credential
/// identifier, or `None` where that call fails; the call draws no
/// randomness, so the outcome is a function of its arguments.
pub uninterp spec fn registration_response_of(
    setup: Seq<u8>,
    request: Seq<u8>,
    credential_id: Seq<u8>,
) -> Option<Seq<u8>>;

/// The canonical persisted password file that `ServerRegistration::finish`
/// re-encodes a parsed registration record to; meaningful where the record
/// bytes parse.
pub uninterp spec fn password_file_of(record: Seq<u8>) -> Seq<u8>;

/// What `ClientLogin::finish` returns for a parsed state, a password, a
/// parsed credential response and the optional identifier bindings: the
/// serialized credential finalization, the session key, the export key and
/// the server's static public key, or `None` where the engine rejects the
/// exchange (in particular on a wrong password or mismatched identifiers).
/// The call draws no randomness, so the outcome is a function of its
/// arguments.
pub uninterp spec fn client_login_finish_of(
    state: Seq<u8>,
    password: Seq<u8>,
    response: Seq<u8>,
    client_id: Option<Seq<u8>>,
    server_id: Option<Seq<u8>>,
) -> Option<(Seq<u8>, Seq<u8>, Seq<u8>, Seq<u8>)>;

/// The session key that `ServerLogin::finish` derives from a parsed server
/// login state and a parsed credential finalization, or `None` where the
/// key-confirmation check fails; the call draws no randomness, so the
/// outcome is a function of its arguments.
pub uninterp spec fn server_login_finish_of(state: Seq<u8>, finalization: Seq<u8>) -> Option<
    Seq<u8>,
>;

/// A failure inside the engine boundary: the step that failed and the
/// engine's diagnostic.
pub struct EngineFault {
    pub step: Context,
    pub message: String,
}

/// Relies on `core::fmt::Display` of the engine's error types: renders the
/// diagnostic of a failed outside call beside the step that failed.
#[verifier::external_body]
fn efault<E: core::fmt::Display>(step: Context, e: E) -> (r: EngineFault)
    ensures
        r.step == step,
{
    EngineFault { step, message: e.to_string() }
}

/// The optional identifier binding an optional byte slice stands for.
pub open spec fn opt_bytes_view(o: Option<&[u8]>) -> Option<Seq<u8>> {
    match o {
        Some(b) => Some(b@),
        None => None,
    }
}

/// Whether an optional registration record is absent or parses.
pub open spec fn opt_record_parses(record: Option<&[u8]>) -> bool {
    match record {
        Some(b) => parses_registration_record(b@),
        None => true,
    }
}

/// Relies on `ServerSetup::new` and `ServerSetup::serialize`: a freshly
/// generated setup serializes to bytes that `ServerSetup::deserialize`
/// accepts (serialization is the concatenation of the seed and two secret
/// keys at the lengths deserialization checks).
#[verifier::external_body]
pub(crate) fn create_server_setup_bytes() -> (r: Vec<u8>)
    ensures
        parses_server_setup(r@),
{
    ServerSetup::<DefaultCipherSuite>::new(&mut OsRng).serialize().to_vec()
}

/// Relies on `ServerSetup::deserialize`, `ServerSetup::keypair`,
/// `KeyPair::public` and `PublicKey::serialize`: deserialization succeeds on
/// exactly the byte strings it accepts, and the extracted public key is a
/// function of the setup bytes.
#[verifier::external_body]
pub(crate) fn server_public_key_bytes(setup: &[u8]) -> (r: Result<Vec<u8>, String>)
    ensures
        r is Ok <==> parses_server_setup(setup@),
        r matches Ok(v) ==> v@ == server_public_key_of(setup@),
{
    let setup = ServerSetup::<DefaultCipherSuite>::deserialize(setup).map_err(|e| e.to_string())?;
    Ok(setup.keypair().public().serialize().to_vec())
}

/// Relies on `ClientRegistration::start` with fresh randomness, and on the
/// serializers of its state and message: both serialize to bytes their
/// deserializers accept.
#[verifier::external_body]
pub(crate) fn client_registration_start_bytes(password: &[u8]) -> (r: Result<
    (Vec<u8>, Vec<u8>),
    String,
>)
    ensures
        r matches Ok(p) ==> (parses_client_registration_state(p.0@)
            && parses_registration_request(p.1@)),
{
    let result = ClientRegistration::<DefaultCipherSuite>::start(&mut OsRng, password)
        .map_err(|e| e.to_string())?;
    Ok((result.state.serialize().to_vec(), result.message.serialize().to_vec()))
}

/// Relies on `ServerSetup::deserialize`, `RegistrationRequest::deserialize`
/// and `ServerRegistration::start`, with the message serialized by
/// `RegistrationResponse::serialize`: each deserializer accepts exactly the
/// bytes it parses, and the start call draws no randomness.
#[verifier::external_body]
pub(crate) fn server_registration_start_bytes(
    setup: &[u8],
    request: &[u8],
    credential_id: &[u8],
) -> (r: Result<Vec<u8>, EngineFault>)
    ensures
        !parses_server_setup(setup@) <==> (r matches Err(f) && f.step
            == Context::DeserializeServerSetup),
        (parses_server_setup(setup@) && !parses_registration_request(request@)) <==> (r matches
        Err(f) && f.step == Context::DeserializeRegistrationRequest),
        (parses_server_setup(setup@) && parses_registration_request(request@)
            && registration_response_of(setup@, request@, credential_id@) is None) <==> (r matches
        Err(f) && f.step == Context::StartServerRegistration),
        r matches Err(f) ==> (f.step == Context::DeserializeServerSetup || f.step
            == Context::DeserializeRegistrationRequest || f.step
            == Context::StartServerRegistration),
        r matches Ok(v) ==> registration_response_of(setup@, request@, credential_id@) == Some(v@),
{
    let setup = ServerSetup::<DefaultCipherSuite>::deserialize(setup).map_err(|e| efault(DeserializeServerSetup, e))?;
    let request = RegistrationRequest::deserialize(request).map_err(|e| efault(DeserializeRegistrationRequest, e))?;
    let result = ServerRegistration::start(&setup, request, credential_id)
        .map_err(|e| efault(StartServerRegistration, e))?;
    Ok(result.message.serialize().to_vec())
}

/// Relies on `ClientRegistration::deserialize`,
/// `RegistrationResponse::deserialize` and `ClientRegistration::finish` with
/// fresh envelope randomness: each deserializer accepts exactly the bytes it
/// parses, and the finish step runs only after both have parsed.
#[verifier::external_body]
pub(crate) fn client_registration_finish_bytes(
    state: &[u8],
    password: &[u8],
    response: &[u8],
    client_id: Option<&[u8]>,
    server_id: Option<&[u8]>,
) -> (r: Result<(Vec<u8>, Vec<u8>, Vec<u8>), EngineFault>)
    ensures
        !parses_client_registration_state(state@) <==> (r matches Err(f) && f.step
            == Context::DeserializeClientRegistrationState),
        (parses_client_registration_state(state@) && !parses_registration_response(response@))
            <==> (r matches Err(f) && f.step == Context::DeserializeRegistrationResponse),
        r matches Err(f) ==> (f.step == Context::DeserializeClientRegistrationState || f.step
            == Context::DeserializeRegistrationResponse || f.step
            == Context::FinishClientRegistration),
        r is Ok ==> (parses_client_registration_state(state@) && parses_registration_response(
            response@,
        )),
{
    let state = ClientRegistration::<DefaultCipherSuite>::deserialize(state)
        .map_err(|e| efault(DeserializeClientRegistrationState, e))?;
    let response = RegistrationResponse::deserialize(response)
        .map_err(|e| efault(DeserializeRegistrationResponse, e))?;
    let params = ClientRegistrationFinishParameters::new(Identifiers { client: client_id, server: server_id }, None);
    let result = state.finish(&mut OsRng, password, response, params)
        .map_err(|e| efault(FinishClientRegistration, e))?;
    Ok((result.message.serialize().to_vec(), result.export_key.to_vec(), result.server_s_pk.serialize().to_vec()))
}

/// Relies on `RegistrationUpload::deserialize`,
/// `ServerRegistration::finish` and `ServerRegistration::serialize`: the
/// finish step wraps the parsed upload without further checks, and the
/// re-encoding is a function of the record bytes
/// (`ServerRegistration::deserialize` delegates to
/// `RegistrationUpload::deserialize`, so their acceptance coincides).
#[verifier::external_body]
pub(crate) fn server_registration_finish_bytes(record: &[u8]) -> (r: Result<Vec<u8>, String>)
    ensures
        r is Ok <==> parses_registration_record(record@),
        r matches Ok(v) ==> v@ == password_file_of(record@),
{
    let upload = RegistrationUpload::<DefaultCipherSuite>::deserialize(record)
        .map_err(|e| e.to_string())?;
    Ok(ServerRegistration::finish(upload).serialize().to_vec())
}

/// Relies on `ClientLogin::start` with fresh randomness, and on the
/// serializers of its state and message: both serialize to bytes their
/// deserializers accept.
#[verifier::external_body]
pub(crate) fn client_login_start_bytes(password: &[u8]) -> (r: Result<(Vec<u8>, Vec<u8>), String>)
    ensures
        r matches Ok(p) ==> (parses_client_login_state(p.0@) && parses_credential_request(p.1@)),
{
    let result = ClientLogin::<DefaultCipherSuite>::start(&mut OsRng, password)
        .map_err(|e| e.to_string())?;
    Ok((result.state.serialize().to_vec(), result.message.serialize().to_vec()))
}

/// Relies on `ServerSetup::deserialize`, `ServerRegistration::deserialize`,
/// `CredentialRequest::deserialize` and `ServerLogin::start` with fresh
/// randomness: each deserializer accepts exactly the bytes it parses, in
/// this order, and where no record is supplied the start call substitutes a
/// dummy record so that the response it produces has the shape of a genuine
/// one.
#[verifier::external_body]
pub(crate) fn server_login_start_bytes(
    setup: &[u8],
    record: Option<&[u8]>,
    request: &[u8],
    credential_id: &[u8],
    client_id: Option<&[u8]>,
    server_id: Option<&[u8]>,
) -> (r: Result<(Vec<u8>, Vec<u8>), EngineFault>)
    ensures
        !parses_server_setup(setup@) <==> (r matches Err(f) && f.step
            == Context::DeserializeServerSetup),
        (parses_server_setup(setup@) && (record matches Some(b) && !parses_registration_record(
            b@,
        ))) <==> (r matches Err(f) && f.step == Context::DeserializeRegistrationRecord),
        (parses_server_setup(setup@) && opt_record_parses(record) && !parses_credential_request(
            request@,
        )) <==> (r matches Err(f) && f.step == Context::DeserializeStartLoginRequest),
        r matches Err(f) ==> (f.step == Context::DeserializeServerSetup || f.step
            == Context::DeserializeRegistrationRecord || f.step
            == Context::DeserializeStartLoginRequest || f.step == Context::StartServerLogin),
        (r matches Err(f) && f.step == Context::StartServerLogin) ==> (parses_server_setup(setup@)
            && opt_record_parses(record) && parses_credential_request(request@)),
        r is Ok ==> (parses_server_setup(setup@) && opt_record_parses(record)
            && parses_credential_request(request@)),
{
    let setup = ServerSetup::<DefaultCipherSuite>::deserialize(setup).map_err(|e| efault(DeserializeServerSetup, e))?;
    let record = match record {
        Some(b) => Some(ServerRegistration::deserialize(b).map_err(|e| efault(DeserializeRegistrationRecord, e))?),
        None => None,
    };
    let request = CredentialRequest::deserialize(request).map_err(|e| efault(DeserializeStartLoginRequest, e))?;
    let params = ServerLoginStartParameters { context: None, identifiers: Identifiers { client: client_id, server: server_id } };
    let result = ServerLogin::start(&mut OsRng, &setup, record, request, credential_id, params)
        .map_err(|e| efault(StartServerLogin, e))?;
    Ok((result.state.serialize().to_vec(), result.message.serialize().to_vec()))
}

/// Relies on `ClientLogin::deserialize`, `CredentialResponse::deserialize`
/// and `ClientLogin::finish`: each deserializer accepts exactly the bytes it
/// parses; the finish call draws no randomness, and every failure of it is
/// the protocol's local detection of a wrong password, a tampered response
/// or mismatched identifiers, reported as the absent result.
#[verifier::external_body]
pub(crate) fn client_login_finish_bytes(
    state: &[u8],
    password: &[u8],
    response: &[u8],
    client_id: Option<&[u8]>,
    server_id: Option<&[u8]>,
) -> (r: Result<Option<(Vec<u8>, Vec<u8>, Vec<u8>, Vec<u8>)>, EngineFault>)
    ensures
        !parses_client_login_state(state@) <==> (r matches Err(f) && f.step
            == Context::DeserializeClientLoginState),
        (parses_client_login_state(state@) && !parses_credential_response(response@)) <==> (
        r matches Err(f) && f.step == Context::DeserializeLoginResponse),
        r is Ok <==> (parses_client_login_state(state@) && parses_credential_response(response@)),
        r matches Ok(o) ==> ({
            let out = client_login_finish_of(
                state@,
                password@,
                response@,
                opt_bytes_view(client_id),
                opt_bytes_view(server_id),
            );
            match o {
                Some(t) => out == Some((t.0@, t.1@, t.2@, t.3@)),
                None => out is None,
            }
        }),
{
    let state = ClientLogin::<DefaultCipherSuite>::deserialize(state)
        .map_err(|e| efault(DeserializeClientLoginState, e))?;
    let response = CredentialResponse::deserialize(response).map_err(|e| efault(DeserializeLoginResponse, e))?;
    let params = ClientLoginFinishParameters::new(None, Identifiers { client: client_id, server: server_id }, None);
    match state.finish(password, response, params) {
        Ok(r) => Ok(Some((r.message.serialize().to_vec(), r.session_key.to_vec(),
            r.export_key.to_vec(), r.server_s_pk.serialize().to_vec()))),
        Err(_) => Ok(None),
    }
}

/// Relies on `ServerLogin::deserialize`,
/// `CredentialFinalization::deserialize` and `ServerLogin::finish`: each
/// deserializer accepts exactly the bytes it parses, and the finish call
/// draws no randomness, failing exactly where the client's key-confirmation
/// value does not match the server's transcript.
#[verifier::external_body]
pub(crate) fn server_login_finish_bytes(state: &[u8], finalization: &[u8]) -> (r: Result<
    Vec<u8>,
    EngineFault,
>)
    ensures
        !parses_server_login_state(state@) <==> (r matches Err(f) && f.step
            == Context::DeserializeServerLoginState),
        (parses_server_login_state(state@) && !parses_credential_finalization(finalization@))
            <==> (r matches Err(f) && f.step == Context::DeserializeFinishLoginRequest),
        (parses_server_login_state(state@) && parses_credential_finalization(finalization@)
            && server_login_finish_of(state@, finalization@) is None) <==> (r matches Err(f)
            && f.step == Context::FinishServerLogin),
        r matches Err(f) ==> (f.step == Context::DeserializeServerLoginState || f.step
            == Context::DeserializeFinishLoginRequest || f.step == Context::FinishServerLogin),
        r matches Ok(v) ==> server_login_finish_of(state@, finalization@) == Some(v@),
{
    let state = ServerLogin::<DefaultCipherSuite>::deserialize(state)
        .map_err(|e| efault(DeserializeServerLoginState, e))?;
    let finalization = CredentialFinalization::deserialize(finalization)
        .map_err(|e| efault(DeserializeFinishLoginRequest, e))?;
    let result = state.finish(finalization).map_err(|e| efault(FinishServerLogin, e))?;
    Ok(result.session_key.to_vec())
}

} // verus!
