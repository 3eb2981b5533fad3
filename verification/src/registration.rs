use vstd::prelude::*;

use crate::codec::{b64_decode_of, b64_encode_of, decode, encode};
use crate::engine::{
    client_registration_finish_bytes, client_registration_start_bytes,
    parses_client_registration_state, parses_registration_record, parses_registration_request,
    parses_registration_response, parses_server_setup, password_file_of,
    registration_response_of, server_registration_finish_bytes, server_registration_start_bytes,
};
use crate::errors::{is_b64_err, is_input_err, is_protocol_err, Context, Error};
use crate::identity::{get_optional_string, ident_ok};

verus! {

pub struct StartClientRegistrationParams {
    pub password: String,
}

pub struct StartClientRegistrationResult {
    pub client_registration_state: String,
    pub registration_request: String,
}

/// Begins registration on the client: the engine blinds the password with
/// fresh randomness, and both the private state and the request to send
/// leave as encoded blobs. Fails only on an internal engine fault.
pub fn opaque_start_client_registration(params: StartClientRegistrationParams) -> (r: Result<
    StartClientRegistrationResult,
    Error,
>)
    ensures
        r matches Ok(res) ==> ({
            &&& (b64_decode_of(res.client_registration_state@) matches Some(b)
                && parses_client_registration_state(b))
            &&& (b64_decode_of(res.registration_request@) matches Some(b)
                && parses_registration_request(b))
        }),
        r matches Err(e) ==> (e matches Error::Protocol { context, .. } && context
            == Context::StartClientRegistration),
{
    match client_registration_start_bytes(params.password.as_str().as_bytes()) {
        Ok(p) => {
            let (state, request) = p;
            Ok(
                StartClientRegistrationResult {
                    client_registration_state: encode(&state),
                    registration_request: encode(&request),
                },
            )
        },
        Err(message) => Err(
            Error::Protocol { context: Context::StartClientRegistration, message },
        ),
    }
}

pub struct CreateServerRegistrationResponseParams {
    pub server_setup: String,
    pub user_identifier: String,
    pub registration_request: String,
}

pub struct CreateServerRegistrationResponseResult {
    pub registration_response: String,
}

/// Answers a registration request on the server: decodes the setup and the
/// request, evaluates the OPRF against the seed scoped to the credential
/// identifier, and re-encodes the response.
pub fn opaque_create_server_registration_response(
    params: CreateServerRegistrationResponseParams,
) -> (r: Result<CreateServerRegistrationResponseResult, Error>)
    ensures
        ({
            let st = b64_decode_of(params.server_setup@);
            &&& (st is None <==> is_b64_err(r, Context::ServerSetup))
            &&& st matches Some(sb) ==> ({
                let rq = b64_decode_of(params.registration_request@);
                &&& (rq is None <==> is_b64_err(r, Context::RegistrationRequest))
                &&& rq matches Some(qb) ==> ({
                    let id = vstd::utf8::encode_utf8(params.user_identifier@);
                    &&& (!parses_server_setup(sb) <==> is_protocol_err(
                        r,
                        Context::DeserializeServerSetup,
                    ))
                    &&& ((parses_server_setup(sb) && !parses_registration_request(qb)) <==> is_protocol_err(
                        r,
                        Context::DeserializeRegistrationRequest,
                    ))
                    &&& ((parses_server_setup(sb) && parses_registration_request(qb)
                        && registration_response_of(sb, qb, id) is None) <==> is_protocol_err(
                        r,
                        Context::StartServerRegistration,
                    ))
                    &&& (r matches Ok(res) ==> (registration_response_of(sb, qb, id) matches Some(
                        v,
                    ) && res.registration_response@ == b64_encode_of(v)))
                    &&& (r is Ok <==> (parses_server_setup(sb) && parses_registration_request(qb)
                        && registration_response_of(sb, qb, id) is Some))
                })
            })
        }),
{
    let setup_bytes = match decode(params.server_setup.as_str(), Context::ServerSetup) {
        Ok(v) => v,
        Err(e) => {
            return Err(e);
        },
    };
    let request_bytes = match decode(
        params.registration_request.as_str(),
        Context::RegistrationRequest,
    ) {
        Ok(v) => v,
        Err(e) => {
            return Err(e);
        },
    };
    match server_registration_start_bytes(
        setup_bytes.as_slice(),
        request_bytes.as_slice(),
        params.user_identifier.as_str().as_bytes(),
    ) {
        Ok(response) => Ok(
            CreateServerRegistrationResponseResult { registration_response: encode(&response) },
        ),
        Err(f) => Err(Error::Protocol { context: f.step, message: f.message }),
    }
}

pub struct FinishClientRegistrationParams {
    pub password: String,
    pub registration_response: String,
    pub client_registration_state: String,
    pub client_identifier: Vec<String>,
    pub server_identifier: Vec<String>,
}

pub struct FinishClientRegistrationResult {
    pub registration_record: String,
    pub export_key: String,
    pub server_static_public_key: String,
}

/// Completes registration on the client: unblinds the server's response,
/// derives the credential record and the export key, and binds the supplied
/// identifiers into the envelope (an absent identifier defaults to the
/// engine's binding, the corresponding static public key). Identifier lists
/// are validated before any engine work.
pub fn opaque_finish_client_registration(params: FinishClientRegistrationParams) -> (r: Result<
    FinishClientRegistrationResult,
    Error,
>)
    ensures
        ({
            let rb = b64_decode_of(params.registration_response@);
            let sb = b64_decode_of(params.client_registration_state@);
            &&& (rb is None <==> is_b64_err(r, Context::RegistrationResponse))
            &&& ((rb is Some && sb is None) <==> is_b64_err(r, Context::ClientRegistrationState))
            &&& ((rb is Some && sb is Some && !(ident_ok(params.server_identifier@) && ident_ok(
                params.client_identifier@,
            ))) <==> is_input_err(r))
            &&& rb matches Some(rbb) ==> (sb matches Some(sbb) ==> ((ident_ok(
                params.server_identifier@,
            ) && ident_ok(params.client_identifier@)) ==> ({
                &&& (!parses_client_registration_state(sbb) <==> is_protocol_err(
                    r,
                    Context::DeserializeClientRegistrationState,
                ))
                &&& ((parses_client_registration_state(sbb) && !parses_registration_response(rbb))
                    <==> is_protocol_err(r, Context::DeserializeRegistrationResponse))
                &&& (r matches Err(e) ==> (e matches Error::Protocol { context, .. } && (context
                    == Context::DeserializeClientRegistrationState || context
                    == Context::DeserializeRegistrationResponse || context
                    == Context::FinishClientRegistration)))
                &&& (r is Ok ==> (parses_client_registration_state(sbb)
                    && parses_registration_response(rbb)))
                &&& (r matches Ok(res) ==> (b64_decode_of(res.registration_record@) is Some
                    && b64_decode_of(res.export_key@) is Some && b64_decode_of(
                    res.server_static_public_key@,
                ) is Some))
            })))
        }),
{
    let response_bytes = match decode(
        params.registration_response.as_str(),
        Context::RegistrationResponse,
    ) {
        Ok(v) => v,
        Err(e) => {
            return Err(e);
        },
    };
    let state_bytes = match decode(
        params.client_registration_state.as_str(),
        Context::ClientRegistrationState,
    ) {
        Ok(v) => v,
        Err(e) => {
            return Err(e);
        },
    };
    let server_ident = match get_optional_string(params.server_identifier) {
        Ok(v) => v,
        Err(e) => {
            return Err(e);
        },
    };
    let client_ident = match get_optional_string(params.client_identifier) {
        Ok(v) => v,
        Err(e) => {
            return Err(e);
        },
    };
    let cid: Option<&[u8]> = match &client_ident {
        Some(s) => Some(s.as_str().as_bytes()),
        None => None,
    };
    let sid: Option<&[u8]> = match &server_ident {
        Some(s) => Some(s.as_str().as_bytes()),
        None => None,
    };
    match client_registration_finish_bytes(
        state_bytes.as_slice(),
        params.password.as_str().as_bytes(),
        response_bytes.as_slice(),
        cid,
        sid,
    ) {
        Ok(t) => {
            let (record, export_key, server_pk) = t;
            Ok(
                FinishClientRegistrationResult {
                    registration_record: encode(&record),
                    export_key: encode(&export_key),
                    server_static_public_key: encode(&server_pk),
                },
            )
        },
        Err(f) => Err(Error::Protocol { context: f.step, message: f.message }),
    }
}

/// Completes registration on the server: a pure re-encoding validation step
/// that decodes the incoming record and emits the canonical persisted
/// password file, which the host stores under the credential identifier
/// used when the response was created.
pub fn opaque_finish_server_registration(registration_record: String) -> (r: Result<
    String,
    Error,
>)
    ensures
        ({
            let d = b64_decode_of(registration_record@);
            &&& (d is None <==> is_b64_err(r, Context::RegistrationRecord))
            &&& ((d matches Some(b) && !parses_registration_record(b)) <==> is_protocol_err(
                r,
                Context::DeserializeRegistrationRecord,
            ))
            &&& (d matches Some(b) ==> (parses_registration_record(b) ==> (r matches Ok(p) && p@
                == b64_encode_of(password_file_of(b)))))
            &&& (r is Ok ==> (d matches Some(b) && parses_registration_record(b)))
        }),
{
    let record_bytes = match decode(registration_record.as_str(), Context::RegistrationRecord) {
        Ok(v) => v,
        Err(e) => {
            return Err(e);
        },
    };
    match server_registration_finish_bytes(record_bytes.as_slice()) {
        Ok(file) => Ok(encode(&file)),
        Err(message) => Err(
            Error::Protocol { context: Context::DeserializeRegistrationRecord, message },
        ),
    }
}

} // verus!
