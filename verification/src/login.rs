use vstd::prelude::*;

use crate::codec::{b64_decode_of, b64_encode_of, decode, encode};
use crate::engine::{
    client_login_finish_bytes, client_login_finish_of, client_login_start_bytes,
    parses_client_login_state, parses_credential_finalization, parses_credential_request,
    parses_credential_response, parses_registration_record, parses_server_login_state,
    parses_server_setup, server_login_finish_bytes, server_login_finish_of,
    server_login_start_bytes,
};
use crate::errors::{is_b64_err, is_input_err, is_protocol_err, Context, Error};
use crate::identity::{get_optional_string, ident_ok, resolved_ident};

verus! {

pub struct StartClientLoginParams {
    pub password: String,
}

pub struct StartClientLoginResult {
    pub client_login_state: String,
    pub start_login_request: String,
}

/// Begins login on the client: the engine blinds the password and draws
/// fresh ephemeral key-exchange material; the private state and the request
/// to send leave as encoded blobs. Fails only on an internal engine fault.
pub fn opaque_start_client_login(params: StartClientLoginParams) -> (r: Result<
    StartClientLoginResult,
    Error,
>)
    ensures
        r matches Ok(res) ==> ({
            &&& (b64_decode_of(res.client_login_state@) matches Some(b)
                && parses_client_login_state(b))
            &&& (b64_decode_of(res.start_login_request@) matches Some(b)
                && parses_credential_request(b))
        }),
        r matches Err(e) ==> (e matches Error::Protocol { context, .. } && context
            == Context::StartClientLogin),
{
    match client_login_start_bytes(params.password.as_str().as_bytes()) {
        Ok(p) => {
            let (state, request) = p;
            Ok(
                StartClientLoginResult {
                    client_login_state: encode(&state),
                    start_login_request: encode(&request),
                },
            )
        },
        Err(message) => Err(Error::Protocol { context: Context::StartClientLogin, message }),
    }
}

pub struct StartServerLoginParams {
    pub server_setup: String,
    pub registration_record: Vec<String>,
    pub start_login_request: String,
    pub user_identifier: String,
    pub client_identifier: Vec<String>,
    pub server_identifier: Vec<String>,
}

pub struct StartServerLoginResult {
    pub server_login_state: String,
    pub login_response: String,
}

/// Whether an absent record is accepted or a present one parses.
pub open spec fn rec_parses(rec: Option<Seq<u8>>) -> bool {
    match rec {
        Some(rb) => parses_registration_record(rb),
        None => true,
    }
}

/// What the server login start reports once its text fields are decoded and
/// its identifier lists are validated: which deserialization step a
/// protocol error names, and that a success leaves decodable state and
/// response blobs. Whether the exchange itself succeeds also depends on the
/// randomness the engine draws, so no more is pinned here.
pub open spec fn server_login_engine_stage(
    r: Result<StartServerLoginResult, Error>,
    sb: Seq<u8>,
    rec: Option<Seq<u8>>,
    qb: Seq<u8>,
) -> bool {
    &&& (!parses_server_setup(sb) <==> is_protocol_err(r, Context::DeserializeServerSetup))
    &&& ((parses_server_setup(sb) && (rec matches Some(rb) && !parses_registration_record(rb)))
        <==> is_protocol_err(r, Context::DeserializeRegistrationRecord))
    &&& ((parses_server_setup(sb) && rec_parses(rec) && !parses_credential_request(qb)) <==> is_protocol_err(
        r,
        Context::DeserializeStartLoginRequest,
    ))
    &&& (r matches Err(e) ==> (e matches Error::Protocol { context, .. } && (context
        == Context::DeserializeServerSetup || context == Context::DeserializeRegistrationRecord
        || context == Context::DeserializeStartLoginRequest || context
        == Context::StartServerLogin)))
    &&& (r matches Ok(res) ==> (parses_server_setup(sb) && rec_parses(rec)
        && parses_credential_request(qb) && b64_decode_of(res.server_login_state@) is Some
        && b64_decode_of(res.login_response@) is Some))
}

/// Begins login on the server. Where no password file is supplied (an
/// unknown user) the engine substitutes a dummy record, so the response has
/// the shape of a genuine one and account existence is not leaked; this
/// layer reports no difference between the two cases. Identifier lists are
/// validated before any engine work.
pub fn opaque_start_server_login(params: StartServerLoginParams) -> (r: Result<
    StartServerLoginResult,
    Error,
>)
    ensures
        ({
            let st = b64_decode_of(params.server_setup@);
            let rl = params.registration_record@;
            &&& (st is None <==> is_b64_err(r, Context::ServerSetup))
            &&& st matches Some(sb) ==> ({
                let rq = b64_decode_of(params.start_login_request@);
                let record_stage_ok = rl.len() == 0 || (rl.len() == 1 && b64_decode_of(rl[0]@) is Some);
                &&& ((rl.len() == 1 && b64_decode_of(rl[0]@) is None) <==> is_b64_err(
                    r,
                    Context::RegistrationRecord,
                ))
                &&& ((record_stage_ok && rq is None) <==> is_b64_err(
                    r,
                    Context::StartLoginRequest,
                ))
                &&& ((rl.len() >= 2 || (record_stage_ok && rq is Some && !(ident_ok(
                    params.server_identifier@,
                ) && ident_ok(params.client_identifier@)))) <==> is_input_err(r))
                &&& rq matches Some(qb) ==> ((ident_ok(params.server_identifier@) && ident_ok(
                    params.client_identifier@,
                )) ==> ({
                    &&& (rl.len() == 0 ==> server_login_engine_stage(r, sb, None, qb))
                    &&& (rl.len() == 1 ==> (b64_decode_of(rl[0]@) matches Some(rb)
                        ==> server_login_engine_stage(r, sb, Some(rb), qb)))
                }))
            })
        }),
{
    let setup_bytes = match decode(params.server_setup.as_str(), Context::ServerSetup) {
        Ok(v) => v,
        Err(e) => {
            return Err(e);
        },
    };
    let record_param = match get_optional_string(params.registration_record) {
        Ok(v) => v,
        Err(e) => {
            return Err(e);
        },
    };
    let record_bytes: Option<Vec<u8>> = match &record_param {
        Some(pw) => {
            match decode(pw.as_str(), Context::RegistrationRecord) {
                Ok(v) => Some(v),
                Err(e) => {
                    return Err(e);
                },
            }
        },
        None => None,
    };
    let request_bytes = match decode(
        params.start_login_request.as_str(),
        Context::StartLoginRequest,
    ) {
        Ok(v) => v,
        Err(e) => {
            return Err(e);
        },
    };
    let server_ident = match get_optional_string(params.server_identifier) {
        Ok(v) => v,
        Err(e) => {
            return Err(e);
        },
    };
    let client_ident = match get_optional_string(params.client_identifier) {
        Ok(v) => v,
        Err(e) => {
            return Err(e);
        },
    };
    let rec: Option<&[u8]> = match &record_bytes {
        Some(v) => Some(v.as_slice()),
        None => None,
    };
    let cid: Option<&[u8]> = match &client_ident {
        Some(s) => Some(s.as_str().as_bytes()),
        None => None,
    };
    let sid: Option<&[u8]> = match &server_ident {
        Some(s) => Some(s.as_str().as_bytes()),
        None => None,
    };
    match server_login_start_bytes(
        setup_bytes.as_slice(),
        rec,
        request_bytes.as_slice(),
        params.user_identifier.as_str().as_bytes(),
        cid,
        sid,
    ) {
        Ok(p) => {
            let (state, response) = p;
            Ok(
                StartServerLoginResult {
                    server_login_state: encode(&state),
                    login_response: encode(&response),
                },
            )
        },
        Err(f) => Err(Error::Protocol { context: f.step, message: f.message }),
    }
}

pub struct FinishClientLoginParams {
    pub client_login_state: String,
    pub login_response: String,
    pub password: String,
    pub client_identifier: Vec<String>,
    pub server_identifier: Vec<String>,
}

pub struct FinishClientLoginResult {
    pub finish_login_request: String,
    pub session_key: String,
    pub export_key: String,
    pub server_static_public_key: String,
}

/// Completes login on the client. This is the only step that detects a
/// wrong password or a tampered response, and it detects it locally: that
/// outcome is the distinguished absent result, never an error. An error is
/// reported only for undecodable or unparseable inputs and invalid
/// identifier lists, all checked before the cryptographic finish.
pub fn opaque_finish_client_login(params: FinishClientLoginParams) -> (r: Result<
    Option<FinishClientLoginResult>,
    Error,
>)
    ensures
        ({
            let rb = b64_decode_of(params.login_response@);
            let sb = b64_decode_of(params.client_login_state@);
            &&& (rb is None <==> is_b64_err(r, Context::LoginResponse))
            &&& ((rb is Some && sb is None) <==> is_b64_err(r, Context::ClientLoginState))
            &&& ((rb is Some && sb is Some && !(ident_ok(params.server_identifier@) && ident_ok(
                params.client_identifier@,
            ))) <==> is_input_err(r))
            &&& rb matches Some(rbb) ==> (sb matches Some(sbb) ==> ((ident_ok(
                params.server_identifier@,
            ) && ident_ok(params.client_identifier@)) ==> ({
                let out = client_login_finish_of(
                    sbb,
                    vstd::utf8::encode_utf8(params.password@),
                    rbb,
                    resolved_ident(params.client_identifier@),
                    resolved_ident(params.server_identifier@),
                );
                &&& (!parses_client_login_state(sbb) <==> is_protocol_err(
                    r,
                    Context::DeserializeClientLoginState,
                ))
                &&& ((parses_client_login_state(sbb) && !parses_credential_response(rbb)) <==> is_protocol_err(
                    r,
                    Context::DeserializeLoginResponse,
                ))
                &&& (r is Ok <==> (parses_client_login_state(sbb) && parses_credential_response(
                    rbb,
                )))
                &&& (r matches Ok(o) ==> ({
                    &&& (o is None <==> out is None)
                    &&& (o matches Some(res) ==> (out matches Some(t) && res.finish_login_request@
                        == b64_encode_of(t.0) && res.session_key@ == b64_encode_of(t.1)
                        && res.export_key@ == b64_encode_of(t.2) && res.server_static_public_key@
                        == b64_encode_of(t.3)))
                }))
            })))
        }),
{
    let response_bytes = match decode(params.login_response.as_str(), Context::LoginResponse) {
        Ok(v) => v,
        Err(e) => {
            return Err(e);
        },
    };
    let state_bytes = match decode(params.client_login_state.as_str(), Context::ClientLoginState) {
        Ok(v) => v,
        Err(e) => {
            return Err(e);
        },
    };
    let server_ident = match get_optional_string(params.server_identifier) {
        Ok(v) => v,
        Err(e) => {
            return Err(e);
        },
    };
    let client_ident = match get_optional_string(params.client_identifier) {
        Ok(v) => v,
        Err(e) => {
            return Err(e);
        },
    };
    let cid: Option<&[u8]> = match &client_ident {
        Some(s) => Some(s.as_str().as_bytes()),
        None => None,
    };
    let sid: Option<&[u8]> = match &server_ident {
        Some(s) => Some(s.as_str().as_bytes()),
        None => None,
    };
    match client_login_finish_bytes(
        state_bytes.as_slice(),
        params.password.as_str().as_bytes(),
        response_bytes.as_slice(),
        cid,
        sid,
    ) {
        Ok(outcome) => {
            match outcome {
                Some(t) => {
                    let (finalization, session_key, export_key, server_pk) = t;
                    Ok(
                        Some(
                            FinishClientLoginResult {
                                finish_login_request: encode(&finalization),
                                session_key: encode(&session_key),
                                export_key: encode(&export_key),
                                server_static_public_key: encode(&server_pk),
                            },
                        ),
                    )
                },
                None => Ok(None),
            }
        },
        Err(f) => Err(Error::Protocol { context: f.step, message: f.message }),
    }
}

pub struct FinishServerLoginParams {
    pub server_login_state: String,
    pub finish_login_request: String,
}

pub struct FinishServerLoginResult {
    pub session_key: String,
}

/// Completes login on the server: validates the client's key-confirmation
/// value against the server's own transcript. A mismatch is a protocol
/// error; on success the session key is the same one the client derived.
pub fn opaque_finish_server_login(params: FinishServerLoginParams) -> (r: Result<
    FinishServerLoginResult,
    Error,
>)
    ensures
        ({
            let fb = b64_decode_of(params.finish_login_request@);
            let sb = b64_decode_of(params.server_login_state@);
            &&& (fb is None <==> is_b64_err(r, Context::FinishLoginRequest))
            &&& ((fb is Some && sb is None) <==> is_b64_err(r, Context::ServerLoginState))
            &&& fb matches Some(fbb) ==> (sb matches Some(sbb) ==> ({
                &&& (!parses_server_login_state(sbb) <==> is_protocol_err(
                    r,
                    Context::DeserializeServerLoginState,
                ))
                &&& ((parses_server_login_state(sbb) && !parses_credential_finalization(fbb))
                    <==> is_protocol_err(r, Context::DeserializeFinishLoginRequest))
                &&& ((parses_server_login_state(sbb) && parses_credential_finalization(fbb)
                    && server_login_finish_of(sbb, fbb) is None) <==> is_protocol_err(
                    r,
                    Context::FinishServerLogin,
                ))
                &&& (r matches Ok(res) ==> (server_login_finish_of(sbb, fbb) matches Some(k)
                    && res.session_key@ == b64_encode_of(k)))
                &&& (r is Ok <==> (parses_server_login_state(sbb) && parses_credential_finalization(
                    fbb,
                ) && server_login_finish_of(sbb, fbb) is Some))
            }))
        }),
{
    let finalization_bytes = match decode(
        params.finish_login_request.as_str(),
        Context::FinishLoginRequest,
    ) {
        Ok(v) => v,
        Err(e) => {
            return Err(e);
        },
    };
    let state_bytes = match decode(params.server_login_state.as_str(), Context::ServerLoginState) {
        Ok(v) => v,
        Err(e) => {
            return Err(e);
        },
    };
    match server_login_finish_bytes(state_bytes.as_slice(), finalization_bytes.as_slice()) {
        Ok(key) => Ok(FinishServerLoginResult { session_key: encode(&key) }),
        Err(f) => Err(Error::Protocol { context: f.step, message: f.message }),
    }
}

} // verus!
