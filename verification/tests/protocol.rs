use opaque_pake::errors::{Context, Error};
use opaque_pake::{
    decode, opaque_create_server_registration_response, opaque_create_server_setup,
    opaque_finish_client_login, opaque_finish_client_registration,
    opaque_finish_server_login, opaque_finish_server_registration, opaque_get_server_public_key,
    opaque_start_client_login, opaque_start_client_registration, opaque_start_server_login,
    CreateServerRegistrationResponseParams, FinishClientLoginParams,
    FinishClientRegistrationParams, FinishServerLoginParams, StartClientLoginParams,
    StartClientRegistrationParams, StartServerLoginParams,
};

fn registration_flow(
    setup: &str,
    user: &str,
    password: &str,
    client_id: Vec<String>,
    server_id: Vec<String>,
) -> (String, String, String) {
    let start = opaque_start_client_registration(StartClientRegistrationParams {
        password: password.to_string(),
    })
    .unwrap();
    let response = opaque_create_server_registration_response(
        CreateServerRegistrationResponseParams {
            server_setup: setup.to_string(),
            user_identifier: user.to_string(),
            registration_request: start.registration_request,
        },
    )
    .unwrap();
    let finish = opaque_finish_client_registration(FinishClientRegistrationParams {
        password: password.to_string(),
        registration_response: response.registration_response,
        client_registration_state: start.client_registration_state,
        client_identifier: client_id,
        server_identifier: server_id,
    })
    .unwrap();
    let password_file = opaque_finish_server_registration(finish.registration_record).unwrap();
    (
        password_file,
        finish.export_key,
        finish.server_static_public_key,
    )
}

struct LoginOutcome {
    client_session_key: String,
    server_session_key: String,
    export_key: String,
}

fn login_flow(
    setup: &str,
    password_file: Option<&str>,
    user: &str,
    password: &str,
    client_id: Vec<String>,
    server_id: Vec<String>,
) -> Option<LoginOutcome> {
    let start = opaque_start_client_login(StartClientLoginParams {
        password: password.to_string(),
    })
    .unwrap();
    let record: Vec<String> = match password_file {
        Some(f) => vec![f.to_string()],
        None => Vec::new(),
    };
    let server = opaque_start_server_login(StartServerLoginParams {
        server_setup: setup.to_string(),
        registration_record: record,
        start_login_request: start.start_login_request,
        user_identifier: user.to_string(),
        client_identifier: client_id.clone(),
        server_identifier: server_id.clone(),
    })
    .unwrap();
    let finish = opaque_finish_client_login(FinishClientLoginParams {
        client_login_state: start.client_login_state,
        login_response: server.login_response,
        password: password.to_string(),
        client_identifier: client_id,
        server_identifier: server_id,
    })
    .unwrap();
    match finish {
        Some(result) => {
            let server_finish = opaque_finish_server_login(FinishServerLoginParams {
                server_login_state: server.server_login_state,
                finish_login_request: result.finish_login_request,
            })
            .unwrap();
            Some(LoginOutcome {
                client_session_key: result.session_key,
                server_session_key: server_finish.session_key,
                export_key: result.export_key,
            })
        }
        None => None,
    }
}

#[test]
fn full_protocol_matching_session_keys() {
    let setup = opaque_create_server_setup();
    let (file, registration_export_key, _server_pk) =
        registration_flow(&setup, "alice", "p1", Vec::new(), Vec::new());
    let outcome = login_flow(&setup, Some(&file), "alice", "p1", Vec::new(), Vec::new())
        .expect("login with the registered password must succeed");
    assert_eq!(outcome.client_session_key, outcome.server_session_key);
    assert!(!outcome.export_key.is_empty());
    assert_eq!(outcome.export_key, registration_export_key);
}

#[test]
fn wrong_password_yields_absent_result() {
    let setup = opaque_create_server_setup();
    let (file, _, _) = registration_flow(&setup, "alice", "p1", Vec::new(), Vec::new());
    let outcome = login_flow(&setup, Some(&file), "alice", "wrong", Vec::new(), Vec::new());
    assert!(outcome.is_none());
}

#[test]
fn server_public_key_matches_registration() {
    let setup = opaque_create_server_setup();
    let pk = opaque_get_server_public_key(setup.clone()).unwrap();
    let (_, _, server_pk) = registration_flow(&setup, "alice", "p1", Vec::new(), Vec::new());
    assert_eq!(pk, server_pk);
    assert_ne!(pk, setup);
}

#[test]
fn unknown_user_response_has_genuine_shape() {
    let setup = opaque_create_server_setup();
    let (file, _, _) = registration_flow(&setup, "alice", "p1", Vec::new(), Vec::new());

    let start = opaque_start_client_login(StartClientLoginParams {
        password: "p1".to_string(),
    })
    .unwrap();
    let known = opaque_start_server_login(StartServerLoginParams {
        server_setup: setup.clone(),
        registration_record: vec![file],
        start_login_request: start.start_login_request.clone(),
        user_identifier: "alice".to_string(),
        client_identifier: Vec::new(),
        server_identifier: Vec::new(),
    })
    .unwrap();

    let other = opaque_start_client_login(StartClientLoginParams {
        password: "p1".to_string(),
    })
    .unwrap();
    let unknown = opaque_start_server_login(StartServerLoginParams {
        server_setup: setup.clone(),
        registration_record: Vec::new(),
        start_login_request: other.start_login_request,
        user_identifier: "nobody".to_string(),
        client_identifier: Vec::new(),
        server_identifier: Vec::new(),
    })
    .unwrap();

    let known_bytes = decode(known.login_response.as_str(), Context::LoginResponse).unwrap();
    let unknown_bytes = decode(unknown.login_response.as_str(), Context::LoginResponse).unwrap();
    assert_eq!(known_bytes.len(), unknown_bytes.len());
}

#[test]
fn unknown_user_login_fails_only_at_client() {
    let setup = opaque_create_server_setup();
    let outcome = login_flow(&setup, None, "nobody", "p1", Vec::new(), Vec::new());
    assert!(outcome.is_none());
}

#[test]
fn matching_custom_identifiers_succeed() {
    let setup = opaque_create_server_setup();
    let ids_client = vec!["client@example.org".to_string()];
    let ids_server = vec!["server.example.org".to_string()];
    let (file, _, _) = registration_flow(
        &setup,
        "alice",
        "p1",
        ids_client.clone(),
        ids_server.clone(),
    );
    let outcome = login_flow(&setup, Some(&file), "alice", "p1", ids_client, ids_server)
        .expect("login with matching identifiers must succeed");
    assert_eq!(outcome.client_session_key, outcome.server_session_key);
}

#[test]
fn mismatched_identifiers_yield_absent_result() {
    let setup = opaque_create_server_setup();
    let (file, _, _) = registration_flow(&setup, "alice", "p1", Vec::new(), Vec::new());

    let start = opaque_start_client_login(StartClientLoginParams {
        password: "p1".to_string(),
    })
    .unwrap();
    let server = opaque_start_server_login(StartServerLoginParams {
        server_setup: setup.clone(),
        registration_record: vec![file],
        start_login_request: start.start_login_request,
        user_identifier: "alice".to_string(),
        client_identifier: vec!["someone-else".to_string()],
        server_identifier: Vec::new(),
    })
    .unwrap();
    let finish = opaque_finish_client_login(FinishClientLoginParams {
        client_login_state: start.client_login_state,
        login_response: server.login_response,
        password: "p1".to_string(),
        client_identifier: Vec::new(),
        server_identifier: Vec::new(),
    })
    .unwrap();
    assert!(finish.is_none());
}

#[test]
fn record_bound_to_credential_identifier() {
    let setup = opaque_create_server_setup();
    let (file, _, _) = registration_flow(&setup, "alice", "p1", Vec::new(), Vec::new());
    let outcome = login_flow(&setup, Some(&file), "bob", "p1", Vec::new(), Vec::new());
    assert!(outcome.is_none());
}

#[test]
fn password_file_is_canonical_re_encoding() {
    let setup = opaque_create_server_setup();
    let start = opaque_start_client_registration(StartClientRegistrationParams {
        password: "p1".to_string(),
    })
    .unwrap();
    let response = opaque_create_server_registration_response(
        CreateServerRegistrationResponseParams {
            server_setup: setup,
            user_identifier: "alice".to_string(),
            registration_request: start.registration_request,
        },
    )
    .unwrap();
    let finish = opaque_finish_client_registration(FinishClientRegistrationParams {
        password: "p1".to_string(),
        registration_response: response.registration_response,
        client_registration_state: start.client_registration_state,
        client_identifier: Vec::new(),
        server_identifier: Vec::new(),
    })
    .unwrap();
    let file = opaque_finish_server_registration(finish.registration_record.clone()).unwrap();
    assert_eq!(file, finish.registration_record);
}

#[test]
fn malformed_registration_record_is_protocol_error() {
    let junk: Vec<u8> = vec![9; 7];
    let r = opaque_finish_server_registration(opaque_pake::encode(&junk));
    match r {
        Err(Error::Protocol { context, .. }) => {
            assert_eq!(context, Context::DeserializeRegistrationRecord);
        }
        _ => panic!("expected a protocol error"),
    }
}

#[test]
fn registration_record_of_invalid_base64_is_decode_error() {
    let r = opaque_finish_server_registration("***".to_string());
    match r {
        Err(Error::Base64 { context, .. }) => {
            assert_eq!(context, Context::RegistrationRecord);
        }
        _ => panic!("expected a decode error"),
    }
}

#[test]
fn identifier_lists_validated_on_client_registration_finish() {
    let bad = vec!["a".to_string(), "b".to_string()];
    let some_bytes: Vec<u8> = vec![1, 2, 3];
    let r = opaque_finish_client_registration(FinishClientRegistrationParams {
        password: "p1".to_string(),
        registration_response: opaque_pake::encode(&some_bytes),
        client_registration_state: opaque_pake::encode(&some_bytes),
        client_identifier: bad,
        server_identifier: Vec::new(),
    });
    assert!(matches!(r, Err(Error::Input { .. })));
}

#[test]
fn identifier_lists_validated_on_server_login_start() {
    let setup = opaque_create_server_setup();
    let some_bytes: Vec<u8> = vec![1, 2, 3];
    let bad = vec!["a".to_string(), "b".to_string()];
    let r = opaque_start_server_login(StartServerLoginParams {
        server_setup: setup.clone(),
        registration_record: Vec::new(),
        start_login_request: opaque_pake::encode(&some_bytes),
        user_identifier: "alice".to_string(),
        client_identifier: Vec::new(),
        server_identifier: bad.clone(),
    });
    assert!(matches!(r, Err(Error::Input { .. })));

    let record_too_long = opaque_start_server_login(StartServerLoginParams {
        server_setup: setup,
        registration_record: bad,
        start_login_request: opaque_pake::encode(&some_bytes),
        user_identifier: "alice".to_string(),
        client_identifier: Vec::new(),
        server_identifier: Vec::new(),
    });
    assert!(matches!(record_too_long, Err(Error::Input { .. })));
}

#[test]
fn identifier_lists_validated_on_client_login_finish() {
    let bad = vec!["a".to_string(), "b".to_string()];
    let some_bytes: Vec<u8> = vec![1, 2, 3];
    let r = opaque_finish_client_login(FinishClientLoginParams {
        client_login_state: opaque_pake::encode(&some_bytes),
        login_response: opaque_pake::encode(&some_bytes),
        password: "p1".to_string(),
        client_identifier: Vec::new(),
        server_identifier: bad,
    });
    assert!(matches!(r, Err(Error::Input { .. })));
}

#[test]
fn foreign_finalization_fails_server_finish() {
    let setup = opaque_create_server_setup();
    let (file, _, _) = registration_flow(&setup, "alice", "p1", Vec::new(), Vec::new());

    let start_a = opaque_start_client_login(StartClientLoginParams {
        password: "p1".to_string(),
    })
    .unwrap();
    let server_a = opaque_start_server_login(StartServerLoginParams {
        server_setup: setup.clone(),
        registration_record: vec![file.clone()],
        start_login_request: start_a.start_login_request,
        user_identifier: "alice".to_string(),
        client_identifier: Vec::new(),
        server_identifier: Vec::new(),
    })
    .unwrap();

    let start_b = opaque_start_client_login(StartClientLoginParams {
        password: "p1".to_string(),
    })
    .unwrap();
    let server_b = opaque_start_server_login(StartServerLoginParams {
        server_setup: setup.clone(),
        registration_record: vec![file],
        start_login_request: start_b.start_login_request,
        user_identifier: "alice".to_string(),
        client_identifier: Vec::new(),
        server_identifier: Vec::new(),
    })
    .unwrap();
    let finish_b = opaque_finish_client_login(FinishClientLoginParams {
        client_login_state: start_b.client_login_state,
        login_response: server_b.login_response,
        password: "p1".to_string(),
        client_identifier: Vec::new(),
        server_identifier: Vec::new(),
    })
    .unwrap()
    .expect("session b must succeed");

    let crossed = opaque_finish_server_login(FinishServerLoginParams {
        server_login_state: server_a.server_login_state,
        finish_login_request: finish_b.finish_login_request,
    });
    match crossed {
        Err(Error::Protocol { context, .. }) => {
            assert_eq!(context, Context::FinishServerLogin);
        }
        _ => panic!("expected a protocol error"),
    }
}

#[test]
fn scenario_setup_register_login_wrong_login() {
    let setup = opaque_create_server_setup();
    let (file, _, _) = registration_flow(&setup, "alice", "p1", Vec::new(), Vec::new());

    let good = login_flow(&setup, Some(&file), "alice", "p1", Vec::new(), Vec::new())
        .expect("login with the registered password must succeed");
    assert_eq!(good.client_session_key, good.server_session_key);

    let bad = login_flow(&setup, Some(&file), "alice", "wrong", Vec::new(), Vec::new());
    assert!(bad.is_none());
}

#[test]
fn start_messages_are_transport_encoded() {
    let reg = opaque_start_client_registration(StartClientRegistrationParams {
        password: "p1".to_string(),
    })
    .unwrap();
    decode(reg.client_registration_state.as_str(), Context::ClientRegistrationState).unwrap();
    decode(reg.registration_request.as_str(), Context::RegistrationRequest).unwrap();
    assert_ne!(reg.client_registration_state, reg.registration_request);

    let login = opaque_start_client_login(StartClientLoginParams {
        password: "p1".to_string(),
    })
    .unwrap();
    decode(login.client_login_state.as_str(), Context::ClientLoginState).unwrap();
    decode(login.start_login_request.as_str(), Context::StartLoginRequest).unwrap();
}
