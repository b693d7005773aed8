use base64::Engine;
use sha2::Digest;
use voxium::qr_flow::{
    decrypt_token, generate_session_keys, nonce_proof_value, AuthAction, AuthEvent, AuthInput,
    QrFlowState, QrStatus, SessionKeys,
};
use voxium::wire::parse_auth_frame;

fn keys() -> SessionKeys {
    generate_session_keys().expect("key generation")
}

fn running_flow() -> QrFlowState {
    let mut f = QrFlowState::new();
    f.socket_connected();
    f
}

fn encrypt_with(keys: &SessionKeys, data: &[u8]) -> Vec<u8> {
    let public = rsa::RsaPublicKey::from(&keys.private_key);
    let mut rng = rsa::rand_core::OsRng;
    public
        .encrypt(&mut rng, rsa::Oaep::new::<sha2::Sha256>(), data)
        .expect("encryption")
}

#[test]
fn hello_starts_heartbeat_and_sends_init() {
    let k = keys();
    let mut f = running_flow();
    let ev = parse_auth_frame("{\"op\":\"hello\",\"heartbeat_interval\":12345}");
    let acts = f.step(&k, AuthInput::Frame(ev));
    assert_eq!(acts.len(), 2);
    assert!(matches!(acts[0], AuthAction::StartHeartbeat { interval_ms: 12345 }));
    match &acts[1] {
        AuthAction::SendFrame { frame } => {
            let expected = format!(
                "{{\"op\":\"init\",\"encoded_public_key\":\"{}\"}}",
                k.public_key_b64
            );
            assert_eq!(frame, &expected);
        }
        _ => panic!("expected the init frame"),
    }
}

#[test]
fn nonce_proof_round_trip_matches_digest() {
    let k = keys();
    let mut f = running_flow();
    let nonce = b"a known nonce value";
    let cipher = encrypt_with(&k, nonce);
    let enc_b64 = base64::engine::general_purpose::STANDARD.encode(&cipher);
    let ev = parse_auth_frame(&format!(
        "{{\"op\":\"nonce_proof\",\"encrypted_nonce\":\"{enc_b64}\"}}"
    ));
    let acts = f.step(&k, AuthInput::Frame(ev));
    assert_eq!(acts.len(), 1);
    let expected_proof = base64::engine::general_purpose::URL_SAFE_NO_PAD
        .encode(sha2::Sha256::digest(nonce));
    match &acts[0] {
        AuthAction::SendFrame { frame } => {
            let expected = format!(
                "{{\"op\":\"nonce_proof\",\"proof\":\"{expected_proof}\"}}"
            );
            assert_eq!(frame, &expected);
        }
        _ => panic!("expected the proof frame"),
    }
    assert!(!f.done);
    assert_eq!(nonce_proof_value(nonce), expected_proof);
}

#[test]
fn tampered_nonce_yields_error_status() {
    let k = keys();
    // not valid base64 at all
    let mut f = running_flow();
    let acts = f.step(
        &k,
        AuthInput::Frame(AuthEvent::NonceProof { encrypted_nonce_b64: "!!!".to_string() }),
    );
    assert!(f.done);
    assert!(matches!(&f.status, QrStatus::Error { message } if message == "Bad nonce base64"));
    assert!(acts.iter().any(|a| matches!(a, AuthAction::StopHeartbeat)));
    // valid base64 of bytes that are no ciphertext under the session's key
    let mut f = running_flow();
    let garbage = base64::engine::general_purpose::STANDARD.encode([7u8; 256]);
    f.step(
        &k,
        AuthInput::Frame(AuthEvent::NonceProof { encrypted_nonce_b64: garbage }),
    );
    assert!(f.done);
    assert!(matches!(&f.status, QrStatus::Error { message } if message == "Nonce decrypt error"));
}

#[test]
fn cancel_at_any_pre_terminal_status_yields_cancelled() {
    let k = keys();
    // freshly connected
    let mut f = running_flow();
    let acts = f.step(&k, AuthInput::CancelSignal);
    assert!(matches!(f.status, QrStatus::Cancelled));
    assert!(acts.iter().any(|a| matches!(a, AuthAction::StopHeartbeat)));
    // after the QR is ready
    let mut f = running_flow();
    f.step(
        &k,
        AuthInput::Frame(AuthEvent::PendingRemoteInit { fingerprint: "fp".to_string() }),
    );
    f.step(&k, AuthInput::QrRendered { png: Some(vec![1, 2, 3]) });
    assert!(matches!(f.status, QrStatus::QrReady { .. }));
    let acts = f.step(&k, AuthInput::Frame(AuthEvent::Cancel));
    assert!(matches!(f.status, QrStatus::Cancelled));
    assert!(f.done);
    assert!(acts.iter().any(|a| matches!(a, AuthAction::StopHeartbeat)));
    // while scanned
    let mut f = running_flow();
    f.step(&k, AuthInput::Frame(AuthEvent::PendingTicket));
    assert!(matches!(f.status, QrStatus::Scanned));
    f.step(&k, AuthInput::CancelSignal);
    assert!(matches!(f.status, QrStatus::Cancelled));
}

#[test]
fn qr_becomes_ready_with_rendered_image() {
    let k = keys();
    let mut f = running_flow();
    let acts = f.step(
        &k,
        AuthInput::Frame(AuthEvent::PendingRemoteInit { fingerprint: "fp123".to_string() }),
    );
    assert_eq!(acts.len(), 1);
    match &acts[0] {
        AuthAction::RenderQr { url } => assert_eq!(url, "https://discord.com/ra/fp123"),
        _ => panic!("expected a render request"),
    }
    let png = vec![137u8, 80, 78, 71];
    f.step(&k, AuthInput::QrRendered { png: Some(png.clone()) });
    match &f.status {
        QrStatus::QrReady { qr_url, ra_url } => {
            let expected = format!(
                "data:image/png;base64,{}",
                base64::engine::general_purpose::STANDARD.encode(&png)
            );
            assert_eq!(qr_url, &expected);
            assert_eq!(ra_url, "https://discord.com/ra/fp123");
        }
        _ => panic!("expected the QR to be ready"),
    }
}

#[test]
fn empty_fingerprint_and_ticket_are_rejected() {
    let k = keys();
    let mut f = running_flow();
    f.step(
        &k,
        AuthInput::Frame(AuthEvent::PendingRemoteInit { fingerprint: String::new() }),
    );
    assert!(matches!(&f.status, QrStatus::Error { message } if message == "Empty fingerprint"));
    let mut f = running_flow();
    f.step(&k, AuthInput::Frame(AuthEvent::PendingLogin { ticket: String::new() }));
    assert!(matches!(&f.status, QrStatus::Error { message } if message == "Empty ticket"));
}

#[test]
fn ticket_exchange_and_login_complete_the_flow() {
    let k = keys();
    let mut f = running_flow();
    let acts = f.step(
        &k,
        AuthInput::Frame(AuthEvent::PendingLogin { ticket: "tick".to_string() }),
    );
    assert!(matches!(f.status, QrStatus::Completing));
    match &acts[0] {
        AuthAction::ExchangeTicket { ticket } => assert_eq!(ticket, "tick"),
        _ => panic!("expected the ticket exchange"),
    }
    // the exchange answered with a plaintext token
    let acts = f.step(
        &k,
        AuthInput::TicketBody { encrypted_token: None, token: Some("  tok  ".to_string()) },
    );
    match &acts[0] {
        AuthAction::PerformLogin { token } => assert_eq!(token, "tok"),
        _ => panic!("expected the login"),
    }
    let acts = f.step(&k, AuthInput::LoginSucceeded { auth: "{\"user\":1}".to_string() });
    assert!(f.done);
    assert!(matches!(&f.status, QrStatus::Completed { auth } if auth == "{\"user\":1}"));
    assert!(acts.iter().any(|a| matches!(a, AuthAction::StopHeartbeat)));
}

#[test]
fn finish_with_encrypted_token_decrypts_it() {
    let k = keys();
    let mut f = running_flow();
    let cipher = encrypt_with(&k, b"\0\0real-token \n");
    let enc = base64::engine::general_purpose::STANDARD.encode(&cipher);
    let acts = f.step(&k, AuthInput::Frame(AuthEvent::Finish { encrypted_token: Some(enc) }));
    assert!(matches!(f.status, QrStatus::Completing));
    match &acts[0] {
        AuthAction::PerformLogin { token } => assert_eq!(token, "real-token"),
        _ => panic!("expected the login with the decrypted token"),
    }
}

#[test]
fn decrypt_token_rejects_tampered_and_empty_tokens() {
    let k = keys();
    assert_eq!(decrypt_token(&k, "!!!").unwrap_err(), "Token base64 decode error");
    let garbage = base64::engine::general_purpose::STANDARD.encode([9u8; 256]);
    assert_eq!(decrypt_token(&k, &garbage).unwrap_err(), "Token decrypt error");
    let empty = base64::engine::general_purpose::STANDARD
        .encode(encrypt_with(&k, b"\0   \0"));
    assert_eq!(decrypt_token(&k, &empty).unwrap_err(), "Empty token after decryption");
    let good = base64::engine::general_purpose::STANDARD
        .encode(encrypt_with(&k, b"tok"));
    assert_eq!(decrypt_token(&k, &good).unwrap(), "tok");
}

#[test]
fn no_token_in_response_is_an_error() {
    let k = keys();
    let mut f = running_flow();
    f.step(&k, AuthInput::TicketBody { encrypted_token: None, token: None });
    assert!(
        matches!(&f.status, QrStatus::Error { message } if message == "No token in Discord finalization response")
    );
    let mut f = running_flow();
    f.step(
        &k,
        AuthInput::TicketBody { encrypted_token: None, token: Some("   ".to_string()) },
    );
    assert!(
        matches!(&f.status, QrStatus::Error { message } if message == "No token in Discord finalization response")
    );
}

#[test]
fn socket_loss_before_terminal_status_is_an_error() {
    let k = keys();
    let mut f = running_flow();
    let acts = f.step(&k, AuthInput::SocketClosed);
    assert!(f.done);
    assert!(
        matches!(&f.status, QrStatus::Error { message } if message == "WebSocket closed by Discord")
    );
    assert!(acts.iter().any(|a| matches!(a, AuthAction::StopHeartbeat)));
}

#[test]
fn auth_frames_parse_to_events() {
    assert!(matches!(
        parse_auth_frame("{\"op\":\"hello\",\"heartbeat_interval\":41250}"),
        AuthEvent::Hello { heartbeat_interval_ms: Some(41250) }
    ));
    assert!(matches!(parse_auth_frame("{\"op\":\"pending_ticket\"}"), AuthEvent::PendingTicket));
    assert!(matches!(parse_auth_frame("{\"op\":\"cancel\"}"), AuthEvent::Cancel));
    assert!(matches!(parse_auth_frame("{\"op\":\"unknown\"}"), AuthEvent::Ignored));
    assert!(matches!(parse_auth_frame("not json"), AuthEvent::Ignored));
    match parse_auth_frame("{\"op\":\"pending_login\",\"ticket\":\"t9\"}") {
        AuthEvent::PendingLogin { ticket } => assert_eq!(ticket, "t9"),
        _ => panic!("expected a pending login event"),
    }
}

#[test]
fn whole_handshake_completes_through_parsed_frames() {
    let k = keys();
    let mut f = running_flow();
    // hello: heartbeat starts, init announces the public key
    let acts = f.step(
        &k,
        AuthInput::Frame(parse_auth_frame("{\"op\":\"hello\",\"heartbeat_interval\":41250}")),
    );
    assert!(matches!(acts[0], AuthAction::StartHeartbeat { interval_ms: 41250 }));
    // nonce proof: decrypt the challenge, send the digest back
    let cipher = encrypt_with(&k, b"challenge");
    let enc = base64::engine::general_purpose::STANDARD.encode(&cipher);
    let acts = f.step(
        &k,
        AuthInput::Frame(parse_auth_frame(&format!(
            "{{\"op\":\"nonce_proof\",\"encrypted_nonce\":\"{enc}\"}}"
        ))),
    );
    assert!(matches!(acts[0], AuthAction::SendFrame { .. }));
    // fingerprint: render, then the QR is ready
    let acts = f.step(
        &k,
        AuthInput::Frame(parse_auth_frame(
            "{\"op\":\"pending_remote_init\",\"fingerprint\":\"fp\"}",
        )),
    );
    assert!(matches!(acts[0], AuthAction::RenderQr { .. }));
    f.step(&k, AuthInput::QrRendered { png: Some(vec![1]) });
    assert!(matches!(f.status, QrStatus::QrReady { .. }));
    // scan, then the login ticket
    f.step(&k, AuthInput::Frame(parse_auth_frame("{\"op\":\"pending_ticket\"}")));
    assert!(matches!(f.status, QrStatus::Scanned));
    let acts = f.step(
        &k,
        AuthInput::Frame(parse_auth_frame("{\"op\":\"pending_login\",\"ticket\":\"tk\"}")),
    );
    assert!(matches!(f.status, QrStatus::Completing));
    assert!(matches!(&acts[0], AuthAction::ExchangeTicket { ticket } if ticket == "tk"));
    // exchange answers with an encrypted token; it decrypts to the login
    let tok_cipher = encrypt_with(&k, b"access-token");
    let tok_enc = base64::engine::general_purpose::STANDARD.encode(&tok_cipher);
    let acts = f.step(
        &k,
        AuthInput::TicketBody { encrypted_token: Some(tok_enc), token: None },
    );
    assert!(matches!(&acts[0], AuthAction::PerformLogin { token } if token == "access-token"));
    let acts = f.step(&k, AuthInput::LoginSucceeded { auth: "{\"ok\":true}".to_string() });
    assert!(f.done);
    assert!(matches!(f.status, QrStatus::Completed { .. }));
    assert!(acts.iter().any(|a| matches!(a, AuthAction::StopHeartbeat)));
}

#[test]
fn terminal_statuses_are_recognized() {
    assert!(QrStatus::Cancelled.is_terminal());
    assert!(QrStatus::Error { message: "m".to_string() }.is_terminal());
    assert!(QrStatus::Completed { auth: "a".to_string() }.is_terminal());
    assert!(!QrStatus::Connecting.is_terminal());
    assert!(!QrStatus::WaitingForQr.is_terminal());
    assert!(!QrStatus::Scanned.is_terminal());
}
