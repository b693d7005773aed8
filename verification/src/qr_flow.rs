//! The remote-authentication QR flow: a one-shot state machine that runs the
//! challenge/response handshake over a dedicated socket, renders a scannable
//! login URI, and decrypts the returned access token. The executable `step`
//! carries the flow's contract; crypto outcomes enter it as inputs, so the
//! decisions are verified for every outcome.

use vstd::prelude::*;

use crate::crypto;
use crate::frames;
use crate::text;

verus! {

/// Heartbeat interval assumed until the hello frame supplies one.
pub const AUTH_DEFAULT_HEARTBEAT_MS: u64 = 41250;

/// Key-pair size the flow generates.
pub const AUTH_KEY_BITS: usize = 2048;

/// The polled status of one login attempt.
pub enum QrStatus {
    Connecting,
    WaitingForQr,
    QrReady { qr_url: String, ra_url: String },
    Scanned,
    Completing,
    Completed { auth: String },
    Error { message: String },
    Cancelled,
}

/// Whether a status ends the flow.
pub open spec fn is_terminal_spec(s: QrStatus) -> bool {
    s is Completed || s is Error || s is Cancelled
}

impl QrStatus {
    pub fn is_terminal(&self) -> (r: bool)
        ensures
            r == is_terminal_spec(*self),
    {
        match self {
            QrStatus::Completed { .. } => true,
            QrStatus::Error { .. } => true,
            QrStatus::Cancelled => true,
            _ => false,
        }
    }
}

/// A caller's status poll for one login attempt.
pub struct SessionQuery {
    pub session_id: String,
}

/// A caller's request to cancel one login attempt.
pub struct CancelPayload {
    pub session_id: String,
}

/// The flow's ephemeral key pair: the private key and the base64 of the
/// public key's DER (SPKI) encoding, as the init frame announces it.
pub struct SessionKeys {
    pub private_key: rsa::RsaPrivateKey,
    pub public_key_b64: String,
}

/// Generate the flow's key pair; `None` if the crypto backend fails. Whatever
/// key came back, the announced text is the base64 of some DER encoding.
pub fn generate_session_keys() -> (r: Option<SessionKeys>)
    ensures
        r matches Some(k) ==> exists|der: Seq<u8>|
            k.public_key_b64@ == #[trigger] crypto::b64_standard_of(der),
{
    match crypto::rsa_generate(AUTH_KEY_BITS) {
        Some(private_key) => {
            let public_key = crypto::rsa_public_key(&private_key);
            match crypto::rsa_spki_der(&public_key) {
                Some(der) => {
                    let public_key_b64 = crypto::b64_encode_standard(der.as_slice());
                    proof {
                        assert(public_key_b64@ == crypto::b64_standard_of(der@));
                    }
                    Some(SessionKeys { private_key, public_key_b64 })
                },
                None => None,
            }
        },
        None => None,
    }
}

/// The URL-safe unpadded base64 of the SHA-256 digest of a decrypted nonce:
/// the proof of key possession the flow sends back.
pub fn nonce_proof_value(plain: &[u8]) -> (r: String)
    ensures
        r@ == crypto::b64_url_nopad_of(crypto::sha256_of(plain@)),
{
    let h = crypto::sha256(plain);
    crypto::b64_encode_url_nopad(h.as_slice())
}

/// Decode and decrypt an encrypted access token, strip NUL padding and
/// whitespace, and reject an empty result.
pub fn decrypt_token(keys: &SessionKeys, enc_b64: &str) -> (r: Result<String, String>)
    ensures
        crypto::b64_standard_decode_of(enc_b64@) is None ==> (r matches Err(m) && m@
            == "Token base64 decode error"@),
        r matches Ok(t) ==> crypto::b64_standard_decode_of(enc_b64@) is Some,
        r matches Ok(t) ==> t@.len() > 0 && (exists|plain: Seq<u8>|
            (#[trigger] crypto::utf8_decode_of(plain)) matches Some(txt) && t@
                == text::token_trim_spec(txt)),
        r matches Err(m) ==> (m@ == "Token base64 decode error"@ || m@ == "Token decrypt error"@
            || m@ == "Token is not valid UTF-8"@ || m@ == "Empty token after decryption"@),
        r matches Err(m) ==> (m@ == "Token base64 decode error"@ <==> crypto::b64_standard_decode_of(
            enc_b64@,
        ) is None),
{
    proof {
        reveal_strlit("Token base64 decode error");
        reveal_strlit("Token decrypt error");
        reveal_strlit("Token is not valid UTF-8");
        reveal_strlit("Empty token after decryption");
        assert("Token base64 decode error"@.len() == 25);
        assert("Token decrypt error"@.len() == 19);
        assert("Token is not valid UTF-8"@.len() == 24);
        assert("Empty token after decryption"@.len() == 28);
        assert("Token decrypt error"@ != "Token base64 decode error"@);
        assert("Token is not valid UTF-8"@ != "Token base64 decode error"@);
        assert("Empty token after decryption"@ != "Token base64 decode error"@);
    }
    match crypto::b64_decode_standard(enc_b64) {
        None => Err(String::from_str("Token base64 decode error")),
        Some(cipher) => match crypto::rsa_oaep_decrypt(&keys.private_key, cipher.as_slice()) {
            None => Err(String::from_str("Token decrypt error")),
            Some(plain) => {
                let ghost pv: Seq<u8> = plain@;
                match crypto::utf8_decode(plain) {
                    None => Err(String::from_str("Token is not valid UTF-8")),
                    Some(txt) => {
                        let t = text::trim_token_text(txt.as_str());
                        if t.as_str().is_empty() {
                            Err(String::from_str("Empty token after decryption"))
                        } else {
                            proof {
                                assert(crypto::utf8_decode_of(pv) matches Some(x) && t@
                                    == text::token_trim_spec(x));
                            }
                            Ok(t)
                        }
                    },
                }
            },
        },
    }
}

/// An inbound remote-auth frame, decoded to the fields the flow interprets.
pub enum AuthEvent {
    Hello { heartbeat_interval_ms: Option<u64> },
    NonceProof { encrypted_nonce_b64: String },
    PendingRemoteInit { fingerprint: String },
    PendingTicket,
    PendingLogin { ticket: String },
    Finish { encrypted_token: Option<String> },
    Cancel,
    Ignored,
}

/// One occurrence on any of the flow's event sources, including the
/// outcomes of the outside work the flow asked for.
pub enum AuthInput {
    /// The external cancel signal.
    CancelSignal,
    Frame(AuthEvent),
    SocketClosed,
    SocketError { message: String },
    /// Sending the init frame failed.
    InitSendFailed,
    /// Sending the nonce-proof frame failed.
    ProofSendFailed,
    /// The external text-to-image renderer's outcome.
    QrRendered { png: Option<Vec<u8>> },
    /// The ticket exchange call failed; the message describes how.
    TicketExchangeFailed { message: String },
    /// The ticket exchange call succeeded with these body fields.
    TicketBody { encrypted_token: Option<String>, token: Option<String> },
    /// The application login's outcome, serialized.
    LoginSucceeded { auth: String },
    LoginFailed { message: String },
}

/// What the caller must perform after a step, in order.
pub enum AuthAction {
    /// Start (replacing any previous) periodic heartbeat sub-task.
    StartHeartbeat { interval_ms: u64 },
    /// Send this frame on the auth socket.
    SendFrame { frame: String },
    /// Render this URL as a scannable image and report the outcome.
    RenderQr { url: String },
    /// Exchange this ticket for a token and report the outcome.
    ExchangeTicket { ticket: String },
    /// Perform the application login with this token and report the outcome.
    PerformLogin { token: String },
    /// Stop the heartbeat sub-task.
    StopHeartbeat,
}

/// The flow's state: its polled status, whether it has ended, and the login
/// URI awaiting its rendered image.
pub struct QrFlowState {
    pub status: QrStatus,
    pub done: bool,
    pub pending_ra_url: Option<String>,
}

impl QrFlowState {
    /// The flow ends exactly when its status is terminal.
    pub open spec fn wf(self) -> bool {
        self.done <==> is_terminal_spec(self.status)
    }

    /// The state before the socket connects.
    pub fn new() -> (r: QrFlowState)
        ensures
            r.status is Connecting,
            !r.done,
            r.pending_ra_url is None,
            r.wf(),
    {
        QrFlowState { status: QrStatus::Connecting, done: false, pending_ra_url: None }
    }

    /// The socket connected: the flow now waits for the QR handshake.
    pub fn socket_connected(&mut self)
        requires
            !old(self).done,
        ensures
            final(self).status is WaitingForQr,
            !final(self).done,
            final(self).pending_ra_url == old(self).pending_ra_url,
            final(self).wf(),
    {
        self.status = QrStatus::WaitingForQr;
    }

    /// End the flow with an error carried from outside (connect or setup
    /// failures happen before any frame).
    pub fn fail(&mut self, message: String)
        ensures
            final(self).done,
            final(self).status matches QrStatus::Error { message: m } && m == message,
            final(self).wf(),
    {
        self.status = QrStatus::Error { message };
        self.done = true;
    }

    /// An external cancellation observed outside the event loop.
    pub fn cancel(&mut self)
        ensures
            final(self).done,
            final(self).status is Cancelled,
            final(self).wf(),
    {
        self.status = QrStatus::Cancelled;
        self.done = true;
    }

    fn fail_step(&mut self, acts: &mut Vec<AuthAction>, message: String)
        ensures
            final(self).done,
            final(self).status matches QrStatus::Error { message: m } && m == message,
            final(self).wf(),
            final(acts)@ == old(acts)@.push(AuthAction::StopHeartbeat),
            final(self).pending_ra_url == old(self).pending_ra_url,
    {
        self.status = QrStatus::Error { message };
        self.done = true;
        acts.push(AuthAction::StopHeartbeat);
    }

    /// Perform one transition of the flow. Terminal transitions always stop
    /// the heartbeat sub-task; a cancel at any pre-terminal status yields
    /// `Cancelled`; a nonce that fails to decode or decrypt yields `Error`.
    pub fn step(&mut self, keys: &SessionKeys, input: AuthInput) -> (acts: Vec<AuthAction>)
        requires
            !old(self).done,
            old(self).wf(),
        ensures
            final(self).wf(),
            final(self).done ==> acts@ =~= seq![AuthAction::StopHeartbeat],
            (input is CancelSignal || input matches AuthInput::Frame(AuthEvent::Cancel)) ==> (
            final(self).status is Cancelled && final(self).done),
            input matches AuthInput::Frame(AuthEvent::Hello { heartbeat_interval_ms }) ==> (
            !final(self).done && final(self).status == old(self).status && acts@.len() == 2
                && acts@[0] == (AuthAction::StartHeartbeat {
                interval_ms: match heartbeat_interval_ms {
                    Some(v) => v,
                    None => AUTH_DEFAULT_HEARTBEAT_MS,
                },
            }) && (acts@[1] matches AuthAction::SendFrame { frame } && frame@
                == frames::init_frame_spec(keys.public_key_b64@))),
            input matches AuthInput::Frame(
                AuthEvent::NonceProof { encrypted_nonce_b64 },
            ) ==> ((crypto::b64_standard_decode_of(encrypted_nonce_b64@) is None ==> (final(self).done && (final(self).status matches QrStatus::Error { message } && message@
                == "Bad nonce base64"@))) && (crypto::b64_standard_decode_of(
                encrypted_nonce_b64@,
            ) is Some ==> ((final(self).done && (final(self).status matches QrStatus::Error {
                message,
            } && message@ == "Nonce decrypt error"@)) || (!final(self).done && final(self).status
                == old(self).status && acts@.len() == 1 && (acts@[0]
                matches AuthAction::SendFrame { frame } && (exists|plain: Seq<u8>|
                frame@ == frames::nonce_proof_frame_spec(
                    crypto::b64_url_nopad_of(#[trigger] crypto::sha256_of(plain)),
                ))))))),
            input matches AuthInput::Frame(AuthEvent::PendingRemoteInit { fingerprint }) ==> ((
            fingerprint@.len() == 0 ==> (final(self).done && (final(self).status
                matches QrStatus::Error { message } && message@ == "Empty fingerprint"@))) && (
            fingerprint@.len() > 0 ==> (!final(self).done && final(self).status == old(self).status
                && (final(self).pending_ra_url matches Some(ru) && ru@ == frames::ra_url_spec(
                fingerprint@,
            )) && acts@.len() == 1 && (acts@[0] matches AuthAction::RenderQr { url } && url@
                == frames::ra_url_spec(fingerprint@))))),
            input matches AuthInput::QrRendered { png: None } ==> (final(self).done && (final(self).status matches QrStatus::Error { message } && message@ == "QR encode error"@)),
            input matches AuthInput::QrRendered { png: Some(data) } ==> ((old(self).pending_ra_url
                is Some ==> (!final(self).done && (final(self).status matches QrStatus::QrReady {
                qr_url,
                ra_url,
            } && qr_url@ == frames::qr_data_uri_spec(data@) && ra_url@ == old(self).pending_ra_url->Some_0@) && acts@.len() == 0)) && (old(self).pending_ra_url is None
                ==> (*final(self) == *old(self) && acts@.len() == 0))),
            input matches AuthInput::Frame(AuthEvent::PendingTicket) ==> (!final(self).done
                && final(self).status is Scanned && acts@.len() == 0),
            input matches AuthInput::Frame(AuthEvent::PendingLogin { ticket }) ==> ((ticket@.len()
                == 0 ==> (final(self).done && (final(self).status matches QrStatus::Error { message }
                && message@ == "Empty ticket"@))) && (ticket@.len() > 0 ==> (!final(self).done
                && final(self).status is Completing && acts@.len() == 1 && (acts@[0]
                matches AuthAction::ExchangeTicket { ticket: t } && t@ == ticket@)))),
            input matches AuthInput::TicketExchangeFailed { message: msg } ==> (final(self).done
                && (final(self).status matches QrStatus::Error { message: m } && m@ == msg@)),
            input matches AuthInput::TicketBody { encrypted_token: Some(enc), token: _ } ==> ((
            final(self).done && final(self).status is Error) || (!final(self).done && final(self).status is Completing && acts@.len() == 1 && (acts@[0]
                matches AuthAction::PerformLogin { token: t } && t@.len() > 0 && (exists|
                    plain: Seq<u8>,
                |
                    (#[trigger] crypto::utf8_decode_of(plain)) matches Some(txt) && t@
                        == text::token_trim_spec(txt))))),
            input matches AuthInput::TicketBody { encrypted_token: None, token: Some(tk) } ==> ({
                let tr = text::trim_by(tk@, |c: char| text::is_space_char(c));
                (tr.len() == 0 ==> (final(self).done && (final(self).status
                    matches QrStatus::Error { message } && message@
                    == "No token in Discord finalization response"@))) && (tr.len() > 0 ==> (!final(self).done && final(self).status is Completing && acts@.len() == 1 && (acts@[0]
                    matches AuthAction::PerformLogin { token: t } && t@ == tr)))
            }),
            input matches AuthInput::TicketBody { encrypted_token: None, token: None } ==> (final(self).done && (final(self).status matches QrStatus::Error { message } && message@
                == "No token in Discord finalization response"@)),
            input matches AuthInput::Frame(AuthEvent::Finish { encrypted_token }) ==> ((
            encrypted_token matches Some(enc) ==> ((final(self).done && final(self).status
                is Error) || (!final(self).done && final(self).status is Completing && acts@.len()
                == 1 && (acts@[0] matches AuthAction::PerformLogin { token: t } && t@.len() > 0
                && (exists|plain: Seq<u8>|
                    (#[trigger] crypto::utf8_decode_of(plain)) matches Some(txt) && t@
                        == text::token_trim_spec(txt))))))
                && (encrypted_token is None ==> (!final(self).done && final(self).status == old(self).status && acts@.len() == 0))),
            input matches AuthInput::LoginSucceeded { auth } ==> (final(self).done && (final(self).status matches QrStatus::Completed { auth: a } && a@ == auth@)),
            input matches AuthInput::LoginFailed { message: msg } ==> (final(self).done && (final(self).status matches QrStatus::Error { message: m } && m@ == msg@)),
            input is SocketClosed ==> (final(self).done && (final(self).status
                matches QrStatus::Error { message } && message@ == "WebSocket closed by Discord"@)),
            input matches AuthInput::SocketError { message: msg } ==> (final(self).done && (final(self).status matches QrStatus::Error { message: m } && m@ == msg@)),
            input is InitSendFailed ==> (final(self).done && (final(self).status
                matches QrStatus::Error { message } && message@ == "Failed to send init"@)),
            input is ProofSendFailed ==> (final(self).done && (final(self).status
                matches QrStatus::Error { message } && message@ == "Failed to send nonce_proof"@)),
            input matches AuthInput::Frame(AuthEvent::Ignored) ==> (*final(self) == *old(self)
                && acts@.len() == 0),
    {
        let mut acts: Vec<AuthAction> = Vec::new();
        match input {
            AuthInput::CancelSignal => {
                self.status = QrStatus::Cancelled;
                self.done = true;
                acts.push(AuthAction::StopHeartbeat);
            },
            AuthInput::Frame(AuthEvent::Cancel) => {
                self.status = QrStatus::Cancelled;
                self.done = true;
                acts.push(AuthAction::StopHeartbeat);
            },
            AuthInput::Frame(AuthEvent::Hello { heartbeat_interval_ms }) => {
                let iv = match heartbeat_interval_ms {
                    Some(v) => v,
                    None => AUTH_DEFAULT_HEARTBEAT_MS,
                };
                acts.push(AuthAction::StartHeartbeat { interval_ms: iv });
                let frame = frames::init_frame(keys.public_key_b64.as_str());
                acts.push(AuthAction::SendFrame { frame });
            },
            AuthInput::Frame(AuthEvent::NonceProof { encrypted_nonce_b64 }) => {
                match crypto::b64_decode_standard(encrypted_nonce_b64.as_str()) {
                    None => {
                        self.fail_step(&mut acts, String::from_str("Bad nonce base64"));
                    },
                    Some(cipher) => {
                        match crypto::rsa_oaep_decrypt(&keys.private_key, cipher.as_slice()) {
                            None => {
                                self.fail_step(&mut acts, String::from_str("Nonce decrypt error"));
                            },
                            Some(plain) => {
                                let proof_text = nonce_proof_value(plain.as_slice());
                                let frame = frames::nonce_proof_frame(proof_text.as_str());
                                proof {
                                    assert(frame@ == frames::nonce_proof_frame_spec(
                                        crypto::b64_url_nopad_of(crypto::sha256_of(plain@)),
                                    ));
                                }
                                acts.push(AuthAction::SendFrame { frame });
                            },
                        }
                    },
                }
            },
            AuthInput::Frame(AuthEvent::PendingRemoteInit { fingerprint }) => {
                if fingerprint.as_str().is_empty() {
                    self.fail_step(&mut acts, String::from_str("Empty fingerprint"));
                } else {
                    let url = frames::ra_url(fingerprint.as_str());
                    self.pending_ra_url = Some(url.clone());
                    acts.push(AuthAction::RenderQr { url });
                }
            },
            AuthInput::QrRendered { png } => {
                match png {
                    None => {
                        self.fail_step(&mut acts, String::from_str("QR encode error"));
                    },
                    Some(data) => {
                        let mut taken: Option<String> = None;
                        core::mem::swap(&mut taken, &mut self.pending_ra_url);
                        match taken {
                            Some(ru) => {
                                let qr_url = frames::qr_data_uri(data.as_slice());
                                self.status = QrStatus::QrReady { qr_url, ra_url: ru };
                                self.pending_ra_url = None;
                            },
                            None => {
                                self.pending_ra_url = None;
                            },
                        }
                    },
                }
            },
            AuthInput::Frame(AuthEvent::PendingTicket) => {
                self.status = QrStatus::Scanned;
            },
            AuthInput::Frame(AuthEvent::PendingLogin { ticket }) => {
                if ticket.as_str().is_empty() {
                    self.fail_step(&mut acts, String::from_str("Empty ticket"));
                } else {
                    self.status = QrStatus::Completing;
                    acts.push(AuthAction::ExchangeTicket { ticket });
                }
            },
            AuthInput::TicketExchangeFailed { message } => {
                self.fail_step(&mut acts, message);
            },
            AuthInput::TicketBody { encrypted_token, token } => {
                match encrypted_token {
                    Some(enc) => {
                        match decrypt_token(keys, enc.as_str()) {
                            Ok(t) => {
                                self.status = QrStatus::Completing;
                                acts.push(AuthAction::PerformLogin { token: t });
                            },
                            Err(m) => {
                                self.fail_step(&mut acts, m);
                            },
                        }
                    },
                    None => {
                        match token {
                            Some(tk) => {
                                let tr = text::trim_spaces(tk.as_str());
                                if tr.as_str().is_empty() {
                                    self.fail_step(
                                        &mut acts,
                                        String::from_str(
                                            "No token in Discord finalization response",
                                        ),
                                    );
                                } else {
                                    self.status = QrStatus::Completing;
                                    acts.push(AuthAction::PerformLogin { token: tr });
                                }
                            },
                            None => {
                                self.fail_step(
                                    &mut acts,
                                    String::from_str("No token in Discord finalization response"),
                                );
                            },
                        }
                    },
                }
            },
            AuthInput::Frame(AuthEvent::Finish { encrypted_token }) => {
                match encrypted_token {
                    Some(enc) => {
                        match decrypt_token(keys, enc.as_str()) {
                            Ok(t) => {
                                self.status = QrStatus::Completing;
                                acts.push(AuthAction::PerformLogin { token: t });
                            },
                            Err(m) => {
                                self.fail_step(&mut acts, m);
                            },
                        }
                    },
                    None => {},
                }
            },
            AuthInput::LoginSucceeded { auth } => {
                self.status = QrStatus::Completed { auth };
                self.done = true;
                acts.push(AuthAction::StopHeartbeat);
            },
            AuthInput::LoginFailed { message } => {
                self.fail_step(&mut acts, message);
            },
            AuthInput::SocketClosed => {
                self.fail_step(&mut acts, String::from_str("WebSocket closed by Discord"));
            },
            AuthInput::SocketError { message } => {
                self.fail_step(&mut acts, message);
            },
            AuthInput::InitSendFailed => {
                self.fail_step(&mut acts, String::from_str("Failed to send init"));
            },
            AuthInput::ProofSendFailed => {
                self.fail_step(&mut acts, String::from_str("Failed to send nonce_proof"));
            },
            AuthInput::Frame(AuthEvent::Ignored) => {},
        }
        acts
    }
}

} // verus!
