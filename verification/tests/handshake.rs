use base64::Engine;
use base64::prelude::BASE64_STANDARD;
use ed25519_dalek::{Signer, SigningKey};
use kanjilab_server::data_types::{
    InReqMakeAdmin, InReqRegisterClient, InReqSendAnswer, InReqSendPublicKey,
    InReqVerifySignature, OutRespStatus, ToTransport, TransportEnvelope, TransportMsg,
};
use kanjilab_server::session_client_actor::{SendRaw, SendWs, SessionAction, SessionClientActor};
use kanjilab_server::tools::{verify_signature, SigError};

fn status_of(action: &SessionAction) -> (u128, String) {
    match action {
        SessionAction::Transport(ToTransport::Ws(TransportMsg::OutRespStatus(e))) => {
            (e.correlation_id, e.payload.status.clone())
        }
        other => panic!("expected a status reply, got {:?}", other),
    }
}

fn challenge_of(action: &SessionAction) -> (u128, String) {
    match action {
        SessionAction::Transport(ToTransport::Ws(TransportMsg::OutRespSignMessage(e))) => {
            (e.correlation_id, e.payload.message.clone())
        }
        other => panic!("expected a sign-message reply, got {:?}", other),
    }
}

fn key_pair() -> (SigningKey, String) {
    let sk = SigningKey::from_bytes(&[7u8; 32]);
    let pk = BASE64_STANDARD.encode(sk.verifying_key().to_bytes());
    (sk, pk)
}

#[test]
fn s1_handshake_happy_path() {
    let (sk, pk) = key_pair();
    let mut session = SessionClientActor::new();
    let acts = session.handle(
        TransportMsg::InReqSendPublicKey(TransportEnvelope {
            correlation_id: 0xC1,
            payload: InReqSendPublicKey { key: pk },
        }),
        false,
        true,
    );
    assert_eq!(acts.len(), 1);
    let (corr, challenge) = challenge_of(&acts[0]);
    assert_eq!(corr, 0xC1);
    assert_eq!(challenge.len(), 36);

    let signature = BASE64_STANDARD.encode(sk.sign(challenge.as_bytes()).to_bytes());
    let acts = session.handle(
        TransportMsg::InReqVerifySignature(TransportEnvelope {
            correlation_id: 0xC2,
            payload: InReqVerifySignature { signature },
        }),
        false,
        true,
    );
    assert_eq!(acts.len(), 1);
    assert_eq!(status_of(&acts[0]), (0xC2, "success".to_string()));
    assert!(session.signature_verified);
}

#[test]
fn s2_register_before_verify() {
    let mut session = SessionClientActor::new();
    let acts = session.handle(
        TransportMsg::InReqRegisterClient(TransportEnvelope {
            correlation_id: 0xC3,
            payload: InReqRegisterClient { name: "A".to_string() },
        }),
        false,
        true,
    );
    assert_eq!(acts.len(), 1);
    assert_eq!(status_of(&acts[0]), (0xC3, "error".to_string()));
}

#[test]
fn verify_without_challenge_is_refused() {
    let mut session = SessionClientActor::new();
    let acts = session.handle(
        TransportMsg::InReqVerifySignature(TransportEnvelope {
            correlation_id: 5,
            payload: InReqVerifySignature { signature: "xx".to_string() },
        }),
        false,
        true,
    );
    assert_eq!(acts.len(), 1);
    assert_eq!(status_of(&acts[0]), (5, "no stored challenges".to_string()));
    assert!(!session.signature_verified);
}

#[test]
fn bad_signature_replies_error_twice() {
    let (_, pk) = key_pair();
    let mut session = SessionClientActor::new();
    let acts = session.handle(
        TransportMsg::InReqSendPublicKey(TransportEnvelope {
            correlation_id: 1,
            payload: InReqSendPublicKey { key: pk },
        }),
        false,
        true,
    );
    let _ = challenge_of(&acts[0]);
    // not even valid base64 for a signature: the exchange is rejected, and
    // the rejection itself is reported before the final verdict
    let acts = session.handle(
        TransportMsg::InReqVerifySignature(TransportEnvelope {
            correlation_id: 2,
            payload: InReqVerifySignature { signature: "!!!".to_string() },
        }),
        false,
        true,
    );
    assert_eq!(acts.len(), 2);
    assert_eq!(status_of(&acts[0]), (2, "error".to_string()));
    assert_eq!(status_of(&acts[1]), (2, "error".to_string()));
    assert!(!session.signature_verified);
}

#[test]
fn resend_key_after_verified_still_overwrites() {
    let (sk, pk) = key_pair();
    let mut session = SessionClientActor::new();
    let acts = session.handle(
        TransportMsg::InReqSendPublicKey(TransportEnvelope {
            correlation_id: 1,
            payload: InReqSendPublicKey { key: pk.clone() },
        }),
        false,
        true,
    );
    let (_, challenge) = challenge_of(&acts[0]);
    let signature = BASE64_STANDARD.encode(sk.sign(challenge.as_bytes()).to_bytes());
    session.handle(
        TransportMsg::InReqVerifySignature(TransportEnvelope {
            correlation_id: 2,
            payload: InReqVerifySignature { signature },
        }),
        false,
        true,
    );
    assert!(session.signature_verified);
    let old_challenge = session.sign_challenge;

    let acts = session.handle(
        TransportMsg::InReqSendPublicKey(TransportEnvelope {
            correlation_id: 3,
            payload: InReqSendPublicKey { key: pk },
        }),
        false,
        true,
    );
    assert_eq!(acts.len(), 2);
    assert_eq!(status_of(&acts[0]), (3, "signature already verified".to_string()));
    let (corr, _) = challenge_of(&acts[1]);
    assert_eq!(corr, 3);
    // the challenge was replaced and `verified` kept: false → true only
    assert!(session.signature_verified);
    assert_ne!(session.sign_challenge, old_challenge);
}

#[test]
fn room_scoped_request_without_room_is_refused() {
    let mut session = SessionClientActor::new();
    let acts = session.handle(
        TransportMsg::InReqSendAnswer(TransportEnvelope {
            correlation_id: 9,
            payload: InReqSendAnswer { answer: "a".to_string() },
        }),
        true,
        true,
    );
    assert_eq!(acts.len(), 1);
    assert_eq!(status_of(&acts[0]), (9, "no room".to_string()));
}

#[test]
fn verify_signature_error_variants() {
    let (sk, pk) = key_pair();
    // bad base64 in the key
    assert_eq!(
        verify_signature("m", "AA", "!bad!"),
        Err(SigError::InvalidPublicKey)
    );
    // key of the wrong decoded length
    let short = BASE64_STANDARD.encode([1u8; 8]);
    assert_eq!(verify_signature("m", "AA", &short), Err(SigError::InvalidPublicKey));
    // bad base64 in the signature
    assert_eq!(verify_signature("m", "!bad!", &pk), Err(SigError::InvalidSignature));
    // signature of the wrong decoded length
    let short_sig = BASE64_STANDARD.encode([1u8; 8]);
    assert_eq!(verify_signature("m", &short_sig, &pk), Err(SigError::InvalidSignature));
    // a valid signature over other bytes does not check out
    let sig = BASE64_STANDARD.encode(sk.sign(b"other").to_bytes());
    assert_eq!(verify_signature("m", &sig, &pk), Ok(false));
    // and the right one does
    let sig = BASE64_STANDARD.encode(sk.sign(b"m").to_bytes());
    assert_eq!(verify_signature("m", &sig, &pk), Ok(true));
}

#[test]
fn send_raw_and_send_ws_forward_to_the_transport() {
    let session = SessionClientActor::new();
    let action = session.handle_send_raw(SendRaw("plain".to_string()));
    assert_eq!(action, SessionAction::Transport(ToTransport::Raw("plain".to_string())));
    let msg = TransportMsg::OutRespStatus(TransportEnvelope {
        correlation_id: 1,
        payload: OutRespStatus { status: "success".to_string() },
    });
    let action = session.handle_send_ws(SendWs(msg.clone()));
    assert_eq!(action, SessionAction::Transport(ToTransport::Ws(msg)));
}

#[test]
fn out_of_protocol_inbound_is_dropped() {
    let mut session = SessionClientActor::new();
    let acts = session.handle(
        TransportMsg::InReqMakeAdmin(TransportEnvelope {
            correlation_id: 1,
            payload: InReqMakeAdmin { admin_password: "SECRET-REDACTED".to_string(), client_id: 2 },
        }),
        true,
        true,
    );
    assert!(acts.is_empty());
}
