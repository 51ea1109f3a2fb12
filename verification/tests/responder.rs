use acme_proxy_config::responder::{HttpReply, Responder, ResponderState};

#[test]
fn single_shot_responder() {
    let mut responder = Responder::new(
        "/.well-known/acme-challenge/tok1".to_string(),
        "tok1.key-auth".to_string(),
    );
    assert_eq!(responder.state, ResponderState::Serving);

    // First request, non-matching path: 404, still serving.
    match responder.on_request(&"/somewhere/else".to_string()) {
        HttpReply::NotFound => {}
        HttpReply::Challenge { .. } => panic!("a stray path must get not-found"),
    }
    assert_eq!(responder.state, ResponderState::Serving);
    assert!(!responder.observed());

    // Second request, matching path: 200 with the key authorization, then
    // the responder stops serving — the accept loop asks for no third one.
    match responder.on_request(&"/.well-known/acme-challenge/tok1".to_string()) {
        HttpReply::Challenge { body } => assert_eq!(body, "tok1.key-auth"),
        HttpReply::NotFound => panic!("the challenge path must be answered"),
    }
    assert_eq!(responder.state, ResponderState::DoneSuccess);
    assert!(responder.observed());
}

#[test]
fn receive_error_stops_serving() {
    let mut responder = Responder::new("/p".to_string(), "k".to_string());
    responder.on_receive_error();
    assert_eq!(responder.state, ResponderState::DoneFailure);
    assert!(!responder.observed());
}
