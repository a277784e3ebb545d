use voodoo_doll::error::{Error, FspiopError, VoodooError};
use voodoo_doll::rejection::{classify_rejection, rejection_reply, RejectionKind};
use voodoo_doll::settlement::{
    close_decision, decide_model_creation, describes_existing_settlement_model,
    model_creation_decision, CloseDecision, CloseResponse, ModelCreationDecision,
    ModelCreationResponse, PollStep, WindowPoll, MAX_POLL_ATTEMPTS,
};

#[test]
fn client_error_messages() {
    assert_eq!(Error::ConnectionError("boom".to_string()).message(), "Connection failure: boom");
    assert_eq!(Error::PodCreate("x".to_string()).message(), "Error creating pod: x");
    assert_eq!(Error::PodConnect("x".to_string()).message(), "Error connecting to pod: x");
    assert_eq!(Error::PodList("x".to_string()).message(), "Failed to fetch k8s pods: x");
    assert_eq!(Error::PodDelete("x".to_string()).message(), "Error deleting pod: x");
}

#[test]
fn server_error_messages() {
    assert_eq!(
        VoodooError::NonStringWebsocketMessageReceived.message(),
        "Received a non-string websocket message from client"
    );
    assert_eq!(
        VoodooError::WebsocketMessageDeserializeFailed("bad".to_string(), "{}".to_string()).message(),
        "Unrecognised message received from client. Error: bad. Message: {}"
    );
    assert_eq!(VoodooError::HostIpNotFound.message(), "HOST_IP environment variable not set");
    assert_eq!(
        VoodooError::RandomSourceUnavailable.message(),
        "No random source available to name participants"
    );
    assert_eq!(VoodooError::from_client_error("down".to_string()).message(), "Switch client error: down");
    assert_eq!(
        FspiopError::MalformedRequestBody("eof".to_string()).message(),
        "Request body couldn't be deserialized: eof"
    );
}

#[test]
fn rejection_replies() {
    let r = rejection_reply(RejectionKind::NotFound);
    assert_eq!((r.code, r.message.as_str()), (404, "NOT_FOUND"));
    let r = rejection_reply(RejectionKind::Fspiop(FspiopError::MalformedRequestBody("missing field `x`".to_string())));
    assert_eq!((r.code, r.message.as_str()), (400, "missing field `x`"));
    let r = rejection_reply(RejectionKind::MethodNotAllowed);
    assert_eq!((r.code, r.message.as_str()), (405, "METHOD_NOT_ALLOWED"));
    let r = rejection_reply(RejectionKind::Unhandled);
    assert_eq!((r.code, r.message.as_str()), (500, "UNHANDLED_REJECTION"));
}

#[test]
fn close_decisions() {
    assert_eq!(close_decision(&CloseResponse::Accepted), CloseDecision::PollWindow);
    assert_eq!(close_decision(&CloseResponse::ApiError), CloseDecision::ReplyCloseFailed);
    assert_eq!(close_decision(&CloseResponse::OtherFailure), CloseDecision::ReportUnhandled);
}

#[test]
fn polling_gives_up_after_ten_open_reads() {
    let mut poll = WindowPoll::new();
    let mut reads: u32 = 0;
    loop {
        reads += 1;
        assert_eq!(poll.attempt_number(), reads);
        match poll.step(false) {
            PollStep::SleepThenPoll(next) => poll = next,
            PollStep::GiveUp { attempts } => {
                assert_eq!(attempts, 10);
                break;
            }
            PollStep::Closed => panic!("window reported closed"),
        }
    }
    assert_eq!(reads, MAX_POLL_ATTEMPTS);
}

#[test]
fn polling_reports_closure_at_first_closed_read() {
    let mut poll = WindowPoll::new();
    for _ in 0..2 {
        match poll.step(false) {
            PollStep::SleepThenPoll(next) => poll = next,
            other => panic!("unexpected {:?}", other),
        }
    }
    assert_eq!(poll.attempt_number(), 3);
    assert!(matches!(poll.step(true), PollStep::Closed));
    assert!(matches!(WindowPoll::new().step(true), PollStep::Closed));
}

#[test]
fn existing_settlement_model_description() {
    assert!(describes_existing_settlement_model(
        "Internal Server Error - Settlement model DEFERREDNET already exists"
    ));
    assert!(describes_existing_settlement_model("Settlement modelalready exists"));
    assert!(!describes_existing_settlement_model("Settlement model DEFERREDNET\nalready exists"));
    assert!(!describes_existing_settlement_model("already exists: Settlement model"));
    assert!(!describes_existing_settlement_model(""));
}

#[test]
fn model_creation_decisions() {
    assert_eq!(model_creation_decision(&ModelCreationResponse::Created), ModelCreationDecision::ReplyCreated);
    let exists = ModelCreationResponse::ApiError {
        internal_server_error: true,
        description: "Settlement model DEFERREDNET already exists".to_string(),
    };
    assert_eq!(model_creation_decision(&exists), ModelCreationDecision::ReplyCreated);
    let other_code = ModelCreationResponse::ApiError {
        internal_server_error: false,
        description: "Settlement model DEFERREDNET already exists".to_string(),
    };
    assert_eq!(model_creation_decision(&other_code), ModelCreationDecision::ReportApiError);
    let other_text = ModelCreationResponse::ApiError {
        internal_server_error: true,
        description: "Generic server error".to_string(),
    };
    assert_eq!(model_creation_decision(&other_text), ModelCreationDecision::ReportApiError);
    assert_eq!(
        model_creation_decision(&ModelCreationResponse::OtherFailure),
        ModelCreationDecision::ReportOtherFailure
    );
    assert_eq!(decide_model_creation(&other_text, true), ModelCreationDecision::ReplyCreated);
    assert_eq!(decide_model_creation(&exists, false), ModelCreationDecision::ReportApiError);
}

#[test]
fn rejection_classification_order() {
    let bad = || Some(FspiopError::MalformedRequestBody("eof".to_string()));
    assert!(matches!(classify_rejection(true, bad(), true), RejectionKind::NotFound));
    match classify_rejection(false, bad(), true) {
        RejectionKind::Fspiop(FspiopError::MalformedRequestBody(s)) => assert_eq!(s, "eof"),
        other => panic!("unexpected {:?}", other),
    }
    assert!(matches!(classify_rejection(false, None, true), RejectionKind::MethodNotAllowed));
    assert!(matches!(classify_rejection(false, None, false), RejectionKind::Unhandled));
}
