use my_ext_processor::messages::{HttpBody, HttpHeaders, HttpTrailers, ProcessingRequest, ProcessingResponse};
use my_ext_processor::processing_request::Request;
use my_ext_processor::processor::MyExtProcessor;
use my_ext_processor::stream::{StreamAction, StreamEvent, StreamPhase};

fn request(request: Option<Request>) -> ProcessingRequest {
    ProcessingRequest { request }
}

fn answer(req: &ProcessingRequest) -> ProcessingResponse {
    MyExtProcessor::default().respond(req)
}

fn all_phases() -> Vec<ProcessingRequest> {
    vec![
        request(Some(Request::RequestHeaders(HttpHeaders { headers: None, end_of_stream: false }))),
        request(Some(Request::RequestBody(HttpBody { body: b"ping".to_vec(), end_of_stream: true }))),
        request(Some(Request::RequestTrailers(HttpTrailers { trailers: None }))),
        request(Some(Request::ResponseHeaders(HttpHeaders { headers: None, end_of_stream: false }))),
        request(Some(Request::ResponseBody(HttpBody { body: vec![], end_of_stream: true }))),
        request(Some(Request::ResponseTrailers(HttpTrailers { trailers: None }))),
        request(None),
    ]
}

#[test]
fn stream_starts_awaiting_request() {
    assert_eq!(StreamPhase::start(), StreamPhase::AwaitingRequest);
    assert!(!StreamPhase::start().is_finished());
    assert!(StreamPhase::Finished.is_finished());
}

#[test]
fn each_request_answered_in_order_then_close() {
    let processor = MyExtProcessor::default();
    let mut phase = StreamPhase::start();
    for req in all_phases() {
        let expected = answer(&req);
        let (next, action) = phase.step::<String>(&processor, StreamEvent::Inbound(Ok(req)));
        assert_eq!(next, StreamPhase::AwaitingDelivery { closing: false });
        assert_eq!(action, StreamAction::Forward(Ok(expected)));
        let (next, action) = next.step::<String>(&processor, StreamEvent::Delivery(true));
        assert_eq!(next, StreamPhase::AwaitingRequest);
        assert_eq!(action, StreamAction::Receive);
        phase = next;
    }
    let (next, action) = phase.step::<String>(&processor, StreamEvent::InboundClosed);
    assert_eq!(next, StreamPhase::Finished);
    assert_eq!(action, StreamAction::Stop);
}

#[test]
fn inbound_failure_forwarded_then_stop() {
    let processor = MyExtProcessor::default();
    let failure = "transport reset".to_string();
    let (next, action) = StreamPhase::AwaitingRequest.step(&processor, StreamEvent::Inbound(Err(failure.clone())));
    assert_eq!(next, StreamPhase::AwaitingDelivery { closing: true });
    assert_eq!(action, StreamAction::Forward(Err(failure)));
    for delivered in [true, false] {
        let (after, action) = next.step::<String>(&processor, StreamEvent::Delivery(delivered));
        assert_eq!(after, StreamPhase::Finished);
        assert_eq!(action, StreamAction::Stop);
    }
}

#[test]
fn failed_delivery_ends_stream() {
    let processor = MyExtProcessor::default();
    let (next, _) = StreamPhase::AwaitingRequest.step::<String>(&processor, StreamEvent::Inbound(Ok(request(None))));
    let (after, action) = next.step::<String>(&processor, StreamEvent::Delivery(false));
    assert_eq!(after, StreamPhase::Finished);
    assert_eq!(action, StreamAction::Stop);
}

#[test]
fn finished_stream_stays_finished() {
    let processor = MyExtProcessor::default();
    let events: Vec<StreamEvent<String>> = vec![
        StreamEvent::Inbound(Ok(request(None))),
        StreamEvent::Inbound(Err("late".to_string())),
        StreamEvent::InboundClosed,
        StreamEvent::Delivery(true),
        StreamEvent::Delivery(false),
    ];
    for event in events {
        let (next, action) = StreamPhase::Finished.step(&processor, event);
        assert_eq!(next, StreamPhase::Finished);
        assert_eq!(action, StreamAction::Stop);
    }
}

#[test]
fn unexpected_event_ends_stream() {
    let processor = MyExtProcessor::default();
    let (next, action) = StreamPhase::AwaitingRequest.step::<String>(&processor, StreamEvent::Delivery(true));
    assert_eq!((next, action), (StreamPhase::Finished, StreamAction::Stop));
    let (next, action) = StreamPhase::AwaitingDelivery { closing: false }
        .step::<String>(&processor, StreamEvent::InboundClosed);
    assert_eq!((next, action), (StreamPhase::Finished, StreamAction::Stop));
}

#[test]
fn receives_never_outrun_deliveries() {
    let processor = MyExtProcessor::default();
    let events: Vec<StreamEvent<String>> = vec![
        StreamEvent::Inbound(Ok(request(None))),
        StreamEvent::Delivery(true),
        StreamEvent::Delivery(true),
        StreamEvent::Inbound(Ok(request(None))),
        StreamEvent::Delivery(false),
        StreamEvent::Inbound(Ok(request(None))),
        StreamEvent::Delivery(true),
    ];
    let mut phase = StreamPhase::start();
    let mut receives = 0;
    let mut deliveries = 0;
    for event in events {
        if event == StreamEvent::Delivery(true) {
            deliveries += 1;
        }
        let (next, action) = phase.step(&processor, event);
        if action == StreamAction::Receive {
            receives += 1;
        }
        phase = next;
    }
    assert_eq!(receives, 1);
    assert_eq!(deliveries, 3);
    assert!(receives <= deliveries);
    assert_eq!(phase, StreamPhase::Finished);
}
