use service_kit::dispatcher::{
    conclude, next_step, DispatcherDefinition, MQTTDispatcher, Message, MessagingError, Search,
    StreamEvent, StreamStep, HANDLING_FAILED, TRACER_NAME,
};
use service_kit::span::SpanKind;

fn definition(name: &str) -> DispatcherDefinition {
    DispatcherDefinition { name: name.to_owned(), msg_type: String::new() }
}

fn message(topic: &str, payload: Vec<u8>) -> Message {
    Message { topic: topic.to_owned(), payload }
}

fn dispatcher_of(filters: &[&str]) -> MQTTDispatcher<usize> {
    let mut dispatcher = MQTTDispatcher::new();
    for (i, filter) in filters.iter().enumerate() {
        dispatcher = dispatcher.register(&definition(filter), i);
    }
    dispatcher
}

#[test]
fn test_new() {
    let dispatcher = MQTTDispatcher::<()>::new();
    assert_eq!(dispatcher.handlers().len(), 0);
}

#[test]
fn test_declare() {
    let dispatch = MQTTDispatcher::new()
        .register(&definition("some/topic"), "first")
        .register(&definition(""), "second");

    assert!(dispatch.handlers().len() == 1);
    assert_eq!(dispatch.handlers()[0], "first");
}

#[test]
fn test_consume() {
    let dispatch = MQTTDispatcher::new().register(&definition("some/topic/#"), ());
    let msg = message("some/topic/sub/1", vec![]);

    let delivery = dispatch.consume(&msg).unwrap();
    assert_eq!(delivery.handler, 0);

    let res = conclude::<MessagingError>(Ok(())).result;
    assert!(res.is_ok());
}

#[test]
fn test_consume_with_plus_wildcard() {
    let dispatcher = MQTTDispatcher::new().register(&definition("some/+/+/sub"), ());
    let msg = message("some/topic/with/sub", vec![]);

    let delivery = dispatcher.consume(&msg).unwrap();
    assert_eq!(delivery.handler, 0);

    let res = conclude::<MessagingError>(Ok(())).result;
    assert!(res.is_ok());
}

#[test]
fn test_consume_with_dispatch_return_err() {
    let dispatcher = MQTTDispatcher::new().register(&definition("/some/topic/#"), ());
    let msg = message("/some/topic/sub", vec![]);

    let delivery = dispatcher.consume(&msg).unwrap();
    assert_eq!(delivery.handler, 0);

    let conclusion = conclude(Err(MessagingError::ConsumerError("err".to_string())));
    assert!(conclusion.result.is_err());
    assert_eq!(conclusion.result, Err(MessagingError::ConsumerError("err".to_string())));
}

#[test]
fn test_consume_with_unregistered_consumer() {
    let dispatcher = MQTTDispatcher::new().register(&definition("other/topic/#"), ());
    let msg = message("some/topic/sub", vec![]);

    let res = dispatcher.consume(&msg);
    assert!(res.is_err());
    assert_eq!(res, Err(MessagingError::UnregisteredHandler));
}

#[test]
fn a_delivery_carries_the_message() {
    let delivery = dispatcher_of(&["a/b"]).consume(&message("a/b", vec![1, 2, 3])).unwrap();
    assert_eq!(delivery.span.name, "a/b");
    assert_eq!(delivery.span.kind, SpanKind::Consumer);
    assert_eq!(delivery.payload.from, "a/b");
    assert_eq!(delivery.payload.msg_type, "");
    assert_eq!(delivery.payload.payload, vec![1, 2, 3]);
    assert_eq!(delivery.payload.headers, None);
    assert_eq!(TRACER_NAME, "mqtt-consumer");
}

#[test]
fn deeper_topics_are_passed_on_to_later_handlers() {
    let dispatcher = dispatcher_of(&["a", "a/b", "a/b/#"]);
    assert_eq!(dispatcher.get_handler_index("a"), Ok(0));
    assert_eq!(dispatcher.get_handler_index("a/b"), Ok(1));
    assert_eq!(dispatcher.get_handler_index("a/b/c/d"), Ok(2));
}

#[test]
fn a_contradicted_filter_hides_the_handlers_behind_it() {
    let dispatcher = dispatcher_of(&["x/#", "a/#"]);
    assert_eq!(dispatcher.get_handler_index("x/1"), Ok(0));
    assert_eq!(dispatcher.get_handler_index("a/1"), Err(MessagingError::UnregisteredHandler));
}

#[test]
fn the_search_tells_of_a_level_that_the_topic_lacks() {
    let dispatcher = dispatcher_of(&["a/b/c"]);
    assert_eq!(dispatcher.search("a/b"), Search::Overrun(0));
    assert_eq!(dispatcher.search("a/b/c"), Search::Found(0));
    assert_eq!(dispatcher.search("a/b/c/d"), Search::Nobody);
    assert_eq!(dispatcher.search("z"), Search::Nobody);
    assert_eq!(dispatcher_of(&[]).search("z"), Search::Nobody);
}

#[test]
fn registering_keeps_the_routes() {
    let fewer = dispatcher_of(&["a", "a/+"]);
    let more = dispatcher_of(&["a", "a/+", "a/b"]);
    assert_eq!(fewer.get_handler_index("a/b"), Ok(1));
    assert_eq!(more.get_handler_index("a/b"), Ok(1));
}

#[test]
fn the_last_registered_gets_what_is_passed_on() {
    let dispatcher = dispatcher_of(&["a", "a/b", "a/b/c"]);
    assert_eq!(dispatcher.get_handler_index("a/b/c"), Ok(2));
}

#[test]
fn every_filter_is_subscribed_to() {
    let dispatcher = dispatcher_of(&["a/#", "b", "a/#"]);
    assert_eq!(
        dispatcher.subscriptions(),
        vec![("a/#".to_owned(), 2), ("b".to_owned(), 2), ("a/#".to_owned(), 2)]
    );
    assert_eq!(*dispatcher.handlers(), vec![0, 1, 2]);
}

#[test]
fn a_failure_is_recorded_and_returned() {
    let failed = conclude::<i32>(Err(7));
    assert_eq!(failed.result, Err(7));
    assert!(failed.recorded_error);
    assert_eq!(failed.error_status, Some("failed to handle the event".to_owned()));
    assert_eq!(HANDLING_FAILED, "failed to handle the event");

    let done = conclude::<i32>(Ok(()));
    assert_eq!(done.result, Ok(()));
    assert!(!done.recorded_error);
    assert_eq!(done.error_status, None);
}

#[test]
fn only_the_end_of_the_stream_ends_consuming() {
    assert_eq!(next_step::<i32>(StreamEvent::Ended), StreamStep::Finish);
    assert_eq!(next_step::<i32>(StreamEvent::Interrupted), StreamStep::Await);
    assert_eq!(
        next_step::<i32>(StreamEvent::Delivered(message("t", vec![9]))),
        StreamStep::Consume(message("t", vec![9]))
    );
    assert_eq!(next_step::<i32>(StreamEvent::Consumed(Ok(()))), StreamStep::Await);
    assert_eq!(next_step::<i32>(StreamEvent::Consumed(Err(3))), StreamStep::ReportAndAwait(3));
}
