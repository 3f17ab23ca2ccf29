use web_host::bridge::{
    backend_message_handler, send_now, Handshake, Outbox, POLL_INTERVAL_MS, RETRY_DELAY_MS,
};
use web_host::context::{Step, WebviewContext, INIT_SCRIPT};
use web_host::webview_manager::Bounds;
use web_host::host::{
    answer_command, backend_script, handle_frontend_command, handle_frontend_message, inbound,
    process_frontend_messages, server_url,
};
use web_host::protocol::{BackendEvent, BackendMessage, FrontendCommand, FrontendMessage};

#[test]
fn timers_are_short_and_fixed() {
    assert_eq!(RETRY_DELAY_MS, 10);
    assert_eq!(POLL_INTERVAL_MS, 50);
}

#[test]
fn available_channel_gets_the_text_at_once() {
    let mut outbox = Outbox::new();
    let dispatch = outbox.try_send_or_queue("one".to_string(), true);
    assert_eq!(dispatch.post, vec!["one"]);
    assert!(!dispatch.retry);
    assert_eq!(outbox.len(), 0);
}

#[test]
fn missing_channel_queues_and_asks_for_the_timer() {
    let mut outbox = Outbox::new();
    let dispatch = outbox.try_send_or_queue("one".to_string(), false);
    assert!(dispatch.post.is_empty());
    assert!(dispatch.retry);
    assert_eq!(outbox.len(), 1);
}

#[test]
fn queued_texts_go_out_in_order_before_a_new_one() {
    let mut outbox = Outbox::new();
    outbox.try_send_or_queue("one".to_string(), false);
    outbox.try_send_or_queue("two".to_string(), false);
    let dispatch = outbox.try_send_or_queue("three".to_string(), true);
    assert_eq!(dispatch.post, vec!["one", "two", "three"]);
    assert!(!dispatch.retry);
    assert_eq!(outbox.len(), 0);
}

#[test]
fn retry_keeps_waiting_until_the_channel_is_there_then_flushes_once() {
    let mut outbox = Outbox::new();
    outbox.try_send_or_queue("one".to_string(), false);
    outbox.try_send_or_queue("two".to_string(), false);

    let waiting = outbox.retry(false);
    assert!(waiting.post.is_empty());
    assert!(waiting.retry);
    assert_eq!(outbox.len(), 2);

    let flushed = outbox.retry(true);
    assert_eq!(flushed.post, vec!["one", "two"]);
    assert!(!flushed.retry);
    assert_eq!(outbox.len(), 0);

    let again = outbox.retry(true);
    assert!(again.post.is_empty());
    assert!(!again.retry);
}

#[test]
fn everything_sent_arrives_once_and_in_order() {
    let mut outbox = Outbox::new();
    let mut posted: Vec<String> = Vec::new();
    let mut sent: Vec<String> = Vec::new();
    let availability = [false, false, true, false, true, true, false];
    for (step, available) in availability.iter().enumerate() {
        let text = format!("message {step}");
        sent.push(text.clone());
        posted.extend(outbox.try_send_or_queue(text, *available).post);
        posted.extend(outbox.retry(*available).post);
    }
    posted.extend(outbox.flush_pending_messages());
    assert_eq!(posted, sent);
    assert_eq!(outbox.len(), 0);
}

#[test]
fn flush_takes_everything_out_oldest_first() {
    let mut outbox = Outbox::new();
    outbox.try_send_or_queue("a".to_string(), false);
    outbox.try_send_or_queue("b".to_string(), false);
    assert_eq!(outbox.flush_pending_messages(), vec!["a", "b"]);
    assert!(outbox.flush_pending_messages().is_empty());
}

#[test]
fn commands_are_sent_as_their_message_text() {
    let mut outbox = Outbox::new();
    let dispatch = outbox.send_command(FrontendCommand::Ready, true).unwrap();
    assert_eq!(dispatch.post, vec!["AAA="]);
    let message = FrontendMessage::Command(FrontendCommand::RequestRandomNumber { request_id: 3 });
    let dispatch = outbox.send_to_backend(message, false).unwrap();
    assert!(dispatch.post.is_empty());
    assert!(dispatch.retry);
    let flushed = outbox.retry(true);
    assert_eq!(flushed.post, vec![message.to_base64().unwrap()]);
    assert_eq!(FrontendMessage::from_base64(&flushed.post[0]), Some(message));
}

#[test]
fn page_handler_gets_well_formed_messages_only() {
    let connected = BackendMessage::Event(BackendEvent::Connected);
    let text = connected.to_base64().unwrap();
    assert_eq!(backend_message_handler(&text), Some(connected));
    assert_eq!(backend_message_handler("%%%"), None);
    assert_eq!(backend_message_handler(""), None);
}

#[test]
fn handshake_announces_from_the_first_sight_of_the_channel_until_connected() {
    let mut handshake = Handshake::new();
    assert_eq!(handshake, Handshake { ipc_ready: false, connected: false });
    assert!(!handshake.poll(false));
    assert!(!handshake.ipc_ready);
    assert!(handshake.poll(true));
    assert!(handshake.ipc_ready);
    assert!(handshake.poll(false));

    let number = BackendEvent::RandomNumber { request_id: 1, value: 2 };
    assert_eq!(
        handshake.receive(&number.to_base64().unwrap()),
        Some(BackendEvent::RandomNumber { request_id: 1, value: 2 })
    );
    assert!(!handshake.connected);
    assert!(handshake.poll(true));

    assert_eq!(handshake.receive("garbage"), None);
    assert!(!handshake.connected);

    let connected = BackendEvent::Connected;
    assert_eq!(handshake.receive(&connected.to_base64().unwrap()), Some(BackendEvent::Connected));
    assert!(handshake.connected);
    assert!(!handshake.poll(true));
    assert!(!handshake.poll(false));
}

#[test]
fn ready_is_answered_with_connected() {
    assert_eq!(answer_command(FrontendCommand::Ready, 99), BackendEvent::Connected);
    assert_eq!(
        handle_frontend_command(FrontendCommand::Ready),
        BackendMessage::Event(BackendEvent::Connected)
    );
}

#[test]
fn number_request_is_answered_under_its_identifier() {
    assert_eq!(
        answer_command(FrontendCommand::RequestRandomNumber { request_id: 42 }, 7),
        BackendEvent::RandomNumber { request_id: 42, value: 7 }
    );
    match handle_frontend_command(FrontendCommand::RequestRandomNumber { request_id: 42 }) {
        BackendMessage::Event(BackendEvent::RandomNumber { request_id, .. }) => {
            assert_eq!(request_id, 42)
        }
        other => panic!("unexpected reply {other:?}"),
    }
}

#[test]
fn random_numbers_differ_between_requests() {
    let mut values = Vec::new();
    for request_id in 0..8 {
        match handle_frontend_command(FrontendCommand::RequestRandomNumber { request_id }) {
            BackendMessage::Event(BackendEvent::RandomNumber { value, .. }) => values.push(value),
            other => panic!("unexpected reply {other:?}"),
        }
    }
    let first = values[0];
    assert!(values.iter().any(|value| *value != first));
}

#[test]
fn command_messages_are_answered() {
    let reply = handle_frontend_message(FrontendMessage::Command(FrontendCommand::Ready));
    assert_eq!(reply, Some(BackendMessage::Event(BackendEvent::Connected)));
}

#[test]
fn drained_messages_are_answered_in_order_to_their_senders() {
    let messages = vec![
        ("left".to_string(), FrontendMessage::Command(FrontendCommand::Ready)),
        (
            "right".to_string(),
            FrontendMessage::Command(FrontendCommand::RequestRandomNumber { request_id: 5 }),
        ),
        ("left".to_string(), FrontendMessage::Command(FrontendCommand::Ready)),
    ];
    let replies = process_frontend_messages(messages);
    assert_eq!(replies.len(), 3);
    assert_eq!(replies[0].webview_id, "left");
    assert_eq!(replies[0].message, BackendMessage::Event(BackendEvent::Connected));
    assert_eq!(replies[1].webview_id, "right");
    assert!(matches!(
        replies[1].message,
        BackendMessage::Event(BackendEvent::RandomNumber { request_id: 5, .. })
    ));
    assert_eq!(replies[2].webview_id, "left");
    assert!(process_frontend_messages(Vec::new()).is_empty());
}

#[test]
fn inbound_text_is_queued_under_the_webview_identifier() {
    let message = FrontendMessage::Command(FrontendCommand::RequestRandomNumber { request_id: 9 });
    let text = message.to_base64().unwrap();
    assert_eq!(inbound("view-1", &text), Some(("view-1".to_string(), message)));
    assert_eq!(inbound("view-1", "not a message"), None);
}

#[test]
fn delivery_script_wraps_the_text() {
    let connected = BackendMessage::Event(BackendEvent::Connected);
    assert_eq!(
        backend_script(&connected),
        Some("window.onBackendMessage('AQA=');".to_string())
    );
    let number = BackendMessage::Event(BackendEvent::RandomNumber { request_id: 1, value: 300 });
    assert_eq!(
        backend_script(&number).unwrap(),
        format!("window.onBackendMessage('{}');", number.to_base64().unwrap())
    );
}

#[test]
fn server_url_is_loopback_with_the_port() {
    assert_eq!(server_url(0), "http://127.0.0.1:0");
    assert_eq!(server_url(8080), "http://127.0.0.1:8080");
    assert_eq!(server_url(65535), "http://127.0.0.1:65535");
}

#[test]
fn command_without_outbox_goes_out_only_while_the_channel_is_there() {
    assert_eq!(send_now(FrontendCommand::Ready, true), Some("AA==".to_string()));
    assert_eq!(send_now(FrontendCommand::Ready, false), None);
}

#[test]
fn single_webview_is_built_once_and_moved_when_the_frame_moves() {
    let at = |x: f64| Bounds {
        x: x.to_bits(),
        y: 0f64.to_bits(),
        width: 100f64.to_bits(),
        height: 50f64.to_bits(),
    };
    let mut context: WebviewContext<&str> = WebviewContext::new();
    assert_eq!(context.get(), None);
    assert_eq!(context.send(BackendEvent::Connected), None);
    assert_eq!(context.ensure_webview(at(1.0)), Step::Build);
    assert_eq!(context.ensure_webview(at(1.0)), Step::Build);
    context.attach("handle", at(1.0));
    assert_eq!(context.get(), Some(&"handle"));
    assert_eq!(context.ensure_webview(at(1.0)), Step::Keep);
    assert_eq!(context.ensure_webview(at(2.0)), Step::Move);
    assert_eq!(context.ensure_webview(at(2.0)), Step::Keep);
    assert_eq!(
        context.send(BackendEvent::Connected),
        Some((&"handle", "window.onBackendMessage('AA==')".to_string()))
    );
    let command = FrontendCommand::RequestRandomNumber { request_id: 8 };
    assert_eq!(web_host::context::inbound(&command.to_base64().unwrap()), Some(command));
    assert_eq!(web_host::context::inbound("!"), None);
    assert_eq!(INIT_SCRIPT, "window.onBackendMessage=function(d){window.__h&&window.__h(d)};");
}
