use didcomm_ai_bridge::agents::state_management::{
    ensure_channel_state, ChannelState, ChatChannelState, ConciergeState, DIDCommAgent,
    OllamaModel, SequenceError,
};
use didcomm_ai_bridge::chat_messages::{
    ack_message, command_reply_for, handle_chat_effect, handle_command, handle_message,
    i_am_thinking, send_message, Handled, ATTACHMENTS_REPLY, HELP_REPLY,
};
use didcomm_ai_bridge::didcomm_messages::{
    Action, HandleError, InboundMessage, MessageBody, PickupStatus, CHAT_ACTIVITY,
    CHAT_DELIVERED, CHAT_EFFECT, CHAT_MESSAGE, CHAT_PRESENCE, CONNECTION_SETUP, PICKUP_STATUS,
};

const ALICE: &str = "did:example:alice";
const AGENT: &str = "did:key:zModel";

fn chat_model() -> OllamaModel {
    OllamaModel::new("http://localhost".to_string(), 11434, "deepseek-r1", AGENT.to_string())
}

fn chat_agent() -> DIDCommAgent {
    DIDCommAgent {
        did: AGENT.to_string(),
        name: "deepseek-r1".to_string(),
        greeting: "Welcome!".to_string(),
        image: "deepseek.png".to_string(),
        x_meetingplace_contact_attributes: 8,
        x_meetingplace_verification_id: None,
    }
}

fn empty_body() -> MessageBody {
    MessageBody { text: None, effect: None, channel_did: None, status: None }
}

fn inbound(type_: &str, from: Option<&str>, body: MessageBody) -> InboundMessage {
    InboundMessage {
        id: "msg-1".to_string(),
        type_: type_.to_string(),
        from: from.map(|f| f.to_string()),
        to: Some(AGENT.to_string()),
        thid: Some("thread".to_string()),
        pthid: Some("parent".to_string()),
        body,
        has_attachments: false,
        sha256_hash: "packed-hash".to_string(),
    }
}

fn chat(text: &str) -> InboundMessage {
    inbound(CHAT_MESSAGE, Some(ALICE), MessageBody { text: Some(text.to_string()), ..empty_body() })
}

fn receipt() -> Action {
    Action::Delivered { to: ALICE.to_string(), message_id: "msg-1".to_string() }
}

fn seq_no_of(model: &OllamaModel, did: &str) -> u64 {
    model.get_channel_state(&sha256::digest(did)).unwrap().seq_no
}

#[test]
fn sends_to_one_party_are_numbered_from_zero() {
    let mut model = chat_model();
    ensure_channel_state(&mut model, ALICE);
    for n in 0..40u64 {
        let text = format!("message {}", n);
        assert_eq!(
            send_message(&text, ALICE, &mut model),
            Ok(Action::Chat { to: ALICE.to_string(), text, seq_no: n })
        );
    }
    assert_eq!(seq_no_of(&model, ALICE), 40);
}

#[test]
fn send_to_an_unknown_party_fails_and_files_nothing() {
    let mut model = chat_model();
    assert_eq!(send_message("hi", ALICE, &mut model), Err(SequenceError::UnknownParty));
    assert_eq!(i_am_thinking(&mut model, ALICE), Err(SequenceError::UnknownParty));
    assert!(model.channel_state.keys().is_empty());
}

#[test]
fn send_with_an_exhausted_counter_fails() {
    let mut model = chat_model();
    let mut state = ChatChannelState::for_remote(ALICE);
    state.seq_no = u64::MAX;
    let key = state.remote_did_hash.clone();
    model.insert_channel_state(&key, state);
    assert_eq!(send_message("hi", ALICE, &mut model), Err(SequenceError::Exhausted));
    assert_eq!(seq_no_of(&model, ALICE), u64::MAX);
}

#[test]
fn activity_signals_are_numbered_apart_from_chat_messages() {
    let mut state = ConciergeState::default();
    ensure_channel_state(&mut state, ALICE);
    assert_eq!(
        i_am_thinking(&mut state, ALICE),
        Ok(Action::Activity { to: ALICE.to_string(), activity_seq_no: 0 })
    );
    assert_eq!(
        send_message("hi", ALICE, &mut state),
        Ok(Action::Chat { to: ALICE.to_string(), text: "hi".to_string(), seq_no: 0 })
    );
    assert_eq!(
        i_am_thinking(&mut state, ALICE),
        Ok(Action::Activity { to: ALICE.to_string(), activity_seq_no: 1 })
    );
}

#[test]
fn receipt_goes_to_the_sender() {
    assert_eq!(ack_message(&chat("hi")), Ok(receipt()));
    let anonymous = inbound(CHAT_MESSAGE, None, empty_body());
    assert_eq!(ack_message(&anonymous), Err(HandleError::NoSender));
}

#[test]
fn help_text_is_the_fixed_one() {
    assert_eq!(
        HELP_REPLY,
        "Help:\n          /help - Display this help message\n          /think - Status of the think tokens being displayed\n          /think on|off - Turn think tokens on or off\n          /dids - Display the DID's for this chat\n        "
    );
    assert_eq!(command_reply_for("/help", "/HELP", AGENT, ALICE), HELP_REPLY);
}

#[test]
fn command_replies() {
    assert_eq!(
        command_reply_for("/dids", "/dids", AGENT, ALICE),
        "DIDs:\nAgent: did:key:zModel\nClient: did:example:alice"
    );
    assert_eq!(
        command_reply_for("/think on", "/Think ON", AGENT, ALICE),
        "ERROR: unknown command: /Think ON\nUse /help to show commands"
    );
    assert_eq!(
        command_reply_for("/", "/", AGENT, ALICE),
        "ERROR: unknown command: /\nUse /help to show commands"
    );
    assert_eq!(
        command_reply_for("/help ", "/help ", AGENT, ALICE),
        "ERROR: unknown command: /help \nUse /help to show commands"
    );
}

#[test]
fn commands_are_looked_up_without_regard_to_case() {
    let mut model = chat_model();
    ensure_channel_state(&mut model, ALICE);
    assert_eq!(
        handle_command("/HeLp", AGENT, &mut model, ALICE),
        Ok(Action::Chat { to: ALICE.to_string(), text: HELP_REPLY.to_string(), seq_no: 0 })
    );
    assert_eq!(
        handle_command("/DIDS", AGENT, &mut model, ALICE),
        Ok(Action::Chat {
            to: ALICE.to_string(),
            text: "DIDs:\nAgent: did:key:zModel\nClient: did:example:alice".to_string(),
            seq_no: 1,
        })
    );
    assert_eq!(
        handle_command("/Nope", AGENT, &mut model, ALICE),
        Ok(Action::Chat {
            to: ALICE.to_string(),
            text: "ERROR: unknown command: /Nope\nUse /help to show commands".to_string(),
            seq_no: 2,
        })
    );
}

#[test]
fn effects_become_prompts() {
    let effect = |name: &str| {
        inbound(CHAT_EFFECT, Some(ALICE), MessageBody { effect: Some(name.to_string()), ..empty_body() })
    };
    let prompt = |text: &str| vec![Action::Generate { to: ALICE.to_string(), prompt: text.to_string() }];
    assert_eq!(handle_chat_effect(&effect("balloons"), ALICE), prompt("I give you a balloon"));
    assert_eq!(handle_chat_effect(&effect("confetti"), ALICE), prompt("Let's celebrate"));
    assert_eq!(
        handle_chat_effect(&effect("fireworks"), ALICE),
        prompt("I don't know what to do with this")
    );
    assert_eq!(
        handle_chat_effect(&effect("Balloons"), ALICE),
        prompt("I don't know what to do with this")
    );
    let unreadable = inbound(CHAT_EFFECT, Some(ALICE), empty_body());
    assert_eq!(handle_chat_effect(&unreadable, ALICE), Vec::new());
}

#[test]
fn message_without_sender_is_an_error_whatever_its_type() {
    for type_ in [
        CONNECTION_SETUP,
        CHAT_PRESENCE,
        CHAT_EFFECT,
        CHAT_MESSAGE,
        CHAT_DELIVERED,
        CHAT_ACTIVITY,
        PICKUP_STATUS,
        "https://example.org/unknown",
    ] {
        let mut model = chat_model();
        let message = inbound(type_, None, MessageBody { text: Some("hi".to_string()), ..empty_body() });
        assert_eq!(
            handle_message(&mut model, &chat_agent(), &message),
            Handled { outcome: Err(HandleError::NoSender), actions: Vec::new() }
        );
        assert!(model.channel_state.keys().is_empty());
    }
}

#[test]
fn prompt_goes_to_the_generation_backend() {
    let mut model = chat_model();
    ensure_channel_state(&mut model, ALICE);
    assert_eq!(
        handle_message(&mut model, &chat_agent(), &chat("Why is the sky blue?")),
        Handled {
            outcome: Ok(()),
            actions: vec![
                receipt(),
                Action::Generate { to: ALICE.to_string(), prompt: "Why is the sky blue?".to_string() },
            ],
        }
    );
    assert_eq!(seq_no_of(&model, ALICE), 0);
}

#[test]
fn empty_text_is_a_prompt() {
    let mut model = chat_model();
    ensure_channel_state(&mut model, ALICE);
    assert_eq!(
        handle_message(&mut model, &chat_agent(), &chat("")).actions,
        vec![receipt(), Action::Generate { to: ALICE.to_string(), prompt: String::new() }]
    );
}

#[test]
fn command_is_answered_and_not_generated() {
    let mut model = chat_model();
    ensure_channel_state(&mut model, ALICE);
    assert_eq!(
        handle_message(&mut model, &chat_agent(), &chat("/help")),
        Handled {
            outcome: Ok(()),
            actions: vec![
                receipt(),
                Action::Chat { to: ALICE.to_string(), text: HELP_REPLY.to_string(), seq_no: 0 },
            ],
        }
    );
    assert_eq!(seq_no_of(&model, ALICE), 1);
}

#[test]
fn attachments_are_refused_and_never_generated() {
    for text in ["Why is the sky blue?", "/help", ""] {
        let mut model = chat_model();
        ensure_channel_state(&mut model, ALICE);
        let mut message = chat(text);
        message.has_attachments = true;
        let handled = handle_message(&mut model, &chat_agent(), &message);
        assert_eq!(handled.outcome, Ok(()));
        assert_eq!(
            handled.actions,
            vec![
                receipt(),
                Action::Chat {
                    to: ALICE.to_string(),
                    text: "Unfortunately I can't handle attachments yet.. Hopefully one day I will be able to!"
                        .to_string(),
                    seq_no: 0,
                },
            ]
        );
        assert!(handled.actions.iter().all(|a| !matches!(a, Action::Generate { .. })));
        assert_eq!(seq_no_of(&model, ALICE), 1);
    }
    assert_eq!(
        ATTACHMENTS_REPLY,
        "Unfortunately I can't handle attachments yet.. Hopefully one day I will be able to!"
    );
}

#[test]
fn unreadable_chat_message_gets_a_receipt_and_no_answer() {
    let mut model = chat_model();
    ensure_channel_state(&mut model, ALICE);
    let message = inbound(CHAT_MESSAGE, Some(ALICE), empty_body());
    assert_eq!(
        handle_message(&mut model, &chat_agent(), &message),
        Handled { outcome: Err(HandleError::MalformedBody), actions: vec![receipt()] }
    );
    assert_eq!(seq_no_of(&model, ALICE), 0);
}

#[test]
fn unanswerable_reply_is_dropped() {
    let mut model = chat_model();
    let handled = handle_message(&mut model, &chat_agent(), &chat("/help"));
    assert_eq!(handled, Handled { outcome: Ok(()), actions: vec![receipt()] });
    assert!(model.channel_state.keys().is_empty());
}

#[test]
fn presence_is_answered() {
    let mut model = chat_model();
    let message = inbound(CHAT_PRESENCE, Some(ALICE), empty_body());
    assert_eq!(
        handle_message(&mut model, &chat_agent(), &message),
        Handled { outcome: Ok(()), actions: vec![Action::Presence { to: ALICE.to_string() }] }
    );
}

#[test]
fn receipts_activity_and_unknown_types_are_passed_over() {
    for type_ in [CHAT_DELIVERED, CHAT_ACTIVITY, "https://didcomm.org/trust-ping/2.0/ping", ""] {
        let mut model = chat_model();
        ensure_channel_state(&mut model, ALICE);
        let message = inbound(type_, Some(ALICE), empty_body());
        assert_eq!(
            handle_message(&mut model, &chat_agent(), &message),
            Handled { outcome: Ok(()), actions: Vec::new() }
        );
        assert_eq!(seq_no_of(&model, ALICE), 0);
    }
}

#[test]
fn status_report_is_checked_for_its_form() {
    let mut model = chat_model();
    let status = PickupStatus { message_count: 3, live_delivery: true };
    let good = inbound(PICKUP_STATUS, Some(ALICE), MessageBody { status: Some(status), ..empty_body() });
    assert_eq!(
        handle_message(&mut model, &chat_agent(), &good),
        Handled { outcome: Ok(()), actions: Vec::new() }
    );
    let bad = inbound(PICKUP_STATUS, Some(ALICE), empty_body());
    assert_eq!(
        handle_message(&mut model, &chat_agent(), &bad),
        Handled { outcome: Err(HandleError::MalformedBody), actions: Vec::new() }
    );
}

#[test]
fn effect_message_becomes_a_prompt() {
    let mut model = chat_model();
    let message = inbound(
        CHAT_EFFECT,
        Some(ALICE),
        MessageBody { effect: Some("confetti".to_string()), ..empty_body() },
    );
    assert_eq!(
        handle_message(&mut model, &chat_agent(), &message),
        Handled {
            outcome: Ok(()),
            actions: vec![Action::Generate { to: ALICE.to_string(), prompt: "Let's celebrate".to_string() }],
        }
    );
    let unreadable = inbound(CHAT_EFFECT, Some(ALICE), empty_body());
    assert_eq!(
        handle_message(&mut model, &chat_agent(), &unreadable),
        Handled { outcome: Ok(()), actions: Vec::new() }
    );
}

#[test]
fn connection_request_starts_a_fresh_conversation() {
    let mut model = chat_model();
    ensure_channel_state(&mut model, ALICE);
    for _ in 0..5 {
        send_message("earlier", ALICE, &mut model).unwrap();
        i_am_thinking(&mut model, ALICE).unwrap();
    }
    let message = inbound(
        CONNECTION_SETUP,
        Some(ALICE),
        MessageBody { channel_did: Some("did:example:channel".to_string()), ..empty_body() },
    );
    let handled = handle_message(&mut model, &chat_agent(), &message);
    assert_eq!(
        handled,
        Handled {
            outcome: Ok(()),
            actions: vec![
                Action::ConnectionAccepted {
                    to: ALICE.to_string(),
                    thid: "thread".to_string(),
                    pthid: "parent".to_string(),
                    agent: chat_agent(),
                },
                Action::Chat {
                    to: "did:example:channel".to_string(),
                    text: "Welcome!".to_string(),
                    seq_no: 0,
                },
            ],
        }
    );
    assert!(model.get_channel_state(&sha256::digest(ALICE)).is_none());
    let fresh = model.get_channel_state(&sha256::digest("did:example:channel")).unwrap();
    assert_eq!(fresh.remote_did, "did:example:channel");
    assert_eq!(fresh.seq_no, 1);
    assert_eq!(fresh.activity_seq_no, 0);
}

#[test]
fn unreadable_connection_request_changes_nothing() {
    let with_channel = MessageBody { channel_did: Some("did:example:channel".to_string()), ..empty_body() };
    let mut no_thread = inbound(CONNECTION_SETUP, Some(ALICE), with_channel);
    no_thread.thid = None;
    let with_channel = MessageBody { channel_did: Some("did:example:channel".to_string()), ..empty_body() };
    let mut no_parent = inbound(CONNECTION_SETUP, Some(ALICE), with_channel);
    no_parent.pthid = None;
    let no_channel = inbound(CONNECTION_SETUP, Some(ALICE), empty_body());
    for message in [no_thread, no_parent, no_channel] {
        let mut model = chat_model();
        ensure_channel_state(&mut model, ALICE);
        send_message("earlier", ALICE, &mut model).unwrap();
        assert_eq!(
            handle_message(&mut model, &chat_agent(), &message),
            Handled { outcome: Err(HandleError::MalformedBody), actions: Vec::new() }
        );
        assert_eq!(seq_no_of(&model, ALICE), 1);
        assert_eq!(model.channel_state.keys().len(), 1);
    }
}
