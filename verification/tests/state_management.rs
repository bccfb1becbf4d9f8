use didcomm_ai_bridge::agents::state_management::{
    ensure_channel_state, find_agent, next_activity_seq, next_message_seq, replace_channel_state,
    ChannelState, ChatChannelState, ConciergeState, Config, DIDCommAgent, OllamaModel,
    SequenceError,
};

fn sample_model() -> OllamaModel {
    OllamaModel::new("http://localhost".to_string(), 11434, "deepseek-r1", "did:key:zModel".to_string())
}

#[test]
fn fresh_channel_is_filed_under_sha256_of_the_did() {
    let state = ChatChannelState::for_remote("hello");
    assert_eq!(state.remote_did, "hello");
    assert_eq!(
        state.remote_did_hash,
        "2cf24dba5fb0a30e26e83b2ac5b9e29e1b161e5c1fa7425e73043362938b9824"
    );
    assert_eq!(state.seq_no, 0);
    assert_eq!(state.activity_seq_no, 0);
}

#[test]
fn digest_agrees_with_the_sha256_crate() {
    let did = "did:peer:2.Vz6Mkabc.Ez6LSdef";
    let state = ChatChannelState::for_remote(did);
    assert_eq!(state.remote_did_hash, sha256::digest(did));
    assert_eq!(state.remote_did_hash.len(), 64);
    assert_ne!(state.remote_did_hash, did);
}

#[test]
fn default_channel_state_is_blank() {
    let state = ChatChannelState::default();
    assert_eq!(state.remote_did, "");
    assert_eq!(state.remote_did_hash, "");
    assert_eq!(state.seq_no, 0);
    assert_eq!(state.activity_seq_no, 0);
}

#[test]
fn new_model_has_one_identity_and_no_conversations() {
    let model = sample_model();
    assert_eq!(model.name, "deepseek-r1");
    assert_eq!(model.ollama_host, "http://localhost");
    assert_eq!(model.ollama_port, 11434);
    assert_eq!(model.dids.len(), 1);
    assert_eq!(model.dids[0].did, "did:key:zModel");
    assert_eq!(model.dids[0].name, "deepseek-r1");
    assert_eq!(model.dids[0].greeting, "Standard Greeting");
    assert_eq!(model.dids[0].image, "deepseek.png");
    assert!(model.channel_state.keys().is_empty());
    assert!(model.get_model().is_some());
}

#[test]
fn concierge_state_is_no_model() {
    let state = ConciergeState::default();
    assert!(state.get_model().is_none());
    assert_eq!(state.agent, DIDCommAgent::default());
}

#[test]
fn insert_returns_previous_and_remove_returns_removed() {
    let mut model = sample_model();
    assert!(model.get_channel_state("k").is_none());
    assert_eq!(model.insert_channel_state("k", ChatChannelState::for_remote("a")), None);
    let previous = model.insert_channel_state("k", ChatChannelState::for_remote("b"));
    assert_eq!(previous, Some(ChatChannelState::for_remote("a")));
    assert_eq!(model.get_channel_state("k"), Some(&ChatChannelState::for_remote("b")));
    assert_eq!(model.remove_channel_state("k"), Some(ChatChannelState::for_remote("b")));
    assert_eq!(model.remove_channel_state("k"), None);
    assert!(model.get_channel_state("k").is_none());
}

#[test]
fn channel_state_can_be_changed_in_place() {
    let mut model = sample_model();
    assert!(model.get_channel_state_mut("k").is_none());
    model.insert_channel_state("k", ChatChannelState::for_remote("a"));
    model.insert_channel_state("j", ChatChannelState::for_remote("b"));
    {
        let state = model.get_channel_state_mut("k").unwrap();
        state.seq_no = 41;
        state.activity_seq_no += 1;
    }
    let changed = model.get_channel_state("k").unwrap();
    assert_eq!(changed.seq_no, 41);
    assert_eq!(changed.activity_seq_no, 1);
    assert_eq!(changed.remote_did, "a");
    assert_eq!(model.get_channel_state("j"), Some(&ChatChannelState::for_remote("b")));
    assert_eq!(next_message_seq(&mut model, "k"), Ok(41));
    assert_eq!(model.channel_state.keys(), vec!["k".to_string(), "j".to_string()]);

    let mut concierge = ConciergeState::default();
    concierge.insert_channel_state("k", ChatChannelState::for_remote("a"));
    concierge.get_channel_state_mut("k").unwrap().seq_no = 3;
    assert_eq!(concierge.get_channel_state("k").unwrap().seq_no, 3);
}

#[test]
fn at_most_one_record_per_key() {
    let mut state = ConciergeState::default();
    state.insert_channel_state("k", ChatChannelState::for_remote("a"));
    state.insert_channel_state("k", ChatChannelState::for_remote("b"));
    state.insert_channel_state("j", ChatChannelState::for_remote("c"));
    assert_eq!(state.channel_state.keys(), vec!["k".to_string(), "j".to_string()]);
}

#[test]
fn message_numbers_count_up_from_zero() {
    let mut model = sample_model();
    let key = ensure_channel_state(&mut model, "did:example:alice");
    for expected in 0..25u64 {
        assert_eq!(next_message_seq(&mut model, &key), Ok(expected));
    }
    let state = model.get_channel_state(&key).unwrap();
    assert_eq!(state.seq_no, 25);
    assert_eq!(state.activity_seq_no, 0);
}

#[test]
fn activity_numbers_count_up_on_their_own() {
    let mut model = sample_model();
    let key = ensure_channel_state(&mut model, "did:example:alice");
    assert_eq!(next_activity_seq(&mut model, &key), Ok(0));
    assert_eq!(next_message_seq(&mut model, &key), Ok(0));
    assert_eq!(next_activity_seq(&mut model, &key), Ok(1));
    assert_eq!(next_activity_seq(&mut model, &key), Ok(2));
    assert_eq!(next_message_seq(&mut model, &key), Ok(1));
    let state = model.get_channel_state(&key).unwrap();
    assert_eq!(state.seq_no, 2);
    assert_eq!(state.activity_seq_no, 3);
}

#[test]
fn numbers_of_different_parties_do_not_mix() {
    let mut model = sample_model();
    let alice = ensure_channel_state(&mut model, "did:example:alice");
    let bob = ensure_channel_state(&mut model, "did:example:bob");
    assert_ne!(alice, bob);
    assert_eq!(next_message_seq(&mut model, &alice), Ok(0));
    assert_eq!(next_message_seq(&mut model, &alice), Ok(1));
    assert_eq!(next_message_seq(&mut model, &bob), Ok(0));
    assert_eq!(next_message_seq(&mut model, &alice), Ok(2));
    assert_eq!(next_message_seq(&mut model, &bob), Ok(1));
}

#[test]
fn no_number_without_a_record() {
    let mut model = sample_model();
    assert_eq!(next_message_seq(&mut model, "nobody"), Err(SequenceError::UnknownParty));
    assert_eq!(next_activity_seq(&mut model, "nobody"), Err(SequenceError::UnknownParty));
    assert!(model.channel_state.keys().is_empty());
}

#[test]
fn exhausted_counter_yields_an_error_and_stays() {
    let mut model = sample_model();
    let mut state = ChatChannelState::for_remote("did:example:alice");
    state.seq_no = u64::MAX - 1;
    state.activity_seq_no = u64::MAX;
    let key = state.remote_did_hash.clone();
    model.insert_channel_state(&key, state);
    assert_eq!(next_message_seq(&mut model, &key), Ok(u64::MAX - 1));
    assert_eq!(next_message_seq(&mut model, &key), Err(SequenceError::Exhausted));
    assert_eq!(next_message_seq(&mut model, &key), Err(SequenceError::Exhausted));
    assert_eq!(next_activity_seq(&mut model, &key), Err(SequenceError::Exhausted));
    let state = model.get_channel_state(&key).unwrap();
    assert_eq!(state.seq_no, u64::MAX);
    assert_eq!(state.activity_seq_no, u64::MAX);
}

#[test]
fn first_contact_is_idempotent() {
    let mut model = sample_model();
    let key = ensure_channel_state(&mut model, "did:example:alice");
    assert_eq!(key, sha256::digest("did:example:alice"));
    assert_eq!(next_message_seq(&mut model, &key), Ok(0));
    let again = ensure_channel_state(&mut model, "did:example:alice");
    assert_eq!(again, key);
    assert_eq!(model.channel_state.keys().len(), 1);
    let state = model.get_channel_state(&key).unwrap();
    assert_eq!(state.seq_no, 1);
    assert_eq!(state.remote_did, "did:example:alice");
    assert_eq!(state.remote_did_hash, key);
}

#[test]
fn handshake_replaces_the_record_and_resets_the_counters() {
    let mut state = ConciergeState::default();
    let old_key = ensure_channel_state(&mut state, "did:example:alice");
    for _ in 0..7 {
        next_message_seq(&mut state, &old_key).unwrap();
        next_activity_seq(&mut state, &old_key).unwrap();
    }
    replace_channel_state(&mut state, "did:example:alice", "did:example:channel");
    let new_key = sha256::digest("did:example:channel");
    assert!(state.get_channel_state(&old_key).is_none());
    let fresh = state.get_channel_state(&new_key).unwrap();
    assert_eq!(fresh, &ChatChannelState::for_remote("did:example:channel"));
    assert_eq!(fresh.seq_no, 0);
    assert_eq!(fresh.activity_seq_no, 0);
    assert_eq!(state.channel_state.keys(), vec![new_key]);
}

#[test]
fn handshake_onto_the_same_identity_leaves_a_fresh_record() {
    let mut state = ConciergeState::default();
    let key = ensure_channel_state(&mut state, "did:example:alice");
    next_message_seq(&mut state, &key).unwrap();
    replace_channel_state(&mut state, "did:example:alice", "did:example:alice");
    let record = state.get_channel_state(&key).unwrap();
    assert_eq!(record.seq_no, 0);
}

#[test]
fn handshake_of_an_unknown_party_files_the_new_record() {
    let mut model = sample_model();
    replace_channel_state(&mut model, "did:example:stranger", "did:example:channel");
    assert_eq!(model.channel_state.keys(), vec![sha256::digest("did:example:channel")]);
}

#[test]
fn find_agent_takes_the_first_of_that_name() {
    let mut model = sample_model();
    let mut second = DIDCommAgent::default();
    second.did = "did:key:zSecond".to_string();
    second.name = "second".to_string();
    let mut third = DIDCommAgent::default();
    third.did = "did:key:zSecond".to_string();
    third.name = "third".to_string();
    model.dids.push(second);
    model.dids.push(third);
    assert_eq!(find_agent(&model.dids, "did:key:zModel").unwrap().name, "deepseek-r1");
    assert_eq!(find_agent(&model.dids, "did:key:zSecond").unwrap().name, "second");
    assert!(find_agent(&model.dids, "did:key:zNobody").is_none());
    assert!(find_agent(&Vec::new(), "did:key:zModel").is_none());
}

#[test]
fn config_add_and_remove_model() {
    let mut config = Config::default();
    assert_eq!(config.mediator_did, "");
    assert!(config.models.keys().is_empty());
    config.add_model("deepseek-r1", sample_model());
    let mut other = OllamaModel::new("http://other".to_string(), 1, "llama", "did:key:zA".to_string());
    let mut extra = DIDCommAgent::default();
    extra.did = "did:key:zB".to_string();
    other.dids.push(extra);
    config.add_model("llama", other);
    assert_eq!(config.models.keys(), vec!["deepseek-r1".to_string(), "llama".to_string()]);
    assert_eq!(config.models.get("llama").unwrap().ollama_host, "http://other");

    let purge = config.remove_model("llama");
    assert_eq!(purge, vec!["did:key:zA".to_string(), "did:key:zB".to_string()]);
    assert!(config.models.get("llama").is_none());
    assert!(config.models.get("deepseek-r1").is_some());

    let nothing = config.remove_model("llama");
    assert!(nothing.is_empty());
    assert_eq!(config.models.keys(), vec!["deepseek-r1".to_string()]);
}

#[test]
fn config_add_model_replaces_a_model_of_that_name() {
    let mut config = Config::default();
    config.add_model("m", sample_model());
    config.add_model("m", OllamaModel::new("http://new".to_string(), 2, "m", "did:key:zNew".to_string()));
    assert_eq!(config.models.keys(), vec!["m".to_string()]);
    assert_eq!(config.models.get("m").unwrap().ollama_port, 2);
    assert_eq!(config.remove_model("m"), vec!["did:key:zNew".to_string()]);
}

#[test]
fn clone_of_channel_state_is_equal() {
    let mut state = ChatChannelState::for_remote("did:example:alice");
    state.seq_no = 4;
    let copy = state.clone();
    assert_eq!(copy, state);
    let agent = DIDCommAgent {
        did: "d".to_string(),
        name: "n".to_string(),
        greeting: "g".to_string(),
        image: "i".to_string(),
        x_meetingplace_contact_attributes: 8,
        x_meetingplace_verification_id: Some("v".to_string()),
    };
    assert_eq!(agent.clone(), agent);
}
