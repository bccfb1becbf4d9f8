use didcomm_ai_bridge::agents::state_management::{Config, OllamaModel};
use didcomm_ai_bridge::didcomm_messages::clear_messages::{
    clear_inbound_messages, clear_outbound_messages, InboundSweep, OutboundSweep,
};
use didcomm_ai_bridge::setup_wizard::{
    add_ollama_models, did_method_choice, model_defaults, parse_ollama_address, ModelSelection,
    ADDRESS_SCHEME, DEFAULT_ADDRESS, KEY_METHOD_LABEL, PEER_METHOD_LABEL,
};
use didcomm_ai_bridge::DIDMethods;

fn names(list: &[&str]) -> Vec<String> {
    list.iter().map(|n| n.to_string()).collect()
}

fn parsed(host: &str, port: u16) -> Option<(String, u16)> {
    Some((host.to_string(), port))
}

#[test]
fn default_address_is_an_address() {
    assert_eq!(ADDRESS_SCHEME, "http://");
    assert_eq!(parse_ollama_address(DEFAULT_ADDRESS), parsed("http://localhost", 11434));
    assert_eq!(parse_ollama_address("http://localhost:11434"), parsed("http://localhost", 11434));
}

#[test]
fn address_ports() {
    assert_eq!(parse_ollama_address("http://h:0"), parsed("http://h", 0));
    assert_eq!(parse_ollama_address("http://h:65535"), parsed("http://h", 65535));
    assert_eq!(parse_ollama_address("http://h:65536"), None);
    assert_eq!(parse_ollama_address("http://h:99999999999999999999"), None);
    assert_eq!(parse_ollama_address("http://h:00080"), parsed("http://h", 80));
    assert_eq!(parse_ollama_address("http://h:000000000000000000000000065535"), parsed("http://h", 65535));
    assert_eq!(parse_ollama_address("http://h:"), None);
    assert_eq!(parse_ollama_address("http://h:+80"), None);
    assert_eq!(parse_ollama_address("http://h:-1"), None);
    assert_eq!(parse_ollama_address("http://h:8 0"), None);
    assert_eq!(parse_ollama_address("http://h:80\n"), None);
    assert_eq!(parse_ollama_address("http://h:\u{661}\u{662}"), None);
}

#[test]
fn address_hosts() {
    assert_eq!(parse_ollama_address("http://:80"), parsed("http://", 80));
    assert_eq!(parse_ollama_address("http://10.0.0.7:11434"), parsed("http://10.0.0.7", 11434));
    assert_eq!(parse_ollama_address("http://a/b c\n:1"), parsed("http://a/b c\n", 1));
    assert_eq!(parse_ollama_address("http://münchen.example:1"), parsed("http://münchen.example", 1));
    assert_eq!(parse_ollama_address("http://h:1:2"), None);
    assert_eq!(parse_ollama_address("http://[::1]:80"), None);
    assert_eq!(parse_ollama_address("http://h"), None);
    assert_eq!(parse_ollama_address("http://"), None);
}

#[test]
fn address_scheme() {
    assert_eq!(parse_ollama_address(""), None);
    assert_eq!(parse_ollama_address("http:/"), None);
    assert_eq!(parse_ollama_address("https://h:80"), None);
    assert_eq!(parse_ollama_address("HTTP://h:80"), None);
    assert_eq!(parse_ollama_address(" http://h:80"), None);
    assert_eq!(parse_ollama_address("localhost:11434"), None);
    assert_eq!(parse_ollama_address("ftp://h:80"), None);
}

#[test]
fn address_agrees_with_the_pattern() {
    let pattern = regex::Regex::new(r"^(http:\/\/[^:]*):(\d+)$").unwrap();
    let samples = [
        "http://localhost:11434",
        "http://:80",
        "http://h:65536",
        "http://h:00080",
        "http://h:1:2",
        "http://a/b c\n:1",
        "http://h:80\n",
        "http://h:\u{661}\u{662}",
        "https://h:80",
        "http://h:",
        "http://h",
        "",
        "http://[::1]:80",
        " http://h:80",
    ];
    for sample in samples {
        let expected = match pattern.captures(sample) {
            Some(caps) if caps.len() == 3 => match caps.get(2).unwrap().as_str().parse::<u16>() {
                Ok(port) => Some((caps.get(1).unwrap().as_str().to_string(), port)),
                Err(_) => None,
            },
            _ => None,
        };
        assert_eq!(parse_ollama_address(sample), expected);
    }
}

#[test]
fn first_offer_is_did_key_and_any_other_did_peer() {
    assert_eq!(did_method_choice(0), DIDMethods::Key);
    assert_eq!(did_method_choice(1), DIDMethods::Peer);
    assert_eq!(did_method_choice(2), DIDMethods::Peer);
    assert_eq!(did_method_choice(usize::MAX), DIDMethods::Peer);
    assert_eq!(KEY_METHOD_LABEL, "did:key");
    assert_eq!(PEER_METHOD_LABEL, "did:peer");
}

#[test]
fn defaults_mark_configured_models() {
    let mut config = Config::default();
    config.add_model("llama", OllamaModel::new("http://h".to_string(), 1, "llama", "did:key:z1".to_string()));
    config.add_model("phi", OllamaModel::new("http://h".to_string(), 1, "phi", "did:key:z2".to_string()));
    let available = names(&["deepseek-r1", "llama", "mistral", "phi"]);
    assert_eq!(model_defaults(&available, &config.models), vec![false, true, false, true]);
    assert_eq!(model_defaults(&Vec::new(), &config.models), Vec::<bool>::new());
}

#[test]
fn selection_adds_the_chosen_and_removes_the_dropped() {
    let available = names(&["deepseek-r1", "llama", "mistral", "phi"]);
    let defaults = vec![false, true, false, true];
    assert_eq!(
        add_ollama_models(&available, &defaults, &vec![2, 0, 3]),
        ModelSelection { add: names(&["mistral", "deepseek-r1", "phi"]), remove: names(&["llama"]) }
    );
    assert_eq!(
        add_ollama_models(&available, &defaults, &Vec::new()),
        ModelSelection { add: Vec::new(), remove: names(&["llama", "phi"]) }
    );
    assert_eq!(
        add_ollama_models(&available, &defaults, &vec![0, 1, 2, 3]),
        ModelSelection { add: names(&["deepseek-r1", "llama", "mistral", "phi"]), remove: Vec::new() }
    );
    assert_eq!(
        add_ollama_models(&Vec::new(), &Vec::new(), &Vec::new()),
        ModelSelection { add: Vec::new(), remove: Vec::new() }
    );
}

#[test]
fn inbound_sweep_counts_until_a_round_is_empty() {
    assert_eq!(clear_inbound_messages(0, 0), InboundSweep::Finished { deleted: 0 });
    assert_eq!(clear_inbound_messages(0, 10), InboundSweep::Again { deleted: 10 });
    assert_eq!(clear_inbound_messages(10, 3), InboundSweep::Again { deleted: 13 });
    assert_eq!(clear_inbound_messages(13, 0), InboundSweep::Finished { deleted: 13 });
}

#[test]
fn outbound_sweep_deletes_what_is_listed() {
    assert_eq!(clear_outbound_messages(0, Vec::new()), OutboundSweep::Finished { deleted: 0 });
    assert_eq!(
        clear_outbound_messages(0, names(&["a", "b"])),
        OutboundSweep::Delete { message_ids: names(&["a", "b"]), deleted: 2 }
    );
    assert_eq!(
        clear_outbound_messages(2, names(&["c"])),
        OutboundSweep::Delete { message_ids: names(&["c"]), deleted: 3 }
    );
    assert_eq!(clear_outbound_messages(3, Vec::new()), OutboundSweep::Finished { deleted: 3 });
}
