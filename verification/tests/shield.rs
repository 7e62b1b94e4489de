use hyper_core::digest::sha256_hex;
use hyper_core::ecosystem_isolation_shield::{
    EcosystemIsolationShield, IsolationError, MATCH_INCREMENT, QUARANTINE_THRESHOLD,
};
use hyper_core::hyper_ai_core::{AutonomousHyperAI, FilterRejection};

#[test]
fn two_volatile_keywords_are_quarantined_with_one_record() {
    let ai = AutonomousHyperAI::new();
    let mut shield = EcosystemIsolationShield::new();
    assert_eq!(shield.get_events().len(), 0);
    let answer = shield.process_stream(&ai, "mentions bitcoin and ethereum".to_string());
    assert_eq!(answer, Err(IsolationError::Quarantined { score: 50 }));
    let events = shield.get_events();
    assert_eq!(events.len(), 1);
    assert!(events[0].quarantined);
    assert_eq!(events[0].volatility_score, 50);
    assert_eq!(events[0].data_type, "volatile_external");
}

#[test]
fn the_record_is_named_and_stamped_by_the_time() {
    let ai = AutonomousHyperAI::new();
    let mut shield = EcosystemIsolationShield::new();
    let answer = shield.process_stream_at(&ai, "Volatile crypto mention".to_string(), 1700000000);
    assert_eq!(answer, Err(IsolationError::Quarantined { score: 50 }));
    let events = shield.get_events();
    assert_eq!(events.len(), 1);
    assert_eq!(events[0].id, "event_1700000000");
    assert_eq!(events[0].timestamp, 1700000000);
}

#[test]
fn a_time_before_the_epoch_wraps_in_the_timestamp() {
    let ai = AutonomousHyperAI::new();
    let mut shield = EcosystemIsolationShield::new();
    let _ = shield.process_stream_at(&ai, "token".to_string(), -1);
    let events = shield.get_events();
    assert_eq!(events[0].id, "event_-1");
    assert_eq!(events[0].timestamp, u64::MAX);
}

#[test]
fn the_clock_of_the_machine_stamps_the_record() {
    let ai = AutonomousHyperAI::new();
    let mut shield = EcosystemIsolationShield::new();
    let _ = shield.process_stream(&ai, "External finance update".to_string());
    let events = shield.get_events();
    assert_eq!(events.len(), 1);
    // later than 2020-01-01
    assert!(events[0].timestamp > 1_577_836_800);
    assert_eq!(events[0].id, format!("event_{}", events[0].timestamp));
}

#[test]
fn keywords_match_in_any_letter_case() {
    let ai = AutonomousHyperAI::new();
    let mut shield = EcosystemIsolationShield::new();
    for data in ["BITCOIN", "Ethereum", "cRyPtO", "my Token", "on the blockchain", "Finance"] {
        assert_eq!(
            shield.process_stream_at(&ai, data.to_string(), 1),
            Err(IsolationError::Quarantined { score: 50 })
        );
    }
    assert_eq!(shield.get_events().len(), 6);
}

#[test]
fn stable_data_is_sealed_with_its_hash() {
    let ai = AutonomousHyperAI::new();
    let mut shield = EcosystemIsolationShield::new();
    let sealed = shield
        .process_stream(&ai, "Stable Pi transaction data".to_string())
        .unwrap();
    assert_eq!(
        sealed,
        format!(
            "Sealed PI Data: Stable Pi transaction data | Hash: {}",
            sha256_hex("Stable Pi transaction data")
        )
    );
    assert_eq!(shield.get_events().len(), 0);
}

#[test]
fn the_seal_of_a_known_payload() {
    let shield = EcosystemIsolationShield::new();
    assert_eq!(
        shield.seal_data("abc"),
        "Sealed PI Data: abc | Hash: ba7816bf8f01cfea414140de5dae2223b00361a396177a9cb410ff61f20015ad"
    );
}

#[test]
fn sealed_data_opens_to_the_payload() {
    let shield = EcosystemIsolationShield::new();
    for payload in ["", "abc", "PI reward", "a | Hash: b", "x|y|z", "Sealed PI Data: nested", "ünïcödé"] {
        let sealed = shield.seal_data(payload);
        assert_eq!(EcosystemIsolationShield::unseal(&sealed), Some(payload.to_string()));
    }
}

#[test]
fn a_seal_that_was_tampered_with_does_not_open() {
    let shield = EcosystemIsolationShield::new();
    let sealed = shield.seal_data("PI reward");
    let forged = sealed.replace("PI reward", "PI rewarD");
    assert_eq!(EcosystemIsolationShield::unseal(&forged), None);
    let mut cut = sealed.clone();
    cut.pop();
    assert_eq!(EcosystemIsolationShield::unseal(&cut), None);
    assert_eq!(EcosystemIsolationShield::unseal(""), None);
    assert_eq!(EcosystemIsolationShield::unseal("no seal at all"), None);
    assert_eq!(EcosystemIsolationShield::unseal("| Hash: "), None);
    let wrong_head = sealed.replace("Sealed PI Data: ", "Sealed Pi Data: ");
    assert_eq!(EcosystemIsolationShield::unseal(&wrong_head), None);
}

#[test]
fn the_filter_is_asked_before_the_patterns() {
    let ai = AutonomousHyperAI::new();
    let mut shield = EcosystemIsolationShield::new();
    // more than half of the payload is the marker, and it names a keyword
    let answer = shield.process_stream(&ai, "volatile token".to_string());
    assert_eq!(
        answer,
        Err(IsolationError::Rejected(FilterRejection { volatility: 57 }))
    );
    assert_eq!(shield.get_events().len(), 0);
}

#[test]
fn a_batch_of_five_with_two_volatile_items() {
    let ai = AutonomousHyperAI::new();
    let mut shield = EcosystemIsolationShield::new();
    let batch = vec![
        "PI reward".to_string(),
        "Bitcoin news".to_string(),
        "mining payout".to_string(),
        "crypto exchange".to_string(),
        "peer to peer transfer".to_string(),
    ];
    let results = shield.bulk_isolate(&ai, batch.clone());
    assert_eq!(results.len(), 5);
    assert_eq!(results.iter().filter(|r| r.is_err()).count(), 2);
    assert_eq!(results.iter().filter(|r| r.is_ok()).count(), 3);
    assert_eq!(results[0], Ok(shield.seal_data("PI reward")));
    assert_eq!(results[1], Err(IsolationError::Quarantined { score: 50 }));
    assert_eq!(results[2], Ok(shield.seal_data("mining payout")));
    assert_eq!(results[3], Err(IsolationError::Quarantined { score: 50 }));
    assert_eq!(results[4], Ok(shield.seal_data("peer to peer transfer")));
    assert_eq!(shield.get_events().len(), 2);
}

#[test]
fn an_empty_batch_gives_no_answers() {
    let ai = AutonomousHyperAI::new();
    let mut shield = EcosystemIsolationShield::new();
    assert_eq!(shield.bulk_isolate(&ai, Vec::new()).len(), 0);
    assert_eq!(shield.get_events().len(), 0);
}

#[test]
fn the_stream_is_taken_up_in_the_order_of_arrival() {
    let ai = AutonomousHyperAI::new();
    let mut shield = EcosystemIsolationShield::new();
    shield.send("Stable Pi transaction data".to_string());
    shield.send("Volatile crypto mention".to_string());
    shield.send("External finance update".to_string());
    assert_eq!(shield.get_events().len(), 0);
    let results = shield.run_stream_processor(&ai);
    assert_eq!(results.len(), 3);
    assert_eq!(results[0], Ok(shield.seal_data("Stable Pi transaction data")));
    assert_eq!(results[1], Err(IsolationError::Quarantined { score: 50 }));
    assert_eq!(results[2], Err(IsolationError::Quarantined { score: 50 }));
    assert_eq!(shield.get_events().len(), 2);
    // the stream is empty now
    assert_eq!(shield.run_stream_processor(&ai).len(), 0);
    assert_eq!(shield.get_events().len(), 2);
}

#[test]
fn the_errors_of_the_shield_in_words() {
    assert_eq!(
        IsolationError::Quarantined { score: 50 }.message(),
        "Data isolated: volatility score 0.50"
    );
    assert_eq!(
        IsolationError::Rejected(FilterRejection { volatility: 57 }).message(),
        "Volatile input rejected: volatility score 0.57"
    );
    assert_eq!(IsolationError::InvalidPattern.message(), "Invalid volatility pattern.");
    assert_eq!(MATCH_INCREMENT, 50);
    assert_eq!(QUARANTINE_THRESHOLD, 30);
}

#[test]
fn a_shield_with_patterns_of_its_own() {
    let ai = AutonomousHyperAI::new();
    let mut shield =
        EcosystemIsolationShield::with_patterns(vec!["^a+$".to_string(), "b".to_string()]).unwrap();
    assert_eq!(shield.process_stream_at(&ai, "ccc".to_string(), 1), Ok(shield.seal_data("ccc")));
    assert_eq!(
        shield.process_stream_at(&ai, "aaa".to_string(), 1),
        Err(IsolationError::Quarantined { score: 50 })
    );
    assert_eq!(
        shield.process_stream_at(&ai, "b".to_string(), 1),
        Err(IsolationError::Quarantined { score: 50 })
    );
    // without a pattern nothing is quarantined
    let mut open = EcosystemIsolationShield::with_patterns(Vec::new()).unwrap();
    assert_eq!(open.process_stream_at(&ai, "bitcoin".to_string(), 1), Ok(open.seal_data("bitcoin")));
    // two patterns are the most
    let three = vec!["a".to_string(), "b".to_string(), "c".to_string()];
    assert!(EcosystemIsolationShield::with_patterns(three).is_none());
}

#[test]
fn both_patterns_matching_give_the_full_score() {
    let ai = AutonomousHyperAI::new();
    let mut shield =
        EcosystemIsolationShield::with_patterns(vec!["a".to_string(), "b".to_string()]).unwrap();
    assert_eq!(
        shield.process_stream_at(&ai, "ab".to_string(), 9),
        Err(IsolationError::Quarantined { score: 100 })
    );
    assert_eq!(shield.get_events()[0].volatility_score, 100);
    assert_eq!(
        IsolationError::Quarantined { score: 100 }.message(),
        "Data isolated: volatility score 1.00"
    );
}

#[test]
fn a_pattern_that_is_no_regular_expression_is_reported() {
    let ai = AutonomousHyperAI::new();
    let mut shield =
        EcosystemIsolationShield::with_patterns(vec!["bitcoin".to_string(), "foo(bar".to_string()])
            .unwrap();
    assert_eq!(
        shield.process_stream_at(&ai, "bitcoin".to_string(), 1),
        Err(IsolationError::InvalidPattern)
    );
    assert_eq!(
        shield.process_stream_at(&ai, "plain".to_string(), 1),
        Err(IsolationError::InvalidPattern)
    );
    assert_eq!(shield.get_events().len(), 0);
}
