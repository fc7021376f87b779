use feedback::events::EventKind;
use feedback::indexer::{
    adjusted_votes, classify_topic, decode_vote_hash, feedback_http, feedbacks, find_feedback,
    index_steps, is_indexed_contract, simulation_call, to_array, update_feedback, CallArgs,
    Feedback, IndexStep, SimulateSend, SimulateVote, SimulationRequest, CONTRACT_ADDRESS,
};

fn row(source: &str, hash: &[u8], text: &[u8], votes: i32) -> Feedback {
    Feedback { source: source.to_string(), hash: hash.to_vec(), text: text.to_vec(), votes }
}

#[test]
fn recognizes_the_contract() {
    assert!(is_indexed_contract(&CONTRACT_ADDRESS));
    let mut other = CONTRACT_ADDRESS;
    other[31] ^= 1;
    assert!(!is_indexed_contract(&other));
}

#[test]
fn classifies_topics() {
    assert_eq!(classify_topic(&"feedback".to_string()), Some(EventKind::Feedback));
    assert_eq!(classify_topic(&"upvote".to_string()), Some(EventKind::Upvote));
    assert_eq!(classify_topic(&"downvote".to_string()), Some(EventKind::Downvote));
    assert_eq!(classify_topic(&"Feedback".to_string()), None);
    assert_eq!(classify_topic(&"".to_string()), None);
}

#[test]
fn steps_per_event() {
    assert_eq!(index_steps(&CONTRACT_ADDRESS, &"feedback".to_string()), vec![IndexStep::RecordFeedback { votes: 1 }]);
    assert_eq!(
        index_steps(&CONTRACT_ADDRESS, &"upvote".to_string()),
        vec![IndexStep::RecordVote { upvote: true }, IndexStep::AdjustVotes { upvote: true }]
    );
    assert_eq!(
        index_steps(&CONTRACT_ADDRESS, &"downvote".to_string()),
        vec![IndexStep::AdjustVotes { upvote: false }, IndexStep::RecordVote { upvote: true }]
    );
    assert_eq!(index_steps(&CONTRACT_ADDRESS, &"transfer".to_string()), vec![]);
    assert_eq!(index_steps(&[0u8; 32], &"feedback".to_string()), vec![]);
}

#[test]
fn finds_the_first_row_with_a_hash() {
    let rows = vec![row("A", &[1, 2], b"x", 1), row("B", &[3], b"y", 5), row("C", &[3], b"z", 9)];
    assert_eq!(find_feedback(&rows, &vec![3]), Some(1));
    assert_eq!(find_feedback(&rows, &vec![1, 2]), Some(0));
    assert_eq!(find_feedback(&rows, &vec![1]), None);
    assert_eq!(find_feedback(&vec![], &vec![1]), None);
}

#[test]
fn adjusts_counts() {
    assert_eq!(adjusted_votes(3, true), 4);
    assert_eq!(adjusted_votes(3, false), 2);
    assert_eq!(adjusted_votes(0, false), -1);
    assert_eq!(adjusted_votes(adjusted_votes(7, true), false), 7);
}

#[test]
fn updates_the_first_matching_row() {
    let rows = vec![row("A", &[1], b"x", 1), row("B", &[2], b"y", 5), row("C", &[2], b"z", 9)];
    let up = update_feedback(&rows, &vec![2], true).unwrap();
    assert_eq!(up.source, "B");
    assert_eq!(up.hash, vec![2]);
    assert_eq!(up.text, b"y".to_vec());
    assert_eq!(up.votes, 6);
    let down = update_feedback(&rows, &vec![1], false).unwrap();
    assert_eq!(down.votes, 0);
    assert!(update_feedback(&rows, &vec![7], true).is_none());
}

#[test]
fn serves_rows() {
    let http = feedback_http(&row("GABC", &[0x00, 0xab, 0x7f, 0xff], "héllo".as_bytes(), -3));
    assert_eq!(http.from, "GABC");
    assert_eq!(http.hash, "00ab7fff");
    assert_eq!(http.text, "héllo");
    assert_eq!(http.votes, -3);
    let bad = feedback_http(&row("G", &[], &[0xff, 0xfe], 0));
    assert_eq!(bad.hash, "");
    assert_eq!(bad.text, "Invalid text");
    let all = feedbacks(&vec![row("A", &[1], b"a", 1), row("B", &[2], b"b", 2)]);
    assert_eq!(all.len(), 2);
    assert_eq!(all[0].hash, "01");
    assert_eq!(all[1].text, "b");
    assert_eq!(all[1].votes, 2);
    assert!(feedbacks(&vec![]).is_empty());
}

#[test]
fn arrays_of_thirty_two() {
    let bytes: Vec<u8> = (0..32).collect();
    let array = to_array(bytes.clone()).unwrap();
    assert_eq!(array.to_vec(), bytes);
    assert_eq!(to_array(vec![1; 31]), None);
    assert_eq!(to_array(vec![1; 33]), None);
}

#[test]
fn decodes_vote_hashes() {
    let text = "aab242a24424ccc7f1a12bf0b52107c1f8671bcfe0ac644d5ff84d6468fb86c5";
    assert_eq!(decode_vote_hash(&text.to_string()), Some(CONTRACT_ADDRESS));
    assert_eq!(decode_vote_hash(&text.to_uppercase()), Some(CONTRACT_ADDRESS));
    assert_eq!(decode_vote_hash(&text[1..].to_string()), None);
    assert_eq!(decode_vote_hash(&text[2..].to_string()), None);
    assert_eq!(decode_vote_hash(&text.replace('a', "g")), None);
    assert_eq!(decode_vote_hash(&"".to_string()), None);
}

#[test]
fn served_hash_reads_back() {
    let hash: Vec<u8> = (200..232).collect();
    let served = feedback_http(&row("G", &hash, b"t", 0)).hash;
    assert_eq!(decode_vote_hash(&served).unwrap().to_vec(), hash);
}

#[test]
fn simulation_calls() {
    let send = SimulationRequest::Send(SimulateSend { from: "GA".to_string(), sequence: 7, message: "hi".to_string() });
    let call = simulation_call(&send).unwrap();
    assert_eq!(call.from, "GA");
    assert_eq!(call.sequence, 7);
    assert_eq!(call.function, "send");
    assert!(matches!(call.args, CallArgs::Send { ref message } if message == "hi"));

    let hash = "aab242a24424ccc7f1a12bf0b52107c1f8671bcfe0ac644d5ff84d6468fb86c5".to_string();
    let up = SimulationRequest::Vote(SimulateVote { from: "GB".to_string(), sequence: -1, hash: hash.clone(), upvote: true });
    let call = simulation_call(&up).unwrap();
    assert_eq!(call.function, "upvote");
    assert_eq!(call.sequence, -1);
    assert!(matches!(call.args, CallArgs::Vote { hash } if hash == CONTRACT_ADDRESS));

    let down = SimulationRequest::Vote(SimulateVote { from: "GB".to_string(), sequence: 2, hash, upvote: false });
    assert_eq!(simulation_call(&down).unwrap().function, "downvote");

    let bad = SimulationRequest::Vote(SimulateVote { from: "GB".to_string(), sequence: 2, hash: "abc".to_string(), upvote: false });
    assert!(simulation_call(&bad).is_none());
}
