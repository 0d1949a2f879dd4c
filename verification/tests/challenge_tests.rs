use acme_provision::challenge::ChallengeDir;

#[test]
fn served_proof_is_exactly_what_was_written() {
    let mut dir = ChallengeDir::new();
    let proof = b"abc123.deadbeef-key-authorization".to_vec();
    dir.write_proof("abc123".to_string(), proof.clone());
    let got = dir.serve(&"abc123".to_string());
    assert_eq!(got, Some(&proof));
}

#[test]
fn unknown_token_is_not_served() {
    let mut dir = ChallengeDir::new();
    dir.write_proof("abc123".to_string(), b"proof-a".to_vec());
    assert_eq!(dir.serve(&"zzz999".to_string()), None);
    assert_eq!(ChallengeDir::new().serve(&"abc123".to_string()), None);
}

#[test]
fn later_write_replaces_earlier_proof() {
    let mut dir = ChallengeDir::new();
    dir.write_proof("abc123".to_string(), b"old-proof".to_vec());
    dir.write_proof("abc123".to_string(), b"new-proof".to_vec());
    assert_eq!(dir.serve(&"abc123".to_string()), Some(&b"new-proof".to_vec()));
}

#[test]
fn writes_for_other_tokens_do_not_interfere() {
    let mut dir = ChallengeDir::new();
    dir.write_proof("one".to_string(), b"proof-one".to_vec());
    dir.write_proof("two".to_string(), b"proof-two".to_vec());
    assert_eq!(dir.serve(&"one".to_string()), Some(&b"proof-one".to_vec()));
    assert_eq!(dir.serve(&"two".to_string()), Some(&b"proof-two".to_vec()));
}

#[test]
fn cleanup_empties_the_directory() {
    let mut dir = ChallengeDir::new();
    dir.write_proof("abc123".to_string(), b"proof-a".to_vec());
    dir.write_proof("def456".to_string(), b"proof-b".to_vec());
    dir.remove_all();
    assert_eq!(dir.serve(&"abc123".to_string()), None);
    assert_eq!(dir.serve(&"def456".to_string()), None);
}

#[test]
fn empty_proof_round_trips() {
    let mut dir = ChallengeDir::new();
    dir.write_proof("empty".to_string(), Vec::new());
    assert_eq!(dir.serve(&"empty".to_string()), Some(&Vec::new()));
}
