use my_rest_api::generate_secret_hash;

#[test]
fn secret_hash_matches_known_tag() {
    assert_eq!(
        generate_secret_hash("secret", "alice", "client123"),
        "oKHO337pkuh1r3zUNCZ1oCL3YgM0Yi2nkcAZsKQTIH8="
    );
    assert_eq!(
        generate_secret_hash("k", "bob", "abc"),
        "B5BRUGMkAHpuY8bY9lTcwee8Ap02dUBMDHuOayzADnE="
    );
}

#[test]
fn secret_hash_of_empty_inputs() {
    assert_eq!(
        generate_secret_hash("", "", ""),
        "thNnmggU2ex3L5XXeMNfxf8Wl8STcVZTxscSFEKSxa0="
    );
}

#[test]
fn secret_hash_is_deterministic_and_44_chars() {
    let long_user = "u".repeat(500);
    for (s, u, c) in [("secret", "alice", "client123"), ("x", long_user.as_str(), "id"), ("", "é", "ü")] {
        let a = generate_secret_hash(s, u, c);
        let b = generate_secret_hash(s, u, c);
        assert_eq!(a, b);
        assert_eq!(a.len(), 44);
        assert!(a.ends_with('='));
    }
}

#[test]
fn secret_hash_depends_on_each_input() {
    let base = generate_secret_hash("secret", "alice", "client123");
    assert_ne!(base, generate_secret_hash("secret2", "alice", "client123"));
    assert_ne!(base, generate_secret_hash("secret", "alicf", "client123"));
    assert_ne!(base, generate_secret_hash("secret", "alice", "client124"));
}
