use std::collections::HashSet;

use mortenvistisen_blog::service::generate_subcription_token;

#[test]
fn token_is_25_alphanumeric_characters() {
    for _ in 0..1000 {
        let token = generate_subcription_token();
        assert_eq!(token.chars().count(), 25);
        assert!(token.chars().all(|c| c.is_ascii_alphanumeric()));
    }
}

#[test]
fn tokens_do_not_collide_over_a_hundred_thousand_draws() {
    let mut seen: HashSet<String> = HashSet::with_capacity(100_000);
    for _ in 0..100_000 {
        let token = generate_subcription_token();
        assert!(seen.insert(token), "two draws produced the same token");
    }
}
