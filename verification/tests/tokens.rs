use r2r_tracing::{Callback, TokenGenerator};
use std::collections::HashSet;
use std::sync::Mutex;

#[test]
fn first_token_is_one() {
    let mut tokens = TokenGenerator::new();
    assert_eq!(tokens.next(), 1);
}

#[test]
fn tokens_count_up_by_one() {
    let mut tokens = TokenGenerator::new();
    let got: Vec<usize> = (0..5).map(|_| tokens.next()).collect();
    assert_eq!(got, vec![1, 2, 3, 4, 5]);
}

#[test]
fn tokens_are_never_zero_and_never_repeat() {
    let mut tokens = TokenGenerator::new();
    let mut seen = HashSet::new();
    let mut last = 0;
    for _ in 0..10_000 {
        let token = tokens.next();
        assert!(token >= 1);
        assert!(token > last);
        assert!(seen.insert(token));
        last = token;
    }
    assert_eq!(seen.len(), 10_000);
}

#[test]
fn gen_id_takes_the_next_token() {
    let mut tokens = TokenGenerator::new();
    assert_eq!(Callback::<fn(u8), u8>::gen_id(&mut tokens), 1);
    assert_eq!(tokens.next(), 2);
    assert_eq!(Callback::<fn(u8), u8>::gen_id(&mut tokens), 3);
}

#[test]
fn two_generators_do_not_share_their_count() {
    let mut first = TokenGenerator::new();
    let mut second = TokenGenerator::new();
    assert_eq!(first.next(), 1);
    assert_eq!(first.next(), 2);
    assert_eq!(second.next(), 1);
}

#[test]
fn requesters_that_take_turns_get_distinct_tokens() {
    let tokens = Mutex::new(TokenGenerator::new());
    let mut requesters: Vec<Vec<usize>> = vec![Vec::new(); 8];
    for round in 0..250 {
        for turn in 0..8 {
            let who = (turn * 3 + round) % 8;
            requesters[who].push(tokens.lock().unwrap().next());
        }
    }
    let mut all = HashSet::new();
    for mine in &requesters {
        assert_eq!(mine.len(), 250);
        assert!(mine.windows(2).all(|pair| pair[0] < pair[1]));
        for token in mine {
            assert!(*token >= 1);
            assert!(all.insert(*token));
        }
    }
    assert_eq!(all.len(), 2000);
    assert_eq!(tokens.lock().unwrap().next(), 2001);
}
