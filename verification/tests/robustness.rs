use proc_macro2::TokenStream;
use std::str::FromStr;
use unconst_trait_impl::unconst_trait_impl;

const WORDS: [&str; 40] = [
    "impl", "const", "for", "where", "unsafe", "default", "T", "U", "Tr", "Drop", "'a", "'b",
    "<", ">", ",", ":", "::", "+", "?", "~", "!", "=", "#", ";", "->", "&", "*", "_", "1",
    "\"s\"", "{ }", "( )", "[ ]", "{ fn f ( ) { } }", "( T )", "[ a ]", "#[a]", "#![b]",
    "dyn", "fn",
];

fn soup(seed: u64, length: usize) -> String {
    let mut state = seed.wrapping_mul(6364136223846793005).wrapping_add(1442695040888963407);
    let mut words = Vec::new();
    for _ in 0..length {
        state = state.wrapping_mul(6364136223846793005).wrapping_add(1442695040888963407);
        words.push(WORDS[((state >> 33) % WORDS.len() as u64) as usize]);
    }
    words.join(" ")
}

#[test]
fn any_tokens_are_answered() {
    let mut accepted = 0;
    for seed in 0..3000u64 {
        let source = soup(seed, 1 + (seed % 12) as usize);
        let input = TokenStream::from_str(&source).unwrap();
        let count = input.clone().into_iter().count();
        match unconst_trait_impl(input) {
            Ok(_) => accepted += 1,
            Err(error) => assert!(error.position() <= count, "{}", source),
        }
    }
    assert!(accepted < 3000);
}

#[test]
fn any_header_is_answered() {
    let mut accepted = 0;
    for seed in 0..3000u64 {
        let source = format!("impl {} for X {{ }}", soup(seed, 1 + (seed % 8) as usize));
        let input = TokenStream::from_str(&source).unwrap();
        let count = input.clone().into_iter().count();
        match unconst_trait_impl(input) {
            Ok(output) => {
                accepted += 1;
                let again = unconst_trait_impl(output.clone()).unwrap();
                assert_eq!(again.to_string(), output.to_string(), "{}", source);
            }
            Err(error) => assert!(error.position() <= count, "{}", source),
        }
    }
    assert!(accepted > 0);
}

#[test]
fn any_generics_are_answered() {
    let mut accepted = 0;
    for seed in 0..3000u64 {
        let source = format!(
            "impl < {} > const Tr for X where {} {{ }}",
            soup(seed, 1 + (seed % 9) as usize),
            soup(seed + 7919, (seed % 7) as usize)
        );
        let input = TokenStream::from_str(&source).unwrap();
        let count = input.clone().into_iter().count();
        match unconst_trait_impl(input) {
            Ok(output) => {
                accepted += 1;
                assert!(!output.to_string().contains('~'), "{}", source);
                let again = unconst_trait_impl(output.clone()).unwrap();
                assert_eq!(again.to_string(), output.to_string(), "{}", source);
            }
            Err(error) => assert!(error.position() <= count, "{}", source),
        }
    }
    assert!(accepted > 0);
}
