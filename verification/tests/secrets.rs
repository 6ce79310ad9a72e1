use sparkcloud::password::{hash_secret, hashing_outcome, verify_secret, HashFailure};
use sparkcloud::string_generator::{generate_auth_token, generate_id, generate_string};
use sparkcloud::verify_hex_color::verify_hex_color;

fn is_alphanumeric(s: &str, length: usize) -> bool {
    s.chars().count() == length && s.chars().all(|c| c.is_ascii_alphanumeric())
}

#[test]
fn identifiers_are_fifteen_letters_and_digits() {
    for _ in 0..50 {
        assert!(is_alphanumeric(&generate_id(), 15));
    }
}

#[test]
fn session_secrets_are_forty_eight_letters_and_digits() {
    for _ in 0..50 {
        assert!(is_alphanumeric(&generate_auth_token(), 48));
    }
}

#[test]
fn strings_have_the_size_asked_for() {
    assert_eq!(generate_string(Some(0)), "");
    assert!(is_alphanumeric(&generate_string(Some(1)), 1));
    assert!(is_alphanumeric(&generate_string(Some(64)), 64));
    assert!(is_alphanumeric(&generate_string(Some(1000)), 1000));
    assert!(is_alphanumeric(&generate_string(None), 48));
}

#[test]
fn strings_are_drawn_anew_each_time() {
    assert_ne!(generate_string(Some(32)), generate_string(Some(32)));
    assert_ne!(generate_id(), generate_id());
    assert_ne!(generate_auth_token(), generate_auth_token());
}

#[test]
fn hex_colours_are_a_hash_sign_and_three_to_six_digits() {
    for good in ["#abc", "#abcd", "#abcde", "#abcdef", "#000", "#4b90e7", "#f5f5f5", "#09af"] {
        assert!(verify_hex_color(good), "{}", good);
    }
}

#[test]
fn other_texts_are_no_hex_colours() {
    let bad = [
        "", "#", "#a", "#ab", "#abcdefa", "abc", "abcdef", "#ABC", "#abC", "#abg", "#ab ", " #abc",
        "#abc ", "#abc\n", "\n#abc", "##abc", "#abc#", "#äbc", "#ab\u{0}", "0x4b90e7", "#12345678",
        "#١٢٣",
    ];
    for text in bad {
        assert!(!verify_hex_color(text), "{:?}", text);
    }
}

#[test]
fn hex_colours_agree_with_the_pattern() {
    let pattern = regex::Regex::new(r"^#[0-9a-f]{3,6}$").unwrap();
    let alphabet = ['#', '0', '9', 'a', 'f', 'g', 'A', ' ', '\n'];
    let mut texts = vec![String::new()];
    for _ in 0..4 {
        let mut longer = Vec::new();
        for text in &texts {
            for c in alphabet {
                let mut next = text.clone();
                next.push(c);
                longer.push(next);
            }
        }
        texts.extend(longer);
        texts.sort();
        texts.dedup();
    }
    for tail in ["", "0", "00", "000", "0000", "00000", "0a9f", "abcdefg"] {
        texts.push(format!("#abc{}", tail));
    }
    for text in texts {
        assert_eq!(verify_hex_color(&text), pattern.is_match(&text), "{:?}", text);
    }
}

#[test]
fn hash_verifies_the_secret_it_was_made_from() {
    let hash = hash_secret("hunter2", 4).unwrap();
    assert_ne!(hash, "hunter2");
    assert_eq!(hash.len(), 60);
    assert!(hash.starts_with("$2b$04$"));
    assert!(verify_secret("hunter2", &hash));
    assert!(!verify_secret("hunter3", &hash));
    assert!(!verify_secret("", &hash));
}

#[test]
fn hashes_of_one_secret_differ() {
    assert_ne!(hash_secret("hunter2", 4).unwrap(), hash_secret("hunter2", 4).unwrap());
}

#[test]
fn cost_outside_the_range_fails() {
    assert_eq!(hash_secret("hunter2", 3), Err(HashFailure));
    assert_eq!(hash_secret("hunter2", 32), Err(HashFailure));
    assert_eq!(hash_secret("hunter2", 0), Err(HashFailure));
    assert!(hash_secret("hunter2", 31 - 27).is_ok());
}

#[test]
fn known_hashes_verify() {
    let hash = "$2a$04$UuTkLRZZ6QofpDOlMz32MuuxEHA43WOemOYHPz6.SjsVsyO1tDU96";
    assert!(verify_secret("password", hash));
    assert!(!verify_secret("Password", hash));
}

#[test]
fn malformed_hash_verifies_nothing() {
    assert!(!verify_secret("hunter2", ""));
    assert!(!verify_secret("hunter2", "hunter2"));
    assert!(!verify_secret("", ""));
    assert!(!verify_secret("hunter2", "$2b$12$tooshort"));
    assert!(!verify_secret("hunter2", "$9z$04$UuTkLRZZ6QofpDOlMz32MuuxEHA43WOemOYHPz6.SjsVsyO1tDU96"));
}

#[test]
fn long_and_odd_secrets_hash_and_verify() {
    let long = "x".repeat(200);
    let hash = hash_secret(&long, 4).unwrap();
    assert!(verify_secret(&long, &hash));
    let odd = "pass\u{0}word ü";
    let hash = hash_secret(odd, 4).unwrap();
    assert!(verify_secret(odd, &hash));
}

#[test]
fn outcome_of_hashing_keeps_the_hash_or_names_the_failure() {
    let made = bcrypt::hash("hunter2", 4);
    let expected = made.as_ref().ok().cloned();
    assert!(expected.is_some());
    assert_eq!(hashing_outcome(made).ok(), expected);
    assert_eq!(hashing_outcome(bcrypt::hash("hunter2", 3)), Err(HashFailure));
    assert_eq!(hashing_outcome(bcrypt::hash("hunter2", 32)), Err(HashFailure));
}
