use keyring_prompt::{AddressError, CallbackAddress};
use zbus::zvariant::ObjectPath;

const ACCEPTED: [&str; 9] = [
    "/",
    "/a",
    "/_",
    "/0",
    "/Path/t0/0bject",
    "/a/very/looooooooooooooooooooooooo0000o0ng/path",
    "/org/gnome/keyring/Prompt/p6",
    "/org/gnome/keyring/Prompter",
    "/A_b/C_9/__",
];

const REFUSED: [&str; 16] = [
    "",
    ".",
    "a",
    "a/b",
    "//",
    "/a/",
    "/a//b",
    "//a",
    "/double//slashes/",
    "/end/with/slash/",
    "/ha.d",
    "/a b",
    "/a-b",
    "/é",
    "/a/\u{0}",
    " /a",
];

#[test]
fn object_paths_are_accepted() {
    for text in ACCEPTED {
        let address = CallbackAddress::parse(text.to_string());
        match address {
            Ok(address) => assert_eq!(address.as_str(), text),
            Err(error) => panic!("{:?} was refused: {:?}", text, error),
        }
    }
}

#[test]
fn other_texts_are_refused() {
    for text in REFUSED {
        let address = CallbackAddress::parse(text.to_string());
        assert!(matches!(address, Err(AddressError::NotAnObjectPath)), "{:?} was accepted", text);
    }
}

#[test]
fn empty_text_is_no_address() {
    assert!(CallbackAddress::parse(String::new()).is_err());
}

#[test]
fn parse_agrees_with_the_transport() {
    for text in ACCEPTED.iter().chain(REFUSED.iter()) {
        let ours = CallbackAddress::parse(text.to_string()).is_ok();
        let theirs = ObjectPath::try_from(*text).is_ok();
        assert_eq!(ours, theirs, "text {:?}", text);
    }
}

#[test]
fn every_short_text_over_a_small_alphabet_agrees_with_the_transport() {
    let alphabet = ['/', 'a', 'Z', '7', '_', '.', '-', ' ', 'é'];
    let mut texts = vec![String::new()];
    let mut frontier = vec![String::new()];
    for _ in 0..4 {
        let mut next = Vec::new();
        for text in &frontier {
            for c in alphabet {
                let mut longer = text.clone();
                longer.push(c);
                next.push(longer);
            }
        }
        texts.extend(next.iter().cloned());
        frontier = next;
    }
    for text in texts {
        let ours = CallbackAddress::parse(text.clone()).is_ok();
        let theirs = ObjectPath::try_from(text.as_str()).is_ok();
        assert_eq!(ours, theirs, "text {:?}", text);
        assert_eq!(ours, follows_the_grammar(&text), "text {:?}", text);
    }
}

/// The grammar of object paths, written out once more for the comparison.
fn follows_the_grammar(text: &str) -> bool {
    let chars: Vec<char> = text.chars().collect();
    if chars.is_empty() || chars[0] != '/' {
        return false;
    }
    if chars.len() > 1 && chars[chars.len() - 1] == '/' {
        return false;
    }
    for (i, c) in chars.iter().enumerate() {
        let element = c.is_ascii_alphanumeric() || *c == '_';
        if !element && *c != '/' {
            return false;
        }
        if i > 0 && *c == '/' && chars[i - 1] == '/' {
            return false;
        }
    }
    true
}

#[test]
fn clone_keeps_the_text() {
    let address = CallbackAddress::parse("/org/gnome/keyring/Prompt/p6".to_string()).unwrap();
    let copy = address.clone();
    assert_eq!(copy.as_str(), address.as_str());
    assert_eq!(copy.as_str(), "/org/gnome/keyring/Prompt/p6");
}
