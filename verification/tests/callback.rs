use keyring_prompt::{Effect, PrompterCall, PrompterCallback, Properties, Stage};

fn no_properties() -> Properties {
    Properties {
        continue_label: None,
        description: None,
        message: None,
        caller_window: None,
        cancel_label: None,
    }
}

fn some_properties() -> Properties {
    Properties {
        continue_label: Some("Unlock".to_string()),
        description: Some("An earlier prompt".to_string()),
        message: Some("Unlock Keyring".to_string()),
        caller_window: Some("42".to_string()),
        cancel_label: Some("Back".to_string()),
    }
}

/// The parts of a request for a prompt, or a panic if the effect is none.
fn perform_prompt(effect: Effect) -> (String, String, Properties, String) {
    match effect {
        Effect::Send(PrompterCall::PerformPrompt { callback, prompt_type, properties, exchange }) => {
            (callback.as_str().to_string(), prompt_type, properties, exchange)
        }
        other => panic!("no request for a prompt: {:?}", other),
    }
}

#[test]
fn new_callback_is_initial_at_the_fixed_address() {
    let callback = PrompterCallback::new();
    assert_eq!(callback.stage(), Stage::Initial);
    assert_eq!(callback.path().as_str(), "/org/gnome/keyring/Prompt/p6");
}

#[test]
fn refusal_terminates_without_request() {
    let mut callback = PrompterCallback::new();
    let effect = callback.prompt_ready("no", no_properties(), "tok-1");
    assert!(matches!(effect, Effect::Terminate));
    assert_eq!(callback.stage(), Stage::Done);
    assert_eq!(callback.path().as_str(), "/org/gnome/keyring/Prompt/p6");
}

#[test]
fn refusal_is_final() {
    let mut callback = PrompterCallback::new();
    assert!(matches!(callback.prompt_ready("no", no_properties(), "tok-1"), Effect::Terminate));
    assert!(matches!(callback.prompt_ready("yes", no_properties(), "tok-1"), Effect::Idle));
    assert!(matches!(callback.prompt_ready("no", no_properties(), "tok-1"), Effect::Idle));
    assert_eq!(callback.stage(), Stage::Done);
}

#[test]
fn acceptance_asks_for_confirm_prompt() {
    let mut callback = PrompterCallback::new();
    let effect = callback.prompt_ready("yes", no_properties(), "tok-2");
    let (address, prompt_type, properties, exchange) = perform_prompt(effect);
    assert_eq!(address, "/org/gnome/keyring/Prompt/p6");
    assert_eq!(prompt_type, "confirm");
    assert_eq!(exchange, "tok-2");
    assert_eq!(properties.continue_label.as_deref(), Some("Lock"));
    assert_eq!(properties.message.as_deref(), Some("Lock Keyring"));
    assert_eq!(properties.cancel_label.as_deref(), Some("Cancel"));
    assert_eq!(properties.caller_window.as_deref(), Some(""));
    let description = properties.description.expect("a description");
    assert!(description.contains("login"));
    assert_eq!(description, "Confirm locking 'login' Keyring");
    assert_eq!(callback.stage(), Stage::AwaitingConfirm);
}

#[test]
fn every_reply_but_the_refusal_is_an_acceptance() {
    let replies = [
        "yes", "", "No", "NO", "nO", "no ", " no", "n", "o", "on", "noo", "nope", "no\n", "n\u{6f}\u{301}",
        "ｎｏ", "ok", "cancel", "\u{0}",
    ];
    for reply in replies {
        let mut callback = PrompterCallback::new();
        let effect = callback.prompt_ready(reply, no_properties(), "e");
        let (address, prompt_type, _, exchange) = perform_prompt(effect);
        assert_eq!(address, "/org/gnome/keyring/Prompt/p6", "reply {:?}", reply);
        assert_eq!(prompt_type, "confirm", "reply {:?}", reply);
        assert_eq!(exchange, "e", "reply {:?}", reply);
        assert_eq!(callback.stage(), Stage::AwaitingConfirm, "reply {:?}", reply);
    }
}

#[test]
fn exchange_token_is_carried_verbatim() {
    let tokens = ["", "tok-2", " tok ", "no", "a/b\\c", "ünï-cødé ✓", "line\nbreak", "0"];
    for token in tokens {
        let mut callback = PrompterCallback::new();
        let effect = callback.prompt_ready("yes", no_properties(), token);
        let (_, _, _, exchange) = perform_prompt(effect);
        assert_eq!(exchange, token);
    }
}

#[test]
fn inbound_properties_do_not_reach_the_request() {
    let mut with = PrompterCallback::new();
    let mut without = PrompterCallback::new();
    let (_, _, from_some, _) = perform_prompt(with.prompt_ready("yes", some_properties(), "t"));
    let (_, _, from_none, _) = perform_prompt(without.prompt_ready("yes", no_properties(), "t"));
    assert_eq!(from_some.continue_label, from_none.continue_label);
    assert_eq!(from_some.description, from_none.description);
    assert_eq!(from_some.message, from_none.message);
    assert_eq!(from_some.caller_window, from_none.caller_window);
    assert_eq!(from_some.cancel_label, from_none.cancel_label);
    assert_eq!(from_some.continue_label.as_deref(), Some("Lock"));
}

#[test]
fn lock_confirmation_has_all_five_texts() {
    let properties = Properties::lock_confirmation();
    assert_eq!(properties.continue_label, Some("Lock".to_string()));
    assert_eq!(properties.description, Some("Confirm locking 'login' Keyring".to_string()));
    assert_eq!(properties.message, Some("Lock Keyring".to_string()));
    assert_eq!(properties.caller_window, Some(String::new()));
    assert_eq!(properties.cancel_label, Some("Cancel".to_string()));
}

#[test]
fn reply_to_the_confirm_prompt_is_accepted_and_ignored() {
    for reply in ["yes", "no", ""] {
        let mut callback = PrompterCallback::new();
        let first = callback.prompt_ready("yes", no_properties(), "tok-2");
        assert!(matches!(first, Effect::Send(_)));
        let second = callback.prompt_ready(reply, some_properties(), "tok-3");
        assert!(matches!(second, Effect::Idle), "reply {:?}", reply);
        assert_eq!(callback.stage(), Stage::Done);
    }
}

#[test]
fn at_most_one_request_in_a_session() {
    let mut callback = PrompterCallback::new();
    let mut sent = 0;
    for reply in ["yes", "yes", "no", "maybe", "yes"] {
        if let Effect::Send(_) = callback.prompt_ready(reply, no_properties(), "x") {
            sent += 1;
        }
    }
    assert_eq!(sent, 1);
    assert_eq!(callback.stage(), Stage::Done);
}

#[test]
fn reply_after_the_end_is_ignored() {
    let mut callback = PrompterCallback::new();
    assert!(matches!(callback.prompt_done(), Effect::Idle));
    assert!(matches!(callback.prompt_ready("yes", no_properties(), "late"), Effect::Idle));
    assert!(matches!(callback.prompt_ready("no", no_properties(), "late"), Effect::Idle));
    assert_eq!(callback.stage(), Stage::Done);
}

#[test]
fn completion_asks_for_nothing_at_every_stage() {
    let mut initial = PrompterCallback::new();
    assert!(matches!(initial.prompt_done(), Effect::Idle));
    assert_eq!(initial.stage(), Stage::Done);

    let mut awaiting = PrompterCallback::new();
    awaiting.prompt_ready("yes", no_properties(), "t");
    assert_eq!(awaiting.stage(), Stage::AwaitingConfirm);
    assert!(matches!(awaiting.prompt_done(), Effect::Idle));
    assert_eq!(awaiting.stage(), Stage::Done);

    let mut done = PrompterCallback::new();
    done.prompt_ready("no", no_properties(), "t");
    assert_eq!(done.stage(), Stage::Done);
    assert!(matches!(done.prompt_done(), Effect::Idle));
    assert_eq!(done.stage(), Stage::Done);
}

#[test]
fn completion_is_idempotent() {
    let mut callback = PrompterCallback::new();
    callback.prompt_ready("yes", no_properties(), "t");
    callback.prompt_done();
    let stage_after_one = callback.stage();
    let address_after_one = callback.path().as_str().to_string();
    for _ in 0..5 {
        assert!(matches!(callback.prompt_done(), Effect::Idle));
        assert_eq!(callback.stage(), stage_after_one);
        assert_eq!(callback.path().as_str(), address_after_one);
    }
}
