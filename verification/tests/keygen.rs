use ollama_controls_api::auth::KeyStoreError;
use ollama_controls_api::keygen::{
    prompt_text, read_keystore_passphrase, report_key, report_refusal, PassphraseEvent,
    PassphraseStep, PASSPHRASE_ENV,
};

/// What there is to be read: the variable, whether the file exists, and what is typed in turn.
fn ask(
    variable: Option<&str>,
    exists: bool,
    typed: &[Result<&str, &str>],
) -> (Result<String, String>, Vec<&'static str>) {
    let mut prompts = Vec::new();
    let mut lines = typed
        .iter()
        .map(|r| r.map(|s| s.to_owned()).map_err(|s| s.to_owned()));
    let mut event = PassphraseEvent::Start;
    loop {
        let step = read_keystore_passphrase(event);
        if let Some(words) = prompt_text(&step) {
            prompts.push(words);
        }
        event = match step {
            PassphraseStep::ReadVariable => {
                PassphraseEvent::Variable(variable.map(|s| s.to_owned()))
            }
            PassphraseStep::LookForFile => PassphraseEvent::FileExists(exists),
            PassphraseStep::Enter => PassphraseEvent::Entered(lines.next().unwrap()),
            PassphraseStep::Create => PassphraseEvent::Created(lines.next().unwrap()),
            PassphraseStep::Confirm(created) => PassphraseEvent::Confirmed {
                created,
                again: lines.next().unwrap(),
            },
            PassphraseStep::Done(r) => return (r, prompts),
        };
    }
}

#[test]
fn the_variable_decides_alone() {
    assert_eq!(
        ask(Some("hunter2"), true, &[]),
        (Ok("hunter2".to_owned()), vec![])
    );
    assert_eq!(
        ask(Some(""), false, &[]).0,
        Err("OLLAMA_CONTROLS_KEYSTORE_PASSPHRASE is set but empty".to_owned())
    );
}

#[test]
fn an_existing_keystore_takes_one_entry() {
    assert_eq!(
        ask(None, true, &[Ok("pw")]),
        (Ok("pw".to_owned()), vec!["Keystore passphrase: "])
    );
    assert_eq!(
        ask(None, true, &[Ok("")]).0,
        Err("passphrase must not be empty".to_owned())
    );
    assert_eq!(
        ask(None, true, &[Err("no tty")]).0,
        Err("failed to read passphrase: no tty".to_owned())
    );
}

#[test]
fn a_new_keystore_takes_two_entries_alike() {
    let prompts = vec![
        "Create keystore passphrase: ",
        "Confirm keystore passphrase: ",
    ];
    assert_eq!(
        ask(None, false, &[Ok("pw"), Ok("pw")]),
        (Ok("pw".to_owned()), prompts)
    );
    assert_eq!(
        ask(None, false, &[Ok("pw"), Ok("pq")]).0,
        Err("passphrases do not match".to_owned())
    );
    assert_eq!(
        ask(None, false, &[Ok(""), Ok("pq")]).0,
        Err("passphrases do not match".to_owned())
    );
    assert_eq!(
        ask(None, false, &[Ok(""), Ok("")]).0,
        Err("passphrase must not be empty".to_owned())
    );
    assert_eq!(
        ask(None, false, &[Err("no tty")]).0,
        Err("failed to read passphrase: no tty".to_owned())
    );
    assert_eq!(
        ask(None, false, &[Ok("pw"), Err("closed")]).0,
        Err("failed to read passphrase: closed".to_owned())
    );
}

#[test]
fn steps_without_input_have_no_prompt() {
    assert_eq!(prompt_text(&PassphraseStep::ReadVariable), None);
    assert_eq!(prompt_text(&PassphraseStep::LookForFile), None);
    assert_eq!(prompt_text(&PassphraseStep::Done(Ok("pw".to_owned()))), None);
}

#[test]
fn a_made_key_is_reported() {
    assert_eq!(PASSPHRASE_ENV, "OLLAMA_CONTROLS_KEYSTORE_PASSPHRASE");
    let quiet = report_key(" ann", "/k.age", true, Ok("key".to_owned()));
    assert_eq!(
        quiet.notes,
        vec![
            "Wrote encrypted keystore for user ` ann` to `/k.age`.",
            "The API key is shown once below; it cannot be recovered from the keystore.",
        ]
    );
    assert_eq!(quiet.output, Some("key".to_owned()));
    assert_eq!(quiet.exit_code, 0);
    let typed = report_key("ann", "/k.age", false, Ok("key".to_owned()));
    assert_eq!(
        typed.notes,
        vec![
            "Wrote encrypted keystore for user `ann` to `/k.age`.",
            "Passphrase was read interactively; set `OLLAMA_CONTROLS_KEYSTORE_PASSPHRASE` for non-interactive use.",
            "The API key is shown once below; it cannot be recovered from the keystore.",
        ]
    );
}

#[test]
fn failures_are_reported() {
    let failed = report_key(
        "ann",
        "/k.age",
        false,
        Err(KeyStoreError::DuplicateUsername("ann".to_owned())),
    );
    assert_eq!(
        failed.notes,
        vec!["username `ann` already has a key in this keystore"]
    );
    assert_eq!(failed.output, None);
    assert_eq!(failed.exit_code, 1);
    let refused = report_refusal("passphrases do not match".to_owned());
    assert_eq!(refused.notes, vec!["passphrases do not match"]);
    assert_eq!(refused.output, None);
    assert_eq!(refused.exit_code, 1);
}
