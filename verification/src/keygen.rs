//! The `ollama-api key-gen` command: where its passphrase comes from, and what it prints.

use crate::error::KeyStoreError;
use crate::text::{joined, joined3, same_text};
use vstd::prelude::*;

verus! {

/// The variable that holds the keystore's passphrase.
pub const PASSPHRASE_ENV: &'static str = "OLLAMA_CONTROLS_KEYSTORE_PASSPHRASE";

/// What has happened while a passphrase is asked for.
#[derive(Debug)]
pub enum PassphraseEvent {
    Start,
    /// The variable, if it is set to a text.
    Variable(Option<String>),
    /// Whether there is a keystore already.
    FileExists(bool),
    /// The passphrase of the keystore was entered, or why it was not.
    Entered(Result<String, String>),
    /// A new passphrase was entered, or why it was not.
    Created(Result<String, String>),
    /// The new passphrase was entered again, or why it was not.
    Confirmed { created: String, again: Result<String, String> },
}

/// What is to be done next to get a passphrase.
#[derive(Debug)]
pub enum PassphraseStep {
    ReadVariable,
    LookForFile,
    /// Ask for the passphrase of the keystore.
    Enter,
    /// Ask for a new passphrase.
    Create,
    /// Ask again for the new passphrase.
    Confirm(String),
    Done(Result<String, String>),
}

/// Says whether a step is a refusal in certain words.
pub open spec fn refused(step: PassphraseStep, words: Seq<char>) -> bool {
    step matches PassphraseStep::Done(Err(s)) && s@ == words
}

/// Says whether a step takes an entered passphrase: all but an empty one are good.
pub open spec fn taken(step: PassphraseStep, entered: String) -> bool {
    if entered@.len() == 0 {
        refused(step, "passphrase must not be empty"@)
    } else {
        step == PassphraseStep::Done(Ok(entered))
    }
}

/// The words for a failure to read from the terminal.
pub open spec fn unread(why: Seq<char>) -> Seq<char> {
    "failed to read passphrase: "@ + why
}

/// Says what asking for a passphrase goes on with after an event.
pub open spec fn passphrase_leads_to(event: PassphraseEvent, step: PassphraseStep) -> bool {
    match event {
        PassphraseEvent::Start => step == PassphraseStep::ReadVariable,
        PassphraseEvent::Variable(Some(p)) => if p@.len() == 0 {
            refused(step, PASSPHRASE_ENV@ + " is set but empty"@)
        } else {
            step == PassphraseStep::Done(Ok(p))
        },
        PassphraseEvent::Variable(None) => step == PassphraseStep::LookForFile,
        PassphraseEvent::FileExists(true) => step == PassphraseStep::Enter,
        PassphraseEvent::FileExists(false) => step == PassphraseStep::Create,
        PassphraseEvent::Entered(Ok(p)) => taken(step, p),
        PassphraseEvent::Entered(Err(why)) => refused(step, unread(why@)),
        PassphraseEvent::Created(Ok(p)) => step == PassphraseStep::Confirm(p),
        PassphraseEvent::Created(Err(why)) => refused(step, unread(why@)),
        PassphraseEvent::Confirmed { created, again: Ok(p) } => if created@ != p@ {
            refused(step, "passphrases do not match"@)
        } else {
            taken(step, created)
        },
        PassphraseEvent::Confirmed { created, again: Err(why) } => refused(step, unread(why@)),
    }
}

fn refuse(words: &str) -> (step: PassphraseStep)
    ensures
        refused(step, words@),
{
    PassphraseStep::Done(Err(words.to_owned()))
}

fn refuse_unread(why: &str) -> (step: PassphraseStep)
    ensures
        refused(step, unread(why@)),
{
    PassphraseStep::Done(Err(joined("failed to read passphrase: ", why)))
}

fn take(entered: String) -> (step: PassphraseStep)
    ensures
        taken(step, entered),
{
    if entered.as_str().is_empty() {
        refuse("passphrase must not be empty")
    } else {
        PassphraseStep::Done(Ok(entered))
    }
}

/// Gets the keystore's passphrase: from the variable, or else from the terminal. For a keystore
/// that is not there yet it is entered twice.
pub fn read_keystore_passphrase(event: PassphraseEvent) -> (step: PassphraseStep)
    ensures
        passphrase_leads_to(event, step),
{
    match event {
        PassphraseEvent::Start => PassphraseStep::ReadVariable,
        PassphraseEvent::Variable(Some(p)) => {
            if p.as_str().is_empty() {
                PassphraseStep::Done(Err(joined(PASSPHRASE_ENV, " is set but empty")))
            } else {
                PassphraseStep::Done(Ok(p))
            }
        },
        PassphraseEvent::Variable(None) => PassphraseStep::LookForFile,
        PassphraseEvent::FileExists(exists) => {
            if exists {
                PassphraseStep::Enter
            } else {
                PassphraseStep::Create
            }
        },
        PassphraseEvent::Entered(Ok(p)) => take(p),
        PassphraseEvent::Entered(Err(why)) => refuse_unread(why.as_str()),
        PassphraseEvent::Created(Ok(p)) => PassphraseStep::Confirm(p),
        PassphraseEvent::Created(Err(why)) => refuse_unread(why.as_str()),
        PassphraseEvent::Confirmed { created, again: Ok(p) } => {
            if !same_text(created.as_str(), p.as_str()) {
                refuse("passphrases do not match")
            } else {
                take(created)
            }
        },
        PassphraseEvent::Confirmed { created, again: Err(why) } => refuse_unread(why.as_str()),
    }
}

/// What the terminal shows when a step asks for input.
pub open spec fn prompt_wording(step: PassphraseStep) -> Option<Seq<char>> {
    match step {
        PassphraseStep::Enter => Some("Keystore passphrase: "@),
        PassphraseStep::Create => Some("Create keystore passphrase: "@),
        PassphraseStep::Confirm(_) => Some("Confirm keystore passphrase: "@),
        _ => None,
    }
}

/// The prompt for a step that asks for input.
pub fn prompt_text(step: &PassphraseStep) -> (r: Option<&'static str>)
    ensures
        match prompt_wording(*step) {
            Some(words) => r matches Some(s) && s@ == words,
            None => r is None,
        },
{
    match step {
        PassphraseStep::Enter => Some("Keystore passphrase: "),
        PassphraseStep::Create => Some("Create keystore passphrase: "),
        PassphraseStep::Confirm(_) => Some("Confirm keystore passphrase: "),
        _ => None,
    }
}

/// Answers to what asking for a passphrase can ask for.
pub struct PassphraseSurroundings {
    pub variable: Option<String>,
    pub file_exists: bool,
    pub entered: Result<String, String>,
    pub created: Result<String, String>,
    pub again: Result<String, String>,
}

impl PassphraseSurroundings {
    /// The answer to a step.
    pub open spec fn answer(self, step: PassphraseStep) -> PassphraseEvent {
        match step {
            PassphraseStep::ReadVariable => PassphraseEvent::Variable(self.variable),
            PassphraseStep::LookForFile => PassphraseEvent::FileExists(self.file_exists),
            PassphraseStep::Enter => PassphraseEvent::Entered(self.entered),
            PassphraseStep::Create => PassphraseEvent::Created(self.created),
            PassphraseStep::Confirm(created) => PassphraseEvent::Confirmed {
                created,
                again: self.again,
            },
            PassphraseStep::Done(_) => PassphraseEvent::Start,
        }
    }
}

/// Says whether asking for a passphrase can go from an event to a result in at most `steps`
/// steps.
pub open spec fn passphrase_reaches(
    around: PassphraseSurroundings,
    event: PassphraseEvent,
    r: Result<String, String>,
    steps: nat,
) -> bool
    decreases steps,
{
    steps > 0 && exists|step: PassphraseStep| #[trigger]
        passphrase_leads_to(event, step) && match step {
            PassphraseStep::Done(x) => r == x,
            _ => passphrase_reaches(around, around.answer(step), r, (steps - 1) as nat),
        }
}

/// Says whether asking for a passphrase can go on from an event for a number of steps without a
/// result.
pub open spec fn passphrase_runs_on(
    around: PassphraseSurroundings,
    event: PassphraseEvent,
    steps: nat,
) -> bool
    decreases steps,
{
    if steps == 0 {
        true
    } else {
        exists|step: PassphraseStep| #[trigger]
            passphrase_leads_to(event, step) && !(step is Done) && passphrase_runs_on(
                around,
                around.answer(step),
                (steps - 1) as nat,
            )
    }
}

/// Says what asking for a passphrase comes to, as a text or as the words of a refusal. The
/// variable decides alone if it is set. For a keystore that is there the passphrase is entered
/// once, for a new one twice.
pub open spec fn passphrase_result(around: PassphraseSurroundings) -> Result<Seq<char>, Seq<char>> {
    let empty = "passphrase must not be empty"@;
    match around.variable {
        Some(p) => if p@.len() == 0 {
            Err(PASSPHRASE_ENV@ + " is set but empty"@)
        } else {
            Ok(p@)
        },
        None => if around.file_exists {
            match around.entered {
                Err(why) => Err(unread(why@)),
                Ok(p) => if p@.len() == 0 {
                    Err(empty)
                } else {
                    Ok(p@)
                },
            }
        } else {
            match (around.created, around.again) {
                (Err(why), _) => Err(unread(why@)),
                (_, Err(why)) => Err(unread(why@)),
                (Ok(p), Ok(q)) => if p@ != q@ {
                    Err("passphrases do not match"@)
                } else if p@.len() == 0 {
                    Err(empty)
                } else {
                    Ok(p@)
                },
            }
        },
    }
}

/// Asking for a passphrase, taken to its end, comes to its result.
pub proof fn law_passphrase_comes_to_its_result(
    around: PassphraseSurroundings,
    r: Result<String, String>,
    steps: nat,
)
    requires
        passphrase_reaches(around, PassphraseEvent::Start, r, steps),
    ensures
        match r {
            Ok(p) => passphrase_result(around) == Ok::<Seq<char>, Seq<char>>(p@),
            Err(words) => passphrase_result(around) == Err::<Seq<char>, Seq<char>>(words@),
        },
{
    reveal_with_fuel(passphrase_reaches, 6);
}

/// Asking for a passphrase ends: it never goes on for five steps without a result.
pub proof fn law_passphrase_ends(around: PassphraseSurroundings, steps: nat)
    requires
        passphrase_runs_on(around, PassphraseEvent::Start, steps),
    ensures
        steps < 5,
{
    reveal_with_fuel(passphrase_runs_on, 6);
}

/// Every passphrase but an empty one is taken: the variable's where it is set, else the one that
/// is entered for a keystore that is there, else the one that is entered twice alike. A failure to
/// read is told with its reason, and unlike entries are told before empty ones.
pub proof fn law_good_passphrase_is_taken(
    around: PassphraseSurroundings,
    r: Result<String, String>,
    steps: nat,
)
    requires
        passphrase_reaches(around, PassphraseEvent::Start, r, steps),
    ensures
        match around.variable {
            Some(p) => if p@.len() > 0 {
                r == Ok::<String, String>(p)
            } else {
                r matches Err(w) && w@ == "OLLAMA_CONTROLS_KEYSTORE_PASSPHRASE"@
                    + " is set but empty"@
            },
            None => if around.file_exists {
                match around.entered {
                    Ok(p) => if p@.len() > 0 {
                        r == Ok::<String, String>(p)
                    } else {
                        r matches Err(w) && w@ == "passphrase must not be empty"@
                    },
                    Err(e) => r matches Err(w) && w@ == "failed to read passphrase: "@ + e@,
                }
            } else {
                match (around.created, around.again) {
                    (Ok(a), Ok(b)) => if a@ != b@ {
                        r matches Err(w) && w@ == "passphrases do not match"@
                    } else if a@.len() > 0 {
                        r == Ok::<String, String>(a)
                    } else {
                        r matches Err(w) && w@ == "passphrase must not be empty"@
                    },
                    (Err(e), _) => r matches Err(w) && w@ == "failed to read passphrase: "@ + e@,
                    (_, Err(e)) => r matches Err(w) && w@ == "failed to read passphrase: "@ + e@,
                }
            },
        },
{
    reveal_with_fuel(passphrase_reaches, 6);
}

/// The terminal shows a prompt exactly where input is asked for, and a different one each time.
pub proof fn law_prompts_tell_the_steps_apart(created: String)
    ensures
        prompt_wording(PassphraseStep::Enter) == Some("Keystore passphrase: "@),
        prompt_wording(PassphraseStep::Create) == Some("Create keystore passphrase: "@),
        prompt_wording(PassphraseStep::Confirm(created)) == Some(
            "Confirm keystore passphrase: "@,
        ),
        forall|step: PassphraseStep|
            #![trigger prompt_wording(step)]
            !(step is Enter) && !(step is Create) && !(step is Confirm) ==> prompt_wording(step)
                is None,
{
}

/// A passphrase that is handed out is never empty, and a new one was entered twice alike.
pub proof fn law_passphrase_is_good(around: PassphraseSurroundings)
    ensures
        passphrase_result(around) matches Ok(p) ==> p.len() > 0,
        passphrase_result(around) matches Ok(p) ==> around.variable is None ==> !around.file_exists
            ==> (around.created matches Ok(a) && around.again matches Ok(b) && a@ == p && b@ == p),
{
}

/// A variable that is set decides alone: nothing is asked for at the terminal.
pub proof fn law_variable_decides_alone(variable: String, step: PassphraseStep)
    requires
        passphrase_leads_to(PassphraseEvent::Variable(Some(variable)), step),
    ensures
        step is Done,
        variable@.len() > 0 ==> step == PassphraseStep::Done(Ok(variable)),
{
}

/// What a command leaves behind.
#[derive(Debug)]
pub struct Report {
    /// The lines for the operator.
    pub notes: Vec<String>,
    /// The line that is the command's output.
    pub output: Option<String>,
    pub exit_code: u8,
}

/// What the operator is told when a key was made.
pub open spec fn success_notes(
    username: Seq<char>,
    keystore: Seq<char>,
    variable_is_set: bool,
) -> Seq<Seq<char>> {
    let wrote = "Wrote encrypted keystore for user `"@ + username + "` to `"@ + keystore + "`."@;
    let once =
        "The API key is shown once below; it cannot be recovered from the keystore."@;
    if variable_is_set {
        seq![wrote, once]
    } else {
        seq![
            wrote,
            "Passphrase was read interactively; set `"@ + PASSPHRASE_ENV@
                + "` for non-interactive use."@,
            once,
        ]
    }
}

/// The operator is told the username and the keystore as they were given, and how to go without
/// the terminal only where the variable is not set. That the key cannot be recovered comes last.
pub proof fn law_notes_name_user_and_keystore(
    username: Seq<char>,
    keystore: Seq<char>,
    variable_is_set: bool,
)
    ensures
        success_notes(username, keystore, variable_is_set).len() == if variable_is_set {
            2int
        } else {
            3
        },
        success_notes(username, keystore, variable_is_set)[0]
            == "Wrote encrypted keystore for user `"@ + username + "` to `"@ + keystore + "`."@,
        !variable_is_set ==> success_notes(username, keystore, variable_is_set)[1]
            == "Passphrase was read interactively; set `"@
            + "OLLAMA_CONTROLS_KEYSTORE_PASSPHRASE"@ + "` for non-interactive use."@,
        success_notes(username, keystore, variable_is_set).last()
            == "The API key is shown once below; it cannot be recovered from the keystore."@,
{
}

/// What is left behind when a key was made or was not.
pub fn report_key(
    username: &str,
    keystore: &str,
    variable_is_set: bool,
    outcome: Result<String, KeyStoreError>,
) -> (r: Report)
    ensures
        match outcome {
            Ok(key) => {
                &&& crate::paths::texts(r.notes@) == success_notes(
                    username@,
                    keystore@,
                    variable_is_set,
                )
                &&& r.output == Some(key)
                &&& r.exit_code == 0
            },
            Err(e) => {
                &&& r.notes@.len() == 1
                &&& e.has_message(r.notes@[0]@)
                &&& r.output is None
                &&& r.exit_code == 1
            },
        },
{
    let mut notes: Vec<String> = Vec::new();
    match outcome {
        Ok(key) => {
            let head: String = joined3("Wrote encrypted keystore for user `", username, "` to `");
            notes.push(joined3(head.as_str(), keystore, "`."));
            if !variable_is_set {
                notes.push(
                    joined3(
                        "Passphrase was read interactively; set `",
                        PASSPHRASE_ENV,
                        "` for non-interactive use.",
                    ),
                );
            }
            notes.push(
                "The API key is shown once below; it cannot be recovered from the keystore.".to_owned(),
            );
            assert(crate::paths::texts(notes@) =~= success_notes(
                username@,
                keystore@,
                variable_is_set,
            ));
            Report { notes, output: Some(key), exit_code: 0 }
        },
        Err(e) => {
            notes.push(e.message());
            Report { notes, output: None, exit_code: 1 }
        },
    }
}

/// What is left behind when there is no passphrase.
pub fn report_refusal(words: String) -> (r: Report)
    ensures
        r.notes@ == seq![words],
        r.output is None,
        r.exit_code == 1,
{
    let mut notes: Vec<String> = Vec::new();
    notes.push(words);
    Report { notes, output: None, exit_code: 1 }
}

} // verus!
