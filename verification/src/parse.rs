//! Command interpretation: the legacy free-text grammar (`-clear`,
//! `-chat <model> <prompt...>`), the structured command names, and the
//! model allow-list with its single enabled identifier.

use crate::text::{find_ws, first_ws, str_eq, str_starts_with};
use vstd::prelude::*;

verus! {

/// The parsed intent of one request.
#[derive(Debug)]
pub enum Command {
    Clear,
    Chat { model: String, prompt: String },
}

/// A request refused before any backend call, with its explanation.
#[derive(Debug)]
pub enum ValidationError {
    MissingModel,
    UnknownModel(String),
    DisabledModel(String),
    MissingPrompt,
}

/// What a free-text message body amounts to.
#[derive(Debug)]
pub enum LegacyOutcome {
    /// Not a command at all; silently ignored.
    NotACommand,
    Invoke(Command),
    Rejected(ValidationError),
}

/// Structured command names route to one of the two operations.
#[derive(Debug)]
pub enum CommandKind {
    Chat,
    Clear,
    Other,
}

/// The four identifiers a chat request may name.
pub open spec fn allowed_model(m: Seq<char>) -> bool {
    ||| m == "davinci"@
    ||| m == "curie"@
    ||| m == "babbage"@
    ||| m == "ada"@
}

/// The one identifier that is functionally enabled.
pub open spec fn enabled_model(m: Seq<char>) -> bool {
    m == "davinci"@
}

/// The body is a `-chat ` invocation (the trailing space included).
pub open spec fn is_chat_invocation(s: Seq<char>) -> bool {
    s.len() >= "-chat "@.len() && s.subrange(0, "-chat "@.len() as int) == "-chat "@
}

/// The model token: what stands between the first whitespace and the
/// second (or the end), exactly as splitting on whitespace finds it.
pub open spec fn tok_model(s: Seq<char>) -> Option<Seq<char>> {
    match first_ws(s, 0) {
        None => None,
        Some(i) => match first_ws(s, i + 1) {
            None => Some(s.subrange(i + 1, s.len() as int)),
            Some(j) => Some(s.subrange(i + 1, j)),
        },
    }
}

/// The prompt: everything after the second whitespace, kept verbatim.
pub open spec fn tok_prompt(s: Seq<char>) -> Option<Seq<char>> {
    match first_ws(s, 0) {
        None => None,
        Some(i) => match first_ws(s, i + 1) {
            None => None,
            Some(j) => Some(s.subrange(j + 1, s.len() as int)),
        },
    }
}

/// The user-facing explanation for each rejection.
pub open spec fn validation_message(e: ValidationError) -> Seq<char> {
    match e {
        ValidationError::MissingModel => {
            "Model should be present and be one of: `davinci`, `curie`, `babbage`, and `ada`."@
        },
        ValidationError::UnknownModel(m) => {
            "Model should be one of: `davinci`, `curie`, `babbage`, and `ada`. Found `"@ + m@
                + "`."@
        },
        ValidationError::DisabledModel(m) => "Only `davinci` works. Found `"@ + m@ + "`."@,
        ValidationError::MissingPrompt => "A prompt is needed to give to the AI."@,
    }
}

impl ValidationError {
    pub fn message(&self) -> (r: String)
        ensures
            r@ == validation_message(*self),
    {
        match self {
            ValidationError::MissingModel => {
                String::from_str(
                    "Model should be present and be one of: `davinci`, `curie`, `babbage`, and `ada`.",
                )
            },
            ValidationError::UnknownModel(m) => {
                let mut r = String::from_str(
                    "Model should be one of: `davinci`, `curie`, `babbage`, and `ada`. Found `",
                );
                r.append(m.as_str());
                r.append("`.");
                proof {
                    assert(r@ =~= validation_message(*self));
                }
                r
            },
            ValidationError::DisabledModel(m) => {
                let mut r = String::from_str("Only `davinci` works. Found `");
                r.append(m.as_str());
                r.append("`.");
                proof {
                    assert(r@ =~= validation_message(*self));
                }
                r
            },
            ValidationError::MissingPrompt => {
                String::from_str("A prompt is needed to give to the AI.")
            },
        }
    }
}

/// Gate a model identifier: outside the allow-list, in the list but not
/// enabled, or accepted.
pub fn validate_model(model: &str) -> (r: Option<ValidationError>)
    ensures
        !allowed_model(model@) ==> (r matches Some(e) && e matches ValidationError::UnknownModel(f)
            && f@ == model@),
        allowed_model(model@) && !enabled_model(model@) ==> (r matches Some(e)
            && e matches ValidationError::DisabledModel(f) && f@ == model@),
        enabled_model(model@) ==> r is None,
{
    let in_list = str_eq(model, "davinci") || str_eq(model, "curie") || str_eq(model, "babbage")
        || str_eq(model, "ada");
    if !in_list {
        Some(ValidationError::UnknownModel(model.to_owned()))
    } else if !str_eq(model, "davinci") {
        Some(ValidationError::DisabledModel(model.to_owned()))
    } else {
        None
    }
}

/// Interpret a free-text message body against the legacy grammar.
///
/// `-clear` alone clears; a `-chat ` body is split on whitespace into the
/// command word, a model token, and the verbatim remainder as prompt; any
/// other body is no command at all.
pub fn parse_legacy(content: &str) -> (r: LegacyOutcome)
    ensures
        content@ == "-clear"@ ==> (r matches LegacyOutcome::Invoke(c) && c is Clear),
        content@ != "-clear"@ && !is_chat_invocation(content@) ==> r is NotACommand,
        is_chat_invocation(content@) ==> match tok_model(content@) {
            None => (r matches LegacyOutcome::Rejected(e) && e is MissingModel),
            Some(m) => {
                if !allowed_model(m) {
                    r matches LegacyOutcome::Rejected(e) && e matches ValidationError::UnknownModel(
                        f,
                    ) && f@ == m
                } else if !enabled_model(m) {
                    r matches LegacyOutcome::Rejected(e)
                        && e matches ValidationError::DisabledModel(f) && f@ == m
                } else {
                    match tok_prompt(content@) {
                        None => (r matches LegacyOutcome::Rejected(e) && e is MissingPrompt),
                        Some(p) => (r matches LegacyOutcome::Invoke(c) && c matches Command::Chat {
                            model,
                            prompt,
                        } && model@ == m && prompt@ == p),
                    }
                }
            },
        },
{
    if str_eq(content, "-clear") {
        proof {
            reveal_strlit("-clear");
            reveal_strlit("-chat ");
            assert("-clear"@[2] != "-chat "@[2]);
            assert(content@.subrange(0, 6) =~= content@);
            assert(!is_chat_invocation(content@));
        }
        return LegacyOutcome::Invoke(Command::Clear);
    }
    if !str_starts_with(content, "-chat ") {
        return LegacyOutcome::NotACommand;
    }
    let n = content.unicode_len();
    let i = match find_ws(content, 0) {
        Some(i) => i,
        None => {
            return LegacyOutcome::Rejected(ValidationError::MissingModel);
        },
    };
    match find_ws(content, i + 1) {
        None => {
            let model = content.substring_char(i + 1, n);
            match validate_model(model) {
                Some(e) => LegacyOutcome::Rejected(e),
                None => LegacyOutcome::Rejected(ValidationError::MissingPrompt),
            }
        },
        Some(j) => {
            let model = content.substring_char(i + 1, j);
            match validate_model(model) {
                Some(e) => LegacyOutcome::Rejected(e),
                None => {
                    let prompt = content.substring_char(j + 1, n);
                    LegacyOutcome::Invoke(
                        Command::Chat { model: model.to_owned(), prompt: prompt.to_owned() },
                    )
                },
            }
        },
    }
}

/// Route a structured command by name.
pub fn classify_command(name: &str) -> (k: CommandKind)
    ensures
        name@ == "clear"@ ==> k is Clear,
        name@ == "chat"@ ==> k is Chat,
        name@ != "clear"@ && name@ != "chat"@ ==> k is Other,
{
    proof {
        reveal_strlit("clear");
        reveal_strlit("chat");
        assert("clear"@.len() != "chat"@.len());
        assert("clear"@ != "chat"@);
    }
    if str_eq(name, "clear") {
        CommandKind::Clear
    } else if str_eq(name, "chat") {
        CommandKind::Chat
    } else {
        CommandKind::Other
    }
}

} // verus!
