//! The command schema registered with the gateway at startup: one `chat`
//! command with required `model` and `prompt` string options (the model
//! offering a single enumerated choice), and one `clear` command with no
//! options. Registration is safe to repeat; performing it is the gateway
//! adapter's part.

use vstd::prelude::*;
use vstd::string::*;

verus! {

/// One enumerated choice a string option offers.
pub struct OptionChoice {
    pub label: String,
    pub value: String,
}

/// One string option of a command.
pub struct CommandOption {
    pub name: String,
    pub description: String,
    pub required: bool,
    pub autocomplete: bool,
    pub choices: Vec<OptionChoice>,
}

/// One command of the schema.
pub struct CommandSchema {
    pub name: String,
    pub description: String,
    pub options: Vec<CommandOption>,
}

/// The full schema, exactly as registered.
pub fn command_schema() -> (cs: Vec<CommandSchema>)
    ensures
        cs@.len() == 2,
        cs@[0].name@ == "chat"@,
        cs@[0].description@ == "Chat with an AI model."@,
        cs@[0].options@.len() == 2,
        cs@[0].options@[0].name@ == "model"@,
        cs@[0].options@[0].description@ == "name of the model to user"@,
        cs@[0].options@[0].required,
        !cs@[0].options@[0].autocomplete,
        cs@[0].options@[0].choices@.len() == 1,
        cs@[0].options@[0].choices@[0].label@ == "Davinci"@,
        cs@[0].options@[0].choices@[0].value@ == "davinci"@,
        cs@[0].options@[1].name@ == "prompt"@,
        cs@[0].options@[1].description@ == "Prompt to pass onto the model"@,
        cs@[0].options@[1].required,
        !cs@[0].options@[1].autocomplete,
        cs@[0].options@[1].choices@.len() == 0,
        cs@[1].name@ == "clear"@,
        cs@[1].description@ == "Clear chat history"@,
        cs@[1].options@.len() == 0,
{
    let mut model_choices: Vec<OptionChoice> = Vec::new();
    model_choices.push(
        OptionChoice { label: String::from_str("Davinci"), value: String::from_str("davinci") },
    );
    let model_option = CommandOption {
        name: String::from_str("model"),
        description: String::from_str("name of the model to user"),
        required: true,
        autocomplete: false,
        choices: model_choices,
    };
    let prompt_option = CommandOption {
        name: String::from_str("prompt"),
        description: String::from_str("Prompt to pass onto the model"),
        required: true,
        autocomplete: false,
        choices: Vec::new(),
    };
    let mut chat_options: Vec<CommandOption> = Vec::new();
    chat_options.push(model_option);
    chat_options.push(prompt_option);
    let chat = CommandSchema {
        name: String::from_str("chat"),
        description: String::from_str("Chat with an AI model."),
        options: chat_options,
    };
    let clear = CommandSchema {
        name: String::from_str("clear"),
        description: String::from_str("Clear chat history"),
        options: Vec::new(),
    };
    let mut cs: Vec<CommandSchema> = Vec::new();
    cs.push(chat);
    cs.push(clear);
    cs
}

} // verus!
