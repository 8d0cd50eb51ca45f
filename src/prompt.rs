use vstd::prelude::*;
use vstd::string::StringExecFns;

use crate::llm::Message;

verus! {

/// The instruction text that asks the model to act as the function described by
/// `description`, applied to `input`, and to print only its result.
pub open spec fn instruction_text(description: Seq<char>, input: Seq<char>) -> Seq<char> {
    "FUNCTION: "@ + description
        + "\n    INSTRUCTION: You are a function printer. You ONLY print the results of functions.\n    Nothing else. No commentary. Here is the input to the function "@
        + input + ".\n    Print out what the function will return."@
}

/// `needle` occurs in `hay` as a contiguous run.
pub open spec fn contains_run(hay: Seq<char>, needle: Seq<char>) -> bool {
    exists|i: int|
        0 <= i && i + needle.len() <= hay.len() && #[trigger] hay.subrange(i, i + needle.len())
            == needle
}

/// Whatever the description and the input, the instruction text holds each of
/// them verbatim.
pub proof fn lemma_instruction_holds_description_and_input(description: Seq<char>, input: Seq<char>)
    ensures
        contains_run(instruction_text(description, input), description),
        contains_run(instruction_text(description, input), input),
{
    let t = instruction_text(description, input);
    let a = "FUNCTION: "@;
    let b = "\n    INSTRUCTION: You are a function printer. You ONLY print the results of functions.\n    Nothing else. No commentary. Here is the input to the function "@;
    let i = a.len() as int;
    let j = (a.len() + description.len() + b.len()) as int;
    assert(t.subrange(i, i + description.len()) =~= description);
    assert(t.subrange(j, j + input.len()) =~= input);
}

/// Builds the system message that asks the model to print what `ai_fun` would
/// return on `func_input`: the function's description and the input, verbatim,
/// inside a fixed instruction.
pub fn extend_ai_function<F: Fn(&str) -> &'static str>(ai_fun: F, func_input: &str) -> (r: Message)
    requires
        ai_fun.requires((func_input,)),
    ensures
        r.role@ == "system"@,
        exists|d: &'static str|
            #[trigger] ai_fun.ensures((func_input,), d) && r.content@ == instruction_text(
                d@,
                func_input@,
            ),
{
    let description = ai_fun(func_input);
    instruction_message(description, func_input)
}

/// The system message for a function described by `description`, applied to `input`.
pub fn instruction_message(description: &str, input: &str) -> (r: Message)
    ensures
        r.role@ == "system"@,
        r.content@ == instruction_text(description@, input@),
{
    let mut content = String::from_str("FUNCTION: ");
    content.append(description);
    content.append(
        "\n    INSTRUCTION: You are a function printer. You ONLY print the results of functions.\n    Nothing else. No commentary. Here is the input to the function ",
    );
    content.append(input);
    content.append(".\n    Print out what the function will return.");
    Message { role: String::from_str("system"), content }
}

} // verus!
