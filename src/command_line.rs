use vstd::prelude::*;
use vstd::string::StringExecFns;

verus! {

/// The kind of progress an agent reports.
#[derive(PartialEq, Eq, Structural, Debug)]
pub enum PrintCommand {
    AICall,
    UnitTesting,
    Issue,
}

/// The console colors the reports use.
#[derive(PartialEq, Eq, Structural, Debug, Clone, Copy)]
pub enum TermColor {
    Green,
    Cyan,
    Magenta,
    Red,
    Blue,
}

/// The color in which an agent's position is printed.
pub const POSITION_COLOR: TermColor = TermColor::Green;

/// The color in which a question to the user is printed.
pub const QUESTION_COLOR: TermColor = TermColor::Blue;

impl PrintCommand {
    pub open spec fn spec_statement_color(&self) -> TermColor {
        match self {
            PrintCommand::AICall => TermColor::Cyan,
            PrintCommand::UnitTesting => TermColor::Magenta,
            PrintCommand::Issue => TermColor::Red,
        }
    }

    /// The color in which a statement of this kind is printed.
    pub fn statement_color(&self) -> (c: TermColor)
        ensures
            c == self.spec_statement_color(),
    {
        match self {
            PrintCommand::AICall => TermColor::Cyan,
            PrintCommand::UnitTesting => TermColor::Magenta,
            PrintCommand::Issue => TermColor::Red,
        }
    }

    /// The text that introduces a statement of the agent at `agent_position`.
    pub fn position_text(agent_position: &str) -> (r: String)
        ensures
            r@ == "Agent: "@ + agent_position@ + ": "@,
    {
        let mut r = String::from_str("Agent: ");
        r.append(agent_position);
        r.append(": ");
        r
    }
}

/// Each kind of report has a color of its own, and none is the color of the
/// agent's position or of a question.
pub proof fn lemma_statement_colors_distinct(a: PrintCommand, b: PrintCommand)
    ensures
        a != b ==> a.spec_statement_color() != b.spec_statement_color(),
        a.spec_statement_color() != POSITION_COLOR,
        a.spec_statement_color() != QUESTION_COLOR,
{
}

} // verus!
