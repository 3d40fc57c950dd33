//! The commands of the command-line client: what each asks for, and the
//! texts that report how it went.

use crate::api::{canonical_url, resolve, Outcome, Paste, PasteView};
use crate::error::{PasteError, PasteErrorView};
use vstd::prelude::*;

verus! {

/// The arguments of one run.
#[derive(Debug, Clone, PartialEq, Eq)]
pub struct Cli {
    pub command: Commands,
}

/// The two commands.
#[derive(Debug, Clone, PartialEq, Eq)]
pub enum Commands {
    /// Read the paste that `val` refers to, into the file `output` where
    /// one is given.
    Get { output: Option<String>, val: String },
    /// Store the content of `file` as a new paste.
    New { file: String },
}

/// What a command asks for, once its reference is resolved.
#[derive(Debug, Clone, PartialEq, Eq)]
pub enum Plan {
    /// Fetch `paste`, then write it to `output` or show it.
    Fetch { paste: Paste, output: Option<String> },
    /// Read `file`, then create a paste of its content.
    Upload { file: String },
}

/// `Plan` with its texts as sequences of characters.
pub enum PlanView {
    Fetch { paste: PasteView, output: Option<Seq<char>> },
    Upload { file: Seq<char> },
}

/// An optional text as an optional sequence of characters.
pub open spec fn text_of(t: Option<String>) -> Option<Seq<char>> {
    match t {
        Some(s) => Some(s@),
        None => None,
    }
}

impl View for Plan {
    type V = PlanView;

    open spec fn view(&self) -> PlanView {
        match *self {
            Plan::Fetch { paste, output } => PlanView::Fetch {
                paste: paste@,
                output: text_of(output),
            },
            Plan::Upload { file } => PlanView::Upload { file: file@ },
        }
    }
}

/// The plan for a command: a `Get` resolves its reference and fails as
/// resolving does, a `New` always has a plan.
pub open spec fn plan_of(command: Commands) -> Result<PlanView, PasteErrorView> {
    match command {
        Commands::Get { output, val } => match resolve(val@) {
            Ok(paste) => Ok(PlanView::Fetch { paste, output: text_of(output) }),
            Err(e) => Err(e),
        },
        Commands::New { file } => Ok(PlanView::Upload { file: file@ }),
    }
}

/// The line that reports a paste written to a file.
pub open spec fn saved_text(id: Seq<char>, path: Seq<char>) -> Seq<char> {
    "Successfully wrote "@ + canonical_url(id) + " to "@ + path
}

/// A paste's content between a heading with its address and a closing
/// rule, each on lines of their own and set off by an empty line.
pub open spec fn framed_text(id: Seq<char>, content: Seq<char>) -> Seq<char> {
    "====\t"@ + canonical_url(id)
        + "\t======================================================\n\n"@ + content
        + "\n\n======================================================================================\n"@
}

/// The text that reports a new paste: one line for a paste stored whole,
/// a warning and a line for one stored in part.
pub open spec fn created_text(id: Seq<char>, outcome: Outcome) -> Seq<char> {
    match outcome {
        Outcome::Created => "Successfully created new paste at "@ + canonical_url(id),
        Outcome::PartiallyCreated => "FILE TOO BIG\nPastialy created new paste at "@
            + canonical_url(id),
    }
}

impl Cli {
    /// What this run is to do.
    pub fn plan(self) -> (r: Result<Plan, PasteError>)
        ensures
            match r {
                Ok(plan) => plan_of(self.command) == Ok::<PlanView, PasteErrorView>(plan@),
                Err(e) => plan_of(self.command) == Err::<PlanView, PasteErrorView>(e@),
            },
    {
        match self.command {
            Commands::Get { output, val } => match Paste::from(val.as_str()) {
                Ok(paste) => Ok(Plan::Fetch { paste, output }),
                Err(e) => Err(e),
            },
            Commands::New { file } => Ok(Plan::Upload { file }),
        }
    }
}

/// The line to show after `paste` was written to the file `path`.
pub fn saved_notice(paste: &Paste, path: &str) -> (r: String)
    ensures
        r@ == saved_text(paste.id@, path@),
{
    String::from_str("Successfully wrote ").concat(paste.get_url().as_str()).concat(" to ").concat(
        path,
    )
}

/// The text to show for `paste` where its content goes to the terminal.
pub fn framed(paste: &Paste, content: &str) -> (r: String)
    ensures
        r@ == framed_text(paste.id@, content@),
{
    String::from_str("====\t").concat(paste.get_url().as_str()).concat(
        "\t======================================================\n\n",
    ).concat(content).concat(
        "\n\n======================================================================================\n",
    )
}

/// The text to show after a create request made `paste`.
pub fn created_notice(paste: &Paste) -> (r: String)
    requires
        paste.outcome.is_some(),
    ensures
        r@ == created_text(paste.id@, paste.outcome.unwrap()),
{
    match paste.outcome {
        Some(Outcome::PartiallyCreated) => String::from_str(
            "FILE TOO BIG\nPastialy created new paste at ",
        ).concat(paste.get_url().as_str()),
        _ => String::from_str("Successfully created new paste at ").concat(
            paste.get_url().as_str(),
        ),
    }
}

} // verus!
