//! The command line, and a whole run of the program.

use crate::export::{Exporter, ExporterView};
use crate::host::{Reply, ReplyView, Report, ReportView, Request, RequestView, STATUS_FAILED};
use crate::import::{Importer, ImporterView};
use crate::text::texts;
use vstd::prelude::*;

verus! {

/// What the command line asks for.
#[derive(Debug, PartialEq, Eq)]
pub enum Command {
    /// Write the folders of `directory` to the file `output`.
    Export { directory: String, output: String },
    /// Rename the folders of `directory` as the table `csv` says.
    Import { directory: String, csv: String },
}

/// A [`Command`] as plain values: what contracts speak of.
pub enum CommandView {
    Export { directory: Seq<char>, output: Seq<char> },
    Import { directory: Seq<char>, csv: Seq<char> },
}

impl View for Command {
    type V = CommandView;

    open spec fn view(&self) -> CommandView {
        match self {
            Command::Export { directory, output } => CommandView::Export {
                directory: directory@,
                output: output@,
            },
            Command::Import { directory, csv } => CommandView::Import {
                directory: directory@,
                csv: csv@,
            },
        }
    }
}

/// A command that may be absent, as plain values.
pub open spec fn maybe_command(c: Option<Command>) -> Option<CommandView> {
    match c {
        Some(c) => Some(c@),
        None => None,
    }
}

/// The command that the arguments `args` stand for, the program's own name
/// left out: `export` with a directory and, if wanted, an output file, which
/// is `folders.csv` otherwise; or `import` with a directory and a table.
/// Anything else is no command.
pub open spec fn command_of(args: Seq<Seq<char>>) -> Option<CommandView> {
    if args.len() == 2 && args[0] == "export"@ {
        Some(CommandView::Export { directory: args[1], output: "folders.csv"@ })
    } else if args.len() == 3 && args[0] == "export"@ {
        Some(CommandView::Export { directory: args[1], output: args[2] })
    } else if args.len() == 3 && args[0] == "import"@ {
        Some(CommandView::Import { directory: args[1], csv: args[2] })
    } else {
        None
    }
}

/// Reads the command line, the program's own name left out.
pub fn parse_command(args: &Vec<String>) -> (command: Option<Command>)
    ensures
        maybe_command(command) == command_of(texts(args@)),
{
    if args.len() < 2 || args.len() > 3 {
        return None;
    }
    proof {
        reveal_strlit("export");
        reveal_strlit("import");
    }
    let export = String::from_str("export");
    let import = String::from_str("import");
    if args[0] == export {
        let output = if args.len() == 3 {
            args[2].clone()
        } else {
            String::from_str("folders.csv")
        };
        Some(Command::Export { directory: args[1].clone(), output })
    } else if args.len() == 3 && args[0] == import {
        Some(Command::Import { directory: args[1].clone(), csv: args[2].clone() })
    } else {
        None
    }
}

/// A run of the program: an export, an import, or a command line that was
/// turned down, of which the user has been told or not yet.
#[derive(Debug, PartialEq, Eq)]
pub enum Session {
    Rejected { told: bool },
    Export(Exporter),
    Import(Importer),
}

/// A [`Session`] as plain values: what contracts speak of.
pub enum SessionView {
    Rejected { told: bool },
    Export(ExporterView),
    Import(ImporterView),
}

impl View for Session {
    type V = SessionView;

    open spec fn view(&self) -> SessionView {
        match self {
            Session::Rejected { told } => SessionView::Rejected { told: *told },
            Session::Export(e) => SessionView::Export(e@),
            Session::Import(i) => SessionView::Import(i@),
        }
    }
}

impl SessionView {
    /// The run that the arguments `args` begin.
    pub open spec fn start(args: Seq<Seq<char>>) -> SessionView {
        match command_of(args) {
            Some(CommandView::Export { directory, output }) => SessionView::Export(
                ExporterView::start(directory, output),
            ),
            Some(CommandView::Import { directory, csv }) => SessionView::Import(
                ImporterView::start(directory, csv),
            ),
            None => SessionView::Rejected { told: false },
        }
    }

    /// What the run asks for next.
    pub open spec fn request(self) -> RequestView {
        match self {
            SessionView::Rejected { told: false } => RequestView::Tell { report: ReportView::Usage },
            SessionView::Rejected { told: true } => RequestView::Exit { status: STATUS_FAILED },
            SessionView::Export(e) => e.request(),
            SessionView::Import(i) => i.request(),
        }
    }

    /// The run after the answer `reply`.
    pub open spec fn advance(self, reply: ReplyView) -> SessionView {
        match self {
            SessionView::Rejected { told } => SessionView::Rejected { told: true },
            SessionView::Export(e) => SessionView::Export(e.advance(reply)),
            SessionView::Import(i) => SessionView::Import(i.advance(reply)),
        }
    }
}

impl Session {
    /// Begins the run that the arguments `args` ask for, the program's own
    /// name left out.
    pub fn start(args: &Vec<String>) -> (session: Session)
        ensures
            session@ == SessionView::start(texts(args@)),
    {
        match parse_command(args) {
            Some(Command::Export { directory, output }) => Session::Export(
                Exporter::start(directory, output),
            ),
            Some(Command::Import { directory, csv }) => Session::Import(
                Importer::start(directory, csv),
            ),
            None => Session::Rejected { told: false },
        }
    }

    /// What the run needs done next.
    pub fn request(&self) -> (request: Request)
        ensures
            request@ == self@.request(),
    {
        match self {
            Session::Rejected { told } => {
                if *told {
                    Request::Exit { status: STATUS_FAILED }
                } else {
                    Request::Tell { report: Report::Usage }
                }
            },
            Session::Export(e) => e.request(),
            Session::Import(i) => i.request(),
        }
    }

    /// Takes the answer to the last request and moves on.
    pub fn advance(self, reply: Reply) -> (next: Session)
        ensures
            next@ == self@.advance(reply@),
    {
        match self {
            Session::Rejected { told } => Session::Rejected { told: true },
            Session::Export(e) => Session::Export(e.advance(reply)),
            Session::Import(i) => Session::Import(i.advance(reply)),
        }
    }
}

} // verus!
