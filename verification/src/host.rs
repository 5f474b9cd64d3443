//! What the library asks of the program around it, what that program
//! answers, and what it is told to print.

use crate::export::{entry_views, Entry, EntryView};
use crate::text::{decimal, decimal_text};
use vstd::prelude::*;

verus! {

/// A message for the user. `row` counts the data rows of the table from zero;
/// the user is shown the line of the file, which is `row + 2`.
#[derive(Debug, PartialEq, Eq)]
pub enum Report {
    /// The command line names no command, or has the wrong number of arguments.
    Usage,
    /// The current directory could not be determined.
    NoCurrentDir { detail: String },
    /// The directory to work on does not exist or is no directory.
    NotADirectory { path: String },
    /// The directory could not be listed.
    ListFailed { path: String, detail: String },
    /// The output file could not be created.
    CreateFailed { path: String, detail: String },
    /// The output file could not be written.
    WriteFailed { path: String, detail: String },
    /// The table to import does not exist or is no regular file.
    NotAFile { path: String },
    /// The table to import could not be read.
    CsvUnreadable { path: String, detail: String },
    /// The header of the table could not be read.
    HeaderUnreadable { path: String, detail: String },
    /// The header of the table is not `old_name,new_name`.
    InvalidHeaders { path: String },
    /// A data row could not be read.
    RowUnreadable { row: usize, detail: String },
    /// A data row has no old name or no new name.
    RowEmpty { row: usize },
    /// The folder to rename does not exist.
    SourceMissing { row: usize, path: String },
    /// Something with the new name exists already.
    TargetExists { row: usize, path: String },
    /// The file system refused the rename.
    RenameFailed { row: usize, old_name: String, new_name: String, detail: String },
    /// A folder was renamed.
    Renamed { old_name: String, new_name: String },
    /// The table was written.
    Wrote { path: String },
}

/// A [`Report`] as plain values: what contracts speak of.
pub enum ReportView {
    Usage,
    NoCurrentDir { detail: Seq<char> },
    NotADirectory { path: Seq<char> },
    ListFailed { path: Seq<char>, detail: Seq<char> },
    CreateFailed { path: Seq<char>, detail: Seq<char> },
    WriteFailed { path: Seq<char>, detail: Seq<char> },
    NotAFile { path: Seq<char> },
    CsvUnreadable { path: Seq<char>, detail: Seq<char> },
    HeaderUnreadable { path: Seq<char>, detail: Seq<char> },
    InvalidHeaders { path: Seq<char> },
    RowUnreadable { row: nat, detail: Seq<char> },
    RowEmpty { row: nat },
    SourceMissing { row: nat, path: Seq<char> },
    TargetExists { row: nat, path: Seq<char> },
    RenameFailed { row: nat, old_name: Seq<char>, new_name: Seq<char>, detail: Seq<char> },
    Renamed { old_name: Seq<char>, new_name: Seq<char> },
    Wrote { path: Seq<char> },
}

impl View for Report {
    type V = ReportView;

    open spec fn view(&self) -> ReportView {
        match self {
            Report::Usage => ReportView::Usage,
            Report::NoCurrentDir { detail } => ReportView::NoCurrentDir { detail: detail@ },
            Report::NotADirectory { path } => ReportView::NotADirectory { path: path@ },
            Report::ListFailed { path, detail } => ReportView::ListFailed {
                path: path@,
                detail: detail@,
            },
            Report::CreateFailed { path, detail } => ReportView::CreateFailed {
                path: path@,
                detail: detail@,
            },
            Report::WriteFailed { path, detail } => ReportView::WriteFailed {
                path: path@,
                detail: detail@,
            },
            Report::NotAFile { path } => ReportView::NotAFile { path: path@ },
            Report::CsvUnreadable { path, detail } => ReportView::CsvUnreadable {
                path: path@,
                detail: detail@,
            },
            Report::HeaderUnreadable { path, detail } => ReportView::HeaderUnreadable {
                path: path@,
                detail: detail@,
            },
            Report::InvalidHeaders { path } => ReportView::InvalidHeaders { path: path@ },
            Report::RowUnreadable { row, detail } => ReportView::RowUnreadable {
                row: *row as nat,
                detail: detail@,
            },
            Report::RowEmpty { row } => ReportView::RowEmpty { row: *row as nat },
            Report::SourceMissing { row, path } => ReportView::SourceMissing {
                row: *row as nat,
                path: path@,
            },
            Report::TargetExists { row, path } => ReportView::TargetExists {
                row: *row as nat,
                path: path@,
            },
            Report::RenameFailed { row, old_name, new_name, detail } => ReportView::RenameFailed {
                row: *row as nat,
                old_name: old_name@,
                new_name: new_name@,
                detail: detail@,
            },
            Report::Renamed { old_name, new_name } => ReportView::Renamed {
                old_name: old_name@,
                new_name: new_name@,
            },
            Report::Wrote { path } => ReportView::Wrote { path: path@ },
        }
    }
}

/// The line of the file on which data row `row` stands: the header is on the
/// first line, so the rows start on the second.
pub open spec fn line_of(row: nat) -> nat {
    row + 2
}

impl ReportView {
    /// Whether the report tells of something that went wrong. Such a report
    /// goes to standard error, any other to standard output.
    pub open spec fn is_failure(self) -> bool {
        !(self is Renamed || self is Wrote)
    }

    /// Whether the report ends the command with a failure.
    pub open spec fn is_fatal(self) -> bool {
        self is Usage || self is NoCurrentDir || self is NotADirectory || self is ListFailed
            || self is CreateFailed || self is WriteFailed || self is NotAFile
            || self is CsvUnreadable || self is HeaderUnreadable || self is InvalidHeaders
    }

    /// The text of the report.
    pub open spec fn message(self) -> Seq<char> {
        match self {
            ReportView::Usage =>
                "Usage: rename_tool export <directory_path> [output_csv]\nUsage: rename_tool import <directory_path> <input_csv>"@,
            ReportView::NoCurrentDir { detail } => "Failed to get current directory: "@ + detail,
            ReportView::NotADirectory { path } => "Not a valid directory: "@ + path,
            ReportView::ListFailed { path, detail } => "Failed to read directory "@ + path + ": "@
                + detail,
            ReportView::CreateFailed { path, detail } => "Failed to create CSV "@ + path + ": "@
                + detail,
            ReportView::WriteFailed { path, detail } => "Failed to write CSV "@ + path + ": "@
                + detail,
            ReportView::NotAFile { path } => "Not a valid CSV file: "@ + path,
            ReportView::CsvUnreadable { path, detail } => "Failed to read CSV "@ + path + ": "@
                + detail,
            ReportView::HeaderUnreadable { path, detail } => "Failed to read CSV headers "@ + path
                + ": "@ + detail,
            ReportView::InvalidHeaders { path } => "Invalid CSV headers in "@ + path
                + ". Expected: old_name,new_name"@,
            ReportView::RowUnreadable { row, detail } => "Failed to read CSV row "@ + decimal(
                line_of(row),
            ) + ": "@ + detail,
            ReportView::RowEmpty { row } => "skipping row "@ + decimal(line_of(row))
                + ": empty old_name or new_name"@,
            ReportView::SourceMissing { row, path } => "Skipping row "@ + decimal(line_of(row))
                + ": source folder does not exist: "@ + path,
            ReportView::TargetExists { row, path } => "Skipping row "@ + decimal(line_of(row))
                + ": target already exists: "@ + path,
            ReportView::RenameFailed { row, old_name, new_name, detail } => "Failed to rename row "@
                + decimal(line_of(row)) + " ("@ + old_name + " -> "@ + new_name + "): "@ + detail,
            ReportView::Renamed { old_name, new_name } => "Renamed: "@ + old_name + " -> "@
                + new_name,
            ReportView::Wrote { path } => "Wrote CSV: "@ + path,
        }
    }
}

/// The numeral of the line on which data row `row` stands.
fn line_text(row: usize) -> (r: String)
    ensures
        r@ == decimal(line_of(row as nat)),
{
    let line: u128 = row as u128 + 2;
    decimal_text(line)
}

impl Report {
    /// Whether the report tells of something that went wrong.
    pub fn is_failure(&self) -> (b: bool)
        ensures
            b == self@.is_failure(),
    {
        match self {
            Report::Renamed { .. } => false,
            Report::Wrote { .. } => false,
            _ => true,
        }
    }

    /// A copy of the report.
    pub fn duplicate(&self) -> (copy: Report)
        ensures
            copy@ == self@,
    {
        match self {
            Report::Usage => Report::Usage,
            Report::NoCurrentDir { detail } => Report::NoCurrentDir { detail: detail.clone() },
            Report::NotADirectory { path } => Report::NotADirectory { path: path.clone() },
            Report::ListFailed { path, detail } => Report::ListFailed {
                path: path.clone(),
                detail: detail.clone(),
            },
            Report::CreateFailed { path, detail } => Report::CreateFailed {
                path: path.clone(),
                detail: detail.clone(),
            },
            Report::WriteFailed { path, detail } => Report::WriteFailed {
                path: path.clone(),
                detail: detail.clone(),
            },
            Report::NotAFile { path } => Report::NotAFile { path: path.clone() },
            Report::CsvUnreadable { path, detail } => Report::CsvUnreadable {
                path: path.clone(),
                detail: detail.clone(),
            },
            Report::HeaderUnreadable { path, detail } => Report::HeaderUnreadable {
                path: path.clone(),
                detail: detail.clone(),
            },
            Report::InvalidHeaders { path } => Report::InvalidHeaders { path: path.clone() },
            Report::RowUnreadable { row, detail } => Report::RowUnreadable {
                row: *row,
                detail: detail.clone(),
            },
            Report::RowEmpty { row } => Report::RowEmpty { row: *row },
            Report::SourceMissing { row, path } => Report::SourceMissing {
                row: *row,
                path: path.clone(),
            },
            Report::TargetExists { row, path } => Report::TargetExists {
                row: *row,
                path: path.clone(),
            },
            Report::RenameFailed { row, old_name, new_name, detail } => Report::RenameFailed {
                row: *row,
                old_name: old_name.clone(),
                new_name: new_name.clone(),
                detail: detail.clone(),
            },
            Report::Renamed { old_name, new_name } => Report::Renamed {
                old_name: old_name.clone(),
                new_name: new_name.clone(),
            },
            Report::Wrote { path } => Report::Wrote { path: path.clone() },
        }
    }

    /// The text of the report.
    pub fn message(&self) -> (text: String)
        ensures
            text@ == self@.message(),
    {
        match self {
            Report::Usage => String::from_str(
                "Usage: rename_tool export <directory_path> [output_csv]\nUsage: rename_tool import <directory_path> <input_csv>",
            ),
            Report::NoCurrentDir { detail } => {
                let mut text = String::from_str("Failed to get current directory: ");
                text.append(detail.as_str());
                text
            },
            Report::NotADirectory { path } => {
                let mut text = String::from_str("Not a valid directory: ");
                text.append(path.as_str());
                text
            },
            Report::ListFailed { path, detail } => {
                let mut text = String::from_str("Failed to read directory ");
                text.append(path.as_str());
                text.append(": ");
                text.append(detail.as_str());
                text
            },
            Report::CreateFailed { path, detail } => {
                let mut text = String::from_str("Failed to create CSV ");
                text.append(path.as_str());
                text.append(": ");
                text.append(detail.as_str());
                text
            },
            Report::WriteFailed { path, detail } => {
                let mut text = String::from_str("Failed to write CSV ");
                text.append(path.as_str());
                text.append(": ");
                text.append(detail.as_str());
                text
            },
            Report::NotAFile { path } => {
                let mut text = String::from_str("Not a valid CSV file: ");
                text.append(path.as_str());
                text
            },
            Report::CsvUnreadable { path, detail } => {
                let mut text = String::from_str("Failed to read CSV ");
                text.append(path.as_str());
                text.append(": ");
                text.append(detail.as_str());
                text
            },
            Report::HeaderUnreadable { path, detail } => {
                let mut text = String::from_str("Failed to read CSV headers ");
                text.append(path.as_str());
                text.append(": ");
                text.append(detail.as_str());
                text
            },
            Report::InvalidHeaders { path } => {
                let mut text = String::from_str("Invalid CSV headers in ");
                text.append(path.as_str());
                text.append(". Expected: old_name,new_name");
                text
            },
            Report::RowUnreadable { row, detail } => {
                let mut text = String::from_str("Failed to read CSV row ");
                text.append(line_text(*row).as_str());
                text.append(": ");
                text.append(detail.as_str());
                text
            },
            Report::RowEmpty { row } => {
                let mut text = String::from_str("skipping row ");
                text.append(line_text(*row).as_str());
                text.append(": empty old_name or new_name");
                text
            },
            Report::SourceMissing { row, path } => {
                let mut text = String::from_str("Skipping row ");
                text.append(line_text(*row).as_str());
                text.append(": source folder does not exist: ");
                text.append(path.as_str());
                text
            },
            Report::TargetExists { row, path } => {
                let mut text = String::from_str("Skipping row ");
                text.append(line_text(*row).as_str());
                text.append(": target already exists: ");
                text.append(path.as_str());
                text
            },
            Report::RenameFailed { row, old_name, new_name, detail } => {
                let mut text = String::from_str("Failed to rename row ");
                text.append(line_text(*row).as_str());
                text.append(" (");
                text.append(old_name.as_str());
                text.append(" -> ");
                text.append(new_name.as_str());
                text.append("): ");
                text.append(detail.as_str());
                text
            },
            Report::Renamed { old_name, new_name } => {
                let mut text = String::from_str("Renamed: ");
                text.append(old_name.as_str());
                text.append(" -> ");
                text.append(new_name.as_str());
                text
            },
            Report::Wrote { path } => {
                let mut text = String::from_str("Wrote CSV: ");
                text.append(path.as_str());
                text
            },
        }
    }
}

/// What the library needs done next.
#[derive(Debug, PartialEq, Eq)]
pub enum Request {
    /// Tell the current directory. Answer: `Reply::Located`.
    CurrentDir,
    /// Tell whether `path` is an existing directory. Answer: `Reply::Flag`.
    IsDir { path: String },
    /// Tell whether `path` is an existing regular file. Answer: `Reply::Flag`.
    IsFile { path: String },
    /// Tell whether anything exists at `path`. Answer: `Reply::Flag`.
    Exists { path: String },
    /// List the entries of the directory `path`. Answer: `Reply::Listed`.
    ListDir { path: String },
    /// Read the file `path`. Answer: `Reply::Loaded`.
    ReadFile { path: String },
    /// Create the file `path`, or empty it if it exists. Answer:
    /// `Reply::Finished`.
    CreateFile { path: String },
    /// Write `bytes` to the file `path` and flush it. Answer: `Reply::Finished`.
    WriteFile { path: String, bytes: Vec<u8> },
    /// Rename `from` to `to`. Answer: `Reply::Finished`.
    Rename { from: String, to: String },
    /// Print the report: to standard error if it is a failure, else to
    /// standard output. Answer: `Reply::Ack`.
    Tell { report: Report },
    /// End the program with this exit status. There is nothing to answer.
    Exit { status: u8 },
}

/// A [`Request`] as plain values: what contracts speak of.
pub enum RequestView {
    CurrentDir,
    IsDir { path: Seq<char> },
    IsFile { path: Seq<char> },
    Exists { path: Seq<char> },
    ListDir { path: Seq<char> },
    ReadFile { path: Seq<char> },
    CreateFile { path: Seq<char> },
    WriteFile { path: Seq<char>, bytes: Seq<u8> },
    Rename { from: Seq<char>, to: Seq<char> },
    Tell { report: ReportView },
    Exit { status: u8 },
}

impl View for Request {
    type V = RequestView;

    open spec fn view(&self) -> RequestView {
        match self {
            Request::CurrentDir => RequestView::CurrentDir,
            Request::IsDir { path } => RequestView::IsDir { path: path@ },
            Request::IsFile { path } => RequestView::IsFile { path: path@ },
            Request::Exists { path } => RequestView::Exists { path: path@ },
            Request::ListDir { path } => RequestView::ListDir { path: path@ },
            Request::ReadFile { path } => RequestView::ReadFile { path: path@ },
            Request::CreateFile { path } => RequestView::CreateFile { path: path@ },
            Request::WriteFile { path, bytes } => RequestView::WriteFile {
                path: path@,
                bytes: bytes@,
            },
            Request::Rename { from, to } => RequestView::Rename { from: from@, to: to@ },
            Request::Tell { report } => RequestView::Tell { report: report@ },
            Request::Exit { status } => RequestView::Exit { status: *status },
        }
    }
}

/// The answer to a request. Where the work can fail, the answer holds the
/// text of the error.
#[derive(Debug, PartialEq, Eq)]
pub enum Reply {
    /// The report was printed.
    Ack,
    /// Yes or no.
    Flag(bool),
    /// The current directory.
    Located(Result<String, String>),
    /// The entries of a directory, in the order in which they were found.
    Listed(Result<Vec<Entry>, String>),
    /// The bytes of a file.
    Loaded(Result<Vec<u8>, String>),
    /// The work was done.
    Finished(Result<(), String>),
}

/// A [`Reply`] as plain values: what contracts speak of.
pub enum ReplyView {
    Ack,
    Flag(bool),
    Located(Result<Seq<char>, Seq<char>>),
    Listed(Result<Seq<EntryView>, Seq<char>>),
    Loaded(Result<Seq<u8>, Seq<char>>),
    Finished(Result<(), Seq<char>>),
}

impl View for Reply {
    type V = ReplyView;

    open spec fn view(&self) -> ReplyView {
        match self {
            Reply::Ack => ReplyView::Ack,
            Reply::Flag(yes) => ReplyView::Flag(*yes),
            Reply::Located(Ok(path)) => ReplyView::Located(Ok(path@)),
            Reply::Located(Err(detail)) => ReplyView::Located(Err(detail@)),
            Reply::Listed(Ok(entries)) => ReplyView::Listed(Ok(entry_views(entries@))),
            Reply::Listed(Err(detail)) => ReplyView::Listed(Err(detail@)),
            Reply::Loaded(Ok(bytes)) => ReplyView::Loaded(Ok(bytes@)),
            Reply::Loaded(Err(detail)) => ReplyView::Loaded(Err(detail@)),
            Reply::Finished(Ok(_)) => ReplyView::Finished(Ok(())),
            Reply::Finished(Err(detail)) => ReplyView::Finished(Err(detail@)),
        }
    }
}

/// Whether `reply` is of the kind that answers `request`.
pub open spec fn answers(request: RequestView, reply: ReplyView) -> bool {
    match request {
        RequestView::CurrentDir => reply is Located,
        RequestView::IsDir { path } => reply is Flag,
        RequestView::IsFile { path } => reply is Flag,
        RequestView::Exists { path } => reply is Flag,
        RequestView::ListDir { path } => reply is Listed,
        RequestView::ReadFile { path } => reply is Loaded,
        RequestView::CreateFile { path } => reply is Finished,
        RequestView::WriteFile { path, bytes } => reply is Finished,
        RequestView::Rename { from, to } => reply is Finished,
        RequestView::Tell { report } => reply is Ack,
        RequestView::Exit { status } => true,
    }
}

/// The exit status of a command that did its work.
pub const STATUS_DONE: u8 = 0;

/// The exit status of a command that failed.
pub const STATUS_FAILED: u8 = 1;

} // verus!
