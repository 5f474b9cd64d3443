//! Import: reading the table of renames.

use crate::host::{
    Reply, ReplyView, Report, ReportView, Request, RequestView, STATUS_DONE, STATUS_FAILED,
};
use crate::paths::{join, path_join, resolve_path, resolved};
use crate::table::{csv_header, csv_rows, read_header, read_rows, record_view};
use crate::text::{is_blank, lemma_blank_trims_to_nothing, texts, trim, trimmed};
use vstd::prelude::*;

verus! {

/// One data row of the table.
#[derive(Debug, PartialEq, Eq)]
pub enum Row {
    /// The row could not be read; `detail` says why.
    Unreadable { detail: String },
    /// The first two columns of the row, trimmed. A column that the row does
    /// not have counts as empty.
    Record { old_name: String, new_name: String },
}

/// A [`Row`] as plain values: what contracts speak of.
pub enum RowView {
    Unreadable { detail: Seq<char> },
    Record { old_name: Seq<char>, new_name: Seq<char> },
}

impl View for Row {
    type V = RowView;

    open spec fn view(&self) -> RowView {
        match self {
            Row::Unreadable { detail } => RowView::Unreadable { detail: detail@ },
            Row::Record { old_name, new_name } => RowView::Record {
                old_name: old_name@,
                new_name: new_name@,
            },
        }
    }
}

/// The views of a sequence of rows.
pub open spec fn row_views(rows: Seq<Row>) -> Seq<RowView> {
    rows.map_values(|r: Row| r@)
}

/// Why a table cannot be imported at all.
#[derive(Debug, PartialEq, Eq)]
pub enum TableError {
    /// The header record could not be read; `detail` says why.
    HeaderUnreadable { detail: String },
    /// The header does not start with the columns `old_name` and `new_name`.
    InvalidHeaders,
}

/// A [`TableError`] as plain values: what contracts speak of.
pub enum TableErrorView {
    HeaderUnreadable { detail: Seq<char> },
    InvalidHeaders,
}

impl View for TableError {
    type V = TableErrorView;

    open spec fn view(&self) -> TableErrorView {
        match self {
            TableError::HeaderUnreadable { detail } => TableErrorView::HeaderUnreadable {
                detail: detail@,
            },
            TableError::InvalidHeaders => TableErrorView::InvalidHeaders,
        }
    }
}

/// A table or the reason why there is none, as plain values.
pub open spec fn table_view(t: Result<Vec<Row>, TableError>) -> Result<
    Seq<RowView>,
    TableErrorView,
> {
    match t {
        Ok(rows) => Ok(row_views(rows@)),
        Err(e) => Err(e@),
    }
}

/// Whether a header is that of a table of renames: `old_name` in the first
/// column and `new_name` in the second, exactly. Further columns are not
/// looked at.
pub open spec fn header_ok(header: Seq<Seq<char>>) -> bool {
    &&& header.len() >= 2
    &&& header[0] == "old_name"@
    &&& header[1] == "new_name"@
}

/// The field in column `i`, empty if the record has no such column.
pub open spec fn field_at(fields: Seq<Seq<char>>, i: int) -> Seq<char> {
    if 0 <= i < fields.len() {
        fields[i]
    } else {
        Seq::empty()
    }
}

/// The row that a record's fields stand for.
pub open spec fn record_row(fields: Seq<Seq<char>>) -> RowView {
    RowView::Record {
        old_name: trimmed(field_at(fields, 0)),
        new_name: trimmed(field_at(fields, 1)),
    }
}

/// The row for what the reader gave: fields, or the text of an error.
pub open spec fn row_of(read: Result<Seq<Seq<char>>, Seq<char>>) -> RowView {
    match read {
        Ok(fields) => record_row(fields),
        Err(detail) => RowView::Unreadable { detail },
    }
}

/// The table for a header and data rows as the reader gave them.
pub open spec fn import_table(
    header: Result<Seq<Seq<char>>, Seq<char>>,
    rows: Seq<Result<Seq<Seq<char>>, Seq<char>>>,
) -> Result<Seq<RowView>, TableErrorView> {
    match header {
        Err(detail) => Err(TableErrorView::HeaderUnreadable { detail }),
        Ok(h) => if header_ok(h) {
            Ok(rows.map_values(|r: Result<Seq<Seq<char>>, Seq<char>>| row_of(r)))
        } else {
            Err(TableErrorView::InvalidHeaders)
        },
    }
}

/// Checks the header of a table of renames.
pub fn check_header(header: &Vec<String>) -> (ok: bool)
    ensures
        ok == header_ok(texts(header@)),
{
    if header.len() < 2 {
        return false;
    }
    let first = String::from_str("old_name");
    let second = String::from_str("new_name");
    header[0] == first && header[1] == second
}

/// The trimmed field in column `i` of a record.
fn trimmed_field(fields: &Vec<String>, i: usize) -> (field: String)
    ensures
        field@ == trimmed(field_at(texts(fields@), i as int)),
{
    if i < fields.len() {
        String::from_str(trim(fields[i].as_str()))
    } else {
        proof {
            assert(trimmed(Seq::<char>::empty()) == Seq::<char>::empty());
        }
        String::new()
    }
}

/// Takes the old and the new name out of a record: its first two fields,
/// trimmed, each empty where the record is too short.
pub fn parse_row(fields: &Vec<String>) -> (row: Row)
    ensures
        row@ == record_row(texts(fields@)),
{
    let old_name = trimmed_field(fields, 0);
    let new_name = trimmed_field(fields, 1);
    Row::Record { old_name, new_name }
}

/// Reads a table of renames from the bytes of a CSV file. The header is
/// checked first; then every data row is taken in, readable or not.
pub fn read_table(bytes: &Vec<u8>) -> (table: Result<Vec<Row>, TableError>)
    ensures
        table_view(table) == import_table(csv_header(bytes@), csv_rows(bytes@)),
{
    let header = match read_header(bytes) {
        Ok(header) => header,
        Err(detail) => {
            return Err(TableError::HeaderUnreadable { detail });
        },
    };
    if !check_header(&header) {
        return Err(TableError::InvalidHeaders);
    }
    let read = read_rows(bytes);
    let ghost named = read@.map_values(|r: Result<Vec<String>, String>| record_view(r));
    let mut rows: Vec<Row> = Vec::new();
    let mut i: usize = 0;
    while i < read.len()
        invariant
            i <= read.len(),
            rows.len() == i,
            named.len() == read.len(),
            forall|k: int| 0 <= k < read.len() ==> named[k] == record_view(#[trigger] read@[k]),
            row_views(rows@) == named.take(i as int).map_values(
                |r: Result<Seq<Seq<char>>, Seq<char>>| row_of(r),
            ),
        decreases read.len() - i,
    {
        let row = match &read[i] {
            Ok(fields) => parse_row(fields),
            Err(detail) => Row::Unreadable { detail: detail.clone() },
        };
        assert(row@ == row_of(named[i as int]));
        let ghost prior = rows@;
        rows.push(row);
        proof {
            let target = named.take(i + 1).map_values(
                |r: Result<Seq<Seq<char>>, Seq<char>>| row_of(r),
            );
            assert(row_views(rows@).len() == target.len());
            assert forall|k: int| 0 <= k < target.len() implies row_views(rows@)[k] == target[k] by {
                if k < i {
                    assert(rows@[k] == prior[k]);
                    assert(row_views(prior)[k] == prior[k]@);
                    assert(named.take(i as int)[k] == named[k]);
                }
            }
            assert(row_views(rows@) =~= target);
        }
        i += 1;
    }
    assert(named.take(i as int) == named);
    Ok(rows)
}

/// One rename that is being tried: the row it comes from, the two names, and
/// the two paths under the directory.
#[derive(Debug, PartialEq, Eq)]
pub struct Job {
    pub row: usize,
    pub old_name: String,
    pub new_name: String,
    pub source: String,
    pub target: String,
}

/// A [`Job`] as plain values: what contracts speak of.
pub struct JobView {
    pub row: nat,
    pub old_name: Seq<char>,
    pub new_name: Seq<char>,
    pub source: Seq<char>,
    pub target: Seq<char>,
}

impl View for Job {
    type V = JobView;

    open spec fn view(&self) -> JobView {
        JobView {
            row: self.row as nat,
            old_name: self.old_name@,
            new_name: self.new_name@,
            source: self.source@,
            target: self.target@,
        }
    }
}

/// The rows of a table that is being applied to the directory `dir`; `next`
/// is the row to go on with once the current one is dealt with.
#[derive(Debug, PartialEq, Eq)]
pub struct Batch {
    pub dir: String,
    pub rows: Vec<Row>,
    pub next: usize,
}

/// A [`Batch`] as plain values: what contracts speak of.
pub struct BatchView {
    pub dir: Seq<char>,
    pub rows: Seq<RowView>,
    pub next: nat,
}

impl View for Batch {
    type V = BatchView;

    open spec fn view(&self) -> BatchView {
        BatchView { dir: self.dir@, rows: row_views(self.rows@), next: self.next as nat }
    }
}

/// How far an import has come.
#[derive(Debug, PartialEq, Eq)]
pub enum ImportStage {
    /// The directory is relative: the current directory was asked for.
    LocatingDir,
    /// It was asked whether `dir` is a directory.
    ProbingDir { dir: String },
    /// The table's path is relative: the current directory was asked for.
    LocatingCsv { dir: String },
    /// It was asked whether `csv` is a regular file.
    ProbingCsv { dir: String, csv: String },
    /// The bytes of `csv` were asked for.
    Loading { dir: String, csv: String },
    /// It was asked whether the folder to rename exists.
    Source { batch: Batch, job: Job },
    /// It was asked whether the new name is taken.
    Target { batch: Batch, job: Job },
    /// The rename was asked for.
    Moving { batch: Batch, job: Job },
    /// What became of a row is being printed.
    Noting { batch: Batch, report: Report },
    /// A fatal report is being printed.
    Telling { report: Report },
    /// The command has ended with `status`.
    Stopped { status: u8 },
}

/// An [`ImportStage`] as plain values: what contracts speak of.
pub enum ImportStageView {
    LocatingDir,
    ProbingDir { dir: Seq<char> },
    LocatingCsv { dir: Seq<char> },
    ProbingCsv { dir: Seq<char>, csv: Seq<char> },
    Loading { dir: Seq<char>, csv: Seq<char> },
    Source { batch: BatchView, job: JobView },
    Target { batch: BatchView, job: JobView },
    Moving { batch: BatchView, job: JobView },
    Noting { batch: BatchView, report: ReportView },
    Telling { report: ReportView },
    Stopped { status: u8 },
}

impl View for ImportStage {
    type V = ImportStageView;

    open spec fn view(&self) -> ImportStageView {
        match self {
            ImportStage::LocatingDir => ImportStageView::LocatingDir,
            ImportStage::ProbingDir { dir } => ImportStageView::ProbingDir { dir: dir@ },
            ImportStage::LocatingCsv { dir } => ImportStageView::LocatingCsv { dir: dir@ },
            ImportStage::ProbingCsv { dir, csv } => ImportStageView::ProbingCsv {
                dir: dir@,
                csv: csv@,
            },
            ImportStage::Loading { dir, csv } => ImportStageView::Loading { dir: dir@, csv: csv@ },
            ImportStage::Source { batch, job } => ImportStageView::Source {
                batch: batch@,
                job: job@,
            },
            ImportStage::Target { batch, job } => ImportStageView::Target {
                batch: batch@,
                job: job@,
            },
            ImportStage::Moving { batch, job } => ImportStageView::Moving {
                batch: batch@,
                job: job@,
            },
            ImportStage::Noting { batch, report } => ImportStageView::Noting {
                batch: batch@,
                report: report@,
            },
            ImportStage::Telling { report } => ImportStageView::Telling { report: report@ },
            ImportStage::Stopped { status } => ImportStageView::Stopped { status: *status },
        }
    }
}

/// An import in progress: the directory and the table's path as they were
/// given, and the stage reached.
#[derive(Debug, PartialEq, Eq)]
pub struct Importer {
    pub directory: String,
    pub csv: String,
    pub stage: ImportStage,
}

/// An [`Importer`] as plain values: what contracts speak of.
pub struct ImporterView {
    pub directory: Seq<char>,
    pub csv: Seq<char>,
    pub stage: ImportStageView,
}

impl View for Importer {
    type V = ImporterView;

    open spec fn view(&self) -> ImporterView {
        ImporterView { directory: self.directory@, csv: self.csv@, stage: self.stage@ }
    }
}

/// The stage in which row `at` of `rows` is taken up: the end of the command
/// if there is no such row; a report for a row that cannot be read or lacks a
/// name; else the question whether the folder to rename exists.
pub open spec fn enter(dir: Seq<char>, rows: Seq<RowView>, at: nat) -> ImportStageView {
    if at >= rows.len() {
        ImportStageView::Stopped { status: STATUS_DONE }
    } else {
        let batch = BatchView { dir, rows, next: at + 1 };
        match rows[at as int] {
            RowView::Unreadable { detail } => ImportStageView::Noting {
                batch,
                report: ReportView::RowUnreadable { row: at, detail },
            },
            RowView::Record { old_name, new_name } => if old_name.len() == 0 || new_name.len()
                == 0 {
                ImportStageView::Noting { batch, report: ReportView::RowEmpty { row: at } }
            } else {
                ImportStageView::Source {
                    batch,
                    job: JobView {
                        row: at,
                        old_name,
                        new_name,
                        source: path_join(dir, old_name),
                        target: path_join(dir, new_name),
                    },
                }
            },
        }
    }
}

/// The stage that follows on a table that was read, or could not be.
pub open spec fn opened(
    dir: Seq<char>,
    csv: Seq<char>,
    table: Result<Seq<RowView>, TableErrorView>,
) -> ImportStageView {
    match table {
        Ok(rows) => enter(dir, rows, 0),
        Err(TableErrorView::HeaderUnreadable { detail }) => ImportStageView::Telling {
            report: ReportView::HeaderUnreadable { path: csv, detail },
        },
        Err(TableErrorView::InvalidHeaders) => ImportStageView::Telling {
            report: ReportView::InvalidHeaders { path: csv },
        },
    }
}

/// A row whose old name or new name is nothing but white space is skipped as
/// empty: taking it up leads to that report and to no question about any
/// folder.
pub proof fn law_blank_name_is_skipped(
    dir: Seq<char>,
    rows: Seq<RowView>,
    at: nat,
    fields: Seq<Seq<char>>,
)
    requires
        at < rows.len(),
        rows[at as int] == record_row(fields),
        is_blank(field_at(fields, 0)) || is_blank(field_at(fields, 1)),
    ensures
        enter(dir, rows, at) == (ImportStageView::Noting {
            batch: BatchView { dir, rows, next: at + 1 },
            report: ReportView::RowEmpty { row: at },
        }),
{
    if is_blank(field_at(fields, 0)) {
        lemma_blank_trims_to_nothing(field_at(fields, 0));
    } else {
        lemma_blank_trims_to_nothing(field_at(fields, 1));
    }
}

impl ImporterView {
    /// An import of the table `csv` into `directory`, before anything is done.
    pub open spec fn start(directory: Seq<char>, csv: Seq<char>) -> ImporterView {
        ImporterView {
            directory,
            csv,
            stage: match resolved(directory, None) {
                Some(dir) => ImportStageView::ProbingDir { dir },
                None => ImportStageView::LocatingDir,
            },
        }
    }

    /// What the import asks for in its stage.
    pub open spec fn request(self) -> RequestView {
        match self.stage {
            ImportStageView::LocatingDir => RequestView::CurrentDir,
            ImportStageView::ProbingDir { dir } => RequestView::IsDir { path: dir },
            ImportStageView::LocatingCsv { dir } => RequestView::CurrentDir,
            ImportStageView::ProbingCsv { dir, csv } => RequestView::IsFile { path: csv },
            ImportStageView::Loading { dir, csv } => RequestView::ReadFile { path: csv },
            ImportStageView::Source { batch, job } => RequestView::IsDir { path: job.source },
            ImportStageView::Target { batch, job } => RequestView::Exists { path: job.target },
            ImportStageView::Moving { batch, job } => RequestView::Rename {
                from: job.source,
                to: job.target,
            },
            ImportStageView::Noting { batch, report } => RequestView::Tell { report },
            ImportStageView::Telling { report } => RequestView::Tell { report },
            ImportStageView::Stopped { status } => RequestView::Exit { status },
        }
    }

    /// The stage that follows on the answer `reply`. An answer that does not
    /// fit the request ends the import with a failure.
    pub open spec fn next_stage(self, reply: ReplyView) -> ImportStageView {
        match (self.stage, reply) {
            (ImportStageView::LocatingDir, ReplyView::Located(Ok(current))) => {
                match resolved(self.directory, Some(current)) {
                    Some(dir) => ImportStageView::ProbingDir { dir },
                    None => ImportStageView::Stopped { status: STATUS_FAILED },
                }
            },
            (ImportStageView::LocatingDir, ReplyView::Located(Err(detail))) => {
                ImportStageView::Telling { report: ReportView::NoCurrentDir { detail } }
            },
            (ImportStageView::ProbingDir { dir }, ReplyView::Flag(true)) => {
                match resolved(self.csv, None) {
                    Some(csv) => ImportStageView::ProbingCsv { dir, csv },
                    None => ImportStageView::LocatingCsv { dir },
                }
            },
            (ImportStageView::ProbingDir { dir }, ReplyView::Flag(false)) => {
                ImportStageView::Telling { report: ReportView::NotADirectory { path: dir } }
            },
            (ImportStageView::LocatingCsv { dir }, ReplyView::Located(Ok(current))) => {
                match resolved(self.csv, Some(current)) {
                    Some(csv) => ImportStageView::ProbingCsv { dir, csv },
                    None => ImportStageView::Stopped { status: STATUS_FAILED },
                }
            },
            (ImportStageView::LocatingCsv { dir }, ReplyView::Located(Err(detail))) => {
                ImportStageView::Telling { report: ReportView::NoCurrentDir { detail } }
            },
            (ImportStageView::ProbingCsv { dir, csv }, ReplyView::Flag(true)) => {
                ImportStageView::Loading { dir, csv }
            },
            (ImportStageView::ProbingCsv { dir, csv }, ReplyView::Flag(false)) => {
                ImportStageView::Telling { report: ReportView::NotAFile { path: csv } }
            },
            (ImportStageView::Loading { dir, csv }, ReplyView::Loaded(Ok(bytes))) => opened(
                dir,
                csv,
                import_table(csv_header(bytes), csv_rows(bytes)),
            ),
            (ImportStageView::Loading { dir, csv }, ReplyView::Loaded(Err(detail))) => {
                ImportStageView::Telling { report: ReportView::CsvUnreadable { path: csv, detail } }
            },
            (ImportStageView::Source { batch, job }, ReplyView::Flag(true)) => {
                ImportStageView::Target { batch, job }
            },
            (ImportStageView::Source { batch, job }, ReplyView::Flag(false)) => {
                ImportStageView::Noting {
                    batch,
                    report: ReportView::SourceMissing { row: job.row, path: job.source },
                }
            },
            (ImportStageView::Target { batch, job }, ReplyView::Flag(false)) => {
                ImportStageView::Moving { batch, job }
            },
            (ImportStageView::Target { batch, job }, ReplyView::Flag(true)) => {
                ImportStageView::Noting {
                    batch,
                    report: ReportView::TargetExists { row: job.row, path: job.target },
                }
            },
            (ImportStageView::Moving { batch, job }, ReplyView::Finished(Ok(_))) => {
                ImportStageView::Noting {
                    batch,
                    report: ReportView::Renamed { old_name: job.old_name, new_name: job.new_name },
                }
            },
            (ImportStageView::Moving { batch, job }, ReplyView::Finished(Err(detail))) => {
                ImportStageView::Noting {
                    batch,
                    report: ReportView::RenameFailed {
                        row: job.row,
                        old_name: job.old_name,
                        new_name: job.new_name,
                        detail,
                    },
                }
            },
            (ImportStageView::Noting { batch, report }, ReplyView::Ack) => enter(
                batch.dir,
                batch.rows,
                batch.next,
            ),
            (ImportStageView::Telling { report }, ReplyView::Ack) => ImportStageView::Stopped {
                status: STATUS_FAILED,
            },
            (ImportStageView::Stopped { status }, _) => ImportStageView::Stopped { status },
            _ => ImportStageView::Stopped { status: STATUS_FAILED },
        }
    }

    /// The import after the answer `reply`.
    pub open spec fn advance(self, reply: ReplyView) -> ImporterView {
        ImporterView { stage: self.next_stage(reply), ..self }
    }
}

/// Takes up row `at` of `rows`.
fn enter_row(dir: String, rows: Vec<Row>, at: usize) -> (stage: ImportStage)
    ensures
        stage@ == enter(dir@, row_views(rows@), at as nat),
{
    if at >= rows.len() {
        return ImportStage::Stopped { status: STATUS_DONE };
    }
    let next: usize = at + 1;
    assert(row_views(rows@)[at as int] == rows@[at as int]@);
    match &rows[at] {
        Row::Unreadable { detail } => {
            let report = Report::RowUnreadable { row: at, detail: detail.clone() };
            ImportStage::Noting { batch: Batch { dir, rows, next }, report }
        },
        Row::Record { old_name, new_name } => {
            if old_name.as_str().is_empty() || new_name.as_str().is_empty() {
                ImportStage::Noting {
                    batch: Batch { dir, rows, next },
                    report: Report::RowEmpty { row: at },
                }
            } else {
                let job = Job {
                    row: at,
                    old_name: old_name.clone(),
                    new_name: new_name.clone(),
                    source: join(dir.as_str(), old_name.as_str()),
                    target: join(dir.as_str(), new_name.as_str()),
                };
                ImportStage::Source { batch: Batch { dir, rows, next }, job }
            }
        },
    }
}

/// Takes up a table that was read, or could not be.
fn open_table(dir: String, csv: String, table: Result<Vec<Row>, TableError>) -> (stage:
    ImportStage)
    ensures
        stage@ == opened(dir@, csv@, table_view(table)),
{
    match table {
        Ok(rows) => enter_row(dir, rows, 0),
        Err(TableError::HeaderUnreadable { detail }) => ImportStage::Telling {
            report: Report::HeaderUnreadable { path: csv, detail },
        },
        Err(TableError::InvalidHeaders) => ImportStage::Telling {
            report: Report::InvalidHeaders { path: csv },
        },
    }
}

impl Importer {
    /// Begins an import of the table `csv` into `directory`.
    pub fn start(directory: String, csv: String) -> (importer: Importer)
        ensures
            importer@ == ImporterView::start(directory@, csv@),
    {
        let stage = match resolve_path(directory.as_str(), &None) {
            Some(dir) => ImportStage::ProbingDir { dir },
            None => ImportStage::LocatingDir,
        };
        Importer { directory, csv, stage }
    }

    /// What the import needs done next.
    pub fn request(&self) -> (request: Request)
        ensures
            request@ == self@.request(),
    {
        match &self.stage {
            ImportStage::LocatingDir => Request::CurrentDir,
            ImportStage::ProbingDir { dir } => Request::IsDir { path: dir.clone() },
            ImportStage::LocatingCsv { .. } => Request::CurrentDir,
            ImportStage::ProbingCsv { csv, .. } => Request::IsFile { path: csv.clone() },
            ImportStage::Loading { csv, .. } => Request::ReadFile { path: csv.clone() },
            ImportStage::Source { job, .. } => Request::IsDir { path: job.source.clone() },
            ImportStage::Target { job, .. } => Request::Exists { path: job.target.clone() },
            ImportStage::Moving { job, .. } => Request::Rename {
                from: job.source.clone(),
                to: job.target.clone(),
            },
            ImportStage::Noting { report, .. } => Request::Tell { report: report.duplicate() },
            ImportStage::Telling { report } => Request::Tell { report: report.duplicate() },
            ImportStage::Stopped { status } => Request::Exit { status: *status },
        }
    }

    /// Takes the answer to the last request and moves on.
    pub fn advance(self, reply: Reply) -> (next: Importer)
        ensures
            next@ == self@.advance(reply@),
    {
        let Importer { directory, csv, stage } = self;
        let stage = match (stage, reply) {
            (ImportStage::LocatingDir, Reply::Located(Ok(current))) => {
                match resolve_path(directory.as_str(), &Some(current)) {
                    Some(dir) => ImportStage::ProbingDir { dir },
                    None => ImportStage::Stopped { status: STATUS_FAILED },
                }
            },
            (ImportStage::LocatingDir, Reply::Located(Err(detail))) => ImportStage::Telling {
                report: Report::NoCurrentDir { detail },
            },
            (ImportStage::ProbingDir { dir }, Reply::Flag(true)) => {
                match resolve_path(csv.as_str(), &None) {
                    Some(path) => ImportStage::ProbingCsv { dir, csv: path },
                    None => ImportStage::LocatingCsv { dir },
                }
            },
            (ImportStage::ProbingDir { dir }, Reply::Flag(false)) => ImportStage::Telling {
                report: Report::NotADirectory { path: dir },
            },
            (ImportStage::LocatingCsv { dir }, Reply::Located(Ok(current))) => {
                match resolve_path(csv.as_str(), &Some(current)) {
                    Some(path) => ImportStage::ProbingCsv { dir, csv: path },
                    None => ImportStage::Stopped { status: STATUS_FAILED },
                }
            },
            (ImportStage::LocatingCsv { dir }, Reply::Located(Err(detail))) => {
                ImportStage::Telling { report: Report::NoCurrentDir { detail } }
            },
            (ImportStage::ProbingCsv { dir, csv: path }, Reply::Flag(true)) => {
                ImportStage::Loading { dir, csv: path }
            },
            (ImportStage::ProbingCsv { dir, csv: path }, Reply::Flag(false)) => {
                ImportStage::Telling { report: Report::NotAFile { path } }
            },
            (ImportStage::Loading { dir, csv: path }, Reply::Loaded(Ok(bytes))) => {
                let table = read_table(&bytes);
                open_table(dir, path, table)
            },
            (ImportStage::Loading { dir, csv: path }, Reply::Loaded(Err(detail))) => {
                ImportStage::Telling { report: Report::CsvUnreadable { path, detail } }
            },
            (ImportStage::Source { batch, job }, Reply::Flag(true)) => ImportStage::Target {
                batch,
                job,
            },
            (ImportStage::Source { batch, job }, Reply::Flag(false)) => ImportStage::Noting {
                batch,
                report: Report::SourceMissing { row: job.row, path: job.source },
            },
            (ImportStage::Target { batch, job }, Reply::Flag(false)) => ImportStage::Moving {
                batch,
                job,
            },
            (ImportStage::Target { batch, job }, Reply::Flag(true)) => ImportStage::Noting {
                batch,
                report: Report::TargetExists { row: job.row, path: job.target },
            },
            (ImportStage::Moving { batch, job }, Reply::Finished(Ok(_))) => ImportStage::Noting {
                batch,
                report: Report::Renamed { old_name: job.old_name, new_name: job.new_name },
            },
            (ImportStage::Moving { batch, job }, Reply::Finished(Err(detail))) => {
                ImportStage::Noting {
                    batch,
                    report: Report::RenameFailed {
                        row: job.row,
                        old_name: job.old_name,
                        new_name: job.new_name,
                        detail,
                    },
                }
            },
            (ImportStage::Noting { batch, report }, Reply::Ack) => {
                let Batch { dir, rows, next } = batch;
                enter_row(dir, rows, next)
            },
            (ImportStage::Telling { report }, Reply::Ack) => ImportStage::Stopped {
                status: STATUS_FAILED,
            },
            (ImportStage::Stopped { status }, _) => ImportStage::Stopped { status },
            _ => ImportStage::Stopped { status: STATUS_FAILED },
        };
        Importer { directory, csv, stage }
    }
}

} // verus!
