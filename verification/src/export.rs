//! Export: the folders of a directory as a CSV table.

use crate::host::{
    Reply, ReplyView, Report, ReportView, Request, RequestView, STATUS_DONE, STATUS_FAILED,
};
use crate::paths::{resolve_path, resolved};
use crate::table::{
    all_of_width, csv_text, of_one_width, writer_finish, writer_new, writer_put, written,
};
use crate::text::texts;
use vstd::pervasive::unreached;
use vstd::prelude::*;

verus! {

/// One entry of a directory, as the host found it while listing.
#[derive(Debug, PartialEq, Eq)]
pub enum Entry {
    /// The listing failed at this entry.
    Unreadable,
    /// An entry that could be read: its base name, if it has one, and whether
    /// it is a directory.
    Item { name: Option<String>, is_dir: bool },
}

/// An [`Entry`] as plain values: what contracts speak of.
pub enum EntryView {
    Unreadable,
    Item { name: Option<Seq<char>>, is_dir: bool },
}

impl View for Entry {
    type V = EntryView;

    open spec fn view(&self) -> EntryView {
        match self {
            Entry::Unreadable => EntryView::Unreadable,
            Entry::Item { name: Some(n), is_dir } => EntryView::Item {
                name: Some(n@),
                is_dir: *is_dir,
            },
            Entry::Item { name: None, is_dir } => EntryView::Item { name: None, is_dir: *is_dir },
        }
    }
}

/// The views of a sequence of entries.
pub open spec fn entry_views(v: Seq<Entry>) -> Seq<EntryView> {
    v.map_values(|e: Entry| e@)
}

/// The name under which an entry is exported: that of a readable directory
/// with a base name; nothing for any other entry.
pub open spec fn folder_of(e: EntryView) -> Option<Seq<char>> {
    match e {
        EntryView::Item { name: Some(n), is_dir: true } => Some(n),
        _ => None,
    }
}

/// The names of the folders among `entries`, in the order of the listing.
pub open spec fn folder_names(entries: Seq<EntryView>) -> Seq<Seq<char>>
    decreases entries.len(),
{
    if entries.len() == 0 {
        Seq::empty()
    } else {
        match folder_of(entries.last()) {
            Some(n) => folder_names(entries.drop_last()).push(n),
            None => folder_names(entries.drop_last()),
        }
    }
}

/// The single-column table for a list of folder names: the header `old_name`,
/// then one record per name.
pub open spec fn export_table(names: Seq<Seq<char>>) -> Seq<Seq<Seq<char>>> {
    seq![seq!["old_name"@]] + names.map_values(|n: Seq<char>| seq![n])
}

/// The exported names are the folders of the listing and nothing else: a name
/// is exported exactly if some entry is a readable directory with that base
/// name. A file's name is exported only if a folder has it too.
pub proof fn law_exported_names_are_the_folders(entries: Seq<EntryView>, name: Seq<char>)
    ensures
        folder_names(entries).contains(name) <==> exists|i: int|
            0 <= i < entries.len() && #[trigger] folder_of(entries[i]) == Some(name),
    decreases entries.len(),
{
    if entries.len() > 0 {
        let before = entries.drop_last();
        law_exported_names_are_the_folders(before, name);
        let names = folder_names(entries);
        if names.contains(name) {
            let k = choose|k: int| 0 <= k < names.len() && names[k] == name;
            if folder_of(entries.last()) == Some(name) {
                assert(folder_of(entries[entries.len() - 1]) == Some(name));
            } else {
                assert(folder_names(before)[k] == name);
                assert(folder_names(before).contains(name));
                let i = choose|i: int|
                    0 <= i < before.len() && #[trigger] folder_of(before[i]) == Some(name);
                assert(folder_of(entries[i]) == Some(name));
            }
        }
        if exists|i: int| 0 <= i < entries.len() && #[trigger] folder_of(entries[i]) == Some(name) {
            let i = choose|i: int|
                0 <= i < entries.len() && #[trigger] folder_of(entries[i]) == Some(name);
            if i == entries.len() - 1 {
                assert(names.last() == name);
                assert(names[names.len() - 1] == name);
            } else {
                assert(folder_of(before[i]) == Some(name));
                let k = choose|k: int|
                    0 <= k < folder_names(before).len() && folder_names(before)[k] == name;
                assert(names[k] == name);
            }
        }
    }
}

/// The exported table has one record more than there are names: the header
/// `old_name` comes first, and each record after it holds one name.
pub proof fn law_export_table_shape(names: Seq<Seq<char>>)
    ensures
        export_table(names).len() == names.len() + 1,
        export_table(names)[0] == seq!["old_name"@],
        forall|i: int| 0 <= i < names.len() ==> #[trigger] export_table(names)[i + 1] == seq![names[i]],
{
}

/// A listing without folders is exported as the header alone.
pub proof fn law_no_folders_header_only(entries: Seq<EntryView>)
    requires
        forall|i: int| 0 <= i < entries.len() ==> #[trigger] folder_of(entries[i]) is None,
    ensures
        export_table(folder_names(entries)) == seq![seq!["old_name"@]],
{
    lemma_no_folders_no_names(entries);
    assert(export_table(folder_names(entries)) =~= seq![seq!["old_name"@]]);
}

proof fn lemma_no_folders_no_names(entries: Seq<EntryView>)
    requires
        forall|i: int| 0 <= i < entries.len() ==> #[trigger] folder_of(entries[i]) is None,
    ensures
        folder_names(entries).len() == 0,
    decreases entries.len(),
{
    if entries.len() > 0 {
        let before = entries.drop_last();
        assert forall|i: int| 0 <= i < before.len() implies #[trigger] folder_of(before[i])
            is None by {
            assert(before[i] == entries[i]);
        }
        lemma_no_folders_no_names(before);
        assert(folder_of(entries[entries.len() - 1]) is None);
    }
}

/// Picks the folders out of a listing, keeping the listing's order. Entries
/// that could not be read, entries without a base name and entries that are
/// not directories are left out.
pub fn list_folders(entries: &Vec<Entry>) -> (names: Vec<String>)
    ensures
        texts(names@) == folder_names(entry_views(entries@)),
{
    let mut names: Vec<String> = Vec::new();
    let mut i: usize = 0;
    while i < entries.len()
        invariant
            i <= entries.len(),
            texts(names@) == folder_names(entry_views(entries@).take(i as int)),
        decreases entries.len() - i,
    {
        let ghost before = entry_views(entries@).take(i as int);
        let ghost after = entry_views(entries@).take(i + 1);
        assert(after.drop_last() == before);
        assert(after.last() == entries@[i as int]@);
        match &entries[i] {
            Entry::Item { name: Some(n), is_dir: true } => {
                let ghost prior = names@;
                names.push(n.clone());
                assert(texts(names@) == texts(prior).push(n@));
            },
            _ => {},
        }
        i += 1;
    }
    assert(entry_views(entries@).take(i as int) == entry_views(entries@));
    names
}

/// The CSV text of the export table for `names`.
pub fn encode_names(names: &Vec<String>) -> (bytes: Vec<u8>)
    ensures
        bytes@ == csv_text(export_table(texts(names@))),
{
    let mut w = writer_new();
    let mut header: Vec<String> = Vec::new();
    header.push(String::from_str("old_name"));
    assert(texts(header@) == seq!["old_name"@]);
    let ok = writer_put(&mut w, &header);
    assert(ok);
    assert(written(w) == export_table(texts(names@).take(0)));
    let mut i: usize = 0;
    while i < names.len()
        invariant
            i <= names.len(),
            written(w) == export_table(texts(names@).take(i as int)),
        decreases names.len() - i,
    {
        let mut record: Vec<String> = Vec::new();
        record.push(names[i].clone());
        assert(texts(record@) == seq![names@[i as int]@]);
        assert(all_of_width(written(w), 1));
        let ok = writer_put(&mut w, &record);
        assert(ok);
        assert(texts(names@).take(i + 1) == texts(names@).take(i as int).push(names@[i as int]@));
        assert(written(w) == export_table(texts(names@).take(i + 1)));
        i += 1;
    }
    assert(texts(names@).take(i as int) == texts(names@));
    assert(of_one_width(written(w)));
    match writer_finish(w) {
        Some(bytes) => bytes,
        None => unreached(),
    }
}

/// The CSV text that an export of the listing `entries` writes: the header
/// and one record for each folder, in the listing's order.
pub fn export_csv(entries: &Vec<Entry>) -> (bytes: Vec<u8>)
    ensures
        bytes@ == csv_text(export_table(folder_names(entry_views(entries@)))),
{
    let names = list_folders(entries);
    encode_names(&names)
}

/// How far an export has come.
#[derive(Debug, PartialEq, Eq)]
pub enum ExportStage {
    /// The directory is relative: the current directory was asked for.
    Locating,
    /// It was asked whether `dir` is a directory.
    Probing { dir: String },
    /// The listing of `dir` was asked for.
    Listing { dir: String },
    /// The output file is being created; `bytes` will be written to it.
    Creating { bytes: Vec<u8> },
    /// `bytes` are being written to the output file.
    Writing { bytes: Vec<u8> },
    /// The last report is being printed; the command then ends with `status`.
    Telling { report: Report, status: u8 },
    /// The command has ended with `status`.
    Stopped { status: u8 },
}

/// An [`ExportStage`] as plain values: what contracts speak of.
pub enum ExportStageView {
    Locating,
    Probing { dir: Seq<char> },
    Listing { dir: Seq<char> },
    Creating { bytes: Seq<u8> },
    Writing { bytes: Seq<u8> },
    Telling { report: ReportView, status: u8 },
    Stopped { status: u8 },
}

impl View for ExportStage {
    type V = ExportStageView;

    open spec fn view(&self) -> ExportStageView {
        match self {
            ExportStage::Locating => ExportStageView::Locating,
            ExportStage::Probing { dir } => ExportStageView::Probing { dir: dir@ },
            ExportStage::Listing { dir } => ExportStageView::Listing { dir: dir@ },
            ExportStage::Creating { bytes } => ExportStageView::Creating { bytes: bytes@ },
            ExportStage::Writing { bytes } => ExportStageView::Writing { bytes: bytes@ },
            ExportStage::Telling { report, status } => ExportStageView::Telling {
                report: report@,
                status: *status,
            },
            ExportStage::Stopped { status } => ExportStageView::Stopped { status: *status },
        }
    }
}

/// An export in progress: the directory and the output file as they were
/// given, and the stage reached.
#[derive(Debug, PartialEq, Eq)]
pub struct Exporter {
    pub directory: String,
    pub output: String,
    pub stage: ExportStage,
}

/// An [`Exporter`] as plain values: what contracts speak of.
pub struct ExporterView {
    pub directory: Seq<char>,
    pub output: Seq<char>,
    pub stage: ExportStageView,
}

impl View for Exporter {
    type V = ExporterView;

    open spec fn view(&self) -> ExporterView {
        ExporterView { directory: self.directory@, output: self.output@, stage: self.stage@ }
    }
}

impl ExporterView {
    /// An export of `directory` to the file `output`, before anything is done.
    pub open spec fn start(directory: Seq<char>, output: Seq<char>) -> ExporterView {
        ExporterView {
            directory,
            output,
            stage: match resolved(directory, None) {
                Some(dir) => ExportStageView::Probing { dir },
                None => ExportStageView::Locating,
            },
        }
    }

    /// The stage in which a fatal report is printed.
    pub open spec fn failing(report: ReportView) -> ExportStageView {
        ExportStageView::Telling { report, status: STATUS_FAILED }
    }

    /// What the export asks for in its stage.
    pub open spec fn request(self) -> RequestView {
        match self.stage {
            ExportStageView::Locating => RequestView::CurrentDir,
            ExportStageView::Probing { dir } => RequestView::IsDir { path: dir },
            ExportStageView::Listing { dir } => RequestView::ListDir { path: dir },
            ExportStageView::Creating { bytes } => RequestView::CreateFile { path: self.output },
            ExportStageView::Writing { bytes } => RequestView::WriteFile {
                path: self.output,
                bytes,
            },
            ExportStageView::Telling { report, status } => RequestView::Tell { report },
            ExportStageView::Stopped { status } => RequestView::Exit { status },
        }
    }

    /// The stage that follows on the answer `reply`. An answer that does not
    /// fit the request ends the export with a failure.
    pub open spec fn next_stage(self, reply: ReplyView) -> ExportStageView {
        match (self.stage, reply) {
            (ExportStageView::Locating, ReplyView::Located(Ok(current))) => {
                match resolved(self.directory, Some(current)) {
                    Some(dir) => ExportStageView::Probing { dir },
                    None => ExportStageView::Stopped { status: STATUS_FAILED },
                }
            },
            (ExportStageView::Locating, ReplyView::Located(Err(detail))) => Self::failing(
                ReportView::NoCurrentDir { detail },
            ),
            (ExportStageView::Probing { dir }, ReplyView::Flag(true)) => ExportStageView::Listing {
                dir,
            },
            (ExportStageView::Probing { dir }, ReplyView::Flag(false)) => Self::failing(
                ReportView::NotADirectory { path: dir },
            ),
            (ExportStageView::Listing { dir }, ReplyView::Listed(Ok(entries))) => {
                ExportStageView::Creating {
                    bytes: csv_text(export_table(folder_names(entries))),
                }
            },
            (ExportStageView::Listing { dir }, ReplyView::Listed(Err(detail))) => Self::failing(
                ReportView::ListFailed { path: dir, detail },
            ),
            (ExportStageView::Creating { bytes }, ReplyView::Finished(Ok(_))) => {
                ExportStageView::Writing { bytes }
            },
            (ExportStageView::Creating { bytes }, ReplyView::Finished(Err(detail))) => {
                Self::failing(ReportView::CreateFailed { path: self.output, detail })
            },
            (ExportStageView::Writing { bytes }, ReplyView::Finished(Ok(_))) => {
                ExportStageView::Telling {
                    report: ReportView::Wrote { path: self.output },
                    status: STATUS_DONE,
                }
            },
            (ExportStageView::Writing { bytes }, ReplyView::Finished(Err(detail))) => {
                Self::failing(ReportView::WriteFailed { path: self.output, detail })
            },
            (ExportStageView::Telling { report, status }, ReplyView::Ack) => {
                ExportStageView::Stopped { status }
            },
            (ExportStageView::Stopped { status }, _) => ExportStageView::Stopped { status },
            _ => ExportStageView::Stopped { status: STATUS_FAILED },
        }
    }

    /// The export after the answer `reply`.
    pub open spec fn advance(self, reply: ReplyView) -> ExporterView {
        ExporterView { stage: self.next_stage(reply), ..self }
    }
}

impl Exporter {
    /// Begins an export of `directory` to the file `output`.
    pub fn start(directory: String, output: String) -> (exporter: Exporter)
        ensures
            exporter@ == ExporterView::start(directory@, output@),
    {
        let stage = match resolve_path(directory.as_str(), &None) {
            Some(dir) => ExportStage::Probing { dir },
            None => ExportStage::Locating,
        };
        Exporter { directory, output, stage }
    }

    /// What the export needs done next.
    pub fn request(&self) -> (request: Request)
        ensures
            request@ == self@.request(),
    {
        match &self.stage {
            ExportStage::Locating => Request::CurrentDir,
            ExportStage::Probing { dir } => Request::IsDir { path: dir.clone() },
            ExportStage::Listing { dir } => Request::ListDir { path: dir.clone() },
            ExportStage::Creating { .. } => Request::CreateFile { path: self.output.clone() },
            ExportStage::Writing { bytes } => {
                let copy = bytes.clone();
                assert(copy@ =~= bytes@);
                Request::WriteFile { path: self.output.clone(), bytes: copy }
            },
            ExportStage::Telling { report, .. } => Request::Tell { report: report.duplicate() },
            ExportStage::Stopped { status } => Request::Exit { status: *status },
        }
    }

    /// Takes the answer to the last request and moves on.
    pub fn advance(self, reply: Reply) -> (next: Exporter)
        ensures
            next@ == self@.advance(reply@),
    {
        let Exporter { directory, output, stage } = self;
        let stage = match (stage, reply) {
            (ExportStage::Locating, Reply::Located(Ok(current))) => {
                match resolve_path(directory.as_str(), &Some(current)) {
                    Some(dir) => ExportStage::Probing { dir },
                    None => ExportStage::Stopped { status: STATUS_FAILED },
                }
            },
            (ExportStage::Locating, Reply::Located(Err(detail))) => ExportStage::Telling {
                report: Report::NoCurrentDir { detail },
                status: STATUS_FAILED,
            },
            (ExportStage::Probing { dir }, Reply::Flag(true)) => ExportStage::Listing { dir },
            (ExportStage::Probing { dir }, Reply::Flag(false)) => ExportStage::Telling {
                report: Report::NotADirectory { path: dir },
                status: STATUS_FAILED,
            },
            (ExportStage::Listing { dir }, Reply::Listed(Ok(entries))) => ExportStage::Creating {
                bytes: export_csv(&entries),
            },
            (ExportStage::Listing { dir }, Reply::Listed(Err(detail))) => ExportStage::Telling {
                report: Report::ListFailed { path: dir, detail },
                status: STATUS_FAILED,
            },
            (ExportStage::Creating { bytes }, Reply::Finished(Ok(_))) => ExportStage::Writing {
                bytes,
            },
            (ExportStage::Creating { bytes }, Reply::Finished(Err(detail))) => {
                ExportStage::Telling {
                    report: Report::CreateFailed { path: output.clone(), detail },
                    status: STATUS_FAILED,
                }
            },
            (ExportStage::Writing { bytes }, Reply::Finished(Ok(_))) => ExportStage::Telling {
                report: Report::Wrote { path: output.clone() },
                status: STATUS_DONE,
            },
            (ExportStage::Writing { bytes }, Reply::Finished(Err(detail))) => {
                ExportStage::Telling {
                    report: Report::WriteFailed { path: output.clone(), detail },
                    status: STATUS_FAILED,
                }
            },
            (ExportStage::Telling { report, status }, Reply::Ack) => ExportStage::Stopped {
                status,
            },
            (ExportStage::Stopped { status }, _) => ExportStage::Stopped { status },
            _ => ExportStage::Stopped { status: STATUS_FAILED },
        };
        Exporter { directory, output, stage }
    }
}

} // verus!
