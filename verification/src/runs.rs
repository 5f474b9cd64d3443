//! What holds of whole runs: of an export or an import that is answered by
//! any sequence of replies.

use crate::export::{export_table, folder_names, ExportStageView, ExporterView};
use crate::host::{
    answers, ReplyView, ReportView, RequestView, STATUS_DONE, STATUS_FAILED,
};
use crate::import::{
    enter, header_ok, import_table, BatchView, ImportStageView, ImporterView, JobView, RowView,
};
use crate::paths::path_join;
use crate::table::{csv_header, csv_rows, csv_text};
use vstd::prelude::*;

verus! {

/// The export `e` after its requests were answered by `replies`, in order.
pub open spec fn export_run(e: ExporterView, replies: Seq<ReplyView>) -> ExporterView
    decreases replies.len(),
{
    if replies.len() == 0 {
        e
    } else {
        export_run(e, replies.drop_last()).advance(replies.last())
    }
}

/// The import `m` after its requests were answered by `replies`, in order.
pub open spec fn import_run(m: ImporterView, replies: Seq<ReplyView>) -> ImporterView
    decreases replies.len(),
{
    if replies.len() == 0 {
        m
    } else {
        import_run(m, replies.drop_last()).advance(replies.last())
    }
}

/// A run of `k + 1` replies is the run of the first `k`, advanced by the
/// reply that follows them.
pub proof fn lemma_import_run_step(m: ImporterView, replies: Seq<ReplyView>, k: int)
    requires
        0 <= k < replies.len(),
    ensures
        import_run(m, replies.take(k + 1)) == import_run(m, replies.take(k)).advance(replies[k]),
{
    assert(replies.take(k + 1).drop_last() == replies.take(k));
    assert(replies.take(k + 1).last() == replies[k]);
}

/// The directory and the output file of an export never change.
pub proof fn lemma_export_run_keeps_arguments(e: ExporterView, replies: Seq<ReplyView>)
    ensures
        export_run(e, replies).directory == e.directory,
        export_run(e, replies).output == e.output,
    decreases replies.len(),
{
    if replies.len() > 0 {
        lemma_export_run_keeps_arguments(e, replies.drop_last());
    }
}

/// Whether no reply says yes.
pub open spec fn never_yes(replies: Seq<ReplyView>) -> bool {
    forall|i: int| 0 <= i < replies.len() ==> #[trigger] replies[i] != ReplyView::Flag(true)
}

/// An export whose directory is never confirmed to be one touches no file
/// and, if it ends, ends with a failure.
pub proof fn law_export_without_directory_writes_nothing(
    directory: Seq<char>,
    output: Seq<char>,
    replies: Seq<ReplyView>,
)
    requires
        never_yes(replies),
    ensures
        !(export_run(ExporterView::start(directory, output), replies).request() is CreateFile),
        !(export_run(ExporterView::start(directory, output), replies).request() is WriteFile),
        export_run(ExporterView::start(directory, output), replies).request() matches RequestView::Exit {
            status,
        } ==> status == STATUS_FAILED,
    decreases replies.len(),
{
    lemma_export_held_back(directory, output, replies);
}

/// Whether an export in this stage has not listed its directory and has
/// nothing but a failure ahead once it stops.
pub open spec fn held_back(stage: ExportStageView) -> bool {
    match stage {
        ExportStageView::Locating => true,
        ExportStageView::Probing { dir } => true,
        ExportStageView::Telling { report, status } => status == STATUS_FAILED,
        ExportStageView::Stopped { status } => status == STATUS_FAILED,
        _ => false,
    }
}

proof fn lemma_export_held_back(directory: Seq<char>, output: Seq<char>, replies: Seq<ReplyView>)
    requires
        never_yes(replies),
    ensures
        held_back(export_run(ExporterView::start(directory, output), replies).stage),
    decreases replies.len(),
{
    if replies.len() > 0 {
        let before = replies.drop_last();
        assert forall|i: int| 0 <= i < before.len() implies #[trigger] before[i]
            != ReplyView::Flag(true) by {
            assert(before[i] == replies[i]);
        }
        lemma_export_held_back(directory, output, before);
        assert(replies.last() == replies[replies.len() - 1]);
    }
}

/// An export of what is no directory fails: told that `dir` is none, it
/// reports that and then ends with a failure.
pub proof fn law_export_of_no_directory_fails(e: ExporterView, dir: Seq<char>)
    requires
        e.stage == (ExportStageView::Probing { dir }),
    ensures
        e.advance(ReplyView::Flag(false)).request() == (RequestView::Tell {
            report: ReportView::NotADirectory { path: dir },
        }),
        e.advance(ReplyView::Flag(false)).advance(ReplyView::Ack).request() == (RequestView::Exit {
            status: STATUS_FAILED,
        }),
{
}

/// Whether `reply` is a listing of which `bytes` is the exported table.
pub open spec fn listed_as(reply: ReplyView, bytes: Seq<u8>) -> bool {
    reply matches ReplyView::Listed(Ok(entries)) && bytes == csv_text(
        export_table(folder_names(entries)),
    )
}

/// Whether one of `replies` is a listing of which `bytes` is the exported
/// table.
pub open spec fn some_listed_as(replies: Seq<ReplyView>, bytes: Seq<u8>) -> bool {
    exists|i: int| 0 <= i < replies.len() && #[trigger] listed_as(replies[i], bytes)
}

/// What an export puts into a file. It creates and writes only the output
/// file that it was given, and what it writes is the table of a listing that
/// it received: the header, then the folders of that listing in its order.
pub proof fn law_export_writes_the_listing(
    directory: Seq<char>,
    output: Seq<char>,
    replies: Seq<ReplyView>,
)
    ensures
        match export_run(ExporterView::start(directory, output), replies).request() {
            RequestView::CreateFile { path } => path == output,
            RequestView::WriteFile { path, bytes } => path == output && some_listed_as(
                replies,
                bytes,
            ),
            _ => true,
        },
{
    let start = ExporterView::start(directory, output);
    lemma_export_run_keeps_arguments(start, replies);
    lemma_export_holds_a_listing(start, replies);
}

/// Whether the bytes that an export holds in this stage come from one of
/// `replies`.
pub open spec fn holds_a_listing(stage: ExportStageView, replies: Seq<ReplyView>) -> bool {
    match stage {
        ExportStageView::Creating { bytes } => some_listed_as(replies, bytes),
        ExportStageView::Writing { bytes } => some_listed_as(replies, bytes),
        _ => true,
    }
}

proof fn lemma_export_holds_a_listing(e: ExporterView, replies: Seq<ReplyView>)
    requires
        !(e.stage is Creating),
        !(e.stage is Writing),
    ensures
        holds_a_listing(export_run(e, replies).stage, replies),
    decreases replies.len(),
{
    if replies.len() > 0 {
        let before = replies.drop_last();
        let last = replies.last();
        lemma_export_holds_a_listing(e, before);
        let prior = export_run(e, before);
        let after = prior.advance(last);
        match after.stage {
            ExportStageView::Creating { bytes } => {
                assert(prior.stage is Listing);
                assert(listed_as(replies[replies.len() - 1], bytes));
            },
            ExportStageView::Writing { bytes } => {
                assert(prior.stage == ExportStageView::Creating { bytes });
                let i = choose|i: int| 0 <= i < before.len() && #[trigger] listed_as(before[i], bytes);
                assert(before[i] == replies[i]);
                assert(listed_as(replies[i], bytes));
            },
            _ => {},
        }
    }
}

/// Whether none of the files in `replies` holds a table with a valid header.
pub open spec fn no_valid_table(replies: Seq<ReplyView>) -> bool {
    forall|i: int|
        0 <= i < replies.len() ==> match #[trigger] replies[i] {
            ReplyView::Loaded(Ok(bytes)) => !(csv_header(bytes) matches Ok(h) && header_ok(h)),
            _ => true,
        }
}

/// Whether an import in this stage has no table and has nothing but a
/// failure ahead once it stops.
pub open spec fn without_table(stage: ImportStageView) -> bool {
    match stage {
        ImportStageView::LocatingDir => true,
        ImportStageView::ProbingDir { dir } => true,
        ImportStageView::LocatingCsv { dir } => true,
        ImportStageView::ProbingCsv { dir, csv } => true,
        ImportStageView::Loading { dir, csv } => true,
        ImportStageView::Telling { report } => true,
        ImportStageView::Stopped { status } => status == STATUS_FAILED,
        _ => false,
    }
}

/// An import that never gets a table with the header `old_name,new_name`
/// renames nothing and, if it ends, ends with a failure.
pub proof fn law_import_without_valid_header_renames_nothing(
    directory: Seq<char>,
    csv: Seq<char>,
    replies: Seq<ReplyView>,
)
    requires
        no_valid_table(replies),
    ensures
        !(import_run(ImporterView::start(directory, csv), replies).request() is Rename),
        import_run(ImporterView::start(directory, csv), replies).request() matches RequestView::Exit {
            status,
        } ==> status == STATUS_FAILED,
{
    lemma_import_without_table(directory, csv, replies);
}

proof fn lemma_import_without_table(directory: Seq<char>, csv: Seq<char>, replies: Seq<ReplyView>)
    requires
        no_valid_table(replies),
    ensures
        without_table(import_run(ImporterView::start(directory, csv), replies).stage),
    decreases replies.len(),
{
    if replies.len() > 0 {
        let before = replies.drop_last();
        assert forall|i: int| 0 <= i < before.len() implies match #[trigger] before[i] {
            ReplyView::Loaded(Ok(bytes)) => !(csv_header(bytes) matches Ok(h) && header_ok(h)),
            _ => true,
        } by {
            assert(before[i] == replies[i]);
        }
        lemma_import_without_table(directory, csv, before);
        assert(replies.last() == replies[replies.len() - 1]);
    }
}

/// An import of a table with the wrong header fails: given the bytes of a
/// file whose header is not `old_name,new_name`, it reports that and then ends
/// with a failure.
pub proof fn law_import_of_wrong_header_fails(
    m: ImporterView,
    dir: Seq<char>,
    path: Seq<char>,
    bytes: Seq<u8>,
)
    requires
        m.stage == (ImportStageView::Loading { dir, csv: path }),
        csv_header(bytes) matches Ok(h) && !header_ok(h),
    ensures
        m.advance(ReplyView::Loaded(Ok(bytes))).request() == (RequestView::Tell {
            report: ReportView::InvalidHeaders { path },
        }),
        m.advance(ReplyView::Loaded(Ok(bytes))).advance(ReplyView::Ack).request()
            == (RequestView::Exit { status: STATUS_FAILED }),
{
}

/// A rename is asked for only of a folder that was found and for a name that
/// was found free. Whenever an import asks for a rename, the two answers
/// before were yes and no, to the questions whether the folder to rename is a
/// directory and whether anything exists under the new name.
pub proof fn law_rename_follows_both_checks(
    directory: Seq<char>,
    csv: Seq<char>,
    replies: Seq<ReplyView>,
)
    ensures
        import_run(ImporterView::start(directory, csv), replies).request() matches RequestView::Rename {
            from,
            to,
        } ==> {
            &&& replies.len() >= 2
            &&& replies[replies.len() - 1] == ReplyView::Flag(false)
            &&& import_run(
                ImporterView::start(directory, csv),
                replies.take(replies.len() - 1),
            ).request() == (RequestView::Exists { path: to })
            &&& replies[replies.len() - 2] == ReplyView::Flag(true)
            &&& import_run(
                ImporterView::start(directory, csv),
                replies.take(replies.len() - 2),
            ).request() == (RequestView::IsDir { path: from })
        },
{
    let start = ImporterView::start(directory, csv);
    let end = import_run(start, replies);
    if end.stage is Moving {
        assert(replies.len() >= 1);
        let n = replies.len() - 1;
        assert(replies.take(n) == replies.drop_last());
        let prior = import_run(start, replies.take(n));
        assert(end == prior.advance(replies[n]));
        assert(prior.stage is Target);
        assert(n >= 1);
        lemma_import_run_step(start, replies, n - 1);
        let first = import_run(start, replies.take(n - 1));
        assert(prior == first.advance(replies[n - 1]));
        assert(first.stage is Source);
    }
}

/// Whether `job` is the rename that the row before `batch.next` asks for: the
/// row has both names, and the two paths are the names joined to the
/// directory.
pub open spec fn job_fits(batch: BatchView, job: JobView) -> bool {
    &&& job.row < batch.rows.len()
    &&& batch.next == job.row + 1
    &&& batch.rows[job.row as int] == (RowView::Record {
        old_name: job.old_name,
        new_name: job.new_name,
    })
    &&& job.old_name.len() > 0
    &&& job.new_name.len() > 0
    &&& job.source == path_join(batch.dir, job.old_name)
    &&& job.target == path_join(batch.dir, job.new_name)
}

/// Whether `report` tells what became of the row before `batch.next`.
pub open spec fn report_fits(batch: BatchView, report: ReportView) -> bool {
    &&& 1 <= batch.next <= batch.rows.len()
    &&& match report {
        ReportView::RowUnreadable { row, detail } => row == batch.next - 1,
        ReportView::RowEmpty { row } => row == batch.next - 1,
        ReportView::SourceMissing { row, path } => row == batch.next - 1,
        ReportView::TargetExists { row, path } => row == batch.next - 1,
        ReportView::RenameFailed { row, old_name, new_name, detail } => row == batch.next - 1,
        ReportView::Renamed { old_name, new_name } => batch.rows[batch.next - 1]
            == (RowView::Record { old_name, new_name }),
        _ => false,
    }
}

/// Whether an import in this stage is at the row that its batch says.
pub open spec fn in_order(stage: ImportStageView) -> bool {
    match stage {
        ImportStageView::Source { batch, job } => job_fits(batch, job),
        ImportStageView::Target { batch, job } => job_fits(batch, job),
        ImportStageView::Moving { batch, job } => job_fits(batch, job),
        ImportStageView::Noting { batch, report } => report_fits(batch, report),
        _ => true,
    }
}

proof fn lemma_enter_in_order(dir: Seq<char>, rows: Seq<RowView>, at: nat)
    ensures
        in_order(enter(dir, rows, at)),
{
}

/// The rows are taken one after the other, and no row stops the import. At
/// every point of every import, the rename that is being checked or made is
/// that of one row of the table, with the paths of its two names under the
/// directory, and a report on a row is about the row just dealt with; the row
/// after it is the one taken up next, whatever became of this one.
pub proof fn law_import_takes_rows_in_order(
    directory: Seq<char>,
    csv: Seq<char>,
    replies: Seq<ReplyView>,
)
    ensures
        in_order(import_run(ImporterView::start(directory, csv), replies).stage),
        import_run(ImporterView::start(directory, csv), replies).stage matches ImportStageView::Noting {
            batch,
            report,
        } ==> import_run(ImporterView::start(directory, csv), replies).advance(
            ReplyView::Ack,
        ).stage == enter(batch.dir, batch.rows, batch.next),
    decreases replies.len(),
{
    if replies.len() > 0 {
        let start = ImporterView::start(directory, csv);
        law_import_takes_rows_in_order(directory, csv, replies.drop_last());
        let prior = import_run(start, replies.drop_last());
        match (prior.stage, replies.last()) {
            (ImportStageView::Loading { dir, csv: path }, ReplyView::Loaded(Ok(bytes))) => {
                match import_table(csv_header(bytes), csv_rows(bytes)) {
                    Ok(rows) => {
                        lemma_enter_in_order(dir, rows, 0);
                    },
                    Err(_) => {},
                }
            },
            (ImportStageView::Noting { batch, report }, ReplyView::Ack) => {
                lemma_enter_in_order(batch.dir, batch.rows, batch.next);
            },
            _ => {},
        }
    }
}

/// Whether an import in this stage has taken its table in: it is at a row, or
/// has ended well.
pub open spec fn past_the_header(stage: ImportStageView) -> bool {
    match stage {
        ImportStageView::Source { batch, job } => true,
        ImportStageView::Target { batch, job } => true,
        ImportStageView::Moving { batch, job } => true,
        ImportStageView::Noting { batch, report } => true,
        ImportStageView::Stopped { status } => status == STATUS_DONE,
        _ => false,
    }
}

/// Whether each of `replies` is of the kind that answers the request that it
/// follows.
pub open spec fn all_answer(m: ImporterView, replies: Seq<ReplyView>) -> bool {
    forall|k: int|
        0 <= k < replies.len() ==> answers(
            import_run(m, #[trigger] replies.take(k)).request(),
            replies[k],
        )
}

/// No row makes an import fail. Once the table is taken in, the import stays
/// with its rows whatever the answers say of them, and if it ends, it ends
/// well: rows that are skipped and renames that fail do not count.
pub proof fn law_rows_do_not_fail_the_import(m: ImporterView, replies: Seq<ReplyView>)
    requires
        past_the_header(m.stage),
        all_answer(m, replies),
    ensures
        past_the_header(import_run(m, replies).stage),
        import_run(m, replies).request() matches RequestView::Exit { status } ==> status
            == STATUS_DONE,
    decreases replies.len(),
{
    if replies.len() > 0 {
        let before = replies.drop_last();
        let n = replies.len() - 1;
        assert(replies.take(n) == before);
        assert forall|k: int| 0 <= k < before.len() implies answers(
            import_run(m, #[trigger] before.take(k)).request(),
            before[k],
        ) by {
            assert(before.take(k) == replies.take(k));
        }
        law_rows_do_not_fail_the_import(m, before);
        assert(answers(import_run(m, replies.take(n)).request(), replies[n]));
    }
}

/// Failures come in two kinds, and only one ends an import. A report that an
/// import prints before it stops is fatal; a report on a row never is.
pub proof fn law_import_reports_are_of_two_kinds(
    directory: Seq<char>,
    csv: Seq<char>,
    replies: Seq<ReplyView>,
)
    ensures
        match import_run(ImporterView::start(directory, csv), replies).stage {
            ImportStageView::Telling { report } => report.is_fatal(),
            ImportStageView::Noting { batch, report } => !report.is_fatal(),
            _ => true,
        },
{
}

/// An export fails exactly with a fatal report: the report that it prints
/// last is fatal if the export then ends with a failure, and says that the
/// table was written if it ends well.
pub proof fn law_export_fails_with_a_fatal_report(
    directory: Seq<char>,
    output: Seq<char>,
    replies: Seq<ReplyView>,
)
    ensures
        match export_run(ExporterView::start(directory, output), replies).stage {
            ExportStageView::Telling { report, status } => if status == STATUS_FAILED {
                report.is_fatal()
            } else {
                status == STATUS_DONE && report is Wrote
            },
            _ => true,
        },
{
}

/// The header of an exported table is no header for an import: a table as
/// export writes it, with its single column, is refused.
pub proof fn law_export_header_is_refused(names: Seq<Seq<char>>)
    ensures
        !header_ok(export_table(names)[0]),
{
}

/// Whether every row of `rows` that has names has the same name twice.
pub open spec fn identity_table(rows: Seq<RowView>) -> bool {
    forall|i: int|
        0 <= i < rows.len() ==> match #[trigger] rows[i] {
            RowView::Record { old_name, new_name } => old_name == new_name,
            _ => true,
        }
}

/// Whether every table in `replies` gives each folder its own name again.
pub open spec fn loads_identity_tables(replies: Seq<ReplyView>) -> bool {
    forall|i: int|
        0 <= i < replies.len() ==> match #[trigger] replies[i] {
            ReplyView::Loaded(Ok(bytes)) => match import_table(csv_header(bytes), csv_rows(bytes)) {
                Ok(rows) => identity_table(rows),
                Err(_) => true,
            },
            _ => true,
        }
}

/// Whether the answers agree with a file system in which a directory that was
/// just found still exists: where the import asks whether a path is a
/// directory, hears yes, and asks next whether anything exists at the same
/// path, it hears yes again.
pub open spec fn found_stays(m: ImporterView, replies: Seq<ReplyView>) -> bool {
    forall|k: int|
        1 <= k < replies.len() ==> ({
            let asked = import_run(m, #[trigger] replies.take(k)).request();
            let before = import_run(m, replies.take(k - 1)).request();
            asked matches RequestView::Exists { path } && before == (RequestView::IsDir { path })
                && replies[k - 1] == ReplyView::Flag(true)
        }) ==> replies[k] == ReplyView::Flag(true)
}

/// What holds of an import of identity tables after `k` replies.
pub open spec fn skips_all(m: ImporterView, replies: Seq<ReplyView>, k: int) -> bool {
    match import_run(m, replies.take(k)).stage {
        ImportStageView::Source { batch, job } => job.source == job.target && identity_table(
            batch.rows,
        ),
        ImportStageView::Target { batch, job } => {
            &&& job.source == job.target
            &&& identity_table(batch.rows)
            &&& k >= 1
            &&& import_run(m, replies.take(k - 1)).request() == (RequestView::IsDir {
                path: job.source,
            })
            &&& replies[k - 1] == ReplyView::Flag(true)
        },
        ImportStageView::Moving { batch, job } => false,
        ImportStageView::Noting { batch, report } => identity_table(batch.rows) && !(report
            is Renamed) && !(report is RenameFailed),
        _ => true,
    }
}

/// Taking up a row of an identity table asks about one path twice, or
/// reports the row.
proof fn lemma_enter_identity(dir: Seq<char>, rows: Seq<RowView>, at: nat)
    requires
        identity_table(rows),
    ensures
        match enter(dir, rows, at) {
            ImportStageView::Source { batch, job } => job.source == job.target && batch.rows
                == rows,
            ImportStageView::Noting { batch, report } => batch.rows == rows && !(report
                is Renamed) && !(report is RenameFailed),
            ImportStageView::Stopped { status } => true,
            _ => false,
        },
{
}

proof fn lemma_identity_import_skips_all(
    directory: Seq<char>,
    csv: Seq<char>,
    replies: Seq<ReplyView>,
    k: int,
)
    requires
        loads_identity_tables(replies),
        found_stays(ImporterView::start(directory, csv), replies),
        0 <= k <= replies.len(),
    ensures
        skips_all(ImporterView::start(directory, csv), replies, k),
    decreases k,
{
    let start = ImporterView::start(directory, csv);
    if k == 0 {
        assert(replies.take(0).len() == 0);
    } else {
        let j = k - 1;
        lemma_identity_import_skips_all(directory, csv, replies, j);
        lemma_import_run_step(start, replies, j);
        let prior = import_run(start, replies.take(j));
        let reply = replies[j];
        let after = import_run(start, replies.take(k));
        assert(after == prior.advance(reply));
        match (prior.stage, reply) {
            (ImportStageView::Loading { dir, csv: path }, ReplyView::Loaded(Ok(bytes))) => {
                match import_table(csv_header(bytes), csv_rows(bytes)) {
                    Ok(rows) => {
                        lemma_enter_identity(dir, rows, 0);
                    },
                    Err(_) => {},
                }
            },
            (ImportStageView::Target { batch, job }, ReplyView::Flag(false)) => {
                let asked = import_run(start, replies.take(j)).request();
                assert(asked == (RequestView::Exists { path: job.target }));
                assert(false);
            },
            (ImportStageView::Noting { batch, report }, ReplyView::Ack) => {
                lemma_enter_identity(batch.dir, batch.rows, batch.next);
            },
            _ => {},
        }
    }
}

/// A table that gives every folder its own name again renames nothing. If
/// every table read has the same name in both columns of each row, and the
/// answers agree with a file system in which a directory that was just found
/// still exists, then the import never asks for a rename, and no report says
/// that a folder was renamed or that a rename was tried and failed: each row
/// is skipped.
pub proof fn law_identity_table_renames_nothing(
    directory: Seq<char>,
    csv: Seq<char>,
    replies: Seq<ReplyView>,
)
    requires
        loads_identity_tables(replies),
        found_stays(ImporterView::start(directory, csv), replies),
    ensures
        !(import_run(ImporterView::start(directory, csv), replies).request() is Rename),
        import_run(ImporterView::start(directory, csv), replies).request() matches RequestView::Tell {
            report,
        } ==> !(report is Renamed) && !(report is RenameFailed),
{
    lemma_identity_import_skips_all(directory, csv, replies, replies.len() as int);
    assert(replies.take(replies.len() as int) == replies);
}

} // verus!
