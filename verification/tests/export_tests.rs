use rename_tool::export::{
    encode_names, export_csv, list_folders, Entry, ExportStage, Exporter,
};
use rename_tool::host::{Reply, Report, Request};

fn folder(name: &str) -> Entry {
    Entry::Item { name: Some(name.to_string()), is_dir: true }
}

fn file(name: &str) -> Entry {
    Entry::Item { name: Some(name.to_string()), is_dir: false }
}

fn text(s: &str) -> String {
    s.to_string()
}

fn export_of(directory: &str, output: &str, replies: Vec<Reply>) -> (Vec<Request>, Exporter) {
    let mut exporter = Exporter::start(text(directory), text(output));
    let mut requests = vec![exporter.request()];
    for reply in replies {
        exporter = exporter.advance(reply);
        requests.push(exporter.request());
    }
    (requests, exporter)
}

#[test]
fn export_lists_folders_and_leaves_files_out() {
    let entries = vec![folder("a"), file("x"), folder("b"), folder("c")];
    assert_eq!(list_folders(&entries), vec![text("a"), text("b"), text("c")]);
    assert_eq!(export_csv(&entries), b"old_name\na\nb\nc\n".to_vec());
}

#[test]
fn export_of_empty_directory_is_header_only() {
    let entries: Vec<Entry> = Vec::new();
    assert_eq!(list_folders(&entries), Vec::<String>::new());
    assert_eq!(export_csv(&entries), b"old_name\n".to_vec());
}

#[test]
fn export_of_directory_with_files_only_is_header_only() {
    let entries = vec![file("x"), file("y")];
    assert_eq!(export_csv(&entries), b"old_name\n".to_vec());
}

#[test]
fn export_keeps_the_order_of_the_listing() {
    let entries = vec![folder("zeta"), folder("alpha"), folder("mid")];
    assert_eq!(list_folders(&entries), vec![text("zeta"), text("alpha"), text("mid")]);
    assert_eq!(export_csv(&entries), b"old_name\nzeta\nalpha\nmid\n".to_vec());
}

#[test]
fn export_skips_unreadable_and_nameless_entries() {
    let entries = vec![
        Entry::Unreadable,
        folder("a"),
        Entry::Item { name: None, is_dir: true },
        Entry::Item { name: None, is_dir: false },
        folder("b"),
    ];
    assert_eq!(list_folders(&entries), vec![text("a"), text("b")]);
}

#[test]
fn export_keeps_a_name_that_occurs_twice() {
    let entries = vec![folder("a"), folder("a")];
    assert_eq!(list_folders(&entries), vec![text("a"), text("a")]);
}

#[test]
fn export_quotes_names_where_csv_needs_it() {
    let names = vec![text("a,b"), text("say \"hi\""), text("plain name")];
    assert_eq!(
        encode_names(&names),
        b"old_name\n\"a,b\"\n\"say \"\"hi\"\"\"\nplain name\n".to_vec()
    );
}

#[test]
fn encode_names_is_not_the_identity() {
    let names = vec![text("a")];
    let bytes = encode_names(&names);
    assert_eq!(bytes, b"old_name\na\n".to_vec());
    assert_ne!(bytes, b"a".to_vec());
}

#[test]
fn exporter_with_absolute_directory_asks_whether_it_is_one() {
    let exporter = Exporter::start(text("/data"), text("out.csv"));
    assert_eq!(exporter.stage, ExportStage::Probing { dir: text("/data") });
    assert_eq!(exporter.request(), Request::IsDir { path: text("/data") });
}

#[test]
fn exporter_with_relative_directory_asks_for_the_current_directory() {
    let (requests, _) = export_of(
        "photos",
        "out.csv",
        vec![Reply::Located(Ok(text("/home/u")))],
    );
    assert_eq!(
        requests,
        vec![Request::CurrentDir, Request::IsDir { path: text("/home/u/photos") }]
    );
}

#[test]
fn exporter_fails_without_current_directory() {
    let (requests, _) = export_of(
        "photos",
        "out.csv",
        vec![Reply::Located(Err(text("gone"))), Reply::Ack],
    );
    assert_eq!(
        requests,
        vec![
            Request::CurrentDir,
            Request::Tell { report: Report::NoCurrentDir { detail: text("gone") } },
            Request::Exit { status: 1 },
        ]
    );
}

#[test]
fn exporter_on_missing_directory_fails_and_touches_no_file() {
    let (requests, _) = export_of("/nowhere", "out.csv", vec![Reply::Flag(false), Reply::Ack]);
    assert_eq!(
        requests,
        vec![
            Request::IsDir { path: text("/nowhere") },
            Request::Tell { report: Report::NotADirectory { path: text("/nowhere") } },
            Request::Exit { status: 1 },
        ]
    );
    for request in &requests {
        assert!(!matches!(request, Request::CreateFile { .. }));
        assert!(!matches!(request, Request::WriteFile { .. }));
    }
}

#[test]
fn exporter_writes_the_table_and_ends_well() {
    let (requests, _) = export_of(
        "/data",
        "folders.csv",
        vec![
            Reply::Flag(true),
            Reply::Listed(Ok(vec![folder("a"), file("x"), folder("b"), folder("c")])),
            Reply::Finished(Ok(())),
            Reply::Finished(Ok(())),
            Reply::Ack,
        ],
    );
    assert_eq!(
        requests,
        vec![
            Request::IsDir { path: text("/data") },
            Request::ListDir { path: text("/data") },
            Request::CreateFile { path: text("folders.csv") },
            Request::WriteFile {
                path: text("folders.csv"),
                bytes: b"old_name\na\nb\nc\n".to_vec(),
            },
            Request::Tell { report: Report::Wrote { path: text("folders.csv") } },
            Request::Exit { status: 0 },
        ]
    );
}

#[test]
fn exporter_fails_when_listing_fails() {
    let (requests, _) = export_of(
        "/data",
        "out.csv",
        vec![Reply::Flag(true), Reply::Listed(Err(text("denied"))), Reply::Ack],
    );
    assert_eq!(
        requests[2],
        Request::Tell {
            report: Report::ListFailed { path: text("/data"), detail: text("denied") }
        }
    );
    assert_eq!(requests[3], Request::Exit { status: 1 });
}

#[test]
fn exporter_fails_when_output_cannot_be_created() {
    let (requests, _) = export_of(
        "/data",
        "out.csv",
        vec![
            Reply::Flag(true),
            Reply::Listed(Ok(vec![folder("a")])),
            Reply::Finished(Err(text("read-only"))),
            Reply::Ack,
        ],
    );
    assert_eq!(
        requests[3],
        Request::Tell {
            report: Report::CreateFailed { path: text("out.csv"), detail: text("read-only") }
        }
    );
    assert_eq!(requests[4], Request::Exit { status: 1 });
}

#[test]
fn exporter_fails_when_output_cannot_be_written() {
    let (requests, _) = export_of(
        "/data",
        "out.csv",
        vec![
            Reply::Flag(true),
            Reply::Listed(Ok(vec![folder("a")])),
            Reply::Finished(Ok(())),
            Reply::Finished(Err(text("disk full"))),
            Reply::Ack,
        ],
    );
    assert_eq!(
        requests[4],
        Request::Tell {
            report: Report::WriteFailed { path: text("out.csv"), detail: text("disk full") }
        }
    );
    assert_eq!(requests[5], Request::Exit { status: 1 });
}

#[test]
fn exporter_stops_on_an_answer_that_does_not_fit() {
    let (requests, _) = export_of("/data", "out.csv", vec![Reply::Ack]);
    assert_eq!(requests[1], Request::Exit { status: 1 });
}

#[test]
fn exporter_stays_stopped() {
    let (requests, _) = export_of(
        "/nowhere",
        "out.csv",
        vec![Reply::Flag(false), Reply::Ack, Reply::Flag(true), Reply::Ack],
    );
    assert_eq!(requests[2], Request::Exit { status: 1 });
    assert_eq!(requests[3], Request::Exit { status: 1 });
    assert_eq!(requests[4], Request::Exit { status: 1 });
}
