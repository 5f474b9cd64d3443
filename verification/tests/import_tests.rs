use rename_tool::export::export_csv;
use rename_tool::export::Entry;
use rename_tool::host::{Reply, Report, Request};
use rename_tool::import::{ImportStage, Importer};
use std::collections::{BTreeMap, BTreeSet};

fn name(s: &str) -> String {
    s.to_string()
}

/// A file system in memory: the paths that are directories, the files with
/// their bytes, and the renames that are made to fail.
struct Disk {
    dirs: BTreeSet<String>,
    files: BTreeMap<String, Vec<u8>>,
    current: Option<String>,
    stuck: BTreeSet<String>,
}

fn disk(dirs: &[&str], table: &[u8]) -> Disk {
    let mut files = BTreeMap::new();
    files.insert(name("/t.csv"), table.to_vec());
    Disk {
        dirs: dirs.iter().map(|d| d.to_string()).collect(),
        files,
        current: Some(name("/home/u")),
        stuck: BTreeSet::new(),
    }
}

fn answer(disk: &mut Disk, request: &Request) -> Reply {
    match request {
        Request::CurrentDir => match &disk.current {
            Some(c) => Reply::Located(Ok(c.clone())),
            None => Reply::Located(Err(name("no current directory"))),
        },
        Request::IsDir { path } => Reply::Flag(disk.dirs.contains(path)),
        Request::IsFile { path } => Reply::Flag(disk.files.contains_key(path)),
        Request::Exists { path } => {
            Reply::Flag(disk.dirs.contains(path) || disk.files.contains_key(path))
        }
        Request::ReadFile { path } => match disk.files.get(path) {
            Some(bytes) => Reply::Loaded(Ok(bytes.clone())),
            None => Reply::Loaded(Err(name("cannot open"))),
        },
        Request::Rename { from, to } => {
            if disk.stuck.contains(from) {
                Reply::Finished(Err(name("busy")))
            } else {
                disk.dirs.remove(from);
                disk.dirs.insert(to.clone());
                Reply::Finished(Ok(()))
            }
        }
        Request::Tell { .. } => Reply::Ack,
        _ => panic!("an import does not ask for this"),
    }
}

/// Runs an import to its end; gives the requests made and the exit status.
fn import_on(disk: &mut Disk, directory: &str, csv: &str) -> (Vec<Request>, u8) {
    let mut importer = Importer::start(name(directory), name(csv));
    let mut requests = Vec::new();
    loop {
        let request = importer.request();
        if let Request::Exit { status } = request {
            return (requests, status);
        }
        let reply = answer(disk, &request);
        requests.push(request);
        importer = importer.advance(reply);
    }
}

fn reports(requests: &[Request]) -> Vec<Report> {
    let mut told = Vec::new();
    for request in requests {
        if let Request::Tell { report } = request {
            told.push(report.duplicate());
        }
    }
    told
}

fn renames(requests: &[Request]) -> Vec<(String, String)> {
    let mut made = Vec::new();
    for request in requests {
        if let Request::Rename { from, to } = request {
            made.push((from.clone(), to.clone()));
        }
    }
    made
}

fn set(dirs: &[&str]) -> BTreeSet<String> {
    dirs.iter().map(|d| d.to_string()).collect()
}

#[test]
fn import_applies_rows_in_order_and_goes_on_after_a_skip() {
    let mut disk = disk(
        &["/d", "/d/a", "/d/existing"],
        b"old_name,new_name\na,b\nmissing,c\na,existing\n",
    );
    let (requests, status) = import_on(&mut disk, "/d", "/t.csv");
    assert_eq!(status, 0);
    assert_eq!(
        reports(&requests),
        vec![
            Report::Renamed { old_name: name("a"), new_name: name("b") },
            Report::SourceMissing { row: 1, path: name("/d/missing") },
            Report::SourceMissing { row: 2, path: name("/d/a") },
        ]
    );
    assert_eq!(renames(&requests), vec![(name("/d/a"), name("/d/b"))]);
    assert_eq!(disk.dirs, set(&["/d", "/d/b", "/d/existing"]));
}

#[test]
fn import_never_overwrites_an_existing_target() {
    let mut disk = disk(
        &["/d", "/d/a", "/d/b", "/d/existing"],
        b"old_name,new_name\na,b\nmissing,c\na,existing\n",
    );
    let (requests, status) = import_on(&mut disk, "/d", "/t.csv");
    assert_eq!(status, 0);
    assert_eq!(
        reports(&requests),
        vec![
            Report::TargetExists { row: 0, path: name("/d/b") },
            Report::SourceMissing { row: 1, path: name("/d/missing") },
            Report::TargetExists { row: 2, path: name("/d/existing") },
        ]
    );
    assert!(renames(&requests).is_empty());
    assert_eq!(disk.dirs, set(&["/d", "/d/a", "/d/b", "/d/existing"]));
}

#[test]
fn import_does_not_take_a_file_for_a_free_name() {
    let mut disk = disk(&["/d", "/d/a"], b"old_name,new_name\na,notes.txt\n");
    disk.files.insert(name("/d/notes.txt"), Vec::new());
    let (requests, status) = import_on(&mut disk, "/d", "/t.csv");
    assert_eq!(status, 0);
    assert_eq!(
        reports(&requests),
        vec![Report::TargetExists { row: 0, path: name("/d/notes.txt") }]
    );
    assert!(renames(&requests).is_empty());
}

#[test]
fn import_asks_in_the_order_source_target_rename() {
    let mut disk = disk(&["/d", "/d/a"], b"old_name,new_name\na,b\n");
    let (requests, status) = import_on(&mut disk, "/d", "/t.csv");
    assert_eq!(status, 0);
    assert_eq!(
        requests,
        vec![
            Request::IsDir { path: name("/d") },
            Request::IsFile { path: name("/t.csv") },
            Request::ReadFile { path: name("/t.csv") },
            Request::IsDir { path: name("/d/a") },
            Request::Exists { path: name("/d/b") },
            Request::Rename { from: name("/d/a"), to: name("/d/b") },
            Request::Tell { report: Report::Renamed { old_name: name("a"), new_name: name("b") } },
        ]
    );
}

#[test]
fn import_of_a_table_that_keeps_every_name_touches_nothing() {
    let mut disk = disk(
        &["/d", "/d/a", "/d/b", "/d/c"],
        b"old_name,new_name\na,a\nb,b\nc,c\n",
    );
    let (requests, status) = import_on(&mut disk, "/d", "/t.csv");
    assert_eq!(status, 0);
    assert_eq!(
        reports(&requests),
        vec![
            Report::TargetExists { row: 0, path: name("/d/a") },
            Report::TargetExists { row: 1, path: name("/d/b") },
            Report::TargetExists { row: 2, path: name("/d/c") },
        ]
    );
    assert!(renames(&requests).is_empty());
    assert_eq!(disk.dirs, set(&["/d", "/d/a", "/d/b", "/d/c"]));
}

#[test]
fn import_of_an_export_as_it_stands_is_refused_for_its_header() {
    let listing = vec![
        Entry::Item { name: Some(name("a")), is_dir: true },
        Entry::Item { name: Some(name("b")), is_dir: true },
    ];
    let exported = export_csv(&listing);
    let mut disk = disk(&["/d", "/d/a", "/d/b"], &exported);
    let (requests, status) = import_on(&mut disk, "/d", "/t.csv");
    assert_eq!(status, 1);
    assert_eq!(reports(&requests), vec![Report::InvalidHeaders { path: name("/t.csv") }]);
    assert!(renames(&requests).is_empty());
    assert_eq!(disk.dirs, set(&["/d", "/d/a", "/d/b"]));
}

#[test]
fn import_with_wrong_header_fails_and_renames_nothing() {
    let mut disk = disk(&["/d", "/d/a"], b"foo,bar\na,b\n");
    let (requests, status) = import_on(&mut disk, "/d", "/t.csv");
    assert_eq!(status, 1);
    assert_eq!(reports(&requests), vec![Report::InvalidHeaders { path: name("/t.csv") }]);
    assert!(renames(&requests).is_empty());
    assert_eq!(disk.dirs, set(&["/d", "/d/a"]));
}

#[test]
fn import_with_unreadable_header_fails() {
    let mut disk = disk(&["/d", "/d/a"], b"old_name,new\xff_name\na,b\n");
    let (requests, status) = import_on(&mut disk, "/d", "/t.csv");
    assert_eq!(status, 1);
    let told = reports(&requests);
    assert_eq!(told.len(), 1);
    assert!(matches!(&told[0], Report::HeaderUnreadable { path, .. } if path == "/t.csv"));
    assert!(told[0].message().starts_with("Failed to read CSV headers /t.csv: "));
    assert!(renames(&requests).is_empty());
}

#[test]
fn import_skips_rows_without_a_name() {
    let mut disk = disk(
        &["/d", "/d/a", "/d/c"],
        b"old_name,new_name\n  ,b\na,\" \"\nc\nc,d\n",
    );
    let (requests, status) = import_on(&mut disk, "/d", "/t.csv");
    assert_eq!(status, 0);
    assert_eq!(
        reports(&requests),
        vec![
            Report::RowEmpty { row: 0 },
            Report::RowEmpty { row: 1 },
            Report::RowEmpty { row: 2 },
            Report::Renamed { old_name: name("c"), new_name: name("d") },
        ]
    );
    assert_eq!(disk.dirs, set(&["/d", "/d/a", "/d/d"]));
}

#[test]
fn import_reports_an_unreadable_row_and_goes_on() {
    let mut disk = disk(&["/d", "/d/a", "/d/c"], b"old_name,new_name\n\xff,b\nc,d\n");
    let (requests, status) = import_on(&mut disk, "/d", "/t.csv");
    assert_eq!(status, 0);
    let told = reports(&requests);
    assert_eq!(told.len(), 2);
    assert!(matches!(&told[0], Report::RowUnreadable { row: 0, .. }));
    assert!(told[0].message().starts_with("Failed to read CSV row 2: "));
    assert_eq!(told[1], Report::Renamed { old_name: name("c"), new_name: name("d") });
}

#[test]
fn import_reports_a_failed_rename_and_goes_on() {
    let mut disk = disk(&["/d", "/d/a", "/d/c"], b"old_name,new_name\na,b\nc,d\n");
    disk.stuck.insert(name("/d/a"));
    let (requests, status) = import_on(&mut disk, "/d", "/t.csv");
    assert_eq!(status, 0);
    assert_eq!(
        reports(&requests),
        vec![
            Report::RenameFailed {
                row: 0,
                old_name: name("a"),
                new_name: name("b"),
                detail: name("busy"),
            },
            Report::Renamed { old_name: name("c"), new_name: name("d") },
        ]
    );
    assert_eq!(disk.dirs, set(&["/d", "/d/a", "/d/d"]));
}

#[test]
fn import_trims_names_before_it_joins_them() {
    let mut disk = disk(&["/d", "/d/a"], b"old_name,new_name\n  a  ,  b  \n");
    let (requests, _) = import_on(&mut disk, "/d", "/t.csv");
    assert_eq!(renames(&requests), vec![(name("/d/a"), name("/d/b"))]);
}

#[test]
fn import_of_an_empty_table_ends_well() {
    let mut disk = disk(&["/d"], b"old_name,new_name\n");
    let (requests, status) = import_on(&mut disk, "/d", "/t.csv");
    assert_eq!(status, 0);
    assert!(reports(&requests).is_empty());
}

#[test]
fn import_into_a_missing_directory_fails() {
    let mut disk = disk(&[], b"old_name,new_name\na,b\n");
    let (requests, status) = import_on(&mut disk, "/d", "/t.csv");
    assert_eq!(status, 1);
    assert_eq!(
        requests,
        vec![
            Request::IsDir { path: name("/d") },
            Request::Tell { report: Report::NotADirectory { path: name("/d") } },
        ]
    );
}

#[test]
fn import_of_a_missing_table_fails() {
    let mut disk = disk(&["/d"], b"");
    let (requests, status) = import_on(&mut disk, "/d", "/other.csv");
    assert_eq!(status, 1);
    assert_eq!(reports(&requests), vec![Report::NotAFile { path: name("/other.csv") }]);
}

#[test]
fn import_fails_when_the_table_cannot_be_read() {
    let mut importer = Importer::start(name("/d"), name("/t.csv"));
    importer = importer.advance(Reply::Flag(true));
    importer = importer.advance(Reply::Flag(true));
    assert_eq!(importer.request(), Request::ReadFile { path: name("/t.csv") });
    importer = importer.advance(Reply::Loaded(Err(name("denied"))));
    assert_eq!(
        importer.request(),
        Request::Tell {
            report: Report::CsvUnreadable { path: name("/t.csv"), detail: name("denied") }
        }
    );
    importer = importer.advance(Reply::Ack);
    assert_eq!(importer.request(), Request::Exit { status: 1 });
}

#[test]
fn import_resolves_both_paths_against_the_current_directory() {
    let mut disk = disk(&["/home/u/d", "/home/u/d/a"], b"");
    disk.files.insert(name("/home/u/t.csv"), b"old_name,new_name\na,b\n".to_vec());
    let (requests, status) = import_on(&mut disk, "d", "t.csv");
    assert_eq!(status, 0);
    assert_eq!(
        requests[..5],
        [
            Request::CurrentDir,
            Request::IsDir { path: name("/home/u/d") },
            Request::CurrentDir,
            Request::IsFile { path: name("/home/u/t.csv") },
            Request::ReadFile { path: name("/home/u/t.csv") },
        ]
    );
    assert_eq!(renames(&requests), vec![(name("/home/u/d/a"), name("/home/u/d/b"))]);
}

#[test]
fn import_fails_without_current_directory() {
    let mut disk = disk(&["/d"], b"old_name,new_name\n");
    disk.current = None;
    let (requests, status) = import_on(&mut disk, "/d", "t.csv");
    assert_eq!(status, 1);
    assert_eq!(
        reports(&requests),
        vec![Report::NoCurrentDir { detail: name("no current directory") }]
    );
}

#[test]
fn import_stops_on_an_answer_that_does_not_fit() {
    let importer = Importer::start(name("/d"), name("/t.csv"));
    let importer = importer.advance(Reply::Finished(Ok(())));
    assert_eq!(importer.stage, ImportStage::Stopped { status: 1 });
    assert_eq!(importer.request(), Request::Exit { status: 1 });
    let importer = importer.advance(Reply::Flag(true));
    assert_eq!(importer.request(), Request::Exit { status: 1 });
}
