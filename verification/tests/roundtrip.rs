use async_zip::base::read::mem::ZipFileReader;
use async_zip::tokio::write::ZipFileWriter;
use async_zip::{Compression, ZipEntryBuilder, ZipString};
use submit_pack::archive::Compression as Method;
use std::collections::HashMap;
use submit_pack::archive::{pack, Action, ArchiveError, Event};
use submit_pack::files::{gen_paths, WalkEntry};

/// A directory tree held in memory: the content of each file by its path.
fn tree(files: &[(&str, &[u8])]) -> HashMap<String, Vec<u8>> {
    files.iter().map(|(path, content)| (String::from(*path), content.to_vec())).collect()
}

/// Packs `paths` as a caller does: it answers each request of the packer
/// from the tree and with a real archive writer.
fn build(paths: &[String], files: &HashMap<String, Vec<u8>>) -> Result<Vec<u8>, ArchiveError> {
    let runtime = tokio::runtime::Builder::new_current_thread().build().unwrap();
    runtime.block_on(async {
        let mut writer = Some(ZipFileWriter::with_tokio(Vec::new()));
        let mut opened: Option<Vec<u8>> = None;
        let (mut packer, mut action) = pack(paths);
        loop {
            let event = match action {
                Action::Open { path } => match files.get(&path) {
                    Some(content) => {
                        opened = Some(content.clone());
                        Event::Opened
                    },
                    None => Event::OpenFailed,
                },
                Action::Read { path: _ } => match opened.take() {
                    Some(data) => Event::ReadDone { data },
                    None => Event::ReadFailed,
                },
                Action::Write { name, method, data } => {
                    let method = match method {
                        Method::Stored => Compression::Stored,
                        Method::Deflate => Compression::Deflate,
                    };
                    let entry = ZipEntryBuilder::new(ZipString::from(name.as_str()), method);
                    match writer.as_mut().unwrap().write_entry_whole(entry, &data).await {
                        Ok(()) => Event::Written,
                        Err(_) => Event::WriteFailed,
                    }
                },
                Action::Finalize => match writer.take().unwrap().close().await {
                    Ok(inner) => Event::Finalized { archive: inner.into_inner() },
                    Err(_) => Event::FinalizeFailed,
                },
                Action::Finish { result } => return result,
            };
            action = packer.advance(event).unwrap();
        }
    })
}

/// Opens an archive and gives its entries, each with its name and content,
/// in their order.
fn extract(archive: Vec<u8>) -> Vec<(String, Vec<u8>)> {
    let runtime = tokio::runtime::Builder::new_current_thread().build().unwrap();
    runtime.block_on(async {
        let reader = ZipFileReader::new(archive).await.unwrap();
        let mut entries = Vec::new();
        for index in 0..reader.file().entries().len() {
            let stored = &reader.file().entries()[index];
            assert_eq!(stored.compression(), Compression::Deflate);
            assert!(!stored.dir().unwrap());
            let name = String::from(stored.filename().as_str().unwrap());
            let mut content = Vec::new();
            let mut entry = reader.reader_with_entry(index).await.unwrap();
            entry.read_to_end_checked(&mut content).await.unwrap();
            entries.push((name, content));
        }
        entries
    })
}

#[test]
fn round_trip_of_two_files() {
    let files = tree(&[("Main.java", b"class Main{}"), ("src/util.Java", b"x")]);
    let paths = vec![String::from("Main.java"), String::from("src/util.Java")];
    let archive = build(&paths, &files).ok().unwrap();
    assert_eq!(
        extract(archive),
        vec![
            (String::from("Main.java"), b"class Main{}".to_vec()),
            (String::from("src/util.Java"), b"x".to_vec()),
        ]
    );
}

#[test]
fn round_trip_of_large_and_empty_files() {
    let large: Vec<u8> = (0..200_000u32).map(|i| (i % 251) as u8).collect();
    let files = tree(&[("empty.txt", b""), ("data/large.bin", &large), ("z", b"\x00\xff")]);
    let paths = vec![String::from("data/large.bin"), String::from("empty.txt"), String::from("z")];
    let archive = build(&paths, &files).ok().unwrap();
    assert_eq!(
        extract(archive),
        vec![
            (String::from("data/large.bin"), large),
            (String::from("empty.txt"), Vec::new()),
            (String::from("z"), vec![0, 255]),
        ]
    );
}

#[test]
fn empty_input_gives_an_empty_archive() {
    let archive = build(&[], &HashMap::new()).ok().unwrap();
    assert!(!archive.is_empty());
    assert!(extract(archive).is_empty());
}

#[test]
fn building_twice_gives_the_same_entries() {
    let files = tree(&[("a.c", b"int a;"), ("b/c.c", b"int c;"), ("b/d.h", b"")]);
    let walk = vec![
        WalkEntry::Found { path: String::from("."), is_dir: true },
        WalkEntry::Found { path: String::from("./a.c"), is_dir: false },
        WalkEntry::Found { path: String::from("./a.o"), is_dir: false },
        WalkEntry::Found { path: String::from("./b"), is_dir: true },
        WalkEntry::Found { path: String::from("./b/c.c"), is_dir: false },
        WalkEntry::Found { path: String::from("./b/d.h"), is_dir: false },
    ];
    let first = build(&gen_paths(&walk).ok().unwrap().included, &files).ok().unwrap();
    let second = build(&gen_paths(&walk).ok().unwrap().included, &files).ok().unwrap();
    let entries = extract(first);
    assert_eq!(entries, extract(second));
    assert_eq!(
        entries,
        vec![
            (String::from("a.c"), b"int a;".to_vec()),
            (String::from("b/c.c"), b"int c;".to_vec()),
            (String::from("b/d.h"), Vec::new()),
        ]
    );
}

#[test]
fn the_small_project_packs_its_one_source_file() {
    let files = tree(&[
        ("Main.java", b"public class Main {}\n"),
        ("Main.class", b"\xca\xfe\xba\xbe"),
        (".git/config", b"[core]\n"),
        ("notes.bak", b"old"),
    ]);
    let walk = vec![
        WalkEntry::Found { path: String::from("."), is_dir: true },
        WalkEntry::Found { path: String::from("./Main.java"), is_dir: false },
        WalkEntry::Found { path: String::from("./Main.class"), is_dir: false },
        WalkEntry::Found { path: String::from("./.git"), is_dir: true },
        WalkEntry::Found { path: String::from("./.git/config"), is_dir: false },
        WalkEntry::Found { path: String::from("./notes.bak"), is_dir: false },
    ];
    let selection = gen_paths(&walk).ok().unwrap();
    assert_eq!(selection.included, vec![String::from("Main.java")]);
    let archive = build(&selection.included, &files).ok().unwrap();
    assert_eq!(
        extract(archive),
        vec![(String::from("Main.java"), b"public class Main {}\n".to_vec())]
    );
}

#[test]
fn a_file_deleted_after_the_walk_fails_the_build() {
    let walk = vec![WalkEntry::Found { path: String::from("./Main.java"), is_dir: false }];
    let selection = gen_paths(&walk).ok().unwrap();
    assert_eq!(selection.included, vec![String::from("Main.java")]);
    let deleted = HashMap::new();
    match build(&selection.included, &deleted) {
        Err(ArchiveError::OpenFailed { path }) => assert_eq!(path, "Main.java"),
        _ => panic!("the build must fail on opening Main.java"),
    }
}

#[test]
fn a_failure_in_the_middle_returns_no_archive() {
    let files = tree(&[("a.c", b"a"), ("c.c", b"c")]);
    let paths = vec![String::from("a.c"), String::from("b.c"), String::from("c.c")];
    match build(&paths, &files) {
        Err(ArchiveError::OpenFailed { path }) => assert_eq!(path, "b.c"),
        _ => panic!("the build must fail on opening b.c"),
    }
}
