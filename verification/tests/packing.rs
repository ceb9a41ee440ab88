use submit_pack::archive::{pack, Action, ArchiveError, Compression, Event, Packer};

fn paths(names: &[&str]) -> Vec<String> {
    names.iter().map(|name| String::from(*name)).collect()
}

/// Hands `event` over, after checking that the packer waits for it.
fn answer(packer: &mut Packer, event: Event) -> Action {
    assert!(packer.expects(&event));
    packer.advance(event).unwrap()
}

fn expect_open(action: Action, wanted: &str) {
    match action {
        Action::Open { path } => assert_eq!(path, wanted),
        _ => panic!("the packer must ask to open {wanted}"),
    }
}

fn expect_read(action: Action, wanted: &str) {
    match action {
        Action::Read { path } => assert_eq!(path, wanted),
        _ => panic!("the packer must ask to read {wanted}"),
    }
}

fn expect_write(action: Action, wanted: &str, content: &[u8]) {
    match action {
        Action::Write { name, method, data } => {
            assert_eq!(name, wanted);
            assert_eq!(method, Compression::Deflate);
            assert_eq!(data, content);
        },
        _ => panic!("the packer must ask to write {wanted}"),
    }
}

fn expect_finalize(action: Action) {
    match action {
        Action::Finalize => {},
        _ => panic!("the packer must ask to end the archive"),
    }
}

fn expect_finish(action: Action) -> Result<Vec<u8>, ArchiveError> {
    match action {
        Action::Finish { result } => result,
        _ => panic!("the packer must stop"),
    }
}

#[test]
fn packing_nothing_ends_the_archive_at_once() {
    let (mut packer, first) = pack(&[]);
    assert_eq!(packer.total(), 0);
    assert_eq!(packer.completed(), 0);
    assert!(!packer.is_finished());
    expect_finalize(first);
    let last = answer(&mut packer, Event::Finalized { archive: vec![80, 75, 5, 6] });
    assert_eq!(expect_finish(last).ok(), Some(vec![80, 75, 5, 6]));
    assert!(packer.is_finished());
}

#[test]
fn packing_two_files_in_order() {
    let (mut packer, first) = pack(&paths(&["Main.java", "src/util.Java"]));
    assert_eq!(packer.total(), 2);
    expect_open(first, "Main.java");
    expect_read(answer(&mut packer, Event::Opened), "Main.java");
    let write = answer(&mut packer, Event::ReadDone { data: b"class Main{}".to_vec() });
    expect_write(write, "Main.java", b"class Main{}");
    assert_eq!(packer.completed(), 0);
    expect_open(answer(&mut packer, Event::Written), "src/util.Java");
    assert_eq!(packer.completed(), 1);
    expect_read(answer(&mut packer, Event::Opened), "src/util.Java");
    expect_write(answer(&mut packer, Event::ReadDone { data: b"x".to_vec() }), "src/util.Java", b"x");
    expect_finalize(answer(&mut packer, Event::Written));
    assert_eq!(packer.completed(), 2);
    assert!(!packer.is_finished());
    let last = answer(&mut packer, Event::Finalized { archive: vec![1, 2, 3] });
    assert_eq!(expect_finish(last).ok(), Some(vec![1, 2, 3]));
    assert!(packer.is_finished());
    assert_eq!(packer.completed(), 2);
}

#[test]
fn a_file_that_cannot_be_opened_ends_the_packing() {
    let (mut packer, first) = pack(&paths(&["Main.java"]));
    expect_open(first, "Main.java");
    match expect_finish(answer(&mut packer, Event::OpenFailed)) {
        Err(ArchiveError::OpenFailed { path }) => assert_eq!(path, "Main.java"),
        _ => panic!("the packing must fail on opening"),
    }
    assert!(packer.is_finished());
    assert_eq!(packer.completed(), 0);
}

#[test]
fn a_file_that_cannot_be_read_ends_the_packing() {
    let (mut packer, first) = pack(&paths(&["a.c", "b.c"]));
    expect_open(first, "a.c");
    expect_read(answer(&mut packer, Event::Opened), "a.c");
    match expect_finish(answer(&mut packer, Event::ReadFailed)) {
        Err(ArchiveError::ReadFailed { path }) => assert_eq!(path, "a.c"),
        _ => panic!("the packing must fail on reading"),
    }
    assert!(packer.is_finished());
}

#[test]
fn an_entry_that_cannot_be_written_ends_the_packing() {
    let (mut packer, _) = pack(&paths(&["a.c", "b.c"]));
    answer(&mut packer, Event::Opened);
    answer(&mut packer, Event::ReadDone { data: vec![1] });
    expect_open(answer(&mut packer, Event::Written), "b.c");
    answer(&mut packer, Event::Opened);
    expect_write(answer(&mut packer, Event::ReadDone { data: vec![2, 3] }), "b.c", &[2, 3]);
    match expect_finish(answer(&mut packer, Event::WriteFailed)) {
        Err(ArchiveError::WriteFailed { path }) => assert_eq!(path, "b.c"),
        _ => panic!("the packing must fail on writing"),
    }
    assert!(packer.is_finished());
    assert_eq!(packer.completed(), 1);
}

#[test]
fn an_archive_that_cannot_be_ended_is_an_error() {
    let (mut packer, _) = pack(&paths(&["a.c"]));
    answer(&mut packer, Event::Opened);
    answer(&mut packer, Event::ReadDone { data: vec![] });
    expect_finalize(answer(&mut packer, Event::Written));
    match expect_finish(answer(&mut packer, Event::FinalizeFailed)) {
        Err(ArchiveError::FinalizeFailed) => {},
        _ => panic!("the packing must fail on ending the archive"),
    }
    assert!(packer.is_finished());
}

#[test]
fn the_packer_expects_the_answer_to_its_request_only() {
    let (mut packer, _) = pack(&paths(&["a.c"]));
    assert!(packer.expects(&Event::Opened));
    assert!(packer.expects(&Event::OpenFailed));
    assert!(!packer.expects(&Event::ReadDone { data: vec![] }));
    assert!(!packer.expects(&Event::ReadFailed));
    assert!(!packer.expects(&Event::Written));
    assert!(!packer.expects(&Event::WriteFailed));
    assert!(!packer.expects(&Event::Finalized { archive: vec![] }));
    assert!(!packer.expects(&Event::FinalizeFailed));
    packer.advance(Event::Opened);
    assert!(packer.expects(&Event::ReadDone { data: vec![] }));
    assert!(packer.expects(&Event::ReadFailed));
    assert!(!packer.expects(&Event::Opened));
    assert!(!packer.expects(&Event::Written));
    packer.advance(Event::ReadDone { data: vec![] });
    assert!(packer.expects(&Event::Written));
    assert!(packer.expects(&Event::WriteFailed));
    assert!(!packer.expects(&Event::ReadFailed));
    assert!(!packer.expects(&Event::FinalizeFailed));
    packer.advance(Event::Written);
    assert!(packer.expects(&Event::Finalized { archive: vec![] }));
    assert!(packer.expects(&Event::FinalizeFailed));
    assert!(!packer.expects(&Event::Opened));
    assert!(!packer.expects(&Event::WriteFailed));
    packer.advance(Event::FinalizeFailed);
    assert!(!packer.expects(&Event::Opened));
    assert!(!packer.expects(&Event::ReadFailed));
    assert!(!packer.expects(&Event::Written));
    assert!(!packer.expects(&Event::Finalized { archive: vec![] }));
    assert!(!packer.expects(&Event::FinalizeFailed));
}

#[test]
fn an_event_that_answers_nothing_is_passed_over() {
    let (mut packer, first) = pack(&paths(&["a.c"]));
    expect_open(first, "a.c");
    assert_eq!(packer.advance(Event::Written), None);
    assert_eq!(packer.advance(Event::ReadDone { data: vec![1] }), None);
    assert_eq!(packer.advance(Event::Finalized { archive: vec![1] }), None);
    assert_eq!(packer.completed(), 0);
    assert!(!packer.is_finished());
    expect_read(answer(&mut packer, Event::Opened), "a.c");
    assert_eq!(packer.advance(Event::Opened), None);
    assert_eq!(packer.advance(Event::WriteFailed), None);
    expect_write(answer(&mut packer, Event::ReadDone { data: vec![7] }), "a.c", &[7]);
    assert_eq!(packer.advance(Event::ReadFailed), None);
    expect_finalize(answer(&mut packer, Event::Written));
    assert_eq!(packer.advance(Event::Written), None);
    assert_eq!(packer.completed(), 1);
    let last = answer(&mut packer, Event::Finalized { archive: vec![5] });
    assert_eq!(last, Action::Finish { result: Ok(vec![5]) });
    assert_eq!(packer.advance(Event::Finalized { archive: vec![5] }), None);
    assert_eq!(packer.advance(Event::Opened), None);
    assert!(packer.is_finished());
}

#[test]
fn archive_error_messages() {
    let open = ArchiveError::OpenFailed { path: String::from("Main.java") };
    assert_eq!(open.message(), "Could not open file 'Main.java'");
    let read = ArchiveError::ReadFailed { path: String::from("src/a.c") };
    assert_eq!(read.message(), "Could not read file 'src/a.c'");
    let write = ArchiveError::WriteFailed { path: String::from("b") };
    assert_eq!(write.message(), "Failed to add 'b' to zip file");
    assert_eq!(ArchiveError::FinalizeFailed.message(), "Unable to write zip file");
}
