use rewrite::errors::ErrorKind;
use rewrite::machine::Action;
use rewrite::machine::Event;
use rewrite::machine::Rewrite;

#[test]
fn replace_existing_file() {
    // Destination /tmp/a/out.txt holds "old"; the stream yields "new-content".
    let mut dest_content: Vec<u8> = b"old".to_vec();
    let mut temp_file: Option<Vec<u8>> = None;

    let mut m = Rewrite::new(b"/tmp/a/out.txt".to_vec()).unwrap();
    assert_eq!(m.next_action(), Action::Probe);
    assert_eq!(m.temp, b"/tmp/a/.out.txt".to_vec());
    assert_eq!(dest_content, b"old".to_vec());
    assert!(temp_file.is_none());
    m.step(Event::ProbeFree);

    assert_eq!(m.next_action(), Action::CreateTemp);
    temp_file = Some(Vec::new());
    m.step(Event::CreateOk);

    assert_eq!(m.next_action(), Action::ReadChunk);
    m.step(Event::Read(b"new-content".to_vec()));

    assert_eq!(m.next_action(), Action::WriteChunk);
    temp_file.as_mut().unwrap().extend_from_slice(&m.pending);
    let n = m.pending.len();
    m.step(Event::Wrote(n));

    assert_eq!(m.next_action(), Action::ReadChunk);
    m.step(Event::ReadEof);

    assert_eq!(m.next_action(), Action::CloseTemp);
    m.step(Event::Closed);

    assert_eq!(m.next_action(), Action::Rename);
    dest_content = temp_file.take().unwrap();
    m.step(Event::RenameOk);

    assert_eq!(m.next_action(), Action::Finish);
    assert_eq!(m.failure, None);
    assert_eq!(dest_content, b"new-content".to_vec());
    assert!(temp_file.is_none());
}

#[test]
fn empty_input_gives_empty_destination() {
    // Destination does not exist yet; the stream ends immediately.
    let mut dest_content: Option<Vec<u8>> = None;
    let mut temp_file: Option<Vec<u8>> = None;

    let mut m = Rewrite::new(b"fresh.txt".to_vec()).unwrap();
    assert_eq!(m.next_action(), Action::Probe);
    assert!(dest_content.is_none());
    assert!(temp_file.is_none());
    m.step(Event::ProbeFree);

    assert_eq!(m.next_action(), Action::CreateTemp);
    temp_file = Some(Vec::new());
    m.step(Event::CreateOk);

    assert_eq!(m.next_action(), Action::ReadChunk);
    m.step(Event::ReadEof);

    assert_eq!(m.next_action(), Action::CloseTemp);
    m.step(Event::Closed);

    assert_eq!(m.next_action(), Action::Rename);
    dest_content = temp_file.take();
    m.step(Event::RenameOk);

    assert_eq!(m.next_action(), Action::Finish);
    assert_eq!(m.failure, None);
    assert_eq!(dest_content, Some(Vec::new()));
    assert!(temp_file.is_none());
}

#[test]
fn directory_destination_is_rejected_before_any_action() {
    match Rewrite::new(b"/tmp/a/".to_vec()) {
        Err(k) => assert_eq!(k, ErrorKind::InvalidPath),
        Ok(_) => panic!("a directory-like path must be rejected"),
    }
    match Rewrite::new(b".".to_vec()) {
        Err(k) => assert_eq!(k, ErrorKind::InvalidPath),
        Ok(_) => panic!("`.` must be rejected"),
    }
    match Rewrite::new(b"..".to_vec()) {
        Err(k) => assert_eq!(k, ErrorKind::InvalidPath),
        Ok(_) => panic!("`..` must be rejected"),
    }
}

#[test]
fn occupied_candidate_is_skipped() {
    // A staging file from another invocation already sits at .out.txt, so
    // the resolver must settle on a different path.
    let mut m = Rewrite::new(b"out.txt".to_vec()).unwrap();
    let first = m.temp.clone();
    assert_eq!(first, b".out.txt".to_vec());

    assert_eq!(m.next_action(), Action::Probe);
    m.step(Event::ProbeOccupied);

    assert_eq!(m.next_action(), Action::Probe);
    assert_eq!(m.temp, b".out.txt-1".to_vec());
    assert_ne!(m.temp, first);
    m.step(Event::ProbeFree);
    assert_eq!(m.next_action(), Action::CreateTemp);
}

#[test]
fn rename_failure_falls_back_to_copy_and_delete() {
    // Same stream as the happy path, but the rename is refused
    // (cross-device); the destination must still end up correct and the
    // temporary file must be gone.
    let mut dest_content: Vec<u8> = b"old".to_vec();
    let mut temp_file: Option<Vec<u8>> = None;

    let mut m = Rewrite::new(b"/mnt/other/out.txt".to_vec()).unwrap();
    assert_eq!(dest_content, b"old".to_vec());
    m.step(Event::ProbeFree);
    temp_file = Some(Vec::new());
    m.step(Event::CreateOk);
    m.step(Event::Read(b"payload".to_vec()));
    temp_file.as_mut().unwrap().extend_from_slice(&m.pending);
    let n = m.pending.len();
    m.step(Event::Wrote(n));
    m.step(Event::ReadEof);
    m.step(Event::Closed);

    assert_eq!(m.next_action(), Action::Rename);
    m.step(Event::RenameErr);

    assert_eq!(m.next_action(), Action::CopyToDest);
    dest_content = temp_file.clone().unwrap();
    m.step(Event::CopyOk);

    assert_eq!(m.next_action(), Action::DeleteTemp);
    temp_file = None;
    m.step(Event::DeleteOk);

    assert_eq!(m.next_action(), Action::Finish);
    assert_eq!(m.failure, None);
    assert_eq!(dest_content, b"payload".to_vec());
    assert!(temp_file.is_none());
}

#[test]
fn failed_cleanup_is_reported_but_destination_is_correct() {
    let mut dest_content: Vec<u8> = b"old".to_vec();
    let mut temp_file: Option<Vec<u8>> = None;

    let mut m = Rewrite::new(b"out.txt".to_vec()).unwrap();
    assert_eq!(dest_content, b"old".to_vec());
    m.step(Event::ProbeFree);
    temp_file = Some(Vec::new());
    m.step(Event::CreateOk);
    m.step(Event::Read(b"kept".to_vec()));
    temp_file.as_mut().unwrap().extend_from_slice(&m.pending);
    let n = m.pending.len();
    m.step(Event::Wrote(n));
    m.step(Event::ReadEof);
    m.step(Event::Closed);
    m.step(Event::RenameErr);
    dest_content = temp_file.clone().unwrap();
    m.step(Event::CopyOk);
    m.step(Event::DeleteErr);

    assert_eq!(m.next_action(), Action::Finish);
    assert_eq!(m.failure, Some(ErrorKind::CleanupFailed));
    assert_eq!(dest_content, b"kept".to_vec());
    assert!(temp_file.is_some());
}

#[test]
fn failed_copy_reports_commit_failure() {
    let mut m = Rewrite::new(b"out.txt".to_vec()).unwrap();
    m.step(Event::ProbeFree);
    m.step(Event::CreateOk);
    m.step(Event::ReadEof);
    m.step(Event::Closed);
    m.step(Event::RenameErr);
    assert_eq!(m.next_action(), Action::CopyToDest);
    m.step(Event::CopyErr);
    assert_eq!(m.next_action(), Action::Finish);
    assert_eq!(m.failure, Some(ErrorKind::CommitFailed));
}

#[test]
fn failed_create_reports_create_failure() {
    let mut m = Rewrite::new(b"out.txt".to_vec()).unwrap();
    m.step(Event::ProbeFree);
    assert_eq!(m.next_action(), Action::CreateTemp);
    m.step(Event::CreateErr);
    assert_eq!(m.next_action(), Action::Finish);
    assert_eq!(m.failure, Some(ErrorKind::CreateFailed));
}

#[test]
fn failed_read_reports_read_failure() {
    let mut m = Rewrite::new(b"out.txt".to_vec()).unwrap();
    m.step(Event::ProbeFree);
    m.step(Event::CreateOk);
    m.step(Event::Read(b"partial".to_vec()));
    let n = m.pending.len();
    m.step(Event::Wrote(n));
    assert_eq!(m.next_action(), Action::ReadChunk);
    m.step(Event::ReadErr);
    assert_eq!(m.next_action(), Action::Finish);
    assert_eq!(m.failure, Some(ErrorKind::ReadFailed));
}

#[test]
fn failed_write_reports_write_failure() {
    let mut m = Rewrite::new(b"out.txt".to_vec()).unwrap();
    m.step(Event::ProbeFree);
    m.step(Event::CreateOk);
    m.step(Event::Read(b"chunk".to_vec()));
    assert_eq!(m.next_action(), Action::WriteChunk);
    m.step(Event::WriteErr);
    assert_eq!(m.next_action(), Action::Finish);
    assert_eq!(m.failure, Some(ErrorKind::WriteFailed));
}

#[test]
fn chunks_are_written_in_order() {
    // Two chunks must land in the destination in the order they were read.
    let mut temp_file: Vec<u8> = Vec::new();

    let mut m = Rewrite::new(b"out.txt".to_vec()).unwrap();
    m.step(Event::ProbeFree);
    m.step(Event::CreateOk);
    m.step(Event::Read(b"ab".to_vec()));
    temp_file.extend_from_slice(&m.pending);
    m.step(Event::Wrote(2));
    m.step(Event::Read(b"cd".to_vec()));
    temp_file.extend_from_slice(&m.pending);
    m.step(Event::Wrote(2));
    m.step(Event::ReadEof);
    m.step(Event::Closed);
    let dest_content = temp_file;
    m.step(Event::RenameOk);

    assert_eq!(m.failure, None);
    assert_eq!(dest_content, b"abcd".to_vec());
}

#[test]
fn short_writes_are_retried_until_the_chunk_is_flushed() {
    // The writer accepts the chunk in two pieces; every byte must still
    // reach the temporary file, in order, before the next read.
    let mut temp_file: Vec<u8> = Vec::new();

    let mut m = Rewrite::new(b"out.txt".to_vec()).unwrap();
    m.step(Event::ProbeFree);
    m.step(Event::CreateOk);
    m.step(Event::Read(b"abcdef".to_vec()));

    assert_eq!(m.next_action(), Action::WriteChunk);
    temp_file.extend_from_slice(&m.pending[m.sent..m.sent + 3]);
    m.step(Event::Wrote(3));

    // only part of the chunk was accepted: the remainder is resubmitted
    assert_eq!(m.next_action(), Action::WriteChunk);
    assert_eq!(m.sent, 3);
    temp_file.extend_from_slice(&m.pending[m.sent..]);
    let rest = m.pending.len() - m.sent;
    m.step(Event::Wrote(rest));

    assert_eq!(m.next_action(), Action::ReadChunk);
    m.step(Event::ReadEof);
    m.step(Event::Closed);
    let dest_content = temp_file;
    m.step(Event::RenameOk);

    assert_eq!(m.failure, None);
    assert_eq!(dest_content, b"abcdef".to_vec());
}
