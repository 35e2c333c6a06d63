use raw_preview::batch::{Batch, BatchAction, BatchReport};
use raw_preview::discovery::{classify_entry, Discovery, EntryKind};
use raw_preview::error::ExtractionError;
use raw_preview::extensions::{
    ascii_lowercase, default_extension, eq_ignoring_case, is_raw_file_extension,
    output_file_name, stem_length, DEFAULT_EXTENSION_COUNT,
};
use raw_preview::extract::extract_jpeg;
use raw_preview::file_state::{FileEvent, FileState};
use raw_preview::tiff::EmbeddedJpegInfo;

fn raw_file(offset: u32, payload: &[u8]) -> Vec<u8> {
    let mut buf = vec![0x49, 0x49, 0x2A, 0x00];
    buf.extend_from_slice(&8u32.to_le_bytes());
    buf.extend_from_slice(&2u16.to_le_bytes());
    for (tag, value) in [(0x201u16, offset), (0x202u16, payload.len() as u32)] {
        buf.extend_from_slice(&tag.to_le_bytes());
        buf.extend_from_slice(&4u16.to_le_bytes());
        buf.extend_from_slice(&1u32.to_le_bytes());
        buf.extend_from_slice(&value.to_le_bytes());
    }
    buf.extend_from_slice(&0u32.to_le_bytes());
    while buf.len() < offset as usize {
        buf.push(0);
    }
    buf.extend_from_slice(payload);
    buf
}

#[test]
fn lower_case_of_ascii_letters_only() {
    assert_eq!(ascii_lowercase(b'A'), b'a');
    assert_eq!(ascii_lowercase(b'Z'), b'z');
    assert_eq!(ascii_lowercase(b'a'), b'a');
    assert_eq!(ascii_lowercase(b'@'), b'@');
    assert_eq!(ascii_lowercase(b'['), b'[');
    assert_eq!(ascii_lowercase(b'2'), b'2');
    assert_eq!(ascii_lowercase(0xC4), 0xC4);
}

#[test]
fn extensions_compare_up_to_case() {
    assert!(eq_ignoring_case(b"RAW", b"raw"));
    assert!(eq_ignoring_case(b"Cr2", b"cR2"));
    assert!(eq_ignoring_case(b"", b""));
    assert!(!eq_ignoring_case(b"raw", b"ra"));
    assert!(!eq_ignoring_case(b"raw", b"rax"));
    assert!(!eq_ignoring_case(b"a@", b"a`"));
}

#[test]
fn default_extension_list() {
    let expected = [
        "arw", "cr2", "crw", "dng", "erf", "kdc", "mef", "mrw", "nef", "nrw", "orf", "pef",
        "raf", "raw", "rw2", "rwl", "sr2", "srf", "srw", "x3f",
    ];
    assert_eq!(expected.len(), DEFAULT_EXTENSION_COUNT);
    for (i, ext) in expected.iter().enumerate() {
        assert_eq!(&default_extension(i)[..], ext.as_bytes());
        assert!(is_raw_file_extension(ext.as_bytes(), None));
        assert!(is_raw_file_extension(ext.to_uppercase().as_bytes(), None));
    }
}

#[test]
fn extension_matching() {
    assert!(is_raw_file_extension(b"RAW", None));
    assert!(is_raw_file_extension(b"raw", None));
    assert!(is_raw_file_extension(b"Raw", None));
    assert!(is_raw_file_extension(b"x3F", None));
    assert!(!is_raw_file_extension(b"jpg", None));
    assert!(!is_raw_file_extension(b"ra", None));
    assert!(!is_raw_file_extension(b"raws", None));
    assert!(!is_raw_file_extension(b"", None));
    assert!(!is_raw_file_extension(b"iiq", None));
    assert!(is_raw_file_extension(b"iiq", Some(b"iiq")));
    assert!(is_raw_file_extension(b"IIQ", Some(b"iiq")));
    assert!(is_raw_file_extension(b"nef", Some(b"iiq")));
    assert!(!is_raw_file_extension(b"jpg", Some(b"iiq")));
}

#[test]
fn entries_are_classified_by_type_and_extension() {
    assert_eq!(classify_entry(true, None, None), EntryKind::Directory);
    assert_eq!(classify_entry(true, Some(b"raw"), None), EntryKind::Directory);
    assert_eq!(classify_entry(false, Some(b"RAW"), None), EntryKind::RawFile);
    assert_eq!(classify_entry(false, Some(b"raw"), None), EntryKind::RawFile);
    assert_eq!(classify_entry(false, Some(b"txt"), None), EntryKind::Other);
    assert_eq!(classify_entry(false, None, None), EntryKind::Other);
    assert_eq!(classify_entry(false, Some(b"txt"), Some(b"TXT")), EntryKind::RawFile);
}

#[test]
fn discovery_mirrors_directories_with_raw_files() {
    // in/A/photo1.RAW, in/A/notes.txt, in/B/photo2.raw, in/C/readme.md
    let mut walk = Discovery::new("in");
    let mut mirrored = Vec::new();
    let mut listed = Vec::new();
    while let Some(dir) = walk.next_dir() {
        listed.push(dir);
        let children: Vec<(&str, bool, Option<&[u8]>)> = match dir {
            "in" => vec![("in/A", true, None), ("in/B", true, None), ("in/C", true, None)],
            "in/A" => vec![
                ("in/A/photo1.RAW", false, Some(&b"RAW"[..])),
                ("in/A/notes.txt", false, Some(&b"txt"[..])),
            ],
            "in/B" => vec![("in/B/photo2.raw", false, Some(&b"raw"[..]))],
            _ => vec![("in/C/readme.md", false, Some(&b"md"[..]))],
        };
        assert!(!walk.needs_output_dir());
        for (path, is_dir, ext) in children {
            walk.visit(path, classify_entry(is_dir, ext, None));
        }
        if walk.needs_output_dir() {
            mirrored.push(dir);
        }
    }
    assert_eq!(listed, vec!["in", "in/C", "in/B", "in/A"]);
    assert_eq!(mirrored, vec!["in/B", "in/A"]);
    assert_eq!(walk.next_dir(), None);
    assert_eq!(walk.into_entries(), vec!["in/B/photo2.raw", "in/A/photo1.RAW"]);
}

#[test]
fn matched_files_yield_their_embedded_bytes() {
    let first = raw_file(64, &[0xFF, 0xD8, 1, 2, 3, 0xFF, 0xD9]);
    let second = raw_file(40, &[0xFF, 0xD8, 9, 0xFF, 0xD9]);
    assert_eq!(extract_jpeg(&first), Ok(&[0xFFu8, 0xD8, 1, 2, 3, 0xFF, 0xD9][..]));
    assert_eq!(extract_jpeg(&second), Ok(&[0xFFu8, 0xD8, 9, 0xFF, 0xD9][..]));
}

#[test]
fn file_goes_through_its_stages_in_order() {
    let jpeg = EmbeddedJpegInfo { offset: 10, length: 5 };
    let mut state = FileState::Discovered;
    assert_eq!(state.result(), None);
    state = state.advance(FileEvent::Opened);
    assert_eq!(state, FileState::Opened);
    state = state.advance(FileEvent::Mapped);
    assert_eq!(state, FileState::Mapped);
    state = state.advance(FileEvent::Located(jpeg));
    assert_eq!(state, FileState::Located(jpeg));
    assert_eq!(state.result(), None);
    state = state.advance(FileEvent::Written);
    assert_eq!(state, FileState::Written);
    assert_eq!(state.result(), Some(Ok(())));
    assert_eq!(state.advance(FileEvent::Failed(ExtractionError::Io)), FileState::Written);
    assert_eq!(state.advance(FileEvent::Opened), FileState::Written);
}

#[test]
fn file_fails_at_any_stage_and_stays_failed() {
    let jpeg = EmbeddedJpegInfo { offset: 10, length: 5 };
    let stages = [
        FileState::Discovered,
        FileState::Opened,
        FileState::Mapped,
        FileState::Located(jpeg),
    ];
    for stage in stages {
        let failed = stage.advance(FileEvent::Failed(ExtractionError::Io));
        assert_eq!(failed, FileState::Failed(ExtractionError::Io));
        assert_eq!(failed.result(), Some(Err(ExtractionError::Io)));
        assert_eq!(failed.advance(FileEvent::Written), failed);
        assert_eq!(failed.advance(FileEvent::Failed(ExtractionError::Format)), failed);
    }
}

#[test]
fn events_out_of_turn_change_nothing() {
    let jpeg = EmbeddedJpegInfo { offset: 10, length: 5 };
    assert_eq!(FileState::Discovered.advance(FileEvent::Mapped), FileState::Discovered);
    assert_eq!(FileState::Discovered.advance(FileEvent::Written), FileState::Discovered);
    assert_eq!(FileState::Opened.advance(FileEvent::Opened), FileState::Opened);
    assert_eq!(FileState::Opened.advance(FileEvent::Located(jpeg)), FileState::Opened);
    assert_eq!(FileState::Mapped.advance(FileEvent::Written), FileState::Mapped);
    assert_eq!(FileState::Located(jpeg).advance(FileEvent::Mapped), FileState::Located(jpeg));
}

#[test]
fn one_corrupt_file_of_ten_is_reported_and_the_rest_written() {
    let mut files: Vec<Vec<u8>> = (0..10u8).map(|k| raw_file(48, &[0xFF, 0xD8, k])).collect();
    files[3][0] = b'X';
    let mut batch = Batch::new(files.len(), 8);
    let mut in_flight: Vec<usize> = Vec::new();
    let mut written: Vec<Vec<u8>> = Vec::new();
    let mut failures: Vec<(usize, ExtractionError)> = Vec::new();
    loop {
        match batch.next_action() {
            BatchAction::Start(index) => {
                assert_eq!(batch.start(), Some(index));
                in_flight.push(index);
            }
            BatchAction::Wait => {
                let index = in_flight.remove(0);
                let result = match extract_jpeg(&files[index]) {
                    Ok(bytes) => {
                        written.push(bytes.to_vec());
                        Ok(())
                    }
                    Err(e) => {
                        failures.push((index, e));
                        Err(e)
                    }
                };
                assert!(batch.finish(result));
            }
            BatchAction::Done => break,
            BatchAction::Stalled => panic!("a batch with a limit of 8 stalled"),
        }
    }
    assert!(batch.is_done());
    assert_eq!(written.len(), 9);
    assert_eq!(failures, vec![(3, ExtractionError::Format)]);
    let report = batch.report();
    assert_eq!(report, BatchReport { written: 9, failed: 1 });
    assert!(report.is_partial_failure());
}

#[test]
fn never_more_in_flight_than_the_limit() {
    for limit in 1..5usize {
        let mut batch = Batch::new(7, limit);
        let mut open = 0usize;
        let mut peak = 0usize;
        let mut started = Vec::new();
        loop {
            match batch.next_action() {
                BatchAction::Start(index) => {
                    assert_eq!(batch.start(), Some(index));
                    started.push(index);
                    open += 1;
                    peak = peak.max(open);
                    assert!(open <= limit);
                }
                BatchAction::Wait => {
                    assert!(batch.finish(Ok(())));
                    open -= 1;
                }
                BatchAction::Done => break,
                BatchAction::Stalled => panic!("stalled"),
            }
        }
        assert_eq!(peak, limit);
        assert_eq!(started, vec![0, 1, 2, 3, 4, 5, 6]);
        assert_eq!(batch.report(), BatchReport { written: 7, failed: 0 });
        assert!(!batch.report().is_partial_failure());
    }
}

#[test]
fn start_and_finish_refuse_what_the_state_forbids() {
    let mut batch = Batch::new(3, 1);
    assert!(!batch.finish(Ok(())));
    assert_eq!(batch, Batch::new(3, 1));
    assert_eq!(batch.start(), Some(0));
    assert_eq!(batch.start(), None);
    assert_eq!(batch.next_action(), BatchAction::Wait);
    assert!(batch.finish(Err(ExtractionError::Io)));
    assert_eq!(batch.start(), Some(1));
    assert!(batch.finish(Ok(())));
    assert_eq!(batch.start(), Some(2));
    assert!(batch.finish(Err(ExtractionError::NotFound)));
    assert_eq!(batch.start(), None);
    assert_eq!(batch.next_action(), BatchAction::Done);
    assert_eq!(batch.report(), BatchReport { written: 1, failed: 2 });
}

#[test]
fn empty_batch_is_done_and_zero_limit_stalls() {
    let batch = Batch::new(0, 8);
    assert_eq!(batch.next_action(), BatchAction::Done);
    assert!(batch.is_done());
    assert_eq!(batch.report(), BatchReport { written: 0, failed: 0 });
    let mut stalled = Batch::new(2, 0);
    assert_eq!(stalled.next_action(), BatchAction::Stalled);
    assert_eq!(stalled.start(), None);
    assert!(!stalled.is_done());
    assert_eq!(Batch::new(0, 0).next_action(), BatchAction::Done);
}

#[test]
fn output_file_takes_the_jpg_extension() {
    assert_eq!(output_file_name(b"photo1.RAW"), b"photo1.jpg");
    assert_eq!(output_file_name(b"photo2.raw"), b"photo2.jpg");
    assert_eq!(output_file_name(b"a.b.cr2"), b"a.b.jpg");
    assert_eq!(output_file_name(b"noext"), b"noext.jpg");
    assert_eq!(output_file_name(b".hidden"), b".hidden.jpg");
    assert_eq!(output_file_name(b".hidden.nef"), b".hidden.jpg");
    assert_eq!(output_file_name(b"dot."), b"dot.jpg");
    assert_eq!(output_file_name(b""), b".jpg");
    assert_eq!(stem_length(b"photo1.RAW"), 6);
    assert_eq!(stem_length(b".hidden"), 7);
    assert_eq!(stem_length(b""), 0);
}

#[test]
fn output_file_name_agrees_with_the_standard_library() {
    for name in ["photo1.RAW", "a.b.cr2", "noext", ".hidden", ".hidden.nef", "dot.", "..raw"] {
        let mut expected = std::path::PathBuf::from(name);
        expected.set_extension("jpg");
        assert_eq!(output_file_name(name.as_bytes()), expected.to_str().unwrap().as_bytes());
    }
}
