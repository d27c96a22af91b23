use rat::diag::{
    display_token, guard_diagnostic, is_inherited_token, open_diagnostic, OpenFailure,
};
use rat::driver::{plan_source, tokens_or_default, ProbeOutcome, Session, SourcePlan};
use rat::engine::{CopyEngine, EngineAction, FlushOutcome, ReadOutcome, WriteOutcome};
use rat::stat::{FileKind, StatInfo};
use rat::strategy::{CopyOptions, Strategy};

fn regular(dev: u64, ino: u64, size: u64) -> StatInfo {
    StatInfo { kind: FileKind::Regular, dev, ino, size, pipe_capacity: 0 }
}

fn plain_opts() -> CopyOptions {
    CopyOptions { strict: false, no_iocopy: false, unbuffered: false }
}

const PAGE: u64 = 4096;

/// Run one source's chunks through an engine against an in-memory sink and
/// record the result in the session. Returns whether the run proceeds.
fn copy_source(session: &mut Session, chunks: Vec<Vec<u8>>, sink: &mut Vec<u8>) -> bool {
    let mut engine = CopyEngine::start(Strategy::Stream);
    for chunk in chunks {
        if let EngineAction::WriteChunk(data) = engine.on_read(ReadOutcome::Data(chunk)) {
            sink.extend_from_slice(&data);
            engine.on_write(WriteOutcome::Done);
        } else {
            panic!("expected a write action after data");
        }
    }
    engine.on_read(ReadOutcome::Eof);
    engine.on_flush(FlushOutcome::Done);
    assert!(engine.succeeded());
    session.record_copy(&engine)
}

#[test]
fn no_tokens_defaults_to_inherited_input() {
    let tokens = tokens_or_default(Vec::new());
    assert_eq!(tokens, vec![String::from("-")]);
}

#[test]
fn supplied_tokens_are_kept_as_given() {
    let tokens = tokens_or_default(vec![String::from("a.txt"), String::from("-")]);
    assert_eq!(tokens, vec![String::from("a.txt"), String::from("-")]);
}

#[test]
fn inherited_token_spellings() {
    assert!(is_inherited_token("-"));
    assert!(is_inherited_token("/dev/stdin"));
    assert!(is_inherited_token("/proc/self/fd/0"));
    assert!(!is_inherited_token("a.txt"));
    assert!(!is_inherited_token("/dev/stdout"));
}

#[test]
fn inherited_input_is_displayed_as_dash() {
    assert_eq!(display_token("/dev/stdin"), "-");
    assert_eq!(display_token("-"), "-");
    assert_eq!(display_token("a.txt"), "a.txt");
}

#[test]
fn not_found_diagnostic_text() {
    let d = open_diagnostic("rat", "nope.txt", &OpenFailure::NotFound);
    assert_eq!(d, "rat: nope.txt: No such file or directory");
}

#[test]
fn permission_denied_diagnostic_text() {
    let d = open_diagnostic("rat", "secret.txt", &OpenFailure::PermissionDenied);
    assert_eq!(d, "rat: secret.txt: Permission denied");
}

#[test]
fn other_open_failure_passes_the_kernel_message_through() {
    let d = open_diagnostic("rat", "t", &OpenFailure::Other(String::from("Is a directory")));
    assert_eq!(d, "rat: t: Is a directory");
}

#[test]
fn self_copy_diagnostic_text() {
    let d = guard_diagnostic("rat", "f");
    assert_eq!(d, "rat: f: input file is output file");
}

#[test]
fn self_copy_diagnostic_reports_inherited_input_as_dash() {
    let d = guard_diagnostic("rat", "/dev/stdin");
    assert_eq!(d, "rat: -: input file is output file");
}

#[test]
fn plan_refuses_nonempty_self_copy() {
    let sink = regular(5, 77, 3);
    let probe = ProbeOutcome::Stat(regular(5, 77, 3));
    let plan = plan_source("rat", "f", &probe, &sink, PAGE, false, &plain_opts());
    match plan {
        SourcePlan::Refuse(d) => assert_eq!(d, "rat: f: input file is output file"),
        SourcePlan::Copy(..) => panic!("a nonempty self-copy must be refused"),
    }
}

#[test]
fn plan_allows_empty_self_copy() {
    let sink = regular(5, 77, 0);
    let probe = ProbeOutcome::Stat(regular(5, 77, 0));
    let plan = plan_source("rat", "f", &probe, &sink, PAGE, false, &plain_opts());
    assert!(matches!(plan, SourcePlan::Copy(..)));
}

#[test]
fn plan_copies_distinct_regular_files_kernel_assisted() {
    let sink = regular(5, 78, 0);
    let probe = ProbeOutcome::Stat(regular(5, 77, 3));
    let plan = plan_source("rat", "a.txt", &probe, &sink, PAGE, false, &plain_opts());
    match plan {
        SourcePlan::Copy(bufsize, strategy) => {
            assert_eq!(bufsize, 131072);
            assert_eq!(strategy, Strategy::KernelAssisted);
        }
        SourcePlan::Refuse(d) => panic!("unexpected refusal: {d}"),
    }
}

#[test]
fn plan_refuses_a_failed_probe_with_its_message() {
    let sink = regular(5, 78, 0);
    let probe = ProbeOutcome::ProbeFailed(String::from("Bad file descriptor"));
    let plan = plan_source("rat", "weird", &probe, &sink, PAGE, false, &plain_opts());
    match plan {
        SourcePlan::Refuse(d) => assert_eq!(d, "rat: weird: Bad file descriptor"),
        SourcePlan::Copy(..) => panic!("a failed probe must refuse the source"),
    }
}

#[test]
fn empty_run_exits_zero_with_no_output() {
    let mut session = Session::begin(plain_opts());
    let mut sink: Vec<u8> = Vec::new();
    let proceed = copy_source(&mut session, Vec::new(), &mut sink);
    assert!(proceed);
    assert!(sink.is_empty());
    assert_eq!(session.exit_code(), 0);
}

#[test]
fn three_sources_concatenate_in_order_and_exit_zero() {
    let mut session = Session::begin(plain_opts());
    let mut sink: Vec<u8> = Vec::new();
    copy_source(&mut session, vec![b"hello\n".to_vec()], &mut sink);
    copy_source(&mut session, vec![b"MID\n".to_vec()], &mut sink);
    copy_source(&mut session, vec![b"world\n".to_vec()], &mut sink);
    assert_eq!(sink, b"hello\nMID\nworld\n".to_vec());
    assert_eq!(session.exit_code(), 0);
}

#[test]
fn reordered_tokens_reorder_the_output() {
    let mut session = Session::begin(plain_opts());
    let mut sink: Vec<u8> = Vec::new();
    copy_source(&mut session, vec![b"world\n".to_vec()], &mut sink);
    copy_source(&mut session, vec![b"hello\n".to_vec()], &mut sink);
    assert_eq!(sink, b"world\nhello\n".to_vec());
    assert_eq!(session.exit_code(), 0);
}

#[test]
fn missing_file_then_existing_file_continues_and_exits_one() {
    let mut session = Session::begin(plain_opts());
    let mut sink: Vec<u8> = Vec::new();
    // First token: the open failed; report and move on.
    let proceed = session.record_failure();
    assert!(proceed);
    // Second token: an existing file is still copied in full.
    copy_source(&mut session, vec![b"hello\n".to_vec()], &mut sink);
    assert_eq!(sink, b"hello\n".to_vec());
    assert_eq!(session.exit_code(), 1);
}

#[test]
fn strict_run_stops_at_the_first_failure() {
    let strict = CopyOptions { strict: true, no_iocopy: false, unbuffered: false };
    let mut session = Session::begin(strict);
    let proceed = session.record_failure();
    assert!(!proceed);
    assert_eq!(session.exit_code(), 1);
}

#[test]
fn refused_self_copy_emits_no_bytes_and_exits_one() {
    let sink_stat = regular(5, 77, 3);
    let probe = ProbeOutcome::Stat(regular(5, 77, 3));
    let mut session = Session::begin(plain_opts());
    let sink: Vec<u8> = Vec::new();
    let plan = plan_source("rat", "f", &probe, &sink_stat, PAGE, false, &plain_opts());
    match plan {
        SourcePlan::Refuse(_) => {
            session.record_failure();
        }
        SourcePlan::Copy(..) => panic!("a nonempty self-copy must be refused"),
    }
    assert!(sink.is_empty());
    assert_eq!(session.exit_code(), 1);
}

#[test]
fn empty_self_copy_succeeds_with_no_bytes() {
    let sink_stat = regular(5, 77, 0);
    let probe = ProbeOutcome::Stat(regular(5, 77, 0));
    let mut session = Session::begin(plain_opts());
    let mut sink: Vec<u8> = Vec::new();
    let plan = plan_source("rat", "f", &probe, &sink_stat, PAGE, false, &plain_opts());
    assert!(matches!(plan, SourcePlan::Copy(..)));
    copy_source(&mut session, Vec::new(), &mut sink);
    assert!(sink.is_empty());
    assert_eq!(session.exit_code(), 0);
}
