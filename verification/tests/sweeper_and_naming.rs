use fb2_gateway::identity::{output_file_name, start_work, WorkItem};
use fb2_gateway::invoker::{classify_outcome, converter_argv, ExitClass, ProcessOutcome};
use fb2_gateway::sweeper::{plan_sweep, should_delete, ScratchEntry};

fn bytes_of(s: &str) -> Vec<u8> {
    s.as_bytes().to_vec()
}

fn entry(path: &str, last_modified: u64, is_dir: bool) -> ScratchEntry {
    ScratchEntry { path: bytes_of(path), last_modified, is_dir }
}

const THRESHOLD: u64 = 10_800;

const NOW: u64 = 1_000_000;

#[test]
fn sweep_deletes_only_entries_past_threshold() {
    // One entry a second older than the threshold, one a second younger:
    // the sweep takes only the former.
    let entries = vec![
        entry("old.fb2", NOW - THRESHOLD - 1, false),
        entry("young.fb2", NOW - THRESHOLD + 1, false),
    ];
    let plan = plan_sweep(entries, NOW, THRESHOLD);
    assert_eq!(plan.len(), 1);
    assert_eq!(plan[0].path, bytes_of("old.fb2"));
}

#[test]
fn sweep_keeps_entry_exactly_threshold_old() {
    let entries = vec![entry("boundary.fb2", NOW - THRESHOLD, false)];
    let plan = plan_sweep(entries, NOW, THRESHOLD);
    assert_eq!(plan.len(), 0);
}

#[test]
fn sweep_keeps_future_stamped_entries() {
    let entries = vec![entry("future.fb2", NOW + 50, false)];
    let plan = plan_sweep(entries, NOW, THRESHOLD);
    assert_eq!(plan.len(), 0);
}

#[test]
fn sweep_of_empty_directory_is_empty() {
    let plan = plan_sweep(Vec::new(), NOW, THRESHOLD);
    assert_eq!(plan.len(), 0);
}

#[test]
fn sweep_preserves_order_and_entry_kind() {
    let entries = vec![
        entry("a.epub", 0, false),
        entry("keep.fb2", NOW, false),
        entry("stale-dir", 1, true),
        entry("b.mobi", 2, false),
    ];
    let plan = plan_sweep(entries, NOW, THRESHOLD);
    assert_eq!(plan.len(), 3);
    assert_eq!(plan[0].path, bytes_of("a.epub"));
    assert!(!plan[0].is_dir);
    assert_eq!(plan[1].path, bytes_of("stale-dir"));
    assert!(plan[1].is_dir);
    assert_eq!(plan[2].path, bytes_of("b.mobi"));
    assert!(!plan[2].is_dir);
}

#[test]
fn nothing_expires_when_clock_is_within_threshold() {
    // With `now` no larger than the threshold no entry can be old enough.
    let e = entry("anything", 0, false);
    assert!(!should_delete(&e, THRESHOLD, THRESHOLD));
    assert!(!should_delete(&e, 0, THRESHOLD));
    assert!(should_delete(&e, THRESHOLD + 1, THRESHOLD));
}

#[test]
fn start_work_shapes_identity_and_input_name() {
    let w = start_work(bytes_of("epub"));
    assert_eq!(w.id.len(), 36);
    for (i, b) in w.id.iter().enumerate() {
        if i == 8 || i == 13 || i == 18 || i == 23 {
            assert_eq!(*b, 45u8, "hyphen expected at {}", i);
        } else {
            assert!(
                (48..=57).contains(b) || (97..=102).contains(b),
                "lowercase hex digit expected at {}",
                i
            );
        }
    }
    assert_eq!(w.input_name.len(), 40);
    assert_eq!(&w.input_name[..36], &w.id[..]);
    assert_eq!(&w.input_name[36..], bytes_of(".fb2").as_slice());
    assert_eq!(w.format_raw, bytes_of("epub"));
}

#[test]
fn output_file_name_appends_format_verbatim() {
    let w = WorkItem {
        id: bytes_of("0123456789abcdef"),
        format_raw: bytes_of("MoBi"),
        input_name: bytes_of("0123456789abcdef.fb2"),
    };
    assert_eq!(output_file_name(&w), bytes_of("0123456789abcdef.MoBi"));
}

#[test]
fn converter_argv_is_exact() {
    let w = WorkItem {
        id: bytes_of("some-id"),
        format_raw: bytes_of("epub"),
        input_name: bytes_of("some-id.fb2"),
    };
    let argv = converter_argv(&w);
    assert_eq!(argv.len(), 4);
    assert_eq!(argv[0], bytes_of("convert"));
    assert_eq!(argv[1], bytes_of("--to"));
    assert_eq!(argv[2], bytes_of("epub"));
    assert_eq!(argv[3], bytes_of("some-id.fb2"));
}

#[test]
fn conversion_plan_is_deterministic() {
    // Byte-identical work items always yield byte-identical converter
    // command lines and output names.
    let w = WorkItem {
        id: bytes_of("fixed-id"),
        format_raw: bytes_of("epub"),
        input_name: bytes_of("fixed-id.fb2"),
    };
    let again = WorkItem {
        id: bytes_of("fixed-id"),
        format_raw: bytes_of("epub"),
        input_name: bytes_of("fixed-id.fb2"),
    };
    assert_eq!(converter_argv(&w), converter_argv(&again));
    assert_eq!(output_file_name(&w), output_file_name(&again));
}

#[test]
fn distinct_identities_give_distinct_file_names() {
    let a = start_work(bytes_of("epub"));
    let b = start_work(bytes_of("mobi"));
    if a.id != b.id {
        assert_ne!(a.input_name, b.input_name);
        assert_ne!(output_file_name(&a), output_file_name(&b));
        assert_ne!(a.input_name, output_file_name(&b));
    }
    assert_ne!(a.input_name, output_file_name(&a));
}

#[test]
fn exit_codes_are_classified_exactly() {
    assert_eq!(classify_outcome(&ProcessOutcome::Exited(0)), ExitClass::Success);
    assert_eq!(classify_outcome(&ProcessOutcome::Exited(1)), ExitClass::DocumentRejected);
    assert_eq!(classify_outcome(&ProcessOutcome::Exited(-1)), ExitClass::DocumentRejected);
    assert_eq!(classify_outcome(&ProcessOutcome::Exited(127)), ExitClass::DocumentRejected);
    assert_eq!(classify_outcome(&ProcessOutcome::NoExitCode), ExitClass::Infrastructure);
    assert_eq!(classify_outcome(&ProcessOutcome::SpawnFailed), ExitClass::Infrastructure);
    assert_eq!(classify_outcome(&ProcessOutcome::TimedOut), ExitClass::Infrastructure);
}
