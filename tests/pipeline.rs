use digest::Digest;
use meowhash::MeowHasher;

use recursum::config::{
    is_stdin_marker, or_num_cpus, plan_input, queue_length, InputError, InputPlan,
};
use recursum::hashers::HashType;
use recursum::job::HashJob;
use recursum::output::{average_rate, ResultOutput, Summary};
use recursum::text::{digest_text, format_line, resolve_separator, truncate_digest};
use recursum::window::{run_order, Action, Window};

fn reference_hex(data: &[u8]) -> String {
    hex::encode(MeowHasher::digest(data))
}

fn hash_in_memory(chunks: &[&[u8]], limit: Option<usize>) -> (String, u64) {
    let mut job = HashJob::new();
    for c in chunks {
        job.update(c);
    }
    job.finish(limit)
}

/// Runs the window over in-memory files, the way the program drives it over
/// real ones, and returns the output lines and the sink.
fn run_in_memory(
    files: &[(&str, &[u8])],
    n_jobs: usize,
    sink: &mut ResultOutput,
) -> Vec<String> {
    let mut window = Window::new(n_jobs);
    let mut next_path = 0usize;
    let mut held = None;
    let mut running = std::collections::VecDeque::new();
    let mut lines = Vec::new();
    loop {
        match window.next_action() {
            Action::Pull => {
                if next_path < files.len() {
                    held = Some(files[next_path]);
                    next_path += 1;
                    window.path_taken();
                } else {
                    window.source_closed();
                }
            }
            Action::Spawn(_) => {
                let (path, data) = held.take().unwrap();
                let (hash, size) = hash_in_memory(&[data], None);
                running.push_back((path, hash, size));
                assert!(running.len() <= n_jobs);
                window.spawned();
            }
            Action::AwaitHead(_) => {
                let (path, hash, size) = running.pop_front().unwrap();
                lines.push(sink.handle_output(path, &hash, size));
                window.head_emitted();
            }
            Action::Finish => break,
        }
    }
    lines
}

#[test]
fn directory_default_order_and_separator() {
    let files: [(&str, &[u8]); 2] = [("a.txt", b"hello"), ("b/c.txt", b"world")];
    let sep = resolve_separator(None, false);
    let mut sink = ResultOutput::with_default_progress(&sep, false);
    let lines = run_in_memory(&files, 2, &mut sink);
    assert_eq!(lines.len(), 2);
    assert_eq!(lines[0], format!("a.txt\t{}", reference_hex(b"hello")));
    assert_eq!(lines[1], format!("b/c.txt\t{}", reference_hex(b"world")));
    let summary = sink.finish(1_000_000_000).unwrap();
    assert_eq!(summary, Summary { files: 2, bytes: 10, rate: 10 });
}

#[test]
fn directory_compatible_mode() {
    let files: [(&str, &[u8]); 2] = [("a.txt", b"hello"), ("b/c.txt", b"world")];
    let sep = resolve_separator(None, true);
    assert_eq!(sep, "  ");
    let mut sink = ResultOutput::with_default_progress(&sep, true);
    let lines = run_in_memory(&files, 2, &mut sink);
    assert_eq!(lines.len(), 2);
    assert_eq!(lines[0], format!("{}  a.txt", reference_hex(b"hello")));
    assert_eq!(lines[1], format!("{}  b/c.txt", reference_hex(b"world")));
}

#[test]
fn single_file_same_digest_as_pipeline() {
    let mut single = ResultOutput::with_default_progress("\t", false);
    let (hash, size) = hash_in_memory(&[b"hello"], None);
    let line = single.handle_output("a.txt", &hash, size);
    let summary = single.finish(2_000_000_000).unwrap();
    assert_eq!(summary, Summary { files: 1, bytes: 5, rate: 2 });

    let mut piped = ResultOutput::new("\t", false);
    let files: [(&str, &[u8]); 1] = [("a.txt", b"hello")];
    let lines = run_in_memory(&files, 4, &mut piped);
    assert_eq!(lines, vec![line]);
}

#[test]
fn empty_stream_gives_no_lines_and_zero_summary() {
    let mut sink = ResultOutput::with_default_progress("\t", false);
    let lines = run_in_memory(&[], 3, &mut sink);
    assert!(lines.is_empty());
    assert_eq!(sink.finish(1_000).unwrap(), Summary { files: 0, bytes: 0, rate: 0 });
    let (order, peak) = run_order(3, 0);
    assert!(order.is_empty());
    assert_eq!(peak, 0);
}

#[test]
fn line_count_and_digests_match_reference() {
    let contents: Vec<Vec<u8>> = (0..7u8).map(|i| vec![i; 100 * i as usize]).collect();
    let names: Vec<String> = (0..7).map(|i| format!("f{}", i)).collect();
    let files: Vec<(&str, &[u8])> =
        names.iter().map(|n| n.as_str()).zip(contents.iter().map(|c| c.as_slice())).collect();
    let mut sink = ResultOutput::new("\t", false);
    let lines = run_in_memory(&files, 3, &mut sink);
    assert_eq!(lines.len(), 7);
    for (i, line) in lines.iter().enumerate() {
        assert_eq!(*line, format!("f{}\t{}", i, reference_hex(&contents[i])));
    }
}

#[test]
fn chunking_does_not_change_digest() {
    let whole = hash_in_memory(&[b"hello world"], None);
    let split = hash_in_memory(&[b"hel", b"", b"lo wor", b"ld"], None);
    assert_eq!(whole, split);
    assert_eq!(whole.0, reference_hex(b"hello world"));
    assert_eq!(whole.1, 11);
    assert_eq!(whole.0.len(), 256);
}

#[test]
fn emission_order_is_admission_order() {
    for n_jobs in 1..5 {
        for n_paths in 0..12u64 {
            let (order, peak) = run_order(n_jobs, n_paths);
            assert_eq!(order, (0..n_paths).collect::<Vec<u64>>());
            assert_eq!(peak as u64, n_paths.min(n_jobs as u64));
        }
    }
}

#[test]
fn window_actions_for_two_jobs_three_paths() {
    let mut w = Window::new(2);
    assert_eq!(w.next_action(), Action::Pull);
    w.path_taken();
    assert_eq!(w.next_action(), Action::Spawn(0));
    w.spawned();
    assert_eq!(w.next_action(), Action::Pull);
    w.path_taken();
    assert_eq!(w.next_action(), Action::Spawn(1));
    w.spawned();
    assert_eq!(w.next_action(), Action::Pull);
    w.path_taken();
    assert_eq!(w.next_action(), Action::AwaitHead(0));
    w.head_emitted();
    assert_eq!(w.next_action(), Action::Spawn(2));
    w.spawned();
    assert_eq!(w.admitted_count(), 3);
    assert_eq!(w.next_action(), Action::Pull);
    w.source_closed();
    assert_eq!(w.next_action(), Action::AwaitHead(1));
    w.head_emitted();
    assert_eq!(w.next_action(), Action::AwaitHead(2));
    w.head_emitted();
    assert_eq!(w.next_action(), Action::Finish);
}

#[test]
fn truncation_is_prefix_and_idempotent() {
    assert_eq!(truncate_digest("abcdef", Some(3)), "abc");
    assert_eq!(truncate_digest(&truncate_digest("abcdef", Some(3)), Some(3)), "abc");
    assert_eq!(truncate_digest("abcdef", Some(6)), "abcdef");
    assert_eq!(truncate_digest("abcdef", Some(10)), "abcdef");
    assert_eq!(truncate_digest("abcdef", Some(0)), "");
    assert_eq!(truncate_digest("abcdef", None), "abcdef");
}

#[test]
fn truncated_hashing_is_deterministic() {
    let first = hash_in_memory(&[b"hello"], Some(8));
    let second = hash_in_memory(&[b"hello"], Some(8));
    assert_eq!(first, second);
    assert_eq!(first.0, reference_hex(b"hello")[..8].to_string());
}

#[test]
fn digest_text_is_lowercase_hex() {
    assert_eq!(digest_text(&[0x00, 0xab, 0xff, 0x10], None), "00abff10");
    assert_eq!(digest_text(&[0x00, 0xab, 0xff, 0x10], Some(3)), "00a");
    assert_eq!(digest_text(&[], None), "");
}

#[test]
fn format_line_orders_fields() {
    assert_eq!(format_line("p", "d", "\t", false), "p\td");
    assert_eq!(format_line("p", "d", "  ", true), "d  p");
    assert_eq!(format_line("dir/x y", "00ff", "\0", false), "dir/x y\000ff");
}

#[test]
fn separator_escapes_and_defaults() {
    assert_eq!(resolve_separator(Some("\\t".to_string()), false), "\t");
    assert_eq!(resolve_separator(Some("\\0".to_string()), true), "\0");
    assert_eq!(resolve_separator(Some(",".to_string()), true), ",");
    assert_eq!(resolve_separator(Some("\\t,".to_string()), false), "\\t,");
    assert_eq!(resolve_separator(None, false), "\t");
    assert_eq!(resolve_separator(None, true), "  ");
}

#[test]
fn quiet_sink_keeps_no_totals() {
    let mut sink = ResultOutput::new("\t", false);
    assert!(sink.is_quiet());
    let line = sink.handle_output("x", "ab", 42);
    assert_eq!(line, "x\tab");
    assert_eq!(sink.files(), 0);
    assert_eq!(sink.bytes(), 0);
    assert_eq!(sink.finish(10), None);
}

#[test]
fn loud_sink_counts_files_and_bytes() {
    let mut sink = ResultOutput::with_default_progress("\t", true);
    assert!(!sink.is_quiet());
    assert_eq!(sink.handle_output("x", "ab", 42), "ab\tx");
    assert_eq!(sink.handle_output("y", "cd", 8), "cd\ty");
    assert_eq!(sink.files(), 2);
    assert_eq!(sink.bytes(), 50);
    assert_eq!(sink.finish(500_000_000), Some(Summary { files: 2, bytes: 50, rate: 100 }));
}

#[test]
fn average_rate_values() {
    assert_eq!(average_rate(1000, 1_000_000_000), 1000);
    assert_eq!(average_rate(5, 2_000_000_000), 2);
    assert_eq!(average_rate(3, 1_500_000_000), 2);
    assert_eq!(average_rate(0, 0), 0);
    assert_eq!(average_rate(1, 0), u64::MAX);
    assert_eq!(average_rate(u64::MAX, 1), u64::MAX);
}

#[test]
fn queue_length_values() {
    assert_eq!(queue_length(4), 12);
    assert_eq!(queue_length(0), 0);
    assert_eq!(queue_length(usize::MAX), usize::MAX);
}

#[test]
fn worker_counts() {
    assert_eq!(or_num_cpus(Some(5)), 5);
    assert!(or_num_cpus(None) >= 1);
}

#[test]
fn input_plans() {
    assert_eq!(plan_input(0, false, false, false), Err(InputError::NoInput));
    assert_eq!(plan_input(1, true, false, false), Ok(InputPlan::Stdin));
    assert_eq!(plan_input(1, false, true, false), Ok(InputPlan::Directory));
    assert_eq!(plan_input(1, false, false, true), Ok(InputPlan::SingleFile));
    assert_eq!(plan_input(1, false, false, false), Err(InputError::NotFileOrDirectory));
    assert_eq!(plan_input(3, false, false, false), Ok(InputPlan::Files));
    assert!(is_stdin_marker("-"));
    assert!(!is_stdin_marker("--"));
    assert!(!is_stdin_marker("a"));
    assert!(!is_stdin_marker(""));
}

#[test]
fn hash_types_are_distinct() {
    assert_ne!(HashType::Meow, HashType::Sha256);
    assert_eq!(HashType::Blake3, HashType::Blake3);
}
