use siz::args::Args;
use siz::report::{
    binary_size, exit_code_for_failure, format_report_line, metric_size, parallel_walk_step,
    render_report_lines, report_mode, sequential_walk_step, size_format, sort_records,
    u64_to_dec, walk_plan, FileRecord, ReportMode, SizeFormat, WalkEvent, WalkFilter,
};

fn record(size: u64, path: &str) -> FileRecord {
    FileRecord {
        size,
        path: path.to_string(),
    }
}

fn pairs(v: &[FileRecord]) -> Vec<(u64, String)> {
    v.iter().map(|r| (r.size, r.path.clone())).collect()
}

#[test]
fn test_sort_records_ascending_resolves_ties_by_path_ascending() {
    let mut v = vec![record(10, "b"), record(10, "a"), record(5, "c")];
    sort_records(&mut v, false);
    assert_eq!(
        pairs(&v),
        vec![
            (5, "c".to_string()),
            (10, "a".to_string()),
            (10, "b".to_string())
        ]
    );
}

#[test]
fn test_sort_records_descending_resolves_ties_by_path_descending() {
    let mut v = vec![record(10, "b"), record(10, "a"), record(5, "c")];
    sort_records(&mut v, true);
    assert_eq!(
        pairs(&v),
        vec![
            (10, "b".to_string()),
            (10, "a".to_string()),
            (5, "c".to_string())
        ]
    );
}

#[test]
fn test_u64_to_dec() {
    assert_eq!(u64_to_dec(0), "0");
    assert_eq!(u64_to_dec(7), "7");
    assert_eq!(u64_to_dec(1234567890), "1234567890");
    assert_eq!(u64_to_dec(u64::MAX), "18446744073709551615");
}

#[test]
fn test_metric_size_fmt() {
    assert_eq!(metric_size(1), "1 B");
    assert_eq!(metric_size(10), "10 B");
    assert_eq!(metric_size(100), "100 B");
    assert_eq!(metric_size(1000), "1 kB");
    assert_eq!(metric_size(10000), "10 kB");
    assert_eq!(metric_size(100000), "100 kB");
    assert_eq!(metric_size(1000000), "1 MB");
    assert_eq!(metric_size(10000000), "10 MB");
    assert_eq!(metric_size(100000000), "100 MB");
    assert_eq!(metric_size(1000000000), "1 GB");
}

#[test]
fn test_binary_size_fmt() {
    assert_eq!(binary_size(1), "1 B");
    assert_eq!(binary_size(10), "10 B");
    assert_eq!(binary_size(100), "100 B");
    assert_eq!(binary_size(1000), "1000 B");
    assert_eq!(binary_size(1024), "1 KiB");
    assert_eq!(binary_size(10000), "9.77 KiB");
    assert_eq!(binary_size(10240), "10 KiB");
    assert_eq!(binary_size(100000), "97.66 KiB");
    assert_eq!(binary_size(102400), "100 KiB");
    assert_eq!(binary_size(1000000), "976.56 KiB");
    assert_eq!(binary_size(1048576), "1 MiB");
    assert_eq!(binary_size(10000000), "9.54 MiB");
    assert_eq!(binary_size(10485760), "10 MiB");
    assert_eq!(binary_size(100000000), "95.37 MiB");
    assert_eq!(binary_size(104857600), "100 MiB");
    assert_eq!(binary_size(1000000000), "953.67 MiB");
    assert_eq!(binary_size(1073742000), "1.00 GiB");
}

#[test]
fn test_format_report_line_raw() {
    assert_eq!(
        format_report_line(1234, "a/b.txt", SizeFormat::Raw, false),
        "1234\ta/b.txt"
    );
}

#[test]
fn test_format_report_line_metric_right_justified() {
    assert_eq!(
        format_report_line(1000, "x", SizeFormat::Decimal, false),
        "     1 kB\tx"
    );
}

#[test]
fn test_format_report_line_binary_right_justified() {
    assert_eq!(
        format_report_line(1024, "x", SizeFormat::Binary, false),
        "     1 KiB\tx"
    );
}

#[test]
fn test_render_report_lines_orders_and_formats() {
    let v = vec![record(5, "c"), record(10, "a")];
    let lines = render_report_lines(&v, SizeFormat::Raw, false);
    assert_eq!(lines, vec!["5\tc".to_string(), "10\ta".to_string()]);
}

#[test]
fn test_render_report_lines_empty_walk_yields_no_lines() {
    let v: Vec<FileRecord> = Vec::new();
    let lines = render_report_lines(&v, SizeFormat::Raw, false);
    assert!(lines.is_empty());
}

#[test]
fn test_size_format_selection() {
    let mut args = Args::default();
    assert_eq!(size_format(&args), SizeFormat::Raw);
    args.metric_units = true;
    assert_eq!(size_format(&args), SizeFormat::Decimal);
    args.metric_units = false;
    args.binary_units = true;
    assert_eq!(size_format(&args), SizeFormat::Binary);
}

#[test]
fn test_report_mode_selection() {
    let mut args = Args::default();
    assert_eq!(report_mode(&args), ReportMode::SizeAscending);
    args.highlow = true;
    assert_eq!(report_mode(&args), ReportMode::SizeDescending);
    args.highlow = false;
    args.name = true;
    assert_eq!(report_mode(&args), ReportMode::NameSorted);
    args.name = false;
    args.parallel = true;
    assert_eq!(report_mode(&args), ReportMode::ParallelUnordered);
}

#[test]
fn test_walk_plan_inverts_hidden_and_carries_depth() {
    let mut args = Args::default();
    args.hidden = true;
    args.depth = Some(3);
    args.name = true;
    let plan = walk_plan(&args);
    assert!(!plan.skip_hidden);
    assert_eq!(plan.max_depth, Some(3));
    assert!(plan.sort_by_name);
    assert!(matches!(plan.filter, WalkFilter::Unfiltered));
}

#[test]
fn test_walk_plan_prefers_type_filter() {
    let mut args = Args::default();
    args.default_type = Some(vec!["rust".to_string()]);
    let plan = walk_plan(&args);
    match plan.filter {
        WalkFilter::Types(t) => assert_eq!(t, vec!["rust".to_string()]),
        _ => panic!("expected a type filter"),
    }
}

#[test]
fn test_walk_plan_uses_globs_when_no_types() {
    let mut args = Args::default();
    args.glob = Some(vec!["*.rs".to_string()]);
    let plan = walk_plan(&args);
    match plan.filter {
        WalkFilter::Globs(g) => assert_eq!(g, vec!["*.rs".to_string()]),
        _ => panic!("expected glob overrides"),
    }
}

#[test]
fn test_walk_plan_ignores_empty_glob_list() {
    let mut args = Args::default();
    args.glob = Some(Vec::new());
    let plan = walk_plan(&args);
    assert!(matches!(plan.filter, WalkFilter::Unfiltered));
}

#[test]
fn test_parallel_walk_step_continues_past_broken_pipe() {
    // a broken output pipe keeps the worker going, without a diagnostic
    let action = parallel_walk_step(WalkEvent::WriteFailed { broken_pipe: true });
    assert!(action.keep_going);
    assert!(!action.report_error);
}

#[test]
fn test_parallel_walk_step_stops_on_other_write_errors() {
    let action = parallel_walk_step(WalkEvent::WriteFailed { broken_pipe: false });
    assert!(!action.keep_going);
    assert!(action.report_error);
}

#[test]
fn test_parallel_walk_step_stops_on_entry_and_metadata_errors() {
    let entry = parallel_walk_step(WalkEvent::EntryFailed);
    assert!(!entry.keep_going);
    assert!(entry.report_error);
    let meta = parallel_walk_step(WalkEvent::MetadataFailed);
    assert!(!meta.keep_going);
    assert!(meta.report_error);
}

#[test]
fn test_parallel_walk_step_skips_directories() {
    let action = parallel_walk_step(WalkEvent::NotAFile);
    assert!(action.keep_going);
    assert!(!action.report_error);
}

#[test]
fn test_exit_code_for_failure() {
    assert_eq!(exit_code_for_failure(true), 0);
    assert_eq!(exit_code_for_failure(false), 1);
}

#[test]
fn test_args_default_values() {
    let args = Args::default();

    assert_eq!(args.path, None);
    assert_eq!(args.binary_units, false);
    assert_eq!(args.color, false);
    assert_eq!(args.depth, None);
    assert_eq!(args.follow, false);
    assert_eq!(args.glob, None);
    assert_eq!(args.hidden, false);
    assert_eq!(args.highlow, false);
    assert_eq!(args.list_types, false);
    assert_eq!(args.metric_units, false);
    assert_eq!(args.name, false);
    assert_eq!(args.parallel, false);
    assert_eq!(args.default_type, None);
}

#[test]
fn test_sequential_walk_step_aborts_on_any_failure() {
    // single-threaded modes abort even on a broken pipe; the top level
    // classifies the propagated failure instead
    assert!(!sequential_walk_step(WalkEvent::EntryFailed));
    assert!(!sequential_walk_step(WalkEvent::MetadataFailed));
    assert!(!sequential_walk_step(WalkEvent::WriteFailed { broken_pipe: true }));
    assert!(!sequential_walk_step(WalkEvent::WriteFailed { broken_pipe: false }));
}

#[test]
fn test_sequential_walk_step_continues_past_reports_and_directories() {
    assert!(sequential_walk_step(WalkEvent::WroteLine));
    assert!(sequential_walk_step(WalkEvent::NotAFile));
}

#[test]
fn test_format_report_line_color_keeps_structure() {
    // the size field, the tab and the unpainted file name survive coloring
    let line = format_report_line(5, "a/b.txt", SizeFormat::Raw, true);
    assert!(line.starts_with("5\t"));
    assert!(line.ends_with("b.txt"));
}
