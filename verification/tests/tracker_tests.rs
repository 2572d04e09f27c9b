use progress_logger::MemFigures;
use progress_logger::ProgressLogger;
use progress_logger::TimeUnit;
use progress_logger::LIGHT_UPDATE_MASK;

#[test]
fn not_started_line() {
    let pl = ProgressLogger::default();
    assert_eq!(pl.status_line(0, None).as_str(), "ProgressLogger not started");
    assert_eq!(pl.elapsed_at(5), None);
    assert!(pl.elapsed().is_none());
}

#[test]
fn plain_updates_count() {
    let mut pl = ProgressLogger::default();
    pl.start_at(0, "begin");
    for _ in 0..5 {
        pl.update_at(0);
    }
    assert_eq!(
        pl.status_line(0, None).as_str(),
        "5 items, 0ms, 0.00 ns/item, inf items/ns"
    );
}

#[test]
fn mixed_updates_sum_increments() {
    let mut pl = ProgressLogger::default();
    pl.start_at(0, "begin");
    for _ in 0..5 {
        pl.update_at(0);
    }
    pl.update_with_count_at(10, 0);
    assert!(pl.status_line(0, None).starts_with("15 items, "));
}

#[test]
fn singular_noun_at_one() {
    let mut pl = ProgressLogger::default();
    pl.start_at(0, "begin");
    pl.update_at(0);
    assert_eq!(
        pl.status_line(0, None).as_str(),
        "1 item, 0ms, 0.00 ns/item, inf items/ns"
    );
}

#[test]
fn start_resets_state() {
    let mut pl = ProgressLogger::default();
    pl.start_at(0, "first");
    for _ in 0..3 {
        pl.update_at(0);
    }
    pl.stop_at(5);
    pl.start_at(10, "second");
    let line = pl.status_line(10, None);
    assert_eq!(line.as_str(), "0 items, 0ms, inf d/item, 0.00 items/d");
    assert!(!line.contains("Elapsed:"));
    assert_eq!(pl.elapsed_at(10), Some(0));
}

#[test]
fn expected_total_percentage() {
    let mut pl = ProgressLogger::default();
    pl.expected_updates = Some(50);
    pl.start_at(0, "begin");
    for _ in 0..25 {
        pl.update_at(0);
    }
    assert_eq!(
        pl.status_line(1000, None).as_str(),
        "25 items, 1s 0ms, 40.00 ms/item, 25.00 items/s; 50.00% done, 961ms to end"
    );
}

#[test]
fn done_clears_expected_total() {
    let mut pl = ProgressLogger::default();
    pl.expected_updates = Some(50);
    pl.start_at(0, "begin");
    for _ in 0..25 {
        pl.update_at(0);
    }
    pl.done_at(2000);
    assert!(pl.expected_updates.is_none());
    let line = pl.status_line(3000, None);
    assert_eq!(
        line.as_str(),
        "Elapsed: 2s 0ms [25 items, 80.00 ms/item, 12.50 items/s]"
    );
    assert!(!line.contains('%'));
    assert!(!line.contains("to end"));
}

#[test]
fn done_with_count_sets_exact_final_value() {
    let mut pl = ProgressLogger::default();
    pl.start_at(0, "go");
    for _ in 0..100 {
        pl.update_at(0);
    }
    pl.done_with_count_at(100, 0);
    assert!(pl.expected_updates.is_none());
    let line = pl.status_line(0, None);
    assert_eq!(
        line.as_str(),
        "Elapsed: 0ms [100 items, 0.00 ns/item, inf items/ns]"
    );
    assert!(!line.contains('%'));
}

#[test]
fn light_updates_count_exactly() {
    let mut pl = ProgressLogger::default();
    pl.start_at(0, "begin");
    let calls = LIGHT_UPDATE_MASK + 1;
    for _ in 0..calls {
        pl.light_update_at(0);
    }
    assert!(pl.status_line(0, None).starts_with("1,048,576 items, "));
}

#[test]
fn fixed_unit_is_stable_and_ungrouped() {
    let mut pl = ProgressLogger::default();
    pl.time_unit = Some(TimeUnit::Seconds);
    pl.start_at(0, "begin");
    pl.update_with_count_at(1_000_000, 0);
    let line = pl.status_line(1000, None);
    assert_eq!(
        line.as_str(),
        "1000000 items, 1s 0ms, 0.00 s/item, 1000000.00 items/s"
    );
}

#[test]
fn stop_with_zero_count_omits_rate() {
    let mut pl = ProgressLogger::default();
    pl.start_at(0, "begin");
    pl.stop_at(5000);
    let line = pl.status_line(99_999, None);
    assert_eq!(line.as_str(), "Elapsed: 5s 0ms [0 items]");
    assert!(!line.contains("/item"));
    assert!(!line.contains("items/"));
}

#[test]
fn memory_clause_substitutes_missing_process() {
    let mut pl = ProgressLogger::default();
    pl.start_at(0, "begin");
    let mem = MemFigures { resident: None, available: 2048, free: 1024, total: 4096 };
    assert_eq!(
        pl.status_line(0, Some(mem)).as_str(),
        "0 items, 0ms, inf d/item, 0.00 items/d; used/avail/free/total mem N/AB/2.00KiB/1.00KiB/4.00KiB"
    );
}

#[test]
fn memory_clause_with_resident_figure() {
    let mut pl = ProgressLogger::default();
    pl.start_at(0, "begin");
    pl.stop_at(0);
    let mem = MemFigures { resident: Some(1536), available: 2048, free: 1024, total: 4096 };
    assert_eq!(
        pl.status_line(0, Some(mem)).as_str(),
        "Elapsed: 0ms [0 items]; used/avail/free/total mem 1.50KiB/2.00KiB/1.00KiB/4.00KiB"
    );
}

#[test]
fn throttle_marks_emitted_line() {
    let mut pl = ProgressLogger::default();
    pl.local_speed = true;
    pl.start_at(0, "begin");
    for _ in 0..5 {
        pl.update_at(0);
    }
    // The sixth update falls on the due instant: a line is emitted and the
    // interval counters are snapshotted, so the interval clause right after
    // covers no counted work.
    pl.update_at(10_000);
    assert_eq!(
        pl.status_line(10_500, None).as_str(),
        "6 items, 10s 500ms, 1.75 s/item, 34.29 items/m [inf d/item, 0.00 items/d]"
    );
}

#[test]
fn interval_speed_covers_last_interval_only() {
    let mut pl = ProgressLogger::default();
    pl.local_speed = true;
    pl.start_at(0, "begin");
    pl.update_and_display_at(300);
    pl.update_at(300);
    assert_eq!(
        pl.status_line(800, None).as_str(),
        "2 items, 800ms, 400.00 ms/item, 2.50 items/s [500.00 ms/item, 2.00 items/s]"
    );
}

#[test]
fn grouped_counter_in_final_stats() {
    let mut pl = ProgressLogger::default();
    pl.start_at(0, "begin");
    pl.done_with_count_at(1_234_567, 10);
    assert_eq!(
        pl.status_line(10, None).as_str(),
        "Elapsed: 10ms [1,234,567 items, 8.10 ns/item, 123.46 items/us]"
    );
}

#[test]
fn elapsed_measures_from_start() {
    let mut pl = ProgressLogger::default();
    pl.start_at(100, "begin");
    assert_eq!(pl.elapsed_at(350), Some(250));
    assert_eq!(pl.elapsed_at(50), Some(0));
}

#[test]
fn renamed_item_noun_is_pluralized() {
    let mut pl = ProgressLogger::default();
    pl.item_name = "pumpkin".to_string();
    pl.start_at(0, "smashing");
    pl.update_with_count_at(3, 0);
    assert_eq!(
        pl.status_line(0, None).as_str(),
        "3 pumpkins, 0ms, 0.00 ns/pumpkin, inf pumpkins/ns"
    );
}

#[test]
fn real_clock_surface() {
    let mut pl = ProgressLogger::default();
    pl.start("begin");
    pl.update();
    pl.update();
    assert!(pl.elapsed().is_some());
    let line = pl.render();
    assert!(line.starts_with("2 items, "));
    pl.stop();
    assert!(pl.render().starts_with("Elapsed: "));
    pl.done_with_count(2);
    assert!(pl.expected_updates.is_none());
}

#[test]
fn explicit_nouns_render_exactly() {
    let mut pl = ProgressLogger::default();
    pl.start_at(0, "begin");
    pl.update_with_count_at(2, 0);
    assert_eq!(
        pl.status_line_with_nouns(0, "oxen", "oxen", None).as_str(),
        "2 oxen, 0ms, 0.00 ns/item, inf oxen/ns"
    );
}

#[test]
fn setters_configure_the_tracker() {
    let mut pl = ProgressLogger::default();
    pl.set_item_name("row".to_string());
    pl.set_expected_updates(Some(4));
    pl.set_time_unit(None);
    pl.set_local_speed(false);
    pl.set_log_interval(60_000);
    pl.start_at(0, "begin");
    pl.update_at(0);
    // A minute-long interval: nothing is due yet at half a minute.
    pl.update_at(30_000);
    assert_eq!(
        pl.status_line(40_000, None).as_str(),
        "2 rows, 40s 0ms, 20.00 s/row, 3.00 rows/m; 50.00% done, 26s 666ms to end"
    );
}
