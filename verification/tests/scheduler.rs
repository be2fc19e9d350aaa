use smartness::ratio::Operation;
use smartness::ratio::RatioParameters;
use smartness::scheduler::run_mode;
use smartness::scheduler::RunMode;
use smartness::scheduler::ScheduleState;
use smartness::scheduler::TickAction;
use smartness::settings::SmartnessSettings;

fn record(fields: &[&str]) -> Vec<String> {
    fields.iter().map(|field| field.to_string()).collect()
}

fn settings(cycles: Option<i64>, running_time: Option<i64>) -> SmartnessSettings {
    SmartnessSettings {
        workers: None,
        dataset_path: String::new(),
        metrics_dir: String::new(),
        cycles,
        running_time,
        tasks_per_sec: None,
        reads_rate: None,
        reads_interval: None,
        task_interval: None,
        cols_qty: None,
        cassandra_host: None,
        cassandra_port: None,
        cassandra_username: None,
        cassandra_password: None,
        write_script: None,
        read_script: None,
        startup_enabled: None,
        startup_create_schema_script: None,
        startup_drop_table_script: None,
        startup_create_table_script: None,
        warmup_enabled: None,
        warmup_qty_ops: None,
        metrics_window_size: None,
        metrics_drain_interval_minutes: None,
        no_metrics: None,
    }
}

#[test]
fn the_running_time_takes_precedence_over_the_cycles() {
    assert_eq!(run_mode(&settings(Some(7), Some(3))), Some(RunMode::TimeBounded(3)));
    assert_eq!(run_mode(&settings(None, Some(3))), Some(RunMode::TimeBounded(3)));
    assert_eq!(run_mode(&settings(Some(7), None)), Some(RunMode::CycleBounded(7)));
    assert_eq!(run_mode(&settings(None, None)), None);
}

#[test]
fn a_time_bounded_run_counts_from_one_and_a_cycle_bounded_from_zero() {
    let params = RatioParameters::new(100, 10).unwrap();
    assert_eq!(ScheduleState::new(RunMode::TimeBounded(1), params).count, 1);
    assert_eq!(ScheduleState::new(RunMode::CycleBounded(1), params).count, 0);
}

#[test]
fn a_run_of_n_cycles_dispatches_n_plus_one_operations() {
    let params = RatioParameters::new(100, 10).unwrap();
    for cycles in [0i64, 1, 3, 20] {
        let mut state = ScheduleState::new(RunMode::CycleBounded(cycles), params);
        let mut dispatched = 0i64;
        for _ in 0..cycles + 10 {
            if state.is_finished() {
                break;
            }
            match state.on_tick(Some(record(&["row"]))) {
                TickAction::Dispatch { .. } => dispatched += 1,
                other => panic!("no dispatch: {:?}", other),
            }
        }
        assert_eq!(dispatched, cycles + 1);
        assert!(state.is_finished());
        assert_eq!(state.on_tick(Some(record(&["row"]))), TickAction::Finished);
        assert_eq!(state.count, cycles as u64 + 1);
    }
}

#[test]
fn a_run_of_three_cycles_dispatches_the_indices_zero_to_three() {
    let params = RatioParameters::new(100, 30).unwrap();
    let mut state = ScheduleState::new(RunMode::CycleBounded(3), params);
    let expected = [Operation::Read, Operation::Write, Operation::Read, Operation::Write];
    for (index, operation) in expected.iter().enumerate() {
        assert_eq!(
            state.on_tick(Some(record(&["r", "s"]))),
            TickAction::Dispatch {
                operation: *operation,
                index: index as u64,
                record: record(&["r", "s"]),
            }
        );
    }
    assert_eq!(state.on_tick(Some(record(&["r", "s"]))), TickAction::Finished);
    assert_eq!(state.on_tick(None), TickAction::Finished);
}

#[test]
fn a_run_of_negative_cycles_dispatches_nothing() {
    let params = RatioParameters::new(100, 10).unwrap();
    let mut state = ScheduleState::new(RunMode::CycleBounded(-1), params);
    assert!(state.is_finished());
    assert_eq!(state.on_tick(Some(record(&["row"]))), TickAction::Finished);
    assert_eq!(state.count, 0);
}

#[test]
fn a_tick_without_a_record_dispatches_nothing_and_keeps_the_counter() {
    let params = RatioParameters::new(100, 10).unwrap();
    let mut state = ScheduleState::new(RunMode::CycleBounded(2), params);
    assert_eq!(state.on_tick(None), TickAction::Idle);
    assert_eq!(state.count, 0);
    assert!(!state.is_finished());
    let mut timed = ScheduleState::new(RunMode::TimeBounded(1), params);
    assert_eq!(timed.on_tick(None), TickAction::Idle);
    assert_eq!(timed.count, 1);
}

#[test]
fn a_time_bounded_run_keeps_the_ratio_and_does_not_finish() {
    let params = RatioParameters::new(100, 10).unwrap();
    let mut state = ScheduleState::new(RunMode::TimeBounded(1), params);
    let mut reads = 0;
    for tick in 1..=900u64 {
        match state.on_tick(Some(record(&["row"]))) {
            TickAction::Dispatch { operation, index, record: fields } => {
                assert_eq!(index, tick);
                assert_eq!(fields, record(&["row"]));
                let expected = if tick % 9 == 0 { Operation::Read } else { Operation::Write };
                assert_eq!(operation, expected);
                if operation == Operation::Read {
                    reads += 1;
                }
            },
            other => panic!("no dispatch: {:?}", other),
        }
    }
    assert_eq!(reads, 100);
    assert!(!state.is_finished());
    assert_eq!(state.count, 901);
}

#[test]
fn a_run_ends_where_no_index_is_left() {
    let params = RatioParameters::new(100, 10).unwrap();
    let mut state = ScheduleState { mode: RunMode::TimeBounded(1), params, count: u64::MAX - 1 };
    assert_eq!(
        state.on_tick(Some(record(&["row"]))),
        TickAction::Dispatch {
            operation: Operation::Write,
            index: u64::MAX - 1,
            record: record(&["row"]),
        }
    );
    assert!(state.is_finished());
    assert_eq!(state.on_tick(Some(record(&["row"]))), TickAction::Finished);
    assert_eq!(state.count, u64::MAX);
}
