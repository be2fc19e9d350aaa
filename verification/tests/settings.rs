use smartness::error::SmartnessError;
use smartness::settings::SmartnessConfig;
use smartness::settings::SmartnessSettings;
use smartness::settings::ALL_COLUMNS;
use smartness::settings::DEFAULT_READS_RATE;
use smartness::settings::DEFAULT_TASKS_PER_SEC;

fn text(value: &str) -> Option<String> {
    Some(value.to_string())
}

fn complete() -> SmartnessSettings {
    SmartnessSettings {
        workers: Some(4),
        dataset_path: "data/rows.csv".to_string(),
        metrics_dir: "metrics".to_string(),
        cycles: Some(1000),
        running_time: None,
        tasks_per_sec: Some(200),
        reads_rate: Some(0.25f32.to_bits()),
        reads_interval: None,
        task_interval: None,
        cols_qty: Some(3),
        cassandra_host: text("localhost"),
        cassandra_port: Some(9042),
        cassandra_username: text("cassandra"),
        cassandra_password: text("SECRET-REDACTED"),
        write_script: text("INSERT INTO ks.t (id, a, b, c) VALUES (?, ?, ?, ?)"),
        read_script: text("SELECT * FROM ks.t LIMIT 1"),
        startup_enabled: Some(true),
        startup_create_schema_script: text("CREATE KEYSPACE ks"),
        startup_drop_table_script: text("DROP TABLE ks.t"),
        startup_create_table_script: text("CREATE TABLE ks.t"),
        warmup_enabled: Some(true),
        warmup_qty_ops: Some(10),
        metrics_window_size: Some(100),
        metrics_drain_interval_minutes: Some(1),
        no_metrics: Some(false),
    }
}

fn reads_of(settings: &SmartnessSettings) -> i64 {
    let tasks = settings.effective_tasks_per_sec();
    let rate = f32::from_bits(settings.effective_reads_rate());
    (tasks as f32 * rate).floor() as i64
}

#[test]
fn a_complete_configuration_is_accepted_with_its_derived_fields() {
    let raw = complete();
    let reads = reads_of(&raw);
    assert_eq!(reads, 50);
    let settings = SmartnessSettings::new(raw.clone(), reads).unwrap();
    assert_eq!(settings.reads_interval, Some(3));
    assert_eq!(settings.task_interval, Some(5_000_000));
    assert_eq!(settings.tasks_per_sec, Some(200));
    assert_eq!(settings.reads_rate, Some(0.25f32.to_bits()));
    assert_eq!(settings.cols_qty, Some(3));
    let expected = SmartnessSettings {
        reads_interval: Some(3),
        task_interval: Some(5_000_000),
        ..raw
    };
    assert_eq!(settings, expected);
}

#[test]
fn defaults_are_a_hundred_operations_a_tenth_of_them_reads_and_all_columns() {
    let mut raw = complete();
    raw.tasks_per_sec = None;
    raw.reads_rate = None;
    raw.cols_qty = None;
    assert_eq!(raw.effective_tasks_per_sec(), 100);
    assert_eq!(raw.effective_tasks_per_sec(), DEFAULT_TASKS_PER_SEC);
    assert_eq!(raw.effective_reads_rate(), DEFAULT_READS_RATE);
    assert_eq!(f32::from_bits(DEFAULT_READS_RATE), 0.1f32);
    let reads = reads_of(&raw);
    assert_eq!(reads, 10);
    let settings = SmartnessSettings::new(raw, reads).unwrap();
    assert_eq!(settings.tasks_per_sec, Some(100));
    assert_eq!(settings.reads_rate, Some(0.1f32.to_bits()));
    assert_eq!(settings.reads_interval, Some(9));
    assert_eq!(settings.task_interval, Some(10_000_000));
    assert_eq!(settings.cols_qty, Some(-1));
    assert_eq!(ALL_COLUMNS, -1);
}

#[test]
fn a_run_needs_cycles_or_a_running_time() {
    let mut raw = complete();
    raw.cycles = None;
    raw.running_time = None;
    assert_eq!(SmartnessSettings::new(raw, 50), Err(SmartnessError::CyclesOrRunningTimeRequired));
    let mut timed = complete();
    timed.cycles = None;
    timed.running_time = Some(5);
    assert!(SmartnessSettings::new(timed, 50).is_ok());
}

#[test]
fn the_host_is_required() {
    let mut raw = complete();
    raw.cassandra_host = None;
    assert_eq!(SmartnessSettings::new(raw, 50), Err(SmartnessError::CassandraHostRequired));
}

#[test]
fn the_port_is_required() {
    let mut raw = complete();
    raw.cassandra_port = None;
    assert_eq!(SmartnessSettings::new(raw, 50), Err(SmartnessError::CassandraPortRequired));
}

#[test]
fn user_name_and_password_are_both_required() {
    let mut raw = complete();
    raw.cassandra_username = None;
    assert_eq!(
        SmartnessSettings::new(raw, 50),
        Err(SmartnessError::CassandraUsernameAndPasswordAreRequired)
    );
    let mut raw = complete();
    raw.cassandra_password = None;
    assert_eq!(
        SmartnessSettings::new(raw, 50),
        Err(SmartnessError::CassandraUsernameAndPasswordAreRequired)
    );
}

#[test]
fn the_rate_must_be_positive_and_the_reads_within_it() {
    let mut raw = complete();
    raw.tasks_per_sec = Some(0);
    assert_eq!(SmartnessSettings::new(raw, 0), Err(SmartnessError::RatioParametersInvalid));
    let mut raw = complete();
    raw.tasks_per_sec = Some(-5);
    assert_eq!(SmartnessSettings::new(raw, 0), Err(SmartnessError::RatioParametersInvalid));
    assert_eq!(SmartnessSettings::new(complete(), -1), Err(SmartnessError::RatioParametersInvalid));
    assert_eq!(SmartnessSettings::new(complete(), 201), Err(SmartnessError::RatioParametersInvalid));
    assert!(SmartnessSettings::new(complete(), 200).is_ok());
    assert!(SmartnessSettings::new(complete(), 0).is_ok());
}

#[test]
fn the_write_statement_is_required() {
    let mut raw = complete();
    raw.write_script = None;
    assert_eq!(SmartnessSettings::new(raw, 50), Err(SmartnessError::WriteScriptRequired));
}

#[test]
fn the_read_statement_is_required() {
    let mut raw = complete();
    raw.read_script = None;
    assert_eq!(SmartnessSettings::new(raw, 50), Err(SmartnessError::ReadScriptRequired));
}

#[test]
fn an_enabled_startup_needs_its_three_statements() {
    let mut raw = complete();
    raw.startup_create_schema_script = None;
    assert_eq!(SmartnessSettings::new(raw, 50), Err(SmartnessError::StartuptScriptsRequired));
    let mut raw = complete();
    raw.startup_drop_table_script = None;
    assert_eq!(SmartnessSettings::new(raw, 50), Err(SmartnessError::StartuptScriptsRequired));
    let mut raw = complete();
    raw.startup_create_table_script = None;
    assert_eq!(SmartnessSettings::new(raw, 50), Err(SmartnessError::StartuptScriptsRequired));
}

#[test]
fn a_startup_that_is_off_needs_no_statements() {
    let mut raw = complete();
    raw.startup_enabled = Some(false);
    raw.startup_create_schema_script = None;
    raw.startup_drop_table_script = None;
    raw.startup_create_table_script = None;
    let settings = SmartnessSettings::new(raw, 50).unwrap();
    assert!(!settings.startup_is_enabled());
    let mut raw = complete();
    raw.startup_enabled = None;
    raw.startup_create_table_script = None;
    let settings = SmartnessSettings::new(raw, 50).unwrap();
    assert!(!settings.startup_is_enabled());
    assert!(complete().startup_is_enabled());
}

#[test]
fn an_enabled_warmup_needs_its_number_of_operations() {
    let mut raw = complete();
    raw.warmup_qty_ops = None;
    assert_eq!(SmartnessSettings::new(raw, 50), Err(SmartnessError::WarmupQtyOpsRequired));
    let mut raw = complete();
    raw.warmup_enabled = Some(false);
    raw.warmup_qty_ops = None;
    let settings = SmartnessSettings::new(raw, 50).unwrap();
    assert!(!settings.warmup_is_enabled());
    assert!(complete().warmup_is_enabled());
}

#[test]
fn the_first_broken_rule_is_the_one_reported() {
    let mut raw = complete();
    raw.cycles = None;
    raw.cassandra_host = None;
    raw.write_script = None;
    assert_eq!(
        SmartnessSettings::new(raw.clone(), 50),
        Err(SmartnessError::CyclesOrRunningTimeRequired)
    );
    raw.cycles = Some(1);
    assert_eq!(SmartnessSettings::new(raw.clone(), 50), Err(SmartnessError::CassandraHostRequired));
    raw.cassandra_host = text("localhost");
    raw.cassandra_port = None;
    raw.cassandra_password = None;
    assert_eq!(SmartnessSettings::new(raw.clone(), 50), Err(SmartnessError::CassandraPortRequired));
    raw.cassandra_port = Some(9042);
    assert_eq!(
        SmartnessSettings::new(raw.clone(), 500),
        Err(SmartnessError::CassandraUsernameAndPasswordAreRequired)
    );
    raw.cassandra_password = text("SECRET-REDACTED");
    assert_eq!(
        SmartnessSettings::new(raw.clone(), 500),
        Err(SmartnessError::RatioParametersInvalid)
    );
    assert_eq!(SmartnessSettings::new(raw.clone(), 50), Err(SmartnessError::WriteScriptRequired));
    raw.write_script = text("INSERT");
    raw.read_script = None;
    raw.startup_create_schema_script = None;
    assert_eq!(SmartnessSettings::new(raw.clone(), 50), Err(SmartnessError::ReadScriptRequired));
    raw.read_script = text("SELECT");
    raw.warmup_qty_ops = None;
    assert_eq!(
        SmartnessSettings::new(raw.clone(), 50),
        Err(SmartnessError::StartuptScriptsRequired)
    );
    raw.startup_create_schema_script = text("CREATE KEYSPACE ks");
    assert_eq!(SmartnessSettings::new(raw, 50), Err(SmartnessError::WarmupQtyOpsRequired));
}

#[test]
fn every_error_has_its_message() {
    assert_eq!(
        SmartnessError::CyclesOrRunningTimeRequired.message(),
        "it is required set cycles or running_time"
    );
    assert_eq!(SmartnessError::WriteScriptRequired.message(), "it is required set write_script");
    assert_eq!(SmartnessError::ReadScriptRequired.message(), "it is required set read_script");
    assert_eq!(
        SmartnessError::StartuptScriptsRequired.message(),
        "it is required set startup_create_schema_script and startup_drop_table_script and startup_create_table_script"
    );
    assert_eq!(
        SmartnessError::WarmupQtyOpsRequired.message(),
        "it is required set warmup_qty_ops"
    );
    assert_eq!(
        SmartnessError::CassandraHostRequired.message(),
        "it is required set cassandra_host"
    );
    assert_eq!(
        SmartnessError::CassandraPortRequired.message(),
        "it is required set cassandra_port"
    );
    assert_eq!(
        SmartnessError::CassandraUsernameAndPasswordAreRequired.message(),
        "it is required set cassandra_username and cassandra_password"
    );
    assert_eq!(
        SmartnessError::RatioParametersInvalid.message(),
        "it is required set tasks_per_sec above zero and reads_rate between zero and one"
    );
    assert_eq!(SmartnessError::DatasetRewindError.message(), "failed to rewind dataset file");
}

fn short() -> SmartnessConfig {
    SmartnessConfig {
        workers: None,
        dataset_path: "data/rows.csv".to_string(),
        metrics_dir: "metrics".to_string(),
        cycles: Some(10),
        running_time: None,
        tasks_per_sec: None,
        reads_rate: None,
    }
}

#[test]
fn the_short_configuration_gets_its_defaults() {
    let config = SmartnessConfig::new(short()).unwrap();
    assert_eq!(config.tasks_per_sec, Some(100));
    assert_eq!(config.reads_rate, Some(0.1f32.to_bits()));
    assert_eq!(config.cycles, Some(10));
    assert_eq!(config.dataset_path, "data/rows.csv");
}

#[test]
fn the_short_configuration_keeps_what_is_configured() {
    let mut raw = short();
    raw.tasks_per_sec = Some(7);
    raw.reads_rate = Some(0.5f32.to_bits());
    raw.cycles = None;
    raw.running_time = Some(3);
    let config = SmartnessConfig::new(raw.clone()).unwrap();
    assert_eq!(config, raw);
}

#[test]
fn the_short_configuration_needs_cycles_or_a_running_time() {
    let mut raw = short();
    raw.cycles = None;
    assert_eq!(SmartnessConfig::new(raw), Err(SmartnessError::CyclesOrRunningTimeRequired));
}
