use duihua_background_worker::arith::div_ceil;
use duihua_background_worker::config::{
    autoclaim_min_idle_ms_for_upstream_timeout, default_autoclaim_min_idle_ms,
    max_concurrent_jobs_from_env_value, pending_retry_backoff_from_env_value,
    recommended_termination_grace_period_seconds_for_config,
    recommended_termination_grace_period_seconds_for_upstream_and_block, resolve_consumer_name,
    startup_line, upstream_timeout_seconds_from_env_value, warn_if_autoclaim_shorter_than_upstream, ConfigError,
    QueueConfig, QueueEnv,
};
use duihua_background_worker::text::{parse_u64, parse_usize, push_decimal};
use duihua_background_worker::time::Backoff;

fn set(value: &str) -> Option<String> {
    Some(value.to_string())
}

#[test]
fn empty_environment_gives_the_documented_defaults() {
    let env = QueueEnv {
        process_id: 17,
        ..QueueEnv::default()
    };
    assert_eq!(
        QueueConfig::from_env(&env),
        Ok(QueueConfig {
            consumer_group: "duihua-background".to_string(),
            consumer_name: "duihua-background-worker-17".to_string(),
            block_ms: 5_000,
            autoclaim_min_idle_ms: 720_000,
            max_concurrent_jobs: 1,
        })
    );
    assert_eq!(env.autoclaim_warning(), None);
}

#[test]
fn full_environment_is_taken_over() {
    let env = QueueEnv {
        consumer_group: set("group"),
        consumer_name: set("worker-a"),
        hostname: set("pod-1"),
        process_id: 17,
        block_ms: set("250"),
        autoclaim_min_idle_ms: set("1000"),
        max_concurrent_jobs: set("4"),
        upstream_timeout_seconds: set("10"),
    };
    assert_eq!(
        QueueConfig::from_env(&env),
        Ok(QueueConfig {
            consumer_group: "group".to_string(),
            consumer_name: "worker-a".to_string(),
            block_ms: 250,
            autoclaim_min_idle_ms: 1_000,
            max_concurrent_jobs: 4,
        })
    );
    assert_eq!(
        env.autoclaim_warning(),
        set(
            "warning: BACKGROUND_QUEUE_AUTOCLAIM_MIN_IDLE_MS (1000) is shorter than \
             BACKGROUND_UPSTREAM_TIMEOUT_SECONDS (10000 ms); active upstream calls may be \
             reclaimed and marked failed"
        )
    );
}

#[test]
fn unreadable_numbers_give_the_defaults() {
    let env = QueueEnv {
        hostname: set("pod-1"),
        block_ms: set("5s"),
        autoclaim_min_idle_ms: set(""),
        max_concurrent_jobs: set("-1"),
        upstream_timeout_seconds: set("30"),
        ..QueueEnv::default()
    };
    let config = QueueConfig::from_env(&env).unwrap();
    assert_eq!(config.consumer_name, "pod-1-0");
    assert_eq!(config.block_ms, 5_000);
    assert_eq!(config.autoclaim_min_idle_ms, 150_000);
    assert_eq!(config.max_concurrent_jobs, 1);
}

#[test]
fn zero_block_is_refused_before_zero_jobs() {
    let both = QueueEnv {
        block_ms: set("0"),
        max_concurrent_jobs: set("0"),
        autoclaim_min_idle_ms: set("1"),
        ..QueueEnv::default()
    };
    assert_eq!(
        QueueConfig::from_env(&both),
        Err(ConfigError::ZeroBlockMs)
    );
    assert_eq!(both.autoclaim_warning(), None);
    let jobs = QueueEnv {
        max_concurrent_jobs: set("0"),
        autoclaim_min_idle_ms: set("1"),
        ..QueueEnv::default()
    };
    assert_eq!(
        QueueConfig::from_env(&jobs),
        Err(ConfigError::ZeroMaxConcurrentJobs)
    );
    assert!(jobs.autoclaim_warning().is_some());
}

#[test]
fn config_errors_say_what_is_wrong() {
    assert_eq!(
        ConfigError::ZeroBlockMs.message(),
        "BACKGROUND_QUEUE_BLOCK_MS must be greater than 0"
    );
    assert_eq!(
        ConfigError::ZeroMaxConcurrentJobs.message(),
        "BACKGROUND_QUEUE_MAX_CONCURRENT_JOBS must be greater than 0"
    );
    assert_eq!(
        max_concurrent_jobs_from_env_value(Some("0")),
        Err(ConfigError::ZeroMaxConcurrentJobs)
    );
}

#[test]
fn decimal_numbers_read_as_the_standard_library_reads_them() {
    for value in [
        "", "+", "-", "0", "-0", "+0", "7", "+7", "007", "++7", "+-7", "7+", " 7", "7 ", "7_000",
        "0x7", "7.0", "seven", "\u{661}", "7\u{661}", "\u{ff0b}7", "18446744073709551615",
        "18446744073709551616", "18446744073709551620", "99999999999999999999",
        "000000000000000000000000000018446744073709551615", "4294967295", "4294967296",
    ] {
        assert_eq!(parse_u64(value), value.parse::<u64>().ok(), "{value:?}");
        assert_eq!(parse_usize(value), value.parse::<usize>().ok(), "{value:?}");
    }
}

#[test]
fn decimal_numbers_are_written_as_the_standard_library_writes_them() {
    for n in [0, 1, 9, 10, 42, 99, 100, 4242, 1_000_000, u64::MAX] {
        let mut text = "n".to_string();
        push_decimal(&mut text, n);
        assert_eq!(text, format!("n{n}"));
        assert_eq!(parse_u64(&text[1..]), Some(n));
    }
}

#[test]
fn division_rounds_up() {
    assert_eq!(div_ceil(0, 3), 0);
    assert_eq!(div_ceil(1, 3), 1);
    assert_eq!(div_ceil(3, 3), 1);
    assert_eq!(div_ceil(4, 3), 2);
    assert_eq!(div_ceil(u64::MAX, 1), u64::MAX);
}

#[test]
fn waiting_times_convert() {
    assert_eq!(Backoff::from_secs(30).as_millis(), 30_000);
    assert_eq!(Backoff::from_secs(30).as_nanos(), 30_000_000_000);
    let fraction = Backoff {
        secs: 1,
        subsec_nanos: 2_999_999,
    };
    assert_eq!(fraction.as_millis(), 1_002);
    assert_eq!(fraction.as_nanos(), 1_002_999_999);
}

#[test]
fn retry_backoff_defaults_to_half_a_minute() {
    assert_eq!(
        pending_retry_backoff_from_env_value(None),
        Backoff::from_secs(30)
    );
    assert_eq!(
        pending_retry_backoff_from_env_value(Some("5")),
        Backoff::from_secs(5)
    );
    assert_eq!(
        pending_retry_backoff_from_env_value(Some("5s")),
        Backoff::from_secs(30)
    );
}

#[test]
fn upstream_timeout_defaults_to_ten_minutes() {
    assert_eq!(upstream_timeout_seconds_from_env_value(None), 600);
    assert_eq!(upstream_timeout_seconds_from_env_value(Some("45")), 45);
    assert_eq!(upstream_timeout_seconds_from_env_value(Some("x")), 600);
}

#[test]
fn default_autoclaim_follows_the_upstream_timeout() {
    assert_eq!(default_autoclaim_min_idle_ms(None), 720_000);
    assert_eq!(default_autoclaim_min_idle_ms(Some("10")), 130_000);
    assert_eq!(
        autoclaim_min_idle_ms_for_upstream_timeout(usize::MAX),
        usize::MAX
    );
    for upstream_secs in [0, 1, 600, usize::MAX / 1_000, usize::MAX] {
        let idle_ms = autoclaim_min_idle_ms_for_upstream_timeout(upstream_secs);
        assert_eq!(
            warn_if_autoclaim_shorter_than_upstream(idle_ms, upstream_secs),
            None
        );
    }
}

#[test]
fn warning_starts_below_the_upstream_timeout() {
    assert_eq!(warn_if_autoclaim_shorter_than_upstream(600_000, 600), None);
    assert!(warn_if_autoclaim_shorter_than_upstream(599_999, 600).is_some());
}

#[test]
fn grace_period_follows_the_configuration() {
    let config = QueueConfig::from_env(&QueueEnv {
        block_ms: set("1001"),
        ..QueueEnv::default()
    })
    .unwrap();
    assert_eq!(
        recommended_termination_grace_period_seconds_for_config(&config, None),
        662
    );
    assert_eq!(
        recommended_termination_grace_period_seconds_for_config(&config, Some("0")),
        62
    );
}

#[test]
fn startup_line_tells_the_grace_period() {
    let config = QueueConfig::from_env(&QueueEnv::default()).unwrap();
    assert_eq!(
        startup_line(&config, None),
        "background worker startup: recommended terminationGracePeriodSeconds=665"
    );
    assert_eq!(
        startup_line(&config, Some("10")),
        "background worker startup: recommended terminationGracePeriodSeconds=75"
    );
}

#[test]
fn grace_period_stays_between_a_minute_and_the_largest_number() {
    assert_eq!(
        recommended_termination_grace_period_seconds_for_upstream_and_block(0, 0),
        60
    );
    assert_eq!(
        recommended_termination_grace_period_seconds_for_upstream_and_block(usize::MAX, 1),
        usize::MAX as u64
    );
}

#[test]
fn default_names_of_two_processes_differ() {
    assert_ne!(
        resolve_consumer_name(None, "pod-1", 12),
        resolve_consumer_name(None, "pod", 112)
    );
    assert_ne!(
        resolve_consumer_name(None, "pod-1", 2),
        resolve_consumer_name(None, "pod", 12)
    );
    assert_eq!(resolve_consumer_name(None, "pod", 0), "pod-0");
    assert_eq!(
        resolve_consumer_name(None, "", u32::MAX),
        "-4294967295"
    );
}
