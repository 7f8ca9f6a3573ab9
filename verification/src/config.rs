//! How the worker is configured by its environment.
use vstd::prelude::*;
use vstd::string::*;

use crate::arith::div_ceil;
use crate::text::{parse_u64, parse_usize, push_decimal};
use crate::time::Backoff;

verus! {

/// The milliseconds that a claim waits for a job, where nothing else is set.
pub const DEFAULT_BLOCK_MS: usize = 5_000;

/// The seconds that an upstream call may take, where nothing else is set.
pub const DEFAULT_UPSTREAM_TIMEOUT_SECONDS: usize = 600;

/// The seconds before a message is tried again, where nothing else is set.
pub const DEFAULT_PENDING_RETRY_SECONDS: u64 = 30;

/// The characters of an optional text.
pub open spec fn text_view(value: Option<String>) -> Option<Seq<char>> {
    match value {
        Some(value) => Some(value@),
        None => None,
    }
}

/// The characters of an optional borrowed text.
pub open spec fn str_view(value: Option<&str>) -> Option<Seq<char>> {
    match value {
        Some(value) => Some(value@),
        None => None,
    }
}

/// The number that a setting gives: what it writes, or `default` where it is
/// absent or writes no `usize`.
pub open spec fn usize_setting(value: Option<Seq<char>>, default: usize) -> usize {
    match value {
        Some(value) => match crate::text::parsed_usize(value) {
            Some(n) => n,
            None => default,
        },
        None => default,
    }
}

/// The number that a setting gives: what it writes, or `default` where it is
/// absent or writes no `u64`.
pub open spec fn u64_setting(value: Option<Seq<char>>, default: u64) -> u64 {
    match value {
        Some(value) => match crate::text::parsed_u64(value) {
            Some(n) => n,
            None => default,
        },
        None => default,
    }
}

/// The text that a setting gives: its own, or `default` where it is absent.
pub open spec fn text_setting(value: Option<Seq<char>>, default: Seq<char>) -> Seq<char> {
    match value {
        Some(value) => value,
        None => default,
    }
}

/// Borrows an optional text.
pub(crate) fn borrow_text(value: &Option<String>) -> (text: Option<&str>)
    ensures
        str_view(text) == text_view(*value),
{
    match value {
        Some(value) => Some(value.as_str()),
        None => None,
    }
}

/// Reads a setting that is a `usize`.
fn read_usize(value: Option<&str>, default: usize) -> (n: usize)
    ensures
        n == usize_setting(str_view(value), default),
{
    match value {
        Some(value) => match parse_usize(value) {
            Some(n) => n,
            None => default,
        },
        None => default,
    }
}

/// Reads a setting that is a `u64`.
pub(crate) fn read_u64(value: Option<&str>, default: u64) -> (n: u64)
    ensures
        n == u64_setting(str_view(value), default),
{
    match value {
        Some(value) => match parse_u64(value) {
            Some(n) => n,
            None => default,
        },
        None => default,
    }
}

/// Reads a setting that is a text.
pub(crate) fn read_text(value: Option<&str>, default: &str) -> (text: String)
    ensures
        text@ == text_setting(str_view(value), default@),
{
    match value {
        Some(value) => value.to_owned(),
        None => default.to_owned(),
    }
}

/// What the worker reads of its environment: the values of its variables,
/// where they are set, and the number of its process.
#[derive(Debug, Default)]
pub struct QueueEnv {
    /// `BACKGROUND_QUEUE_CONSUMER_GROUP`
    pub consumer_group: Option<String>,
    /// `BACKGROUND_QUEUE_CONSUMER_NAME`
    pub consumer_name: Option<String>,
    /// `HOSTNAME`
    pub hostname: Option<String>,
    /// The number of the worker's process.
    pub process_id: u32,
    /// `BACKGROUND_QUEUE_BLOCK_MS`
    pub block_ms: Option<String>,
    /// `BACKGROUND_QUEUE_AUTOCLAIM_MIN_IDLE_MS`
    pub autoclaim_min_idle_ms: Option<String>,
    /// `BACKGROUND_QUEUE_MAX_CONCURRENT_JOBS`
    pub max_concurrent_jobs: Option<String>,
    /// `BACKGROUND_UPSTREAM_TIMEOUT_SECONDS`
    pub upstream_timeout_seconds: Option<String>,
}

/// How the worker takes part in the queue.
#[derive(Debug, PartialEq, Eq)]
pub struct QueueConfig {
    pub consumer_group: String,
    pub consumer_name: String,
    pub block_ms: usize,
    pub autoclaim_min_idle_ms: usize,
    pub max_concurrent_jobs: usize,
}

impl Clone for QueueConfig {
    fn clone(&self) -> (copy: Self)
        ensures
            copy == *self,
    {
        QueueConfig {
            consumer_group: self.consumer_group.clone(),
            consumer_name: self.consumer_name.clone(),
            block_ms: self.block_ms,
            autoclaim_min_idle_ms: self.autoclaim_min_idle_ms,
            max_concurrent_jobs: self.max_concurrent_jobs,
        }
    }
}

/// Why an environment gives no configuration.
#[derive(Clone, Copy, Debug, PartialEq, Eq, Structural)]
pub enum ConfigError {
    /// A claim would not wait at all.
    ZeroBlockMs,
    /// No job could ever run.
    ZeroMaxConcurrentJobs,
}

impl ConfigError {
    /// What is wrong, in words.
    pub fn message(&self) -> (text: String)
        ensures
            text@ == match *self {
                ConfigError::ZeroBlockMs => "BACKGROUND_QUEUE_BLOCK_MS must be greater than 0"@,
                ConfigError::ZeroMaxConcurrentJobs =>
                    "BACKGROUND_QUEUE_MAX_CONCURRENT_JOBS must be greater than 0"@,
            },
    {
        match self {
            ConfigError::ZeroBlockMs => "BACKGROUND_QUEUE_BLOCK_MS must be greater than 0".to_owned(),
            ConfigError::ZeroMaxConcurrentJobs =>
                "BACKGROUND_QUEUE_MAX_CONCURRENT_JOBS must be greater than 0".to_owned(),
        }
    }
}

/// The number that `n` is cut down to where it is larger than a `usize`.
pub open spec fn cut_to_usize(n: nat) -> nat {
    if n <= usize::MAX {
        n
    } else {
        usize::MAX as nat
    }
}

/// The idle time, in milliseconds, after which a message may be taken over
/// when an upstream call may take `upstream_secs` seconds: two minutes more
/// than that.
pub open spec fn autoclaim_for_upstream(upstream_secs: nat) -> nat {
    cut_to_usize(cut_to_usize(upstream_secs + 120) * 1_000)
}

/// The milliseconds that an upstream call may take.
pub open spec fn upstream_ms(upstream_secs: nat) -> nat {
    cut_to_usize(upstream_secs * 1_000)
}

/// The name of a consumer: the explicit one, or the host and the process
/// number with a dash between them.
pub open spec fn consumer_name(explicit: Option<Seq<char>>, host: Seq<char>, pid: u32) -> Seq<char> {
    match explicit {
        Some(name) => name,
        None => host + seq!['-'] + crate::text::decimal_text(pid as nat),
    }
}

/// The seconds that a worker should be given to stop: those of an upstream
/// call, those of a claim, rounded up, and one minute.
pub open spec fn grace_period(upstream_secs: nat, block_ms: nat) -> nat {
    cut_to_usize(upstream_secs + crate::arith::ceil_div(block_ms, 1_000) + 60)
}

impl QueueEnv {
    /// The seconds that an upstream call may take.
    pub open spec fn upstream_secs(self) -> usize {
        usize_setting(
            text_view(self.upstream_timeout_seconds),
            DEFAULT_UPSTREAM_TIMEOUT_SECONDS,
        )
    }

    /// The milliseconds that a claim waits.
    pub open spec fn block(self) -> usize {
        usize_setting(text_view(self.block_ms), DEFAULT_BLOCK_MS)
    }

    /// The milliseconds after which an idle message may be taken over.
    pub open spec fn autoclaim(self) -> usize {
        usize_setting(
            text_view(self.autoclaim_min_idle_ms),
            autoclaim_for_upstream(self.upstream_secs() as nat) as usize,
        )
    }

    /// The number of jobs that may run at once.
    pub open spec fn jobs(self) -> usize {
        usize_setting(text_view(self.max_concurrent_jobs), 1)
    }

    /// The warning that this environment deserves: that messages may be taken
    /// over while their upstream call still runs.
    ///
    /// An environment in which a claim would not wait is refused before
    /// anything else of it is judged, so it gets no warning.
    pub fn autoclaim_warning(&self) -> (warning: Option<String>)
        ensures
            text_view(warning) == if self.block() == 0 {
                None
            } else {
                shorter_than_upstream_warning(self.autoclaim() as nat, self.upstream_secs() as nat)
            },
    {
        let block_ms: usize = read_usize(borrow_text(&self.block_ms), DEFAULT_BLOCK_MS);
        if block_ms == 0 {
            return None;
        }
        let upstream_secs: usize = upstream_timeout_seconds_from_env_value(
            borrow_text(&self.upstream_timeout_seconds),
        );
        let autoclaim_min_idle_ms: usize = read_usize(
            borrow_text(&self.autoclaim_min_idle_ms),
            default_autoclaim_min_idle_ms(borrow_text(&self.upstream_timeout_seconds)),
        );
        warn_if_autoclaim_shorter_than_upstream(autoclaim_min_idle_ms, upstream_secs)
    }
}

impl QueueConfig {
    /// The configuration that an environment gives.
    ///
    /// A waiting time of zero is refused first, then a number of jobs of zero.
    pub fn from_env(env: &QueueEnv) -> (config: Result<QueueConfig, ConfigError>)
        ensures
            match config {
                Ok(config) => {
                    &&& env.block() != 0
                    &&& env.jobs() != 0
                    &&& config.consumer_group@ == text_setting(
                        text_view(env.consumer_group),
                        "duihua-background"@,
                    )
                    &&& config.consumer_name@ == consumer_name(
                        text_view(env.consumer_name),
                        text_setting(text_view(env.hostname), "duihua-background-worker"@),
                        env.process_id,
                    )
                    &&& config.block_ms == env.block()
                    &&& config.autoclaim_min_idle_ms == env.autoclaim()
                    &&& config.max_concurrent_jobs == env.jobs()
                },
                Err(ConfigError::ZeroBlockMs) => env.block() == 0,
                Err(ConfigError::ZeroMaxConcurrentJobs) => env.block() != 0 && env.jobs() == 0,
            },
    {
        let consumer_group = read_text(borrow_text(&env.consumer_group), "duihua-background");
        let host = read_text(borrow_text(&env.hostname), "duihua-background-worker");
        let consumer_name = resolve_consumer_name(
            borrow_text(&env.consumer_name),
            host.as_str(),
            env.process_id,
        );
        let block_ms: usize = read_usize(borrow_text(&env.block_ms), DEFAULT_BLOCK_MS);
        if block_ms == 0 {
            return Err(ConfigError::ZeroBlockMs);
        }
        let autoclaim_min_idle_ms: usize = read_usize(
            borrow_text(&env.autoclaim_min_idle_ms),
            default_autoclaim_min_idle_ms(borrow_text(&env.upstream_timeout_seconds)),
        );
        let max_concurrent_jobs: usize = match max_concurrent_jobs_from_env_value(
            borrow_text(&env.max_concurrent_jobs),
        ) {
            Ok(jobs) => jobs,
            Err(err) => {
                return Err(err);
            },
        };
        Ok(
            QueueConfig {
                consumer_group,
                consumer_name,
                block_ms,
                autoclaim_min_idle_ms,
                max_concurrent_jobs,
            },
        )
    }
}

/// The number of jobs that may run at once; one where nothing else is set.
pub fn max_concurrent_jobs_from_env_value(explicit: Option<&str>) -> (jobs: Result<
    usize,
    ConfigError,
>)
    ensures
        ({
            let set = usize_setting(str_view(explicit), 1);
            jobs == if set == 0 {
                Err(ConfigError::ZeroMaxConcurrentJobs)
            } else {
                Ok::<usize, ConfigError>(set)
            }
        }),
{
    let jobs: usize = read_usize(explicit, 1);
    if jobs == 0 {
        return Err(ConfigError::ZeroMaxConcurrentJobs);
    }
    Ok(jobs)
}

/// The seconds that an upstream call may take.
pub fn upstream_timeout_seconds_from_env_value(explicit: Option<&str>) -> (seconds: usize)
    ensures
        seconds == usize_setting(str_view(explicit), DEFAULT_UPSTREAM_TIMEOUT_SECONDS),
{
    read_usize(explicit, DEFAULT_UPSTREAM_TIMEOUT_SECONDS)
}

/// The time before a message is tried again.
pub fn pending_retry_backoff_from_env_value(explicit: Option<&str>) -> (backoff: Backoff)
    ensures
        backoff.secs == u64_setting(str_view(explicit), DEFAULT_PENDING_RETRY_SECONDS),
        backoff.subsec_nanos == 0,
{
    Backoff::from_secs(read_u64(explicit, DEFAULT_PENDING_RETRY_SECONDS))
}

/// `n` times a thousand, or the largest `usize`.
fn saturating_thousandfold(n: usize) -> (product: usize)
    ensures
        product == cut_to_usize(n as nat * 1_000),
{
    match n.checked_mul(1_000) {
        Some(product) => product,
        None => usize::MAX,
    }
}

/// The idle time, in milliseconds, after which a message may be taken over
/// when an upstream call may take `upstream_secs` seconds.
pub fn autoclaim_min_idle_ms_for_upstream_timeout(upstream_secs: usize) -> (idle_ms: usize)
    ensures
        idle_ms == autoclaim_for_upstream(upstream_secs as nat),
{
    saturating_thousandfold(upstream_secs.saturating_add(120))
}

/// The idle time after which a message may be taken over, where nothing else
/// is set, given the setting of the upstream timeout.
pub fn default_autoclaim_min_idle_ms(upstream_timeout: Option<&str>) -> (idle_ms: usize)
    ensures
        idle_ms == autoclaim_for_upstream(
            usize_setting(str_view(upstream_timeout), DEFAULT_UPSTREAM_TIMEOUT_SECONDS) as nat,
        ),
{
    autoclaim_min_idle_ms_for_upstream_timeout(
        upstream_timeout_seconds_from_env_value(upstream_timeout),
    )
}

/// The warning, if any, that messages may be taken over while their upstream
/// call still runs.
pub open spec fn shorter_than_upstream_warning(
    autoclaim_min_idle_ms: nat,
    upstream_secs: nat,
) -> Option<Seq<char>> {
    if autoclaim_min_idle_ms < upstream_ms(upstream_secs) {
        Some(
            "warning: BACKGROUND_QUEUE_AUTOCLAIM_MIN_IDLE_MS ("@ + crate::text::decimal_text(
                autoclaim_min_idle_ms,
            ) + ") is shorter than BACKGROUND_UPSTREAM_TIMEOUT_SECONDS ("@
                + crate::text::decimal_text(upstream_ms(upstream_secs))
                + " ms); active upstream calls may be reclaimed and marked failed"@,
        )
    } else {
        None
    }
}

/// Warns where messages may be taken over while their upstream call still runs.
pub fn warn_if_autoclaim_shorter_than_upstream(
    autoclaim_min_idle_ms: usize,
    upstream_secs: usize,
) -> (warning: Option<String>)
    ensures
        text_view(warning) == shorter_than_upstream_warning(
            autoclaim_min_idle_ms as nat,
            upstream_secs as nat,
        ),
{
    let upstream_ms: usize = saturating_thousandfold(upstream_secs);
    if autoclaim_min_idle_ms < upstream_ms {
        let mut text = "warning: BACKGROUND_QUEUE_AUTOCLAIM_MIN_IDLE_MS (".to_owned();
        push_decimal(&mut text, autoclaim_min_idle_ms as u64);
        text.append(") is shorter than BACKGROUND_UPSTREAM_TIMEOUT_SECONDS (");
        push_decimal(&mut text, upstream_ms as u64);
        text.append(" ms); active upstream calls may be reclaimed and marked failed");
        Some(text)
    } else {
        None
    }
}

/// The name under which the worker takes part in its consumer group.
pub fn resolve_consumer_name(explicit: Option<&str>, host: &str, pid: u32) -> (name: String)
    ensures
        name@ == consumer_name(str_view(explicit), host@, pid),
{
    if let Some(name) = explicit {
        return name.to_owned();
    }
    proof {
        reveal_strlit("-");
        assert("-"@ =~= seq!['-']);
    }
    let mut name = host.to_owned();
    name.append("-");
    push_decimal(&mut name, pid as u64);
    name
}

/// The seconds that a worker should be given to stop when claims do not wait.
pub fn recommended_termination_grace_period_seconds_for_upstream(upstream_secs: usize) -> (seconds:
    u64)
    ensures
        seconds == grace_period(upstream_secs as nat, 0),
{
    recommended_termination_grace_period_seconds_for_upstream_and_block(upstream_secs, 0)
}

/// The seconds that a worker of this configuration should be given to stop,
/// given the setting of the upstream timeout.
pub fn recommended_termination_grace_period_seconds_for_config(
    config: &QueueConfig,
    upstream_timeout: Option<&str>,
) -> (seconds: u64)
    ensures
        seconds == grace_period(
            usize_setting(str_view(upstream_timeout), DEFAULT_UPSTREAM_TIMEOUT_SECONDS) as nat,
            config.block_ms as nat,
        ),
{
    recommended_termination_grace_period_seconds_for_upstream_and_block(
        upstream_timeout_seconds_from_env_value(upstream_timeout),
        config.block_ms,
    )
}

/// The line with which a worker tells that it has started, and how many seconds
/// it should be given to stop.
pub open spec fn startup_text(grace_period_seconds: nat) -> Seq<char> {
    "background worker startup: recommended terminationGracePeriodSeconds="@
        + crate::text::decimal_text(grace_period_seconds)
}

/// The line with which a worker of this configuration tells that it has
/// started, given the setting of the upstream timeout.
pub fn startup_line(config: &QueueConfig, upstream_timeout: Option<&str>) -> (line: String)
    ensures
        line@ == startup_text(
            grace_period(
                usize_setting(str_view(upstream_timeout), DEFAULT_UPSTREAM_TIMEOUT_SECONDS) as nat,
                config.block_ms as nat,
            ),
        ),
{
    let seconds: u64 = recommended_termination_grace_period_seconds_for_config(
        config,
        upstream_timeout,
    );
    let mut line = "background worker startup: recommended terminationGracePeriodSeconds=".to_owned();
    push_decimal(&mut line, seconds);
    line
}

/// The seconds that a worker should be given to stop.
pub fn recommended_termination_grace_period_seconds_for_upstream_and_block(
    upstream_secs: usize,
    block_ms: usize,
) -> (seconds: u64)
    ensures
        seconds == grace_period(upstream_secs as nat, block_ms as nat),
{
    let block_secs: usize = div_ceil(block_ms as u64, 1_000) as usize;
    upstream_secs.saturating_add(block_secs).saturating_add(60) as u64
}

/// The default idle time before a message may be taken over is longer than an
/// upstream call may take, up to the largest time that can be written; it never
/// deserves a warning.
pub proof fn default_autoclaim_outlasts_upstream(upstream_secs: nat)
    ensures
        autoclaim_for_upstream(upstream_secs) >= upstream_ms(upstream_secs),
        upstream_ms(upstream_secs) < usize::MAX ==> autoclaim_for_upstream(upstream_secs)
            > upstream_secs * 1_000,
        shorter_than_upstream_warning(autoclaim_for_upstream(upstream_secs), upstream_secs) is None,
{
}

/// The recommended time to stop is enough for an upstream call, a claim and
/// one minute, unless it is cut down to the largest time that can be written.
pub proof fn grace_period_covers_upstream_and_claim(upstream_secs: nat, block_ms: nat)
    requires
        upstream_secs + crate::arith::ceil_div(block_ms, 1_000) + 60 <= usize::MAX,
    ensures
        grace_period(upstream_secs, block_ms) * 1_000 >= upstream_secs * 1_000 + block_ms + 60_000,
{
}

/// The recommended time to stop is never below one minute, and longer than an
/// upstream call may take, unless that is the largest time that can be written.
pub proof fn grace_period_outlasts_upstream(upstream_secs: nat, block_ms: nat)
    ensures
        grace_period(upstream_secs, block_ms) >= 60,
        upstream_secs < usize::MAX ==> grace_period(upstream_secs, block_ms) > upstream_secs,
{
}

/// Two processes, of one host or of two, never get the same default name.
pub proof fn default_consumer_names_differ(
    host: Seq<char>,
    pid: u32,
    other_host: Seq<char>,
    other_pid: u32,
)
    requires
        consumer_name(None, host, pid) == consumer_name(None, other_host, other_pid),
    ensures
        host == other_host,
        pid == other_pid,
{
    let name = consumer_name(None, host, pid);
    let digits = crate::text::decimal_text(pid as nat);
    let other_digits = crate::text::decimal_text(other_pid as nat);
    crate::text::decimal_round_trip(pid as nat);
    crate::text::decimal_round_trip(other_pid as nat);
    assert(name.len() == host.len() + 1 + digits.len());
    assert(name.len() == other_host.len() + 1 + other_digits.len());
    if host.len() < other_host.len() {
        let at = other_host.len() as int;
        assert(name[at] == '-');
        assert(name[at] == digits[at - host.len() - 1]);
    } else if other_host.len() < host.len() {
        let at = host.len() as int;
        assert(name[at] == '-');
        assert(name[at] == other_digits[at - other_host.len() - 1]);
    }
    assert(host =~= name.take(host.len() as int));
    assert(other_host =~= name.take(host.len() as int));
    assert(digits =~= name.skip(host.len() as int + 1));
    assert(other_digits =~= name.skip(host.len() as int + 1));
}

/// A text is seen as its characters.
pub proof fn texts_are_seen_as_they_stand(owned: Option<String>, borrowed: Option<&str>)
    ensures
        text_view(owned) is Some <==> owned is Some,
        owned is Some ==> text_view(owned)->0 == owned->0@,
        str_view(borrowed) is Some <==> borrowed is Some,
        borrowed is Some ==> str_view(borrowed)->0 == borrowed->0@,
{
}

/// A setting that writes a number that fits gives that number. One that is
/// absent, writes none or one that does not fit gives the default.
pub proof fn settings_give_what_they_write(
    value: Seq<char>,
    size_default: usize,
    long_default: u64,
    text_default: Seq<char>,
)
    ensures
        ({
            let written = crate::text::decimal_value(value);
            &&& usize_setting(None, size_default) == size_default
            &&& u64_setting(None, long_default) == long_default
            &&& text_setting(None, text_default) == text_default
            &&& text_setting(Some(value), text_default) == value
            &&& written is None ==> usize_setting(Some(value), size_default) == size_default
            &&& written is None ==> u64_setting(Some(value), long_default) == long_default
            &&& written is Some && written->0 <= usize::MAX ==> usize_setting(
                Some(value),
                size_default,
            ) == written->0
            &&& written is Some && written->0 > usize::MAX ==> usize_setting(
                Some(value),
                size_default,
            ) == size_default
            &&& written is Some && written->0 <= u64::MAX ==> u64_setting(Some(value), long_default)
                == written->0
            &&& written is Some && written->0 > u64::MAX ==> u64_setting(Some(value), long_default)
                == long_default
        }),
{
}

/// Each number of an environment is that of its own variable, where it writes
/// one that fits. Elsewhere a claim waits five seconds, an upstream call may
/// take ten minutes and one job runs at a time.
pub proof fn environment_gives_its_numbers(env: QueueEnv)
    ensures
        env.block() == usize_setting(text_view(env.block_ms), 5_000),
        env.upstream_secs() == usize_setting(text_view(env.upstream_timeout_seconds), 600),
        env.jobs() == usize_setting(text_view(env.max_concurrent_jobs), 1),
        env.block_ms is None ==> env.block() == 5_000,
        env.upstream_timeout_seconds is None ==> env.upstream_secs() == 600,
        env.max_concurrent_jobs is None ==> env.jobs() == 1,
{
}

/// The idle time of an environment is that of its variable, where it writes one
/// that fits. Elsewhere it is two minutes longer than an upstream call may
/// take, or the largest that can be written.
pub proof fn environment_gives_its_idle_time(env: QueueEnv, writes: nat)
    ensures
        env.autoclaim_min_idle_ms is Some && writes <= usize::MAX && crate::text::decimal_value(
            env.autoclaim_min_idle_ms->0@,
        ) == Some(writes) ==> env.autoclaim() == writes,
        env.autoclaim_min_idle_ms is None || crate::text::decimal_value(
            env.autoclaim_min_idle_ms->0@,
        ) is None || crate::text::decimal_value(env.autoclaim_min_idle_ms->0@)->0 > usize::MAX
            ==> {
            let wanted = (env.upstream_secs() + 120) * 1_000;
            env.autoclaim() == if wanted <= usize::MAX {
                wanted
            } else {
                usize::MAX as int
            }
        },
{
}

/// The default idle time exceeds an upstream call by two minutes, and the time
/// of that call is counted in milliseconds, where these can be written;
/// elsewhere each is the largest that can.
pub proof fn idle_time_is_two_minutes_longer(upstream_secs: nat)
    ensures
        upstream_secs * 1_000 <= usize::MAX ==> upstream_ms(upstream_secs) == upstream_secs * 1_000,
        upstream_secs * 1_000 > usize::MAX ==> upstream_ms(upstream_secs) == usize::MAX,
        upstream_secs * 1_000 + 120_000 <= usize::MAX ==> autoclaim_for_upstream(upstream_secs)
            - upstream_secs * 1_000 == 120_000,
        upstream_secs * 1_000 + 120_000 > usize::MAX ==> autoclaim_for_upstream(upstream_secs)
            == usize::MAX,
{
}

/// The recommended time to stop is the least number of whole seconds that is
/// enough for an upstream call, a claim and one minute, or the largest that can
/// be written.
pub proof fn grace_period_is_least(upstream_secs: nat, block_ms: nat)
    ensures
        ({
            let seconds = grace_period(upstream_secs, block_ms);
            let needed_ms = upstream_secs * 1_000 + block_ms + 60_000;
            &&& needed_ms <= usize::MAX * 1_000 ==> seconds * 1_000 >= needed_ms && (seconds - 1)
                * 1_000 < needed_ms
            &&& needed_ms > usize::MAX * 1_000 ==> seconds == usize::MAX
        }),
{
}

/// An explicit name is the name. Any other begins with the host, and what is
/// behind the dash that follows is the number of the process.
pub proof fn name_is_explicit_or_of_host_and_process(name: Seq<char>, host: Seq<char>, pid: u32)
    ensures
        consumer_name(Some(name), host, pid) == name,
        ({
            let made = consumer_name(None, host, pid);
            let at = host.len() as int;
            &&& made.len() > at + 1
            &&& made.take(at) == host
            &&& made[at] == '-'
            &&& made[at + 1] != '+'
            &&& made[at + 1] == '0' ==> made.len() == at + 2
            &&& crate::text::decimal_value(made.skip(at + 1)) == Some(pid as nat)
        }),
{
    let made = consumer_name(None, host, pid);
    let at = host.len() as int;
    let digits = crate::text::decimal_text(pid as nat);
    crate::text::decimal_round_trip(pid as nat);
    crate::text::numbers_are_written_shortest(pid as nat);
    assert(made.take(at) =~= host);
    assert(made.skip(at + 1) =~= digits);
    assert(made[at + 1] == digits[0]);
}

/// There is a warning exactly if the idle time is shorter than an upstream call
/// may take, and it tells the two times, in this order.
pub proof fn warning_tells_the_two_times(autoclaim_min_idle_ms: nat, upstream_secs: nat)
    ensures
        ({
            let warning = shorter_than_upstream_warning(autoclaim_min_idle_ms, upstream_secs);
            let call_ms = if upstream_secs * 1_000 <= usize::MAX {
                (upstream_secs * 1_000) as nat
            } else {
                usize::MAX as nat
            };
            &&& warning is Some <==> autoclaim_min_idle_ms < call_ms
            &&& warning is Some ==> warning->0
                == "warning: BACKGROUND_QUEUE_AUTOCLAIM_MIN_IDLE_MS ("@
                + crate::text::decimal_text(autoclaim_min_idle_ms)
                + ") is shorter than BACKGROUND_UPSTREAM_TIMEOUT_SECONDS ("@
                + crate::text::decimal_text(call_ms)
                + " ms); active upstream calls may be reclaimed and marked failed"@
        }),
{
}

/// The line of the start ends with the number of seconds, behind what it says
/// of every worker alike.
pub proof fn startup_line_ends_with_the_seconds(grace_period_seconds: nat)
    ensures
        ({
            let before = "background worker startup: recommended terminationGracePeriodSeconds="@;
            let line = startup_text(grace_period_seconds);
            &&& line.take(before.len() as int) == before
            &&& line.skip(before.len() as int) == crate::text::decimal_text(grace_period_seconds)
        }),
{
    let before = "background worker startup: recommended terminationGracePeriodSeconds="@;
    let line = startup_text(grace_period_seconds);
    assert(line.take(before.len() as int) =~= before);
    assert(line.skip(before.len() as int) =~= crate::text::decimal_text(grace_period_seconds));
}

} // verus!
