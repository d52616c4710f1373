//! The decisions of the analytics writer that consumes the click-event
//! stream: which settings it accepts, what it does with each stream entry,
//! how it drains entries left pending, and how its loop reacts to what
//! happens. The stream reads, the script calls and the waits are made by
//! the caller.

use vstd::prelude::*;
use vstd::string::*;

use crate::analytics::dates::seconds_of_millis;
use crate::analytics::redis_stats::{click_day_text, records_click, RedisStats, ScriptCall};
use crate::config::AnalyticsConfig;
use crate::events::ClickEvent;
use crate::text::{contains_str, contains_text};
use crate::time::{TimeSpan, NANOS_PER_MILLI};

verus! {

/// The consumer group the writer reads in.
pub const CONSUMER_GROUP: &'static str = "Analytics";

/// The writer's name within its group.
pub const CONSUMER_NAME: &'static str = "worker-0";

/// The Postgres advisory lock held by the single active writer.
pub const ANALYTICS_WRITER_LOCK_ID: i64 = 1_234_567;

/// Seconds between attempts to become the writer.
pub const LOCK_RETRY_INTERVAL_SECS: u64 = 5;

/// The idle time, in milliseconds, after which a pending entry is claimed.
pub const XAUTOCLAIM_MIN_IDLE_MS: u64 = 0;

/// Milliseconds to wait after a failed stream read.
pub const REDIS_ERROR_BACKOFF_MILLIS: u64 = 500;

/// A setting of the analytics writer that it cannot run with.
#[derive(Debug, Clone, Copy, PartialEq, Eq, Structural)]
pub enum ConsumerSettingError {
    /// `analytics.read_batch_size` is zero.
    ReadBatchSize,
    /// `analytics.read_block_millis` is not between 1 and 500.
    ReadBlock,
    /// `analytics.flush_interval` is zero.
    FlushInterval,
}

impl ConsumerSettingError {
    /// The message logged for the error.
    pub fn message(&self) -> (m: &'static str)
        ensures
            *self == ConsumerSettingError::ReadBatchSize ==> m@ == "analytics.read_batch_size must be greater than zero"@,
            *self == ConsumerSettingError::ReadBlock ==> m@ == "analytics.read_block_millis must be between 1 and 500"@,
            *self == ConsumerSettingError::FlushInterval ==> m@ == "analytics.flush_interval must be greater than zero"@,
    {
        match self {
            ConsumerSettingError::ReadBatchSize => "analytics.read_batch_size must be greater than zero",
            ConsumerSettingError::ReadBlock => "analytics.read_block_millis must be between 1 and 500",
            ConsumerSettingError::FlushInterval => "analytics.flush_interval must be greater than zero",
        }
    }
}

/// Checks the writer's settings, in order: a batch size of at least one, a
/// read block of 1 to 500 whole milliseconds, and a flush interval that is
/// not zero.
pub fn check_config(config: &AnalyticsConfig) -> (r: Result<(), ConsumerSettingError>)
    ensures
        ({
            let a = config.analytics;
            let block_millis = a.read_block@ / (NANOS_PER_MILLI as nat);
            if a.read_batch_size == 0 {
                r == Err::<(), ConsumerSettingError>(ConsumerSettingError::ReadBatchSize)
            } else if !(1 <= block_millis <= 500) {
                r == Err::<(), ConsumerSettingError>(ConsumerSettingError::ReadBlock)
            } else if a.flush_interval@ == 0 {
                r == Err::<(), ConsumerSettingError>(ConsumerSettingError::FlushInterval)
            } else {
                r is Ok
            }
        }),
{
    if config.analytics.read_batch_size == 0 {
        return Err(ConsumerSettingError::ReadBatchSize);
    }
    let block = config.analytics.read_block.as_millis();
    if !(1 <= block && block <= 500) {
        return Err(ConsumerSettingError::ReadBlock);
    }
    if config.analytics.flush_interval.is_zero() {
        return Err(ConsumerSettingError::FlushInterval);
    }
    Ok(())
}

/// How the writer reads the stream: as `consumer` of `group`, at most
/// `count` entries at a time, blocking at most `block_millis`.
#[derive(Debug)]
pub struct StreamRead {
    pub group: &'static str,
    pub consumer: &'static str,
    pub count: usize,
    pub block_millis: usize,
}

/// The stream read of the writer with the settings `config`. The block is
/// the read block in whole milliseconds, which `check_config` bounds by 500.
pub fn stream_read(config: &AnalyticsConfig) -> (r: StreamRead)
    requires
        config.analytics.read_block@ / (NANOS_PER_MILLI as nat) <= 500,
    ensures
        r.group == CONSUMER_GROUP,
        r.consumer == CONSUMER_NAME,
        r.count == config.analytics.read_batch_size,
        r.block_millis == config.analytics.read_block@ / (NANOS_PER_MILLI as nat),
{
    let block = config.analytics.read_block.as_millis();
    StreamRead {
        group: CONSUMER_GROUP,
        consumer: CONSUMER_NAME,
        count: config.analytics.read_batch_size,
        block_millis: block as usize,
    }
}

/// What the writer does with a stream entry.
#[derive(Debug)]
pub enum EntryAction {
    /// Run the record script: it acknowledges the entry and counts the click.
    Record(ScriptCall),
    /// Acknowledge and delete the entry without counting anything.
    Drop,
}

/// The action for entry `entry_id` of the stream `stream_key`, given the
/// event read from it (`None` when the entry held no readable event): an
/// event is recorded, anything else is dropped; so is an event whose day
/// cannot be rendered.
pub fn entry_action(stream_key: &str, entry_id: &str, event: Option<ClickEvent>) -> (action: EntryAction)
    ensures
        match event {
            None => action is Drop,
            Some(e) => match click_day_text(e.at_millis as int) {
                None => action is Drop,
                Some(_) => action matches EntryAction::Record(c) && records_click(
                    c,
                    stream_key@,
                    CONSUMER_GROUP@,
                    entry_id@,
                    e,
                ),
            },
        },
{
    match event {
        None => EntryAction::Drop,
        Some(e) => match RedisStats::record_click_call(stream_key, CONSUMER_GROUP, entry_id, &e) {
            Some(call) => EntryAction::Record(call),
            None => EntryAction::Drop,
        },
    }
}

/// What became of an attempt to create the consumer group.
#[derive(Debug, Clone, Copy, PartialEq, Eq, Structural)]
pub enum GroupCreation {
    Created,
    AlreadyExists,
    Failed,
}

/// Reads the reply to the creation of the consumer group: no error, the
/// group was created; an error whose text mentions `BUSYGROUP`, it existed
/// already; any other error is a failure.
pub fn group_creation(error: Option<&str>) -> (g: GroupCreation)
    ensures
        match error {
            None => g == GroupCreation::Created,
            Some(e) => if contains_text(e@, "BUSYGROUP"@) {
                g == GroupCreation::AlreadyExists
            } else {
                g == GroupCreation::Failed
            },
        },
{
    match error {
        None => GroupCreation::Created,
        Some(e) => if contains_str(e, "BUSYGROUP") {
            GroupCreation::AlreadyExists
        } else {
            GroupCreation::Failed
        },
    }
}

/// The progress of draining the entries left pending: the number claimed so
/// far.
pub struct DrainProgress {
    total: u64,
}

impl DrainProgress {
    pub closed spec fn claimed(self) -> nat {
        self.total as nat
    }

    pub fn new() -> (d: Self)
        ensures
            d.claimed() == 0,
    {
        DrainProgress { total: 0 }
    }

    /// The number of entries claimed so far.
    pub fn total(&self) -> (t: u64)
        ensures
            t == self.claimed(),
    {
        self.total
    }

    /// Whether another batch is due: draining stops on shutdown.
    pub fn wants_batch(&self, cancelled: bool) -> (b: bool)
        ensures
            b == !cancelled,
    {
        !cancelled
    }

    /// Records a batch of `claimed` entries; an empty batch ends the
    /// draining.
    pub fn after_batch(&mut self, claimed: u64) -> (more: bool)
        requires
            old(self).claimed() + claimed <= u64::MAX,
        ensures
            more == (claimed > 0),
            final(self).claimed() == old(self).claimed() + claimed,
    {
        if claimed == 0 {
            return false;
        }
        self.total = self.total + claimed;
        true
    }
}

/// The result of a stream read.
#[derive(Debug, Clone, Copy, PartialEq, Eq, Structural)]
pub enum ReadResult {
    /// Some entries were read.
    Entries,
    /// The read timed out with nothing new.
    Empty,
    /// The read failed.
    Failed,
}

/// What the writer's loop does next.
#[derive(Debug, Clone, Copy, PartialEq, Eq, Structural)]
pub enum LoopAction {
    /// Leave the loop.
    Stop,
    /// Flush a snapshot of the buckets into Postgres.
    Flush,
    /// Process the entries read.
    Process,
    /// Read again.
    Continue,
    /// Wait `REDIS_ERROR_BACKOFF_MILLIS`, then read again.
    Backoff,
}

/// The next action of the writer's loop. Shutdown is checked first, then
/// the flush timer, then the read.
pub fn loop_action(shutdown: bool, flush_due: bool, read: Option<ReadResult>) -> (a: LoopAction)
    ensures
        shutdown ==> a == LoopAction::Stop,
        !shutdown && flush_due ==> a == LoopAction::Flush,
        !shutdown && !flush_due ==> a == match read {
            Some(ReadResult::Entries) => LoopAction::Process,
            Some(ReadResult::Failed) => LoopAction::Backoff,
            _ => LoopAction::Continue,
        },
{
    if shutdown {
        LoopAction::Stop
    } else if flush_due {
        LoopAction::Flush
    } else {
        match read {
            Some(ReadResult::Entries) => LoopAction::Process,
            Some(ReadResult::Failed) => LoopAction::Backoff,
            _ => LoopAction::Continue,
        }
    }
}

} // verus!
