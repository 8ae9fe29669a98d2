//! The settings that the environment holds.

use vstd::prelude::*;
use crate::text::{parse_u64, u64_in};
use crate::worker::DEFAULT_POOL_SIZE;

verus! {

/// The megabytes of the shared cache unless `MEV_GLOBAL_CACHE_MAX_MB` says
/// otherwise.
pub const DEFAULT_CACHE_MAX_MB: u64 = 16_384;

/// The seconds between periodic reports unless `MEV_STATS_INTERVAL_SECS` says
/// otherwise.
pub const DEFAULT_STATS_INTERVAL_SECS: u64 = 30;

/// Whether a switch is on: it is, unless it is set to `0`.
pub open spec fn flag_in(setting: Option<&str>) -> bool {
    match setting {
        Some(text) => text@ != seq!['0'],
        None => true,
    }
}

/// Whether a switch is on.
pub fn is_on(setting: Option<&str>) -> (on: bool)
    ensures
        on == flag_in(setting),
{
    match setting {
        Some(text) => {
            let off = text.unicode_len() == 1 && text.get_char(0) == '0';
            assert(off == (text@ =~= seq!['0']));
            !off
        },
        None => true,
    }
}

/// The number in a setting, if it is set and is a number.
pub open spec fn number_in(setting: Option<&str>) -> Option<u64> {
    match setting {
        Some(text) => u64_in(text@),
        None => None,
    }
}

fn read_number(setting: Option<&str>) -> (number: Option<u64>)
    ensures
        number == number_in(setting),
{
    match setting {
        Some(text) => parse_u64(text),
        None => None,
    }
}

/// What is read from the environment at the start.
#[derive(Clone, Copy, Debug)]
pub struct MevConfig {
    pub num_workers: usize,
    pub cache_max_mb: u64,
    pub stats_interval_secs: u64,
    pub reject_stale_call: bool,
}

impl MevConfig {
    /// The settings that the values of the variables come to.
    pub open spec fn from_texts(
        worker_count: Option<&str>,
        cache_max_mb: Option<&str>,
        stats_interval_secs: Option<&str>,
        reject_stale_call: Option<&str>,
    ) -> Self {
        MevConfig {
            num_workers: match number_in(worker_count) {
                Some(n) if n <= usize::MAX => n as usize,
                _ => DEFAULT_POOL_SIZE,
            },
            cache_max_mb: match number_in(cache_max_mb) {
                Some(n) => n,
                None => DEFAULT_CACHE_MAX_MB,
            },
            stats_interval_secs: match number_in(stats_interval_secs) {
                Some(n) if n >= 1 => n,
                _ => DEFAULT_STATS_INTERVAL_SECS,
            },
            reject_stale_call: flag_in(reject_stale_call),
        }
    }

    /// The settings from the values of `MEV_WORKER_COUNT`,
    /// `MEV_GLOBAL_CACHE_MAX_MB`, `MEV_STATS_INTERVAL_SECS` and
    /// `MEV_REJECT_STALE_CALL`. What is not set, or is not a number of the right
    /// size, is as by default. An interval of zero is not valid.
    pub fn from_settings(
        worker_count: Option<&str>,
        cache_max_mb: Option<&str>,
        stats_interval_secs: Option<&str>,
        reject_stale_call: Option<&str>,
    ) -> (config: Self)
        ensures
            config == MevConfig::from_texts(
                worker_count,
                cache_max_mb,
                stats_interval_secs,
                reject_stale_call,
            ),
    {
        let num_workers: usize = match read_number(worker_count) {
            Some(n) if n <= usize::MAX as u64 => n as usize,
            _ => DEFAULT_POOL_SIZE,
        };
        let cache_max_mb: u64 = match read_number(cache_max_mb) {
            Some(n) => n,
            None => DEFAULT_CACHE_MAX_MB,
        };
        let stats_interval_secs: u64 = match read_number(stats_interval_secs) {
            Some(n) if n >= 1 => n,
            _ => DEFAULT_STATS_INTERVAL_SECS,
        };
        MevConfig {
            num_workers,
            cache_max_mb,
            stats_interval_secs,
            reject_stale_call: is_on(reject_stale_call),
        }
    }
}

/// A switch is off exactly where it is set to `0`.
pub proof fn switches_are_on_unless_zero(text: &str)
    ensures
        flag_in(None),
        flag_in(Some(text)) <==> !(text@.len() == 1 && text@[0] == '0'),
{
    if text@.len() == 1 && text@[0] == '0' {
        assert(text@ =~= seq!['0']);
    }
}

/// Every number that a variable is set to is taken as it is, but for an interval of zero and
/// for more workers than can be counted. A variable that is not set, or not to a number, is
/// as by default: 40 workers, 16384 megabytes, 30 seconds, and stale calls rejected.
pub proof fn settings_are_taken_as_they_are(
    worker_count: &str,
    cache_max_mb: &str,
    stats_interval_secs: &str,
    reject_stale_call: &str,
)
    ensures
        ({
            let set = MevConfig::from_texts(
                Some(worker_count),
                Some(cache_max_mb),
                Some(stats_interval_secs),
                Some(reject_stale_call),
            );
            &&& u64_in(worker_count@) matches Some(n) ==> (n <= usize::MAX ==> set.num_workers == n)
            &&& u64_in(worker_count@) matches Some(n) ==> (n > usize::MAX ==> set.num_workers == 40)
            &&& u64_in(worker_count@) is None ==> set.num_workers == 40
            &&& u64_in(cache_max_mb@) matches Some(n) ==> set.cache_max_mb == n
            &&& u64_in(cache_max_mb@) is None ==> set.cache_max_mb == 16_384
            &&& u64_in(stats_interval_secs@) matches Some(n) ==> (n > 0 ==> set.stats_interval_secs
                == n)
            &&& u64_in(stats_interval_secs@) == Some(0u64) ==> set.stats_interval_secs == 30
            &&& u64_in(stats_interval_secs@) is None ==> set.stats_interval_secs == 30
            &&& set.reject_stale_call <==> !(reject_stale_call@.len() == 1
                && reject_stale_call@[0] == '0')
        }),
        ({
            let unset = MevConfig::from_texts(None, None, None, None);
            &&& unset.num_workers == 40
            &&& unset.cache_max_mb == 16_384
            &&& unset.stats_interval_secs == 30
            &&& unset.reject_stale_call
        }),
{
    switches_are_on_unless_zero(reject_stale_call);
}

} // verus!
