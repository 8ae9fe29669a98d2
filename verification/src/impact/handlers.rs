//! What a log of a shared contract says of the pool that it is about.
//!
//! A handler takes an identifier out of every log of its contract, by a fixed
//! rule, and does not ask whether there is such a pool. One identifier too many
//! costs the reader a look; one too few would hide a change.

use vstd::prelude::*;
use vstd::slice::slice_subrange;
use vstd::string::StringSliceAdditionalSpecFns;
use crate::chain::Log;
use crate::primitives::{Address, B256};
use crate::text::{hex_text, to_hex};
use super::encoding::{
    checksum_text, checksum_text_reads_as, hex_text_reads_as, in_lower_case, keccak, keccak256,
    reads_as, to_checksum,
};
use super::raw_ids::RawIds;

verus! {

/// The signature of the event that reports a swap on a FluidDexLite exchange.
pub const FLUID_LOG_SWAP: &'static str = "LogSwap(uint256,uint256)";

/// `ids` and the candidate, if there is one.
pub open spec fn with_candidate(ids: Set<Seq<char>>, candidate: Option<Seq<char>>) -> Set<
    Seq<char>,
> {
    match candidate {
        Some(id) => ids.insert(id),
        None => ids,
    }
}

/// A rule that takes a pool identifier out of a log.
pub trait ImpactLogHandler {
    /// The identifier in `log`, if there is one.
    spec fn candidate(&self, log: Log) -> Option<Seq<char>>;

    /// Puts the identifier in `log` into `changed_raw_ids`, if there is one.
    fn process_log(&self, log: &Log, changed_raw_ids: &mut RawIds)
        ensures
            final(changed_raw_ids)@ == with_candidate(
                old(changed_raw_ids)@,
                self.candidate(*log),
            ),
    ;
}

/// The 20 bytes of `bytes` from `at` on, as an address.
fn address_at(bytes: &[u8], at: usize) -> (address: Address)
    requires
        at + 20 <= bytes@.len(),
    ensures
        address.0@ == bytes@.subrange(at as int, at + 20),
{
    let mut out: [u8; 20] = [0; 20];
    let len = bytes.len();
    let mut i: usize = 0;
    while i < 20
        invariant
            i <= 20,
            at + 20 <= len,
            len == bytes@.len(),
            forall|j: int| 0 <= j < i ==> out@[j] == bytes@[at + j],
        decreases 20 - i,
    {
        out[i] = bytes[at + i];
        i += 1;
    }
    assert(out@ =~= bytes@.subrange(at as int, at + 20));
    Address(out)
}

/// Whether a topic is all zeros.
pub open spec fn is_zero(topic: B256) -> bool {
    forall|i: int| 0 <= i < 32 ==> topic.0[i] == 0
}

fn check_zero(topic: &B256) -> (zero: bool)
    ensures
        zero == is_zero(*topic),
{
    let mut i: usize = 0;
    while i < 32
        invariant
            i <= 32,
            forall|j: int| 0 <= j < i ==> topic.0[j] == 0,
        decreases 32 - i,
    {
        if topic.0[i] != 0 {
            return false;
        }
        i += 1;
    }
    true
}

/// The Balancer V2 vault. The second topic is the pool id, whose first 20 bytes are
/// the address of the pool.
#[derive(Clone, Copy, Debug)]
pub struct BalancerV2Handler;

impl ImpactLogHandler for BalancerV2Handler {
    open spec fn candidate(&self, log: Log) -> Option<Seq<char>> {
        if log.topics@.len() < 2 {
            None
        } else {
            Some(checksum_text(log.topics@[1].0@.subrange(0, 20)))
        }
    }

    fn process_log(&self, log: &Log, changed_raw_ids: &mut RawIds) {
        if log.topics.len() < 2 {
            return ;
        }
        let pool = address_at(log.topics[1].0.as_slice(), 0);
        changed_raw_ids.insert(to_checksum(&pool));
    }
}

/// The Balancer V3 vault. The second topic is the address of the pool, padded on
/// the left.
#[derive(Clone, Copy, Debug)]
pub struct BalancerV3Handler;

impl ImpactLogHandler for BalancerV3Handler {
    open spec fn candidate(&self, log: Log) -> Option<Seq<char>> {
        if log.topics@.len() < 2 {
            None
        } else {
            Some(checksum_text(log.topics@[1].0@.subrange(12, 32)))
        }
    }

    fn process_log(&self, log: &Log, changed_raw_ids: &mut RawIds) {
        if log.topics.len() < 2 {
            return ;
        }
        let pool = address_at(log.topics[1].0.as_slice(), 12);
        changed_raw_ids.insert(to_checksum(&pool));
    }
}

/// The Uniswap V4 pool manager. The second topic is the pool id.
#[derive(Clone, Copy, Debug)]
pub struct UniswapV4Handler;

impl ImpactLogHandler for UniswapV4Handler {
    open spec fn candidate(&self, log: Log) -> Option<Seq<char>> {
        if log.topics@.len() < 2 {
            None
        } else {
            Some(hex_text(log.topics@[1].0@))
        }
    }

    fn process_log(&self, log: &Log, changed_raw_ids: &mut RawIds) {
        if log.topics.len() < 2 {
            return ;
        }
        changed_raw_ids.insert(to_hex(log.topics[1].0.as_slice()));
    }
}

/// The FluidDexLite contract. The id of the exchange is the last 8 bytes of the
/// first word of a swap, and follows the three words of the exchange's key in any
/// other event.
#[derive(Clone, Copy, Debug)]
pub struct FluidDexLiteHandler;

/// Whether `log` reports a swap.
pub open spec fn is_fluid_swap(log: Log) -> bool {
    log.topics@.len() > 0 && log.topics@[0].0@ == keccak(FLUID_LOG_SWAP.spec_bytes())
}

fn is_swap_topic(topic: &B256) -> (is_swap: bool)
    ensures
        is_swap == (topic.0@ == keccak(FLUID_LOG_SWAP.spec_bytes())),
{
    let swap = keccak256(FLUID_LOG_SWAP.as_bytes());
    let is_swap = topic.same(&swap);
    assert(topic.0@ == swap.0@ ==> topic.0 =~= swap.0);
    is_swap
}

impl ImpactLogHandler for FluidDexLiteHandler {
    open spec fn candidate(&self, log: Log) -> Option<Seq<char>> {
        if is_fluid_swap(log) {
            if log.data@.len() < 32 {
                None
            } else {
                Some(hex_text(log.data@.subrange(24, 32)))
            }
        } else {
            if log.data@.len() < 104 {
                None
            } else {
                Some(hex_text(log.data@.subrange(96, 104)))
            }
        }
    }

    fn process_log(&self, log: &Log, changed_raw_ids: &mut RawIds) {
        let is_swap = log.topics.len() > 0 && is_swap_topic(&log.topics[0]);
        let at: usize = if is_swap {
            24
        } else {
            96
        };
        if log.data.len() < at + 8 {
            return ;
        }
        changed_raw_ids.insert(to_hex(slice_subrange(log.data.as_slice(), at, at + 8)));
    }
}

/// A coreSwap pool manager. A log without a first topic, or with one that is all
/// zeros, holds the caller and then the pool id; any other begins with the pool id.
#[derive(Clone, Copy, Debug)]
pub struct CoreSwapHandler;

impl ImpactLogHandler for CoreSwapHandler {
    open spec fn candidate(&self, log: Log) -> Option<Seq<char>> {
        if log.topics@.len() == 0 || is_zero(log.topics@[0]) {
            if log.data@.len() < 52 {
                None
            } else {
                Some(hex_text(log.data@.subrange(20, 52)))
            }
        } else {
            if log.data@.len() < 32 {
                None
            } else {
                Some(hex_text(log.data@.subrange(0, 32)))
            }
        }
    }

    fn process_log(&self, log: &Log, changed_raw_ids: &mut RawIds) {
        let at: usize = if log.topics.len() == 0 || check_zero(&log.topics[0]) {
            20
        } else {
            0
        };
        if log.data.len() < at + 32 {
            return ;
        }
        changed_raw_ids.insert(to_hex(slice_subrange(log.data.as_slice(), at, at + 32)));
    }
}

/// The handler of one shared contract.
#[derive(Clone, Copy, Debug)]
pub enum LogHandler {
    BalancerV2(BalancerV2Handler),
    BalancerV3(BalancerV3Handler),
    UniswapV4(UniswapV4Handler),
    FluidDexLite(FluidDexLiteHandler),
    CoreSwap(CoreSwapHandler),
}

impl ImpactLogHandler for LogHandler {
    open spec fn candidate(&self, log: Log) -> Option<Seq<char>> {
        match self {
            LogHandler::BalancerV2(handler) => handler.candidate(log),
            LogHandler::BalancerV3(handler) => handler.candidate(log),
            LogHandler::UniswapV4(handler) => handler.candidate(log),
            LogHandler::FluidDexLite(handler) => handler.candidate(log),
            LogHandler::CoreSwap(handler) => handler.candidate(log),
        }
    }

    fn process_log(&self, log: &Log, changed_raw_ids: &mut RawIds) {
        match self {
            LogHandler::BalancerV2(handler) => handler.process_log(log, changed_raw_ids),
            LogHandler::BalancerV3(handler) => handler.process_log(log, changed_raw_ids),
            LogHandler::UniswapV4(handler) => handler.process_log(log, changed_raw_ids),
            LogHandler::FluidDexLite(handler) => handler.process_log(log, changed_raw_ids),
            LogHandler::CoreSwap(handler) => handler.process_log(log, changed_raw_ids),
        }
    }
}

/// An identifier that is found is put in, and whatever else is there stays.
pub proof fn candidates_are_put_in(ids: Set<Seq<char>>, candidate: Option<Seq<char>>, id: Seq<char>)
    ensures
        with_candidate(ids, candidate).contains(id) <==> ids.contains(id) || candidate == Some(id),
{
}

/// Every log of the Balancer V2 vault with a second topic names a pool, however many topics
/// follow: its checksummed text is read as the first 20 bytes of the second topic. No other
/// log of the vault names one.
pub proof fn balancer_v2_names_the_pool(log: Log)
    ensures
        log.topics@.len() < 2 ==> LogHandler::BalancerV2(BalancerV2Handler).candidate(log) is None,
        log.topics@.len() >= 2 ==> (LogHandler::BalancerV2(BalancerV2Handler).candidate(log) matches Some(
            id,
        ) && reads_as(id, log.topics@[1].0@.subrange(0, 20)) && id == checksum_text(
            log.topics@[1].0@.subrange(0, 20),
        )),
        BalancerV2Handler.candidate(log) == LogHandler::BalancerV2(BalancerV2Handler).candidate(log),
{
    if log.topics@.len() >= 2 {
        checksum_text_reads_as(log.topics@[1].0@.subrange(0, 20));
    }
}

/// Every log of the Balancer V3 vault with a second topic names a pool: its checksummed text
/// is read as the last 20 bytes of the second topic. No other log of the vault names one.
pub proof fn balancer_v3_names_the_pool(log: Log)
    ensures
        log.topics@.len() < 2 ==> LogHandler::BalancerV3(BalancerV3Handler).candidate(log) is None,
        log.topics@.len() >= 2 ==> (LogHandler::BalancerV3(BalancerV3Handler).candidate(log) matches Some(
            id,
        ) && reads_as(id, log.topics@[1].0@.subrange(12, 32)) && id == checksum_text(
            log.topics@[1].0@.subrange(12, 32),
        )),
        BalancerV3Handler.candidate(log) == LogHandler::BalancerV3(BalancerV3Handler).candidate(log),
{
    if log.topics@.len() >= 2 {
        checksum_text_reads_as(log.topics@[1].0@.subrange(12, 32));
    }
}

/// Every log of the Uniswap V4 pool manager with a second topic names a pool: the text is
/// read as the 32 bytes of that topic. No other log of the manager names one.
pub proof fn uniswap_v4_names_the_pool(log: Log)
    ensures
        log.topics@.len() < 2 ==> LogHandler::UniswapV4(UniswapV4Handler).candidate(log) is None,
        log.topics@.len() >= 2 ==> (LogHandler::UniswapV4(UniswapV4Handler).candidate(log) matches
            Some(id) && reads_as(id, log.topics@[1].0@) && in_lower_case(id)),
        UniswapV4Handler.candidate(log) == LogHandler::UniswapV4(UniswapV4Handler).candidate(log),
{
    if log.topics@.len() >= 2 {
        hex_text_reads_as(log.topics@[1].0@);
    }
}

/// A swap on FluidDexLite, which is a log whose first topic is the hash of the event's
/// signature, names its exchange by bytes 24 to 31 of the data. Any other log names it by
/// bytes 96 to 103. A log whose data ends before that names none.
pub proof fn fluid_names_the_exchange(log: Log)
    ensures
        ({
            let swaps = log.topics@.len() > 0 && log.topics@[0].0@ == keccak(
                "LogSwap(uint256,uint256)".spec_bytes(),
            );
            let candidate = LogHandler::FluidDexLite(FluidDexLiteHandler).candidate(log);
            &&& swaps && log.data@.len() >= 32 ==> (candidate matches Some(id) && reads_as(
                id,
                log.data@.subrange(24, 32),
            ) && in_lower_case(id))
            &&& swaps && log.data@.len() < 32 ==> candidate is None
            &&& !swaps && log.data@.len() >= 104 ==> (candidate matches Some(id) && reads_as(
                id,
                log.data@.subrange(96, 104),
            ) && in_lower_case(id))
            &&& !swaps && log.data@.len() < 104 ==> candidate is None
            &&& FluidDexLiteHandler.candidate(log) == candidate
        }),
{
    if log.data@.len() >= 32 {
        hex_text_reads_as(log.data@.subrange(24, 32));
    }
    if log.data@.len() >= 104 {
        hex_text_reads_as(log.data@.subrange(96, 104));
    }
}

/// A log of a coreSwap pool manager that has a first topic with a byte other than zero names
/// its pool by the first 32 bytes of the data. Any other log names it by the 32 bytes after
/// the first 20. A log whose data ends before that names none.
pub proof fn core_swap_names_the_pool(log: Log)
    ensures
        ({
            let standard = log.topics@.len() > 0 && exists|i: int|
                0 <= i < 32 && #[trigger] log.topics@[0].0[i] != 0;
            let candidate = LogHandler::CoreSwap(CoreSwapHandler).candidate(log);
            &&& standard && log.data@.len() >= 32 ==> (candidate matches Some(id) && reads_as(
                id,
                log.data@.subrange(0, 32),
            ) && in_lower_case(id))
            &&& standard && log.data@.len() < 32 ==> candidate is None
            &&& !standard && log.data@.len() >= 52 ==> (candidate matches Some(id) && reads_as(
                id,
                log.data@.subrange(20, 52),
            ) && in_lower_case(id))
            &&& !standard && log.data@.len() < 52 ==> candidate is None
            &&& CoreSwapHandler.candidate(log) == candidate
        }),
{
    if log.data@.len() >= 32 {
        hex_text_reads_as(log.data@.subrange(0, 32));
    }
    if log.data@.len() >= 52 {
        hex_text_reads_as(log.data@.subrange(20, 52));
    }
}

} // verus!
