//! What requests name, and what subscribers get.

use vstd::prelude::*;
use crate::chain::CanonStateNotification;
use crate::impact::encoding::{hex_text_reads_as, in_lower_case, reads_as};
use crate::impact::handlers::LogHandler;
use crate::impact::raw_ids::{each_once, texts};
use crate::impact::{changed_ids, compute_changed_raw_ids, BlockImpactRegistry};
use crate::metrics::method;
use crate::primitives::{Address, B256};
use crate::text::{hex_text, to_hex};
use super::fee::{base_fee_after, fee_follows_demand, next_base_fee};

verus! {

/// A block by its height, or by its place in the chain.
#[derive(Clone, Copy, Debug)]
pub enum BlockNumberOrTag {
    Latest,
    Finalized,
    Safe,
    Earliest,
    Pending,
    Number(u64),
}

/// The block that a request asks for.
#[derive(Clone, Copy, Debug)]
pub enum BlockId {
    Hash(B256),
    Number(BlockNumberOrTag),
}

/// One of the three methods.
#[derive(Clone, Copy, Debug, PartialEq, Eq, Structural)]
pub enum Method {
    EthCall,
    DebugTraceCall,
    TraceCall,
}

impl Method {
    /// The label of the method in metrics.
    pub open spec fn label_text(self) -> &'static str {
        match self {
            Method::EthCall => method::ETH_CALL,
            Method::DebugTraceCall => method::DEBUG_TRACE,
            Method::TraceCall => method::TRACE_CALL,
        }
    }

    /// The label of the method in metrics.
    pub fn label(&self) -> (label: &'static str)
        ensures
            label == self.label_text(),
    {
        match self {
            Method::EthCall => method::ETH_CALL,
            Method::DebugTraceCall => method::DEBUG_TRACE,
            Method::TraceCall => method::TRACE_CALL,
        }
    }
}

/// A kind of trace that `mev_trace_call` can be asked for.
#[derive(Clone, Copy, Debug, PartialEq, Eq, Structural)]
pub enum TraceType {
    Trace,
    VmTrace,
    StateDiff,
}

/// A set of kinds of trace.
#[derive(Clone, Copy, Debug, PartialEq, Eq, Structural)]
pub struct TraceTypes {
    pub trace: bool,
    pub vm_trace: bool,
    pub state_diff: bool,
}

impl TraceTypes {
    /// Whether `kind` is in the set.
    pub open spec fn has(self, kind: TraceType) -> bool {
        match kind {
            TraceType::Trace => self.trace,
            TraceType::VmTrace => self.vm_trace,
            TraceType::StateDiff => self.state_diff,
        }
    }

    /// The kinds in `list`, however often each is there.
    pub fn collect(list: &Vec<TraceType>) -> (kinds: Self)
        ensures
            forall|kind: TraceType| #[trigger] kinds.has(kind) == list@.contains(kind),
    {
        let mut kinds = TraceTypes { trace: false, vm_trace: false, state_diff: false };
        let mut i: usize = 0;
        while i < list.len()
            invariant
                i <= list.len(),
                forall|kind: TraceType| #[trigger]
                    kinds.has(kind) == list@.take(i as int).contains(kind),
            decreases list.len() - i,
        {
            let ghost seen = list@.take(i as int);
            let ghost had = kinds;
            let next = list[i];
            match next {
                TraceType::Trace => {
                    kinds.trace = true;
                },
                TraceType::VmTrace => {
                    kinds.vm_trace = true;
                },
                TraceType::StateDiff => {
                    kinds.state_diff = true;
                },
            }
            proof {
                let now = list@.take(i + 1);
                assert(now == seen.push(next));
                assert forall|kind: TraceType| #[trigger] kinds.has(kind) == now.contains(kind) by {
                    assert(had.has(kind) == seen.contains(kind));
                    if seen.contains(kind) {
                        let j = choose|j: int| 0 <= j < seen.len() && seen[j] == kind;
                        assert(now[j] == kind);
                    }
                    assert(now[i as int] == next);
                    if now.contains(kind) {
                        let j = choose|j: int| 0 <= j < now.len() && now[j] == kind;
                        if j < i {
                            assert(seen[j] == kind);
                        }
                    }
                }
            }
            i += 1;
        }
        assert(list@.take(list@.len() as int) == list@);
        kinds
    }
}

/// What a worker is to execute.
#[derive(Clone, Copy, Debug)]
pub enum CallKind {
    /// `mev_eth_call`
    Basic,
    /// `mev_debug_traceCall`; with `with_access_list` the list of what was touched
    /// goes along with the trace.
    DebugTrace { with_access_list: bool },
    /// `mev_trace_call`
    ParityTrace { trace_types: TraceTypes },
}

impl CallKind {
    /// The label of the kind in metrics.
    pub open spec fn label_text(self) -> &'static str {
        match self {
            CallKind::Basic => "basic",
            CallKind::DebugTrace { .. } => "debug_trace",
            CallKind::ParityTrace { .. } => "trace_call",
        }
    }

    /// The label of the kind in metrics.
    pub fn label(&self) -> (label: &'static str)
        ensures
            label == self.label_text(),
    {
        match self {
            CallKind::Basic => "basic",
            CallKind::DebugTrace { .. } => "debug_trace",
            CallKind::ParityTrace { .. } => "trace_call",
        }
    }
}

/// The options of `mev_debug_traceCall`: those of the native method, and whether
/// the list of what was touched is wanted.
#[derive(Debug)]
pub struct MevDebugTracingCallOptions<O> {
    pub inner: O,
    pub with_access_list: bool,
}

/// What the subscribers of new blocks get.
#[derive(Debug)]
pub struct MevNewBlock {
    pub block_number: u64,
    /// `0x` and 64 hexadecimal digits.
    pub block_hash: String,
    /// Seconds since 1970.
    pub timestamp: u64,
    /// The base fee in wei, if the block has one.
    pub base_fee_per_gas: Option<u64>,
    /// The base fee of the next block in wei, if it is to have one.
    pub next_base_fee_per_gas: Option<u64>,
    /// The identifiers of the pools that the block may have moved.
    pub changed_raw_ids: Vec<String>,
}

/// Whether `block` is the message for the new tip of `notification`, if it has one.
pub open spec fn announces(
    block: Option<MevNewBlock>,
    notification: CanonStateNotification,
    handlers: Map<Address, LogHandler>,
    timestamp: u64,
    gas_used: u64,
    gas_limit: u64,
    base_fee_per_gas: Option<u64>,
) -> bool {
    match (block, notification.new_chain().tip) {
        (Some(block), Some(tip)) => {
            &&& block.block_number == tip.number
            &&& block.block_hash@ == hex_text(tip.hash.0@)
            &&& block.timestamp == timestamp
            &&& block.base_fee_per_gas == base_fee_per_gas
            &&& match (base_fee_per_gas, block.next_base_fee_per_gas) {
                (Some(fee), Some(next)) => next as int == base_fee_after(
                    gas_used,
                    gas_limit,
                    fee,
                ) % 0x1_0000_0000_0000_0000,
                (None, None) => true,
                _ => false,
            }
            &&& each_once(block.changed_raw_ids@)
            &&& texts(block.changed_raw_ids@) == changed_ids(
                handlers,
                notification.new_chain(),
            )
        },
        (None, None) => true,
        _ => false,
    }
}

impl MevNewBlock {
    /// The message for the new tip of `notification`, unless it has none. The time, the
    /// gas and the fee are those of the tip's header. A block without a base fee has
    /// none after it.
    pub fn from_notification(
        notification: &CanonStateNotification,
        registry: &BlockImpactRegistry,
        timestamp: u64,
        gas_used: u64,
        gas_limit: u64,
        base_fee_per_gas: Option<u64>,
    ) -> (block: Option<Self>)
        ensures
            announces(
                block,
                *notification,
                registry@,
                timestamp,
                gas_used,
                gas_limit,
                base_fee_per_gas,
            ),
    {
        let tip = match notification.committed().tip {
            Some(tip) => tip,
            None => {
                return None;
            },
        };
        Some(
            MevNewBlock {
                block_number: tip.number,
                block_hash: to_hex(tip.hash.0.as_slice()),
                timestamp,
                base_fee_per_gas,
                next_base_fee_per_gas: match base_fee_per_gas {
                    Some(fee) => Some(next_base_fee(gas_used, gas_limit, fee)),
                    None => None,
                },
                changed_raw_ids: compute_changed_raw_ids(notification, registry),
            },
        )
    }
}

/// Subscribers are told of the new tip exactly where there is one, after a commit and after a
/// reorganisation alike: its number, its hash as a text that is read as its 32 bytes, the time
/// and the fee of its header, the fee of the next block where the block has a fee, and what
/// may have moved, each once.
pub proof fn announcements_are_of_the_new_tip(
    block: Option<MevNewBlock>,
    notification: CanonStateNotification,
    handlers: Map<Address, LogHandler>,
    timestamp: u64,
    gas_used: u64,
    gas_limit: u64,
    base_fee_per_gas: Option<u64>,
)
    requires
        announces(
            block,
            notification,
            handlers,
            timestamp,
            gas_used,
            gas_limit,
            base_fee_per_gas,
        ),
    ensures
        ({
            let new = match notification {
                CanonStateNotification::Commit { new } => new,
                CanonStateNotification::Reorg { new } => new,
            };
            &&& block is Some <==> new.tip is Some
            &&& block matches Some(block) ==> {
                &&& block.block_number == new.tip->Some_0.number
                &&& reads_as(block.block_hash@, new.tip->Some_0.hash.0@)
                &&& in_lower_case(block.block_hash@)
                &&& block.timestamp == timestamp
                &&& block.base_fee_per_gas == base_fee_per_gas
                &&& base_fee_per_gas is None ==> block.next_base_fee_per_gas is None
                &&& base_fee_per_gas matches Some(fee) ==> (
                block.next_base_fee_per_gas matches Some(next) && (base_fee_after(
                    gas_used,
                    gas_limit,
                    fee,
                ) <= u64::MAX ==> next == base_fee_after(gas_used, gas_limit, fee)))
                &&& forall|id: Seq<char>|
                    (exists|i: int|
                        0 <= i < block.changed_raw_ids@.len() && (
                        #[trigger] block.changed_raw_ids@[i])@ == id) <==> #[trigger] changed_ids(
                        handlers,
                        new,
                    ).contains(id)
                &&& forall|i: int, j: int|
                    0 <= i < j < block.changed_raw_ids@.len() ==> (
                    #[trigger] block.changed_raw_ids@[i])@ != (
                    #[trigger] block.changed_raw_ids@[j])@
            }
        }),
{
    if let Some(block) = block {
        let new = notification.new_chain();
        hex_text_reads_as(new.tip->Some_0.hash.0@);
        if let Some(fee) = base_fee_per_gas {
            fee_follows_demand(gas_used, gas_limit, fee);
        }
        assert forall|id: Seq<char>|
            (exists|i: int|
                0 <= i < block.changed_raw_ids@.len() && (#[trigger] block.changed_raw_ids@[i])@
                    == id) <==> #[trigger] changed_ids(handlers, new).contains(id) by {
            assert(texts(block.changed_raw_ids@).contains(id) <==> changed_ids(
                handlers,
                new,
            ).contains(id));
        }
    }
}

/// Methods and kinds of call are shown by their own names.
pub proof fn labels_are_names(kinds: TraceTypes, with_access_list: bool)
    ensures
        Method::EthCall.label_text() == "eth_call",
        Method::DebugTraceCall.label_text() == "debug_traceCall",
        Method::TraceCall.label_text() == "trace_call",
        CallKind::Basic.label_text() == "basic",
        (CallKind::DebugTrace { with_access_list }).label_text() == "debug_trace",
        (CallKind::ParityTrace { trace_types: kinds }).label_text() == "trace_call",
        kinds.has(TraceType::Trace) == kinds.trace,
        kinds.has(TraceType::VmTrace) == kinds.vm_trace,
        kinds.has(TraceType::StateDiff) == kinds.state_diff,
{
}

} // verus!
