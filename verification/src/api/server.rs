//! How a request is routed, prepared and answered.
//!
//! A request comes in through one of the three methods of [`MevApiServer`]. They
//! say where it goes: to a worker, to the native method, or back with an error. One
//! that goes to a worker is then given to the pool by [`MevApiServer::submit`], and
//! the worker's reply is turned into the answer by the `finish` method of the same
//! name.

use vstd::prelude::*;
use crate::epoch::{gap_behind, request_matches, EpochContext, EpochManager};
use crate::metrics::{
    self, counted, counted_under, mismatch_reason, Emission, Labels, MethodCounters, MevCounters,
    Update, DEGRADED_GAP_TOTAL, DEGRADED_PATH_TOTAL, EPOCH_MISMATCH_TOTAL, ERRORS_TOTAL,
    REQUESTS_TOTAL, WORKER_PATH_TOTAL,
};
use crate::worker::{
    dispatch_emissions, AccessList, MevWorkerPool, PoolError, WorkerError, WorkerOutput, WorkerTask,
};
use super::types::{
    BlockId, BlockNumberOrTag, CallKind, Method, MevDebugTracingCallOptions, TraceType,
    TraceTypes,
};

verus! {

/// The node's limits on a call.
#[derive(Clone, Copy, Debug)]
pub struct MevCallConfig {
    /// The most gas that a call may use; zero is no limit.
    pub call_gas_cap: u64,
    pub evm_memory_limit: u64,
}

/// The switches of the machine that a call is executed with.
#[derive(Clone, Copy, Debug)]
pub struct CfgEnv {
    pub disable_block_gas_limit: bool,
    pub disable_eip3607: bool,
    pub disable_base_fee: bool,
    pub tx_gas_limit_cap: Option<u64>,
    pub disable_fee_charge: bool,
    pub memory_limit: u64,
}

/// What is adjusted in a request before it is executed.
#[derive(Clone, Copy, Debug)]
pub struct CallRequest {
    pub gas: Option<u64>,
    pub nonce: Option<u64>,
}

/// The gas that a request is executed with, where the node's limit is `cap`.
pub open spec fn capped_gas(gas: Option<u64>, cap: u64) -> Option<u64> {
    match gas {
        Some(gas) if cap != 0 && cap < gas => Some(cap),
        Some(gas) => Some(gas),
        None => Some(cap),
    }
}

/// A limit is kept to: no request is executed with more gas, and one that asks for
/// less, or for exactly that, gets what it asks for.
pub proof fn gas_cap_holds(gas: Option<u64>, cap: u64)
    requires
        cap != 0,
    ensures
        capped_gas(gas, cap) matches Some(granted) && granted <= cap,
        gas matches Some(asked) ==> (asked <= cap ==> capped_gas(gas, cap) == Some(asked)),
{
}

/// The code of the error for a request that does not match the active epoch.
pub const EPOCH_MISMATCH_CODE: i32 = -39001;

/// The message of the error for a request that does not match the active epoch.
pub const EPOCH_MISMATCH_MESSAGE: &'static str = "epoch mismatch: stale block_id";

/// The error for a request that does not match the active epoch.
#[derive(Debug)]
pub struct EpochMismatch {
    pub code: i32,
    pub message: &'static str,
    /// The block of the active epoch, how far the request lies behind it, and the
    /// block that it asked for, in the order of their names.
    pub data: Vec<(&'static str, Option<u64>)>,
}

/// The number that a request asks for, if it names one.
pub open spec fn requested_number(requested: Option<BlockId>) -> Option<u64> {
    match requested {
        Some(BlockId::Number(BlockNumberOrTag::Number(n))) => Some(n),
        _ => None,
    }
}

/// Whether `error` is the answer to a request for `requested` at `current_epoch`.
pub open spec fn is_mismatch(
    error: EpochMismatch,
    requested: Option<BlockId>,
    current_epoch: u64,
    gap: Option<u64>,
) -> bool {
    &&& error.code == EPOCH_MISMATCH_CODE
    &&& error.message == EPOCH_MISMATCH_MESSAGE
    &&& error.data@ =~= seq![
        ("currentEpoch", Some(current_epoch)),
        ("gap", gap),
        ("requestedBlock", requested_number(requested)),
    ]
}

/// The error for a request that does not match the active epoch.
pub fn epoch_mismatch_error(
    requested: Option<BlockId>,
    current_epoch: u64,
    gap: Option<u64>,
) -> (error: EpochMismatch)
    ensures
        is_mismatch(error, requested, current_epoch, gap),
{
    let requested_block = match requested {
        Some(BlockId::Number(BlockNumberOrTag::Number(n))) => Some(n),
        _ => None,
    };
    let mut data: Vec<(&'static str, Option<u64>)> = Vec::new();
    data.push(("currentEpoch", Some(current_epoch)));
    data.push(("gap", gap));
    data.push(("requestedBlock", requested_block));
    EpochMismatch { code: EPOCH_MISMATCH_CODE, message: EPOCH_MISMATCH_MESSAGE, data }
}

/// Where a request goes.
#[derive(Clone, Copy, Debug, PartialEq, Eq, Structural)]
pub enum Route {
    /// To a worker, at the active epoch.
    Worker,
    /// To a worker, at the active epoch, though it asked for the block before.
    Drain,
    /// To the native method.
    Native,
    /// Back, with an error.
    Reject,
}

/// Where a request goes. One that matches the active epoch goes to a worker. Any
/// other goes to the native method, unless stale calls are rejected; then a trace
/// that lies one block behind goes to a worker nevertheless, and everything else
/// goes back.
pub open spec fn route_of(
    method: Method,
    reject_stale_call: bool,
    matches: bool,
    gap: Option<u64>,
) -> Route {
    if matches {
        Route::Worker
    } else if !reject_stale_call {
        Route::Native
    } else if method != Method::EthCall && gap == Some(1u64) {
        Route::Drain
    } else {
        Route::Reject
    }
}

/// Where stale calls are rejected, none of the three methods falls back to its
/// native one.
pub proof fn rejecting_never_degrades(method: Method, matches: bool, gap: Option<u64>)
    ensures
        route_of(method, true, matches, gap) != Route::Native,
{
}

/// Where stale calls are rejected, what becomes of a request for a number follows
/// from how far it lies behind: at no distance it goes to a worker; at one block a
/// trace goes to a worker, and a plain call goes back; further behind, everything
/// goes back.
pub proof fn routes_by_gap(method: Method, active: EpochContext, n: u64)
    requires
        n <= active.block_number,
    ensures
        ({
            let request = Some(BlockId::Number(BlockNumberOrTag::Number(n)));
            let behind = active.block_number - n;
            route_of(
                method,
                true,
                request_matches(false, active, request),
                gap_behind(active, request),
            ) == if behind == 0 {
                Route::Worker
            } else if behind == 1 && method != Method::EthCall {
                Route::Drain
            } else {
                Route::Reject
            }
        }),
{
}

/// Where stale calls are not rejected, no request goes back for its block.
pub proof fn degrading_never_rejects(method: Method, matches: bool, gap: Option<u64>)
    ensures
        route_of(method, false, matches, gap) == Route::Worker || route_of(
            method,
            false,
            matches,
            gap,
        ) == Route::Native,
{
}

/// What is reported of a request that takes `route`.
pub open spec fn route_emissions(method: Method, route: Route, gap: Option<u64>) -> Seq<Emission> {
    let label = method.label_text();
    let mismatch = counted_under(EPOCH_MISMATCH_TOTAL, label, "reason", mismatch_reason(gap));
    match route {
        Route::Worker => seq![counted(REQUESTS_TOTAL, label), counted(WORKER_PATH_TOTAL, label)],
        Route::Drain => seq![
            counted(REQUESTS_TOTAL, label),
            mismatch,
            counted(WORKER_PATH_TOTAL, label),
        ],
        Route::Native => seq![
            counted(REQUESTS_TOTAL, label),
            counted(DEGRADED_PATH_TOTAL, label),
            counted_under(DEGRADED_GAP_TOTAL, label, "reason", mismatch_reason(gap)),
        ],
        Route::Reject => seq![counted(REQUESTS_TOTAL, label), mismatch],
    }
}

/// The counters of a method once a request has taken `route`.
pub open spec fn route_counters(c: MethodCounters, route: Route) -> MethodCounters {
    let c = MethodCounters { total: c.total.wrapping_add(1), ..c };
    match route {
        Route::Worker | Route::Drain => MethodCounters { worker: c.worker.wrapping_add(1), ..c },
        Route::Native => MethodCounters { degraded: c.degraded.wrapping_add(1), ..c },
        Route::Reject => c,
    }
}

/// A request that is ready to be executed, but for its transaction.
#[derive(Clone, Copy, Debug)]
pub struct PreparedCall {
    pub epoch: EpochContext,
    pub cfg_env: CfgEnv,
    pub request: CallRequest,
    pub kind: CallKind,
    pub method: Method,
}

impl PreparedCall {
    /// The task that a worker gets. The rest of the call is found under `ticket`.
    pub open spec fn as_task(self, ticket: u64) -> WorkerTask {
        WorkerTask { epoch: self.epoch, kind: self.kind, method: self.method, ticket }
    }

    /// The task that a worker gets.
    pub fn task(&self, ticket: u64) -> (task: WorkerTask)
        ensures
            task == self.as_task(ticket),
    {
        WorkerTask { epoch: self.epoch, kind: self.kind, method: self.method, ticket }
    }
}

/// What becomes of a request.
#[derive(Debug)]
pub enum Decision {
    /// A worker executes it.
    Execute(PreparedCall),
    /// The native method answers it.
    Native,
    /// It is answered with an error.
    Reject(EpochMismatch),
}

/// What becomes of a request, and what is to be reported of it.
#[derive(Debug)]
pub struct Admission {
    pub decision: Decision,
    pub emissions: Vec<Emission>,
}

/// What came of waiting for a worker's reply.
#[derive(Debug)]
pub enum WorkerReply<G, P> {
    Done(WorkerOutput<G, P>),
    Failed(WorkerError),
    /// The worker is gone, and no reply will come.
    Dropped,
}

/// The errors that a request is answered with.
#[derive(Debug)]
pub enum CallError {
    /// The call was reverted, with these bytes.
    Reverted(Vec<u8>),
    /// Something went wrong here.
    Internal(String),
}

/// An answer, and what is to be reported of it.
#[derive(Debug)]
pub struct Answer<T> {
    pub result: Result<T, CallError>,
    pub emissions: Vec<Emission>,
}

/// What a reply is counted as among the errors, if it is. A call that was reverted is
/// one of them.
pub open spec fn error_kind<G, P>(reply: WorkerReply<G, P>) -> Option<&'static str> {
    match reply {
        WorkerReply::Done(_) => None,
        WorkerReply::Failed(_) => Some("worker_error"),
        WorkerReply::Dropped => Some("worker_dropped"),
    }
}

/// The counters of a method once a reply has been counted as `kind`.
pub open spec fn error_counters(c: MethodCounters, kind: Option<&'static str>) -> MethodCounters {
    match kind {
        Some(_) => MethodCounters { errors: c.errors.wrapping_add(1), ..c },
        None => c,
    }
}

/// What is reported of a reply that is counted as `kind`.
pub open spec fn error_emissions(method: Method, kind: Option<&'static str>) -> Seq<Emission> {
    match kind {
        Some(kind) => seq![counted_under(ERRORS_TOTAL, method.label_text(), "kind", kind)],
        None => Seq::empty(),
    }
}

/// Whether `error` is an internal one with the message `text`.
pub open spec fn is_internal(error: CallError, text: Seq<char>) -> bool {
    error matches CallError::Internal(message) && message@ == text
}

/// Whether `result` is the answer to a reply that is not the expected output.
pub open spec fn answers_failure<T, G, P>(
    result: Result<T, CallError>,
    reply: WorkerReply<G, P>,
    reverts_apart: bool,
) -> bool {
    match (reply, result) {
        (WorkerReply::Done(_), Err(error)) => is_internal(error, "unexpected worker output"@),
        (WorkerReply::Failed(WorkerError::Revert(data)), Err(error)) if reverts_apart => error
            == CallError::Reverted(data),
        (WorkerReply::Failed(failure), Err(error)) => is_internal(error, failure.text()),
        (WorkerReply::Dropped, Err(error)) => is_internal(error, "worker dropped"@),
        (_, Ok(_)) => false,
    }
}

/// What `mev_debug_traceCall` is asked for with `opts`.
pub open spec fn debug_kind<O>(opts: Option<MevDebugTracingCallOptions<O>>) -> CallKind {
    CallKind::DebugTrace { with_access_list: opts matches Some(opts) && opts.with_access_list }
}

/// A list of what was touched is made exactly where the options ask for it.
pub proof fn lists_are_made_on_request<O>(opts: MevDebugTracingCallOptions<O>)
    ensures
        debug_kind(Some(opts)) == (CallKind::DebugTrace {
            with_access_list: opts.with_access_list,
        }),
        debug_kind(None::<MevDebugTracingCallOptions<O>>) == (CallKind::DebugTrace {
            with_access_list: false,
        }),
{
}

/// Whether `result` is the answer of `mev_eth_call` to `reply`.
pub open spec fn answers_eth_call<G, P>(
    result: Result<Vec<u8>, CallError>,
    reply: WorkerReply<G, P>,
) -> bool {
    match reply {
        WorkerReply::Done(WorkerOutput::Basic(bytes)) => result == Ok::<Vec<u8>, CallError>(bytes),
        _ => answers_failure(result, reply, true),
    }
}

/// Whether `result` is the answer of `mev_debug_traceCall` to `reply`.
pub open spec fn answers_debug_trace_call<G, P>(
    result: Result<(G, Option<AccessList>), CallError>,
    reply: WorkerReply<G, P>,
) -> bool {
    match reply {
        WorkerReply::Done(WorkerOutput::DebugTrace(trace, list)) => result == Ok::<
            (G, Option<AccessList>),
            CallError,
        >((trace, list)),
        _ => answers_failure(result, reply, false),
    }
}

/// Whether `result` is the answer of `mev_trace_call` to `reply`.
pub open spec fn answers_trace_call<G, P>(
    result: Result<P, CallError>,
    reply: WorkerReply<G, P>,
) -> bool {
    match reply {
        WorkerReply::Done(WorkerOutput::ParityTrace(trace)) => result == Ok::<P, CallError>(trace),
        _ => answers_failure(result, reply, false),
    }
}

/// The three methods.
#[derive(Debug)]
pub struct MevApiServer {
    pub call_config: MevCallConfig,
    pub counters: MevCounters,
    /// Whether a request that does not match the active epoch is answered with an
    /// error. Otherwise the native method answers it.
    pub reject_stale_call: bool,
}

impl MevApiServer {
    /// The counters of `method`.
    pub open spec fn counters_of(self, method: Method) -> MethodCounters {
        match method {
            Method::EthCall => self.counters.eth_call,
            Method::DebugTraceCall => self.counters.debug_trace_call,
            Method::TraceCall => self.counters.trace_call,
        }
    }

    /// The server with other counters for `method`.
    pub open spec fn with_counters(self, method: Method, c: MethodCounters) -> Self {
        MevApiServer {
            counters: match method {
                Method::EthCall => MevCounters { eth_call: c, ..self.counters },
                Method::DebugTraceCall => MevCounters { debug_trace_call: c, ..self.counters },
                Method::TraceCall => MevCounters { trace_call: c, ..self.counters },
            },
            ..self
        }
    }

    fn take_counters(&self, method: Method) -> (c: MethodCounters)
        ensures
            c == self.counters_of(method),
    {
        match method {
            Method::EthCall => self.counters.eth_call,
            Method::DebugTraceCall => self.counters.debug_trace_call,
            Method::TraceCall => self.counters.trace_call,
        }
    }

    fn put_counters(&mut self, method: Method, c: MethodCounters)
        ensures
            *final(self) == old(self).with_counters(method, c),
    {
        match method {
            Method::EthCall => {
                self.counters.eth_call = c;
            },
            Method::DebugTraceCall => {
                self.counters.debug_trace_call = c;
            },
            Method::TraceCall => {
                self.counters.trace_call = c;
            },
        }
    }

    /// The switches that a call is executed with: those that would hold a simulated
    /// call back are off, and memory is limited as the node says.
    pub open spec fn prepared_cfg(self) -> CfgEnv {
        CfgEnv {
            disable_block_gas_limit: true,
            disable_eip3607: true,
            disable_base_fee: true,
            tx_gas_limit_cap: Some(u64::MAX),
            disable_fee_charge: true,
            memory_limit: self.call_config.evm_memory_limit,
        }
    }

    /// A request as it is executed: with limited gas, and with the nonce left to
    /// the state.
    pub open spec fn prepared_request(self, request: CallRequest) -> CallRequest {
        CallRequest { gas: capped_gas(request.gas, self.call_config.call_gas_cap), nonce: None }
    }

    /// Prepares the machine and the request for a simulated call.
    pub fn prepare_evm_env(&self, request: CallRequest) -> (prepared: (CfgEnv, CallRequest))
        ensures
            prepared.0 == self.prepared_cfg(),
            prepared.1 == self.prepared_request(request),
    {
        let cfg_env = CfgEnv {
            disable_block_gas_limit: true,
            disable_eip3607: true,
            disable_base_fee: true,
            tx_gas_limit_cap: Some(u64::MAX),
            disable_fee_charge: true,
            memory_limit: self.call_config.evm_memory_limit,
        };
        let mut request = request;
        let cap: u64 = self.call_config.call_gas_cap;
        match request.gas {
            Some(gas) if cap != 0 && cap < gas => {
                request.gas = Some(cap);
            },
            None => {
                request.gas = Some(cap);
            },
            _ => {},
        }
        request.nonce = None;
        (cfg_env, request)
    }

    /// The way that a request for `block_id` takes at the active epoch.
    pub open spec fn route(self, method: Method, epochs: EpochManager, block_id: Option<BlockId>) -> Route {
        route_of(
            method,
            self.reject_stale_call,
            request_matches(epochs.debug_fixed_block is Some, epochs.active, block_id),
            gap_behind(epochs.active, block_id),
        )
    }

    /// Whether `admission` is what becomes of a request.
    pub open spec fn admits(
        self,
        method: Method,
        kind: CallKind,
        epochs: EpochManager,
        block_id: Option<BlockId>,
        request: CallRequest,
        admission: Admission,
    ) -> bool {
        let route = self.route(method, epochs, block_id);
        let gap = gap_behind(epochs.active, block_id);
        &&& admission.emissions@ =~= route_emissions(method, route, gap)
        &&& match admission.decision {
            Decision::Execute(call) => {
                &&& route == Route::Worker || route == Route::Drain
                &&& call == (PreparedCall {
                    epoch: epochs.active,
                    cfg_env: self.prepared_cfg(),
                    request: self.prepared_request(request),
                    kind,
                    method,
                })
            },
            Decision::Native => route == Route::Native,
            Decision::Reject(error) => {
                &&& route == Route::Reject
                &&& is_mismatch(error, block_id, epochs.active.block_number, gap)
            },
        }
    }

    fn take_in(
        &mut self,
        method: Method,
        kind: CallKind,
        epochs: &EpochManager,
        block_id: Option<BlockId>,
        request: CallRequest,
    ) -> (admission: Admission)
        ensures
            old(self).admits(method, kind, *epochs, block_id, request, admission),
            *final(self) == old(self).with_counters(
                method,
                route_counters(
                    old(self).counters_of(method),
                    old(self).route(method, *epochs, block_id),
                ),
            ),
    {
        let label = method.label();
        let mut c = self.take_counters(method);
        let mut emissions: Vec<Emission> = Vec::new();
        emissions.push(metrics::record_request(label, &mut c));
        if !epochs.matches_active(block_id) {
            let gap = epochs.block_gap(block_id);
            if !self.reject_stale_call {
                emissions.push(metrics::record_degraded_path(label, &mut c));
                emissions.push(metrics::record_degraded_gap(label, gap));
                self.put_counters(method, c);
                return Admission { decision: Decision::Native, emissions };
            }
            emissions.push(metrics::record_epoch_mismatch(label, gap));
            let drains = match gap {
                Some(gap) => gap == 1 && method != Method::EthCall,
                None => false,
            };
            if !drains {
                self.put_counters(method, c);
                let error = epoch_mismatch_error(block_id, epochs.active_block_number(), gap);
                return Admission { decision: Decision::Reject(error), emissions };
            }
        }
        emissions.push(metrics::record_worker_path(label, &mut c));
        let (cfg_env, request) = self.prepare_evm_env(request);
        self.put_counters(method, c);
        Admission {
            decision: Decision::Execute(
                PreparedCall { epoch: epochs.current(), cfg_env, request, kind, method },
            ),
            emissions,
        }
    }

    /// `mev_eth_call`: what becomes of a request.
    pub fn mev_eth_call(
        &mut self,
        epochs: &EpochManager,
        block_id: Option<BlockId>,
        request: CallRequest,
    ) -> (admission: Admission)
        ensures
            old(self).admits(
                Method::EthCall,
                CallKind::Basic,
                *epochs,
                block_id,
                request,
                admission,
            ),
            *final(self) == old(self).with_counters(
                Method::EthCall,
                route_counters(
                    old(self).counters.eth_call,
                    old(self).route(Method::EthCall, *epochs, block_id),
                ),
            ),
    {
        self.take_in(Method::EthCall, CallKind::Basic, epochs, block_id, request)
    }

    /// `mev_debug_traceCall`: what becomes of a request. Without options no list of
    /// what was touched is wanted.
    pub fn mev_debug_trace_call<O>(
        &mut self,
        epochs: &EpochManager,
        block_id: Option<BlockId>,
        opts: &Option<MevDebugTracingCallOptions<O>>,
        request: CallRequest,
    ) -> (admission: Admission)
        ensures
            old(self).admits(
                Method::DebugTraceCall,
                debug_kind(*opts),
                *epochs,
                block_id,
                request,
                admission,
            ),
            *final(self) == old(self).with_counters(
                Method::DebugTraceCall,
                route_counters(
                    old(self).counters.debug_trace_call,
                    old(self).route(Method::DebugTraceCall, *epochs, block_id),
                ),
            ),
    {
        let with_access_list = match opts {
            Some(opts) => opts.with_access_list,
            None => false,
        };
        self.take_in(
            Method::DebugTraceCall,
            CallKind::DebugTrace { with_access_list },
            epochs,
            block_id,
            request,
        )
    }

    /// `mev_trace_call`: what becomes of a request. A kind of trace that is asked
    /// for twice is asked for once.
    pub fn mev_trace_call(
        &mut self,
        epochs: &EpochManager,
        block_id: Option<BlockId>,
        trace_types: &Vec<TraceType>,
        request: CallRequest,
    ) -> (admission: Admission)
        ensures
            exists|kinds: TraceTypes|
                {
                    &&& forall|kind: TraceType| #[trigger]
                        kinds.has(kind) == trace_types@.contains(kind)
                    &&& #[trigger] old(self).admits(
                        Method::TraceCall,
                        CallKind::ParityTrace { trace_types: kinds },
                        *epochs,
                        block_id,
                        request,
                        admission,
                    )
                },
            *final(self) == old(self).with_counters(
                Method::TraceCall,
                route_counters(
                    old(self).counters.trace_call,
                    old(self).route(Method::TraceCall, *epochs, block_id),
                ),
            ),
    {
        let kinds = TraceTypes::collect(trace_types);
        self.take_in(
            Method::TraceCall,
            CallKind::ParityTrace { trace_types: kinds },
            epochs,
            block_id,
            request,
        )
    }

    /// The answer to a request that the pool did not take.
    pub fn pool_error(error: PoolError) -> (answer: CallError)
        ensures
            is_internal(answer, "worker pool queue full"@),
    {
        CallError::Internal(error.message())
    }

    /// Gives a prepared call to the pool. The rest of it is found under `ticket`.
    pub fn submit(
        &self,
        pool: &mut MevWorkerPool,
        call: PreparedCall,
        ticket: u64,
    ) -> (answer: Answer<()>)
        ensures
            final(pool).after(*old(pool), call.as_task(ticket), answer.result is Ok),
            answer.result matches Err(error) ==> is_internal(error, "worker pool queue full"@),
            exists|depth: usize|
                {
                    &&& old(pool).capacity() matches Some(capacity) ==> depth <= capacity
                    &&& answer.emissions@ == #[trigger] dispatch_emissions(
                        depth,
                        answer.result is Ok,
                    )
                },
    {
        let dispatch = pool.dispatch(call.task(ticket));
        let result = match dispatch.result {
            Ok(()) => Ok(()),
            Err(error) => Err(Self::pool_error(error)),
        };
        Answer { result, emissions: dispatch.emissions }
    }

    fn fail<T, G, P>(
        &mut self,
        method: Method,
        reply: WorkerReply<G, P>,
        reverts_apart: bool,
    ) -> (answer: Answer<T>)
        ensures
            answers_failure(answer.result, reply, reverts_apart),
            answer.emissions@ == error_emissions(method, error_kind(reply)),
            *final(self) == old(self).with_counters(
                method,
                error_counters(old(self).counters_of(method), error_kind(reply)),
            ),
    {
        let label = method.label();
        let mut c = self.take_counters(method);
        let mut emissions: Vec<Emission> = Vec::new();
        let error = match reply {
            WorkerReply::Done(_) => CallError::Internal("unexpected worker output".to_owned()),
            WorkerReply::Failed(failure) => {
                emissions.push(metrics::record_error(label, "worker_error", &mut c));
                match failure {
                    WorkerError::Revert(data) if reverts_apart => CallError::Reverted(data),
                    failure => CallError::Internal(failure.message()),
                }
            },
            WorkerReply::Dropped => {
                emissions.push(metrics::record_error(label, "worker_dropped", &mut c));
                CallError::Internal("worker dropped".to_owned())
            },
        };
        self.put_counters(method, c);
        Answer { result: Err(error), emissions }
    }

    /// The answer of `mev_eth_call` to a worker's reply. A call that was reverted is
    /// answered with what it was reverted with, and counts as an error.
    pub fn finish_eth_call<G, P>(&mut self, reply: WorkerReply<G, P>) -> (answer: Answer<Vec<u8>>)
        ensures
            answers_eth_call(answer.result, reply),
            answer.emissions@ == error_emissions(Method::EthCall, error_kind(reply)),
            *final(self) == old(self).with_counters(
                Method::EthCall,
                error_counters(old(self).counters.eth_call, error_kind(reply)),
            ),
    {
        match reply {
            WorkerReply::Done(WorkerOutput::Basic(bytes)) => Answer {
                result: Ok(bytes),
                emissions: Vec::new(),
            },
            reply => self.fail(Method::EthCall, reply, true),
        }
    }

    /// The answer of `mev_debug_traceCall` to a worker's reply: the trace, and what
    /// the call touched if the worker lists it.
    pub fn finish_debug_trace_call<G, P>(&mut self, reply: WorkerReply<G, P>) -> (answer: Answer<
        (G, Option<AccessList>),
    >)
        ensures
            answers_debug_trace_call(answer.result, reply),
            answer.emissions@ == error_emissions(Method::DebugTraceCall, error_kind(reply)),
            *final(self) == old(self).with_counters(
                Method::DebugTraceCall,
                error_counters(old(self).counters.debug_trace_call, error_kind(reply)),
            ),
    {
        match reply {
            WorkerReply::Done(WorkerOutput::DebugTrace(trace, list)) => Answer {
                result: Ok((trace, list)),
                emissions: Vec::new(),
            },
            reply => self.fail(Method::DebugTraceCall, reply, false),
        }
    }

    /// The answer of `mev_trace_call` to a worker's reply.
    pub fn finish_trace_call<G, P>(&mut self, reply: WorkerReply<G, P>) -> (answer: Answer<P>)
        ensures
            answers_trace_call(answer.result, reply),
            answer.emissions@ == error_emissions(Method::TraceCall, error_kind(reply)),
            *final(self) == old(self).with_counters(
                Method::TraceCall,
                error_counters(old(self).counters.trace_call, error_kind(reply)),
            ),
    {
        match reply {
            WorkerReply::Done(WorkerOutput::ParityTrace(trace)) => Answer {
                result: Ok(trace),
                emissions: Vec::new(),
            },
            reply => self.fail(Method::TraceCall, reply, false),
        }
    }
}

/// The nonce of a request makes no difference to what becomes of it: requests that
/// differ in nothing else are prepared alike, and admitted alike.
pub proof fn request_nonce_makes_no_difference(
    server: MevApiServer,
    method: Method,
    kind: CallKind,
    epochs: EpochManager,
    block_id: Option<BlockId>,
    a: CallRequest,
    b: CallRequest,
    admission: Admission,
)
    requires
        a.gas == b.gas,
    ensures
        server.prepared_request(a) == server.prepared_request(b),
        server.prepared_request(a).nonce is None,
        server.admits(method, kind, epochs, block_id, a, admission) == server.admits(
            method,
            kind,
            epochs,
            block_id,
            b,
            admission,
        ),
{
}

/// The name under which what a call touched goes along with its trace.
pub const ACCESS_LIST_FIELD: &'static str = "accessList";

/// The list that goes along with a trace.
pub open spec fn attachment(list: Option<AccessList>, trace_is_object: bool) -> Option<AccessList> {
    if trace_is_object {
        list
    } else {
        None
    }
}

/// A list that was made goes along, as it is, with every trace that has named fields, and
/// with no other.
pub proof fn lists_go_with_objects(list: AccessList)
    ensures
        attachment(Some(list), true) == Some(list),
        attachment(Some(list), false) is None,
        attachment(None, true) is None,
        attachment(None, false) is None,
{
}

/// The list that goes along with a trace: only one that was made, and only with a
/// trace that has named fields.
pub fn attached_list(list: Option<AccessList>, trace_is_object: bool) -> (attached: Option<
    AccessList,
>)
    ensures
        attached == attachment(list, trace_is_object),
{
    if trace_is_object {
        list
    } else {
        None
    }
}

/// A request that names no gas is granted the whole of the node's limit, and so is one that
/// asks for more than a limit that is not zero. Any other is granted what it asks for. No
/// request keeps its nonce.
pub proof fn gas_is_what_was_asked_or_the_limit(server: MevApiServer, request: CallRequest)
    ensures
        ({
            let limit = server.call_config.call_gas_cap;
            let prepared = server.prepared_request(request);
            &&& request.gas is None ==> prepared.gas == Some(limit)
            &&& request.gas matches Some(asked) ==> {
                &&& limit != 0 && asked > limit ==> prepared.gas == Some(limit)
                &&& limit == 0 || asked <= limit ==> prepared.gas == Some(asked)
            }
            &&& prepared.nonce is None
        }),
{
}

/// Nothing holds a simulated call back but the node's limit on memory: every check that can
/// be switched off is, and no limit is put on the gas of a transaction.
pub proof fn only_memory_holds_a_call_back(server: MevApiServer)
    ensures
        server.prepared_cfg().disable_block_gas_limit,
        server.prepared_cfg().disable_eip3607,
        server.prepared_cfg().disable_base_fee,
        server.prepared_cfg().disable_fee_charge,
        server.prepared_cfg().tx_gas_limit_cap == Some(0xffff_ffff_ffff_ffffu64),
        server.prepared_cfg().memory_limit == server.call_config.evm_memory_limit,
{
}

/// A request that a worker executes is executed at the active epoch, as the kind of call
/// that it is, and with what was prepared for it.
pub proof fn workers_execute_at_the_active_epoch(
    server: MevApiServer,
    method: Method,
    kind: CallKind,
    epochs: EpochManager,
    block_id: Option<BlockId>,
    request: CallRequest,
    admission: Admission,
    ticket: u64,
)
    requires
        server.admits(method, kind, epochs, block_id, request, admission),
    ensures
        admission.decision matches Decision::Execute(call) ==> {
            &&& call.epoch == epochs.active
            &&& call.kind == kind
            &&& call.method == method
            &&& call.cfg_env == server.prepared_cfg()
            &&& call.request == server.prepared_request(request)
            &&& call.as_task(ticket).epoch == epochs.active
            &&& call.as_task(ticket).kind == kind
            &&& call.as_task(ticket).method == method
            &&& call.as_task(ticket).ticket == ticket
        },
{
}

/// A request that asks for the active block is executed by a worker, whether it names the
/// block by its number, by its hash, by one of the tags `latest` and `pending`, or not at
/// all. Where the epoch is fixed, every request is.
pub proof fn requests_for_the_active_block_are_executed(
    server: MevApiServer,
    method: Method,
    kind: CallKind,
    epochs: EpochManager,
    block_id: Option<BlockId>,
    request: CallRequest,
    admission: Admission,
)
    requires
        server.admits(method, kind, epochs, block_id, request, admission),
    ensures
        epochs.debug_fixed_block is Some ==> admission.decision is Execute,
        block_id is None ==> admission.decision is Execute,
        block_id == Some(BlockId::Number(BlockNumberOrTag::Latest)) ==> admission.decision
            is Execute,
        block_id == Some(BlockId::Number(BlockNumberOrTag::Pending)) ==> admission.decision
            is Execute,
        block_id == Some(
            BlockId::Number(BlockNumberOrTag::Number(epochs.active.block_number)),
        ) ==> admission.decision is Execute,
        block_id == Some(BlockId::Hash(epochs.active.block_hash)) ==> admission.decision
            is Execute,
{
}

/// Where stale calls are not rejected, a request for another block than the active one goes
/// to the native method, by whichever of the three methods it comes, and whether it names the
/// block by a number, ahead or behind, by a hash or by a tag.
pub proof fn requests_for_other_blocks_are_answered_natively(
    server: MevApiServer,
    method: Method,
    kind: CallKind,
    epochs: EpochManager,
    block_id: BlockId,
    request: CallRequest,
    admission: Admission,
)
    requires
        server.admits(method, kind, epochs, Some(block_id), request, admission),
        !server.reject_stale_call,
        epochs.debug_fixed_block is None,
    ensures
        block_id matches BlockId::Number(BlockNumberOrTag::Number(n)) ==> (n
            != epochs.active.block_number ==> admission.decision is Native),
        block_id matches BlockId::Hash(hash) ==> (hash != epochs.active.block_hash
            ==> admission.decision is Native),
        block_id == BlockId::Number(BlockNumberOrTag::Finalized) ==> admission.decision is Native,
        block_id == BlockId::Number(BlockNumberOrTag::Safe) ==> admission.decision is Native,
        block_id == BlockId::Number(BlockNumberOrTag::Earliest) ==> admission.decision is Native,
{
}

/// Where stale calls are rejected, a request for another block than the active one goes back,
/// unless it is a trace for the block just before, which a worker executes.
pub proof fn requests_for_other_blocks_are_rejected(
    server: MevApiServer,
    method: Method,
    kind: CallKind,
    epochs: EpochManager,
    block_id: BlockId,
    request: CallRequest,
    admission: Admission,
)
    requires
        server.admits(method, kind, epochs, Some(block_id), request, admission),
        server.reject_stale_call,
        epochs.debug_fixed_block is None,
    ensures
        block_id matches BlockId::Number(BlockNumberOrTag::Number(n)) ==> (n
            != epochs.active.block_number ==> if n + 1 == epochs.active.block_number && method
            != Method::EthCall {
            admission.decision is Execute
        } else {
            admission.decision is Reject
        }),
        block_id matches BlockId::Hash(hash) ==> (hash != epochs.active.block_hash
            ==> admission.decision is Reject),
        block_id == BlockId::Number(BlockNumberOrTag::Finalized) ==> admission.decision is Reject,
        block_id == BlockId::Number(BlockNumberOrTag::Safe) ==> admission.decision is Reject,
        block_id == BlockId::Number(BlockNumberOrTag::Earliest) ==> admission.decision is Reject,
{
}

/// A request that goes back is told why: the active block, the block that it asked for, and
/// how far that lies behind. Where it asked for no number, there is no distance; where it
/// asked for a block ahead, the distance is zero.
pub proof fn rejections_say_why(
    server: MevApiServer,
    method: Method,
    kind: CallKind,
    epochs: EpochManager,
    block_id: BlockId,
    request: CallRequest,
    admission: Admission,
)
    requires
        server.admits(method, kind, epochs, Some(block_id), request, admission),
        admission.decision is Reject,
    ensures
        ({
            let error = admission.decision->Reject_0;
            &&& error.code == -39001
            &&& error.message == "epoch mismatch: stale block_id"
            &&& error.data@.len() == 3
            &&& error.data@[0] == ("currentEpoch", Some(epochs.active.block_number))
            &&& error.data@[1].0 == "gap"
            &&& error.data@[2].0 == "requestedBlock"
            &&& match block_id {
                BlockId::Number(BlockNumberOrTag::Number(n)) => {
                    &&& error.data@[2].1 == Some(n)
                    &&& error.data@[1].1 matches Some(gap) && if n <= epochs.active.block_number {
                        gap + n == epochs.active.block_number
                    } else {
                        gap == 0
                    }
                },
                _ => error.data@[1].1 is None && error.data@[2].1 is None,
            }
        }),
{
}

/// A request is counted once, under its own method: among all requests, and then among those
/// that a worker executes or among those that the native method answers, or as neither if it
/// goes back. `after` is the server once the request has come in.
pub proof fn requests_are_counted_where_they_go(
    server: MevApiServer,
    method: Method,
    kind: CallKind,
    epochs: EpochManager,
    block_id: Option<BlockId>,
    request: CallRequest,
    admission: Admission,
    after: MevApiServer,
)
    requires
        server.admits(method, kind, epochs, block_id, request, admission),
        after == server.with_counters(
            method,
            route_counters(server.counters_of(method), server.route(method, epochs, block_id)),
        ),
    ensures
        ({
            let (was, is) = match method {
                Method::EthCall => (server.counters.eth_call, after.counters.eth_call),
                Method::DebugTraceCall => (
                    server.counters.debug_trace_call,
                    after.counters.debug_trace_call,
                ),
                Method::TraceCall => (server.counters.trace_call, after.counters.trace_call),
            };
            &&& is.total == (was.total + 1) % 0x1_0000_0000_0000_0000
            &&& is.worker == if admission.decision is Execute {
                (was.worker + 1) % 0x1_0000_0000_0000_0000
            } else {
                was.worker as int
            }
            &&& is.degraded == if admission.decision is Native {
                (was.degraded + 1) % 0x1_0000_0000_0000_0000
            } else {
                was.degraded as int
            }
            &&& is.errors == was.errors
        }),
        method != Method::EthCall ==> after.counters.eth_call == server.counters.eth_call,
        method != Method::DebugTraceCall ==> after.counters.debug_trace_call
            == server.counters.debug_trace_call,
        method != Method::TraceCall ==> after.counters.trace_call == server.counters.trace_call,
        after.call_config == server.call_config,
        after.reject_stale_call == server.reject_stale_call,
{
}

/// What is reported of a request: that it came in, first of all; then, where it does not
/// match the active epoch, for which reason; and which way it takes.
pub proof fn requests_are_reported_where_they_go(
    server: MevApiServer,
    method: Method,
    kind: CallKind,
    epochs: EpochManager,
    block_id: Option<BlockId>,
    request: CallRequest,
    admission: Admission,
)
    requires
        server.admits(method, kind, epochs, block_id, request, admission),
    ensures
        ({
            let name = match method {
                Method::EthCall => "eth_call",
                Method::DebugTraceCall => "debug_traceCall",
                Method::TraceCall => "trace_call",
            };
            let one = |metric: &'static str|
                Emission {
                    metric,
                    labels: Labels::One("method", name),
                    update: Update::Increment(1),
                };
            let reason = match block_id {
                Some(BlockId::Number(BlockNumberOrTag::Number(n))) => if n + 1
                    == epochs.active.block_number {
                    "drain"
                } else {
                    "stale"
                },
                _ => "non_number",
            };
            let why = |metric: &'static str|
                Emission {
                    metric,
                    labels: Labels::Two("method", name, "reason", reason),
                    update: Update::Increment(1),
                };
            let reported = admission.emissions@;
            &&& reported.len() >= 2
            &&& reported[0] == one("mev_requests_total")
            &&& match admission.decision {
                Decision::Execute(_) => {
                    &&& reported.last() == one("mev_worker_path_total")
                    &&& reported.len() == 3 ==> reported[1] == why("mev_epoch_mismatch_total")
                    &&& reported.len() <= 3
                    &&& reported.len() == 3 <==> epochs.debug_fixed_block is None && (
                    block_id matches Some(BlockId::Number(BlockNumberOrTag::Number(n))) && n
                        != epochs.active.block_number)
                },
                Decision::Native => {
                    &&& reported.len() == 3
                    &&& reported[1] == one("mev_degraded_path_total")
                    &&& reported[2] == why("mev_degraded_gap_total")
                },
                Decision::Reject(_) => {
                    &&& reported.len() == 2
                    &&& reported[1] == why("mev_epoch_mismatch_total")
                },
            }
        }),
{
}

/// What a worker hands back is the answer, as it is. Only `mev_eth_call` tells a call that
/// was reverted apart, and then with the bytes that it was reverted with. A reply that was
/// never made, or is not what the method asked for, is an internal error.
pub proof fn answers_are_what_workers_hand_back<G, P>(
    reply: WorkerReply<G, P>,
    called: Result<Vec<u8>, CallError>,
    debugged: Result<(G, Option<AccessList>), CallError>,
    traced: Result<P, CallError>,
)
    requires
        answers_eth_call(called, reply),
        answers_debug_trace_call(debugged, reply),
        answers_trace_call(traced, reply),
    ensures
        match reply {
            WorkerReply::Done(WorkerOutput::Basic(bytes)) => {
                &&& called == Ok::<Vec<u8>, CallError>(bytes)
                &&& debugged matches Err(CallError::Internal(_))
                &&& traced matches Err(CallError::Internal(_))
            },
            WorkerReply::Done(WorkerOutput::DebugTrace(trace, list)) => {
                &&& called matches Err(CallError::Internal(_))
                &&& debugged == Ok::<(G, Option<AccessList>), CallError>((trace, list))
                &&& traced matches Err(CallError::Internal(_))
            },
            WorkerReply::Done(WorkerOutput::ParityTrace(trace)) => {
                &&& called matches Err(CallError::Internal(_))
                &&& debugged matches Err(CallError::Internal(_))
                &&& traced == Ok::<P, CallError>(trace)
            },
            WorkerReply::Failed(error) => {
                &&& match error {
                    WorkerError::Revert(data) => called == Err::<Vec<u8>, CallError>(
                        CallError::Reverted(data),
                    ),
                    _ => called matches Err(CallError::Internal(text)) && text@ == error.text(),
                }
                &&& debugged matches Err(CallError::Internal(text)) && text@ == error.text()
                &&& traced matches Err(CallError::Internal(text)) && text@ == error.text()
            },
            WorkerReply::Dropped => {
                &&& called matches Err(CallError::Internal(text)) && text@ == "worker dropped"@
                &&& debugged matches Err(CallError::Internal(text)) && text@ == "worker dropped"@
                &&& traced matches Err(CallError::Internal(text)) && text@ == "worker dropped"@
            },
        },
{
}

/// Every call that a worker failed to execute, and every one that was lost with its worker,
/// counts as one error of its method and is reported as one; nothing else does. `after` is
/// the server once the reply has been counted.
pub proof fn failures_are_counted_once<G, P>(
    server: MevApiServer,
    method: Method,
    reply: WorkerReply<G, P>,
    after: MevApiServer,
)
    requires
        after == server.with_counters(
            method,
            error_counters(server.counters_of(method), error_kind(reply)),
        ),
    ensures
        reply is Done ==> after == server && error_emissions(method, error_kind(reply)).len() == 0,
        !(reply is Done) ==> {
            let (was, is) = match method {
                Method::EthCall => (server.counters.eth_call, after.counters.eth_call),
                Method::DebugTraceCall => (
                    server.counters.debug_trace_call,
                    after.counters.debug_trace_call,
                ),
                Method::TraceCall => (server.counters.trace_call, after.counters.trace_call),
            };
            let reported = error_emissions(method, error_kind(reply));
            &&& is == (MethodCounters { errors: was.errors.wrapping_add(1), ..was })
            &&& reported.len() == 1
            &&& reported[0] == (Emission {
                metric: "mev_errors_total",
                labels: Labels::Two(
                    "method",
                    match method {
                        Method::EthCall => "eth_call",
                        Method::DebugTraceCall => "debug_traceCall",
                        Method::TraceCall => "trace_call",
                    },
                    "kind",
                    if reply is Dropped {
                        "worker_dropped"
                    } else {
                        "worker_error"
                    },
                ),
                update: Update::Increment(1),
            })
        },
        method != Method::EthCall ==> after.counters.eth_call == server.counters.eth_call,
        method != Method::DebugTraceCall ==> after.counters.debug_trace_call
            == server.counters.debug_trace_call,
        method != Method::TraceCall ==> after.counters.trace_call == server.counters.trace_call,
        after.call_config == server.call_config,
        after.reject_stale_call == server.reject_stale_call,
{
}

} // verus!
