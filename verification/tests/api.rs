use reth_mev::api::fee::next_base_fee;
use reth_mev::api::server::{
    attached_list, epoch_mismatch_error, Admission, CallError, CallRequest, Decision,
    MevApiServer, MevCallConfig, PreparedCall, WorkerReply, ACCESS_LIST_FIELD,
};
use reth_mev::api::types::{
    BlockId, BlockNumberOrTag, CallKind, Method, MevDebugTracingCallOptions, TraceType, TraceTypes,
};
use reth_mev::cache::GlobalSharedCache;
use reth_mev::chain::{CanonStateNotification, Chain, Tip};
use reth_mev::epoch::EpochManager;
use reth_mev::metrics::{Emission, Labels, MevCounters};
use reth_mev::primitives::B256;
use reth_mev::worker::{AccessList, MevWorkerPool, WorkerError, WorkerOutput};

fn server(reject_stale_call: bool, call_gas_cap: u64) -> MevApiServer {
    MevApiServer {
        call_config: MevCallConfig { call_gas_cap, evm_memory_limit: 4096 },
        counters: MevCounters::new(),
        reject_stale_call,
    }
}

fn epochs() -> EpochManager {
    let mut manager = EpochManager::new(None, None);
    let mut cache = GlobalSharedCache::new(1);
    let commit = CanonStateNotification::Commit {
        new: Chain {
            tip: Some(Tip { number: 100, hash: B256([100; 32]) }),
            accounts: vec![],
            receipts: vec![],
        },
    };
    manager.on_notification(&commit, true, &mut cache);
    manager
}

fn number(n: u64) -> Option<BlockId> {
    Some(BlockId::Number(BlockNumberOrTag::Number(n)))
}

fn request(gas: Option<u64>) -> CallRequest {
    CallRequest { gas, nonce: Some(7) }
}

fn names(emissions: &[Emission]) -> Vec<&'static str> {
    emissions.iter().map(|e| e.metric).collect()
}

fn ask(server: &mut MevApiServer, method: Method, block: Option<BlockId>) -> Admission {
    let epochs = epochs();
    match method {
        Method::EthCall => server.mev_eth_call(&epochs, block, request(None)),
        Method::DebugTraceCall => {
            let opts: Option<MevDebugTracingCallOptions<()>> = None;
            server.mev_debug_trace_call(&epochs, block, &opts, request(None))
        }
        Method::TraceCall => server.mev_trace_call(&epochs, block, &vec![], request(None)),
    }
}

const ALL: [Method; 3] = [Method::EthCall, Method::DebugTraceCall, Method::TraceCall];

type Reply = WorkerReply<u8, char>;

#[test]
fn matching_requests_go_to_a_worker() {
    for method in ALL {
        let mut server = server(true, 50);
        let admission = ask(&mut server, method, number(100));
        let Decision::Execute(call) = admission.decision else { panic!("not executed") };
        assert_eq!(call.method, method);
        assert_eq!(call.epoch.block_number, 100);
        assert_eq!(names(&admission.emissions), vec!["mev_requests_total", "mev_worker_path_total"]);
    }
    let mut server = server(true, 50);
    ask(&mut server, Method::EthCall, None);
    assert_eq!((server.counters.eth_call.total, server.counters.eth_call.worker), (1, 1));
    assert_eq!(server.counters.trace_call.total, 0);
}

#[test]
fn one_block_behind_drains_traces_and_rejects_calls() {
    for method in ALL {
        let mut server = server(true, 50);
        let admission = ask(&mut server, method, number(99));
        match method {
            Method::EthCall => {
                assert!(matches!(admission.decision, Decision::Reject(_)));
                assert_eq!(
                    names(&admission.emissions),
                    vec!["mev_requests_total", "mev_epoch_mismatch_total"]
                );
            }
            _ => {
                let Decision::Execute(call) = admission.decision else { panic!("not executed") };
                assert_eq!(call.epoch.block_number, 100);
                assert_eq!(
                    names(&admission.emissions),
                    vec!["mev_requests_total", "mev_epoch_mismatch_total", "mev_worker_path_total"]
                );
            }
        }
        assert!(matches!(admission.emissions[1].labels, Labels::Two(_, _, "reason", "drain")));
    }
}

#[test]
fn further_behind_is_rejected() {
    for method in ALL {
        for block in [number(98), number(101), Some(BlockId::Hash(B256([1; 32])))] {
            let mut server = server(true, 50);
            let admission = ask(&mut server, method, block);
            let Decision::Reject(error) = admission.decision else { panic!("not rejected") };
            assert_eq!(error.code, -39001);
        }
    }
    let mut server = server(true, 50);
    ask(&mut server, Method::EthCall, number(98));
    assert_eq!((server.counters.eth_call.total, server.counters.eth_call.worker), (1, 0));
    assert_eq!(server.counters.eth_call.degraded, 0);
}

#[test]
fn without_rejection_stale_requests_degrade() {
    for method in ALL {
        for block in [number(99), number(98)] {
            let mut server = server(false, 50);
            let admission = ask(&mut server, method, block);
            assert!(matches!(admission.decision, Decision::Native));
            assert_eq!(
                names(&admission.emissions),
                vec!["mev_requests_total", "mev_degraded_path_total", "mev_degraded_gap_total"]
            );
            let degraded = server.counters.eth_call.degraded
                + server.counters.debug_trace_call.degraded
                + server.counters.trace_call.degraded;
            assert_eq!(degraded, 1);
        }
        let mut server = server(false, 50);
        assert!(matches!(ask(&mut server, method, None).decision, Decision::Execute(_)));
    }
}

#[test]
fn mismatches_say_what_was_asked() {
    let error = epoch_mismatch_error(number(21_500_000), 21_500_001, Some(1));
    assert_eq!(error.code, -39001);
    assert_eq!(error.message, "epoch mismatch: stale block_id");
    assert_eq!(
        error.data,
        vec![
            ("currentEpoch", Some(21_500_001)),
            ("gap", Some(1)),
            ("requestedBlock", Some(21_500_000)),
        ]
    );
    let error = epoch_mismatch_error(Some(BlockId::Hash(B256([1; 32]))), 5, None);
    assert_eq!(
        error.data,
        vec![("currentEpoch", Some(5)), ("gap", None), ("requestedBlock", None)]
    );
}

#[test]
fn calls_are_prepared() {
    let limited = server(true, 50);
    let (cfg, prepared) = limited.prepare_evm_env(request(Some(60)));
    assert!(cfg.disable_block_gas_limit && cfg.disable_eip3607 && cfg.disable_base_fee);
    assert!(cfg.disable_fee_charge);
    assert_eq!(cfg.tx_gas_limit_cap, Some(u64::MAX));
    assert_eq!(cfg.memory_limit, 4096);
    assert_eq!((prepared.gas, prepared.nonce), (Some(50), None));
    assert_eq!(limited.prepare_evm_env(request(Some(50))).1.gas, Some(50));
    assert_eq!(limited.prepare_evm_env(request(Some(40))).1.gas, Some(40));
    assert_eq!(limited.prepare_evm_env(request(None)).1.gas, Some(50));
    let unlimited = server(true, 0);
    assert_eq!(unlimited.prepare_evm_env(request(Some(60))).1.gas, Some(60));
    assert_eq!(unlimited.prepare_evm_env(request(None)).1.gas, Some(0));
}

#[test]
fn kinds_carry_their_options() {
    let mut server = server(true, 50);
    let opts = Some(MevDebugTracingCallOptions { inner: (), with_access_list: true });
    let admission = server.mev_debug_trace_call(&epochs(), None, &opts, request(None));
    let Decision::Execute(PreparedCall { kind, .. }) = admission.decision else { panic!() };
    assert!(matches!(kind, CallKind::DebugTrace { with_access_list: true }));
    assert_eq!(kind.label(), "debug_trace");
    let wanted = vec![TraceType::Trace, TraceType::StateDiff, TraceType::Trace];
    let admission = server.mev_trace_call(&epochs(), None, &wanted, request(None));
    let Decision::Execute(PreparedCall { kind, .. }) = admission.decision else { panic!() };
    let CallKind::ParityTrace { trace_types } = kind else { panic!() };
    assert_eq!(trace_types, TraceTypes { trace: true, vm_trace: false, state_diff: true });
    assert_eq!(kind.label(), "trace_call");
    assert_eq!(CallKind::Basic.label(), "basic");
    assert_eq!(Method::EthCall.label(), "eth_call");
    assert_eq!(Method::DebugTraceCall.label(), "debug_traceCall");
    assert_eq!(Method::TraceCall.label(), "trace_call");
}

#[test]
fn submitted_calls_reach_the_queue() {
    let mut server = server(true, 50);
    let (mut pool, tasks) = MevWorkerPool::new(3);
    assert_eq!(pool.num_workers, 3);
    let admission = ask(&mut server, Method::EthCall, None);
    let Decision::Execute(call) = admission.decision else { panic!() };
    let answer = server.submit(&mut pool, call, 42);
    assert!(answer.result.is_ok());
    assert_eq!(names(&answer.emissions), vec!["mev_pool_queue_depth"]);
    let task = tasks.try_recv().unwrap();
    assert_eq!((task.ticket, task.method), (42, Method::EthCall));
    assert_eq!(task.epoch.block_number, 100);
    drop(tasks);
    let answer = server.submit(&mut pool, call, 43);
    let Err(CallError::Internal(message)) = answer.result else { panic!() };
    assert_eq!(message, "worker pool queue full");
    assert_eq!(
        names(&answer.emissions),
        vec!["mev_pool_queue_depth", "mev_pool_queue_full_total"]
    );
}

#[test]
fn plain_calls_are_answered() {
    let mut server = server(true, 50);
    let answer = server.finish_eth_call(Reply::Done(WorkerOutput::Basic(vec![1, 2])));
    assert_eq!(answer.result.unwrap(), vec![1, 2]);
    assert!(answer.emissions.is_empty());
    let answer = server.finish_eth_call(Reply::Failed(WorkerError::Revert(vec![9])));
    let Err(CallError::Reverted(data)) = answer.result else { panic!() };
    assert_eq!(data, vec![9]);
    assert!(matches!(
        answer.emissions[0].labels,
        Labels::Two("method", "eth_call", "kind", "worker_error")
    ));
    assert_eq!(server.counters.eth_call.errors, 1);
    let answer = server.finish_eth_call(Reply::Failed(WorkerError::Evm("x".to_string())));
    let Err(CallError::Internal(message)) = answer.result else { panic!() };
    assert_eq!(message, "evm error: x");
    assert!(matches!(
        answer.emissions[0].labels,
        Labels::Two("method", "eth_call", "kind", "worker_error")
    ));
    let answer = server.finish_eth_call(Reply::Dropped);
    let Err(CallError::Internal(message)) = answer.result else { panic!() };
    assert_eq!(message, "worker dropped");
    assert!(matches!(answer.emissions[0].labels, Labels::Two(_, _, "kind", "worker_dropped")));
    assert_eq!(server.counters.eth_call.errors, 3);
    let answer = server.finish_eth_call(Reply::Done(WorkerOutput::ParityTrace('p')));
    let Err(CallError::Internal(message)) = answer.result else { panic!() };
    assert_eq!(message, "unexpected worker output");
    assert_eq!(server.counters.eth_call.errors, 3);
}

#[test]
fn traces_are_answered() {
    let mut server = server(true, 50);
    let list = Some(AccessList(vec![]));
    let answer = server.finish_debug_trace_call(Reply::Done(WorkerOutput::DebugTrace(5, list)));
    let (trace, list) = answer.result.unwrap();
    assert_eq!(trace, 5);
    assert!(list.is_some());
    let answer = server.finish_debug_trace_call(Reply::Failed(WorkerError::Revert(vec![9])));
    let Err(CallError::Internal(message)) = answer.result else { panic!() };
    assert_eq!(message, "evm execution reverted");
    assert_eq!(server.counters.debug_trace_call.errors, 1);
    let answer = server.finish_trace_call(Reply::Done(WorkerOutput::ParityTrace('p')));
    assert_eq!(answer.result.unwrap(), 'p');
    let answer = server.finish_trace_call(Reply::Dropped);
    assert!(answer.result.is_err());
    assert_eq!(server.counters.trace_call.errors, 1);
    let answer = server.finish_trace_call(Reply::Done(WorkerOutput::Basic(vec![])));
    let Err(CallError::Internal(message)) = answer.result else { panic!() };
    assert_eq!(message, "unexpected worker output");
}

#[test]
fn lists_go_along_with_objects_only() {
    assert_eq!(ACCESS_LIST_FIELD, "accessList");
    assert!(attached_list(Some(AccessList(vec![])), true).is_some());
    assert!(attached_list(Some(AccessList(vec![])), false).is_none());
    assert!(attached_list(None, true).is_none());
}

#[test]
fn base_fees_follow_the_rule() {
    assert_eq!(next_base_fee(15_000_000, 30_000_000, 1_000), 1_000);
    assert_eq!(next_base_fee(30_000_000, 30_000_000, 1_000), 1_125);
    assert_eq!(next_base_fee(0, 30_000_000, 1_000), 875);
    assert_eq!(next_base_fee(15_000_001, 30_000_000, 1_000), 1_001);
    assert_eq!(next_base_fee(9, 1, 1_000), 1_000);
    assert_eq!(next_base_fee(0, 30_000_000, 0), 0);
    let params = alloy_eips::eip1559::BaseFeeParams::ethereum();
    for (used, limit, fee) in [
        (10_000_000, 10_000_000, 1_000_000_000),
        (9_000_000, 14_000_000, 1_072_671_875),
        (10_001_000, 18_000_000, 1_049_238_967),
        (0, 5_000, 7),
        (2_500, 5_001, 18_000_000_000),
        (1, 3, u64::MAX / 2),
    ] {
        let expected = alloy_eips::calc_next_block_base_fee(used, limit, fee, params);
        assert_eq!(next_base_fee(used, limit, fee), expected);
    }
}

#[test]
fn the_nonce_of_a_request_is_dropped() {
    let server = server(true, 50);
    let (_, a) = server.prepare_evm_env(CallRequest { gas: Some(7), nonce: Some(1) });
    let (_, b) = server.prepare_evm_env(CallRequest { gas: Some(7), nonce: None });
    assert_eq!((a.gas, a.nonce), (b.gas, b.nonce));
    assert_eq!(a.nonce, None);
}
