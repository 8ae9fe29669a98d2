use reth_mev::api::types::{CallKind, Method};
use reth_mev::metrics::{Labels, Update};
use reth_mev::primitives::{AccountInfo, Address, Bytecode, ProviderError, B256, U256};
use reth_mev::worker::run::{next_step, TaskAction, TaskEvent, TxParts};
use reth_mev::worker::task::{
    caller_nonce, exec_basic, exec_debug_trace, exec_parity_trace, extract_access_list,
    opened_state, record_timing, stage_error, ExecutionResult, MevWorker, Stage, Timing, TouchedAccount,
    WorkerAction, WorkerActiveGuard,
};
use reth_mev::worker::{
    judge_dispatch, MevWorkerPool, PoolError, WorkerError, WorkerOutput, WorkerTask,
    TASK_QUEUE_CAPACITY,
};
use reth_mev::EpochContext;

fn task(epoch_id: u64) -> WorkerTask {
    WorkerTask {
        epoch: EpochContext { epoch_id, block_number: 9, block_hash: B256([9; 32]) },
        kind: CallKind::Basic,
        method: Method::EthCall,
        ticket: 1,
    }
}

type Output = WorkerOutput<u8, char>;

#[test]
fn workers_switch_epochs_when_tasks_do() {
    let mut worker: MevWorker<&str> = MevWorker::new(3);
    assert!(matches!(worker.begin(&task(0)), WorkerAction::Execute));
    let Err(WorkerError::Internal(message)) = opened_state(&worker.state_provider) else { panic!() };
    assert_eq!(message, "state provider missing");
    let WorkerAction::OpenState(hash) = worker.begin(&task(1)) else { panic!() };
    assert_eq!(hash, B256([9; 32]));

    let addr = Address::from([1; 20]);
    worker.l1.accounts.insert(addr, None);
    worker.l1.bytecodes.insert(B256([1; 32]), Bytecode::new_raw(vec![1]));
    let error = worker
        .switch_epoch(&task(1), Err(ProviderError { message: "gone".to_string() }))
        .unwrap_err();
    assert_eq!(error.message(), "state provider error: gone");
    assert_eq!(worker.current_epoch_id, 0);
    assert!(worker.l1.accounts.contains_key(&addr));

    let counted = worker.switch_epoch(&task(1), Ok("state")).unwrap();
    assert_eq!(counted.metric, "mev_worker_epoch_switches_total");
    assert_eq!(*opened_state(&worker.state_provider).unwrap(), "state");
    assert_eq!((worker.current_epoch_id, worker.l1.epoch_id), (1, 1));
    assert!(worker.l1.accounts.is_empty());
    assert!(worker.l1.bytecodes.contains_key(&B256([1; 32])));
    assert!(matches!(worker.begin(&task(1)), WorkerAction::Execute));
}

#[test]
fn nonces_come_from_the_state() {
    let info = AccountInfo { nonce: 5, ..Default::default() };
    assert_eq!(caller_nonce(Ok(Some(info))).unwrap(), 5);
    assert_eq!(caller_nonce(Ok(None)).unwrap(), 0);
    let error = caller_nonce(Err("x".to_string())).unwrap_err();
    assert_eq!(error.message(), "internal: x");
}

#[test]
fn failures_have_messages() {
    let text = |stage| stage_error(stage, "x".to_string()).message();
    assert_eq!(text(Stage::StateOverrides), "internal: x");
    assert_eq!(text(Stage::Transact), "evm error: x");
    assert_eq!(text(Stage::DebugInspector), "debug inspector error: x");
    assert_eq!(text(Stage::ParityTrace), "parity tracing error: x");
    let halt = WorkerError::Halt { reason: "OutOfGas".to_string(), gas_used: 21_000 };
    assert_eq!(halt.message(), "evm halted: OutOfGas, gas_used=21000");
    let halt = WorkerError::Halt { reason: String::new(), gas_used: u64::MAX };
    assert_eq!(halt.message(), "evm halted: , gas_used=18446744073709551615");
    assert_eq!(WorkerError::Revert(vec![1]).message(), "evm execution reverted");
    assert_eq!(PoolError::QueueFull.message(), "worker pool queue full");
}

#[test]
fn plain_calls_end_in_three_ways() {
    let done: Result<Output, _> = exec_basic(ExecutionResult::Success(vec![1]));
    assert!(matches!(done, Ok(WorkerOutput::Basic(bytes)) if bytes == vec![1]));
    let reverted: Result<Output, _> = exec_basic(ExecutionResult::Revert(vec![2]));
    assert!(matches!(reverted, Err(WorkerError::Revert(bytes)) if bytes == vec![2]));
    let halted: Result<Output, _> =
        exec_basic(ExecutionResult::Halt { reason: "r".to_string(), gas_used: 3 });
    assert!(matches!(halted, Err(WorkerError::Halt { gas_used: 3, .. })));
}

fn touched() -> Vec<TouchedAccount> {
    vec![
        TouchedAccount { address: Address::from([1; 20]), slots: vec![U256([7; 32]), U256([8; 32])] },
        TouchedAccount { address: Address::from([2; 20]), slots: vec![] },
    ]
}

#[test]
fn what_was_touched_is_listed() {
    let list = extract_access_list(&touched()).0;
    assert_eq!(list.len(), 2);
    assert_eq!(list[0].address, Address::from([1; 20]));
    assert_eq!(list[0].storage_keys, vec![B256([7; 32]), B256([8; 32])]);
    assert!(list[1].storage_keys.is_empty());
}

#[test]
fn traces_carry_lists_on_demand() {
    let output: Output = exec_debug_trace(4, true, &touched());
    assert!(matches!(output, WorkerOutput::DebugTrace(4, Some(list)) if list.0.len() == 2));
    let output: Output = exec_debug_trace(4, false, &touched());
    assert!(matches!(output, WorkerOutput::DebugTrace(4, None)));
    let output: Output = exec_parity_trace('p');
    assert!(matches!(output, WorkerOutput::ParityTrace('p')));
}

#[test]
fn the_queue_is_bounded() {
    assert_eq!(TASK_QUEUE_CAPACITY, 65536);
    let (mut pool, tasks) = MevWorkerPool::new(1);
    assert_eq!(tasks.capacity(), Some(65536));
    for _ in 0..65536 {
        assert!(pool.dispatch(task(1)).result.is_ok());
    }
    let full = pool.dispatch(task(1));
    assert_eq!(full.result, Err(PoolError::QueueFull));
    assert!(matches!(full.emissions[0].update, Update::Assign(65536)));
    tasks.recv().unwrap();
    assert!(pool.dispatch(task(1)).result.is_ok());
}

#[test]
fn tasks_come_out_as_they_went_in() {
    let (mut pool, tasks) = MevWorkerPool::new(2);
    for epoch_id in [7, 3, 5] {
        assert!(pool.dispatch(task(epoch_id)).result.is_ok());
    }
    let out: Vec<u64> = tasks.try_iter().map(|task| task.epoch.epoch_id).collect();
    assert_eq!(out, vec![7, 3, 5]);
}

#[test]
fn tasks_are_taken_or_turned_away() {
    let taken = judge_dispatch(4, Ok(()));
    assert!(taken.result.is_ok());
    assert_eq!(taken.emissions.len(), 1);
    assert_eq!(taken.emissions[0].metric, "mev_pool_queue_depth");
    assert!(matches!(taken.emissions[0].update, Update::Assign(4)));
    let away = judge_dispatch(4, Err(task(1)));
    assert_eq!(away.result, Err(PoolError::QueueFull));
    assert_eq!(away.emissions[1].metric, "mev_pool_queue_full_total");
}

#[test]
fn parts_of_a_task_are_timed() {
    let pairs = [
        (Timing::QueueWait, "mev_worker_queue_wait_seconds"),
        (Timing::ResultSend, "mev_worker_result_send_seconds"),
        (Timing::Handle, "mev_worker_handle_seconds"),
        (Timing::SwitchEpoch, "mev_worker_switch_epoch_seconds"),
        (Timing::BuildDb, "mev_worker_build_db_seconds"),
        (Timing::ApplyOverrides, "mev_worker_apply_overrides_seconds"),
        (Timing::NonceBasic, "mev_worker_nonce_basic_seconds"),
        (Timing::Transact, "mev_worker_transact_seconds"),
        (Timing::TraceBuild, "mev_worker_trace_build_seconds"),
        (Timing::StatsFlush, "mev_worker_stats_flush_seconds"),
        (Timing::Execute, "mev_worker_execute_seconds"),
    ];
    for (timing, metric) in pairs {
        let out = record_timing(timing, &task(1), 5);
        assert_eq!(out.metric, metric);
        assert!(matches!(out.labels, Labels::Two("method", "eth_call", "kind", "basic")));
        assert!(matches!(out.update, Update::RecordNanos(5)));
    }
}

#[test]
fn active_workers_are_gauged() {
    let (guard, raised) = WorkerActiveGuard::new("eth_call", "basic");
    assert_eq!(raised.metric, "mev_worker_active");
    assert!(matches!(raised.update, Update::Raise));
    let lowered = guard.finish();
    assert!(matches!(lowered.labels, Labels::Two("method", "eth_call", "kind", "basic")));
    assert!(matches!(lowered.update, Update::Lower));
}

type Event = TaskEvent<u8, char>;

fn parts(nonce: u64) -> TxParts {
    TxParts { caller: Address::from([3; 20]), nonce }
}

/// Drives a task: how often the counts are reported, the nonces that the machine runs
/// with, and the reply.
fn drive(
    overridden: Result<(), String>,
    caller: Result<Option<AccountInfo>, String>,
    nonce: u64,
) -> (usize, Vec<u64>, Result<Output, WorkerError>) {
    let (mut overridden, mut caller) = (Some(overridden), Some(caller));
    let (mut flushes, mut runs) = (0, vec![]);
    let mut event: Event = TaskEvent::Opened;
    loop {
        event = match next_step(event) {
            TaskAction::ApplyOverrides => TaskEvent::Overridden(overridden.take().unwrap()),
            TaskAction::ReadCaller => TaskEvent::CallerRead(parts(nonce), caller.take().unwrap()),
            TaskAction::Transact(tx) => {
                runs.push(tx.nonce);
                TaskEvent::Ran(Ok(WorkerOutput::Basic(vec![tx.caller.0[0]])))
            }
            TaskAction::Flush(result) => {
                flushes += 1;
                TaskEvent::Flushed(result)
            }
            TaskAction::Reply(result) => return (flushes, runs, result),
        };
    }
}

fn with_nonce(nonce: u64) -> AccountInfo {
    AccountInfo { nonce, ..AccountInfo::default() }
}

#[test]
fn tasks_run_with_the_nonce_of_the_state() {
    for given in [0, 5, u64::MAX] {
        let (flushes, runs, reply) = drive(Ok(()), Ok(Some(with_nonce(9))), given);
        assert_eq!((flushes, runs), (1, vec![9]));
        assert!(matches!(reply, Ok(WorkerOutput::Basic(bytes)) if bytes == vec![3]));
        let (_, runs, _) = drive(Ok(()), Ok(None), given);
        assert_eq!(runs, vec![0]);
    }
}

#[test]
fn failed_tasks_are_flushed_and_do_not_run() {
    let (flushes, runs, reply) = drive(Err("o".to_string()), Ok(None), 1);
    assert_eq!((flushes, runs.len()), (1, 0));
    assert_eq!(reply.unwrap_err().message(), "internal: o");
    let (flushes, runs, reply) = drive(Ok(()), Err("c".to_string()), 1);
    assert_eq!((flushes, runs.len()), (1, 0));
    assert_eq!(reply.unwrap_err().message(), "internal: c");
    let failed: TaskAction<u8, char> =
        next_step(TaskEvent::Ran(Err(WorkerError::Evm("e".to_string()))));
    assert!(matches!(failed, TaskAction::Flush(Err(WorkerError::Evm(_)))));
}
