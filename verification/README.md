# reth_mev

Fast simulation of calls for an Ethereum node, for searchers who try out many
transactions on every new block. Three RPC methods, `mev_eth_call`,
`mev_debug_traceCall` and `mev_trace_call`, are answered by a pool of workers that
execute on the state of the newest block. What they read is kept in a cache of each
worker's own and in one that all workers share. A new block drops from the shared
cache only what it changed, and puts in what it brought. `mev_subscribe` tells its
subscribers which pools a new block may have moved.

## Layout

- `src/`: the library, verified with Verus. It decides and computes: which block is
  active, where a request goes, what a worker does next, what a read may return, what
  a block does to the caches, which identifiers it touched, and what is reported.
- `tests/`: its tests.
- `app/`: what carries the decisions out: threads, the chain of a `reth` node, the
  EVM, metrics and JSON-RPC.

## What is proved

The contracts say what a function returns or changes. Where that rests on something
outside, on what the state database returns, on whether a queue that other threads use
has room, on an entry that was dropped for want of room, they say what holds whatever
happens. On top of them stand laws, as public proof functions:

- what was read once, the shared cache finds again, as long as its entries are within
  their limit: code from one epoch to the next (`cache`), and state that a block leaves
  alone (`epoch`);
- the shared cache follows the chain (`cache::diff`, `epoch`), and a read through caches
  that hold the state of a block gives the state of that block (`provider`). Two things
  are taken for granted there: no worker that is still at an older block puts in what it
  read there, and a block lists every cached slot of the accounts that it destroys;
- a task leaves only clean reads behind, and does not change the outcome of the next,
  whether its reads fail or not (`isolation`);
- no increment of a counter is lost (`metrics`);
- however a task ends, its counts are reported once, and the nonce that it came with
  makes no difference (`worker::run`, `api::server`);
- a request goes to a worker, to the native method or back by its distance from the
  active block (`api::server`, `epoch`);
- every changed account, and every pool in a log of a registered contract, is named
  (`impact`).

The caches of `moka`, the channel of `crossbeam-channel`, and the hash and the text
forms of `alloy-primitives` are called behind wrappers whose contracts are taken on
trust. They are in `cache::store`, `worker::queue` and `impact::encoding`, together
with `String::push` in `text`.

The shared cache, the counters and the pool are changed by `&mut`; `app/` shares them
behind locks.

## Settings

| Variable | Default | Meaning |
|---|---|---|
| `MEV_WORKER_COUNT` | 40 | number of workers |
| `MEV_GLOBAL_CACHE_MAX_MB` | 16384 | size of the shared cache |
| `MEV_STATS_INTERVAL_SECS` | 30 | seconds between reports |
| `MEV_REJECT_STALE_CALL` | on | `0`: stale requests go to the native methods |
| `MEV_DIFF_CACHE` | on | `0`: every new block empties the shared cache of state |
| `MEV_DEBUG_FIXED_EPOCH` | none | a block to stay at, for debugging |
| `MEV_BALANCER_V2_VAULT` | mainnet | address of the shared contract |
| `MEV_BALANCER_V3_VAULT`, `MEV_UNISWAP_V4_POOL_MANAGER`, `MEV_FLUID_DEX_LITE`, `MEV_CORE_SWAP_POOL_MANAGER`, `MEV_CORE_SWAP_V3_POOL_MANAGER` | none | addresses of further shared contracts |
