# fx_runtime

A runtime for WebAssembly functions. Functions are deployed from definition files, are triggered by
HTTP requests, schedules and messages, and reach key-value stores, databases, blobs, other functions
and the network through the host.

`src/` holds what the runtime decides and computes. Every item there is verified with Verus:

- `definitions`, `definition`: configurations, where functions and their files are found, and what is
  deployed for them
- `server`: the threads of a server, how requests are answered, queues and brokers
- `cron`, `introspection`: schedules, the record of runs, and the page that shows them
- `function`: deployments and instances, their memory, and one module for each group of functions
  that the host offers them (`function::abi`)
- `effects`: what functions reach through the host, and the metrics that they keep
- `resources`, `streams`: what is held for a function under a number
- `runtime`: functions that are called through one export for each handler
- `compiler`, `profiling`, `web`, `text`, `order`, `table`, `poll`: what the rest is built with

Outside crates are called through small trusted functions, each with the contract that is believed of
it: headers, URIs and URLs (`http`, `reqwest`), schedules and times (`cron`, `chrono`), digests (`sha2`), counters
(`prometheus`), slots (`slotmap`), random numbers (`rand`, `uuid`) and the allocator
(`tikv-jemalloc-ctl`).

`app/` is the program around the library: arguments, files, sockets, threads, SQLite and the
WebAssembly engine.
