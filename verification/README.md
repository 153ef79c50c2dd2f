# simse-core

The core of the simse assistant runtime, written in Verus: the decisions of
the agentic loop and of chain runs, the conversation and text cache, the
configuration and librarian validation, the library's maintenance rules, the
contiguous embedding storage, the hook and event registries, the ACP/MCP
protocol readers and the resilience primitives, each with a contract proved
by Verus.

- `src/` is the verified library. State machines such as `LoopRun`,
  `ChainRun`, `DeskState` and `HttpTransport` make every decision of a run;
  the code that performs the I/O around them drives them.
- `app/` is that driving code: the asynchronous loops, the HTTP and ACP
  transports, the librarian registry's bidding, JSON documents, logging
  through `tracing`, and the floating-point scoring (vector distances,
  fusion, scalar quantization, back-off), which the library does not
  express.
- `tests/` exercises the library through its public API.
