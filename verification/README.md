# gpu_charts

The verified core of the GPU Charts market-data logger and chart runtime,
written in Verus.

- `src/` is the library. Its functions carry contracts that Verus proves,
  except the small trusted wrappers around outside calls and the opaque
  `CounterFamily` (see below): the exchange data model and symbol mapping, symbol batching and
  Binance stream names, what each Binance, Coinbase, OKX, Kraken and Bitfinex
  feed message means (which update or trades it carries, with prices kept as
  decimal text, or which error; Bitfinex's channel subscriptions), the
  reconnection policy and the reading-loop decisions, the
  record buffer and its little-endian column encoding, metric counters and
  the names they are registered under, error recovery with circuit breakers,
  the lifecycle state machine with its startup and shutdown sequences, and the
  render-loop state machines. Public `law_*` proof functions state the
  properties that hold across calls.
- `app/` is the logger program around the library: command line, configuration
  files, websocket and REST I/O, the reading of JSON frames into the library's
  message types, file output, floating-point prices, analytics and gauges, and
  the HTTP endpoints. It performs the work the library decides on.
- `tests/` exercises the library on concrete values.

The logger runs the Coinbase, Binance, OKX and Bitfinex feeds. Kraken's
messages are understood by the library, but no Kraken feed is built: asking
for it only logs that it stays off.

The render loops do not call listeners themselves: each transition returns
the change it made (`Transition::changed`, `LoopAction::StateChanged`), and
the caller hands it to whoever listens.

Calls into `prometheus`, `uuid`, `dashmap`, `chrono`, and std's case mapping,
number parsing, hashing and time formatting stand behind small trusted wrappers in `src/`, marked
`#[verifier::external_body]`; Verus believes their contracts without proof,
and each one's doc comment says what its contract claims of the outside
function.
