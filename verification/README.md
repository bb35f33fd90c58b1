# ir_trace

An interpreter for Lean 4 λRC IR programs that records an execution trace,
and a checker that replays such a trace step by step. The library is written
in Verus: every function in `src/` carries a contract that Verus proves, but
for the trusted calls listed below.

## What is proved

- `interpreter`: a call runs as `spec_call` says: a primitive, a stub, an
  extern wrapper or a declared body, one budget step per call and per body
  node, with exactly the values it registers and the steps it records (and
  the error when the value table is full). Every recorded step names
  values of the table, the table never holds two equal values, and when
  every field index of the program fits the trace's 16 bits, every step a
  call records checks out against the table, whatever was recorded before
  it (a wider index is recorded truncated); so does every step of
  `BodyExecutor::exec`. A call made while `MAX_CALL_DEPTH` calls are in
  progress fails before it does anything else, and every call leaves the
  number of calls in progress as it found it.
  A run that cannot go on (an unknown name, calls nested too deep, an
  unbound variable, a primitive outside its domain, ...) ends in the
  matching `InterpError`, as `spec_call` says.
- `trace_check::check_trace` gives exactly the verdict `spec_verify_trace`
  describes (the header, the value table and every step);
  `trace_check::verify_trace` is the verifier proper and admits only traces
  that check out.
- `trace_format::compact_trace` keeps exactly the referenced values, in order,
  and remaps every id; `build_trace` yields a trace that verifies exactly when
  the recorded steps check out; `lemma_compaction_preserves_meaning` shows that each
  step keeps its verdict and the output its value,
  `lemma_compaction_idempotent` that compacting again changes nothing, and
  `trace_check::lemma_verdict_ignores_unreferenced` that the verdict never
  depends on a value that no step names.
- `value::lemma_scalar_bytes_read_back`: bytes written into an object's
  scalar area read back as written, and nothing else changes.
- `ir_loader` reads a program from its JSON text (`load_ir_program_text`,
  through serde_json) and parses the document exactly as
  `spec_load_ir_program` describes, errors included (a value of the wrong
  kind is shown as serde_json's `Debug` text, `json::spec_json_debug`); `ir_filter::reachable_decls` gives exactly the
  declarations reachable from an entry point.
- `primitives` and `stubs` compute the natural-number, fixed-width and
  byte-array operations as their spec functions say.
- `eth2_input::build_test_input` lays out the ETH2 benchmark input byte for
  byte.

## Layout

- `src/`: the verified library.
- `tests/`: tests of the library on concrete programs and values.
- `app/`: the command line (`ir-trace`, with the `gen-eth2-input` and
  `filter-ir` subcommands): file I/O, JSON and bincode (de)serialisation,
  timing and printing.

## Trusted calls

These functions are marked `#[verifier::external_body]`: Verus takes their
contracts on trust, and each doc comment says what is claimed.

- `json::parse_json` and `json::json_of`: serde_json's parser (the document
  is named `spec_parse_json`, not described) and the conversion of its value
  to `Json`; `json::ExJsonValue` declares `serde_json::Value`.
- `json::debug_str`: std's `Debug` text of a string (named
  `spec_debug_str`).
- `trace_format::sha256`: SHA-256 from the `sha2` crate (named
  `sha256_digest`).
- `primitives::parse_u64`: std's `u64::from_str`.
- `stubs::wrapping_pow`: std's `u64::wrapping_pow`.
- `interpreter::strip_suffix` and `interpreter::primitives::str_equal`:
  std's `str::strip_suffix` and `==` on `str`.
- `report::ascii_string`: std's `String::from_utf8` on ASCII bytes.
