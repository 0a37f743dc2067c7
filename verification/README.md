# tensor_guardian

Monitoring of AI accelerators (NVIDIA GPUs through NVML, Apple GPUs and the Neural Engine,
Google TPUs, Linux CPUs through procfs), with eBPF probes, a terminal UI and a REST API.

- `src/` is the verified library. It holds the domain model (identifiers, value objects,
  sensors, metrics, accelerators, samples, metric streams, events), the rules of each
  backend (what discovery makes of what a device reports, which readings a collection
  turns into which metrics under which sensors, health), the parsing of `/proc/meminfo`
  and `/proc/stat`, the application's commands and policies, the API's error model and
  name parsing, the text of the `discover` listing (table, JSON, YAML), the checking of a
  signer's answer for a provenance statement, the steps of a discovery run, the
  configuration's defaults, and the state of the terminal UI. Verus proves each function
  against its contract, where there is something to state: the constructors of empty unit
  structs carry none, and what depends on the clock or on a random number is stated only
  as far as it holds of every outcome. Where a time is recorded, a function that takes the
  time as an argument states what is done with it (`Timestamp::from_unix_nanos`,
  `set_last_seen`, `record_metric_at`, `mark_healthy_at`, `SlsaProvenance::started_at`). The few
  calls into outside crates (`uuid`, `chrono`, the clock) sit behind small trusted wrappers
  whose contracts are stated in their doc comments.
- `app/` is the program around it: the command line, reading the hardware (NVML, sysctl,
  libtpu, the Cloud TPU runtime, procfs files, eBPF maps), the async backends and handlers,
  the REST server, running `cosign` to sign provenance, the terminal drawing, and the
  floating-point views of the library's values (which the library keeps as IEEE-754 bit
  patterns).
- `tests/` runs the library on concrete values.

The crate serves the REST API only; it has no gRPC streaming service.
