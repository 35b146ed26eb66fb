# ebpf_trace

Verified core of a small set of eBPF tracing tools built on aya:

- an `execve` kprobe that sends a record (`pid`, `uid`, command, message)
  through a ring buffer, and its user-side reader;
- a kprobe that counts calls per process, and a hello-world tracepoint;
- tracepoint probes on ext4/jbd2 events that count hits per thread, command
  and event, and a benchmark that writes blocks to a file in eight patterns
  (buffered or `O_DIRECT`, sequential or random, with or without
  preallocation, single or double writes) while showing those counters.

Layout:

- `src/` — the library, verified with Verus:
  - `ring_record.rs`: the ring-buffer record and its decoding from bytes;
  - `inode_event.rs`: the inode counter keys, event names and numbers, and
    the listing of the counter table;
  - `probe.rs`: what the counting probes store and return;
  - `benchmark.rs`: the write patterns as plans of steps;
  - `run.rs`: the run of a plan: what follows each step's success or
    failure, and which durations are recorded;
  - `order.rs`: the random block orders;
  - `naming.rs`: the benchmark file names, from a given time stamp;
  - `plan_laws.rs`: properties of all plans;
  - `poll.rs`: the polling wrapper of the ring-buffer reader.
- `app/` — the programs: argument parsing, eBPF loading and attaching, the
  clock, the file operations that carry out each step of a plan, the
  histogram output, and the kernel-side probe bodies (`app/probes.rs`, which
  are compiled for the eBPF target into the objects that the programs load
  from the paths in `TRACEPOINT_INODE_OBJECT` and `KPROBE_RINGBUFFER_OBJECT`).
- `tests/` — tests of the library.
