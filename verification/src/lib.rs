//! Verified core of a set of eBPF tracing tools: the records that the
//! kernel-side probes emit, the decoding of those records in user space, and
//! the step-by-step plans of the block-write benchmarks whose inode activity
//! the tracepoint probes count.

pub mod benchmark;
pub mod inode_event;
pub mod naming;
pub mod order;
pub mod plan_laws;
pub mod poll;
pub mod probe;
pub mod ring_record;
pub mod run;
