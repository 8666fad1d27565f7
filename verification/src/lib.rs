//! A minimal Linux container runtime core: the verified construction plan for
//! an isolated execution environment (cgroup-v2 limits, namespace and mount
//! pivot ordering, a seccomp syscall policy), together with the argument
//! parser and the image-reference logic that feed it.
//!
//! The library computes and checks every decision the runtime makes; the thin
//! binary around it performs the actual kernel calls and I/O.
pub mod args;
pub mod cgroup;
pub mod hostname;
pub mod image;
pub mod pipeline;
pub mod seccomp;
pub mod text;
