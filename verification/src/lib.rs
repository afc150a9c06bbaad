//! Orchestration core for a Fibonacci zero-knowledge proving workflow:
//! encoding and decoding the program's committed public outputs, selecting a
//! proving backend from configuration, checking executed outputs against the
//! reference computation, tracking synchronous and asynchronous proving runs,
//! and building the on-chain verifier fixture.

pub mod codec;
pub mod errors;
pub mod fib;
pub mod fixture;
pub mod hexstr;
pub mod selector;
pub mod workflow;

pub use fib::fibonacci;
