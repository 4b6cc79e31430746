//! Shared results schema for the in-circuit (zkVM) benchmarks: the scheme,
//! prover and batch descriptions every workload carries.
//!
//! A cycle count is always tagged with its prover, because RISC Zero and SP1
//! cycles are different units; every result carries its caveats inline.
use vstd::prelude::*;

verus! {

/// Which family a scheme belongs to.
#[derive(Debug, Clone, Copy, PartialEq, Eq, Structural)]
pub enum Family {
    Classical,
    Lattice,
    Hash,
}

/// The scheme under measurement and exactly how it was built.
#[derive(Debug, Clone)]
pub struct Scheme {
    pub name: String,
    pub family: Family,
    /// e.g. "RFC 8032", "FIPS 204", "NIST selected (FIPS 206 not published)".
    pub spec: String,
    pub crate_name: String,
    pub crate_version: String,
    /// The hash primitive on the critical path, e.g. "SHA-512", "SHAKE-256".
    pub hash_primitive: String,
    /// Whether this build is standards conformant.
    pub conformant: bool,
    /// True if the implementation crate is a prerelease.
    pub prerelease: bool,
}

/// How a security level figure was obtained.
#[derive(Debug, Clone, Copy, PartialEq, Eq, Structural)]
pub enum SecurityKind {
    /// The prover documents this as a proven bound.
    Proven,
    /// The prover documents this as a conjectured or claimed level.
    Claimed,
    /// No documented figure was found.
    Unknown,
}

/// A claimed security level and where it is documented.
#[derive(Debug, Clone)]
pub struct SecurityBits {
    pub value: Option<u32>,
    pub kind: SecurityKind,
    /// URL documenting the figure, with an access date in the text.
    pub source: String,
}

/// The prover and precisely how it was configured.
#[derive(Debug, Clone)]
pub struct Prover {
    /// "risc0" or "sp1". This is the axis key: cycles never cross it.
    pub name: String,
    pub version: String,
    /// Guest instruction set, e.g. "riscv32im" (risc0) or "riscv64im" (sp1).
    pub isa: String,
    /// "cpu-scalar", "metal", "cuda", "avx512".
    pub backend: String,
    /// "execute", "core", "composite", "succinct", "compressed", "groth16".
    pub proof_mode: String,
    pub security_bits: SecurityBits,
    /// RISC Zero segment limit (power of two). None for other provers.
    pub segment_limit_po2: Option<u32>,
    /// Precompiles the guest actually invoked, by name.
    pub precompiles_used: Vec<String>,
    /// True when an accelerated build was asserted to actually use its
    /// precompile. False for a stock build.
    pub precompile_assert_passed: bool,
}

/// How a batch is proved.
#[derive(Debug, Clone, Copy, PartialEq, Eq, Structural)]
pub enum Topology {
    /// A single guest program loops over all N signatures.
    Flat,
    /// Signatures are proved in chunks and recursively aggregated.
    Recursive,
}

/// Batch shape of a workload.
#[derive(Debug, Clone, Copy, PartialEq, Eq, Structural)]
pub struct Batch {
    pub n: u32,
    pub topology: Topology,
    /// Recursion arity, when topology is recursive.
    pub arity: Option<u32>,
}

/// Status of a workload. Aborted workloads are published, not dropped.
#[derive(Debug, Clone, Copy, PartialEq, Eq, Structural)]
pub enum Status {
    /// The workload ran to completion (reported as `ok`).
    Completed,
    Aborted,
}

} // verus!
