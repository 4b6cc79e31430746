//! Decisions the zkVM host binaries make around one guest execution: the
//! padded cycle total, the precompile assertion, and the labels, caveats and
//! records that go into the results file.
use vstd::prelude::*;
use crate::risc0_host;
use crate::sp1_host;
use crate::risc0_host::texts;
use crate::text::decimal;
use crate::text::push_char;
use crate::text::push_decimal;
use crate::text::str_eq;
use crate::zkvm::Batch;
use crate::zkvm::Prover;
use crate::zkvm::Scheme;
use crate::zkvm::SecurityBits;
use crate::zkvm::SecurityKind;
use crate::zkvm::Topology;
use vstd::string::StringExecFns;

verus! {

/// Sum of `2^po2` over the segments: the cycle total including power-of-two
/// padding.
pub open spec fn padded_total(po2s: Seq<u32>) -> int
    decreases po2s.len(),
{
    if po2s.len() == 0 {
        0
    } else {
        padded_total(po2s.drop_last()) + vstd::arithmetic::power2::pow2(po2s.last() as nat)
    }
}

/// Total cycles including power-of-two padding over segments of sizes
/// `2^po2`.
pub fn padded_cycles(segment_po2s: &[u32]) -> (r: u64)
    requires
        forall|i: int| 0 <= i < segment_po2s@.len() ==> segment_po2s@[i] < 64,
        padded_total(segment_po2s@) <= u64::MAX,
    ensures
        r == padded_total(segment_po2s@),
{
    let mut total: u64 = 0;
    let mut i: usize = 0;
    while i < segment_po2s.len()
        invariant
            i <= segment_po2s@.len(),
            forall|k: int| 0 <= k < segment_po2s@.len() ==> segment_po2s@[k] < 64,
            padded_total(segment_po2s@) <= u64::MAX,
            total == padded_total(segment_po2s@.take(i as int)),
        decreases segment_po2s@.len() - i,
    {
        let p = segment_po2s[i];
        proof {
            assert(segment_po2s@.take(i + 1).drop_last() =~= segment_po2s@.take(i as int));
            lemma_padded_total_prefix(segment_po2s@, i + 1);
            vstd::arithmetic::power2::lemma_pow2(p as nat);
            vstd::bits::lemma_u64_shl_is_mul(1, p as u64);
            assert(1u64 * vstd::arithmetic::power2::pow2(p as nat) == vstd::arithmetic::power2::pow2(p as nat));
        }
        total = total + (1u64 << p);
        i = i + 1;
    }
    assert(segment_po2s@.take(i as int) =~= segment_po2s@);
    total
}

proof fn lemma_padded_total_prefix(s: Seq<u32>, j: int)
    requires
        0 <= j <= s.len(),
    ensures
        padded_total(s.take(j)) <= padded_total(s),
    decreases s.len() - j,
{
    if j < s.len() {
        lemma_padded_total_prefix(s, j + 1);
        assert(s.take(j + 1).drop_last() =~= s.take(j));
        vstd::arithmetic::power2::lemma_pow2_pos(s[j] as nat);
    } else {
        assert(s.take(j) =~= s);
    }
}

/// Why a guest's journal does not attest the batch the host sent.
#[derive(Debug, Clone, Copy, PartialEq, Eq, Structural)]
pub enum JournalMismatch {
    /// The guest saw a different batch size.
    BatchSize { seen: u32, sent: u32 },
    /// Not every signature verified.
    Unverified { verified: u32, sent: u32 },
}

/// Checks the journal `(n, verified)` a guest committed for a batch of
/// `batch_size` jobs: it attests the run only when the guest saw the whole
/// batch and every signature in it verified.
pub fn journal_check(batch_size: u32, n: u32, verified: u32) -> (r: Result<(), JournalMismatch>)
    ensures
        n != batch_size ==> r == Err::<(), JournalMismatch>(JournalMismatch::BatchSize { seen: n, sent: batch_size }),
        n == batch_size && verified != batch_size ==> r == Err::<(), JournalMismatch>(JournalMismatch::Unverified { verified, sent: batch_size }),
        r is Ok <==> n == batch_size && verified == batch_size,
{
    if n != batch_size {
        Err(JournalMismatch::BatchSize { seen: n, sent: batch_size })
    } else if verified != batch_size {
        Err(JournalMismatch::Unverified { verified, sent: batch_size })
    } else {
        Ok(())
    }
}

/// An accelerated build whose cycle count shows the precompile never engaged.
#[derive(Debug, Clone, Copy, PartialEq, Eq, Structural)]
pub struct PrecompileNotEngaged {
    /// Cycles per signature actually spent.
    pub per_sig: u64,
    /// The per-signature bound the build had to come in below.
    pub threshold: u64,
}

/// Checks that a build which declares a precompile actually used it: its
/// per-signature cycle count (`user_cycles / max(batch_size, 1)`) must be
/// below the declared bound. `Ok(false)` for a stock build, `Ok(true)` when
/// the assertion passed.
pub fn precompile_check(accel_assert_below: Option<u64>, user_cycles: u64, batch_size: u32) -> (r: Result<bool, PrecompileNotEngaged>)
    ensures
        ({
            let per_sig = user_cycles as int / (if batch_size == 0 { 1int } else { batch_size as int });
            match accel_assert_below {
                None => r == Ok::<bool, PrecompileNotEngaged>(false),
                Some(t) => if per_sig < t {
                    r == Ok::<bool, PrecompileNotEngaged>(true)
                } else {
                    r == Err::<bool, PrecompileNotEngaged>(PrecompileNotEngaged { per_sig: per_sig as u64, threshold: t })
                },
            }
        }),
{
    match accel_assert_below {
        Some(per_sig_threshold) => {
            // The threshold is per signature, so it scales with the batch size.
            let divisor: u64 = if batch_size == 0 { 1 } else { batch_size as u64 };
            let per_sig = user_cycles / divisor;
            if per_sig < per_sig_threshold {
                Ok(true)
            } else {
                Err(PrecompileNotEngaged { per_sig, threshold: per_sig_threshold })
            }
        },
        None => Ok(false),
    }
}

/// The proving backend recorded for a run: none when only executing, Metal
/// on the `local-m3max` class, scalar CPU otherwise.
pub fn risc0_backend(proving: bool, hardware_class: &str) -> (r: &'static str)
    ensures
        r@ == (if !proving { "none"@ } else if hardware_class@ == "local-m3max"@ { "metal"@ } else { "cpu-scalar"@ }),
{
    if !proving {
        "none"
    } else if str_eq(hardware_class, "local-m3max") {
        "metal"
    } else {
        "cpu-scalar"
    }
}

/// Owned copies of the strings in `v`, in order.
fn owned_texts(v: &Vec<&'static str>) -> (r: Vec<String>)
    ensures
        r@.map_values(|s: String| s@) == texts(v@),
{
    let mut r: Vec<String> = Vec::new();
    let mut i: usize = 0;
    while i < v.len()
        invariant
            i <= v@.len(),
            r@.map_values(|s: String| s@) == texts(v@.take(i as int)),
        decreases v@.len() - i,
    {
        let s: &str = v[i];
        r.push(s.to_owned());
        assert(texts(v@.take(i + 1)) =~= texts(v@.take(i as int)).push(s@));
        assert(r@.map_values(|s: String| s@) =~= texts(v@.take(i as int)).push(s@));
        i = i + 1;
    }
    assert(v@.take(i as int) =~= v@);
    r
}

/// The disclosures on a RISC Zero workload: the shared one, the scheme's own,
/// and two more when a proof was generated.
pub open spec fn risc0_caveats_text(def_caveats: Seq<Seq<char>>, proving: bool) -> Seq<Seq<char>> {
    seq!["cycle counts are deterministic and machine independent"@] + def_caveats + if proving {
        seq![
            "wall-clock and peak RAM are hardware-class local-m3max, not comparable across machines"@,
            "composite receipt: proof size grows with segment count, not constant"@,
        ]
    } else {
        seq![]
    }
}

/// The disclosures on an SP1 workload.
pub open spec fn sp1_caveats_text(def_caveats: Seq<Seq<char>>, proving: bool) -> Seq<Seq<char>> {
    seq![
        "cycle counts are deterministic and machine independent"@,
        "SP1 cycles are RV64IM instruction counts, not comparable to RISC Zero cycles"@,
    ] + def_caveats + if proving {
        seq![
            "SP1 has no GPU path on Apple Silicon, so this wall-clock is scalar CPU"@,
            "wall-clock and peak RAM are hardware-class local-m3max, not comparable across machines"@,
        ]
    } else {
        seq![]
    }
}

fn push_owned(r: &mut Vec<String>, s: &str)
    ensures
        final(r)@.map_values(|t: String| t@) == old(r)@.map_values(|t: String| t@).push(s@),
{
    r.push(s.to_owned());
    assert(r@.map_values(|t: String| t@) =~= old(r)@.map_values(|t: String| t@).push(s@));
}

fn append_owned(r: &mut Vec<String>, v: &Vec<&'static str>)
    ensures
        final(r)@.map_values(|t: String| t@) == old(r)@.map_values(|t: String| t@) + texts(v@),
{
    let mut more = owned_texts(v);
    let ghost before = r@;
    let ghost added = more@;
    r.append(&mut more);
    assert(r@ =~= before + added);
    assert(r@.map_values(|t: String| t@) =~= before.map_values(|t: String| t@) + added.map_values(|t: String| t@));
}

/// The disclosures on a RISC Zero workload for scheme `def`.
pub fn risc0_caveats(def: &risc0_host::SchemeDef, proving: bool) -> (r: Vec<String>)
    ensures
        r@.map_values(|s: String| s@) == risc0_caveats_text(def@.caveats, proving),
{
    let mut r: Vec<String> = Vec::new();
    push_owned(&mut r, "cycle counts are deterministic and machine independent");
    append_owned(&mut r, &def.caveats);
    if proving {
        push_owned(&mut r, "wall-clock and peak RAM are hardware-class local-m3max, not comparable across machines");
        push_owned(&mut r, "composite receipt: proof size grows with segment count, not constant");
    }
    assert(r@.map_values(|s: String| s@) =~= risc0_caveats_text(def@.caveats, proving));
    r
}

/// The disclosures on an SP1 workload for scheme `def`.
pub fn sp1_caveats(def: &sp1_host::SchemeDef, proving: bool) -> (r: Vec<String>)
    ensures
        r@.map_values(|s: String| s@) == sp1_caveats_text(def@.caveats, proving),
{
    let mut r: Vec<String> = Vec::new();
    push_owned(&mut r, "cycle counts are deterministic and machine independent");
    push_owned(&mut r, "SP1 cycles are RV64IM instruction counts, not comparable to RISC Zero cycles");
    append_owned(&mut r, &def.caveats);
    if proving {
        push_owned(&mut r, "SP1 has no GPU path on Apple Silicon, so this wall-clock is scalar CPU");
        push_owned(&mut r, "wall-clock and peak RAM are hardware-class local-m3max, not comparable across machines");
    }
    assert(r@.map_values(|s: String| s@) =~= sp1_caveats_text(def@.caveats, proving));
    r
}

/// `<base>-<prover>-<scheme>-<mode>-n<batch_size>`.
pub open spec fn zkvm_run_id_text(base: Seq<char>, prover: Seq<char>, scheme: Seq<char>, mode: Seq<char>, batch_size: u32) -> Seq<char> {
    base + seq!['-'] + prover + seq!['-'] + scheme + seq!['-'] + mode + seq!['-', 'n'] + decimal(batch_size as nat)
}

/// The results-file identifier of one zkVM workload.
pub fn zkvm_run_id(base: &str, prover: &str, scheme: &str, mode: &str, batch_size: u32) -> (r: String)
    ensures
        r@ == zkvm_run_id_text(base@, prover@, scheme@, mode@, batch_size),
{
    let mut id = base.to_owned();
    push_char(&mut id, '-');
    id.append(prover);
    push_char(&mut id, '-');
    id.append(scheme);
    push_char(&mut id, '-');
    id.append(mode);
    push_char(&mut id, '-');
    push_char(&mut id, 'n');
    push_decimal(&mut id, batch_size as u64);
    assert(id@ =~= zkvm_run_id_text(base@, prover@, scheme@, mode@, batch_size));
    id
}

/// The scheme record of a RISC Zero workload.
pub fn risc0_scheme_record(def: &risc0_host::SchemeDef) -> (r: Scheme)
    ensures
        r.name@ == def.name@,
        r.family == def.family,
        r.spec@ == def.spec@,
        r.crate_name@ == def.crate_name@,
        r.crate_version@ == def.crate_version@,
        r.hash_primitive@ == def.hash_primitive@,
        r.conformant == def.conformant,
        !r.prerelease,
{
    Scheme {
        name: def.name.to_owned(),
        family: def.family,
        spec: def.spec.to_owned(),
        crate_name: def.crate_name.to_owned(),
        crate_version: def.crate_version.to_owned(),
        hash_primitive: def.hash_primitive.to_owned(),
        conformant: def.conformant,
        prerelease: false,
    }
}

/// The scheme record of an SP1 workload; every SP1 guest build here is
/// standards conformant.
pub fn sp1_scheme_record(def: &sp1_host::SchemeDef) -> (r: Scheme)
    ensures
        r.name@ == def.name@,
        r.family == def.family,
        r.spec@ == def.spec@,
        r.crate_name@ == def.crate_name@,
        r.crate_version@ == def.crate_version@,
        r.hash_primitive@ == def.hash_primitive@,
        r.conformant,
        !r.prerelease,
{
    Scheme {
        name: def.name.to_owned(),
        family: def.family,
        spec: def.spec.to_owned(),
        crate_name: def.crate_name.to_owned(),
        crate_version: def.crate_version.to_owned(),
        hash_primitive: def.hash_primitive.to_owned(),
        conformant: true,
        prerelease: false,
    }
}

/// The prover record of a RISC Zero workload: RV32IM, composite receipts
/// when proving, and the documented 96-bit claimed security level.
pub fn risc0_prover_record(
    version: &str,
    backend: &str,
    proving: bool,
    segment_limit_po2: Option<u32>,
    def: &risc0_host::SchemeDef,
    precompile_assert_passed: bool,
) -> (r: Prover)
    ensures
        r.name@ == "risc0"@,
        r.version@ == version@,
        r.isa@ == "riscv32im"@,
        r.backend@ == backend@,
        r.proof_mode@ == (if proving { "composite"@ } else { "execute"@ }),
        r.security_bits.value == Some(96u32),
        r.security_bits.kind == SecurityKind::Claimed,
        r.security_bits.source@ == "https://dev.risczero.com/api/security-model, accessed 2026-07-23"@,
        r.segment_limit_po2 == segment_limit_po2,
        r.precompiles_used@.map_values(|s: String| s@) == def@.precompiles,
        r.precompile_assert_passed == precompile_assert_passed,
{
    Prover {
        name: "risc0".to_owned(),
        version: version.to_owned(),
        isa: "riscv32im".to_owned(),
        backend: backend.to_owned(),
        proof_mode: (if proving { "composite" } else { "execute" }).to_owned(),
        security_bits: SecurityBits {
            value: Some(96),
            kind: SecurityKind::Claimed,
            source: "https://dev.risczero.com/api/security-model, accessed 2026-07-23".to_owned(),
        },
        segment_limit_po2,
        precompiles_used: owned_texts(&def.precompiles),
        precompile_assert_passed,
    }
}

/// The prover record of an SP1 workload: version 6.3.1, RV64IM, no documented
/// soundness figure, no precompiles.
pub fn sp1_prover_record(backend: &str, proving: bool) -> (r: Prover)
    ensures
        r.name@ == "sp1"@,
        r.version@ == "6.3.1"@,
        r.isa@ == "riscv64im"@,
        r.backend@ == backend@,
        r.proof_mode@ == (if proving { "core"@ } else { "execute"@ }),
        r.security_bits.value is None,
        r.security_bits.kind == SecurityKind::Unknown,
        r.security_bits.source@ == "SP1 does not publish a single conjectured soundness figure for all modes"@,
        r.segment_limit_po2 is None,
        r.precompiles_used@.len() == 0,
        !r.precompile_assert_passed,
{
    Prover {
        name: "sp1".to_owned(),
        version: "6.3.1".to_owned(),
        isa: "riscv64im".to_owned(),
        backend: backend.to_owned(),
        proof_mode: (if proving { "core" } else { "execute" }).to_owned(),
        security_bits: SecurityBits {
            value: None,
            kind: SecurityKind::Unknown,
            source: "SP1 does not publish a single conjectured soundness figure for all modes".to_owned(),
        },
        segment_limit_po2: None,
        precompiles_used: Vec::new(),
        precompile_assert_passed: false,
    }
}

/// A flat batch of `n` signatures.
pub fn flat_batch(n: u32) -> (r: Batch)
    ensures
        r == (Batch { n, topology: Topology::Flat, arity: None }),
{
    Batch { n, topology: Topology::Flat, arity: None }
}

} // verus!
