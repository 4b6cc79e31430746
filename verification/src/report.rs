//! Rows of a native results file: one timing row per operation, and one
//! byte-accounting row per publication model.
use vstd::prelude::*;
use crate::schemes::Family;
use crate::schemes::SchemeMeasurement;
use crate::stats::Timing;
use crate::tx_format::TxModel;
use crate::tx_format::all_models;
use crate::tx_format::is_tx_size_of;
use crate::tx_format::model_name;
use crate::tx_format::sizes_fit;
use crate::tx_format::tx_sizes;

verus! {

/// One row of the results array. Native measurements carry no proof size and
/// no prover cycle count.
#[derive(Debug, Clone)]
pub struct ResultRow {
    pub scheme: String,
    pub family: Family,
    pub standard: String,
    pub implementation: String,
    pub operation: &'static str,
    pub batch_size: usize,
    pub median_ns: u64,
    pub p95_ns: u64,
    pub iterations: usize,
    pub min_ns: u64,
    pub max_ns: u64,
    pub mean_ns: u64,
    pub warmup_iterations: usize,
    pub sig_bytes: usize,
    pub pubkey_bytes: usize,
    pub proof_bytes: Option<usize>,
    pub prover_cycles: Option<u64>,
}

/// One byte-accounting row: a scheme under one publication model.
#[derive(Debug, Clone)]
pub struct TxSizeRow {
    pub scheme: String,
    pub model: &'static str,
    pub on_chain_bytes: usize,
    pub witness_bytes: usize,
    pub total_bytes: usize,
}

/// `row` reports operation `op` of measurement `m`, timed as `t`.
pub open spec fn is_row_of(row: ResultRow, m: SchemeMeasurement, op: Seq<char>, t: Timing) -> bool {
    &&& row.scheme@ == m.scheme@
    &&& row.family == m.family
    &&& row.standard@ == m.standard@
    &&& row.implementation@ == m.implementation@
    &&& row.operation@ == op
    &&& row.batch_size == 1
    &&& row.median_ns == t.median_ns
    &&& row.p95_ns == t.p95_ns
    &&& row.iterations == t.iterations
    &&& row.min_ns == t.min_ns
    &&& row.max_ns == t.max_ns
    &&& row.mean_ns == t.mean_ns
    &&& row.warmup_iterations == t.warmup_iterations
    &&& row.sig_bytes == m.sig_bytes
    &&& row.pubkey_bytes == m.pubkey_bytes
    &&& row.proof_bytes is None
    &&& row.prover_cycles is None
}

fn row(m: &SchemeMeasurement, operation: &'static str, t: &Timing) -> (r: ResultRow)
    ensures
        is_row_of(r, *m, operation@, *t),
{
    ResultRow {
        scheme: m.scheme.clone(),
        family: m.family,
        standard: m.standard.clone(),
        implementation: m.implementation.clone(),
        operation,
        batch_size: 1,
        median_ns: t.median_ns,
        p95_ns: t.p95_ns,
        iterations: t.iterations,
        min_ns: t.min_ns,
        max_ns: t.max_ns,
        mean_ns: t.mean_ns,
        warmup_iterations: t.warmup_iterations,
        sig_bytes: m.sig_bytes,
        pubkey_bytes: m.pubkey_bytes,
        proof_bytes: None,
        prover_cycles: None,
    }
}

/// The keygen, sign and verify rows of one measurement, in that order.
pub fn rows_for(m: &SchemeMeasurement) -> (r: Vec<ResultRow>)
    ensures
        r.len() == 3,
        is_row_of(r[0], *m, "keygen"@, m.keygen),
        is_row_of(r[1], *m, "sign"@, m.sign),
        is_row_of(r[2], *m, "verify"@, m.verify),
{
    let mut r: Vec<ResultRow> = Vec::new();
    r.push(row(m, "keygen", &m.keygen));
    r.push(row(m, "sign", &m.sign));
    r.push(row(m, "verify", &m.verify));
    r
}

/// The byte-accounting rows of one measurement, one per model in
/// `TxModel::ALL` order.
pub fn tx_rows_for(m: &SchemeMeasurement) -> (r: Vec<TxSizeRow>)
    requires
        sizes_fit(m.pubkey_bytes as int, m.sig_bytes as int),
    ensures
        r.len() == 3,
        forall|i: int| 0 <= i < 3 ==> {
            &&& (#[trigger] r[i]).scheme@ == m.scheme@
            &&& r[i].model@ == model_name(all_models()[i])
            &&& r[i].on_chain_bytes == crate::tx_format::on_chain_bytes(all_models()[i], m.pubkey_bytes as int, m.sig_bytes as int)
            &&& r[i].witness_bytes == crate::tx_format::witness_bytes(all_models()[i], m.pubkey_bytes as int, m.sig_bytes as int)
            &&& r[i].total_bytes == r[i].on_chain_bytes + r[i].witness_bytes
        },
{
    let sizes = tx_sizes(m.pubkey_bytes, m.sig_bytes);
    let mut r: Vec<TxSizeRow> = Vec::new();
    let mut i: usize = 0;
    while i < sizes.len()
        invariant
            sizes.len() == 3,
            i <= 3,
            r.len() == i,
            forall|k: int| 0 <= k < 3 ==> is_tx_size_of(#[trigger] sizes[k], all_models()[k], m.pubkey_bytes as int, m.sig_bytes as int),
            forall|k: int| 0 <= k < i ==> {
                &&& (#[trigger] r[k]).scheme@ == m.scheme@
                &&& r[k].model@ == model_name(all_models()[k])
                &&& r[k].on_chain_bytes == sizes[k].on_chain_bytes
                &&& r[k].witness_bytes == sizes[k].witness_bytes
                &&& r[k].total_bytes == sizes[k].total_bytes
            },
        decreases 3 - i,
    {
        let s = sizes[i];
        r.push(TxSizeRow {
            scheme: m.scheme.clone(),
            model: s.model.as_str(),
            on_chain_bytes: s.on_chain_bytes,
            witness_bytes: s.witness_bytes,
            total_bytes: s.total_bytes,
        });
        i = i + 1;
    }
    r
}

} // verus!
