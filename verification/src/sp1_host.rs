//! The SP1 lane: which schemes it measures and how each guest build is
//! described in the results file.
use vstd::prelude::*;
use crate::risc0_host::texts;
use crate::text::str_eq;
use crate::zkvm::Family;

verus! {

/// Static description of a scheme verified by an SP1 guest.
#[derive(Debug, Clone)]
pub struct SchemeDef {
    pub name: &'static str,
    pub family: Family,
    pub spec: &'static str,
    pub crate_name: &'static str,
    pub crate_version: &'static str,
    pub hash_primitive: &'static str,
    /// Extra disclosures beyond the shared ones.
    pub caveats: Vec<&'static str>,
}

/// The text content of a `SchemeDef`.
pub struct SchemeDefView {
    pub name: Seq<char>,
    pub family: Family,
    pub spec: Seq<char>,
    pub crate_name: Seq<char>,
    pub crate_version: Seq<char>,
    pub hash_primitive: Seq<char>,
    pub caveats: Seq<Seq<char>>,
}

impl View for SchemeDef {
    type V = SchemeDefView;

    open spec fn view(&self) -> SchemeDefView {
        SchemeDefView {
            name: self.name@,
            family: self.family,
            spec: self.spec@,
            crate_name: self.crate_name@,
            crate_version: self.crate_version@,
            hash_primitive: self.hash_primitive@,
            caveats: texts(self.caveats@),
        }
    }
}

/// The schemes this lane knows, by command-line name.
pub open spec fn is_known_scheme_text(scheme: Seq<char>) -> bool {
    ||| scheme == "ed25519"@
    ||| scheme == "falcon512"@
    ||| scheme == "mldsa44"@
    ||| scheme == "slhdsa128s"@
}

/// The description of scheme `scheme`, for a known scheme.
pub open spec fn scheme_def_text(scheme: Seq<char>) -> SchemeDefView {
    if scheme == "ed25519"@ {
        SchemeDefView {
            name: "ed25519"@,
            family: Family::Classical,
            spec: "RFC 8032 (classical, not post-quantum)"@,
            crate_name: "ed25519-dalek"@,
            crate_version: "2.1"@,
            hash_primitive: "SHA-512"@,
            caveats: seq!["stock ed25519-dalek: no curve25519 precompile, the honest worst case"@],
        }
    } else if scheme == "falcon512"@ {
        SchemeDefView {
            name: "falcon-512"@,
            family: Family::Lattice,
            spec: "NIST selected. FIPS 206 not published as of 2026-07-23."@,
            crate_name: "fn-dsa-vrfy"@,
            crate_version: "0.4.0"@,
            hash_primitive: "SHAKE-256"@,
            caveats: seq![
                "verification is integer-only; signing is done on the host"@,
                "no lattice or NTT precompile on this prover"@,
            ],
        }
    } else if scheme == "mldsa44"@ {
        SchemeDefView {
            name: "ml-dsa-44"@,
            family: Family::Lattice,
            spec: "NIST FIPS 204"@,
            crate_name: "fips204"@,
            crate_version: "0.4.6"@,
            hash_primitive: "SHAKE-256"@,
            caveats: seq![
                "stock: no SHAKE precompile reaches fips204, so SHAKE runs as plain RISC-V"@,
                "no lattice or NTT precompile on this prover"@,
            ],
        }
    } else {
        SchemeDefView {
            name: "slh-dsa-sha2-128s"@,
            family: Family::Hash,
            spec: "NIST FIPS 205"@,
            crate_name: "fips205"@,
            crate_version: "0.4.1"@,
            hash_primitive: "SHA-256"@,
            caveats: seq![
                "stock: no SHA-256 precompile is routed to fips205, so it runs as plain RISC-V"@,
                "hash-based: verification is dominated by SHA-256"@,
            ],
        }
    }
}

/// Whether `scheme` names a scheme this lane measures:
/// ed25519 | falcon512 | mldsa44 | slhdsa128s.
pub fn is_known_scheme(scheme: &str) -> (r: bool)
    ensures
        r == is_known_scheme_text(scheme@),
{
    str_eq(scheme, "ed25519") || str_eq(scheme, "falcon512") || str_eq(scheme, "mldsa44")
        || str_eq(scheme, "slhdsa128s")
}

/// The static description of a known scheme.
pub fn scheme_def(scheme: &str) -> (r: SchemeDef)
    requires
        is_known_scheme_text(scheme@),
    ensures
        r@ == scheme_def_text(scheme@),
{
    let r = if str_eq(scheme, "ed25519") {
        SchemeDef {
            name: "ed25519",
            family: Family::Classical,
            spec: "RFC 8032 (classical, not post-quantum)",
            crate_name: "ed25519-dalek",
            crate_version: "2.1",
            hash_primitive: "SHA-512",
            caveats: vec!["stock ed25519-dalek: no curve25519 precompile, the honest worst case"],
        }
    } else if str_eq(scheme, "falcon512") {
        SchemeDef {
            name: "falcon-512",
            family: Family::Lattice,
            spec: "NIST selected. FIPS 206 not published as of 2026-07-23.",
            crate_name: "fn-dsa-vrfy",
            crate_version: "0.4.0",
            hash_primitive: "SHAKE-256",
            caveats: vec![
                "verification is integer-only; signing is done on the host",
                "no lattice or NTT precompile on this prover",
            ],
        }
    } else if str_eq(scheme, "mldsa44") {
        SchemeDef {
            name: "ml-dsa-44",
            family: Family::Lattice,
            spec: "NIST FIPS 204",
            crate_name: "fips204",
            crate_version: "0.4.6",
            hash_primitive: "SHAKE-256",
            caveats: vec![
                "stock: no SHAKE precompile reaches fips204, so SHAKE runs as plain RISC-V",
                "no lattice or NTT precompile on this prover",
            ],
        }
    } else {
        SchemeDef {
            name: "slh-dsa-sha2-128s",
            family: Family::Hash,
            spec: "NIST FIPS 205",
            crate_name: "fips205",
            crate_version: "0.4.1",
            hash_primitive: "SHA-256",
            caveats: vec![
                "stock: no SHA-256 precompile is routed to fips205, so it runs as plain RISC-V",
                "hash-based: verification is dominated by SHA-256",
            ],
        }
    };
    assert(r@.caveats =~= scheme_def_text(scheme@).caveats);
    r
}

} // verus!
