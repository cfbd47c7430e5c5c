//! Delegate address derivation.
//!
//! Supply-changing calls into the external ledger module are authenticated not
//! by the administrator's own key but by a program-controlled signing
//! delegate. The delegate's address and its proof value ("bump") are a pure
//! function of the administrator's identity, a fixed label and this program's
//! own identity; they are never stored, only recomputed, so they can never
//! drift from the configuration record that governs them.

use crate::identity::Identity;
use vstd::prelude::*;

verus! {

/// What the platform's address-derivation rule returns for the given seed
/// bytes (a label and an administrator identity) under the given program
/// identity: a derived address with its proof value, or nothing when no proof
/// value in the searched range yields a valid address.
pub uninterp spec fn derived_delegate(label: Seq<u8>, authority: Seq<u8>, program: Seq<u8>) -> Option<
    (Seq<u8>, u8),
>;

/// The fixed label under which signing delegates are derived: the bytes of
/// `"authority"`.
pub open spec fn spec_authority_label() -> Seq<u8> {
    seq![97u8, 117u8, 116u8, 104u8, 111u8, 114u8, 105u8, 116u8, 121u8]
}

/// This program's own identity, under which all its addresses are derived.
pub open spec fn spec_program_id() -> Seq<u8> {
    seq![
        220u8, 158u8, 177u8, 192u8, 111u8, 122u8, 212u8, 101u8, 231u8, 46u8, 10u8, 111u8, 28u8,
        111u8, 140u8, 138u8, 226u8, 21u8, 52u8, 214u8, 125u8, 169u8, 227u8, 27u8, 191u8, 130u8,
        85u8, 244u8, 59u8, 132u8, 91u8, 81u8,
    ]
}

/// The signing delegate for an administrator identity: the derived address and
/// proof value under the fixed label and this program's identity.
pub open spec fn delegate_of(authority: Seq<u8>) -> Option<(Seq<u8>, u8)> {
    derived_delegate(spec_authority_label(), authority, spec_program_id())
}

/// The fixed label as bytes.
pub fn authority_label() -> (v: Vec<u8>)
    ensures
        v@ == spec_authority_label(),
{
    let mut v: Vec<u8> = Vec::new();
    v.push(97u8);
    v.push(117u8);
    v.push(116u8);
    v.push(104u8);
    v.push(111u8);
    v.push(114u8);
    v.push(105u8);
    v.push(116u8);
    v.push(121u8);
    proof {
        assert(v@ =~= spec_authority_label());
    }
    v
}

/// This program's own identity.
pub fn program_id() -> (r: Identity)
    ensures
        r@ == spec_program_id(),
{
    let r = Identity {
        bytes: [
            220u8, 158u8, 177u8, 192u8, 111u8, 122u8, 212u8, 101u8, 231u8, 46u8, 10u8, 111u8,
            28u8, 111u8, 140u8, 138u8, 226u8, 21u8, 52u8, 214u8, 125u8, 169u8, 227u8, 27u8,
            191u8, 130u8, 85u8, 244u8, 59u8, 132u8, 91u8, 81u8,
        ],
    };
    proof {
        assert(r@ =~= spec_program_id());
    }
    r
}

/// Relies on `Pubkey::try_find_program_address` (the `anchor_lang` re-export
/// of `solana_pubkey`): the returned address and bump are a deterministic
/// function of the seed bytes and the program identity alone, and `None`
/// comes back only when no bump in the searched range yields a valid address.
#[verifier::external_body]
fn try_find_delegate(label: &Vec<u8>, authority: &Identity, program: &Identity) -> (r: Option<
    (Identity, u8),
>)
    ensures
        (match derived_delegate(label@, authority@, program@) {
            Some(d) => r matches Some(p) && p.0@ == d.0 && p.1 == d.1,
            None => r is None,
        }),
{
    let program_key = anchor_lang::prelude::Pubkey::new_from_array(program.bytes);
    let seeds: [&[u8]; 2] = [label.as_slice(), authority.bytes.as_slice()];
    match anchor_lang::prelude::Pubkey::try_find_program_address(&seeds, &program_key) {
        Some((address, bump)) => Some((Identity { bytes: address.to_bytes() }, bump)),
        None => None,
    }
}

/// What the derivation contract admits as a result for an administrator
/// identity: exactly the address and proof value of `delegate_of`, or nothing
/// when the rule yields none.
pub open spec fn derivation_post(authority: Identity, r: Option<(Identity, u8)>) -> bool {
    match delegate_of(authority@) {
        Some(d) => r matches Some(p) && p.0@ == d.0 && p.1 == d.1,
        None => r is None,
    }
}

/// Compute the signing delegate for an administrator identity.
///
/// Deterministic: the result is fixed by `delegate_of` over the identity's
/// bytes alone, so two calls on identical inputs yield bit-identical addresses
/// and proof values. A `None` result means the derivation rule found no valid
/// proof value, which callers must surface as a fatal configuration error, not
/// retry with different inputs.
pub fn derive_delegate(authority: &Identity) -> (r: Option<(Identity, u8)>)
    ensures
        derivation_post(*authority, r),
{
    let label = authority_label();
    let program = program_id();
    try_find_delegate(&label, authority, &program)
}

/// Law: delegate derivation is deterministic. Any two results the derivation
/// contract admits for equal administrator identities are bit-identical in
/// both address and proof value.
pub proof fn lemma_derivation_determinism(
    a1: Identity,
    a2: Identity,
    r1: Option<(Identity, u8)>,
    r2: Option<(Identity, u8)>,
)
    requires
        a1@ == a2@,
        derivation_post(a1, r1),
        derivation_post(a2, r2),
    ensures
        (match (r1, r2) {
            (Some(p1), Some(p2)) => p1.0@ == p2.0@ && p1.1 == p2.1,
            (None, None) => true,
            _ => false,
        }),
{
    assert(delegate_of(a1@) == delegate_of(a2@));
    match delegate_of(a1@) {
        Some(d) => {
            assert(r1 matches Some(p) && p.0@ == d.0 && p.1 == d.1);
            assert(r2 matches Some(p) && p.0@ == d.0 && p.1 == d.1);
        },
        None => {
            assert(r1 is None && r2 is None);
        },
    }
}

} // verus!
