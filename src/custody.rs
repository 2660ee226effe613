//! Seeds of the pool's vault signer.
//!
//! The vaults are owned by the pool's configuration address, which the
//! runtime derives from the program's identity and these seeds. Anyone can
//! recompute the seeds; only the owning program can sign with them.
use vstd::prelude::*;

use crate::state::Config;

verus! {

/// Domain tag of the configuration address: the bytes of `config`.
pub open spec fn config_tag() -> Seq<u8> {
    seq![99u8, 111u8, 110u8, 102u8, 105u8, 103u8]
}

/// `v` shifted right by `i` whole bytes.
pub open spec fn shift_bytes(v: nat, i: nat) -> nat
    decreases i,
{
    if i == 0 {
        v
    } else {
        shift_bytes(v, (i - 1) as nat) / 256
    }
}

/// The eight bytes of `v`, least significant first.
pub open spec fn le_bytes(v: u64) -> Seq<u8> {
    Seq::new(8, |i: int| (shift_bytes(v as nat, i as nat) % 256) as u8)
}

/// The seeds the vault signer is derived from: the domain tag, the pool's
/// seed in little-endian order, and the bump.
pub open spec fn vault_seeds(config: Config) -> Seq<Seq<u8>> {
    seq![config_tag(), le_bytes(config.seed), seq![config.config_bump]]
}

/// The little-endian bytes of a `u64`.
pub fn u64_le_bytes(v: u64) -> (r: Vec<u8>)
    ensures
        r@ == le_bytes(v),
{
    let mut bytes: Vec<u8> = Vec::new();
    let mut rest: u64 = v;
    let mut i: usize = 0;
    while i < 8
        invariant
            i <= 8,
            bytes@.len() == i,
            rest as nat == shift_bytes(v as nat, i as nat),
            forall|j: int| 0 <= j < i ==> bytes@[j] == le_bytes(v)[j],
        decreases 8 - i,
    {
        bytes.push((rest % 256) as u8);
        rest = rest / 256;
        i = i + 1;
    }
    assert(bytes@ =~= le_bytes(v));
    bytes
}

/// The seeds with which the program signs transfers out of the pool's
/// vaults.
pub fn sign_as_vault(config: &Config) -> (r: Vec<Vec<u8>>)
    ensures
        r@.len() == 3,
        forall|i: int| 0 <= i < 3 ==> #[trigger] r@[i]@ == vault_seeds(*config)[i],
{
    let tag: Vec<u8> = vec![99u8, 111u8, 110u8, 102u8, 105u8, 103u8];
    let seed: Vec<u8> = u64_le_bytes(config.seed);
    let bump: Vec<u8> = vec![config.config_bump];
    assert(tag@ =~= config_tag());
    assert(bump@ =~= seq![config.config_bump]);
    let seeds: Vec<Vec<u8>> = vec![tag, seed, bump];
    seeds
}

} // verus!
