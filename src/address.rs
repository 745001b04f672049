//! Program-derived addresses: a fixed domain tag, a parent identity and a
//! one-byte bump, hashed with the program's id.

use vstd::prelude::*;

use anchor_lang::prelude::Pubkey;

verus! {

/// What `Pubkey::try_find_program_address` returns for these seeds and program.
pub uninterp spec fn found_program_address(seeds: Seq<Seq<u8>>, program: Seq<u8>) -> Option<(Seq<u8>, u8)>;

/// What `Pubkey::create_program_address` returns for these seeds and program,
/// with any error read as `None`.
pub uninterp spec fn created_program_address(seeds: Seq<Seq<u8>>, program: Seq<u8>) -> Option<Seq<u8>>;

/// Domain tag of the vault-state address: the bytes of "state".
pub open spec fn state_tag() -> Seq<u8> {
    seq![115u8, 116u8, 97u8, 116u8, 101u8]
}

/// Domain tag of the vault address: the bytes of "vault".
pub open spec fn vault_tag() -> Seq<u8> {
    seq![118u8, 97u8, 117u8, 108u8, 116u8]
}

/// The seeds that a search for a bump starts from.
pub open spec fn search_seeds(tag: Seq<u8>, parent: Seq<u8>) -> Seq<Seq<u8>> {
    seq![tag, parent]
}

/// The seeds of a derivation with its bump appended.
pub open spec fn bumped_seeds(tag: Seq<u8>, parent: Seq<u8>, bump: u8) -> Seq<Seq<u8>> {
    seq![tag, parent, seq![bump]]
}

/// The address of `tag` under `parent`, and its bump, as the bump search finds them.
pub open spec fn derived(tag: Seq<u8>, parent: Seq<u8>, program: Seq<u8>) -> Option<(Seq<u8>, u8)> {
    found_program_address(search_seeds(tag, parent), program)
}

/// Whether `bump` proves that `address` derives from `tag` and `parent`.
pub open spec fn witnesses(tag: Seq<u8>, parent: Seq<u8>, bump: u8, program: Seq<u8>, address: Seq<u8>) -> bool {
    created_program_address(bumped_seeds(tag, parent, bump), program) == Some(address)
}

/// Relies on `Pubkey::try_find_program_address`: it searches the bumps from 255
/// down and returns the first address that `create_program_address` accepts,
/// with that bump.
#[verifier::external_body]
fn try_find_program_address(seeds: &Vec<Vec<u8>>, program: &[u8; 32]) -> (r: Option<([u8; 32], u8)>)
    ensures
        match r {
            Some((k, b)) => {
                &&& found_program_address(seeds.deep_view(), program@) == Some((k@, b))
                &&& created_program_address(seeds.deep_view().push(seq![b]), program@) == Some(k@)
            },
            None => found_program_address(seeds.deep_view(), program@) is None,
        },
{
    let s: Vec<&[u8]> = seeds.iter().map(|v| v.as_slice()).collect();
    Pubkey::try_find_program_address(&s, &Pubkey::new_from_array(*program)).map(|(k, b)| (k.to_bytes(), b))
}

/// Relies on `Pubkey::create_program_address`: the address hashed from these
/// seeds and program, or an error where it lies on the curve or a seed is too long.
#[verifier::external_body]
fn create_program_address(seeds: &Vec<Vec<u8>>, program: &[u8; 32]) -> (r: Option<[u8; 32]>)
    ensures
        match r {
            Some(k) => created_program_address(seeds.deep_view(), program@) == Some(k@),
            None => created_program_address(seeds.deep_view(), program@) is None,
        },
{
    let s: Vec<&[u8]> = seeds.iter().map(|v| v.as_slice()).collect();
    Pubkey::create_program_address(&s, &Pubkey::new_from_array(*program)).ok().map(|k| k.to_bytes())
}

/// The bytes of "state".
pub fn state_tag_bytes() -> (r: Vec<u8>)
    ensures
        r@ == state_tag(),
{
    let r: Vec<u8> = vec![115u8, 116u8, 97u8, 116u8, 101u8];
    assert(r@ =~= state_tag());
    r
}

/// The bytes of "vault".
pub fn vault_tag_bytes() -> (r: Vec<u8>)
    ensures
        r@ == vault_tag(),
{
    let r: Vec<u8> = vec![118u8, 97u8, 117u8, 108u8, 116u8];
    assert(r@ =~= vault_tag());
    r
}

/// The 32 bytes of a key, as a vector.
pub fn key_bytes(key: &[u8; 32]) -> (r: Vec<u8>)
    ensures
        r@ == key@,
{
    let mut r: Vec<u8> = Vec::new();
    let mut i: usize = 0;
    while i < 32
        invariant
            i <= 32,
            key@.len() == 32,
            r@ == key@.subrange(0, i as int),
        decreases 32 - i,
    {
        r.push(key[i]);
        i = i + 1;
        assert(r@ =~= key@.subrange(0, i as int));
    }
    assert(key@.subrange(0, 32) =~= key@);
    r
}

/// Finds the address of `tag` under `parent` and its bump.
pub fn derive_address(tag: &Vec<u8>, parent: &[u8; 32], program: &[u8; 32]) -> (r: Option<([u8; 32], u8)>)
    ensures
        match r {
            Some((k, b)) => {
                &&& derived(tag@, parent@, program@) == Some((k@, b))
                &&& witnesses(tag@, parent@, b, program@, k@)
            },
            None => derived(tag@, parent@, program@) is None,
        },
{
    let mut seeds: Vec<Vec<u8>> = Vec::new();
    let t = tag.clone();
    assert(t@ =~= tag@);
    let p = key_bytes(parent);
    assert(t.deep_view() =~= tag@);
    assert(p.deep_view() =~= parent@);
    seeds.push(t);
    seeds.push(p);
    assert(seeds.deep_view() =~= search_seeds(tag@, parent@));
    let r = try_find_program_address(&seeds, program);
    match r {
        Some((k, b)) => {
            assert(seeds.deep_view().push(seq![b]) =~= bumped_seeds(tag@, parent@, b));
        },
        None => {},
    }
    r
}

/// Whether `bump` proves that `address` derives from `tag` and `parent`.
pub fn check_witness(tag: &Vec<u8>, parent: &[u8; 32], bump: u8, program: &[u8; 32], address: &[u8; 32]) -> (r: bool)
    ensures
        r == witnesses(tag@, parent@, bump, program@, address@),
{
    let mut seeds: Vec<Vec<u8>> = Vec::new();
    let t = tag.clone();
    assert(t@ =~= tag@);
    let p = key_bytes(parent);
    let mut b: Vec<u8> = Vec::new();
    b.push(bump);
    assert(t.deep_view() =~= tag@);
    assert(p.deep_view() =~= parent@);
    assert(b.deep_view() =~= seq![bump]);
    seeds.push(t);
    seeds.push(p);
    seeds.push(b);
    assert(seeds.deep_view() =~= bumped_seeds(tag@, parent@, bump));
    match create_program_address(&seeds, program) {
        Some(k) => keys_equal(&k, address),
        None => false,
    }
}

/// Byte-wise equality of two keys.
pub fn keys_equal(a: &[u8; 32], b: &[u8; 32]) -> (r: bool)
    ensures
        r == (a@ == b@),
{
    let mut i: usize = 0;
    while i < 32
        invariant
            i <= 32,
            a@.len() == 32,
            b@.len() == 32,
            a@.subrange(0, i as int) == b@.subrange(0, i as int),
        decreases 32 - i,
    {
        if a[i] != b[i] {
            assert(a@[i as int] != b@[i as int]);
            return false;
        }
        assert(a@.subrange(0, i + 1) =~= a@.subrange(0, i as int).push(a@[i as int]));
        assert(b@.subrange(0, i + 1) =~= b@.subrange(0, i as int).push(b@[i as int]));
        i = i + 1;
    }
    assert(a@.subrange(0, 32) =~= a@);
    assert(b@.subrange(0, 32) =~= b@);
    true
}


/// A user's two addresses and their bumps.
#[derive(Clone, Copy, Debug)]
pub struct VaultAddresses {
    pub vault_state: [u8; 32],
    pub state_bump: u8,
    pub vault: [u8; 32],
    pub vault_bump: u8,
}

impl VaultAddresses {
    /// The addresses as byte sequences, with their bumps.
    pub open spec fn parts(self) -> (Seq<u8>, u8, Seq<u8>, u8) {
        (self.vault_state@, self.state_bump, self.vault@, self.vault_bump)
    }
}

/// The vault-state address from the user, then the vault address from the
/// vault-state address.
pub open spec fn vault_addresses(user: Seq<u8>, program: Seq<u8>) -> Option<(Seq<u8>, u8, Seq<u8>, u8)> {
    match derived(state_tag(), user, program) {
        None => None,
        Some((s, sb)) => match derived(vault_tag(), s, program) {
            None => None,
            Some((v, vb)) => Some((s, sb, v, vb)),
        },
    }
}

/// Derives a user's vault-state and vault addresses with their bumps.
pub fn find_vault_addresses(user: &[u8; 32], program: &[u8; 32]) -> (r: Option<VaultAddresses>)
    ensures
        match r {
            Some(x) => vault_addresses(user@, program@) == Some(x.parts()),
            None => vault_addresses(user@, program@) is None,
        },
{
    let state_tag = state_tag_bytes();
    match derive_address(&state_tag, user, program) {
        None => None,
        Some((s, sb)) => {
            let vault_tag = vault_tag_bytes();
            match derive_address(&vault_tag, &s, program) {
                None => None,
                Some((v, vb)) => Some(VaultAddresses { vault_state: s, state_bump: sb, vault: v, vault_bump: vb }),
            }
        },
    }
}

} // verus!
