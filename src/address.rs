use vstd::prelude::*;

use crate::pubkey::Pubkey;
use crate::state::VaultAccount;

verus! {

/// The program address that `seeds` give under `program_id`, where one exists.
pub uninterp spec fn created_address(seeds: Seq<Seq<u8>>, program_id: Seq<u8>) -> Option<Seq<u8>>;

/// The first program address, with its bump seed, found by trying bump seeds
/// from the highest down.
pub uninterp spec fn found_address(seeds: Seq<Seq<u8>>, program_id: Seq<u8>) -> Option<(Seq<u8>, u8)>;

/// The namespace tag of vault addresses, `b"vault"`.
pub open spec fn vault_tag() -> Seq<u8> {
    seq![118u8, 97u8, 117u8, 108u8, 116u8]
}

/// The namespace tag of record addresses, `b"tx_record"`.
pub open spec fn tx_record_tag() -> Seq<u8> {
    seq![116u8, 120u8, 95u8, 114u8, 101u8, 99u8, 111u8, 114u8, 100u8]
}

/// The `k` low bytes of `n`, least significant first.
pub open spec fn le_bytes(n: nat, k: nat) -> Seq<u8>
    decreases k,
{
    if k == 0 {
        seq![]
    } else {
        seq![(n % 256) as u8] + le_bytes(n / 256, (k - 1) as nat)
    }
}

pub open spec fn spec_vault_seeds(authority: Seq<u8>) -> Seq<Seq<u8>> {
    seq![vault_tag(), authority]
}

pub open spec fn spec_tx_record_seeds(vault: Seq<u8>, index: u64) -> Seq<Seq<u8>> {
    seq![tx_record_tag(), vault, le_bytes(index as nat, 8)]
}

/// The eight bytes of `n`, least significant first.
pub fn le_bytes_of(n: u64) -> (r: Vec<u8>)
    ensures
        r@ == le_bytes(n as nat, 8),
{
    let mut out: Vec<u8> = Vec::new();
    let mut x: u64 = n;
    let mut i: usize = 0;
    while i < 8
        invariant
            i <= 8,
            out@ + le_bytes(x as nat, (8 - i) as nat) == le_bytes(n as nat, 8),
        decreases 8 - i,
    {
        let ghost prev = out@;
        let b: u8 = (x % 256) as u8;
        out.push(b);
        assert(le_bytes(x as nat, (8 - i) as nat) == seq![b] + le_bytes((x / 256) as nat, (8 - i - 1) as nat));
        assert(prev + (seq![b] + le_bytes((x / 256) as nat, (8 - i - 1) as nat)) =~= out@ + le_bytes((x / 256) as nat, (8 - i - 1) as nat));
        x = x / 256;
        i = i + 1;
    }
    assert(out@ =~= out@ + le_bytes(x as nat, 0));
    out
}

fn vault_tag_bytes() -> (r: Vec<u8>)
    ensures
        r@ == vault_tag(),
{
    let r: Vec<u8> = vec![118u8, 97u8, 117u8, 108u8, 116u8];
    assert(r@ =~= vault_tag());
    r
}

fn tx_record_tag_bytes() -> (r: Vec<u8>)
    ensures
        r@ == tx_record_tag(),
{
    let r: Vec<u8> = vec![116u8, 120u8, 95u8, 114u8, 101u8, 99u8, 111u8, 114u8, 100u8];
    assert(r@ =~= tx_record_tag());
    r
}

proof fn lemma_bytes_deep_view(v: &Vec<u8>)
    ensures
        v.deep_view() == v@,
{
    assert(v.deep_view() =~= v@);
}

/// The seeds of the vault address of `authority`: the tag and the key.
pub fn vault_seeds(authority: &Pubkey) -> (r: Vec<Vec<u8>>)
    ensures
        r.deep_view() == spec_vault_seeds(authority@),
{
    let tag = vault_tag_bytes();
    let key = authority.to_vec();
    proof {
        lemma_bytes_deep_view(&tag);
        lemma_bytes_deep_view(&key);
    }
    let mut r: Vec<Vec<u8>> = Vec::new();
    r.push(tag);
    r.push(key);
    assert(r.deep_view() =~= spec_vault_seeds(authority@));
    r
}

/// The seeds of the address of the record that vault `vault` logs when its
/// count stands at `index`.
pub fn tx_record_seeds(vault: &Pubkey, index: u64) -> (r: Vec<Vec<u8>>)
    ensures
        r.deep_view() == spec_tx_record_seeds(vault@, index),
{
    let tag = tx_record_tag_bytes();
    let key = vault.to_vec();
    let count = le_bytes_of(index);
    proof {
        lemma_bytes_deep_view(&tag);
        lemma_bytes_deep_view(&key);
        lemma_bytes_deep_view(&count);
    }
    let mut r: Vec<Vec<u8>> = Vec::new();
    r.push(tag);
    r.push(key);
    r.push(count);
    assert(r.deep_view() =~= spec_tx_record_seeds(vault@, index));
    r
}

/// Relies on `Pubkey::create_program_address` of solana-program, as
/// anchor_lang re-exports it: the address that `seeds` give under
/// `program_id`, or an error.
#[verifier::external_body]
fn create_program_address(seeds: &Vec<Vec<u8>>, program_id: &Pubkey) -> (r: Option<Pubkey>)
    ensures
        created_address(seeds.deep_view(), program_id@) == (match r {
            Some(k) => Some(k@),
            None => None::<Seq<u8>>,
        }),
{
    let s: Vec<&[u8]> = seeds.iter().map(|v| v.as_slice()).collect();
    let id = anchor_lang::prelude::Pubkey::new_from_array(program_id.bytes);
    match anchor_lang::prelude::Pubkey::create_program_address(&s, &id) {
        Ok(k) => Some(Pubkey::new_from_array(k.to_bytes())),
        Err(_) => None,
    }
}

/// Relies on `Pubkey::try_find_program_address` of solana-program, as
/// anchor_lang re-exports it: it tries bump seeds from 255 down to 1 and
/// returns the first address that `create_program_address` gives for the
/// seeds followed by the bump, with that bump.
#[verifier::external_body]
fn try_find_program_address(seeds: &Vec<Vec<u8>>, program_id: &Pubkey) -> (r: Option<(Pubkey, u8)>)
    ensures
        found_address(seeds.deep_view(), program_id@) == (match r {
            Some(p) => Some((p.0@, p.1)),
            None => None::<(Seq<u8>, u8)>,
        }),
        r matches Some(p) ==> p.1 >= 1 && created_address(
            seeds.deep_view().push(seq![p.1]),
            program_id@,
        ) == Some(p.0@),
{
    let s: Vec<&[u8]> = seeds.iter().map(|v| v.as_slice()).collect();
    let id = anchor_lang::prelude::Pubkey::new_from_array(program_id.bytes);
    match anchor_lang::prelude::Pubkey::try_find_program_address(&s, &id) {
        Some((k, bump)) => Some((Pubkey::new_from_array(k.to_bytes()), bump)),
        None => None,
    }
}

/// The address and bump seed of the vault of `authority`.
pub fn find_vault_address(authority: &Pubkey, program_id: &Pubkey) -> (r: Option<(Pubkey, u8)>)
    ensures
        found_address(spec_vault_seeds(authority@), program_id@) == (match r {
            Some(p) => Some((p.0@, p.1)),
            None => None::<(Seq<u8>, u8)>,
        }),
        r matches Some(p) ==> created_address(
            spec_vault_seeds(authority@).push(seq![p.1]),
            program_id@,
        ) == Some(p.0@),
{
    let seeds = vault_seeds(authority);
    try_find_program_address(&seeds, program_id)
}

/// The address and bump seed of the record that vault `vault` logs when its
/// count stands at `index`.
pub fn find_tx_record_address(vault: &Pubkey, index: u64, program_id: &Pubkey) -> (r: Option<
    (Pubkey, u8),
>)
    ensures
        found_address(spec_tx_record_seeds(vault@, index), program_id@) == (match r {
            Some(p) => Some((p.0@, p.1)),
            None => None::<(Seq<u8>, u8)>,
        }),
{
    let seeds = tx_record_seeds(vault, index);
    try_find_program_address(&seeds, program_id)
}

/// Whether `key` is the vault address of `authority` re-derived with `bump`.
pub fn vault_address_matches(key: &Pubkey, authority: &Pubkey, bump: u8, program_id: &Pubkey) -> (r:
    bool)
    ensures
        r == (created_address(spec_vault_seeds(authority@).push(seq![bump]), program_id@) == Some(
            key@,
        )),
{
    let mut seeds = vault_seeds(authority);
    let mut b: Vec<u8> = Vec::new();
    b.push(bump);
    proof {
        lemma_bytes_deep_view(&b);
        assert(b@ =~= seq![bump]);
    }
    let ghost before = seeds.deep_view();
    seeds.push(b);
    assert(seeds.deep_view() =~= before.push(seq![bump]));
    match create_program_address(&seeds, program_id) {
        Some(k) => k == *key,
        None => false,
    }
}

/// Whether the account stands at the address its own record re-derives: the
/// vault seeds of its authority with its stored bump.
pub fn check_vault_address(acct: &VaultAccount, program_id: &Pubkey) -> (r: bool)
    ensures
        r == (created_address(
            spec_vault_seeds(acct.data.authority@).push(seq![acct.data.bump]),
            program_id@,
        ) == Some(acct.key@)),
{
    vault_address_matches(&acct.key, &acct.data.authority, acct.data.bump, program_id)
}

} // verus!
