//! Ledger addresses and the derivation of program-controlled addresses.
use vstd::prelude::*;

verus! {

/// Width in bytes of an address.
pub const ADDRESS_BYTES: usize = 32;

/// A 32-byte ledger address (an account's identity, or a program's).
#[derive(Clone, Copy, Debug, Eq)]
pub struct Address {
    pub bytes: [u8; 32],
}

impl View for Address {
    type V = Seq<u8>;

    open spec fn view(&self) -> Seq<u8> {
        self.bytes@
    }
}

impl PartialEq for Address {
    fn eq(&self, other: &Address) -> (r: bool) {
        let mut i: usize = 0;
        while i < ADDRESS_BYTES
            invariant
                i <= ADDRESS_BYTES,
                self@.len() == 32,
                other@.len() == 32,
                forall|j: int| 0 <= j < i ==> self@[j] == other@[j],
            decreases ADDRESS_BYTES - i,
        {
            if self.bytes[i] != other.bytes[i] {
                return false;
            }
            i += 1;
        }
        proof {
            assert(self@ =~= other@);
        }
        true
    }
}

impl vstd::std_specs::cmp::PartialEqSpecImpl for Address {
    open spec fn obeys_eq_spec() -> bool {
        true
    }

    open spec fn eq_spec(&self, other: &Address) -> bool {
        self@ == other@
    }
}

impl Address {
    /// The address with the given bytes.
    pub fn new(bytes: [u8; 32]) -> (r: Address)
        ensures
            r@ == bytes@,
    {
        Address { bytes }
    }

    /// The address's bytes, in order, as a vector.
    pub fn to_vec(&self) -> (r: Vec<u8>)
        ensures
            r@ == self@,
    {
        let mut r: Vec<u8> = Vec::new();
        let mut i: usize = 0;
        while i < ADDRESS_BYTES
            invariant
                i <= ADDRESS_BYTES,
                self@.len() == 32,
                r@ == self@.subrange(0, i as int),
            decreases ADDRESS_BYTES - i,
        {
            r.push(self.bytes[i]);
            i += 1;
        }
        proof {
            assert(r@ =~= self@);
        }
        r
    }
}

/// The view of an optional address.
pub open spec fn opt_view(a: Option<Address>) -> Option<Seq<u8>> {
    match a {
        Some(x) => Some(x@),
        None => None,
    }
}

/// The address that the ledger derives for a program from a list of seeds, or
/// `None` where the seeds are refused or the hash lands on the curve (an
/// address that some private key could sign for).
pub uninterp spec fn program_address(seeds: Seq<Seq<u8>>, program_id: Seq<u8>) -> Option<Seq<u8>>;

/// The views of a list of seeds.
pub open spec fn seeds_view(seeds: Seq<Vec<u8>>) -> Seq<Seq<u8>> {
    seeds.map_values(|s: Vec<u8>| s@)
}

/// Relies on solana_program's `Pubkey::create_program_address`: hashes the
/// seeds and the program id, and returns the result where it lies off the
/// curve; a function of its arguments alone.
#[verifier::external_body]
fn create_program_address(seeds: &Vec<Vec<u8>>, program_id: &Address) -> (r: Option<Address>)
    ensures
        opt_view(r) == program_address(seeds_view(seeds@), program_id@),
{
    let s: Vec<&[u8]> = seeds.iter().map(|v| v.as_slice()).collect();
    let pid = solana_program::pubkey::Pubkey::new_from_array(program_id.bytes);
    solana_program::pubkey::Pubkey::create_program_address(&s, &pid).ok().map(
        |k| Address { bytes: k.to_bytes() },
    )
}

/// The fixed label that starts every vault's seed list: the bytes of "vault".
pub open spec fn vault_label() -> Seq<u8> {
    seq![118u8, 97u8, 117u8, 108u8, 116u8]
}

/// The seeds of the vault of `owner` under disambiguation byte `bump`.
pub open spec fn vault_seeds(owner: Seq<u8>, bump: u8) -> Seq<Seq<u8>> {
    seq![vault_label(), owner, seq![bump]]
}

/// The vault address of `owner` under `bump` for program `program_id`.
pub open spec fn vault_address(program_id: Seq<u8>, owner: Seq<u8>, bump: u8) -> Option<Seq<u8>> {
    program_address(vault_seeds(owner, bump), program_id)
}

/// The seeds of the vault of `owner` under `bump`, as the host is handed them
/// when the program signs for the vault.
pub fn vault_seed_list(owner: &Address, bump: u8) -> (r: Vec<Vec<u8>>)
    ensures
        seeds_view(r@) == vault_seeds(owner@, bump),
{
    let label: Vec<u8> = vec![118u8, 97u8, 117u8, 108u8, 116u8];
    let bump_seed: Vec<u8> = vec![bump];
    let seeds: Vec<Vec<u8>> = vec![label, owner.to_vec(), bump_seed];
    proof {
        assert(label@ =~= vault_label());
        assert(bump_seed@ =~= seq![bump]);
        assert(seeds_view(seeds@)[0] == vault_label());
        assert(seeds_view(seeds@)[1] == owner@);
        assert(seeds_view(seeds@)[2] == seq![bump]);
        assert(seeds_view(seeds@) =~= vault_seeds(owner@, bump));
    }
    seeds
}

/// Derives the address of the vault that `program_id` keeps for `owner`, with
/// disambiguation byte `bump`; `None` where that seed list yields no
/// program-controlled address.
pub fn derive_vault_address(program_id: &Address, owner: &Address, bump: u8) -> (r: Option<Address>)
    ensures
        opt_view(r) == vault_address(program_id@, owner@, bump),
{
    let seeds = vault_seed_list(owner, bump);
    create_program_address(&seeds, program_id)
}

/// Derivation is deterministic: two derivations from the same program, owner
/// and bump give the same address, or both give none.
pub proof fn lemma_derive_deterministic(
    program_id: Address,
    owner: Address,
    bump: u8,
    r1: Option<Address>,
    r2: Option<Address>,
)
    requires
        opt_view(r1) == vault_address(program_id@, owner@, bump),
        opt_view(r2) == vault_address(program_id@, owner@, bump),
    ensures
        opt_view(r1) == opt_view(r2),
        r1 is Some <==> r2 is Some,
{
}

} // verus!
