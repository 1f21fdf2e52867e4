use vstd::bytes::{spec_u64_to_le_bytes, u64_to_le_bytes};
use vstd::prelude::*;
use vstd::std_specs::cmp::PartialEqSpecImpl;

verus! {

/// Seed tag of an agent record: the ASCII bytes of `agent`.
pub const AGENT_TAG: [u8; 5] = [97, 103, 101, 110, 116];

/// Seed tag of a client counter: the ASCII bytes of `client`.
pub const CLIENT_TAG: [u8; 6] = [99, 108, 105, 101, 110, 116];

/// Seed tag of a bounty: the ASCII bytes of `bounty`.
pub const BOUNTY_TAG: [u8; 6] = [98, 111, 117, 110, 116, 121];

/// Seed tag of a bounty's vault: the ASCII bytes of `vault`.
pub const VAULT_TAG: [u8; 5] = [118, 97, 117, 108, 116];

/// Seed tag of a bounty's review: the ASCII bytes of `review`.
pub const REVIEW_TAG: [u8; 6] = [114, 101, 118, 105, 101, 119];

/// Seed tag of the identity under which the ledger settles with the agent
/// registry: the ASCII bytes of `settlement`.
pub const SETTLEMENT_TAG: [u8; 10] = [115, 101, 116, 116, 108, 101, 109, 101, 110, 116];

/// An account or wallet identity: thirty-two opaque bytes.
#[derive(Clone, Copy, Debug, Eq)]
pub struct Pubkey {
    pub bytes: [u8; 32],
}

impl View for Pubkey {
    type V = Seq<u8>;

    open spec fn view(&self) -> Seq<u8> {
        self.bytes@
    }
}

impl PartialEq for Pubkey {
    fn eq(&self, other: &Pubkey) -> (r: bool) {
        let mut i: usize = 0;
        while i < 32
            invariant
                i <= 32,
                forall|j: int| 0 <= j < i ==> self.bytes[j] == other.bytes[j],
            decreases 32 - i,
        {
            if self.bytes[i] != other.bytes[i] {
                return false;
            }
            i += 1;
        }
        proof {
            assert(self.bytes =~= other.bytes);
        }
        true
    }
}

impl PartialEqSpecImpl for Pubkey {
    open spec fn obeys_eq_spec() -> bool {
        true
    }

    open spec fn eq_spec(&self, other: &Pubkey) -> bool {
        *self == *other
    }
}

impl Pubkey {
    /// The identity's bytes, in order.
    pub fn to_vec(&self) -> (v: Vec<u8>)
        ensures
            v@ == self@,
    {
        copy_bytes(&self.bytes)
    }
}

/// Two identities with the same bytes are the same identity.
pub proof fn lemma_pubkey_by_bytes(a: Pubkey, b: Pubkey)
    ensures
        (a@ == b@) == (a == b),
{
    if a@ == b@ {
        assert(a.bytes =~= b.bytes);
    }
}

/// The bytes of a fixed array, as a vector.
pub fn copy_bytes<const N: usize>(a: &[u8; N]) -> (v: Vec<u8>)
    ensures
        v@ == a@,
{
    let mut v: Vec<u8> = Vec::new();
    let mut i: usize = 0;
    while i < N
        invariant
            i <= N,
            v@ == a@.take(i as int),
        decreases N - i,
    {
        v.push(a[i]);
        proof {
            assert(v@ =~= a@.take(i + 1));
        }
        i += 1;
    }
    proof {
        assert(a@.take(N as int) =~= a@);
    }
    v
}

/// The seed lists of a vector of byte vectors.
pub open spec fn seeds_view(seeds: &Vec<Vec<u8>>) -> Seq<Seq<u8>> {
    Seq::new(seeds@.len(), |i: int| seeds@[i]@)
}

/// The program-derived address, with its bump seed, that the host platform
/// assigns to a list of seeds under a program identity; `None` where it
/// assigns none.
pub uninterp spec fn program_address(seeds: Seq<Seq<u8>>, program_id: Seq<u8>) -> Option<
    (Seq<u8>, u8),
>;

/// What a derived address and its bump seed look like in contracts.
pub open spec fn derived_view(r: Option<(Pubkey, u8)>) -> Option<(Seq<u8>, u8)> {
    match r {
        Some((address, bump)) => Some((address@, bump)),
        None => None,
    }
}

/// The bump seed of a derived address, if `key` is that address.
pub open spec fn bump_at(key: Seq<u8>, derived: Option<(Seq<u8>, u8)>) -> Option<u8> {
    match derived {
        Some((address, bump)) => if address == key {
            Some(bump)
        } else {
            None
        },
        None => None,
    }
}

/// Tests whether `key` is a derived address, and gives its bump seed if so.
pub fn located(key: &Pubkey, derived: Option<(Pubkey, u8)>) -> (r: Option<u8>)
    ensures
        r == bump_at(key@, derived_view(derived)),
{
    match derived {
        Some((address, bump)) => {
            proof {
                lemma_pubkey_by_bytes(address, *key);
            }
            if address == *key {
                Some(bump)
            } else {
                None
            }
        },
        None => None,
    }
}

/// Calls `anchor_lang::prelude::Pubkey::try_find_program_address`, which
/// searches the bump seeds from 255 downwards for the first one that, hashed
/// after the seeds and before the program identity, gives an address off the
/// signing curve.
///
/// Trusted, not proved: that the outcome depends on the seeds and the program
/// identity alone. Contracts call it `program_address`. Nothing is claimed of
/// which address it is, nor that there is one.
#[verifier::external_body]
fn try_find_program_address(seeds: &Vec<Vec<u8>>, program_id: &Pubkey) -> (r: Option<(Pubkey, u8)>)
    ensures
        derived_view(r) == program_address(seeds_view(seeds), program_id@),
{
    let parts: Vec<&[u8]> = seeds.iter().map(|seed| seed.as_slice()).collect();
    let id = anchor_lang::prelude::Pubkey::new_from_array(program_id.bytes);
    anchor_lang::prelude::Pubkey::try_find_program_address(&parts, &id).map(
        |found| (Pubkey { bytes: found.0.to_bytes() }, found.1),
    )
}

/// Seeds of the agent record that `owner` registers.
pub open spec fn agent_seeds(owner: Pubkey) -> Seq<Seq<u8>> {
    seq![AGENT_TAG@, owner@]
}

/// Seeds of the bounty counter of `client`.
pub open spec fn client_seeds(client: Pubkey) -> Seq<Seq<u8>> {
    seq![CLIENT_TAG@, client@]
}

/// Seeds of the bounty that `client` created with sequence number `bounty_id`.
pub open spec fn bounty_seeds(client: Pubkey, bounty_id: u64) -> Seq<Seq<u8>> {
    seq![BOUNTY_TAG@, client@, spec_u64_to_le_bytes(bounty_id)]
}

/// Seeds of the vault of the bounty stored at `bounty`.
pub open spec fn vault_seeds(bounty: Pubkey) -> Seq<Seq<u8>> {
    seq![VAULT_TAG@, bounty@]
}

/// Seeds of the review of the bounty stored at `bounty`.
pub open spec fn review_seeds(bounty: Pubkey) -> Seq<Seq<u8>> {
    seq![REVIEW_TAG@, bounty@]
}

/// Seeds of the identity under which the ledger settles with the agent
/// registry.
pub open spec fn settlement_seeds() -> Seq<Seq<u8>> {
    seq![SETTLEMENT_TAG@]
}

/// Where the agent record of `owner` is stored under `program_id`.
pub fn agent_address(owner: &Pubkey, program_id: &Pubkey) -> (r: Option<(Pubkey, u8)>)
    ensures
        derived_view(r) == program_address(agent_seeds(*owner), program_id@),
{
    let seeds: Vec<Vec<u8>> = vec![copy_bytes(&AGENT_TAG), owner.to_vec()];
    proof {
        assert(seeds_view(&seeds) =~= agent_seeds(*owner));
    }
    try_find_program_address(&seeds, program_id)
}

/// Where the bounty counter of `client` is stored under `program_id`.
pub fn client_address(client: &Pubkey, program_id: &Pubkey) -> (r: Option<(Pubkey, u8)>)
    ensures
        derived_view(r) == program_address(client_seeds(*client), program_id@),
{
    let seeds: Vec<Vec<u8>> = vec![copy_bytes(&CLIENT_TAG), client.to_vec()];
    proof {
        assert(seeds_view(&seeds) =~= client_seeds(*client));
    }
    try_find_program_address(&seeds, program_id)
}

/// Where the bounty of `client` with sequence number `bounty_id` is stored
/// under `program_id`.
pub fn bounty_address(client: &Pubkey, bounty_id: u64, program_id: &Pubkey) -> (r: Option<
    (Pubkey, u8),
>)
    ensures
        derived_view(r) == program_address(bounty_seeds(*client, bounty_id), program_id@),
{
    let seeds: Vec<Vec<u8>> = vec![
        copy_bytes(&BOUNTY_TAG),
        client.to_vec(),
        u64_to_le_bytes(bounty_id),
    ];
    proof {
        assert(seeds_view(&seeds) =~= bounty_seeds(*client, bounty_id));
    }
    try_find_program_address(&seeds, program_id)
}

/// Where the vault of the bounty stored at `bounty` is kept under `program_id`.
pub fn vault_address(bounty: &Pubkey, program_id: &Pubkey) -> (r: Option<(Pubkey, u8)>)
    ensures
        derived_view(r) == program_address(vault_seeds(*bounty), program_id@),
{
    let seeds: Vec<Vec<u8>> = vec![copy_bytes(&VAULT_TAG), bounty.to_vec()];
    proof {
        assert(seeds_view(&seeds) =~= vault_seeds(*bounty));
    }
    try_find_program_address(&seeds, program_id)
}

/// Where the review of the bounty stored at `bounty` is kept under `program_id`.
pub fn review_address(bounty: &Pubkey, program_id: &Pubkey) -> (r: Option<(Pubkey, u8)>)
    ensures
        derived_view(r) == program_address(review_seeds(*bounty), program_id@),
{
    let seeds: Vec<Vec<u8>> = vec![copy_bytes(&REVIEW_TAG), bounty.to_vec()];
    proof {
        assert(seeds_view(&seeds) =~= review_seeds(*bounty));
    }
    try_find_program_address(&seeds, program_id)
}

/// The identity under which the ledger of `program_id` settles with the
/// agent registry.
pub fn settlement_address(program_id: &Pubkey) -> (r: Option<(Pubkey, u8)>)
    ensures
        derived_view(r) == program_address(settlement_seeds(), program_id@),
{
    let seeds: Vec<Vec<u8>> = vec![copy_bytes(&SETTLEMENT_TAG)];
    proof {
        assert(seeds_view(&seeds) =~= settlement_seeds());
    }
    try_find_program_address(&seeds, program_id)
}

} // verus!
