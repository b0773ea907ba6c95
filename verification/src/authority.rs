use anchor_lang::prelude::Pubkey;
use vstd::prelude::*;
use crate::identity::Identity;

verus! {

/// The label under which the minting authority is derived: the ASCII text
/// `mint_authority`.
pub const MINT_AUTHORITY_LABEL: [u8; 14] = [
    0x6d, 0x69, 0x6e, 0x74, 0x5f, 0x61, 0x75, 0x74, 0x68, 0x6f, 0x72, 0x69, 0x74, 0x79,
];

/// The address that the remote chain derives for `program_id` from `seeds`,
/// and the bump seed that it appends to them to get there; `None` where it
/// derives none.
pub uninterp spec fn program_address(seeds: Seq<Seq<u8>>, program_id: Seq<u8>) -> Option<(Seq<u8>, u8)>;

/// The bytes that a list of seeds holds.
pub open spec fn seeds_view(seeds: Seq<Vec<u8>>) -> Seq<Seq<u8>> {
    seeds.map_values(|seed: Vec<u8>| seed@)
}

/// Calls `Pubkey::try_find_program_address` of anchor-lang's prelude (the
/// `Address` of solana-address). Not verified: the contract takes on trust
/// that the outcome is a function of the seeds' bytes and of the program's
/// bytes alone, which is what `program_address` names. `None` is handed on
/// as it comes: no address can be derived from these seeds.
#[verifier::external_body]
fn find_program_address(seeds: &Vec<Vec<u8>>, program_id: &Identity) -> (found: Option<(Identity, u8)>)
    ensures
        match found {
            Some((address, bump)) => program_address(seeds_view(seeds@), program_id.bytes@) == Some(
                (address.bytes@, bump),
            ),
            None => program_address(seeds_view(seeds@), program_id.bytes@) is None,
        },
{
    let parts: Vec<&[u8]> = seeds.iter().map(|seed| seed.as_slice()).collect();
    let program = Pubkey::new_from_array(program_id.bytes);
    Pubkey::try_find_program_address(&parts, &program).map(
        |(address, bump)| (Identity { bytes: address.to_bytes() }, bump),
    )
}

/// The seeds from which the minting authority of the bridge configured at
/// `config_key` is derived: the label, then the configuration's address.
pub open spec fn mint_authority_seeds(config_key: Identity) -> Seq<Seq<u8>> {
    seq![MINT_AUTHORITY_LABEL@, config_key.bytes@]
}

/// What a `MintAuthority` holds.
pub struct MintAuthorityView {
    /// The address of the configuration record that the authority belongs to.
    pub config_key: Identity,
    /// The bridge program, which alone can act as the authority.
    pub program_id: Identity,
    /// The authority's own identity.
    pub address: Identity,
    /// The bump seed that completes the derivation.
    pub bump: u8,
}

impl MintAuthorityView {
    /// The authority is the one that the remote chain derives for the program
    /// from the label and the configuration's address.
    pub open spec fn is_derived(self) -> bool {
        program_address(mint_authority_seeds(self.config_key), self.program_id.bytes@) == Some(
            (self.address.bytes@, self.bump),
        )
    }

    /// The seeds that prove to the remote chain the right to act as the
    /// authority: those it was derived from, then the bump seed.
    pub open spec fn signer_seeds(self) -> Seq<Seq<u8>> {
        seq![MINT_AUTHORITY_LABEL@, self.config_key.bytes@, seq![self.bump]]
    }
}

/// The identity under which the bridge mints. It has no key of its own: it
/// is derived from the configuration's address, and a value of this type
/// exists only as the outcome of that derivation.
#[derive(Clone, Copy, Debug, PartialEq, Eq)]
pub struct MintAuthority {
    config_key: Identity,
    program_id: Identity,
    address: Identity,
    bump: u8,
}

impl View for MintAuthority {
    type V = MintAuthorityView;

    closed spec fn view(&self) -> MintAuthorityView {
        MintAuthorityView {
            config_key: self.config_key,
            program_id: self.program_id,
            address: self.address,
            bump: self.bump,
        }
    }
}

/// Copies a byte array into a vector.
pub fn bytes_to_vec<const N: usize>(bytes: &[u8; N]) -> (copy: Vec<u8>)
    ensures
        copy@ == bytes@,
{
    let mut copy: Vec<u8> = Vec::new();
    let mut i: usize = 0;
    while i < N
        invariant
            i <= N,
            copy@ == bytes@.take(i as int),
        decreases N - i,
    {
        copy.push(bytes[i]);
        assert(bytes@.take(i + 1) == bytes@.take(i as int).push(bytes@[i as int]));
        i += 1;
    }
    assert(bytes@.take(N as int) == bytes@);
    copy
}

/// The seeds of the minting authority of the bridge configured at `config_key`.
pub fn mint_authority_seeds_of(config_key: &Identity) -> (seeds: Vec<Vec<u8>>)
    ensures
        seeds_view(seeds@) == mint_authority_seeds(*config_key),
{
    let mut seeds: Vec<Vec<u8>> = Vec::new();
    seeds.push(bytes_to_vec(&MINT_AUTHORITY_LABEL));
    seeds.push(bytes_to_vec(&config_key.bytes));
    assert(seeds_view(seeds@) =~= mint_authority_seeds(*config_key));
    seeds
}

impl MintAuthority {
    #[verifier::type_invariant]
    spec fn inv(self) -> bool {
        self@.is_derived()
    }

    /// Derives the minting authority of the bridge that `program_id` runs and
    /// whose configuration record lives at `config_key`. Anyone can repeat
    /// the derivation; only the program can act as its outcome.
    pub fn find(config_key: Identity, program_id: Identity) -> (found: Option<MintAuthority>)
        ensures
            match found {
                Some(authority) => {
                    &&& authority@.config_key == config_key
                    &&& authority@.program_id == program_id
                    &&& authority@.is_derived()
                },
                None => program_address(mint_authority_seeds(config_key), program_id.bytes@) is None,
            },
    {
        let seeds = mint_authority_seeds_of(&config_key);
        match find_program_address(&seeds, &program_id) {
            Some((address, bump)) => Some(MintAuthority { config_key, program_id, address, bump }),
            None => None,
        }
    }

    /// The address of the configuration record that the authority belongs to.
    pub fn config_key(&self) -> (key: Identity)
        ensures
            key == self@.config_key,
    {
        self.config_key
    }

    /// The bridge program.
    pub fn program_id(&self) -> (id: Identity)
        ensures
            id == self@.program_id,
    {
        self.program_id
    }

    /// The authority's own identity, and that it is the derived one.
    pub fn address(&self) -> (address: Identity)
        ensures
            address == self@.address,
            self@.is_derived(),
    {
        proof {
            use_type_invariant(self);
        }
        self.address
    }

    /// The bump seed that completes the derivation.
    pub fn bump(&self) -> (bump: u8)
        ensures
            bump == self@.bump,
    {
        self.bump
    }

    /// The seeds to sign a mint with as the authority.
    pub fn signer_seeds(&self) -> (seeds: Vec<Vec<u8>>)
        ensures
            seeds_view(seeds@) == self@.signer_seeds(),
    {
        let mut bump: Vec<u8> = Vec::new();
        bump.push(self.bump);
        let mut seeds: Vec<Vec<u8>> = Vec::new();
        seeds.push(bytes_to_vec(&MINT_AUTHORITY_LABEL));
        seeds.push(bytes_to_vec(&self.config_key.bytes));
        seeds.push(bump);
        assert(seeds_view(seeds@) =~= self@.signer_seeds());
        seeds
    }
}

} // verus!
