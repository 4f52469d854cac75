//! Identities, and the address at which an owner's vault lives.

use anchor_lang::prelude::Pubkey;
use vstd::prelude::*;

verus! {

/// The namespace tag under which vault addresses are derived: the bytes of `vault`.
pub const VAULT_SEED: [u8; 5] = [118, 97, 117, 108, 116];

/// The identity of this program, under which its vault addresses are derived.
pub const PROGRAM_ID: [u8; 32] = [
    166, 8, 72, 205, 178, 57, 153, 130, 114, 171, 10, 238, 118, 210, 199, 1,
    61, 203, 229, 78, 110, 8, 14, 9, 80, 133, 173, 153, 90, 13, 203, 245,
];

/// A fixed-width identity: an owner's key or the address of an account.
#[derive(Clone, Copy, Debug, PartialEq, Eq)]
pub struct Address {
    pub bytes: [u8; 32],
}

impl View for Address {
    type V = Seq<u8>;

    open spec fn view(&self) -> Seq<u8> {
        self.bytes@
    }
}

impl Address {
    /// The address made of the given bytes.
    pub fn new(bytes: [u8; 32]) -> (address: Address)
        ensures
            address.bytes == bytes,
    {
        Address { bytes }
    }

    /// Whether two addresses hold the same bytes.
    pub fn same_as(&self, other: &Address) -> (same: bool)
        ensures
            same == (self@ == other@),
    {
        let mut i: usize = 0;
        while i < 32
            invariant
                i <= 32,
                forall|k: int| 0 <= k < i ==> self@[k] == other@[k],
            decreases 32 - i,
        {
            if self.bytes[i] != other.bytes[i] {
                return false;
            }
            i += 1;
        }
        assert(self@ =~= other@);
        true
    }
}

/// What `Pubkey::create_program_address` returns for the three seeds
/// `namespace`, `identity` and the single byte `nonce`, under the program
/// `program_id`: the derived address, or `None` where it reports an error.
pub uninterp spec fn program_address(
    namespace: Seq<u8>,
    identity: Seq<u8>,
    nonce: u8,
    program_id: Seq<u8>,
) -> Option<Seq<u8>>;

/// What `Pubkey::try_find_program_address` returns for the two seeds
/// `namespace` and `identity` under the program `program_id`: the address it
/// found and the nonce that it found it with, or `None`.
pub uninterp spec fn found_program_address(
    namespace: Seq<u8>,
    identity: Seq<u8>,
    program_id: Seq<u8>,
) -> Option<(Seq<u8>, u8)>;

/// The bytes of an address that may be absent.
pub open spec fn address_view(address: Option<Address>) -> Option<Seq<u8>> {
    match address {
        Some(a) => Some(a@),
        None => None,
    }
}

/// The bytes of a found address, beside its nonce.
pub open spec fn found_view(found: Option<(Address, u8)>) -> Option<(Seq<u8>, u8)> {
    match found {
        Some((a, nonce)) => Some((a@, nonce)),
        None => None,
    }
}

/// Calls `Pubkey::create_program_address` with the seeds `namespace`,
/// `identity` and `[nonce]`. Not proved: that the outcome is the one named by
/// [`program_address`], which is to say that it depends on these four
/// arguments alone. An error of the outside function comes back as `None`.
#[verifier::external_body]
fn create_program_address(
    namespace: &[u8],
    identity: &Address,
    nonce: u8,
    program_id: &[u8; 32],
) -> (derived: Option<Address>)
    ensures
        address_view(derived) == program_address(namespace@, identity@, nonce, program_id@),
{
    let program = Pubkey::new_from_array(*program_id);
    match Pubkey::create_program_address(&[namespace, &identity.bytes, &[nonce]], &program) {
        Ok(key) => Some(Address { bytes: key.to_bytes() }),
        Err(_) => None,
    }
}

/// Calls `Pubkey::try_find_program_address` with the seeds `namespace` and
/// `identity`. Not proved: that the outcome is the one named by
/// [`found_program_address`], and that an address found with a nonce is the
/// one that `Pubkey::create_program_address` derives from the same seeds
/// followed by that nonce.
#[verifier::external_body]
fn try_find_program_address(
    namespace: &[u8],
    identity: &Address,
    program_id: &[u8; 32],
) -> (found: Option<(Address, u8)>)
    ensures
        found_view(found) == found_program_address(namespace@, identity@, program_id@),
        found matches Some((address, nonce)) ==> program_address(
            namespace@,
            identity@,
            nonce,
            program_id@,
        ) == Some(address@),
{
    let program = Pubkey::new_from_array(*program_id);
    match Pubkey::try_find_program_address(&[namespace, &identity.bytes], &program) {
        Some((key, nonce)) => Some((Address { bytes: key.to_bytes() }, nonce)),
        None => None,
    }
}

/// The address derived for `owner`'s vault with a given nonce, if there is one.
pub open spec fn vault_address_spec(owner: Seq<u8>, nonce: u8) -> Option<Seq<u8>> {
    program_address(VAULT_SEED@, owner, nonce, PROGRAM_ID@)
}

/// The address found for `owner`'s vault and the nonce it was found with.
pub open spec fn found_vault_address(owner: Seq<u8>) -> Option<(Seq<u8>, u8)> {
    found_program_address(VAULT_SEED@, owner, PROGRAM_ID@)
}

/// Derives the address of `owner`'s vault, searching for the nonce.
///
/// The outcome is fixed by the owner alone, so deriving twice gives the same
/// address and nonce; and the nonce that comes back, handed to
/// [`vault_address`], gives the same address again. `None` means that no
/// nonce yields a valid address.
pub fn find_vault_address(owner: &Address) -> (found: Option<(Address, u8)>)
    ensures
        found_view(found) == found_vault_address(owner@),
        found matches Some((address, nonce)) ==> vault_address_spec(owner@, nonce) == Some(
            address@,
        ),
{
    try_find_program_address(VAULT_SEED.as_slice(), owner, &PROGRAM_ID)
}

/// Derives the address of `owner`'s vault again from a stored nonce, without
/// searching. `None` means that this nonce yields no valid address.
pub fn vault_address(owner: &Address, nonce: u8) -> (derived: Option<Address>)
    ensures
        address_view(derived) == vault_address_spec(owner@, nonce),
{
    create_program_address(VAULT_SEED.as_slice(), owner, nonce, &PROGRAM_ID)
}

impl Address {
    /// Whether this address is the one a derivation gave.
    pub fn is_derived(&self, derived: &Option<Address>) -> (ok: bool)
        ensures
            ok == (address_view(*derived) == Some(self@)),
    {
        match derived {
            Some(address) => self.same_as(address),
            None => false,
        }
    }
}

/// Whether `address` is the address of `owner`'s vault under the stored `nonce`.
pub fn verify_vault_address(address: &Address, owner: &Address, nonce: u8) -> (ok: bool)
    ensures
        ok == (vault_address_spec(owner@, nonce) == Some(address@)),
{
    let derived = vault_address(owner, nonce);
    address.is_derived(&derived)
}

} // verus!
