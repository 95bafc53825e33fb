use vstd::prelude::*;
use crate::address::Address;
use crate::derive::{vault_seeds, vault_signer_seeds, with_bump};

verus! {

/// One account of an external call: its key and how the call uses it.
#[derive(Clone, Copy, Debug)]
pub struct AccountRole {
    pub key: Address,
    pub is_signer: bool,
    pub is_writable: bool,
}

/// The vault's authority over a call: the owner and proof byte from which
/// the vault address re-derives. The vault has no private key.
#[derive(Clone, Copy, Debug)]
pub struct VaultSigner {
    pub owner: Address,
    pub bump: u8,
}

impl VaultSigner {
    /// The seeds that authorise the vault's signature.
    pub fn seeds(&self) -> (r: Vec<Vec<u8>>)
        ensures
            r.deep_view() == with_bump(vault_seeds(self.owner@), self.bump),
    {
        vault_signer_seeds(&self.owner, self.bump)
    }
}

/// A call into another program, as the vault's logic decided it.
#[derive(Debug)]
pub struct ExternalCall {
    pub program_id: Address,
    pub accounts: Vec<AccountRole>,
    pub data: Vec<u8>,
    /// Present where the vault signs the call through its derivation.
    pub signer: Option<VaultSigner>,
}

/// Instruction tag of the registry's ownership transfer.
pub const TRANSFER_OWNERSHIP_TAG: u8 = 2;
/// Instruction tags of the records service.
pub const ALLOCATE_AND_POST_RECORD_TAG: u8 = 1;
pub const VALIDATE_SIGNATURE_TAG: u8 = 3;
pub const WRITE_ASSOCIATION_TAG: u8 = 6;
/// Flag of the validation call: check freshness as well as the association.
pub const CHECK_FRESHNESS: u8 = 1;

/// The name of a version-two resolution record: the class byte, then `SOL`.
pub const SOL_RECORD_NAME: [u8; 4] = [2, 83, 79, 76];

pub open spec fn writable(key: Address, is_signer: bool) -> AccountRole {
    AccountRole { key, is_signer, is_writable: true }
}

pub open spec fn readonly(key: Address, is_signer: bool) -> AccountRole {
    AccountRole { key, is_signer, is_writable: false }
}

/// Little-endian bytes of a 32-bit count.
pub open spec fn le_u32(n: u32) -> Seq<u8> {
    seq![
        (n % 256) as u8,
        ((n / 256) % 256) as u8,
        ((n / 65536) % 256) as u8,
        ((n / 16777216) % 256) as u8,
    ]
}

/// A field as the records service reads it: its length, then its bytes.
pub open spec fn length_prefixed(bytes: Seq<u8>) -> Seq<u8> {
    le_u32(bytes.len() as u32) + bytes
}

pub open spec fn transfer_ownership_bytes(new_owner: Seq<u8>) -> Seq<u8> {
    seq![TRANSFER_OWNERSHIP_TAG] + new_owner
}

pub open spec fn allocate_record_bytes(content: Seq<u8>) -> Seq<u8> {
    seq![ALLOCATE_AND_POST_RECORD_TAG] + length_prefixed(SOL_RECORD_NAME@) + length_prefixed(content)
}

pub open spec fn write_association_bytes(association_id: Seq<u8>) -> Seq<u8> {
    seq![WRITE_ASSOCIATION_TAG] + length_prefixed(association_id)
}

pub open spec fn validate_bytes() -> Seq<u8> {
    seq![VALIDATE_SIGNATURE_TAG, CHECK_FRESHNESS]
}

pub fn u32_le_bytes(n: u32) -> (r: Vec<u8>)
    ensures
        r@ == le_u32(n),
{
    let r = vec![
        (n % 256) as u8,
        ((n / 256) % 256) as u8,
        ((n / 65536) % 256) as u8,
        ((n / 16777216) % 256) as u8,
    ];
    assert(r@ =~= le_u32(n));
    r
}

fn append(out: &mut Vec<u8>, bytes: &Vec<u8>)
    ensures
        final(out)@ == old(out)@ + bytes@,
{
    let mut i: usize = 0;
    while i < bytes.len()
        invariant
            0 <= i <= bytes.len(),
            out@ == old(out)@ + bytes@.subrange(0, i as int),
        decreases bytes.len() - i,
    {
        out.push(bytes[i]);
        i = i + 1;
    }
    assert(bytes@.subrange(0, bytes.len() as int) =~= bytes@);
}

fn append_length_prefixed(out: &mut Vec<u8>, bytes: &Vec<u8>)
    requires
        old(out)@.len() + bytes@.len() + 4 <= usize::MAX,
        bytes@.len() <= u32::MAX,
    ensures
        final(out)@ == old(out)@ + length_prefixed(bytes@),
{
    let prefix = u32_le_bytes(bytes.len() as u32);
    append(out, &prefix);
    append(out, bytes);
    assert(final(out)@ =~= old(out)@ + length_prefixed(bytes@));
}

/// The registry's ownership transfer: the tag, then the new owner.
pub fn transfer_ownership_data(new_owner: &Address) -> (r: Vec<u8>)
    ensures
        r@ == transfer_ownership_bytes(new_owner@),
{
    let mut r: Vec<u8> = vec![TRANSFER_OWNERSHIP_TAG];
    append(&mut r, &new_owner.to_vec());
    assert(r@ =~= transfer_ownership_bytes(new_owner@));
    r
}

/// The records service's allocate-and-post call for a resolution record
/// whose content is `content`.
pub fn allocate_record_data(content: &Address) -> (r: Vec<u8>)
    ensures
        r@ == allocate_record_bytes(content@),
{
    let mut r: Vec<u8> = vec![ALLOCATE_AND_POST_RECORD_TAG];
    let name: Vec<u8> = vec![2u8, 83, 79, 76];
    assert(name@ =~= SOL_RECORD_NAME@);
    append_length_prefixed(&mut r, &name);
    append_length_prefixed(&mut r, &content.to_vec());
    assert(r@ =~= allocate_record_bytes(content@));
    r
}

/// The records service's write-association call naming `association_id`.
pub fn write_association_data(association_id: &Address) -> (r: Vec<u8>)
    ensures
        r@ == write_association_bytes(association_id@),
{
    let mut r: Vec<u8> = vec![WRITE_ASSOCIATION_TAG];
    append_length_prefixed(&mut r, &association_id.to_vec());
    assert(r@ =~= write_association_bytes(association_id@));
    r
}

/// The records service's validation call, checking freshness and association.
pub fn validate_data() -> (r: Vec<u8>)
    ensures
        r@ == validate_bytes(),
{
    let r: Vec<u8> = vec![VALIDATE_SIGNATURE_TAG, CHECK_FRESHNESS];
    assert(r@ =~= validate_bytes());
    r
}

} // verus!
