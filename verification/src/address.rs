//! Deterministic record addressing.
//!
//! Every record lives at an address derived from a stable identity tuple: the
//! owner key and repository name for repositories; the user key, owner key and
//! repository name for stars. The same tuple always yields the same address,
//! so any party holding the tuple can recompute the address and locate the
//! record without a central index. Distinct tuples yield distinct addresses
//! with overwhelming probability; the stores treat a hit at an already
//! occupied address as a duplicate and refuse the creation.

use vstd::prelude::*;

use crate::bytes::{Address, Identity};

verus! {

/// One derivation seed may hold at most this many bytes; names longer than
/// this are rejected before any address derivation is attempted.
pub const NAME_SEED_CAPACITY: usize = 32;

/// The address of the repository record for a given owner key and repository
/// name. What the derivation computes is a hash of the tuple; only its
/// determinism matters here, so the result is left abstract.
pub uninterp spec fn repo_address_of(owner: Seq<u8>, name: Seq<u8>) -> Seq<u8>;

/// The address of the star record for a given user key, repository owner key
/// and repository name.
pub uninterp spec fn star_address_of(
    user: Seq<u8>,
    repository_owner: Seq<u8>,
    repository_name: Seq<u8>,
) -> Seq<u8>;

/// Relies on `Pubkey::find_program_address` (solana-pubkey): the returned
/// address is a deterministic function of the seed list and the program id
/// alone. Here the seeds are the fixed tag `repository`, the owner key and
/// the repository name, under the repository program's id. The callee refuses
/// seeds longer than its 32-byte seed limit, hence the bound on `name`; it
/// aborts only in the statistically improbable event that no bump seed for
/// the tuple exists.
#[verifier::external_body]
pub(crate) fn derive_repo_address(owner: &Identity, name: &Vec<u8>) -> (r: Address)
    requires
        name@.len() <= NAME_SEED_CAPACITY,
    ensures
        r@ == repo_address_of(owner@, name@),
{
    let program_id = anchor_lang::prelude::Pubkey::from_str_const(
        "5TQo5Bf6yXp9uywEFbp9YKUyveD2pe2LVXRjY2aWRup5",
    );
    let (pk, _bump) = anchor_lang::prelude::Pubkey::find_program_address(
        &[b"repository".as_slice(), owner.as_slice(), name.as_slice()],
        &program_id,
    );
    pk.to_bytes()
}

/// Relies on `Pubkey::find_program_address` (solana-pubkey), as
/// `derive_repo_address` does, with the fixed tag `star`, the user key, the
/// repository owner key and the repository name as seeds, under the star
/// program's id.
#[verifier::external_body]
pub(crate) fn derive_star_address(
    user: &Identity,
    repository_owner: &Identity,
    repository_name: &Vec<u8>,
) -> (r: Address)
    requires
        repository_name@.len() <= NAME_SEED_CAPACITY,
    ensures
        r@ == star_address_of(user@, repository_owner@, repository_name@),
{
    let program_id = anchor_lang::prelude::Pubkey::from_str_const(
        "Bzw6oj1rwP151twodztcsoizGEXc13kxbsa8qvzPoCDn",
    );
    let (pk, _bump) = anchor_lang::prelude::Pubkey::find_program_address(
        &[
            b"star".as_slice(),
            user.as_slice(),
            repository_owner.as_slice(),
            repository_name.as_slice(),
        ],
        &program_id,
    );
    pk.to_bytes()
}

/// The address at which the repository of `(owner, name)` lives, or `None`
/// where `name` exceeds the seed capacity and no address can be derived.
pub fn repo_address(owner: &Identity, name: &Vec<u8>) -> (r: Option<Address>)
    ensures
        name@.len() <= NAME_SEED_CAPACITY ==> (r matches Some(a) && a@ == repo_address_of(
            owner@,
            name@,
        )),
        name@.len() > NAME_SEED_CAPACITY ==> r is None,
{
    if name.len() <= NAME_SEED_CAPACITY {
        Some(derive_repo_address(owner, name))
    } else {
        None
    }
}

/// The address at which the star of `(user, repository_owner,
/// repository_name)` lives, or `None` where the name exceeds the seed
/// capacity.
pub fn star_address(
    user: &Identity,
    repository_owner: &Identity,
    repository_name: &Vec<u8>,
) -> (r: Option<Address>)
    ensures
        repository_name@.len() <= NAME_SEED_CAPACITY ==> (r matches Some(a) && a@
            == star_address_of(user@, repository_owner@, repository_name@)),
        repository_name@.len() > NAME_SEED_CAPACITY ==> r is None,
{
    if repository_name.len() <= NAME_SEED_CAPACITY {
        Some(derive_star_address(user, repository_owner, repository_name))
    } else {
        None
    }
}

} // verus!
