use git_solana::address::repo_address;
use git_solana::errors::GitError;
use git_solana::repo::{CreateRepo, ModifyRepo, RepositoryStore, UpdateBranch, UpdateRepo};

fn id(b: u8) -> [u8; 32] {
    [b; 32]
}

#[test]
fn create_then_lookup_returns_creator_repo() {
    let alice = id(1);
    let mut rs = RepositoryStore::new();
    let handle = rs
        .create_repo(&CreateRepo { signer: alice }, b"proj".to_vec())
        .unwrap();
    let derived = repo_address(&alice, &b"proj".to_vec()).unwrap();
    assert_eq!(handle, derived);
    let repo = rs.lookup(&derived).unwrap();
    assert_eq!(repo.owner, alice);
    assert_eq!(repo.name, b"proj".to_vec());
    assert_eq!(repo.collaborators, vec![alice]);
    assert!(repo.branches.is_empty());
}

#[test]
fn create_same_tuple_collides() {
    let alice = id(1);
    let mut rs = RepositoryStore::new();
    rs.create_repo(&CreateRepo { signer: alice }, b"proj".to_vec())
        .unwrap();
    let r = rs.create_repo(&CreateRepo { signer: alice }, b"proj".to_vec());
    assert!(matches!(r, Err(GitError::AddressCollision)));
}

#[test]
fn distinct_tuples_get_distinct_addresses() {
    let alice = id(1);
    let bob = id(2);
    let mut rs = RepositoryStore::new();
    let a1 = rs
        .create_repo(&CreateRepo { signer: alice }, b"proj".to_vec())
        .unwrap();
    // a different name by the same owner does not collide
    let a2 = rs
        .create_repo(&CreateRepo { signer: alice }, b"other".to_vec())
        .unwrap();
    // the same name by a different owner does not collide either
    let a3 = rs
        .create_repo(&CreateRepo { signer: bob }, b"proj".to_vec())
        .unwrap();
    assert_ne!(a1, a2);
    assert_ne!(a1, a3);
    assert_ne!(a2, a3);
}

#[test]
fn create_rejects_name_longer_than_seed() {
    let alice = id(1);
    let mut rs = RepositoryStore::new();
    let long_name = vec![b'x'; 33];
    let r = rs.create_repo(&CreateRepo { signer: alice }, long_name.clone());
    assert!(matches!(r, Err(GitError::NameTooLong)));
    assert!(repo_address(&alice, &long_name).is_none());
    // exactly at the seed capacity is fine
    let edge = vec![b'x'; 32];
    assert!(rs.create_repo(&CreateRepo { signer: alice }, edge).is_ok());
}

#[test]
fn add_collaborator_by_owner_appends() {
    let alice = id(1);
    let bob = id(2);
    let mut rs = RepositoryStore::new();
    let addr = rs
        .create_repo(&CreateRepo { signer: alice }, b"proj".to_vec())
        .unwrap();
    let r = rs.add_collaborator(&ModifyRepo { owner: alice }, &addr, bob);
    assert!(r.is_ok());
    let repo = rs.lookup(&addr).unwrap();
    assert_eq!(repo.collaborators, vec![alice, bob]);
}

#[test]
fn add_collaborator_permits_duplicates() {
    let alice = id(1);
    let bob = id(2);
    let mut rs = RepositoryStore::new();
    let addr = rs
        .create_repo(&CreateRepo { signer: alice }, b"proj".to_vec())
        .unwrap();
    rs.add_collaborator(&ModifyRepo { owner: alice }, &addr, bob)
        .unwrap();
    rs.add_collaborator(&ModifyRepo { owner: alice }, &addr, bob)
        .unwrap();
    let repo = rs.lookup(&addr).unwrap();
    assert_eq!(repo.collaborators, vec![alice, bob, bob]);
}

#[test]
fn add_collaborator_by_non_owner_is_unauthorized() {
    let alice = id(1);
    let bob = id(2);
    let mut rs = RepositoryStore::new();
    let addr = rs
        .create_repo(&CreateRepo { signer: alice }, b"proj".to_vec())
        .unwrap();
    let r = rs.add_collaborator(&ModifyRepo { owner: bob }, &addr, bob);
    assert!(matches!(r, Err(GitError::Unauthorized)));
    let repo = rs.lookup(&addr).unwrap();
    assert_eq!(repo.collaborators, vec![alice]);
}

#[test]
fn add_collaborator_at_empty_address_is_not_found() {
    let alice = id(1);
    let bob = id(2);
    let mut rs = RepositoryStore::new();
    let addr = repo_address(&alice, &b"proj".to_vec()).unwrap();
    let r = rs.add_collaborator(&ModifyRepo { owner: alice }, &addr, bob);
    assert!(matches!(r, Err(GitError::NotFound)));
}

#[test]
fn update_branch_twice_keeps_one_entry_with_second_data() {
    let alice = id(1);
    let mut rs = RepositoryStore::new();
    let addr = rs
        .create_repo(&CreateRepo { signer: alice }, b"proj".to_vec())
        .unwrap();
    rs.update_branch(
        &UpdateBranch { signer: alice },
        &addr,
        b"main".to_vec(),
        b"abc123".to_vec(),
        b"tx1".to_vec(),
    )
    .unwrap();
    rs.update_branch(
        &UpdateBranch { signer: alice },
        &addr,
        b"main".to_vec(),
        b"def456".to_vec(),
        b"tx2".to_vec(),
    )
    .unwrap();
    let repo = rs.lookup(&addr).unwrap();
    assert_eq!(repo.branches.len(), 1);
    assert_eq!(repo.branches[0].name, b"main".to_vec());
    assert_eq!(repo.branches[0].commit.commit_hash, b"def456".to_vec());
    assert_eq!(repo.branches[0].commit.arweave_tx, b"tx2".to_vec());
}

#[test]
fn update_branch_by_outsider_is_unauthorized() {
    let alice = id(1);
    let mallory = id(9);
    let mut rs = RepositoryStore::new();
    let addr = rs
        .create_repo(&CreateRepo { signer: alice }, b"proj".to_vec())
        .unwrap();
    rs.update_branch(
        &UpdateBranch { signer: alice },
        &addr,
        b"main".to_vec(),
        b"abc123".to_vec(),
        b"tx1".to_vec(),
    )
    .unwrap();
    let r = rs.update_branch(
        &UpdateBranch { signer: mallory },
        &addr,
        b"main".to_vec(),
        b"evil".to_vec(),
        b"tx9".to_vec(),
    );
    assert!(matches!(r, Err(GitError::Unauthorized)));
    let repo = rs.lookup(&addr).unwrap();
    assert_eq!(repo.branches.len(), 1);
    assert_eq!(repo.branches[0].commit.commit_hash, b"abc123".to_vec());
}

#[test]
fn update_branch_at_empty_address_is_not_found() {
    let alice = id(1);
    let mut rs = RepositoryStore::new();
    let addr = repo_address(&alice, &b"proj".to_vec()).unwrap();
    let r = rs.update_branch(
        &UpdateBranch { signer: alice },
        &addr,
        b"main".to_vec(),
        b"abc123".to_vec(),
        b"tx1".to_vec(),
    );
    assert!(matches!(r, Err(GitError::NotFound)));
}

#[test]
fn scenario_alice_proj_with_collaborator_bob() {
    let alice = id(1);
    let bob = id(2);
    let mut rs = RepositoryStore::new();
    let addr = rs
        .create_repo(&CreateRepo { signer: alice }, b"proj".to_vec())
        .unwrap();
    assert_eq!(rs.lookup(&addr).unwrap().collaborators, vec![alice]);

    rs.add_collaborator(&ModifyRepo { owner: alice }, &addr, bob)
        .unwrap();
    assert_eq!(rs.lookup(&addr).unwrap().collaborators, vec![alice, bob]);

    // bob is a collaborator, so his branch update succeeds
    rs.update_branch(
        &UpdateBranch { signer: bob },
        &addr,
        b"main".to_vec(),
        b"abc123".to_vec(),
        b"tx1".to_vec(),
    )
    .unwrap();
    {
        let repo = rs.lookup(&addr).unwrap();
        assert_eq!(repo.branches.len(), 1);
        assert_eq!(repo.branches[0].name, b"main".to_vec());
        assert_eq!(repo.branches[0].commit.commit_hash, b"abc123".to_vec());
        assert_eq!(repo.branches[0].commit.arweave_tx, b"tx1".to_vec());
    }

    rs.update_branch(
        &UpdateBranch { signer: alice },
        &addr,
        b"main".to_vec(),
        b"def456".to_vec(),
        b"tx2".to_vec(),
    )
    .unwrap();
    let repo = rs.lookup(&addr).unwrap();
    assert_eq!(repo.branches.len(), 1);
    assert_eq!(repo.branches[0].name, b"main".to_vec());
    assert_eq!(repo.branches[0].commit.commit_hash, b"def456".to_vec());
    assert_eq!(repo.branches[0].commit.arweave_tx, b"tx2".to_vec());
}

#[test]
fn update_repo_renames_and_keeps_address() {
    let alice = id(1);
    let mut rs = RepositoryStore::new();
    let addr = rs
        .create_repo(&CreateRepo { signer: alice }, b"proj".to_vec())
        .unwrap();
    rs.update_repo(&UpdateRepo { owner: alice }, &addr, Some(b"renamed".to_vec()))
        .unwrap();
    // the record still lives at the address derived from the creation name
    let repo = rs.lookup(&addr).unwrap();
    assert_eq!(repo.name, b"renamed".to_vec());
    // no record lives at the address the new name would derive
    let new_addr = repo_address(&alice, &b"renamed".to_vec()).unwrap();
    assert!(rs.lookup(&new_addr).is_none());
}

#[test]
fn update_repo_with_no_name_is_a_noop() {
    let alice = id(1);
    let mut rs = RepositoryStore::new();
    let addr = rs
        .create_repo(&CreateRepo { signer: alice }, b"proj".to_vec())
        .unwrap();
    rs.update_repo(&UpdateRepo { owner: alice }, &addr, None).unwrap();
    assert_eq!(rs.lookup(&addr).unwrap().name, b"proj".to_vec());
}

#[test]
fn update_repo_by_non_owner_is_unauthorized() {
    let alice = id(1);
    let bob = id(2);
    let mut rs = RepositoryStore::new();
    let addr = rs
        .create_repo(&CreateRepo { signer: alice }, b"proj".to_vec())
        .unwrap();
    let r = rs.update_repo(&UpdateRepo { owner: bob }, &addr, Some(b"stolen".to_vec()));
    assert!(matches!(r, Err(GitError::Unauthorized)));
    assert_eq!(rs.lookup(&addr).unwrap().name, b"proj".to_vec());
}
