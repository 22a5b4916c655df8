use git_solana::address::star_address;
use git_solana::errors::GitError;
use git_solana::star::{StarAction, StarRepository, StarStore, UnstarRepository, GetStars};

fn id(b: u8) -> [u8; 32] {
    [b; 32]
}

#[test]
fn star_creates_record_and_emits_event() {
    let user = id(3);
    let owner = id(1);
    let mut ss = StarStore::new();
    let ev = ss
        .star_repository(&StarRepository { user }, owner, b"proj".to_vec(), 1234)
        .unwrap();
    assert_eq!(ev.user, user);
    assert_eq!(ev.repository_owner, owner);
    assert_eq!(ev.repository_name, b"proj".to_vec());
    assert_eq!(ev.action, StarAction::Star);

    let addr = star_address(&user, &owner, &b"proj".to_vec()).unwrap();
    let star = ss.lookup(&addr).unwrap();
    assert_eq!(star.user, user);
    assert_eq!(star.repository_owner, owner);
    assert_eq!(star.repository_name, b"proj".to_vec());
    assert_eq!(star.timestamp, 1234);
}

#[test]
fn star_same_tuple_twice_collides() {
    let user = id(3);
    let owner = id(1);
    let mut ss = StarStore::new();
    ss.star_repository(&StarRepository { user }, owner, b"proj".to_vec(), 1)
        .unwrap();
    let r = ss.star_repository(&StarRepository { user }, owner, b"proj".to_vec(), 2);
    assert!(matches!(r, Err(GitError::AddressCollision)));
}

#[test]
fn star_unstar_star_reuses_slot_with_fresh_timestamp() {
    let user = id(3);
    let owner = id(1);
    let mut ss = StarStore::new();
    ss.star_repository(&StarRepository { user }, owner, b"proj".to_vec(), 100)
        .unwrap();
    ss.unstar_repository(&UnstarRepository { user }, owner, b"proj".to_vec())
        .unwrap();
    let addr = star_address(&user, &owner, &b"proj".to_vec()).unwrap();
    assert!(ss.lookup(&addr).is_none());
    ss.star_repository(&StarRepository { user }, owner, b"proj".to_vec(), 200)
        .unwrap();
    let star = ss.lookup(&addr).unwrap();
    assert_eq!(star.timestamp, 200);
}

#[test]
fn unstar_emits_event_from_record_fields() {
    let user = id(3);
    let owner = id(1);
    let mut ss = StarStore::new();
    ss.star_repository(&StarRepository { user }, owner, b"proj".to_vec(), 7)
        .unwrap();
    let ev = ss
        .unstar_repository(&UnstarRepository { user }, owner, b"proj".to_vec())
        .unwrap();
    assert_eq!(ev.user, user);
    assert_eq!(ev.repository_owner, owner);
    assert_eq!(ev.repository_name, b"proj".to_vec());
    assert_eq!(ev.action, StarAction::Unstar);
}

#[test]
fn unstar_by_other_user_cannot_reach_the_star() {
    let user = id(3);
    let other = id(4);
    let owner = id(1);
    let mut ss = StarStore::new();
    ss.star_repository(&StarRepository { user }, owner, b"proj".to_vec(), 7)
        .unwrap();
    // the other user's credentials derive a different address, where no
    // record lives
    let r = ss.unstar_repository(&UnstarRepository { user: other }, owner, b"proj".to_vec());
    assert!(matches!(r, Err(GitError::NotFound)));
    // the original star is untouched
    let addr = star_address(&user, &owner, &b"proj".to_vec()).unwrap();
    let star = ss.lookup(&addr).unwrap();
    assert_eq!(star.user, user);
    assert_eq!(star.timestamp, 7);
}

#[test]
fn unstar_without_star_is_not_found() {
    let user = id(3);
    let owner = id(1);
    let mut ss = StarStore::new();
    let r = ss.unstar_repository(&UnstarRepository { user }, owner, b"proj".to_vec());
    assert!(matches!(r, Err(GitError::NotFound)));
}

#[test]
fn star_rejects_name_longer_than_seed() {
    let user = id(3);
    let owner = id(1);
    let mut ss = StarStore::new();
    let long_name = vec![b'x'; 33];
    let r = ss.star_repository(&StarRepository { user }, owner, long_name.clone(), 1);
    assert!(matches!(r, Err(GitError::NameTooLong)));
    let r2 = ss.unstar_repository(&UnstarRepository { user }, owner, long_name.clone());
    assert!(matches!(r2, Err(GitError::NameTooLong)));
    assert!(star_address(&user, &owner, &long_name).is_none());
}

#[test]
fn stars_by_distinct_users_live_at_distinct_addresses() {
    let u1 = id(3);
    let u2 = id(4);
    let owner = id(1);
    let mut ss = StarStore::new();
    ss.star_repository(&StarRepository { user: u1 }, owner, b"proj".to_vec(), 1)
        .unwrap();
    // same repository tuple, different user: no collision
    ss.star_repository(&StarRepository { user: u2 }, owner, b"proj".to_vec(), 2)
        .unwrap();
    let a1 = star_address(&u1, &owner, &b"proj".to_vec()).unwrap();
    let a2 = star_address(&u2, &owner, &b"proj".to_vec()).unwrap();
    assert_ne!(a1, a2);
    assert_eq!(ss.lookup(&a1).unwrap().timestamp, 1);
    assert_eq!(ss.lookup(&a2).unwrap().timestamp, 2);
}

#[test]
fn list_repository_stars_is_a_noop() {
    let user = id(3);
    let owner = id(1);
    let mut ss = StarStore::new();
    ss.star_repository(&StarRepository { user }, owner, b"proj".to_vec(), 1)
        .unwrap();
    assert!(ss.list_repository_stars(&GetStars {}, 10).is_ok());
    // no state effect
    let addr = star_address(&user, &owner, &b"proj".to_vec()).unwrap();
    assert!(ss.lookup(&addr).is_some());
}
