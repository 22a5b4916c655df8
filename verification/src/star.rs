//! Star records and their store.
//!
//! A star is a single-instance bookmark relation between one user and one
//! repository identity tuple. Its address embeds the starring user's key, so
//! only that user can ever derive the address again and close the record.
//! Starring an already starred tuple collides at the address; unstarring
//! reclaims the slot, which may then hold a fresh star for the same tuple.
//! The starred repository's existence is not validated. Each mutation hands
//! back an event for an external observer; the registry keeps no event state.

use vstd::prelude::*;

use crate::address::{derive_star_address, star_address_of, NAME_SEED_CAPACITY};
use crate::bytes::{clone_bytes, key_eq, Address, Identity};
use crate::errors::GitError;
use crate::slots::SlotMap;

verus! {

/// A star record: the starring user, the starred repository's identity tuple,
/// and the creation time, set once at star time.
pub struct Star {
    pub user: Identity,
    pub repository_owner: Identity,
    pub repository_name: Vec<u8>,
    pub timestamp: i64,
}

/// Which mutation an event reports.
#[derive(Clone, Copy, Debug, PartialEq, Eq, Structural)]
pub enum StarAction {
    Star,
    Unstar,
}

/// An externally observable notification of a star mutation.
pub struct StarEvent {
    pub user: Identity,
    pub repository_owner: Identity,
    pub repository_name: Vec<u8>,
    pub action: StarAction,
}

/// The abstract value of a `Star`.
#[verifier::ext_equal]
pub struct StarModel {
    pub user: Seq<u8>,
    pub repository_owner: Seq<u8>,
    pub repository_name: Seq<u8>,
    pub timestamp: int,
}

/// The abstract value of a `StarEvent`.
#[verifier::ext_equal]
pub struct StarEventModel {
    pub user: Seq<u8>,
    pub repository_owner: Seq<u8>,
    pub repository_name: Seq<u8>,
    pub action: StarAction,
}

impl View for Star {
    type V = StarModel;

    open spec fn view(&self) -> StarModel {
        StarModel {
            user: self.user@,
            repository_owner: self.repository_owner@,
            repository_name: self.repository_name@,
            timestamp: self.timestamp as int,
        }
    }
}

impl View for StarEvent {
    type V = StarEventModel;

    open spec fn view(&self) -> StarEventModel {
        StarEventModel {
            user: self.user@,
            repository_owner: self.repository_owner@,
            repository_name: self.repository_name@,
            action: self.action,
        }
    }
}

/// The star a creation allocates.
pub open spec fn star_model(
    user: Seq<u8>,
    repository_owner: Seq<u8>,
    repository_name: Seq<u8>,
    timestamp: int,
) -> StarModel {
    StarModel { user, repository_owner, repository_name, timestamp }
}

/// The event a mutation reports.
pub open spec fn star_event_model(
    user: Seq<u8>,
    repository_owner: Seq<u8>,
    repository_name: Seq<u8>,
    action: StarAction,
) -> StarEventModel {
    StarEventModel { user, repository_owner, repository_name, action }
}

/// The account that signs a star creation; it becomes the starring user and
/// part of the star's address.
pub struct StarRepository {
    pub user: Identity,
}

/// The account that signs an unstar; the star's address is derived from it,
/// so it can only ever reach its own star.
pub struct UnstarRepository {
    pub user: Identity,
}

/// A star listing touches no account: enumeration is delegated entirely to an
/// external observer of events or storage.
pub struct GetStars {}

/// The store of star records, keyed by derived address.
pub struct StarStore {
    slots: SlotMap<Star>,
}

impl View for StarStore {
    type V = Map<Seq<u8>, StarModel>;

    closed spec fn view(&self) -> Map<Seq<u8>, StarModel> {
        self.slots@
    }
}

impl StarStore {
    /// Every address holds at most one record.
    pub closed spec fn wf(&self) -> bool {
        self.slots.wf()
    }

    /// An empty store.
    pub fn new() -> (r: Self)
        ensures
            r.wf(),
            r@ == Map::<Seq<u8>, StarModel>::empty(),
    {
        StarStore { slots: SlotMap::new() }
    }

    /// The star at `addr`, if one lives there.
    pub fn lookup(&self, addr: &Address) -> (r: Option<&Star>)
        requires
            self.wf(),
        ensures
            match r {
                Some(star) => self@.dom().contains(addr@) && star@ == self@[addr@],
                None => !self@.dom().contains(addr@),
            },
    {
        self.slots.get(addr)
    }

    /// Allocates a star for `(signer, repository_owner, repository_name)` at
    /// the derived address, stamped with the substrate's clock, and reports a
    /// star event. A second star for the same tuple collides at the address:
    /// that is how "already starred" is detected. Names too long for a
    /// derivation seed are rejected before derivation.
    pub fn star_repository(
        &mut self,
        ctx: &StarRepository,
        repository_owner: Identity,
        repository_name: Vec<u8>,
        timestamp: i64,
    ) -> (r: Result<StarEvent, GitError>)
        requires
            old(self).wf(),
        ensures
            final(self).wf(),
            repository_name@.len() > NAME_SEED_CAPACITY ==> r == Err::<StarEvent, GitError>(
                GitError::NameTooLong,
            ) && final(self)@ == old(self)@,
            repository_name@.len() <= NAME_SEED_CAPACITY ==> ({
                let a = star_address_of(ctx.user@, repository_owner@, repository_name@);
                if old(self)@.dom().contains(a) {
                    &&& r == Err::<StarEvent, GitError>(GitError::AddressCollision)
                    &&& final(self)@ == old(self)@
                } else {
                    &&& r matches Ok(ev) && ev@ == star_event_model(
                        ctx.user@,
                        repository_owner@,
                        repository_name@,
                        StarAction::Star,
                    )
                    &&& final(self)@ == old(self)@.insert(
                        a,
                        star_model(
                            ctx.user@,
                            repository_owner@,
                            repository_name@,
                            timestamp as int,
                        ),
                    )
                }
            }),
    {
        if repository_name.len() > NAME_SEED_CAPACITY {
            return Err(GitError::NameTooLong);
        }
        let addr = derive_star_address(&ctx.user, &repository_owner, &repository_name);
        if self.slots.contains_addr(&addr) {
            return Err(GitError::AddressCollision);
        }
        let event_name = clone_bytes(&repository_name);
        let star = Star { user: ctx.user, repository_owner, repository_name, timestamp };
        self.slots.insert_new(addr, star);
        Ok(StarEvent {
            user: ctx.user,
            repository_owner,
            repository_name: event_name,
            action: StarAction::Star,
        })
    }

    /// Closes the signer's star for the tuple, reclaiming its slot, and
    /// reports an unstar event built from the record's fields before
    /// reclamation. Only the original starrer can derive the star's address
    /// under its own credentials, and the record must name the signer as its
    /// user.
    pub fn unstar_repository(
        &mut self,
        ctx: &UnstarRepository,
        repository_owner: Identity,
        repository_name: Vec<u8>,
    ) -> (r: Result<StarEvent, GitError>)
        requires
            old(self).wf(),
        ensures
            final(self).wf(),
            repository_name@.len() > NAME_SEED_CAPACITY ==> r == Err::<StarEvent, GitError>(
                GitError::NameTooLong,
            ) && final(self)@ == old(self)@,
            repository_name@.len() <= NAME_SEED_CAPACITY ==> ({
                let a = star_address_of(ctx.user@, repository_owner@, repository_name@);
                let m = old(self)@;
                if !m.dom().contains(a) {
                    &&& r == Err::<StarEvent, GitError>(GitError::NotFound)
                    &&& final(self)@ == m
                } else if m[a].user != ctx.user@ {
                    &&& r == Err::<StarEvent, GitError>(GitError::Unauthorized)
                    &&& final(self)@ == m
                } else {
                    &&& r matches Ok(ev) && ev@ == star_event_model(
                        ctx.user@,
                        m[a].repository_owner,
                        m[a].repository_name,
                        StarAction::Unstar,
                    )
                    &&& final(self)@ == m.remove(a)
                }
            }),
    {
        if repository_name.len() > NAME_SEED_CAPACITY {
            return Err(GitError::NameTooLong);
        }
        let ghost m = old(self)@;
        let addr = derive_star_address(&ctx.user, &repository_owner, &repository_name);
        match self.slots.remove(&addr) {
            None => Err(GitError::NotFound),
            Some(star) => {
                if !key_eq(&star.user, &ctx.user) {
                    self.slots.insert_new(addr, star);
                    proof {
                        assert(self@ =~= m);
                    }
                    Err(GitError::Unauthorized)
                } else {
                    Ok(StarEvent {
                        user: ctx.user,
                        repository_owner: star.repository_owner,
                        repository_name: star.repository_name,
                        action: StarAction::Unstar,
                    })
                }
            },
        }
    }

    /// A declared no-op: enumeration of stars happens entirely outside the
    /// registry, and this operation exists only as a documented extension
    /// point.
    pub fn list_repository_stars(&self, _ctx: &GetStars, _limit: u8) -> (r: Result<(), GitError>)
        ensures
            r == Ok::<(), GitError>(()),
    {
        Ok(())
    }
}

} // verus!
