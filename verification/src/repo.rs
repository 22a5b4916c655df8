//! Repository records and their store.
//!
//! A repository is created by its owner, who alone may rename it and append
//! collaborators; the owner and every collaborator may move branch pointers.
//! Branch updates are upserts keyed by branch name with last-writer-wins
//! semantics: no version check, no conflict signal. Repositories are never
//! deleted.

use vstd::prelude::*;

use crate::address::{derive_repo_address, repo_address_of, NAME_SEED_CAPACITY};
use crate::bytes::{bytes_eq, key_eq, Address, Identity};
use crate::errors::GitError;
use crate::slots::SlotMap;

verus! {

/// An opaque pair naming commit content held entirely outside the registry:
/// a content hash and a pointer to where the content is durably stored.
pub struct CommitReference {
    pub commit_hash: Vec<u8>,
    pub arweave_tx: Vec<u8>,
}

/// A named pointer to externally stored commit content, unique by `name`
/// within its repository.
pub struct Branch {
    pub name: Vec<u8>,
    pub commit: CommitReference,
}

/// A repository record: its immutable owner, its owner-mutable display name,
/// its append-only collaborator list, and its branch pointers.
pub struct Repository {
    pub owner: Identity,
    pub name: Vec<u8>,
    pub collaborators: Vec<Identity>,
    pub branches: Vec<Branch>,
}

/// The abstract value of a `CommitReference`.
#[verifier::ext_equal]
pub struct CommitModel {
    pub commit_hash: Seq<u8>,
    pub arweave_tx: Seq<u8>,
}

/// The abstract value of a `Branch`.
#[verifier::ext_equal]
pub struct BranchModel {
    pub name: Seq<u8>,
    pub commit: CommitModel,
}

/// The abstract value of a `Repository`.
#[verifier::ext_equal]
pub struct RepoModel {
    pub owner: Seq<u8>,
    pub name: Seq<u8>,
    pub collaborators: Seq<Seq<u8>>,
    pub branches: Seq<BranchModel>,
}

impl View for CommitReference {
    type V = CommitModel;

    open spec fn view(&self) -> CommitModel {
        CommitModel { commit_hash: self.commit_hash@, arweave_tx: self.arweave_tx@ }
    }
}

impl View for Branch {
    type V = BranchModel;

    open spec fn view(&self) -> BranchModel {
        BranchModel { name: self.name@, commit: self.commit@ }
    }
}

impl View for Repository {
    type V = RepoModel;

    open spec fn view(&self) -> RepoModel {
        RepoModel {
            owner: self.owner@,
            name: self.name@,
            collaborators: Seq::new(self.collaborators@.len(), |i: int| self.collaborators@[i]@),
            branches: Seq::new(self.branches@.len(), |i: int| self.branches@[i]@),
        }
    }
}

/// The repository a creation allocates: the signer is owner and sole
/// collaborator, and no branches exist yet.
pub open spec fn new_repo_model(owner: Seq<u8>, name: Seq<u8>) -> RepoModel {
    RepoModel { owner, name, collaborators: seq![owner], branches: Seq::empty() }
}

/// The repository with one more collaborator appended.
pub open spec fn with_collaborator(r: RepoModel, id: Seq<u8>) -> RepoModel {
    RepoModel { collaborators: r.collaborators.push(id), ..r }
}

/// The repository with its branch list replaced.
pub open spec fn with_branches(r: RepoModel, branches: Seq<BranchModel>) -> RepoModel {
    RepoModel { branches, ..r }
}

/// The repository with its display name replaced.
pub open spec fn with_name(r: RepoModel, name: Seq<u8>) -> RepoModel {
    RepoModel { name, ..r }
}

/// No two branches share a name.
pub open spec fn branch_names_unique(s: Seq<BranchModel>) -> bool {
    forall|i: int, j: int| 0 <= i < j < s.len() ==> s[i].name != s[j].name
}

/// Some branch carries this name.
pub open spec fn has_branch(s: Seq<BranchModel>, name: Seq<u8>) -> bool {
    exists|i: int| 0 <= i < s.len() && s[i].name == name
}

/// The position of the branch carrying this name (meaningful only where
/// `has_branch` holds and names are unique).
pub open spec fn branch_index_of(s: Seq<BranchModel>, name: Seq<u8>) -> int {
    choose|i: int| 0 <= i < s.len() && s[i].name == name
}

/// Update-if-present, else append: the existing branch named `name` is
/// overwritten in place with the new commit data, and a missing one is
/// appended at the end. The later of two writes to one name wins.
pub open spec fn branch_upsert(s: Seq<BranchModel>, name: Seq<u8>, c: CommitModel) -> Seq<
    BranchModel,
> {
    if has_branch(s, name) {
        s.update(branch_index_of(s, name), BranchModel { name, commit: c })
    } else {
        s.push(BranchModel { name, commit: c })
    }
}

/// A well-formed repository: branch names are unique (creation starts with no
/// branches and every update is an upsert), and the owner stands among the
/// collaborators (inserted at creation, never removed).
pub open spec fn repo_wf(r: RepoModel) -> bool {
    &&& branch_names_unique(r.branches)
    &&& r.collaborators.contains(r.owner)
}

/// Who may move branch pointers: the owner or any collaborator.
pub open spec fn can_update_branch(r: RepoModel, id: Seq<u8>) -> bool {
    r.owner == id || r.collaborators.contains(id)
}

/// An upsert never introduces a duplicate branch name.
pub proof fn lemma_branch_upsert_preserves_unique(
    s: Seq<BranchModel>,
    name: Seq<u8>,
    c: CommitModel,
)
    requires
        branch_names_unique(s),
    ensures
        branch_names_unique(branch_upsert(s, name, c)),
{
    let s2 = branch_upsert(s, name, c);
    if has_branch(s, name) {
        let i = branch_index_of(s, name);
        assert(0 <= i < s.len() && s[i].name == name);
        assert forall|p: int, q: int| 0 <= p < q < s2.len() implies s2[p].name != s2[q].name by {
            assert(s2[p].name == s[p].name);
            assert(s2[q].name == s[q].name);
        }
    } else {
        assert forall|p: int, q: int| 0 <= p < q < s2.len() implies s2[p].name != s2[q].name by {
            if q == s.len() {
                assert(s2[q].name == name);
                assert(s2[p].name == s[p].name);
            }
        }
    }
}

impl Repository {
    /// Whether `id` stands in the collaborator list.
    pub fn has_collaborator(&self, id: &Identity) -> (r: bool)
        ensures
            r == self@.collaborators.contains(id@),
    {
        let mut i: usize = 0;
        while i < self.collaborators.len()
            invariant
                i <= self.collaborators@.len(),
                forall|j: int| 0 <= j < i ==> self@.collaborators[j] != id@,
            decreases self.collaborators@.len() - i,
        {
            if key_eq(&self.collaborators[i], id) {
                proof {
                    assert(self@.collaborators[i as int] == id@);
                }
                return true;
            }
            i += 1;
        }
        proof {
            assert(!self@.collaborators.contains(id@));
        }
        false
    }

    fn find_branch(&self, name: &Vec<u8>) -> (r: Option<usize>)
        ensures
            match r {
                Some(i) => i < self.branches@.len() && self@.branches[i as int].name == name@,
                None => forall|j: int|
                    0 <= j < self@.branches.len() ==> self@.branches[j].name != name@,
            },
    {
        let mut i: usize = 0;
        while i < self.branches.len()
            invariant
                i <= self.branches@.len(),
                forall|j: int| 0 <= j < i ==> self@.branches[j].name != name@,
            decreases self.branches@.len() - i,
        {
            if bytes_eq(&self.branches[i].name, name) {
                proof {
                    assert(self@.branches[i as int].name == name@);
                }
                return Some(i);
            }
            i += 1;
        }
        None
    }

    /// Moves the branch pointer named `branch_name` to the given commit data,
    /// appending a new branch where none carries the name yet.
    pub fn upsert_branch(&mut self, branch_name: Vec<u8>, commit_hash: Vec<u8>, arweave_tx: Vec<u8>)
        requires
            branch_names_unique(old(self)@.branches),
        ensures
            final(self)@ == with_branches(
                old(self)@,
                branch_upsert(
                    old(self)@.branches,
                    branch_name@,
                    CommitModel { commit_hash: commit_hash@, arweave_tx: arweave_tx@ },
                ),
            ),
    {
        let ghost s0 = self@.branches;
        let ghost b = BranchModel {
            name: branch_name@,
            commit: CommitModel { commit_hash: commit_hash@, arweave_tx: arweave_tx@ },
        };
        match self.find_branch(&branch_name) {
            Some(i) => {
                proof {
                    assert(has_branch(s0, branch_name@));
                    let j = branch_index_of(s0, branch_name@);
                    assert(0 <= j < s0.len() && s0[j].name == branch_name@);
                    assert(j == i as int);
                }
                self.branches[i] = Branch {
                    name: branch_name,
                    commit: CommitReference { commit_hash, arweave_tx },
                };
                proof {
                    assert(self@.branches =~= s0.update(i as int, b));
                    assert(self@ =~= with_branches(old(self)@, branch_upsert(s0, b.name, b.commit)));
                }
            },
            None => {
                proof {
                    assert(!has_branch(s0, branch_name@));
                }
                self.branches.push(Branch {
                    name: branch_name,
                    commit: CommitReference { commit_hash, arweave_tx },
                });
                proof {
                    assert(self@.branches =~= s0.push(b));
                    assert(self@ =~= with_branches(old(self)@, branch_upsert(s0, b.name, b.commit)));
                }
            },
        }
    }
}

/// The account that signs a repository creation; it becomes the owner.
pub struct CreateRepo {
    pub signer: Identity,
}

/// The account that signs an owner-only mutation of an existing repository.
pub struct ModifyRepo {
    pub owner: Identity,
}

/// The account that signs a branch update.
pub struct UpdateBranch {
    pub signer: Identity,
}

/// The account that signs a metadata update.
pub struct UpdateRepo {
    pub owner: Identity,
}

/// The store of repository records, keyed by derived address.
pub struct RepositoryStore {
    slots: SlotMap<Repository>,
}

impl View for RepositoryStore {
    type V = Map<Seq<u8>, RepoModel>;

    closed spec fn view(&self) -> Map<Seq<u8>, RepoModel> {
        self.slots@
    }
}

impl RepositoryStore {
    /// Every record is well-formed and every address holds at most one.
    pub closed spec fn wf(&self) -> bool {
        &&& self.slots.wf()
        &&& forall|k: Seq<u8>| #[trigger] self@.dom().contains(k) ==> repo_wf(self@[k])
    }

    /// An empty store.
    pub fn new() -> (r: Self)
        ensures
            r.wf(),
            r@ == Map::<Seq<u8>, RepoModel>::empty(),
    {
        RepositoryStore { slots: SlotMap::new() }
    }

    /// The repository at `addr`, if one lives there.
    pub fn lookup(&self, addr: &Address) -> (r: Option<&Repository>)
        requires
            self.wf(),
        ensures
            match r {
                Some(repo) => self@.dom().contains(addr@) && repo@ == self@[addr@],
                None => !self@.dom().contains(addr@),
            },
    {
        self.slots.get(addr)
    }

    /// Allocates a new repository at the address derived from the signer and
    /// the name. The signer becomes the owner and the first collaborator.
    /// Fails with `AddressCollision` where the owner already created a
    /// repository of this name, and with `NameTooLong` where no address can
    /// be derived from the name.
    pub fn create_repo(&mut self, ctx: &CreateRepo, name: Vec<u8>) -> (r: Result<
        Address,
        GitError,
    >)
        requires
            old(self).wf(),
        ensures
            final(self).wf(),
            name@.len() > NAME_SEED_CAPACITY ==> r == Err::<Address, GitError>(
                GitError::NameTooLong,
            ) && final(self)@ == old(self)@,
            name@.len() <= NAME_SEED_CAPACITY ==> ({
                let a = repo_address_of(ctx.signer@, name@);
                if old(self)@.dom().contains(a) {
                    &&& r == Err::<Address, GitError>(GitError::AddressCollision)
                    &&& final(self)@ == old(self)@
                } else {
                    &&& r matches Ok(h) && h@ == a
                    &&& final(self)@ == old(self)@.insert(a, new_repo_model(ctx.signer@, name@))
                }
            }),
    {
        if name.len() > NAME_SEED_CAPACITY {
            return Err(GitError::NameTooLong);
        }
        let addr = derive_repo_address(&ctx.signer, &name);
        if self.slots.contains_addr(&addr) {
            return Err(GitError::AddressCollision);
        }
        let mut collaborators: Vec<Identity> = Vec::new();
        collaborators.push(ctx.signer);
        let ghost name_view = name@;
        let repo = Repository { owner: ctx.signer, name, collaborators, branches: Vec::new() };
        proof {
            assert(repo@.collaborators =~= seq![ctx.signer@]);
            assert(repo@.branches =~= Seq::<BranchModel>::empty());
            assert(repo@ =~= new_repo_model(ctx.signer@, name_view));
        }
        self.slots.insert_new(addr, repo);
        proof {
            assert(seq![ctx.signer@][0] == ctx.signer@);
            assert(repo_wf(new_repo_model(ctx.signer@, name_view)));
            assert forall|k: Seq<u8>| #[trigger] self@.dom().contains(k) implies repo_wf(
                self@[k],
            ) by {
                if k != addr@ {
                    assert(old(self)@.dom().contains(k));
                }
            }
        }
        Ok(addr)
    }

    /// Appends a collaborator. Only the owner may do so; the list takes
    /// duplicates without complaint.
    pub fn add_collaborator(
        &mut self,
        ctx: &ModifyRepo,
        repo_addr: &Address,
        new_collaborator: Identity,
    ) -> (r: Result<(), GitError>)
        requires
            old(self).wf(),
        ensures
            final(self).wf(),
            !old(self)@.dom().contains(repo_addr@) ==> r == Err::<(), GitError>(GitError::NotFound)
                && final(self)@ == old(self)@,
            old(self)@.dom().contains(repo_addr@) ==> ({
                let m = old(self)@;
                if m[repo_addr@].owner != ctx.owner@ {
                    &&& r == Err::<(), GitError>(GitError::Unauthorized)
                    &&& final(self)@ == m
                } else {
                    &&& r == Ok::<(), GitError>(())
                    &&& final(self)@ == m.insert(
                        repo_addr@,
                        with_collaborator(m[repo_addr@], new_collaborator@),
                    )
                }
            }),
    {
        let ghost m = old(self)@;
        match self.slots.remove(repo_addr) {
            None => Err(GitError::NotFound),
            Some(mut repo) => {
                if !key_eq(&repo.owner, &ctx.owner) {
                    self.slots.insert_new(*repo_addr, repo);
                    proof {
                        assert(self@ =~= m);
                    }
                    Err(GitError::Unauthorized)
                } else {
                    let ghost rv = repo@;
                    repo.collaborators.push(new_collaborator);
                    proof {
                        assert(repo@.collaborators =~= rv.collaborators.push(new_collaborator@));
                        assert(repo@ =~= with_collaborator(rv, new_collaborator@));
                    }
                    self.slots.insert_new(*repo_addr, repo);
                    proof {
                        assert(self@ =~= m.insert(
                            repo_addr@,
                            with_collaborator(m[repo_addr@], new_collaborator@),
                        ));
                        let w = choose|w: int|
                            0 <= w < rv.collaborators.len() && rv.collaborators[w] == rv.owner;
                        assert(rv.collaborators.push(new_collaborator@)[w] == rv.owner);
                        assert(repo_wf(with_collaborator(rv, new_collaborator@)));
                        assert forall|k: Seq<u8>| #[trigger] self@.dom().contains(k) implies
                            repo_wf(self@[k]) by {
                            if k != repo_addr@ {
                                assert(m.dom().contains(k));
                            }
                        }
                    }
                    Ok(())
                }
            },
        }
    }

    /// Moves the branch pointer named `branch_name` to new commit data,
    /// appending the branch where it does not exist yet. The owner and every
    /// collaborator may do so. Two racing updates of one branch are both
    /// valid; whichever the substrate orders last wins, with no conflict
    /// signal to the loser.
    pub fn update_branch(
        &mut self,
        ctx: &UpdateBranch,
        repo_addr: &Address,
        branch_name: Vec<u8>,
        commit_hash: Vec<u8>,
        arweave_tx: Vec<u8>,
    ) -> (r: Result<(), GitError>)
        requires
            old(self).wf(),
        ensures
            final(self).wf(),
            !old(self)@.dom().contains(repo_addr@) ==> r == Err::<(), GitError>(GitError::NotFound)
                && final(self)@ == old(self)@,
            old(self)@.dom().contains(repo_addr@) ==> ({
                let m = old(self)@;
                if !can_update_branch(m[repo_addr@], ctx.signer@) {
                    &&& r == Err::<(), GitError>(GitError::Unauthorized)
                    &&& final(self)@ == m
                } else {
                    &&& r == Ok::<(), GitError>(())
                    &&& final(self)@ == m.insert(
                        repo_addr@,
                        with_branches(
                            m[repo_addr@],
                            branch_upsert(
                                m[repo_addr@].branches,
                                branch_name@,
                                CommitModel { commit_hash: commit_hash@, arweave_tx: arweave_tx@ },
                            ),
                        ),
                    )
                }
            }),
    {
        let ghost m = old(self)@;
        match self.slots.remove(repo_addr) {
            None => Err(GitError::NotFound),
            Some(mut repo) => {
                let authorized = key_eq(&repo.owner, &ctx.signer) || repo.has_collaborator(
                    &ctx.signer,
                );
                if !authorized {
                    self.slots.insert_new(*repo_addr, repo);
                    proof {
                        assert(self@ =~= m);
                    }
                    Err(GitError::Unauthorized)
                } else {
                    let ghost rv = repo@;
                    proof {
                        assert(repo_wf(rv));
                    }
                    repo.upsert_branch(branch_name, commit_hash, arweave_tx);
                    self.slots.insert_new(*repo_addr, repo);
                    proof {
                        assert(self@ =~= m.insert(repo_addr@, repo@));
                        lemma_branch_upsert_preserves_unique(
                            rv.branches,
                            branch_name@,
                            CommitModel { commit_hash: commit_hash@, arweave_tx: arweave_tx@ },
                        );
                        assert(repo_wf(repo@));
                        assert forall|k: Seq<u8>| #[trigger] self@.dom().contains(k) implies
                            repo_wf(self@[k]) by {
                            if k != repo_addr@ {
                                assert(m.dom().contains(k));
                            }
                        }
                    }
                    Ok(())
                }
            },
        }
    }

    /// Replaces the display name where one is given; `None` applies nothing.
    /// Only the owner may do either. The record keeps its address: it was
    /// derived from the name at creation, so a renamed repository still lives
    /// where the creation put it.
    pub fn update_repo(
        &mut self,
        ctx: &UpdateRepo,
        repo_addr: &Address,
        new_name: Option<Vec<u8>>,
    ) -> (r: Result<(), GitError>)
        requires
            old(self).wf(),
        ensures
            final(self).wf(),
            !old(self)@.dom().contains(repo_addr@) ==> r == Err::<(), GitError>(GitError::NotFound)
                && final(self)@ == old(self)@,
            old(self)@.dom().contains(repo_addr@) ==> ({
                let m = old(self)@;
                if m[repo_addr@].owner != ctx.owner@ {
                    &&& r == Err::<(), GitError>(GitError::Unauthorized)
                    &&& final(self)@ == m
                } else {
                    &&& r == Ok::<(), GitError>(())
                    &&& final(self)@ == m.insert(
                        repo_addr@,
                        with_name(
                            m[repo_addr@],
                            match new_name {
                                Some(n) => n@,
                                None => m[repo_addr@].name,
                            },
                        ),
                    )
                }
            }),
    {
        let ghost m = old(self)@;
        match self.slots.remove(repo_addr) {
            None => Err(GitError::NotFound),
            Some(mut repo) => {
                if !key_eq(&repo.owner, &ctx.owner) {
                    self.slots.insert_new(*repo_addr, repo);
                    proof {
                        assert(self@ =~= m);
                    }
                    Err(GitError::Unauthorized)
                } else {
                    let ghost rv = repo@;
                    match new_name {
                        Some(n) => {
                            repo.name = n;
                        },
                        None => {},
                    }
                    proof {
                        assert(repo@ =~= with_name(
                            rv,
                            match new_name {
                                Some(n) => n@,
                                None => rv.name,
                            },
                        ));
                    }
                    self.slots.insert_new(*repo_addr, repo);
                    proof {
                        assert(self@ =~= m.insert(repo_addr@, repo@));
                        assert(repo_wf(repo@));
                        assert forall|k: Seq<u8>| #[trigger] self@.dom().contains(k) implies
                            repo_wf(self@[k]) by {
                            if k != repo_addr@ {
                                assert(m.dom().contains(k));
                            }
                        }
                    }
                    Ok(())
                }
            },
        }
    }
}

} // verus!
