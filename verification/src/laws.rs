//! Laws of the registry: properties that relate several operations, stated
//! over the same maps and models that the operations' contracts use.

use vstd::prelude::*;

use crate::address::{repo_address_of, star_address_of};
use crate::repo::{
    branch_names_unique, branch_upsert, has_branch, lemma_branch_upsert_preserves_unique,
    new_repo_model, BranchModel, CommitModel, RepoModel,
};
use crate::star::{star_model, StarModel};

verus! {

/// Creating a repository and then looking up the derived address for the same
/// `(owner, name)` tuple finds a repository whose owner is the creator and
/// whose collaborator list is exactly the creator.
pub proof fn lemma_create_then_lookup(m: Map<Seq<u8>, RepoModel>, signer: Seq<u8>, name: Seq<u8>)
    ensures
        ({
            let a = repo_address_of(signer, name);
            let m2 = m.insert(a, new_repo_model(signer, name));
            &&& m2.dom().contains(a)
            &&& m2[a].owner == signer
            &&& m2[a].collaborators == seq![signer]
        }),
{
}

/// Two successive upserts of one branch name leave exactly one branch with
/// that name, bearing the second call's commit data: the last writer wins and
/// no duplicate entry appears.
pub proof fn lemma_branch_upsert_last_writer_wins(
    s: Seq<BranchModel>,
    name: Seq<u8>,
    c1: CommitModel,
    c2: CommitModel,
)
    requires
        branch_names_unique(s),
    ensures
        ({
            let s2 = branch_upsert(branch_upsert(s, name, c1), name, c2);
            &&& branch_names_unique(s2)
            &&& has_branch(s2, name)
            &&& forall|i: int|
                0 <= i < s2.len() && s2[i].name == name ==> s2[i].commit == c2
        }),
{
    let s1 = branch_upsert(s, name, c1);
    let s2 = branch_upsert(s1, name, c2);
    lemma_branch_upsert_preserves_unique(s, name, c1);
    lemma_branch_upsert_preserves_unique(s1, name, c2);
    if has_branch(s, name) {
        let i1 = choose|i: int| 0 <= i < s.len() && s[i].name == name;
        assert(s1[i1].name == name);
    } else {
        assert(s1[s.len() as int].name == name);
    }
    assert(has_branch(s1, name));
    let j = choose|i: int| 0 <= i < s1.len() && s1[i].name == name;
    assert(s2[j].name == name && s2[j].commit == c2);
    assert forall|i: int| 0 <= i < s2.len() && s2[i].name == name implies s2[i].commit == c2 by {
        assert(s2.len() == s1.len());
        if i != j {
            assert(s2[i] == s1[i]);
            assert(s1[i].name != s1[j].name);
        }
    }
}

/// A star, an unstar by its own user, and a second star for the identical
/// tuple: each step is permitted by the step before it (the unstar finds a
/// record naming its signer; the freed slot takes the second star), and the
/// slot ends up holding a record with the second star's timestamp.
pub proof fn lemma_star_unstar_star(
    m: Map<Seq<u8>, StarModel>,
    user: Seq<u8>,
    repository_owner: Seq<u8>,
    repository_name: Seq<u8>,
    t1: int,
    t2: int,
)
    requires
        !m.dom().contains(star_address_of(user, repository_owner, repository_name)),
    ensures
        ({
            let a = star_address_of(user, repository_owner, repository_name);
            let m1 = m.insert(a, star_model(user, repository_owner, repository_name, t1));
            let m2 = m1.remove(a);
            let m3 = m2.insert(a, star_model(user, repository_owner, repository_name, t2));
            &&& m1.dom().contains(a) && m1[a].user == user
            &&& !m2.dom().contains(a)
            &&& m3.dom().contains(a) && m3[a].timestamp == t2
        }),
{
}

/// An unstar signed by `v` never closes another user's star: it either leaves
/// the store unchanged or removes a record naming `v` as its user, so a star
/// whose record names `u != v` survives untouched.
pub proof fn lemma_unstar_cannot_reach_anothers_star(
    m: Map<Seq<u8>, StarModel>,
    m2: Map<Seq<u8>, StarModel>,
    u: Seq<u8>,
    v: Seq<u8>,
    a_starred: Seq<u8>,
    a_removed: Seq<u8>,
)
    requires
        u != v,
        m.dom().contains(a_starred),
        m[a_starred].user == u,
        m2 == m || (m.dom().contains(a_removed) && m[a_removed].user == v && m2 == m.remove(
            a_removed,
        )),
    ensures
        m2.dom().contains(a_starred),
        m2[a_starred] == m[a_starred],
{
}

/// Every star record lives at the address derived from its own tuple. The
/// store starts empty with this trivially true, and the operations keep it:
/// see the two preservation lemmas below.
pub open spec fn star_addresses_pinned(m: Map<Seq<u8>, StarModel>) -> bool {
    forall|k: Seq<u8>| #[trigger] m.dom().contains(k) ==> k == star_address_of(
        m[k].user,
        m[k].repository_owner,
        m[k].repository_name,
    )
}

/// A successful star — which inserts the new record at the address derived
/// from its fields — keeps every record's address pinned to its tuple.
pub proof fn lemma_star_preserves_pinning(
    m: Map<Seq<u8>, StarModel>,
    user: Seq<u8>,
    repository_owner: Seq<u8>,
    repository_name: Seq<u8>,
    timestamp: int,
)
    requires
        star_addresses_pinned(m),
    ensures
        star_addresses_pinned(
            m.insert(
                star_address_of(user, repository_owner, repository_name),
                star_model(user, repository_owner, repository_name, timestamp),
            ),
        ),
{
}

/// A successful unstar — which only removes a record — keeps every remaining
/// record's address pinned to its tuple.
pub proof fn lemma_unstar_preserves_pinning(m: Map<Seq<u8>, StarModel>, a: Seq<u8>)
    requires
        star_addresses_pinned(m),
    ensures
        star_addresses_pinned(m.remove(a)),
{
}

/// Addresses pin tuples: where every record's address is the one derived from
/// its own fields — as the store's operations keep it — two records at
/// distinct addresses never carry the same `(user, owner, name)` tuple, so at
/// most one live star exists per tuple.
pub proof fn lemma_star_tuple_unique(m: Map<Seq<u8>, StarModel>, k1: Seq<u8>, k2: Seq<u8>)
    requires
        star_addresses_pinned(m),
        m.dom().contains(k1),
        m.dom().contains(k2),
        k1 != k2,
    ensures
        !(m[k1].user == m[k2].user && m[k1].repository_owner == m[k2].repository_owner
            && m[k1].repository_name == m[k2].repository_name),
{
}

} // verus!
