//! The ledger invariant.
//!
//! At every observable point a session's books are balanced: its
//! `total_shares` equals the sum of the shares of its contribution
//! records, and its escrow balance covers the part locked for work in
//! flight plus the reserved minimum.  Each ledger operation states in
//! its contract how it moves the total, the one contribution it
//! touches, the lock and the balance; the lemmas here take exactly
//! those movements as hypotheses and conclude that the invariant
//! carries from the state before the operation to the state after it.

use vstd::prelude::*;

use crate::session::{Contribution, Session, Vault};

verus! {

/// The sum of the share balances of a list of contribution records.
pub open spec fn spec_sum_shares(cs: Seq<Contribution>) -> int
    decreases cs.len(),
{
    if cs.len() == 0 {
        0
    } else {
        spec_sum_shares(cs.drop_last()) + cs.last().shares
    }
}

/// The ledger invariant of one session: the outstanding shares equal
/// the sum over its contribution records, and the escrow balance
/// covers the locked part plus the reserved minimum.
pub open spec fn spec_session_books_balanced(
    session: Session,
    vault: Vault,
    cs: Seq<Contribution>,
) -> bool {
    &&& session.total_shares == spec_sum_shares(cs)
    &&& vault.balance >= session.locked_for_tasks + vault.reserved_minimum
}

/// Replacing one record changes the sum by exactly the difference in
/// that record's shares.
pub proof fn lemma_sum_shares_update(cs: Seq<Contribution>, i: int, c2: Contribution)
    requires
        0 <= i < cs.len(),
    ensures
        spec_sum_shares(cs.update(i, c2)) == spec_sum_shares(cs) - cs[i].shares + c2.shares,
    decreases cs.len(),
{
    let updated = cs.update(i, c2);
    if i == cs.len() - 1 {
        assert(updated.drop_last() =~= cs.drop_last());
        assert(updated.last() == c2);
    } else {
        assert(updated.drop_last() =~= cs.drop_last().update(i, c2));
        assert(updated.last() == cs.last());
        lemma_sum_shares_update(cs.drop_last(), i, c2);
    }
}

/// Appending a record grows the sum by exactly its shares.
pub proof fn lemma_sum_shares_push(cs: Seq<Contribution>, c: Contribution)
    ensures
        spec_sum_shares(cs.push(c)) == spec_sum_shares(cs) + c.shares,
{
    assert(cs.push(c).drop_last() =~= cs);
    assert(cs.push(c).last() == c);
}

/// A deposit by an existing contributor keeps the books balanced: the
/// total and the contributor's record both grow by the minted count,
/// and the balance grows by the deposit, as the contribute operation
/// ensures.
pub proof fn lemma_contribute_preserves_books(
    os: Session,
    ns: Session,
    ov: Vault,
    nv: Vault,
    cs: Seq<Contribution>,
    i: int,
    nc: Contribution,
    minted: u64,
    deposit: u64,
)
    requires
        spec_session_books_balanced(os, ov, cs),
        0 <= i < cs.len(),
        ns.total_shares == os.total_shares + minted,
        ns.locked_for_tasks == os.locked_for_tasks,
        nc.shares == cs[i].shares + minted,
        nv.balance == ov.balance + deposit,
        nv.reserved_minimum == ov.reserved_minimum,
    ensures
        spec_session_books_balanced(ns, nv, cs.update(i, nc)),
{
    lemma_sum_shares_update(cs, i, nc);
}

/// A first deposit keeps the books balanced: a fresh record carrying
/// the minted count joins while the total grows by the same count.
pub proof fn lemma_first_contribution_preserves_books(
    os: Session,
    ns: Session,
    ov: Vault,
    nv: Vault,
    cs: Seq<Contribution>,
    nc: Contribution,
    deposit: u64,
)
    requires
        spec_session_books_balanced(os, ov, cs),
        ns.total_shares == os.total_shares + nc.shares,
        ns.locked_for_tasks == os.locked_for_tasks,
        nv.balance == ov.balance + deposit,
        nv.reserved_minimum == ov.reserved_minimum,
    ensures
        spec_session_books_balanced(ns, nv, cs.push(nc)),
{
    lemma_sum_shares_push(cs, nc);
}

/// A withdrawal keeps the books balanced: the total and the
/// contributor's record both shrink by the burned count, and the
/// payout never exceeds what lies beyond the lock and the reserved
/// minimum, as the withdraw operation ensures.
pub proof fn lemma_withdraw_preserves_books(
    os: Session,
    ns: Session,
    ov: Vault,
    nv: Vault,
    cs: Seq<Contribution>,
    i: int,
    nc: Contribution,
    burned: u64,
    payout: u64,
)
    requires
        spec_session_books_balanced(os, ov, cs),
        0 <= i < cs.len(),
        cs[i].shares >= burned,
        ns.total_shares == os.total_shares - burned,
        ns.locked_for_tasks == os.locked_for_tasks,
        nc.shares == cs[i].shares - burned,
        nv.balance == ov.balance - payout,
        payout + os.locked_for_tasks + ov.reserved_minimum <= ov.balance,
        nv.reserved_minimum == ov.reserved_minimum,
    ensures
        spec_session_books_balanced(ns, nv, cs.update(i, nc)),
{
    lemma_sum_shares_update(cs, i, nc);
}

/// A claim keeps the books balanced: the lock grows by the cost
/// ceiling, which the claim operation admits only while the balance
/// still covers it.
pub proof fn lemma_claim_preserves_books(
    os: Session,
    ns: Session,
    v: Vault,
    cs: Seq<Contribution>,
    cost: u64,
)
    requires
        spec_session_books_balanced(os, v, cs),
        ns.total_shares == os.total_shares,
        ns.locked_for_tasks == os.locked_for_tasks + cost,
        os.locked_for_tasks + cost + v.reserved_minimum <= v.balance,
    ensures
        spec_session_books_balanced(ns, v, cs),
{
}

/// A certified release keeps the books balanced: the lock shrinks by
/// the cost ceiling and the balance by the payment, which the release
/// admits only while the remaining balance covers the remaining lock
/// plus the reserved minimum.
pub proof fn lemma_release_preserves_books(
    os: Session,
    ns: Session,
    ov: Vault,
    nv: Vault,
    cs: Seq<Contribution>,
    cost: u64,
    payment: u64,
)
    requires
        spec_session_books_balanced(os, ov, cs),
        ns.total_shares == os.total_shares,
        os.locked_for_tasks >= cost,
        ns.locked_for_tasks == os.locked_for_tasks - cost,
        ov.balance >= payment,
        nv.balance == ov.balance - payment,
        nv.balance >= ns.locked_for_tasks + ov.reserved_minimum,
        nv.reserved_minimum == ov.reserved_minimum,
    ensures
        spec_session_books_balanced(ns, nv, cs),
{
}

/// A certified rejection keeps the books balanced: the lock shrinks
/// and nothing else moves.
pub proof fn lemma_reject_preserves_books(
    os: Session,
    ns: Session,
    v: Vault,
    cs: Seq<Contribution>,
    cost: u64,
)
    requires
        spec_session_books_balanced(os, v, cs),
        ns.total_shares == os.total_shares,
        os.locked_for_tasks >= cost,
        ns.locked_for_tasks == os.locked_for_tasks - cost,
    ensures
        spec_session_books_balanced(ns, v, cs),
{
}

} // verus!
