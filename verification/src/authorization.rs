//! Authorization by quorum: an operation is allowed when at least three
//! members of a five-member list have signed it.

use vstd::prelude::*;
use vstd::seq_lib::seq_to_set_is_finite;
use crate::constants::{MAX_WHITELIST_LEN, QUORUM};
use crate::error::ErrorCode;
use crate::keys::{bytes_equal, list_contains, Key};
use crate::state::{InvestmentInfo, SignerInfo};

verus! {

/// The members of `list` that are among `signers`, each counted once.
pub open spec fn matching_signers(signers: Seq<Key>, list: Seq<Key>) -> Set<Key> {
    list.to_set().intersect(signers.to_set())
}

/// At least three members of `list` are among `signers`.
pub open spec fn quorum_met(signers: Seq<Key>, list: Seq<Key>) -> bool {
    matching_signers(signers, list).len() >= QUORUM
}

/// The outcome of a quorum check of `signers` against `list`.
pub open spec fn signer_check(signers: Seq<Key>, list: Seq<Key>) -> Result<(), ErrorCode> {
    if list.len() != MAX_WHITELIST_LEN {
        Err(ErrorCode::WhitelistMustBeFive)
    } else if !quorum_met(signers, list) {
        Err(ErrorCode::UnauthorizedSigner)
    } else {
        Ok(())
    }
}

/// Some signer is a member of one of the two lists.
pub open spec fn any_listed(signers: Seq<Key>, first: Seq<Key>, second: Seq<Key>) -> bool {
    exists|i: int|
        0 <= i < signers.len() && (first.contains(#[trigger] signers[i]) || second.contains(
            signers[i],
        ))
}

/// The addresses of the accounts whose holders signed, in the order given.
pub open spec fn signer_keys(infos: Seq<SignerInfo>) -> Seq<Key> {
    infos.filter_map(
        |info: SignerInfo|
            if info.is_signer {
                Some(info.key)
            } else {
                None
            },
    )
}

/// A quorum is a matter of who has signed, not of how often or in what
/// order a signer is given: two lists of signers with the same members fare
/// alike against every list.
pub proof fn lemma_quorum_counts_each_signer_once(first: Seq<Key>, second: Seq<Key>, list: Seq<Key>)
    requires
        first.to_set() == second.to_set(),
    ensures
        matching_signers(first, list) == matching_signers(second, list),
        signer_check(first, list) == signer_check(second, list),
{
}

/// Three different keys that are members of the list and among the signers
/// make a quorum.
pub proof fn lemma_three_members_make_quorum(
    signers: Seq<Key>,
    list: Seq<Key>,
    first: Key,
    second: Key,
    third: Key,
)
    requires
        first != second && first != third && second != third,
        list.contains(first) && list.contains(second) && list.contains(third),
        signers.contains(first) && signers.contains(second) && signers.contains(third),
    ensures
        quorum_met(signers, list),
{
    broadcast use {vstd::set::group_set_axioms, seq_to_set_is_finite};

    let three = set![first, second, third];
    assert(three.len() == 3);
    assert(three.subset_of(matching_signers(signers, list)));
    vstd::set_lib::lemma_len_subset(three, matching_signers(signers, list));
}

/// A quorum names three different keys that are members of the list and
/// among the signers.
pub proof fn lemma_quorum_names_three_members(signers: Seq<Key>, list: Seq<Key>) -> (members: (
    Key,
    Key,
    Key,
))
    requires
        quorum_met(signers, list),
    ensures
        members.0 != members.1 && members.0 != members.2 && members.1 != members.2,
        list.contains(members.0) && list.contains(members.1) && list.contains(members.2),
        signers.contains(members.0) && signers.contains(members.1) && signers.contains(members.2),
{
    broadcast use {vstd::set::group_set_axioms, seq_to_set_is_finite};

    let all = matching_signers(signers, list);
    let first = all.choose();
    let rest = all.remove(first);
    let second = rest.choose();
    let last = rest.remove(second);
    let third = last.choose();
    assert(all.contains(first) && rest.contains(second) && last.contains(third));
    (first, second, third)
}

/// Signers of whom fewer than three are members of the list make no quorum,
/// however many they are.
pub proof fn lemma_quorum_needs_three_members(signers: Seq<Key>, list: Seq<Key>)
    requires
        matching_signers(signers, list).len() < QUORUM,
    ensures
        signer_check(signers, list) is Err,
{
}

/// Looking at one more member of the list adds at most that member to the
/// matching signers, and adds it when it is new and has signed.
proof fn lemma_matching_step(signers: Seq<Key>, list: Seq<Key>, i: int)
    requires
        0 <= i < list.len(),
    ensures
        matching_signers(signers, list.take(i)).finite(),
        matching_signers(signers, list.take(i + 1)).finite(),
        !list.take(i).contains(list[i]) && signers.contains(list[i]) ==> matching_signers(
            signers,
            list.take(i + 1),
        ).len() == matching_signers(signers, list.take(i)).len() + 1,
        list.take(i).contains(list[i]) || !signers.contains(list[i]) ==> matching_signers(
            signers,
            list.take(i + 1),
        ) == matching_signers(signers, list.take(i)),
{
    broadcast use {vstd::set::group_set_axioms, seq_to_set_is_finite};

    let before = matching_signers(signers, list.take(i));
    let after = matching_signers(signers, list.take(i + 1));
    assert(list.take(i + 1) =~= list.take(i).push(list[i]));
    list.take(i).lemma_push_to_set_commute(list[i]);
    assert(list.take(i + 1).to_set() == list.take(i).to_set().insert(list[i]));
    if !list.take(i).contains(list[i]) && signers.contains(list[i]) {
        assert(after =~= before.insert(list[i]));
        assert(!before.contains(list[i]));
    } else {
        assert(after =~= before);
    }
}

/// Whether `key` occurs among the first `end` members of `list`.
fn occurs_before(list: &[Key], end: usize, key: &Key) -> (found: bool)
    requires
        end <= list@.len(),
    ensures
        found == list@.take(end as int).contains(*key),
{
    let mut i: usize = 0;
    while i < end
        invariant
            i <= end <= list@.len(),
            forall|j: int| 0 <= j < i ==> list@[j] != *key,
        decreases end - i,
    {
        if bytes_equal(&list[i], key) {
            assert(list@.take(end as int)[i as int] == *key);
            return true;
        }
        i += 1;
    }
    false
}

/// The number of distinct members of `list` that are among `signers`.
pub fn count_matching_signers(signers: &[Key], list: &[Key]) -> (count: usize)
    ensures
        count == matching_signers(signers@, list@).len(),
{
    let mut count: usize = 0;
    let mut i: usize = 0;
    proof {
        broadcast use vstd::set::group_set_axioms;

        assert(list@.take(0).to_set() =~= Set::<Key>::empty());
        assert(matching_signers(signers@, list@.take(0)) =~= Set::<Key>::empty());
    }
    while i < list.len()
        invariant
            i <= list@.len(),
            count <= i,
            count == matching_signers(signers@, list@.take(i as int)).len(),
        decreases list@.len() - i,
    {
        proof {
            lemma_matching_step(signers@, list@, i as int);
        }
        if !occurs_before(list, i, &list[i]) && list_contains(signers, &list[i]) {
            count += 1;
        }
        i += 1;
    }
    assert(list@.take(list@.len() as int) =~= list@);
    count
}

/// Checks `signers` against a list that decides by quorum: the list must
/// have exactly five members, of which at least three have signed.
pub fn check_quorum(signers: &[Key], list: &[Key]) -> (outcome: Result<(), ErrorCode>)
    ensures
        outcome == signer_check(signers@, list@),
        outcome is Ok <==> list@.len() == MAX_WHITELIST_LEN && quorum_met(signers@, list@),
{
    if list.len() != MAX_WHITELIST_LEN {
        return Err(ErrorCode::WhitelistMustBeFive);
    }
    if count_matching_signers(signers, list) < QUORUM {
        return Err(ErrorCode::UnauthorizedSigner);
    }
    Ok(())
}

/// Whether some signer is a member of `first` or of `second`.
pub fn any_signer_listed(signers: &[Key], first: &[Key], second: &[Key]) -> (found: bool)
    ensures
        found == any_listed(signers@, first@, second@),
{
    let mut i: usize = 0;
    while i < signers.len()
        invariant
            i <= signers@.len(),
            forall|j: int|
                0 <= j < i ==> !first@.contains(#[trigger] signers@[j]) && !second@.contains(
                    signers@[j],
                ),
        decreases signers@.len() - i,
    {
        if list_contains(first, &signers[i]) || list_contains(second, &signers[i]) {
            return true;
        }
        i += 1;
    }
    false
}

/// The addresses of the accounts whose holders signed.
pub fn extract_signer_keys(infos: &[SignerInfo]) -> (keys: Vec<Key>)
    ensures
        keys@ == signer_keys(infos@),
{
    let mut keys: Vec<Key> = Vec::new();
    let mut i: usize = 0;
    while i < infos.len()
        invariant
            i <= infos@.len(),
            keys@ == signer_keys(infos@.take(i as int)),
        decreases infos@.len() - i,
    {
        proof {
            infos@.lemma_filter_map_take_succ(
                |info: SignerInfo|
                    if info.is_signer {
                        Some(info.key)
                    } else {
                        None
                    },
                i as int,
            );
        }
        if infos[i].is_signer {
            keys.push(infos[i].key);
        }
        i += 1;
    }
    assert(infos@.take(infos@.len() as int) =~= infos@);
    keys
}

impl InvestmentInfo {
    /// The list that authorizes updates, or the one that authorizes execution.
    pub open spec fn quorum_list(self, is_update: bool) -> Seq<Key> {
        if is_update {
            self.update_whitelist@
        } else {
            self.execute_whitelist@
        }
    }

    /// Succeeds when at least three members of the chosen list are among
    /// `signer_keys`. However often a key is given, it counts once.
    pub fn verify_signers_3_of_5(&self, signer_keys: &[Key], is_update: bool) -> (outcome: Result<
        (),
        ErrorCode,
    >)
        ensures
            outcome == signer_check(signer_keys@, self.quorum_list(is_update)),
            outcome is Ok <==> self.quorum_list(is_update).len() == MAX_WHITELIST_LEN && quorum_met(
                signer_keys@,
                self.quorum_list(is_update),
            ),
    {
        if is_update {
            check_quorum(signer_keys, self.update_whitelist.as_slice())
        } else {
            check_quorum(signer_keys, self.execute_whitelist.as_slice())
        }
    }

    /// Succeeds when at least three members of the chosen list are among the
    /// accounts whose holders signed.
    pub fn enforce_3_of_5_signers(&self, signer_infos: &[SignerInfo], is_update: bool) -> (outcome:
        Result<(), ErrorCode>)
        ensures
            outcome == signer_check(signer_keys(signer_infos@), self.quorum_list(is_update)),
    {
        let keys = extract_signer_keys(signer_infos);
        self.verify_signers_3_of_5(keys.as_slice(), is_update)
    }
}

} // verus!
