//! Who receives an event: sets of user identifiers computed from member lists.
use std::collections::HashSet;
use vstd::prelude::*;
use vstd::std_specs::hash::*;
use crate::notify::chat::Chat;

verus! {

broadcast use vstd::std_specs::hash::group_hash_axioms;

/// The user identifier that a stored member identifier stands for.
pub open spec fn user_id_of(member: i64) -> u64 {
    member as u64
}

/// The set of user identifiers named by a member list; repeats collapse.
pub open spec fn member_set(members: Seq<i64>) -> Set<u64> {
    Set::new(|u: u64| exists|i: int| 0 <= i < members.len() && user_id_of(#[trigger] members[i]) == u)
}

/// The audience of a chat change, from the member lists before and after it.
///
/// With both sides present, unchanged membership gives nobody and changed
/// membership gives everybody on either side. With one side present, its
/// members. With neither, nobody.
pub open spec fn chat_audience(old: Option<Seq<i64>>, new: Option<Seq<i64>>) -> Set<u64> {
    match (old, new) {
        (Some(o), Some(n)) => if member_set(o) == member_set(n) {
            Set::empty()
        } else {
            member_set(o).union(member_set(n))
        },
        (Some(o), None) => member_set(o),
        (None, Some(n)) => member_set(n),
        (None, None) => Set::empty(),
    }
}

/// The member list of a chat that may be absent.
pub open spec fn members_of(chat: Option<&Chat>) -> Option<Seq<i64>> {
    match chat {
        Some(c) => Some(c.members@),
        None => None,
    }
}

/// Converts a stored member identifier to a user identifier.
pub fn to_user_id(member: i64) -> (id: u64)
    ensures
        id == user_id_of(member),
{
    #[verifier::truncate]
    (member as u64)
}

/// Adds every user named by `members` to `set`.
pub fn add_members(set: &mut HashSet<u64>, members: &Vec<i64>)
    ensures
        final(set)@ == old(set)@.union(member_set(members@)),
{
    let ghost before = set@;
    let mut i: usize = 0;
    while i < members.len()
        invariant
            i <= members.len(),
            set@ == before.union(member_set(members@.take(i as int))),
        decreases members.len() - i,
    {
        let id = to_user_id(members[i]);
        set.insert(id);
        proof {
            let prev = members@.take(i as int);
            let next = members@.take(i + 1);
            assert(next[i as int] == members@[i as int]);
            assert forall|u: u64| #[trigger]
                member_set(next).contains(u) <==> (member_set(prev).contains(u) || u == id) by {
                if member_set(prev).contains(u) {
                    let j = choose|j: int| 0 <= j < prev.len() && user_id_of(#[trigger] prev[j]) == u;
                    assert(next[j] == prev[j]);
                }
                if member_set(next).contains(u) {
                    let j = choose|j: int| 0 <= j < next.len() && user_id_of(#[trigger] next[j]) == u;
                    if j < i {
                        assert(prev[j] == next[j]);
                    }
                }
            }
            assert(set@ =~= before.union(member_set(next)));
        }
        i += 1;
    }
    proof {
        assert(members@.take(members.len() as int) =~= members@);
    }
}

/// The set of users named by a member list.
pub fn collect_user_ids(members: &Vec<i64>) -> (ids: HashSet<u64>)
    ensures
        ids@ == member_set(members@),
{
    let mut ids: HashSet<u64> = HashSet::new();
    add_members(&mut ids, members);
    proof {
        assert(ids@ =~= member_set(members@));
    }
    ids
}

/// Whether every user named by `members` is in `set`.
pub fn all_members_in(members: &Vec<i64>, set: &HashSet<u64>) -> (all: bool)
    ensures
        all == member_set(members@).subset_of(set@),
{
    let mut i: usize = 0;
    while i < members.len()
        invariant
            i <= members.len(),
            forall|j: int| 0 <= j < i ==> set@.contains(user_id_of(#[trigger] members@[j])),
        decreases members.len() - i,
    {
        let id = to_user_id(members[i]);
        if !set.contains(&id) {
            proof {
                assert(member_set(members@).contains(user_id_of(members@[i as int])));
            }
            return false;
        }
        i += 1;
    }
    true
}

/// The users affected by a chat change, given the chat before and after it.
pub fn get_affected_chat_user_ids(old: Option<&Chat>, new: Option<&Chat>) -> (ids: HashSet<u64>)
    ensures
        ids@ == chat_audience(members_of(old), members_of(new)),
{
    match (old, new) {
        (Some(old), Some(new)) => {
            let old_user_ids = collect_user_ids(&old.members);
            let new_user_ids = collect_user_ids(&new.members);
            let same = all_members_in(&old.members, &new_user_ids) && all_members_in(
                &new.members,
                &old_user_ids,
            );
            proof {
                if same {
                    assert(old_user_ids@ =~= new_user_ids@);
                }
            }
            if same {
                HashSet::new()
            } else {
                let mut ids = old_user_ids;
                add_members(&mut ids, &new.members);
                ids
            }
        },
        (Some(old), None) => collect_user_ids(&old.members),
        (None, Some(new)) => collect_user_ids(&new.members),
        (None, None) => HashSet::new(),
    }
}

} // verus!
