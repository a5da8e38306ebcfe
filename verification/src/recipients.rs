//! Recipient resolution: the contact set of a sending is the union,
//! deduplicated by contact identity, of every contact that is a member of
//! any contact list associated with the sending.

use vstd::prelude::*;
use crate::assoc::contains_str;
use crate::strings::str_eq;

verus! {

/// A membership row linking a contact to a contact list.
#[derive(Clone, Debug)]
pub struct ContactListMember {
    pub contact_id: String,
    pub list_id: String,
}

/// The slice of a contact that dispatch reads: its identity and address.
#[derive(Clone, Debug)]
pub struct ContactRecord {
    pub id: String,
    pub email: String,
}

/// A bare recipient address.
#[derive(Clone, Debug)]
pub struct ContactEmail {
    pub email: String,
}

/// The contact identified by `cid` is a member of some list associated with
/// the sending.
pub open spec fn linked(
    cid: Seq<char>,
    members: Seq<ContactListMember>,
    lists: Seq<Seq<char>>,
) -> bool {
    exists|k: int|
        0 <= k < members.len() && members[k].contact_id@ == cid && lists.contains(
            members[k].list_id@,
        )
}

/// The ids of a sequence of contacts.
pub open spec fn ids_of(rs: Seq<ContactRecord>) -> Seq<Seq<char>> {
    rs.map_values(|c: ContactRecord| c.id@)
}

/// The set of contact ids that dispatch must reach: ids of known contacts
/// that are members of an associated list.
pub open spec fn spec_recipient_ids(
    contacts: Seq<ContactRecord>,
    members: Seq<ContactListMember>,
    lists: Seq<Seq<char>>,
) -> Set<Seq<char>> {
    Set::new(
        |cid: Seq<char>|
            (exists|j: int| 0 <= j < contacts.len() && contacts[j].id@ == cid) && linked(
                cid,
                members,
                lists,
            ),
    )
}

/// Whether `cid` is a member of some list among `lists`.
fn is_linked(members: &Vec<ContactListMember>, lists: &Vec<String>, cid: &String) -> (r: bool)
    ensures
        r == linked(cid@, members@, lists.deep_view()),
{
    let n = members.len();
    let mut k: usize = 0;
    while k < n
        invariant
            0 <= k <= n,
            n == members@.len(),
            forall|j: int|
                0 <= j < k ==> !(members@[j].contact_id@ == cid@ && lists.deep_view().contains(
                    members@[j].list_id@,
                )),
        decreases n - k,
    {
        if str_eq(members[k].contact_id.as_str(), cid.as_str()) && contains_str(
            lists,
            &members[k].list_id,
        ) {
            return true;
        }
        k += 1;
    }
    false
}

/// Whether a contact with id `cid` already stands among the resolved
/// recipients.
fn id_seen(rs: &Vec<ContactRecord>, cid: &String) -> (r: bool)
    ensures
        r == ids_of(rs@).contains(cid@),
{
    let n = rs.len();
    let mut k: usize = 0;
    while k < n
        invariant
            0 <= k <= n,
            n == rs@.len(),
            forall|j: int| 0 <= j < k ==> ids_of(rs@)[j] != cid@,
        decreases n - k,
    {
        if str_eq(rs[k].id.as_str(), cid.as_str()) {
            proof {
                assert(ids_of(rs@)[k as int] == cid@);
            }
            return true;
        }
        k += 1;
    }
    false
}

/// Resolves the recipient set of a sending: every contact that is a member
/// of any associated list, each appearing exactly once however many lists it
/// belongs to.
pub fn resolve_recipients(
    lists: &Vec<String>,
    members: &Vec<ContactListMember>,
    contacts: &Vec<ContactRecord>,
) -> (r: Vec<ContactRecord>)
    ensures
        ids_of(r@).no_duplicates(),
        forall|i: int|
            0 <= i < r@.len() ==> #[trigger] linked(r@[i].id@, members@, lists.deep_view()) && (
            exists|j: int|
                0 <= j < contacts@.len() && contacts@[j].id@ == r@[i].id@ && contacts@[j].email@
                    == r@[i].email@),
        forall|j: int|
            0 <= j < contacts@.len() && linked(
                #[trigger] contacts@[j].id@,
                members@,
                lists.deep_view(),
            ) ==> ids_of(r@).contains(contacts@[j].id@),
        ids_of(r@).to_set() == spec_recipient_ids(contacts@, members@, lists.deep_view()),
{
    let n = contacts.len();
    let mut r: Vec<ContactRecord> = Vec::new();
    let mut i: usize = 0;
    while i < n
        invariant
            0 <= i <= n,
            n == contacts@.len(),
            ids_of(r@).no_duplicates(),
            forall|k: int|
                0 <= k < r@.len() ==> #[trigger] linked(r@[k].id@, members@, lists.deep_view()) && (
                exists|j: int|
                    0 <= j < contacts@.len() && contacts@[j].id@ == r@[k].id@ && contacts@[j].email@
                        == r@[k].email@),
            forall|j: int|
                0 <= j < i && linked(
                    #[trigger] contacts@[j].id@,
                    members@,
                    lists.deep_view(),
                ) ==> ids_of(r@).contains(contacts@[j].id@),
        decreases n - i,
    {
        let ghost prev = r@;
        let c = &contacts[i];
        if is_linked(members, lists, &c.id) && !id_seen(&r, &c.id) {
            r.push(ContactRecord { id: c.id.clone(), email: c.email.clone() });
            proof {
                assert(ids_of(r@) =~= ids_of(prev).push(contacts@[i as int].id@));
                assert(r@[prev.len() as int].id@ == contacts@[i as int].id@);
                assert forall|k: int| 0 <= k < r@.len() implies #[trigger] linked(
                    r@[k].id@,
                    members@,
                    lists.deep_view(),
                ) && (exists|j: int|
                    0 <= j < contacts@.len() && contacts@[j].id@ == r@[k].id@ && contacts@[j].email@
                        == r@[k].email@) by {
                    if k < prev.len() {
                        assert(r@[k] == prev[k]);
                    } else {
                        assert(r@[k].id@ == contacts@[i as int].id@ && r@[k].email@
                            == contacts@[i as int].email@);
                    }
                }
                assert forall|j: int|
                    0 <= j < i + 1 && linked(
                        #[trigger] contacts@[j].id@,
                        members@,
                        lists.deep_view(),
                    ) implies ids_of(r@).contains(contacts@[j].id@) by {
                    if j < i {
                        let w = choose|w: int|
                            0 <= w < ids_of(prev).len() && ids_of(prev)[w] == contacts@[j].id@;
                        assert(ids_of(r@)[w] == contacts@[j].id@);
                    } else {
                        assert(ids_of(r@)[prev.len() as int] == contacts@[i as int].id@);
                    }
                }
            }
        }
        i += 1;
    }
    proof {
        let rids = ids_of(r@);
        let want = spec_recipient_ids(contacts@, members@, lists.deep_view());
        assert forall|cid: Seq<char>| rids.to_set().contains(cid) implies want.contains(cid) by {
            let w = choose|w: int| 0 <= w < rids.len() && rids[w] == cid;
            assert(linked(r@[w].id@, members@, lists.deep_view()));
        }
        assert forall|cid: Seq<char>| want.contains(cid) implies rids.to_set().contains(cid) by {
            let j = choose|j: int| 0 <= j < contacts@.len() && contacts@[j].id@ == cid;
            assert(linked(contacts@[j].id@, members@, lists.deep_view()));
            assert(rids.contains(contacts@[j].id@));
        }
        assert(rids.to_set() =~= want);
    }
    r
}

} // verus!
