//! The contact lists of the sidebar: friends, the friend groups they belong
//! to, and the chat groups; and how the friends are sorted into their groups.
use vstd::prelude::*;

verus! {

/// A friend, as a row of the `friends` table gives it.
#[derive(Debug)]
pub struct Friend {
    pub id: i64,
    pub name: String,
    pub remark: String,
    pub group_id: i64,
}

impl Clone for Friend {
    fn clone(&self) -> (r: Self)
        ensures
            r == *self,
    {
        Friend {
            id: self.id,
            name: self.name.clone(),
            remark: self.remark.clone(),
            group_id: self.group_id,
        }
    }
}

/// A friend group, as a row of the `friends_groups` table gives it.
#[derive(Debug)]
pub struct FriendsGroupRow {
    pub id: i64,
    pub name: String,
    pub online_friends: i64,
}

/// A friend group together with the friends that belong to it: one entry
/// of the friends list of the sidebar.
#[derive(Debug)]
pub struct FriendsGroup {
    pub id: i64,
    pub name: String,
    pub online_friends: i64,
    pub friends: Vec<Friend>,
}

/// A chat group, as a row of the `groups` table gives it.
#[derive(Debug)]
pub struct Group {
    pub id: i64,
    pub name: String,
    pub owner_id: i64,
}

/// What the friends list is built from: every friend and every friend
/// group, each in the order the database returned them.
#[derive(Debug)]
pub struct FriendsTables {
    pub friends: Vec<Friend>,
    pub friends_groups: Vec<FriendsGroupRow>,
}

/// The friends of `friends` whose group is `group_id`, in their order.
pub open spec fn members_of(friends: Seq<Friend>, group_id: i64) -> Seq<Friend> {
    friends.filter(|f: Friend| f.group_id == group_id)
}

/// `group` is the entry of the friends list built from `row`: the row's
/// fields, and the members of the row's group.
pub open spec fn group_matches_row(friends: Seq<Friend>, row: FriendsGroupRow, group: FriendsGroup) -> bool {
    &&& group.id == row.id
    &&& group.name == row.name
    &&& group.online_friends == row.online_friends
    &&& group.friends@ == members_of(friends, row.id)
}

/// `groups` is the friends list built from `friends` and `rows`: one entry
/// per row, in the rows' order.
pub open spec fn is_grouping(friends: Seq<Friend>, rows: Seq<FriendsGroupRow>, groups: Seq<FriendsGroup>) -> bool {
    &&& groups.len() == rows.len()
    &&& forall|i: int|
        #![trigger groups[i]]
        0 <= i < rows.len() ==> group_matches_row(friends, rows[i], groups[i])
}

/// The number of friends in all the entries of a friends list.
pub open spec fn total_members(groups: Seq<FriendsGroup>) -> nat
    decreases groups.len(),
{
    if groups.len() == 0 {
        0
    } else {
        total_members(groups.drop_last()) + groups.last().friends@.len()
    }
}

/// No two rows name the same group.
pub open spec fn distinct_group_ids(rows: Seq<FriendsGroupRow>) -> bool {
    forall|i: int, j: int| 0 <= i < j < rows.len() ==> #[trigger] rows[i].id != #[trigger] rows[j].id
}

/// Some row names the group `id`.
pub open spec fn has_group(rows: Seq<FriendsGroupRow>, id: i64) -> bool {
    exists|i: int| 0 <= i < rows.len() && #[trigger] rows[i].id == id
}

/// Every friend belongs to a group that some row names.
pub open spec fn every_friend_has_group(friends: Seq<Friend>, rows: Seq<FriendsGroupRow>) -> bool {
    forall|k: int| 0 <= k < friends.len() ==> has_group(rows, #[trigger] friends[k].group_id)
}

proof fn lemma_members_of_push(friends: Seq<Friend>, f: Friend, id: i64)
    ensures
        members_of(friends.push(f), id) == (if f.group_id == id {
            members_of(friends, id).push(f)
        } else {
            members_of(friends, id)
        }),
{
    reveal_with_fuel(Seq::filter, 1);
    assert(friends.push(f).drop_last() =~= friends);
}

/// The friends of `friends` whose group is `group_id`, in their order.
fn collect_members(friends: &Vec<Friend>, group_id: i64) -> (r: Vec<Friend>)
    ensures
        r@ == members_of(friends@, group_id),
{
    let mut r: Vec<Friend> = Vec::new();
    let mut j: usize = 0;
    proof {
        reveal_with_fuel(Seq::filter, 1);
        assert(friends@.subrange(0, 0) =~= Seq::<Friend>::empty());
    }
    while j < friends.len()
        invariant
            j <= friends.len(),
            r@ == members_of(friends@.subrange(0, j as int), group_id),
        decreases friends.len() - j,
    {
        proof {
            assert(friends@.subrange(0, j + 1) =~= friends@.subrange(0, j as int).push(friends@[j as int]));
            lemma_members_of_push(friends@.subrange(0, j as int), friends@[j as int], group_id);
        }
        if friends[j].group_id == group_id {
            r.push(friends[j].clone());
        }
        j += 1;
    }
    assert(friends@.subrange(0, friends@.len() as int) =~= friends@);
    r
}

/// Builds the friends list: for each friend group, in the order of `rows`,
/// the group with every friend of `friends` that belongs to it, in the
/// order of `friends`.
pub fn group_friends(friends: &Vec<Friend>, rows: &Vec<FriendsGroupRow>) -> (r: Vec<FriendsGroup>)
    ensures
        is_grouping(friends@, rows@, r@),
{
    let mut r: Vec<FriendsGroup> = Vec::new();
    let mut k: usize = 0;
    while k < rows.len()
        invariant
            k <= rows.len(),
            r.len() == k,
            forall|i: int|
                #![trigger r@[i]]
                0 <= i < k ==> group_matches_row(friends@, rows@[i], r@[i]),
        decreases rows.len() - k,
    {
        let row = &rows[k];
        let members = collect_members(friends, row.id);
        r.push(FriendsGroup {
            id: row.id,
            name: row.name.clone(),
            online_friends: row.online_friends,
            friends: members,
        });
        k += 1;
    }
    r
}

/// A friend is in the entry of a group exactly when it is one of the
/// friends and that group is its group.
pub proof fn lemma_members_of_contains(friends: Seq<Friend>, id: i64, f: Friend)
    ensures
        members_of(friends, id).contains(f) <==> (friends.contains(f) && f.group_id == id),
    decreases friends.len(),
{
    if friends.len() == 0 {
        reveal_with_fuel(Seq::filter, 1);
        assert(!members_of(friends, id).contains(f));
    } else {
        let init = friends.drop_last();
        let last = friends.last();
        assert(init.push(last) =~= friends);
        lemma_members_of_contains(init, id, f);
        lemma_members_of_push(init, last, id);
        if friends.contains(f) && f != last {
            let k = choose|k: int| 0 <= k < friends.len() && friends[k] == f;
            assert(init[k] == f);
        }
        if init.contains(f) {
            let k = choose|k: int| 0 <= k < init.len() && init[k] == f;
            assert(friends[k] == f);
        }
        if f == last {
            assert(friends[friends.len() - 1] == f);
        }
        if f.group_id == id && f == last {
            assert(members_of(friends, id)[members_of(friends, id).len() - 1] == f);
        }
        let m = members_of(init, id);
        if m.contains(f) {
            let k = choose|k: int| 0 <= k < m.len() && m[k] == f;
            if last.group_id == id {
                assert(members_of(friends, id)[k] == f);
            }
        }
        if members_of(friends, id).contains(f) && last.group_id == id && f != last {
            let k = choose|k: int| 0 <= k < members_of(friends, id).len() && members_of(friends, id)[k] == f;
            assert(m[k] == f);
        }
    }
}

/// Law: a friend stands in an entry of the friends list exactly when it is
/// one of the friends read and the entry is that of its group.
pub proof fn lemma_group_membership(
    friends: Seq<Friend>,
    rows: Seq<FriendsGroupRow>,
    groups: Seq<FriendsGroup>,
    i: int,
    f: Friend,
)
    requires
        is_grouping(friends, rows, groups),
        0 <= i < rows.len(),
    ensures
        groups[i].friends@.contains(f) <==> (friends.contains(f) && f.group_id == rows[i].id),
{
    assert(group_matches_row(friends, rows[i], groups[i]));
    lemma_members_of_contains(friends, rows[i].id, f);
}

/// The number of friends the rows' groups hold, counted group by group.
spec fn rows_member_count(friends: Seq<Friend>, rows: Seq<FriendsGroupRow>) -> nat
    decreases rows.len(),
{
    if rows.len() == 0 {
        0
    } else {
        rows_member_count(friends, rows.drop_last()) + members_of(friends, rows.last().id).len()
    }
}

/// How many rows name the group `id`.
spec fn id_count(rows: Seq<FriendsGroupRow>, id: i64) -> nat
    decreases rows.len(),
{
    if rows.len() == 0 {
        0
    } else {
        id_count(rows.drop_last(), id) + (if rows.last().id == id {
            1nat
        } else {
            0nat
        })
    }
}

proof fn lemma_total_is_row_count(friends: Seq<Friend>, rows: Seq<FriendsGroupRow>, groups: Seq<FriendsGroup>)
    requires
        is_grouping(friends, rows, groups),
    ensures
        total_members(groups) == rows_member_count(friends, rows),
    decreases rows.len(),
{
    if rows.len() > 0 {
        let n = rows.len() - 1;
        assert forall|i: int| 0 <= i < n implies #[trigger] group_matches_row(
            friends,
            rows.drop_last()[i],
            groups.drop_last()[i],
        ) by {
            assert(group_matches_row(friends, rows[i], groups[i]));
        }
        assert(is_grouping(friends, rows.drop_last(), groups.drop_last()));
        lemma_total_is_row_count(friends, rows.drop_last(), groups.drop_last());
        assert(group_matches_row(friends, rows[n], groups[n]));
    }
}

proof fn lemma_row_count_empty(rows: Seq<FriendsGroupRow>)
    ensures
        rows_member_count(Seq::<Friend>::empty(), rows) == 0,
    decreases rows.len(),
{
    reveal_with_fuel(Seq::filter, 1);
    if rows.len() > 0 {
        lemma_row_count_empty(rows.drop_last());
    }
}

proof fn lemma_row_count_push(friends: Seq<Friend>, f: Friend, rows: Seq<FriendsGroupRow>)
    ensures
        rows_member_count(friends.push(f), rows) == rows_member_count(friends, rows) + id_count(rows, f.group_id),
    decreases rows.len(),
{
    if rows.len() > 0 {
        lemma_row_count_push(friends, f, rows.drop_last());
        lemma_members_of_push(friends, f, rows.last().id);
    }
}

proof fn lemma_id_count_one(rows: Seq<FriendsGroupRow>, id: i64)
    requires
        distinct_group_ids(rows),
        has_group(rows, id),
    ensures
        id_count(rows, id) == 1,
    decreases rows.len(),
{
    let init = rows.drop_last();
    let n = rows.len() - 1;
    assert(distinct_group_ids(init)) by {
        assert forall|i: int, j: int| 0 <= i < j < init.len() implies #[trigger] init[i].id != #[trigger] init[j].id by {
            assert(rows[i].id != rows[j].id);
        }
    }
    if rows[n].id == id {
        lemma_id_count_zero(init, id);
        assert forall|i: int| 0 <= i < init.len() implies #[trigger] init[i].id != id by {
            assert(rows[i].id != rows[n].id);
        }
    } else {
        let i = choose|i: int| 0 <= i < rows.len() && #[trigger] rows[i].id == id;
        assert(init[i].id == id);
        lemma_id_count_one(init, id);
    }
}

proof fn lemma_id_count_zero(rows: Seq<FriendsGroupRow>, id: i64)
    ensures
        (forall|i: int| 0 <= i < rows.len() ==> #[trigger] rows[i].id != id) ==> id_count(rows, id) == 0,
    decreases rows.len(),
{
    if rows.len() > 0 {
        let init = rows.drop_last();
        if forall|i: int| 0 <= i < rows.len() ==> #[trigger] rows[i].id != id {
            assert forall|i: int| 0 <= i < init.len() implies #[trigger] init[i].id != id by {
                assert(rows[i].id != id);
            }
            assert(rows[rows.len() - 1].id != id);
        }
        lemma_id_count_zero(init, id);
    }
}

proof fn lemma_row_count_is_len(friends: Seq<Friend>, rows: Seq<FriendsGroupRow>)
    requires
        distinct_group_ids(rows),
        every_friend_has_group(friends, rows),
    ensures
        rows_member_count(friends, rows) == friends.len(),
    decreases friends.len(),
{
    if friends.len() == 0 {
        assert(friends =~= Seq::<Friend>::empty());
        lemma_row_count_empty(rows);
    } else {
        let init = friends.drop_last();
        let last = friends.last();
        assert(init.push(last) =~= friends);
        assert forall|k: int| 0 <= k < init.len() implies has_group(rows, #[trigger] init[k].group_id) by {
            assert(has_group(rows, friends[k].group_id));
        }
        lemma_row_count_is_len(init, rows);
        lemma_row_count_push(init, last, rows);
        assert(has_group(rows, friends[friends.len() - 1].group_id));
        lemma_id_count_one(rows, last.group_id);
    }
}

/// Law: when no two friend groups share an id and every friend's group is
/// among them, the friends list holds every friend once: its entries hold
/// as many friends in all as were read.
pub proof fn lemma_grouping_keeps_every_friend(
    friends: Seq<Friend>,
    rows: Seq<FriendsGroupRow>,
    groups: Seq<FriendsGroup>,
)
    requires
        is_grouping(friends, rows, groups),
        distinct_group_ids(rows),
        every_friend_has_group(friends, rows),
    ensures
        total_members(groups) == friends.len(),
{
    lemma_total_is_row_count(friends, rows, groups);
    lemma_row_count_is_len(friends, rows);
}

/// The friends whose group some row names, in their order.
pub open spec fn listed_friends(friends: Seq<Friend>, rows: Seq<FriendsGroupRow>) -> Seq<Friend> {
    friends.filter(|f: Friend| has_group(rows, f.group_id))
}

proof fn lemma_listed_friends_push(friends: Seq<Friend>, f: Friend, rows: Seq<FriendsGroupRow>)
    ensures
        listed_friends(friends.push(f), rows) == (if has_group(rows, f.group_id) {
            listed_friends(friends, rows).push(f)
        } else {
            listed_friends(friends, rows)
        }),
{
    reveal_with_fuel(Seq::filter, 1);
    assert(friends.push(f).drop_last() =~= friends);
}

proof fn lemma_row_count_is_listed_len(friends: Seq<Friend>, rows: Seq<FriendsGroupRow>)
    requires
        distinct_group_ids(rows),
    ensures
        rows_member_count(friends, rows) == listed_friends(friends, rows).len(),
    decreases friends.len(),
{
    if friends.len() == 0 {
        assert(friends =~= Seq::<Friend>::empty());
        lemma_row_count_empty(rows);
        reveal_with_fuel(Seq::filter, 1);
    } else {
        let init = friends.drop_last();
        let last = friends.last();
        assert(init.push(last) =~= friends);
        lemma_row_count_is_listed_len(init, rows);
        lemma_row_count_push(init, last, rows);
        lemma_listed_friends_push(init, last, rows);
        if has_group(rows, last.group_id) {
            lemma_id_count_one(rows, last.group_id);
        } else {
            lemma_id_count_zero(rows, last.group_id);
            assert forall|i: int| 0 <= i < rows.len() implies #[trigger] rows[i].id != last.group_id by {
                if rows[i].id == last.group_id {
                    assert(has_group(rows, last.group_id));
                }
            }
        }
    }
}

/// Law: when no two friend groups share an id, the friends list holds
/// every friend whose group is listed exactly once, and no other: its
/// entries hold as many friends in all as there are such friends.
pub proof fn lemma_grouping_counts_listed_friends(
    friends: Seq<Friend>,
    rows: Seq<FriendsGroupRow>,
    groups: Seq<FriendsGroup>,
)
    requires
        is_grouping(friends, rows, groups),
        distinct_group_ids(rows),
    ensures
        total_members(groups) == listed_friends(friends, rows).len(),
{
    lemma_total_is_row_count(friends, rows, groups);
    lemma_row_count_is_listed_len(friends, rows);
}

/// The members of a group keep the order the friends were read in: of any
/// two members, the earlier one stands earlier among the friends.
pub proof fn lemma_members_keep_order(friends: Seq<Friend>, id: i64, a: int, b: int)
    requires
        0 <= a < b < members_of(friends, id).len(),
    ensures
        exists|p: int, q: int|
            0 <= p < q < friends.len() && #[trigger] friends[p] == members_of(friends, id)[a]
                && #[trigger] friends[q] == members_of(friends, id)[b],
    decreases friends.len(),
{
    let init = friends.drop_last();
    let last = friends.last();
    assert(init.push(last) =~= friends);
    lemma_members_of_push(init, last, id);
    let m = members_of(init, id);
    if b < m.len() {
        lemma_members_keep_order(init, id, a, b);
        let (p, q) = choose|p: int, q: int|
            0 <= p < q < init.len() && #[trigger] init[p] == m[a] && #[trigger] init[q] == m[b];
        assert(friends[p] == init[p] && friends[q] == init[q]);
    } else {
        assert(m.contains(m[a]));
        lemma_members_of_contains(init, id, m[a]);
        let p = choose|p: int| 0 <= p < init.len() && init[p] == m[a];
        let q = friends.len() - 1;
        assert(friends[p] == init[p]);
        assert(friends[q] == members_of(friends, id)[b]);
    }
}

/// Law: the friends of each entry of the friends list stand in the order
/// they were read in: of any two friends of an entry, the earlier one was
/// read earlier.
pub proof fn lemma_group_keeps_read_order(
    friends: Seq<Friend>,
    rows: Seq<FriendsGroupRow>,
    groups: Seq<FriendsGroup>,
    i: int,
    a: int,
    b: int,
)
    requires
        is_grouping(friends, rows, groups),
        0 <= i < rows.len(),
        0 <= a < b < groups[i].friends@.len(),
    ensures
        exists|p: int, q: int|
            0 <= p < q < friends.len() && #[trigger] friends[p] == groups[i].friends@[a]
                && #[trigger] friends[q] == groups[i].friends@[b],
{
    assert(group_matches_row(friends, rows[i], groups[i]));
    lemma_members_keep_order(friends, rows[i].id, a, b);
}

} // verus!
