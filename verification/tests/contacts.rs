use gtk_qq::contacts::{group_friends, Friend, FriendsGroup, FriendsGroupRow};

fn friend(id: i64, name: &str, group_id: i64) -> Friend {
    Friend {
        id,
        name: name.to_string(),
        remark: format!("remark of {}", name),
        group_id,
    }
}

fn row(id: i64, name: &str, online_friends: i64) -> FriendsGroupRow {
    FriendsGroupRow {
        id,
        name: name.to_string(),
        online_friends,
    }
}

fn ids(group: &FriendsGroup) -> Vec<i64> {
    group.friends.iter().map(|f| f.id).collect()
}

#[test]
fn friends_are_sorted_into_their_groups_in_order() {
    let friends = vec![
        friend(10, "alice", 1),
        friend(11, "bob", 2),
        friend(12, "carol", 1),
        friend(13, "dave", 2),
        friend(14, "erin", 1),
    ];
    let rows = vec![row(2, "Classmates", 1), row(1, "Family", 3)];
    let groups = group_friends(&friends, &rows);
    assert_eq!(groups.len(), 2);
    assert_eq!(groups[0].id, 2);
    assert_eq!(groups[0].name, "Classmates");
    assert_eq!(groups[0].online_friends, 1);
    assert_eq!(ids(&groups[0]), vec![11, 13]);
    assert_eq!(groups[1].id, 1);
    assert_eq!(groups[1].name, "Family");
    assert_eq!(groups[1].online_friends, 3);
    assert_eq!(ids(&groups[1]), vec![10, 12, 14]);
    assert_eq!(groups[1].friends[1].name, "carol");
    assert_eq!(groups[1].friends[1].remark, "remark of carol");
}

#[test]
fn friend_without_listed_group_is_left_out() {
    let friends = vec![friend(1, "a", 5), friend(2, "b", 6)];
    let rows = vec![row(5, "Five", 0)];
    let groups = group_friends(&friends, &rows);
    assert_eq!(groups.len(), 1);
    assert_eq!(ids(&groups[0]), vec![1]);
}

#[test]
fn empty_group_stays_in_the_list() {
    let friends = vec![friend(1, "a", 5)];
    let rows = vec![row(7, "Empty", 0), row(5, "Five", 1)];
    let groups = group_friends(&friends, &rows);
    assert_eq!(groups.len(), 2);
    assert!(groups[0].friends.is_empty());
    assert_eq!(ids(&groups[1]), vec![1]);
}

#[test]
fn repeated_group_row_repeats_its_friends() {
    let friends = vec![friend(1, "a", 5), friend(2, "b", 5)];
    let rows = vec![row(5, "Five", 0), row(5, "Five again", 0)];
    let groups = group_friends(&friends, &rows);
    assert_eq!(ids(&groups[0]), vec![1, 2]);
    assert_eq!(ids(&groups[1]), vec![1, 2]);
}

#[test]
fn no_rows_give_an_empty_list() {
    let friends = vec![friend(1, "a", 5)];
    let groups = group_friends(&friends, &Vec::new());
    assert!(groups.is_empty());
}

#[test]
fn grouping_keeps_every_friend_once() {
    let friends = vec![
        friend(1, "a", 3),
        friend(2, "b", 1),
        friend(3, "c", 2),
        friend(4, "d", 3),
        friend(5, "e", 3),
        friend(6, "f", 1),
    ];
    let rows = vec![row(1, "One", 0), row(2, "Two", 0), row(3, "Three", 0)];
    let groups = group_friends(&friends, &rows);
    let total: usize = groups.iter().map(|g| g.friends.len()).sum();
    assert_eq!(total, friends.len());
    let mut seen: Vec<i64> = groups.iter().flat_map(ids).collect();
    seen.sort();
    assert_eq!(seen, vec![1, 2, 3, 4, 5, 6]);
}

#[test]
fn a_friend_is_in_a_group_exactly_when_its_group_matches() {
    let friends = vec![friend(1, "a", 1), friend(2, "b", 2), friend(3, "c", 1)];
    let rows = vec![row(1, "One", 0), row(2, "Two", 0)];
    let groups = group_friends(&friends, &rows);
    for (i, g) in groups.iter().enumerate() {
        for f in &friends {
            let inside = g.friends.iter().any(|m| m.id == f.id);
            assert_eq!(inside, f.group_id == rows[i].id);
        }
    }
}

#[test]
fn cloned_friend_keeps_every_field() {
    let f = friend(9, "zoe", 4);
    let g = f.clone();
    assert_eq!(g.id, 9);
    assert_eq!(g.name, "zoe");
    assert_eq!(g.remark, "remark of zoe");
    assert_eq!(g.group_id, 4);
}

#[test]
fn grouping_counts_the_friends_whose_group_is_listed() {
    let friends = vec![
        friend(1, "a", 1),
        friend(2, "b", 9),
        friend(3, "c", 2),
        friend(4, "d", 9),
        friend(5, "e", 1),
    ];
    let rows = vec![row(1, "One", 0), row(2, "Two", 0)];
    let groups = group_friends(&friends, &rows);
    let total: usize = groups.iter().map(|g| g.friends.len()).sum();
    let listed = friends.iter().filter(|f| rows.iter().any(|r| r.id == f.group_id)).count();
    assert_eq!(total, listed);
    assert_eq!(total, 3);
}
