use walle_q::infos::{FetchedGroup, GroupMemberPermission, Infos};

fn groups(i: &Infos) -> (Vec<i64>, Vec<i64>, Vec<i64>) {
    let mut o: Vec<i64> = i.owned_groups.iter().map(|e| *e.key()).collect();
    let mut a: Vec<i64> = i.admined_groups.iter().map(|e| *e.key()).collect();
    let mut g: Vec<i64> = i.groups.iter().map(|e| *e.key()).collect();
    o.sort();
    a.sort();
    g.sort();
    (o, a, g)
}

#[test]
fn role_change_moves_group() {
    let mut i = Infos::new();
    i.place_group(1, 11, "one".to_string(), None);
    i.place_group(2, 22, "two".to_string(), Some(GroupMemberPermission::Owner));
    i.set_own_role(1, GroupMemberPermission::Administrator);
    assert_eq!(groups(&i), (vec![2], vec![1], vec![]));
    i.set_own_role(2, GroupMemberPermission::Member);
    assert_eq!(groups(&i), (vec![], vec![1], vec![2]));
    i.set_own_role(1, GroupMemberPermission::Owner);
    assert_eq!(groups(&i), (vec![1], vec![], vec![2]));
    assert_eq!(i.owned_groups.get(&1).unwrap().group_id, "11");
}

#[test]
fn role_change_of_unknown_group_changes_nothing() {
    let mut i = Infos::new();
    i.place_group(1, 11, "one".to_string(), None);
    i.set_own_role(5, GroupMemberPermission::Owner);
    assert_eq!(groups(&i), (vec![], vec![], vec![1]));
}

#[test]
fn admin_and_owner_checks() {
    let mut i = Infos::new();
    i.place_group(1, 1, "a".to_string(), Some(GroupMemberPermission::Administrator));
    i.place_group(2, 2, "b".to_string(), Some(GroupMemberPermission::Owner));
    i.place_group(3, 3, "c".to_string(), None);
    assert!(i.check_admin(1).is_ok());
    assert!(i.check_admin(2).is_ok());
    let e = i.check_admin(3).unwrap_err();
    assert_eq!((e.retcode, e.message.as_str()), (34002, "权限不足"));
    assert!(i.check_owner(1).is_err());
    assert!(i.check_owner(2).is_ok());
}

#[test]
fn rename_finds_the_group_in_any_map() {
    let mut i = Infos::new();
    i.place_group(9, 9, "old".to_string(), Some(GroupMemberPermission::Owner));
    i.rename_group(9, "new".to_string());
    assert_eq!(i.owned_groups.get(&9).unwrap().group_name, "new");
}

#[test]
fn refresh_replaces_friends_and_groups() {
    let mut i = Infos::new();
    i.add_friend(5, "five".to_string());
    i.update_friends(vec![(6, "six".to_string()), (7, "seven".to_string())]);
    assert!(i.friends.get(&5).is_none());
    assert_eq!(i.friends.get(&7).unwrap().nickname, "seven");
    assert_eq!(i.friends.get(&6).unwrap().user_id, "6");
    i.place_group(100, 100, "gone".to_string(), None);
    i.update_groups(vec![
        FetchedGroup { uin: 1, code: 10, name: "a".to_string(), role: Some(GroupMemberPermission::Owner) },
        FetchedGroup { uin: 2, code: 20, name: "b".to_string(), role: None },
    ]);
    assert_eq!(groups(&i), (vec![1], vec![], vec![2]));
    i.remove_friend(6);
    assert!(i.friends.get(&6).is_none());
}
