//! What the bot knows of its friends and of the groups it is in, and in which
//! role: the groups it owns, the groups it administers, and the others.
//!
//! The maps are `dashmap` maps keyed by QQ number.  Each holds a group in at
//! most one role; every operation here keeps that so.
use vstd::prelude::*;
use dashmap::DashMap;
use crate::decimal::{int_chars, i64_to_string};
use crate::resp::{RespError, permission_denied, is_error};

verus! {

#[verifier::external_type_specification]
#[verifier::external_body]
#[verifier::reject_recursive_types(K)]
#[verifier::reject_recursive_types(V)]
#[verifier::reject_recursive_types(S)]
pub struct ExDashMap<K, V, S>(DashMap<K, V, S>);

/// A group as OneBot shows it.
#[derive(Debug)]
pub struct GroupInfo {
    pub group_id: String,
    pub group_name: String,
}

/// A user as OneBot shows it.
#[derive(Debug)]
pub struct UserInfo {
    pub user_id: String,
    pub nickname: String,
}

/// The role of a member in a group.
#[derive(Debug, Clone, Copy, PartialEq, Eq)]
pub enum GroupMemberPermission {
    Owner,
    Administrator,
    Member,
}

/// The contents of a map of groups: for each key, the group's identifier and
/// name.
pub uninterp spec fn group_entries(m: DashMap<i64, GroupInfo>) -> Map<i64, (Seq<char>, Seq<char>)>;

/// The contents of a map of friends: for each key, the user's identifier and
/// nickname.
pub uninterp spec fn friend_entries(m: DashMap<i64, UserInfo>) -> Map<i64, (Seq<char>, Seq<char>)>;

/// `DashMap::new`: an empty map.
#[verifier::external_body]
fn group_map_new() -> (m: DashMap<i64, GroupInfo>)
    ensures
        group_entries(m).dom() == Set::<i64>::empty(),
{
    DashMap::new()
}

/// `DashMap::insert`: the key now maps to the value, whatever it held before.
#[verifier::external_body]
fn group_map_insert(m: &mut DashMap<i64, GroupInfo>, k: i64, v: GroupInfo)
    ensures
        group_entries(*final(m)) == group_entries(*old(m)).insert(k, (v.group_id@, v.group_name@)),
{
    m.insert(k, v);
}

/// `DashMap::remove`: takes the entry of the key out and hands it back, or
/// leaves the map as it is when the key has none.
#[verifier::external_body]
fn group_map_remove(m: &mut DashMap<i64, GroupInfo>, k: i64) -> (r: Option<(i64, GroupInfo)>)
    ensures
        match r {
            Some((k2, v)) => k2 == k && group_entries(*old(m)).contains_key(k) && group_entries(
                *old(m),
            )[k] == (v.group_id@, v.group_name@) && group_entries(*final(m)) == group_entries(
                *old(m),
            ).remove(k),
            None => !group_entries(*old(m)).contains_key(k) && group_entries(*final(m))
                == group_entries(*old(m)),
        },
{
    m.remove(&k)
}

/// `DashMap::contains_key`.
#[verifier::external_body]
fn group_map_contains(m: &DashMap<i64, GroupInfo>, k: i64) -> (b: bool)
    ensures
        b == group_entries(*m).contains_key(k),
{
    m.contains_key(&k)
}

/// `DashMap::clear`: the map is empty afterwards.
#[verifier::external_body]
fn group_map_clear(m: &mut DashMap<i64, GroupInfo>)
    ensures
        group_entries(*final(m)).dom() == Set::<i64>::empty(),
{
    m.clear();
}

/// `DashMap::new`: an empty map.
#[verifier::external_body]
fn friend_map_new() -> (m: DashMap<i64, UserInfo>)
    ensures
        friend_entries(m).dom() == Set::<i64>::empty(),
{
    DashMap::new()
}

/// `DashMap::insert`: the key now maps to the value, whatever it held before.
#[verifier::external_body]
fn friend_map_insert(m: &mut DashMap<i64, UserInfo>, k: i64, v: UserInfo)
    ensures
        friend_entries(*final(m)) == friend_entries(*old(m)).insert(k, (v.user_id@, v.nickname@)),
{
    m.insert(k, v);
}

/// `DashMap::remove`, with what it hands back dropped: the key has no entry
/// afterwards.
#[verifier::external_body]
fn friend_map_remove(m: &mut DashMap<i64, UserInfo>, k: i64)
    ensures
        friend_entries(*final(m)) == friend_entries(*old(m)).remove(k),
{
    m.remove(&k);
}

/// `DashMap::clear`: the map is empty afterwards.
#[verifier::external_body]
fn friend_map_clear(m: &mut DashMap<i64, UserInfo>)
    ensures
        friend_entries(*final(m)).dom() == Set::<i64>::empty(),
{
    m.clear();
}

/// The friends and groups of one bot.
pub struct Infos {
    pub owned_groups: DashMap<i64, GroupInfo>,
    pub admined_groups: DashMap<i64, GroupInfo>,
    pub groups: DashMap<i64, GroupInfo>,
    pub friends: DashMap<i64, UserInfo>,
}

/// The contents of [`Infos`].
pub struct InfosView {
    pub owned: Map<i64, (Seq<char>, Seq<char>)>,
    pub admined: Map<i64, (Seq<char>, Seq<char>)>,
    pub groups: Map<i64, (Seq<char>, Seq<char>)>,
    pub friends: Map<i64, (Seq<char>, Seq<char>)>,
}

impl View for Infos {
    type V = InfosView;

    open spec fn view(&self) -> InfosView {
        InfosView {
            owned: group_entries(self.owned_groups),
            admined: group_entries(self.admined_groups),
            groups: group_entries(self.groups),
            friends: friend_entries(self.friends),
        }
    }
}

/// No group is held in two roles.
pub open spec fn roles_disjoint(v: InfosView) -> bool {
    &&& forall|k: i64| v.owned.contains_key(k) ==> !v.admined.contains_key(k) && !v.groups.contains_key(k)
    &&& forall|k: i64| v.admined.contains_key(k) ==> !v.groups.contains_key(k)
}

/// Moves the entry of `k` into `to` from `first` if it is there, else from
/// `second` if it is there; with it in neither, nothing changes.
pub open spec fn move_entry(
    first: Map<i64, (Seq<char>, Seq<char>)>,
    second: Map<i64, (Seq<char>, Seq<char>)>,
    to: Map<i64, (Seq<char>, Seq<char>)>,
    k: i64,
) -> (Map<i64, (Seq<char>, Seq<char>)>, Map<i64, (Seq<char>, Seq<char>)>, Map<i64, (Seq<char>, Seq<char>)>) {
    if first.contains_key(k) {
        (first.remove(k), second, to.insert(k, first[k]))
    } else if second.contains_key(k) {
        (first, second.remove(k), to.insert(k, second[k]))
    } else {
        (first, second, to)
    }
}

/// What the bot's becoming `perm` in group `k` does to what it knows: the
/// group moves into the map of that role, taken from the map of the other
/// roles that holds it.
pub open spec fn after_own_role(v: InfosView, k: i64, perm: GroupMemberPermission) -> InfosView {
    match perm {
        GroupMemberPermission::Administrator => {
            let (g, o, a) = move_entry(v.groups, v.owned, v.admined, k);
            InfosView { owned: o, admined: a, groups: g, friends: v.friends }
        },
        GroupMemberPermission::Member => {
            let (a, o, g) = move_entry(v.admined, v.owned, v.groups, k);
            InfosView { owned: o, admined: a, groups: g, friends: v.friends }
        },
        GroupMemberPermission::Owner => {
            let (g, a, o) = move_entry(v.groups, v.admined, v.owned, k);
            InfosView { owned: o, admined: a, groups: g, friends: v.friends }
        },
    }
}

/// The name of group `k` set to `name` in whichever map holds it, the plain
/// groups looked at first, then the administered ones, then the owned ones.
pub open spec fn after_rename(v: InfosView, k: i64, name: Seq<char>) -> InfosView {
    if v.groups.contains_key(k) {
        InfosView { groups: v.groups.insert(k, (v.groups[k].0, name)), ..v }
    } else if v.admined.contains_key(k) {
        InfosView { admined: v.admined.insert(k, (v.admined[k].0, name)), ..v }
    } else if v.owned.contains_key(k) {
        InfosView { owned: v.owned.insert(k, (v.owned[k].0, name)), ..v }
    } else {
        v
    }
}

/// The bot's becoming `perm` in group `k`, held in one of the three maps:
/// its entry, unchanged, is then in the map of that role and in no other;
/// every other group and the friends stay as they were.
pub proof fn law_own_role(v: InfosView, k: i64, perm: GroupMemberPermission)
    requires
        roles_disjoint(v),
        v.groups.contains_key(k) || v.admined.contains_key(k) || v.owned.contains_key(k),
    ensures
        ({
            let r = after_own_role(v, k, perm);
            let x = if v.groups.contains_key(k) {
                v.groups[k]
            } else if v.admined.contains_key(k) {
                v.admined[k]
            } else {
                v.owned[k]
            };
            &&& r.friends == v.friends
            &&& perm is Owner ==> r.owned.contains_key(k) && r.owned[k] == x && !r.admined.contains_key(k)
                && !r.groups.contains_key(k)
            &&& perm is Administrator ==> r.admined.contains_key(k) && r.admined[k] == x
                && !r.owned.contains_key(k) && !r.groups.contains_key(k)
            &&& perm is Member ==> r.groups.contains_key(k) && r.groups[k] == x && !r.owned.contains_key(k)
                && !r.admined.contains_key(k)
            &&& forall|j: i64| j != k ==> r.owned.contains_key(j) == v.owned.contains_key(j)
                && r.admined.contains_key(j) == v.admined.contains_key(j)
                && r.groups.contains_key(j) == v.groups.contains_key(j)
            &&& forall|j: i64| j != k && r.owned.contains_key(j) ==> r.owned[j] == v.owned[j]
            &&& forall|j: i64| j != k && r.admined.contains_key(j) ==> r.admined[j] == v.admined[j]
            &&& forall|j: i64| j != k && r.groups.contains_key(j) ==> r.groups[j] == v.groups[j]
        }),
{
}

/// Renaming group `k`: in whichever of the three maps holds it, its entry
/// keeps its number and takes the new name; every other entry, the groups
/// each map holds, and the friends stay as they were.
pub proof fn law_rename_group(v: InfosView, k: i64, name: Seq<char>)
    requires
        roles_disjoint(v),
    ensures
        after_rename(v, k, name).friends == v.friends,
        after_rename(v, k, name).groups.dom() == v.groups.dom(),
        after_rename(v, k, name).admined.dom() == v.admined.dom(),
        after_rename(v, k, name).owned.dom() == v.owned.dom(),
        v.groups.contains_key(k) ==> after_rename(v, k, name).groups[k] == (v.groups[k].0, name),
        v.admined.contains_key(k) ==> after_rename(v, k, name).admined[k] == (v.admined[k].0, name),
        v.owned.contains_key(k) ==> after_rename(v, k, name).owned[k] == (v.owned[k].0, name),
        forall|j: i64| j != k && v.groups.contains_key(j) ==> after_rename(v, k, name).groups[j] == v.groups[j],
        forall|j: i64| j != k && v.admined.contains_key(j) ==> after_rename(v, k, name).admined[j] == v.admined[j],
        forall|j: i64| j != k && v.owned.contains_key(j) ==> after_rename(v, k, name).owned[j] == v.owned[j],
{
    let r = after_rename(v, k, name);
    assert(r.groups.dom() =~= v.groups.dom());
    assert(r.admined.dom() =~= v.admined.dom());
    assert(r.owned.dom() =~= v.owned.dom());
}

/// Takes the entry of `k` out of `from` and puts it into `to`; reports
/// whether there was one.
fn move_between(from: &mut DashMap<i64, GroupInfo>, to: &mut DashMap<i64, GroupInfo>, k: i64) -> (moved: bool)
    ensures
        moved == group_entries(*old(from)).contains_key(k),
        moved ==> group_entries(*final(from)) == group_entries(*old(from)).remove(k)
            && group_entries(*final(to)) == group_entries(*old(to)).insert(k, group_entries(*old(from))[k]),
        !moved ==> group_entries(*final(from)) == group_entries(*old(from)) && group_entries(*final(to))
            == group_entries(*old(to)),
{
    match group_map_remove(from, k) {
        Some((_, info)) => {
            group_map_insert(to, k, info);
            true
        },
        None => false,
    }
}

/// Replaces the name of group `k` in `m`, if `m` holds it.
fn rename_in(m: &mut DashMap<i64, GroupInfo>, k: i64, name: String) -> (found: bool)
    ensures
        found == group_entries(*old(m)).contains_key(k),
        found ==> group_entries(*final(m)) == group_entries(*old(m)).insert(
            k,
            (group_entries(*old(m))[k].0, name@),
        ),
        !found ==> group_entries(*final(m)) == group_entries(*old(m)),
{
    match group_map_remove(m, k) {
        Some((_, info)) => {
            let GroupInfo { group_id, group_name } = info;
            group_map_insert(m, k, GroupInfo { group_id, group_name: name });
            proof {
                assert(group_entries(*final(m)) =~= group_entries(*old(m)).insert(
                    k,
                    (group_entries(*old(m))[k].0, name@),
                ));
            }
            true
        },
        None => false,
    }
}

impl Infos {
    /// Knows no friend and no group.
    pub fn new() -> (i: Infos)
        ensures
            i@.owned.is_empty(),
            i@.admined.is_empty(),
            i@.groups.is_empty(),
            i@.friends.is_empty(),
    {
        Infos {
            owned_groups: group_map_new(),
            admined_groups: group_map_new(),
            groups: group_map_new(),
            friends: friend_map_new(),
        }
    }

    /// Records that the bot now has the role `perm` in group `group_code`.
    pub fn set_own_role(&mut self, group_code: i64, perm: GroupMemberPermission)
        ensures
            final(self)@ == after_own_role(old(self)@, group_code, perm),
            roles_disjoint(old(self)@) ==> roles_disjoint(final(self)@),
    {
        match perm {
            GroupMemberPermission::Administrator => {
                if !move_between(&mut self.groups, &mut self.admined_groups, group_code) {
                    move_between(&mut self.owned_groups, &mut self.admined_groups, group_code);
                }
            },
            GroupMemberPermission::Member => {
                if !move_between(&mut self.admined_groups, &mut self.groups, group_code) {
                    move_between(&mut self.owned_groups, &mut self.groups, group_code);
                }
            },
            GroupMemberPermission::Owner => {
                if !move_between(&mut self.groups, &mut self.owned_groups, group_code) {
                    move_between(&mut self.admined_groups, &mut self.owned_groups, group_code);
                }
            },
        }
        proof {
            assert(final(self)@.owned =~= after_own_role(old(self)@, group_code, perm).owned);
            assert(final(self)@.admined =~= after_own_role(old(self)@, group_code, perm).admined);
            assert(final(self)@.groups =~= after_own_role(old(self)@, group_code, perm).groups);
        }
    }

    /// Records the new name of group `group_code`.
    pub fn rename_group(&mut self, group_code: i64, name: String)
        ensures
            final(self)@ == after_rename(old(self)@, group_code, name@),
            roles_disjoint(old(self)@) ==> roles_disjoint(final(self)@),
    {
        let ghost n = name@;
        if !group_map_contains(&self.groups, group_code) {
            if !group_map_contains(&self.admined_groups, group_code) {
                rename_in(&mut self.owned_groups, group_code, name);
            } else {
                rename_in(&mut self.admined_groups, group_code, name);
            }
        } else {
            rename_in(&mut self.groups, group_code, name);
        }
        proof {
            assert(final(self)@.owned =~= after_rename(old(self)@, group_code, n).owned);
            assert(final(self)@.admined =~= after_rename(old(self)@, group_code, n).admined);
            assert(final(self)@.groups =~= after_rename(old(self)@, group_code, n).groups);
        }
    }

    /// Forgets the friend `uin`.
    pub fn remove_friend(&mut self, uin: i64)
        ensures
            final(self)@ == (InfosView { friends: old(self)@.friends.remove(uin), ..old(self)@ }),
    {
        friend_map_remove(&mut self.friends, uin);
    }

    /// Succeeds when the bot owns or administers group `group_id`.
    pub fn check_admin(&self, group_id: i64) -> (r: Result<(), RespError>)
        ensures
            r is Ok <==> (self@.owned.contains_key(group_id) || self@.admined.contains_key(group_id)),
            r matches Err(e) ==> is_error(e, 34002, "权限不足"@, ""@),
    {
        if !(group_map_contains(&self.owned_groups, group_id) || group_map_contains(&self.admined_groups, group_id)) {
            Err(permission_denied(""))
        } else {
            Ok(())
        }
    }

    /// Succeeds when the bot owns group `group_id`.
    pub fn check_owner(&self, group_id: i64) -> (r: Result<(), RespError>)
        ensures
            r is Ok <==> self@.owned.contains_key(group_id),
            r matches Err(e) ==> is_error(e, 34002, "权限不足"@, ""@),
    {
        if !group_map_contains(&self.owned_groups, group_id) {
            Err(permission_denied(""))
        } else {
            Ok(())
        }
    }

    /// Forgets every friend.
    pub fn clear_friends(&mut self)
        ensures
            final(self)@ == (InfosView { friends: Map::empty(), ..old(self)@ }),
    {
        friend_map_clear(&mut self.friends);
        proof {
            assert(friend_entries(self.friends) =~= Map::empty());
        }
    }

    /// Records the friend `uin` with nickname `nick`; its user identifier is
    /// the text of `uin`.
    pub fn add_friend(&mut self, uin: i64, nick: String)
        ensures
            final(self)@ == (InfosView {
                friends: old(self)@.friends.insert(uin, (int_chars(uin as int), nick@)),
                ..old(self)@
            }),
    {
        friend_map_insert(&mut self.friends, uin, UserInfo { user_id: i64_to_string(uin), nickname: nick });
    }

    /// Forgets every group.
    pub fn clear_groups(&mut self)
        ensures
            final(self)@ == (InfosView {
                owned: Map::empty(),
                admined: Map::empty(),
                groups: Map::empty(),
                friends: old(self)@.friends,
            }),
    {
        group_map_clear(&mut self.owned_groups);
        group_map_clear(&mut self.admined_groups);
        group_map_clear(&mut self.groups);
        proof {
            assert(group_entries(self.owned_groups) =~= Map::empty());
            assert(group_entries(self.admined_groups) =~= Map::empty());
            assert(group_entries(self.groups) =~= Map::empty());
        }
    }

    /// Records group `uin` (whose code is `code` and name `name`) in the map
    /// of the role `role` that the bot has there: owned, administered, or
    /// else plain, also when the bot's role is not known.
    pub fn place_group(&mut self, uin: i64, code: i64, name: String, role: Option<GroupMemberPermission>)
        ensures
            ({
                let entry = (int_chars(code as int), name@);
                let o = old(self)@;
                final(self)@ == match role {
                    Some(GroupMemberPermission::Owner) => InfosView { owned: o.owned.insert(uin, entry), ..o },
                    Some(GroupMemberPermission::Administrator) => InfosView { admined: o.admined.insert(uin, entry), ..o },
                    _ => InfosView { groups: o.groups.insert(uin, entry), ..o },
                }
            }),
    {
        let info = GroupInfo { group_id: i64_to_string(code), group_name: name };
        match role {
            Some(GroupMemberPermission::Owner) => group_map_insert(&mut self.owned_groups, uin, info),
            Some(GroupMemberPermission::Administrator) => group_map_insert(&mut self.admined_groups, uin, info),
            _ => group_map_insert(&mut self.groups, uin, info),
        }
    }
}

/// A group the client listed: its number, its code, its name, and the bot's
/// role there if the group's administrators name the bot.
#[derive(Debug)]
pub struct FetchedGroup {
    pub uin: i64,
    pub code: i64,
    pub name: String,
    pub role: Option<GroupMemberPermission>,
}

/// The friends map built from a friend list, in order.
pub open spec fn friends_map(fs: Seq<(i64, String)>) -> Map<i64, (Seq<char>, Seq<char>)>
    decreases fs.len(),
{
    if fs.len() == 0 {
        Map::empty()
    } else {
        friends_map(fs.drop_last()).insert(fs.last().0, (int_chars(fs.last().0 as int), fs.last().1@))
    }
}

/// What placing one group does.
pub open spec fn place_one(o: InfosView, g: FetchedGroup) -> InfosView {
    let entry = (int_chars(g.code as int), g.name@);
    match g.role {
        Some(GroupMemberPermission::Owner) => InfosView { owned: o.owned.insert(g.uin, entry), ..o },
        Some(GroupMemberPermission::Administrator) => InfosView { admined: o.admined.insert(g.uin, entry), ..o },
        _ => InfosView { groups: o.groups.insert(g.uin, entry), ..o },
    }
}

/// What placing a list of groups does, in order.
pub open spec fn place_all(v: InfosView, gs: Seq<FetchedGroup>) -> InfosView
    decreases gs.len(),
{
    if gs.len() == 0 {
        v
    } else {
        place_one(place_all(v, gs.drop_last()), gs.last())
    }
}

/// `v` with no group at all.
pub open spec fn without_groups(v: InfosView) -> InfosView {
    InfosView { owned: Map::empty(), admined: Map::empty(), groups: Map::empty(), friends: v.friends }
}

impl Infos {
    /// Replaces the friends with the client's friend list.
    pub fn update_friends(&mut self, friends: Vec<(i64, String)>)
        ensures
            final(self)@ == (InfosView { friends: friends_map(friends@), ..old(self)@ }),
    {
        self.clear_friends();
        let ghost all = friends@;
        let mut rest = friends;
        let n = rest.len();
        let mut i: usize = 0;
        proof {
            assert(all.take(0) =~= Seq::<(i64, String)>::empty());
            assert(all.skip(0) =~= all);
            assert(friends_map(all.take(0)) =~= Map::<i64, (Seq<char>, Seq<char>)>::empty());
        }
        while i < n
            invariant
                n == all.len(),
                i <= n,
                rest@ == all.skip(i as int),
                self@ == (InfosView { friends: friends_map(all.take(i as int)), ..old(self)@ }),
            decreases n - i,
        {
            let (uin, nick) = rest.remove(0);
            assert((uin, nick) == all[i as int]);
            assert(rest@ =~= all.skip(i + 1));
            self.add_friend(uin, nick);
            proof {
                assert(all.take(i + 1).drop_last() =~= all.take(i as int));
            }
            i = i + 1;
        }
        proof {
            assert(all.take(n as int) =~= all);
        }
    }

    /// Replaces the groups with the client's group list, each in the map of
    /// the bot's role there.
    pub fn update_groups(&mut self, groups: Vec<FetchedGroup>)
        ensures
            final(self)@ == place_all(without_groups(old(self)@), groups@),
    {
        self.clear_groups();
        let ghost start = self@;
        let ghost all = groups@;
        let mut rest = groups;
        let n = rest.len();
        let mut i: usize = 0;
        proof {
            assert(all.take(0) =~= Seq::<FetchedGroup>::empty());
            assert(all.skip(0) =~= all);
        }
        while i < n
            invariant
                n == all.len(),
                i <= n,
                rest@ == all.skip(i as int),
                start == without_groups(old(self)@),
                self@ == place_all(start, all.take(i as int)),
            decreases n - i,
        {
            let g = rest.remove(0);
            assert(g == all[i as int]);
            assert(rest@ =~= all.skip(i + 1));
            let FetchedGroup { uin, code, name, role } = g;
            self.place_group(uin, code, name, role);
            proof {
                assert(all.take(i + 1).drop_last() =~= all.take(i as int));
            }
            i = i + 1;
        }
        proof {
            assert(all.take(n as int) =~= all);
        }
    }
}

/// Whether no group number occurs twice in a group list.
pub open spec fn distinct_groups(gs: Seq<FetchedGroup>) -> bool {
    forall|i: int, j: int| 0 <= i < j < gs.len() ==> gs[i].uin != gs[j].uin
}

/// Whether every group in `v` is one of `gs`.
pub open spec fn groups_among(v: InfosView, gs: Seq<FetchedGroup>) -> bool {
    forall|k: i64| (v.owned.contains_key(k) || v.admined.contains_key(k) || v.groups.contains_key(k))
        ==> exists|i: int| 0 <= i < gs.len() && gs[i].uin == k
}

proof fn lemma_place_all_disjoint(v: InfosView, gs: Seq<FetchedGroup>)
    requires
        v.owned.is_empty() && v.admined.is_empty() && v.groups.is_empty(),
        distinct_groups(gs),
    ensures
        roles_disjoint(place_all(v, gs)),
        groups_among(place_all(v, gs), gs),
    decreases gs.len(),
{
    if gs.len() > 0 {
        let p = gs.drop_last();
        lemma_place_all_disjoint(v, p);
        let w = place_all(v, p);
        let g = gs.last();
        assert forall|k: i64| (w.owned.contains_key(k) || w.admined.contains_key(k) || w.groups.contains_key(k))
            implies k != g.uin by {
            let i = choose|i: int| 0 <= i < p.len() && p[i].uin == k;
            assert(gs[i] == p[i]);
        }
        let r = place_all(v, gs);
        assert forall|k: i64| (r.owned.contains_key(k) || r.admined.contains_key(k) || r.groups.contains_key(k))
            implies exists|i: int| 0 <= i < gs.len() && gs[i].uin == k by {
            if k == g.uin {
                assert(gs[gs.len() - 1].uin == k);
            } else {
                let i = choose|i: int| 0 <= i < p.len() && p[i].uin == k;
                assert(gs[i] == p[i]);
            }
        }
    }
}

/// After a refresh from a group list with no group twice, no group is held
/// in two roles, and every group known is one of the list.
pub proof fn lemma_refresh_keeps_disjoint(v: InfosView, gs: Seq<FetchedGroup>)
    requires
        distinct_groups(gs),
    ensures
        roles_disjoint(place_all(without_groups(v), gs)),
        groups_among(place_all(without_groups(v), gs), gs),
{
    lemma_place_all_disjoint(without_groups(v), gs);
}

/// The bot's becoming administrator, member or owner of a group moves the
/// group between the maps and never leaves it in two of them.
pub proof fn lemma_role_change_keeps_disjoint(v: InfosView, k: i64, perm: GroupMemberPermission)
    requires
        roles_disjoint(v),
    ensures
        roles_disjoint(after_own_role(v, k, perm)),
        after_own_role(v, k, perm).friends == v.friends,
{
}

/// After the bot becomes owner, administrator or member of a group it knew,
/// the group is in the map of that role and in no other.
pub proof fn lemma_role_change_places_group(v: InfosView, k: i64, perm: GroupMemberPermission)
    requires
        v.owned.contains_key(k) || v.admined.contains_key(k) || v.groups.contains_key(k),
        roles_disjoint(v),
    ensures
        ({
            let w = after_own_role(v, k, perm);
            match perm {
                GroupMemberPermission::Owner => w.owned.contains_key(k) && !w.admined.contains_key(k) && !w.groups.contains_key(k),
                GroupMemberPermission::Administrator => w.admined.contains_key(k) && !w.owned.contains_key(k) && !w.groups.contains_key(k),
                GroupMemberPermission::Member => w.groups.contains_key(k) && !w.owned.contains_key(k) && !w.admined.contains_key(k),
            }
        }),
{
}

} // verus!
