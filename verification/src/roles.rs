//! The level-role reconciler: which reward roles a member gains and loses
//! at a level.

use vstd::prelude::*;
use vstd::multiset::Multiset;
use crate::guild::{Guild, GuildLevelRoles, AUTOROLE_LEVEL};
use crate::ids::{parsed_id, parse_id};

verus! {

/// A reward role: its identifier and the level that earns it.
#[derive(Clone, Copy, Debug, PartialEq, Eq)]
pub struct LevelRole {
    pub id: u64,
    pub level: i32,
}

/// The role operations that bring a member's reward roles in line with a
/// level. The removals are done first, then the additions.
#[derive(Clone, Debug, PartialEq, Eq)]
pub struct RolePlan {
    pub remove: Vec<LevelRole>,
    pub add: Vec<LevelRole>,
}

/// Whether an entry of the configuration takes part in reconciliation: the
/// autorole does not, and an entry with a malformed identifier is skipped.
pub open spec fn takes_part(entry: GuildLevelRoles) -> bool {
    entry.level != AUTOROLE_LEVEL && parsed_id(entry.id@) is Some
}

/// The reward role that an entry stands for.
pub open spec fn role_of(entry: GuildLevelRoles) -> LevelRole {
    LevelRole { id: parsed_id(entry.id@)->0, level: entry.level }
}

/// The reward roles of a configuration, in its order.
pub open spec fn reward_roles(entries: Seq<GuildLevelRoles>) -> Seq<LevelRole>
    decreases entries.len(),
{
    if entries.len() == 0 {
        Seq::empty()
    } else if takes_part(entries.last()) {
        reward_roles(entries.drop_last()).push(role_of(entries.last()))
    } else {
        reward_roles(entries.drop_last())
    }
}

/// The roles of `roles` whose level is at most `level`, in their order.
pub open spec fn reached(roles: Seq<LevelRole>, level: int) -> Seq<LevelRole>
    decreases roles.len(),
{
    if roles.len() == 0 {
        Seq::empty()
    } else if roles.last().level <= level {
        reached(roles.drop_last(), level).push(roles.last())
    } else {
        reached(roles.drop_last(), level)
    }
}

/// The roles of `roles` whose level is under `level`, in their order.
pub open spec fn outgrown(roles: Seq<LevelRole>, level: int) -> Seq<LevelRole>
    decreases roles.len(),
{
    if roles.len() == 0 {
        Seq::empty()
    } else if roles.last().level < level {
        outgrown(roles.drop_last(), level).push(roles.last())
    } else {
        outgrown(roles.drop_last(), level)
    }
}

/// `role` put into a list that is ordered from the highest level down,
/// behind every role of its own level.
pub open spec fn placed(ordered: Seq<LevelRole>, role: LevelRole) -> Seq<LevelRole>
    decreases ordered.len(),
{
    if ordered.len() == 0 {
        seq![role]
    } else if ordered.last().level >= role.level {
        ordered.push(role)
    } else {
        placed(ordered.drop_last(), role).push(ordered.last())
    }
}

/// `roles` ordered from the highest level down, roles of one level in the
/// order they had.
pub open spec fn highest_first(roles: Seq<LevelRole>) -> Seq<LevelRole>
    decreases roles.len(),
{
    if roles.len() == 0 {
        Seq::empty()
    } else {
        placed(highest_first(roles.drop_last()), roles.last())
    }
}

/// No role of `roles` stands before one of a higher level.
pub open spec fn descending(roles: Seq<LevelRole>) -> bool {
    forall|i: int, j: int| 0 <= i < j < roles.len() ==> roles[i].level >= roles[j].level
}

/// The roles to take from a member at `new_level`: with either of the two
/// switches on, every reward role under that level; else none.
pub open spec fn roles_to_remove(guild: Guild, new_level: int) -> Seq<LevelRole> {
    if guild.modules.removereachedlevelroles || guild.modules.singlerankrole {
        outgrown(reward_roles(guild.levelroles@), new_level)
    } else {
        Seq::empty()
    }
}

/// The roles to give a member at `new_level`: every reward role up to that
/// level, highest first; in single-rank mode only the first of them.
pub open spec fn roles_to_add(guild: Guild, new_level: int) -> Seq<LevelRole> {
    let candidates = highest_first(reached(reward_roles(guild.levelroles@), new_level));
    if guild.modules.singlerankrole {
        if candidates.len() > 0 {
            seq![candidates[0]]
        } else {
            Seq::empty()
        }
    } else {
        candidates
    }
}

/// The identifiers of `roles`, as a set.
pub open spec fn role_ids(roles: Seq<LevelRole>) -> Set<u64> {
    Set::new(|id: u64| exists|i: int| 0 <= i < roles.len() && #[trigger] roles[i].id == id)
}

/// The roles that a member holds after the plan of `remove` and `add`:
/// those held before, less the removed, and the added.
pub open spec fn roles_after(held: Set<u64>, remove: Seq<LevelRole>, add: Seq<LevelRole>) -> Set<
    u64,
> {
    held.difference(role_ids(remove)).union(role_ids(add))
}

/// The roles of `held` that are not removed, each once, in their order.
pub open spec fn kept_roles(held: Seq<u64>, removed: Set<u64>) -> Seq<u64>
    decreases held.len(),
{
    if held.len() == 0 {
        Seq::empty()
    } else {
        let before = kept_roles(held.drop_last(), removed);
        if removed.contains(held.last()) || before.contains(held.last()) {
            before
        } else {
            before.push(held.last())
        }
    }
}

/// `kept` and behind it the roles of `add` that it does not hold yet, in
/// their order.
pub open spec fn with_granted(kept: Seq<u64>, add: Seq<LevelRole>) -> Seq<u64>
    decreases add.len(),
{
    if add.len() == 0 {
        kept
    } else {
        let before = with_granted(kept, add.drop_last());
        if before.contains(add.last().id) {
            before
        } else {
            before.push(add.last().id)
        }
    }
}

/// Placing a role keeps the others, adds it once, and keeps the order by level.
pub proof fn lemma_placed(ordered: Seq<LevelRole>, role: LevelRole)
    requires
        descending(ordered),
    ensures
        descending(placed(ordered, role)),
        placed(ordered, role).to_multiset() == ordered.to_multiset().insert(role),
        placed(ordered, role).len() == ordered.len() + 1,
        forall|i: int|
            0 <= i < ordered.len() + 1 ==> (#[trigger] placed(ordered, role)[i]).level >= role.level
                || placed(ordered, role)[i] == ordered[i - 1],
        ordered.len() > 0 && ordered[0].level >= role.level ==> placed(ordered, role)[0]
            == ordered[0],
        ordered.len() == 0 || ordered[0].level < role.level ==> placed(ordered, role)[0] == role,
    decreases ordered.len(),
{
    broadcast use vstd::seq_lib::group_to_multiset_ensures;

    let result = placed(ordered, role);
    if ordered.len() == 0 {
        assert(ordered.to_multiset() =~= Multiset::<LevelRole>::empty()) by {
            vstd::seq_lib::to_multiset_len(ordered);
        }
        assert(seq![role] =~= Seq::<LevelRole>::empty().push(role));
        assert(ordered =~= Seq::<LevelRole>::empty());
    } else if ordered.last().level >= role.level {
        assert forall|i: int, j: int| 0 <= i < j < result.len() implies result[i].level
            >= result[j].level by {
            if j == ordered.len() {
                if i < ordered.len() - 1 {
                    assert(ordered[i].level >= ordered[ordered.len() - 1].level);
                }
            }
        }
    } else {
        let shorter = ordered.drop_last();
        assert(descending(shorter));
        lemma_placed(shorter, role);
        let inner = placed(shorter, role);
        assert(result == inner.push(ordered.last()));
        assert(ordered =~= shorter.push(ordered.last()));
        assert(result.to_multiset() =~= ordered.to_multiset().insert(role));
        assert forall|i: int, j: int| 0 <= i < j < result.len() implies result[i].level
            >= result[j].level by {
            if j == result.len() - 1 {
                if inner[i].level >= role.level {
                } else {
                    assert(inner[i] == shorter[i - 1]);
                    assert(ordered[i - 1].level >= ordered[ordered.len() - 1].level);
                }
            }
        }
        assert forall|i: int| 0 <= i < ordered.len() + 1 implies (#[trigger] result[i]).level
            >= role.level || result[i] == ordered[i - 1] by {
            if i < inner.len() {
                assert(result[i] == inner[i]);
            }
        }
        if shorter.len() > 0 {
            assert(ordered[0] == shorter[0]);
            assert(ordered[0].level >= ordered[ordered.len() - 1].level);
        }
    }
}

/// Ordering keeps every role, each as often, and orders them by level.
pub proof fn lemma_highest_first(roles: Seq<LevelRole>)
    ensures
        descending(highest_first(roles)),
        highest_first(roles).to_multiset() == roles.to_multiset(),
        highest_first(roles).len() == roles.len(),
    decreases roles.len(),
{
    broadcast use vstd::seq_lib::group_to_multiset_ensures;

    if roles.len() == 0 {
    } else {
        lemma_highest_first(roles.drop_last());
        lemma_placed(highest_first(roles.drop_last()), roles.last());
        assert(roles =~= roles.drop_last().push(roles.last()));
    }
}

/// In single-rank mode the one role given is of the highest level that the
/// member has reached: no reward role up to `new_level` lies above it.
pub proof fn lemma_single_rank_is_highest(guild: Guild, new_level: int, index: int)
    requires
        guild.modules.singlerankrole,
        0 <= index < reached(reward_roles(guild.levelroles@), new_level).len(),
    ensures
        roles_to_add(guild, new_level).len() == 1,
        roles_to_add(guild, new_level)[0].level <= new_level,
        roles_to_add(guild, new_level)[0].level >= reached(
            reward_roles(guild.levelroles@),
            new_level,
        )[index].level,
{
    broadcast use vstd::seq_lib::group_to_multiset_ensures;

    let candidates = reached(reward_roles(guild.levelroles@), new_level);
    let ordered = highest_first(candidates);
    lemma_highest_first(candidates);
    let role = candidates[index];
    assert(candidates.to_multiset().count(role) > 0) by {
        assert(candidates.contains(role));
    }
    assert(ordered.contains(role));
    let at = choose|i: int| 0 <= i < ordered.len() && ordered[i] == role;
    assert(ordered[0].level >= ordered[at].level);
    let top = ordered[0];
    assert(ordered.contains(top));
    assert(ordered.to_multiset().count(top) > 0);
    assert(candidates.to_multiset().count(top) > 0);
    assert(candidates.contains(top));
    lemma_reached_bound(reward_roles(guild.levelroles@), new_level);
}

/// Every role that `reached` keeps is of a level up to `level`.
pub proof fn lemma_reached_bound(roles: Seq<LevelRole>, level: int)
    ensures
        forall|i: int|
            0 <= i < reached(roles, level).len() ==> (#[trigger] reached(roles, level)[i]).level
                <= level,
    decreases roles.len(),
{
    if roles.len() > 0 {
        lemma_reached_bound(roles.drop_last(), level);
        let kept = reached(roles, level);
        let before = reached(roles.drop_last(), level);
        assert forall|i: int| 0 <= i < kept.len() implies (#[trigger] kept[i]).level <= level by {
            if i < before.len() {
                assert(kept[i] == before[i]);
            }
        }
    }
}

/// Reconciling twice changes nothing more: after a plan has been carried
/// out, carrying it out again leaves the member's roles as they are.
pub proof fn lemma_reconcile_idempotent(guild: Guild, new_level: int, held: Set<u64>)
    ensures
        roles_after(
            roles_after(held, roles_to_remove(guild, new_level), roles_to_add(guild, new_level)),
            roles_to_remove(guild, new_level),
            roles_to_add(guild, new_level),
        ) == roles_after(held, roles_to_remove(guild, new_level), roles_to_add(guild, new_level)),
{
    let remove = roles_to_remove(guild, new_level);
    let add = roles_to_add(guild, new_level);
    let once = roles_after(held, remove, add);
    let twice = roles_after(once, remove, add);
    assert(twice =~= once);
}

/// Where a role goes in a list ordered by level: before the roles at the
/// end that lie under it.
proof fn lemma_placed_at(ordered: Seq<LevelRole>, role: LevelRole, position: int)
    requires
        0 <= position <= ordered.len(),
        forall|i: int| position <= i < ordered.len() ==> ordered[i].level < role.level,
        position == 0 || ordered[position - 1].level >= role.level,
    ensures
        placed(ordered, role) =~= ordered.insert(position, role),
    decreases ordered.len(),
{
    if position < ordered.len() {
        lemma_placed_at(ordered.drop_last(), role, position);
    }
}

fn collect_reward_roles(entries: &Vec<GuildLevelRoles>) -> (roles: Vec<LevelRole>)
    ensures
        roles@ == reward_roles(entries@),
{
    let mut roles: Vec<LevelRole> = Vec::new();
    let mut index: usize = 0;
    assert(entries@.take(0) =~= Seq::<GuildLevelRoles>::empty());
    while index < entries.len()
        invariant
            index <= entries.len(),
            roles@ == reward_roles(entries@.take(index as int)),
        decreases entries.len() - index,
    {
        let entry = &entries[index];
        proof {
            let next = entries@.take(index + 1);
            assert(next.drop_last() =~= entries@.take(index as int));
            assert(next.last() == entries@[index as int]);
        }
        if entry.level != AUTOROLE_LEVEL {
            match parse_id(entry.id.as_str()) {
                Some(id) => {
                    roles.push(LevelRole { id, level: entry.level });
                },
                None => {},
            }
        }
        index = index + 1;
    }
    assert(entries@.take(index as int) =~= entries@);
    roles
}

/// The operations that reconcile a member's reward roles with `new_level`.
pub fn handle_level_roles(guild: &Guild, new_level: i32) -> (plan: RolePlan)
    ensures
        plan.remove@ == roles_to_remove(*guild, new_level as int),
        plan.add@ == roles_to_add(*guild, new_level as int),
{
    let roles = collect_reward_roles(&guild.levelroles);
    let clear = guild.modules.removereachedlevelroles || guild.modules.singlerankrole;
    let mut remove: Vec<LevelRole> = Vec::new();
    let mut ordered: Vec<LevelRole> = Vec::new();
    let mut index: usize = 0;
    assert(roles@.take(0) =~= Seq::<LevelRole>::empty());
    while index < roles.len()
        invariant
            index <= roles.len(),
            clear ==> remove@ == outgrown(roles@.take(index as int), new_level as int),
            !clear ==> remove@ == Seq::<LevelRole>::empty(),
            ordered@ == highest_first(reached(roles@.take(index as int), new_level as int)),
        decreases roles.len() - index,
    {
        let role = roles[index];
        proof {
            let next = roles@.take(index + 1);
            assert(next.drop_last() =~= roles@.take(index as int));
            assert(next.last() == roles@[index as int]);
        }
        if clear && role.level < new_level {
            remove.push(role);
        }
        if role.level <= new_level {
            proof {
                let before = reached(roles@.take(index as int), new_level as int);
                assert(before.push(role).drop_last() =~= before);
                assert(before.push(role).last() == role);
            }
            let mut position: usize = ordered.len();
            while position > 0 && ordered[position - 1].level < role.level
                invariant
                    position <= ordered.len(),
                    forall|i: int| position <= i < ordered.len() ==> ordered@[i].level < role.level,
                decreases position,
            {
                position = position - 1;
            }
            proof {
                lemma_placed_at(ordered@, role, position as int);
            }
            ordered.insert(position, role);
        }
        index = index + 1;
    }
    assert(roles@.take(index as int) =~= roles@);
    let add = if guild.modules.singlerankrole {
        let mut first: Vec<LevelRole> = Vec::new();
        if ordered.len() > 0 {
            first.push(ordered[0]);
            assert(first@ =~= seq![ordered@[0]]);
        }
        first
    } else {
        ordered
    };
    RolePlan { remove, add }
}

fn holds_role(roles: &Vec<LevelRole>, id: u64) -> (found: bool)
    ensures
        found == role_ids(roles@).contains(id),
{
    let mut index: usize = 0;
    while index < roles.len()
        invariant
            index <= roles.len(),
            forall|i: int| 0 <= i < index ==> roles@[i].id != id,
        decreases roles.len() - index,
    {
        if roles[index].id == id {
            return true;
        }
        index = index + 1;
    }
    false
}

impl RolePlan {
    /// The roles that a member who holds `held` has once the plan is carried
    /// out: the platform drops the removed ones first, then grants the added
    /// ones, and granting a role that is held changes nothing.
    pub fn apply_to(&self, held: &Vec<u64>) -> (kept: Vec<u64>)
        ensures
            forall|id: u64|
                kept@.contains(id) <==> roles_after(held@.to_set(), self.remove@, self.add@).contains(
                    id,
                ),
            kept@.no_duplicates(),
            kept@ == with_granted(kept_roles(held@, role_ids(self.remove@)), self.add@),
    {
        let mut kept: Vec<u64> = Vec::new();
        let mut index: usize = 0;
        assert(held@.take(0) =~= Seq::<u64>::empty());
        while index < held.len()
            invariant
                index <= held.len(),
                kept@.no_duplicates(),
                kept@ == kept_roles(held@.take(index as int), role_ids(self.remove@)),
                forall|id: u64|
                    #[trigger] kept@.contains(id) <==> (held@.take(index as int).contains(id)
                        && !role_ids(self.remove@).contains(id)),
            decreases held.len() - index,
        {
            let id = held[index];
            let ghost before = kept@;
            let ghost seen = held@.take(index as int);
            let ghost next = held@.take(index + 1);
            assert(next =~= seen.push(id));
            assert(next.drop_last() =~= seen);
            let dropped = holds_role(&self.remove, id);
            let present = crate::boosts::contains_id(&kept, id);
            if !dropped && !present {
                kept.push(id);
            }
            assert forall|other: u64| kept@.contains(other) <==> (next.contains(other)
                && !role_ids(self.remove@).contains(other)) by {
                if other == id {
                    if !dropped && !present {
                        assert(kept@[kept@.len() - 1] == id);
                    }
                    assert(next[next.len() - 1] == id);
                } else {
                    if before.contains(other) {
                        let at = choose|i: int| 0 <= i < before.len() && before[i] == other;
                        assert(kept@[at] == other);
                    }
                    if kept@.contains(other) {
                        let at = choose|i: int| 0 <= i < kept@.len() && kept@[i] == other;
                        assert(before[at] == other);
                    }
                    if seen.contains(other) {
                        let at = choose|i: int| 0 <= i < seen.len() && seen[i] == other;
                        assert(next[at] == other);
                    }
                    if next.contains(other) {
                        let at = choose|i: int| 0 <= i < next.len() && next[i] == other;
                        assert(seen[at] == other);
                    }
                }
            }
            index = index + 1;
        }
        assert(held@.take(index as int) =~= held@);
        let ghost base = kept@;
        assert(self.add@.take(0) =~= Seq::<LevelRole>::empty());
        assert forall|id: u64| base.contains(id) <==> (held@.contains(id) && !role_ids(
            self.remove@,
        ).contains(id)) by {}
        let mut index: usize = 0;
        while index < self.add.len()
            invariant
                index <= self.add.len(),
                kept@.no_duplicates(),
                kept@ == with_granted(base, self.add@.take(index as int)),
                forall|id: u64|
                    #[trigger] kept@.contains(id) <==> (base.contains(id) || role_ids(
                        self.add@.take(index as int),
                    ).contains(id)),
            decreases self.add.len() - index,
        {
            let id = self.add[index].id;
            let ghost before = kept@;
            let ghost seen = self.add@.take(index as int);
            let ghost next = self.add@.take(index + 1);
            assert(next =~= seen.push(self.add@[index as int]));
            assert(next.drop_last() =~= seen);
            let present = crate::boosts::contains_id(&kept, id);
            if !present {
                kept.push(id);
            }
            assert forall|other: u64| #[trigger] kept@.contains(other) implies (base.contains(other)
                || role_ids(next).contains(other)) by {
                let at = choose|i: int| 0 <= i < kept@.len() && kept@[i] == other;
                if at < before.len() {
                    assert(before[at] == other);
                    assert(before.contains(other));
                    if !base.contains(other) {
                        assert(role_ids(seen).contains(other));
                        let from = choose|i: int| 0 <= i < seen.len() && seen[i].id == other;
                        assert(next[from].id == other);
                    }
                } else {
                    assert(next[next.len() - 1].id == other);
                }
            }
            assert forall|other: u64|
                (base.contains(other) || role_ids(next).contains(other)) implies #[trigger] kept@.contains(
                other,
            ) by {
                if role_ids(next).contains(other) && !role_ids(seen).contains(other) {
                    let from = choose|i: int| 0 <= i < next.len() && next[i].id == other;
                    if from < seen.len() {
                        assert(seen[from].id == other);
                    }
                    assert(other == id);
                    if present {
                        assert(before.contains(other));
                        let at = choose|i: int| 0 <= i < before.len() && before[i] == other;
                        assert(kept@[at] == other);
                    } else {
                        assert(kept@[kept@.len() - 1] == id);
                    }
                    assert(kept@.contains(other));
                } else {
                    assert(base.contains(other) || role_ids(seen).contains(other));
                    assert(before.contains(other));
                    let at = choose|i: int| 0 <= i < before.len() && before[i] == other;
                    assert(kept@[at] == other);
                }
            }
            index = index + 1;
        }
        assert(self.add@.take(index as int) =~= self.add@);
        assert forall|id: u64| kept@.contains(id) <==> roles_after(
            held@.to_set(),
            self.remove@,
            self.add@,
        ).contains(id) by {
            assert(held@.to_set().contains(id) <==> held@.contains(id));
            assert(base.contains(id) <==> (held@.contains(id) && !role_ids(self.remove@).contains(
                id,
            )));
            assert(kept@.contains(id) <==> (base.contains(id) || role_ids(self.add@).contains(id)));
        }
        kept
    }
}

} // verus!
