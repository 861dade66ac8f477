//! The permissions a permission group grants through its inheritance chain.

use vstd::prelude::*;
use crate::text::text_eq;

verus! {

/// A row of the permission-group table.
#[derive(Debug, Clone, PartialEq)]
pub struct PermissionGroupRecord {
    pub id: String,
    pub name: String,
    pub permissions: Vec<String>,
    /// The group this one inherits from, if any.
    pub inherit: Option<String>,
}

/// The texts held by a list of strings.
pub open spec fn text_set(v: Seq<String>) -> Set<Seq<char>> {
    Set::new(|p: Seq<char>| exists|m: int| 0 <= m < v.len() && #[trigger] v[m]@ == p)
}

/// No text occurs twice in the list.
pub open spec fn distinct_texts(v: Seq<String>) -> bool {
    forall|a: int, b: int| 0 <= a < b < v.len() ==> #[trigger] v[a]@ != #[trigger] v[b]@
}

/// Whether the table has a group with this id.
pub open spec fn has_group(table: Seq<PermissionGroupRecord>, id: Seq<char>) -> bool {
    exists|i: int| 0 <= i < table.len() && #[trigger] table[i].id@ == id
}

/// Whether row `i` is the first row with this id (the one a lookup by id finds).
pub open spec fn is_first_with_id(table: Seq<PermissionGroupRecord>, id: Seq<char>, i: int) -> bool {
    &&& 0 <= i < table.len()
    &&& table[i].id@ == id
    &&& forall|j: int| 0 <= j < i ==> #[trigger] table[j].id@ != id
}

/// The group at position `k` of the chain inherits from the one at `k + 1`.
pub open spec fn chain_link(table: Seq<PermissionGroupRecord>, chain: Seq<int>, k: int) -> bool {
    &&& table[chain[k]].inherit is Some
    &&& is_first_with_id(table, table[chain[k]].inherit->0@, chain[k + 1])
}

/// Whether `chain` lists the groups visited from group `start`: each group
/// followed by the one it inherits from, no group twice, stopping at a group
/// that inherits from nothing, from a missing group, or from a group already
/// visited.
pub open spec fn inheritance_chain(table: Seq<PermissionGroupRecord>, start: Seq<char>, chain: Seq<int>) -> bool {
    &&& chain.len() >= 1
    &&& is_first_with_id(table, start, chain[0])
    &&& forall|k: int| 0 <= k < chain.len() - 1 ==> #[trigger] chain_link(table, chain, k)
    &&& forall|a: int, b: int| 0 <= a < b < chain.len() ==> #[trigger] chain[a] != #[trigger] chain[b]
    &&& ({
        let last = table[chain.last()];
        ||| last.inherit is None
        ||| !has_group(table, last.inherit->0@)
        ||| exists|j: int| 0 <= j < chain.len() && #[trigger] table[chain[j]].id@ == last.inherit->0@
    })
}

/// The permissions granted by the groups of a chain.
pub open spec fn chain_permissions(table: Seq<PermissionGroupRecord>, chain: Seq<int>) -> Set<Seq<char>> {
    Set::new(|p: Seq<char>| exists|k: int| 0 <= k < chain.len() && #[trigger] text_set(table[chain[k]].permissions@).contains(p))
}

/// A group's display name and every permission it grants, each once.
#[derive(Debug, Clone, PartialEq)]
pub struct GroupSummary {
    pub name: String,
    pub permissions: Vec<String>,
}

fn find_group(table: &Vec<PermissionGroupRecord>, id: &str) -> (res: Option<usize>)
    ensures
        res matches Some(i) ==> is_first_with_id(table@, id@, i as int),
        res is None ==> !has_group(table@, id@),
{
    let mut i: usize = 0;
    while i < table.len()
        invariant
            i <= table.len(),
            forall|j: int| 0 <= j < i ==> #[trigger] table@[j].id@ != id@,
        decreases table.len() - i,
    {
        if text_eq(table[i].id.as_str(), id) {
            return Some(i);
        }
        i = i + 1;
    }
    None
}

fn contains_text(v: &Vec<String>, s: &str) -> (res: bool)
    ensures
        res == text_set(v@).contains(s@),
{
    let mut i: usize = 0;
    while i < v.len()
        invariant
            i <= v.len(),
            forall|j: int| 0 <= j < i ==> #[trigger] v@[j]@ != s@,
        decreases v.len() - i,
    {
        if text_eq(v[i].as_str(), s) {
            assert(v@[i as int]@ == s@);
            return true;
        }
        i = i + 1;
    }
    assert(!text_set(v@).contains(s@));
    false
}

/// Adds the permissions of one group to `perms`, skipping those already there.
fn add_permissions(perms: &mut Vec<String>, group: &Vec<String>)
    requires
        distinct_texts(old(perms)@),
    ensures
        distinct_texts(final(perms)@),
        text_set(final(perms)@) == text_set(old(perms)@).union(text_set(group@)),
{
    let mut m: usize = 0;
    while m < group.len()
        invariant
            m <= group.len(),
            distinct_texts(perms@),
            text_set(perms@) == text_set(old(perms)@).union(text_set(group@.take(m as int))),
        decreases group.len() - m,
    {
        let p = &group[m];
        let ghost before = perms@;
        if !contains_text(perms, p.as_str()) {
            perms.push(p.clone());
            assert forall|q: Seq<char>| text_set(perms@).contains(q) <==> text_set(before).contains(q) || q == p@ by {
                if text_set(perms@).contains(q) {
                    let w = choose|w: int| 0 <= w < perms@.len() && #[trigger] perms@[w]@ == q;
                    if w < before.len() {
                        assert(before[w]@ == q);
                    }
                }
                if text_set(before).contains(q) {
                    let w = choose|w: int| 0 <= w < before.len() && #[trigger] before[w]@ == q;
                    assert(perms@[w]@ == q);
                }
                if q == p@ {
                    assert(perms@[before.len() as int]@ == q);
                }
            }
        }
        assert(text_set(perms@) =~= text_set(before).insert(p@));
        assert forall|q: Seq<char>| text_set(group@.take(m + 1)).contains(q) <==> text_set(group@.take(m as int)).contains(q) || q == p@ by {
            if text_set(group@.take(m + 1)).contains(q) {
                let w = choose|w: int| 0 <= w < m + 1 && #[trigger] group@.take(m + 1)[w]@ == q;
                if w < m {
                    assert(group@.take(m as int)[w]@ == q);
                }
            }
            if text_set(group@.take(m as int)).contains(q) {
                let w = choose|w: int| 0 <= w < m && #[trigger] group@.take(m as int)[w]@ == q;
                assert(group@.take(m + 1)[w]@ == q);
            }
            if q == p@ {
                assert(group@.take(m + 1)[m as int]@ == q);
            }
        }
        assert(text_set(group@.take(m + 1)) =~= text_set(group@.take(m as int)).insert(p@));
        assert(text_set(perms@) =~= text_set(old(perms)@).union(text_set(group@.take(m + 1))));
        m = m + 1;
    }
    assert(group@.take(group@.len() as int) =~= group@);
}


/// Each group of a chain is the first row with its id.
proof fn lemma_chain_rows_first(table: Seq<PermissionGroupRecord>, start: Seq<char>, chain: Seq<int>, k: int)
    requires
        inheritance_chain(table, start, chain),
        0 <= k < chain.len(),
    ensures
        is_first_with_id(table, table[chain[k]].id@, chain[k]),
{
    if k > 0 {
        assert(chain_link(table, chain, k - 1));
    }
}

/// A group's inheritance chain is determined by the table and the group.
pub proof fn lemma_inheritance_chain_unique(table: Seq<PermissionGroupRecord>, start: Seq<char>, c1: Seq<int>, c2: Seq<int>)
    requires
        inheritance_chain(table, start, c1),
        inheritance_chain(table, start, c2),
    ensures
        c1 == c2,
{
    let n = if c1.len() <= c2.len() { c1.len() } else { c2.len() };
    assert forall|k: int| 0 <= k < n implies c1[k] == c2[k] by {
        lemma_chains_agree_up_to(table, start, c1, c2, k);
    }
    if c1.len() < c2.len() {
        lemma_chain_cannot_stop_early(table, start, c1, c2);
    } else if c2.len() < c1.len() {
        lemma_chain_cannot_stop_early(table, start, c2, c1);
    }
    assert(c1 =~= c2);
}

proof fn lemma_chains_agree_up_to(table: Seq<PermissionGroupRecord>, start: Seq<char>, c1: Seq<int>, c2: Seq<int>, k: int)
    requires
        inheritance_chain(table, start, c1),
        inheritance_chain(table, start, c2),
        0 <= k < c1.len(),
        k < c2.len(),
    ensures
        c1[k] == c2[k],
    decreases k,
{
    if k > 0 {
        lemma_chains_agree_up_to(table, start, c1, c2, k - 1);
        assert(chain_link(table, c1, k - 1));
        assert(chain_link(table, c2, k - 1));
    }
}

/// A chain that agrees with another where both are defined is not shorter
/// than it: the stopping rule forbids stopping where the other goes on.
proof fn lemma_chain_cannot_stop_early(table: Seq<PermissionGroupRecord>, start: Seq<char>, short: Seq<int>, long: Seq<int>)
    requires
        inheritance_chain(table, start, short),
        inheritance_chain(table, start, long),
        forall|k: int| 0 <= k < short.len() && k < long.len() ==> short[k] == long[k],
    ensures
        short.len() >= long.len(),
{
    if short.len() < long.len() {
        let m = short.len() - 1;
        assert(chain_link(table, long, m));
        let last = table[short.last()];
        let next = last.inherit->0@;
        assert(is_first_with_id(table, next, long[m + 1]));
        assert(has_group(table, next)) by {
            assert(table[long[m + 1]].id@ == next);
        }
        let j = choose|j: int| 0 <= j < short.len() && #[trigger] table[short[j]].id@ == next;
        lemma_chain_rows_first(table, start, long, j);
        assert(long[j] == short[j]);
        assert(long[m + 1] == long[j]);
    }
}

/// A group grants its own permissions.
pub proof fn lemma_group_grants_own_permissions(table: Seq<PermissionGroupRecord>, start: Seq<char>, chain: Seq<int>, p: Seq<char>)
    requires
        inheritance_chain(table, start, chain),
        text_set(table[chain[0]].permissions@).contains(p),
    ensures
        chain_permissions(table, chain).contains(p),
{
}

/// A group also grants the permissions of the group it inherits from,
/// unless that group was already visited.
pub proof fn lemma_group_grants_inherited_permissions(table: Seq<PermissionGroupRecord>, start: Seq<char>, chain: Seq<int>, k: int, p: Seq<char>)
    requires
        inheritance_chain(table, start, chain),
        0 <= k < chain.len(),
        text_set(table[chain[k]].permissions@).contains(p),
    ensures
        chain_permissions(table, chain).contains(p),
{
}

/// Every index of a list of distinct indices below `n` fits: there are at
/// most `n` of them.
proof fn lemma_distinct_indices_bounded(chain: Seq<int>, n: int)
    requires
        0 <= n,
        forall|k: int| 0 <= k < chain.len() ==> 0 <= #[trigger] chain[k] < n,
        forall|a: int, b: int| 0 <= a < b < chain.len() ==> #[trigger] chain[a] != #[trigger] chain[b],
    ensures
        chain.len() <= n,
{
    assert(chain.no_duplicates());
    chain.unique_seq_to_set();
    vstd::set_lib::lemma_int_range(0, n);
    assert(chain.to_set().subset_of(vstd::set_lib::set_int_range(0, n)));
    vstd::set_lib::lemma_len_subset(chain.to_set(), vstd::set_lib::set_int_range(0, n));
}

/// The name of group `start` and the permissions its inheritance chain grants.
pub fn group_permissions(table: &Vec<PermissionGroupRecord>, start: &str) -> (res: GroupSummary)
    ensures
        !has_group(table@, start@) ==> res.name@ == "<Invalid permission group>"@ && res.permissions@.len() == 0,
        has_group(table@, start@) ==> exists|chain: Seq<int>| {
            &&& #[trigger] inheritance_chain(table@, start@, chain)
            &&& res.name@ == table@[chain[0]].name@
            &&& text_set(res.permissions@) == chain_permissions(table@, chain)
        },
        distinct_texts(res.permissions@),
{
    let first = match find_group(table, start) {
        None => {
            return GroupSummary { name: String::from_str("<Invalid permission group>"), permissions: Vec::new() };
        },
        Some(i) => i,
    };
    let name = table[first].name.clone();
    let mut perms: Vec<String> = Vec::new();
    let mut loaded: Vec<String> = Vec::new();
    let ghost mut chain: Seq<int> = Seq::empty();
    let mut cur: usize = first;
    assert(text_set(perms@) =~= chain_permissions(table@, chain));
    loop
        invariant_except_break
            chain.len() > 0 ==> table@[chain.last()].inherit is Some
                && is_first_with_id(table@, table@[chain.last()].inherit->0@, cur as int),
        invariant
            0 <= cur < table.len(),
            is_first_with_id(table@, start@, first as int),
            name@ == table@[first as int].name@,
            chain.len() == loaded@.len(),
            chain.len() == 0 ==> cur == first,
            chain.len() > 0 ==> chain[0] == first,
            forall|k: int| 0 <= k < chain.len() ==> 0 <= #[trigger] chain[k] < table.len(),
            forall|k: int| 0 <= k < chain.len() ==> #[trigger] loaded@[k]@ == table@[chain[k]].id@,
            forall|k: int| 0 <= k < chain.len() ==> is_first_with_id(table@, table@[#[trigger] chain[k]].id@, chain[k]),
            forall|k: int| 0 <= k < chain.len() - 1 ==> #[trigger] chain_link(table@, chain, k),
            forall|a: int, b: int| 0 <= a < b < chain.len() ==> #[trigger] chain[a] != #[trigger] chain[b],
            distinct_texts(perms@),
            text_set(perms@) == chain_permissions(table@, chain),
        ensures
            chain.len() >= 1,
            ({
                let last = table@[chain.last()];
                ||| last.inherit is None
                ||| !has_group(table@, last.inherit->0@)
                ||| exists|j: int| 0 <= j < chain.len() && #[trigger] table@[chain[j]].id@ == last.inherit->0@
            }),
        decreases table.len() - chain.len(),
    {
        let group = &table[cur];
        if contains_text(&loaded, group.id.as_str()) {
            let ghost w = choose|w: int| 0 <= w < loaded@.len() && #[trigger] loaded@[w]@ == group.id@;
            assert(table@[chain[w]].id@ == table@[chain.last()].inherit->0@);
            break;
        }
        proof {
            assert forall|k: int| 0 <= k < chain.len() implies #[trigger] chain[k] != cur as int by {
                assert(loaded@[k]@ == table@[chain[k]].id@);
            }
            lemma_distinct_indices_bounded(chain.push(cur as int), table.len() as int);
        }
        let ghost old_perms = perms@;
        add_permissions(&mut perms, &group.permissions);
        loaded.push(group.id.clone());
        proof {
            let old_chain = chain;
            chain = chain.push(cur as int);
            assert forall|p: Seq<char>| chain_permissions(table@, chain).contains(p)
                <==> chain_permissions(table@, old_chain).contains(p) || text_set(table@[cur as int].permissions@).contains(p) by {
                if chain_permissions(table@, chain).contains(p) {
                    let k = choose|k: int| 0 <= k < chain.len() && #[trigger] text_set(table@[chain[k]].permissions@).contains(p);
                    if k < old_chain.len() {
                        assert(text_set(table@[old_chain[k]].permissions@).contains(p));
                    }
                }
                if chain_permissions(table@, old_chain).contains(p) {
                    let k = choose|k: int| 0 <= k < old_chain.len() && #[trigger] text_set(table@[old_chain[k]].permissions@).contains(p);
                    assert(text_set(table@[chain[k]].permissions@).contains(p));
                }
                if text_set(table@[cur as int].permissions@).contains(p) {
                    assert(text_set(table@[chain[old_chain.len() as int]].permissions@).contains(p));
                }
            }
            assert(text_set(perms@) =~= chain_permissions(table@, chain));
            assert forall|k: int| 0 <= k < chain.len() - 1 implies #[trigger] chain_link(table@, chain, k) by {
                if k < old_chain.len() - 1 {
                    assert(chain_link(table@, old_chain, k));
                }
            }
        }
        match &group.inherit {
            None => { break; },
            Some(next) => {
                match find_group(table, next.as_str()) {
                    None => { break; },
                    Some(j) => { cur = j; },
                }
            },
        }
    }
    assert(inheritance_chain(table@, start@, chain));
    GroupSummary { name, permissions: perms }
}

/// Whether group `group` grants `permission` through its inheritance chain.
pub open spec fn group_grants(table: Seq<PermissionGroupRecord>, group: Seq<char>, permission: Seq<char>) -> bool {
    exists|chain: Seq<int>| #[trigger] inheritance_chain(table, group, chain)
        && chain_permissions(table, chain).contains(permission)
}

/// Whether an account with its own permissions `own` in permission group
/// `group` holds `permission`: granted to the account itself, or by its
/// group's inheritance chain.
pub fn holds_permission(table: &Vec<PermissionGroupRecord>, own: &Vec<String>, group: &str, permission: &str) -> (res: bool)
    ensures
        res == (text_set(own@).contains(permission@) || group_grants(table@, group@, permission@)),
{
    if contains_text(own, permission) {
        return true;
    }
    let summary = group_permissions(table, group);
    let granted = contains_text(&summary.permissions, permission);
    proof {
        if has_group(table@, group@) {
            let c = choose|chain: Seq<int>| #[trigger] inheritance_chain(table@, group@, chain)
                && summary.name@ == table@[chain[0]].name@
                && text_set(summary.permissions@) == chain_permissions(table@, chain);
            if granted {
                assert(inheritance_chain(table@, group@, c) && chain_permissions(table@, c).contains(permission@));
            } else {
                assert forall|c2: Seq<int>| #[trigger] inheritance_chain(table@, group@, c2)
                    implies !chain_permissions(table@, c2).contains(permission@) by {
                    lemma_inheritance_chain_unique(table@, group@, c, c2);
                }
            }
        } else {
            assert forall|c2: Seq<int>| #[trigger] inheritance_chain(table@, group@, c2)
                implies !chain_permissions(table@, c2).contains(permission@) by {
                assert(table@[c2[0]].id@ == group@);
            }
        }
    }
    granted
}

} // verus!
