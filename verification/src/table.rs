use vstd::prelude::*;

verus! {

// A small association table from names to values, used for environment
// frames, instance fields, resolver scopes and class method tables. Its
// abstract view is the finite map in which a later entry for a name shadows
// an earlier one.

/// The map denoted by an entry sequence: later entries win.
pub open spec fn table_map<T>(s: Seq<(String, T)>) -> Map<Seq<char>, T>
    decreases s.len(),
{
    if s.len() == 0 {
        Map::empty()
    } else {
        table_map(s.drop_last()).insert(s.last().0@, s.last().1)
    }
}

/// If no entry at or after `j` carries `name`, the prefix up to `j` already
/// settles `name` in the table's map.
proof fn lemma_table_prefix<T>(s: Seq<(String, T)>, j: int, name: Seq<char>)
    requires
        0 <= j <= s.len(),
        forall|k: int| j <= k < s.len() ==> s[k].0@ != name,
    ensures
        table_map(s).contains_key(name) == table_map(s.subrange(0, j)).contains_key(name),
        table_map(s).contains_key(name) ==> table_map(s)[name] == table_map(
            s.subrange(0, j),
        )[name],
    decreases s.len() - j,
{
    if j < s.len() {
        assert(s.subrange(0, s.len() as int) =~= s);
        lemma_table_prefix(s, j + 1, name);
        assert(s.subrange(0, j + 1).drop_last() =~= s.subrange(0, j));
        assert(table_map(s.subrange(0, j + 1)) == table_map(s.subrange(0, j)).insert(
            s[j].0@,
            s[j].1,
        ));
    } else {
        assert(s.subrange(0, j) =~= s);
    }
}

/// An entry at `j` for `name`, with no later entry for it, gives the table's
/// value for `name`.
proof fn lemma_table_found<T>(s: Seq<(String, T)>, j: int, name: Seq<char>)
    requires
        0 <= j < s.len(),
        s[j].0@ == name,
        forall|k: int| j < k < s.len() ==> s[k].0@ != name,
    ensures
        table_map(s).contains_key(name),
        table_map(s)[name] == s[j].1,
{
    lemma_table_prefix(s, j + 1, name);
    assert(s.subrange(0, j + 1).drop_last() =~= s.subrange(0, j));
    assert(s.subrange(0, j + 1).last() == s[j]);
}

/// A name that no entry carries is not in the table's map.
proof fn lemma_table_absent<T>(s: Seq<(String, T)>, name: Seq<char>)
    requires
        forall|k: int| 0 <= k < s.len() ==> s[k].0@ != name,
    ensures
        !table_map(s).contains_key(name),
{
    lemma_table_prefix(s, 0, name);
    assert(s.subrange(0, 0) =~= Seq::<(String, T)>::empty());
}

/// Appending an entry makes the map gain exactly that binding.
proof fn lemma_table_push<T>(s: Seq<(String, T)>, name: String, v: T)
    ensures
        table_map(s.push((name, v))) == table_map(s).insert(name@, v),
{
    assert(s.push((name, v)).drop_last() =~= s);
}

/// Replacing the value of the last entry for `name` updates exactly that
/// binding in the map.
proof fn lemma_table_update<T>(s: Seq<(String, T)>, j: int, v: T)
    requires
        0 <= j < s.len(),
        forall|k: int| j < k < s.len() ==> s[k].0@ != s[j].0@,
    ensures
        table_map(s.update(j, (s[j].0, v))) == table_map(s).insert(s[j].0@, v),
    decreases s.len(),
{
    let name = s[j].0@;
    let s2 = s.update(j, (s[j].0, v));
    if j == s.len() - 1 {
        assert(s2.drop_last() =~= s.drop_last());
    } else {
        lemma_table_update(s.drop_last(), j, v);
        assert(s2.drop_last() =~= s.drop_last().update(j, (s[j].0, v)));
        assert(s2.last() == s.last());
        assert(table_map(s2) == table_map(s.drop_last()).insert(name, v).insert(
            s.last().0@,
            s.last().1,
        ));
        assert(s.last().0@ != name);
        assert(table_map(s.drop_last()).insert(name, v).insert(s.last().0@, s.last().1)
            =~= table_map(s.drop_last()).insert(s.last().0@, s.last().1).insert(name, v));
    }
}

/// The index of the authoritative (last) entry for `name`, if any.
pub(crate) fn table_find<T>(entries: &Vec<(String, T)>, name: &String) -> (r: Option<usize>)
    ensures
        match r {
            Some(j) => {
                &&& j < entries@.len()
                &&& entries@[j as int].0@ == name@
                &&& forall|k: int| j < k < entries@.len() ==> entries@[k].0@ != name@
                &&& table_map(entries@).contains_key(name@)
                &&& table_map(entries@)[name@] == entries@[j as int].1
            },
            None => !table_map(entries@).contains_key(name@),
        },
{
    let n = entries.len();
    let mut i: usize = n;
    while i > 0
        invariant
            i <= n,
            n == entries@.len(),
            forall|k: int| i <= k < entries@.len() ==> entries@[k].0@ != name@,
        decreases i,
    {
        i = i - 1;
        if entries[i].0 == *name {
            proof {
                lemma_table_found(entries@, i as int, name@);
            }
            return Some(i);
        }
    }
    proof {
        lemma_table_absent(entries@, name@);
    }
    None
}

/// A borrow of the value bound to `name`, if any.
pub(crate) fn table_get<'a, T>(entries: &'a Vec<(String, T)>, name: &String) -> (r: Option<&'a T>)
    ensures
        match r {
            Some(v) => table_map(entries@).contains_key(name@) && *v == table_map(entries@)[name@],
            None => !table_map(entries@).contains_key(name@),
        },
{
    match table_find(entries, name) {
        Some(j) => Some(&entries[j].1),
        None => None,
    }
}

/// Binds `name` to `v`, replacing the authoritative entry in place or
/// appending a fresh one.
pub(crate) fn table_set<T>(entries: &mut Vec<(String, T)>, name: &String, v: T)
    ensures
        table_map(final(entries)@) == table_map(old(entries)@).insert(name@, v),
        final(entries)@.len() >= old(entries)@.len(),
{
    let ghost s = entries@;
    match table_find(entries, name) {
        Some(j) => {
            entries[j].1 = v;
            proof {
                assert(entries@ =~= s.update(j as int, (s[j as int].0, v)));
                lemma_table_update(s, j as int, v);
            }
        },
        None => {
            let nm = name.clone();
            entries.push((nm, v));
            proof {
                lemma_table_push(s, nm, v);
            }
        },
    }
}

} // verus!
