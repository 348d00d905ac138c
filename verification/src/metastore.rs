use vstd::prelude::*;
use vstd::string::StringExecFns;
use crate::metadata::{join_levels, level_count, key_levels, key_path, namespace_text, table_def_levels, table_def_path, Key, KeyNamespace};
use crate::table_md::TableDefKey;

verus! {

/// The storage path of a key: the namespace's letter, then each of the first `ln` levels
/// (at most four) after a `/`.
pub fn hkey<'r>(key: Key<'r>) -> (rv: String)
    ensures
        rv@ == key_path(key),
{
    proof {
        reveal_strlit("/");
        reveal_with_fuel(join_levels, 5);
    }
    let ghost levels = seq![key.l1@, key.l2@, key.l3@, key.l4@];
    let mut rv: String = String::from(key.ns);

    if key.ln < 1 {
        assert(key_levels(key) =~= levels.take(0));
        return rv;
    }
    rv.append("/");
    rv.append(key.l1);

    if key.ln < 2 {
        assert(key_levels(key) =~= levels.take(1));
        return rv;
    }
    rv.append("/");
    rv.append(key.l2);

    if key.ln < 3 {
        assert(key_levels(key) =~= levels.take(2));
        return rv;
    }
    rv.append("/");
    rv.append(key.l3);

    if key.ln < 4 {
        assert(key_levels(key) =~= levels.take(3));
        return rv;
    }
    rv.append("/");
    rv.append(key.l4);
    assert(key_levels(key) =~= levels);
    rv
}

/// What a read of a key gives back, of the values the store lists for it: the first, if any.
pub fn first_value(values: Vec<Vec<u8>>) -> (r: Option<Vec<u8>>)
    ensures
        r == (if values@.len() == 0 { None } else { Some(values@[0]) }),
{
    let mut values = values;
    if values.len() == 0 {
        None
    } else {
        Some(values.swap_remove(0))
    }
}

/// A text holds no `/`.
pub open spec fn slash_free(s: Seq<char>) -> bool {
    forall|i: int| 0 <= i < s.len() ==> s[i] != '/'
}

/// Each of the levels holds no `/`.
pub open spec fn levels_slash_free(levels: Seq<Seq<char>>) -> bool {
    forall|j: int| 0 <= j < levels.len() ==> slash_free(#[trigger] levels[j])
}

/// A path with at least one level holds a `/`.
proof fn lemma_join_levels_has_slash(head: Seq<char>, levels: Seq<Seq<char>>)
    requires
        levels.len() > 0,
    ensures
        !slash_free(join_levels(head, levels)),
{
    let prev = join_levels(head, levels.drop_last());
    let s = join_levels(head, levels);
    assert(s[prev.len() as int] == '/');
}

proof fn lemma_join_levels_injective(
    h1: Seq<char>,
    l1: Seq<Seq<char>>,
    h2: Seq<char>,
    l2: Seq<Seq<char>>,
)
    requires
        slash_free(h1),
        slash_free(h2),
        levels_slash_free(l1),
        levels_slash_free(l2),
        join_levels(h1, l1) == join_levels(h2, l2),
    ensures
        h1 == h2,
        l1 == l2,
    decreases l1.len(),
{
    if l1.len() == 0 {
        if l2.len() > 0 {
            lemma_join_levels_has_slash(h2, l2);
        }
        assert(l1 =~= l2);
    } else if l2.len() == 0 {
        lemma_join_levels_has_slash(h1, l1);
    } else {
        let a = join_levels(h1, l1.drop_last());
        let b = join_levels(h2, l2.drop_last());
        let x = l1.last();
        let y = l2.last();
        let s = join_levels(h1, l1);
        assert(slash_free(x)) by { assert(x == l1[l1.len() - 1]); }
        assert(slash_free(y)) by { assert(y == l2[l2.len() - 1]); }
        let ax = a + seq!['/'];
        let by = b + seq!['/'];
        assert(s == ax + x);
        assert(s == by + y);
        assert(s.len() == ax.len() + x.len());
        assert(s.len() == by.len() + y.len());
        if x.len() < y.len() {
            let i = a.len() as int;
            assert(i < ax.len());
            assert(s[i] == ax[i]);
            assert(ax[i] == '/');
            assert(by.len() <= i);
            assert(s[i] == y[i - by.len()]);
            assert(false);
        } else if y.len() < x.len() {
            let i = b.len() as int;
            assert(i < by.len());
            assert(s[i] == by[i]);
            assert(by[i] == '/');
            assert(ax.len() <= i);
            assert(s[i] == x[i - ax.len()]);
            assert(false);
        }
        assert(a.len() == b.len());
        assert(a =~= s.subrange(0, a.len() as int));
        assert(b =~= s.subrange(0, b.len() as int));
        assert(x =~= s.subrange(a.len() as int + 1, s.len() as int));
        assert(y =~= s.subrange(b.len() as int + 1, s.len() as int));
        assert(levels_slash_free(l1.drop_last())) by {
            assert forall|j: int| 0 <= j < l1.drop_last().len() implies slash_free(
                #[trigger] l1.drop_last()[j],
            ) by {
                assert(l1.drop_last()[j] == l1[j]);
            }
        }
        assert(levels_slash_free(l2.drop_last())) by {
            assert forall|j: int| 0 <= j < l2.drop_last().len() implies slash_free(
                #[trigger] l2.drop_last()[j],
            ) by {
                assert(l2.drop_last()[j] == l2[j]);
            }
        }
        lemma_join_levels_injective(h1, l1.drop_last(), h2, l2.drop_last());
        assert(l1 =~= l1.drop_last().push(x));
        assert(l2 =~= l2.drop_last().push(y));
    }
}

/// Two keys whose levels hold no `/` share a storage path only when they share the
/// namespace and the levels that count.
pub proof fn lemma_key_path_injective(k1: Key, k2: Key)
    requires
        levels_slash_free(key_levels(k1)),
        levels_slash_free(key_levels(k2)),
        key_path(k1) == key_path(k2),
    ensures
        k1.ns == k2.ns,
        key_levels(k1) == key_levels(k2),
{
    lemma_join_levels_injective(
        namespace_text(k1.ns),
        key_levels(k1),
        namespace_text(k2.ns),
        key_levels(k2),
    );
    assert(namespace_text(k1.ns)[0] == namespace_text(k2.ns)[0]);
}

/// The levels past `ln` (and past the fourth) play no part in a key's storage path.
pub proof fn lemma_key_path_ignores_unused_levels(k1: Key, k2: Key)
    requires
        k1.ns == k2.ns,
        level_count(k1.ln) == level_count(k2.ln),
        level_count(k1.ln) >= 1 ==> k1.l1@ == k2.l1@,
        level_count(k1.ln) >= 2 ==> k1.l2@ == k2.l2@,
        level_count(k1.ln) >= 3 ==> k1.l3@ == k2.l3@,
        level_count(k1.ln) >= 4 ==> k1.l4@ == k2.l4@,
    ensures
        key_path(k1) == key_path(k2),
{
    assert(key_levels(k1) =~= key_levels(k2));
}

/// Distinct tables whose schema and name hold no `/` are stored under distinct paths.
pub proof fn lemma_table_def_path_injective(a: TableDefKey, b: TableDefKey)
    requires
        slash_free(a.schema@),
        slash_free(a.table@),
        slash_free(b.schema@),
        slash_free(b.table@),
        table_def_path(a) == table_def_path(b),
    ensures
        a.schema@ == b.schema@,
        a.table@ == b.table@,
{
    let la = table_def_levels(a);
    let lb = table_def_levels(b);
    assert(levels_slash_free(la)) by {
        assert forall|j: int| 0 <= j < la.len() implies slash_free(#[trigger] la[j]) by {
            if j == 0 { assert(la[j] == a.schema@); } else { assert(la[j] == a.table@); }
        }
    }
    assert(levels_slash_free(lb)) by {
        assert forall|j: int| 0 <= j < lb.len() implies slash_free(#[trigger] lb[j]) by {
            if j == 0 { assert(lb[j] == b.schema@); } else { assert(lb[j] == b.table@); }
        }
    }
    let t = namespace_text(KeyNamespace::Table);
    lemma_join_levels_injective(t, la, t, lb);
    assert(la[0] == lb[0]);
    assert(la[1] == lb[1]);
}

} // verus!
