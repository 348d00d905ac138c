use planar::metadata::{Key, KeyNamespace};
use planar::metastore::{first_value, hkey};
use planar::table_md::TableDefKey;

fn key<'r>(ns: KeyNamespace, ln: u8, l: [&'r str; 4]) -> Key<'r> {
    Key { ns, ln, l1: l[0], l2: l[1], l3: l[2], l4: l[3] }
}

#[test]
fn namespace_text_of_each_namespace() {
    assert_eq!(String::from(KeyNamespace::Table), "t");
    assert_eq!(String::from(KeyNamespace::Process), "p");
}

#[test]
fn hkey_with_no_level_is_the_namespace() {
    assert_eq!(hkey(key(KeyNamespace::Table, 0, ["a", "b", "c", "d"])), "t");
    assert_eq!(hkey(key(KeyNamespace::Process, 0, ["a", "b", "c", "d"])), "p");
}

#[test]
fn hkey_takes_the_first_ln_levels() {
    let l = ["a", "b", "c", "d"];
    assert_eq!(hkey(key(KeyNamespace::Table, 1, l)), "t/a");
    assert_eq!(hkey(key(KeyNamespace::Table, 2, l)), "t/a/b");
    assert_eq!(hkey(key(KeyNamespace::Process, 3, l)), "p/a/b/c");
    assert_eq!(hkey(key(KeyNamespace::Process, 4, l)), "p/a/b/c/d");
}

#[test]
fn hkey_caps_the_levels_at_four() {
    let l = ["a", "b", "c", "d"];
    assert_eq!(hkey(key(KeyNamespace::Table, 5, l)), "t/a/b/c/d");
    assert_eq!(hkey(key(KeyNamespace::Table, 255, l)), "t/a/b/c/d");
}

#[test]
fn hkey_keeps_empty_levels() {
    assert_eq!(hkey(key(KeyNamespace::Table, 3, ["", "x", "", "y"])), "t//x/");
}

#[test]
fn hkey_ignores_unused_levels() {
    let a = hkey(key(KeyNamespace::Table, 2, ["s", "t", "one", "two"]));
    let b = hkey(key(KeyNamespace::Table, 2, ["s", "t", "three", "four"]));
    assert_eq!(a, b);
}

#[test]
fn n2_builds_a_two_level_key() {
    let k = Key::n2(KeyNamespace::Process, "job", "42");
    assert_eq!(k.ln, 2);
    assert_eq!(k.l1, "job");
    assert_eq!(k.l2, "42");
    assert_eq!(k.l3, "");
    assert_eq!(k.l4, "");
    assert!(matches!(k.ns, KeyNamespace::Process));
    assert_eq!(hkey(k), "p/job/42");
}

#[test]
fn table_def_key_goes_under_the_table_namespace() {
    let k: Key = TableDefKey { schema: "sales", table: "orders" }.into();
    assert!(matches!(k.ns, KeyNamespace::Table));
    assert_eq!(k.ln, 2);
    assert_eq!(hkey(k), "t/sales/orders");
}

#[test]
fn distinct_tables_get_distinct_paths() {
    let a = hkey(TableDefKey { schema: "sales", table: "orders" }.into());
    let b = hkey(TableDefKey { schema: "sales", table: "order" }.into());
    let c = hkey(TableDefKey { schema: "sale", table: "sorders" }.into());
    assert_ne!(a, b);
    assert_ne!(a, c);
    assert_ne!(b, c);
}

#[test]
fn slash_in_a_level_can_make_paths_meet() {
    let a = hkey(key(KeyNamespace::Table, 1, ["a/b", "", "", ""]));
    let b = hkey(key(KeyNamespace::Table, 2, ["a", "b", "", ""]));
    assert_eq!(a, b);
}

#[test]
fn first_value_of_nothing_is_none() {
    assert_eq!(first_value(Vec::new()), None);
}

#[test]
fn first_value_is_the_first_listed() {
    assert_eq!(first_value(vec![vec![1, 2], vec![3]]), Some(vec![1, 2]));
    assert_eq!(first_value(vec![vec![]]), Some(vec![]));
}
