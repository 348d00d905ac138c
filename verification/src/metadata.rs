use vstd::prelude::*;
use vstd::string::StringExecFns;
use crate::error::Error;
use crate::table_md::{TableDef, TableDefKey};

verus! {

/// Namespace of a metadata key.
pub enum KeyNamespace {
    Process,
    Table,
}

/// The text that stands for a namespace at the head of a storage path.
pub open spec fn namespace_text(ns: KeyNamespace) -> Seq<char> {
    match ns {
        KeyNamespace::Table => seq!['t'],
        KeyNamespace::Process => seq!['p'],
    }
}

impl From<KeyNamespace> for String {
    fn from(value: KeyNamespace) -> (s: String)
        ensures
            s@ == namespace_text(value),
    {
        match value {
            KeyNamespace::Table => {
                proof { reveal_strlit("t"); }
                String::from_str("t")
            },
            KeyNamespace::Process => {
                proof { reveal_strlit("p"); }
                String::from_str("p")
            },
        }
    }
}

impl vstd::std_specs::convert::FromSpecImpl<KeyNamespace> for String {
    open spec fn obeys_from_spec() -> bool {
        false
    }

    open spec fn from_spec(v: KeyNamespace) -> String {
        arbitrary()
    }
}

/// Generic key: a namespace and up to four levels, of which the first `ln` count.
pub struct Key<'r> {
    /// Namespace identifier
    pub ns: KeyNamespace,
    /// Effective number of levels
    pub ln: u8,
    /// Level 1 key info
    pub l1: &'r str,
    /// Level 2 key info
    pub l2: &'r str,
    /// Level 3 key info
    pub l3: &'r str,
    /// Level 4 key info
    pub l4: &'r str,
}

/// The number of levels of a key that take part in its path: `ln`, capped at four.
pub open spec fn level_count(ln: u8) -> int {
    if ln < 4 { ln as int } else { 4 }
}

/// The levels of a key that take part in its path, in order.
pub open spec fn key_levels(k: Key) -> Seq<Seq<char>> {
    seq![k.l1@, k.l2@, k.l3@, k.l4@].take(level_count(k.ln))
}

/// A path: the head, then each level in turn after a `/`.
pub open spec fn join_levels(head: Seq<char>, levels: Seq<Seq<char>>) -> Seq<char>
    decreases levels.len(),
{
    if levels.len() == 0 {
        head
    } else {
        join_levels(head, levels.drop_last()) + seq!['/'] + levels.last()
    }
}

/// The storage path of a key: its namespace, then its effective levels, separated by `/`.
pub open spec fn key_path(k: Key) -> Seq<char> {
    join_levels(namespace_text(k.ns), key_levels(k))
}

/// The levels under which a table definition is stored: its schema, then its name.
pub open spec fn table_def_levels(k: TableDefKey) -> Seq<Seq<char>> {
    seq![k.schema@, k.table@]
}

/// The storage path of a table definition.
pub open spec fn table_def_path(k: TableDefKey) -> Seq<char> {
    join_levels(namespace_text(KeyNamespace::Table), table_def_levels(k))
}

impl<'r> Key<'r> {
    /// A key of two levels; the unused levels are empty.
    pub fn n2(ns: KeyNamespace, l1: &'r str, l2: &'r str) -> (k: Self)
        ensures
            k.ns == ns,
            k.ln == 2,
            k.l1 == l1,
            k.l2 == l2,
            k.l3@ == Seq::<char>::empty(),
            k.l4@ == Seq::<char>::empty(),
    {
        proof { reveal_strlit(""); }
        Self { ns, ln: 2, l1, l2, l3: "", l4: "" }
    }
}

impl<'r> From<TableDefKey<'r>> for Key<'r> {
    /// The key of a table definition: the table namespace, then the schema, then the table.
    fn from(value: TableDefKey<'r>) -> (k: Self)
        ensures
            k.ns == KeyNamespace::Table,
            k.ln == 2,
            k.l1 == value.schema,
            k.l2 == value.table,
            k.l3@ == Seq::<char>::empty(),
            k.l4@ == Seq::<char>::empty(),
            key_path(k) == table_def_path(value),
    {
        proof { reveal_with_fuel(join_levels, 3); }
        let k = Key::n2(KeyNamespace::Table, value.schema, value.table);
        assert(key_levels(k) =~= table_def_levels(value));
        k
    }
}

impl<'r> vstd::std_specs::convert::FromSpecImpl<TableDefKey<'r>> for Key<'r> {
    open spec fn obeys_from_spec() -> bool {
        false
    }

    open spec fn from_spec(v: TableDefKey<'r>) -> Key<'r> {
        arbitrary()
    }
}

/// Storage of metadata documents of type `D` under hierarchical keys. A store is
/// addressed by the storage path of a key (`key_path`); an implementation says, by
/// its two outcome predicates, what its operations on a path may return. One that
/// leaves them as they are promises nothing of its outcomes.
pub trait MetadataApi<D> {
    /// Whether `r` is an outcome that storing `data` under `path` may have.
    open spec fn put_outcome(&self, path: Seq<char>, data: D, r: Result<(), Error>) -> bool {
        true
    }

    /// Whether `r` is an outcome that reading what is stored under `path` may have.
    open spec fn get_outcome(&self, path: Seq<char>, r: Result<Option<D>, Error>) -> bool {
        true
    }

    /// Stores `data` under `key`.
    fn put<'r>(&self, key: Key<'r>, data: &'r D) -> (r: Result<(), Error>)
        ensures
            self.put_outcome(key_path(key), *data, r),
    ;

    /// Reads what is stored under `key`, if anything.
    fn get<'r>(&self, key: Key<'r>) -> (r: Result<Option<D>, Error>)
        ensures
            self.get_outcome(key_path(key), r),
    ;
}

/// Storage of table definitions.
pub trait TableMetadataApi {
    /// Stores the definition of the table that `key` names.
    fn put_table_def<'r>(&self, key: TableDefKey<'r>, table_def: &'r TableDef) -> Result<(), Error>;

    /// Reads the definition of the table that `key` names, if it is stored.
    fn get_table_def<'r>(&self, key: TableDefKey<'r>) -> Result<Option<TableDef>, Error>;
}

/// Table definitions kept in a general metadata store, each under the key that
/// `Key::from` gives its table.
pub struct TableMetadataApiImpl<M> {
    m: M,
}

impl<M> TableMetadataApiImpl<M> {
    /// The metadata store that holds the definitions.
    pub closed spec fn store(&self) -> M {
        self.m
    }
}

impl<M: MetadataApi<TableDef>> TableMetadataApiImpl<M> {
    /// Keeps table definitions in `m`.
    pub fn new(m: M) -> (r: Self)
        ensures
            r.store() == m,
    {
        Self { m }
    }
}

impl<M: MetadataApi<TableDef>> TableMetadataApi for TableMetadataApiImpl<M> {
    /// Stores the definition under the table's path, `t/<schema>/<table>`, in the store:
    /// the outcome is one that the store's put under that path may have.
    fn put_table_def<'r>(&self, key: TableDefKey<'r>, table_def: &'r TableDef) -> (r: Result<(), Error>)
        ensures
            self.store().put_outcome(table_def_path(key), *table_def, r),
    {
        self.m.put(Key::from(key), table_def)
    }

    /// Reads the definition from the table's path, `t/<schema>/<table>`, in the store:
    /// the outcome is one that the store's get from that path may have.
    fn get_table_def<'r>(&self, key: TableDefKey<'r>) -> (r: Result<Option<TableDef>, Error>)
        ensures
            self.store().get_outcome(table_def_path(key), r),
    {
        self.m.get(Key::from(key))
    }
}

/// Table metadata can be used behind a trait object.
pub fn _dyn_tmda_check(_api: Box<dyn TableMetadataApi>) {
}

} // verus!
