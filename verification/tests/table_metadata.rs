use planar::error::Error;
use planar::metadata::{Key, MetadataApi, TableMetadataApi, TableMetadataApiImpl, _dyn_tmda_check};
use planar::metastore::hkey;
use planar::table_md::{ParquetMetadata, TableDef, TableDefKey};
use std::cell::RefCell;
use std::collections::BTreeMap;

/// A store that keeps each table's location under the path of its key.
struct MemoryStore {
    docs: RefCell<BTreeMap<String, String>>,
}

impl MemoryStore {
    fn new() -> Self {
        MemoryStore { docs: RefCell::new(BTreeMap::new()) }
    }
}

impl MetadataApi<TableDef> for MemoryStore {
    fn put<'r>(&self, key: Key<'r>, data: &'r TableDef) -> Result<(), Error> {
        self.docs.borrow_mut().insert(hkey(key), data.location.clone());
        Ok(())
    }

    fn get<'r>(&self, key: Key<'r>) -> Result<Option<TableDef>, Error> {
        Ok(self
            .docs
            .borrow()
            .get(&hkey(key))
            .map(|l| TableDef { location: l.clone(), pmd: ParquetMetadata {} }))
    }
}

impl MetadataApi<TableDef> for &MemoryStore {
    fn put<'r>(&self, key: Key<'r>, data: &'r TableDef) -> Result<(), Error> {
        (**self).put(key, data)
    }

    fn get<'r>(&self, key: Key<'r>) -> Result<Option<TableDef>, Error> {
        (**self).get(key)
    }
}

#[test]
fn table_def_is_stored_under_its_path() {
    let store = MemoryStore::new();
    let api = TableMetadataApiImpl::new(&store);
    let def = TableDef { location: "s3://bucket/orders".to_string(), pmd: ParquetMetadata {} };
    api.put_table_def(TableDefKey { schema: "sales", table: "orders" }, &def).unwrap();
    let docs = store.docs.borrow();
    assert_eq!(docs.len(), 1);
    assert_eq!(docs.get("t/sales/orders").unwrap(), "s3://bucket/orders");
}

#[test]
fn table_def_read_gives_back_what_was_written() {
    let api = TableMetadataApiImpl::new(MemoryStore::new());
    let def = TableDef { location: "s3://bucket/orders".to_string(), pmd: ParquetMetadata {} };
    api.put_table_def(TableDefKey { schema: "sales", table: "orders" }, &def).unwrap();
    let got = api.get_table_def(TableDefKey { schema: "sales", table: "orders" }).unwrap();
    assert_eq!(got.unwrap().location, "s3://bucket/orders");
    let other = api.get_table_def(TableDefKey { schema: "sales", table: "items" }).unwrap();
    assert!(other.is_none());
}

#[test]
fn table_metadata_behind_a_trait_object() {
    let api: Box<dyn TableMetadataApi> = Box::new(TableMetadataApiImpl::new(MemoryStore::new()));
    let def = TableDef { location: "file:///tmp/t".to_string(), pmd: ParquetMetadata {} };
    api.put_table_def(TableDefKey { schema: "s", table: "t" }, &def).unwrap();
    assert_eq!(
        api.get_table_def(TableDefKey { schema: "s", table: "t" }).unwrap().unwrap().location,
        "file:///tmp/t"
    );
    _dyn_tmda_check(api);
}
