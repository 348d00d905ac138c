use vstd::prelude::*;

verus! {

/// Identifies the definition of a table: the schema it belongs to and its name.
#[derive(Debug)]
pub struct TableDefKey<'r> {
    pub schema: &'r str,
    pub table: &'r str,
}

/// Parquet-level metadata of a table (it carries no fields yet).
#[derive(Debug)]
pub struct ParquetMetadata {}

/// The definition of a table: where its data lives and its Parquet metadata.
#[derive(Debug)]
pub struct TableDef {
    pub location: String,
    pub pmd: ParquetMetadata,
}

} // verus!
