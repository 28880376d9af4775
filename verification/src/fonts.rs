use vstd::prelude::*;

verus! {

#[verifier::external_type_specification]
#[verifier::external_body]
pub struct ExFontDatabase(usvg::fontdb::Database);

/// The font catalog a parse resolves text against. Built fresh for every
/// export request; an empty catalog is valid (text then falls back to the
/// parser's default handling). The host supplies the system's fonts through
/// [`FontCatalog::from_database`]; tests and other deterministic callers use
/// [`FontCatalog::empty`].
pub struct FontCatalog {
    db: usvg::fontdb::Database,
}

impl FontCatalog {
    /// A catalog with no fonts at all: the degraded but deterministic
    /// catalog, independent of the host system.
    pub fn empty() -> Self {
        FontCatalog { db: empty_database() }
    }

    /// Wraps a database the host has already populated (typically with the
    /// system's installed fonts).
    pub fn from_database(db: usvg::fontdb::Database) -> Self {
        FontCatalog { db }
    }

    /// The underlying database, for the parse wrapper.
    pub(crate) fn database(&self) -> &usvg::fontdb::Database {
        &self.db
    }
}

/// Relies on `fontdb::Database::new`: creates a database with no font faces.
#[verifier::external_body]
fn empty_database() -> usvg::fontdb::Database {
    usvg::fontdb::Database::new()
}

} // verus!
