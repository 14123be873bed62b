//! The database handle shared by the server's handlers.

use vstd::prelude::*;

verus! {

#[verifier::external_type_specification]
#[verifier::external_body]
pub struct ExDatabase(::mongodb::Database);

/// The server's MongoDB database.
pub struct MongoDatabase {
    pub database: ::mongodb::Database,
}

} // verus!
