//! The queries the service issues against its persistent store.
//!
//! The store itself — one remote connection, serialized behind a
//! mutual-exclusion gate and shared with the HTTP handlers — is outside
//! code that only executes statements.  What those statements say is
//! decided here: each query the service ever runs, with its SQL text
//! and its single bound parameter where it takes one.

use vstd::prelude::*;

verus! {

/// The fact table: a store-assigned unique id and creation time around
/// the non-null text.  Run once at boot; failure there is fatal before
/// anything is scheduled.
pub fn create_facts_table_sql() -> (r: &'static str)
    ensures
        r@ == "CREATE TABLE IF NOT EXISTS catfacts (id integer primary key autoincrement, fact text not null, created_at datetime default current_timestamp)"@,
{
    "CREATE TABLE IF NOT EXISTS catfacts (id integer primary key autoincrement, fact text not null, created_at datetime default current_timestamp)"
}

/// The subscriber table, shaped like the fact table around the address.
pub fn create_subscribers_table_sql() -> (r: &'static str)
    ensures
        r@ == "CREATE TABLE IF NOT EXISTS subscribers (id integer primary key autoincrement, email text not null, created_at datetime default current_timestamp)"@,
{
    "CREATE TABLE IF NOT EXISTS subscribers (id integer primary key autoincrement, email text not null, created_at datetime default current_timestamp)"
}

/// Every statement the service runs against the store.
pub enum StoreQuery {
    /// One uniformly random row of the fact table.
    RandomFact,
    /// Every subscriber address, in table order.
    AllSubscribers,
    /// Append one fact.
    InsertFact { fact: String },
    /// Append one subscriber.
    InsertSubscriber { email: String },
}

impl StoreQuery {
    /// The SQL text to execute; inserts take their value as the one
    /// bound parameter from [`StoreQuery::param`], never spliced into
    /// the text.
    pub fn sql(&self) -> (r: &'static str)
        ensures
            (*self is RandomFact) ==> r@ == "SELECT fact FROM catfacts order by random() limit 1"@,
            (*self is AllSubscribers) ==> r@ == "SELECT email FROM subscribers"@,
            (*self is InsertFact) ==> r@ == "INSERT INTO catfacts (fact) VALUES (?)"@,
            (*self is InsertSubscriber) ==> r@ == "INSERT INTO subscribers (email) VALUES (?)"@,
    {
        match self {
            StoreQuery::RandomFact => "SELECT fact FROM catfacts order by random() limit 1",
            StoreQuery::AllSubscribers => "SELECT email FROM subscribers",
            StoreQuery::InsertFact { .. } => "INSERT INTO catfacts (fact) VALUES (?)",
            StoreQuery::InsertSubscriber { .. } => "INSERT INTO subscribers (email) VALUES (?)",
        }
    }

    /// The value bound to the statement's `?`, present exactly for the
    /// two inserts and handed on unchanged.
    pub fn param<'a>(&'a self) -> (r: Option<&'a String>)
        ensures
            (*self matches StoreQuery::InsertFact { fact } ==> (r matches Some(p) && p@
                == fact@)),
            (*self matches StoreQuery::InsertSubscriber { email } ==> (r matches Some(p) && p@
                == email@)),
            (*self is RandomFact) || (*self is AllSubscribers) ==> r is None,
    {
        match self {
            StoreQuery::InsertFact { fact } => Some(fact),
            StoreQuery::InsertSubscriber { email } => Some(email),
            StoreQuery::RandomFact => None,
            StoreQuery::AllSubscribers => None,
        }
    }
}

} // verus!
