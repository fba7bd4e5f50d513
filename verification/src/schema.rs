//! The statements that the service sends to its relational store.
use vstd::prelude::*;

verus! {

/// The text of [`enable_identifiers_statement`].
pub open spec fn enable_identifiers_sql() -> Seq<char> {
    "CREATE EXTENSION IF NOT EXISTS \"pgcrypto\";"@
}

/// The text of [`create_table_statement`].
pub open spec fn create_table_sql() -> Seq<char> {
    "CREATE TABLE IF NOT EXISTS customer_messages (\
     id UUID PRIMARY KEY DEFAULT gen_random_uuid(), \
     customer_name VARCHAR(255) NOT NULL, \
     email VARCHAR(255) NOT NULL, \
     message TEXT NOT NULL, \
     created_at TIMESTAMP WITH TIME ZONE DEFAULT CURRENT_TIMESTAMP\
     );"@
}

/// The text of [`insert_statement`].
pub open spec fn insert_sql() -> Seq<char> {
    "INSERT INTO customer_messages (customer_name, email, message) \
     VALUES ($1, $2, $3) \
     RETURNING id, created_at"@
}

/// The text of [`list_statement`].
pub open spec fn list_sql() -> Seq<char> {
    "SELECT id, customer_name, email, message, created_at \
     FROM customer_messages \
     ORDER BY created_at DESC"@
}

/// Makes the store able to generate random identifiers. Safe to run again.
pub fn enable_identifiers_statement() -> (sql: &'static str)
    ensures
        sql@ == enable_identifiers_sql(),
{
    "CREATE EXTENSION IF NOT EXISTS \"pgcrypto\";"
}

/// Creates the message table where it does not exist yet: the identifier is
/// the primary key and, like the creation time, filled in by the store.
pub fn create_table_statement() -> (sql: &'static str)
    ensures
        sql@ == create_table_sql(),
{
    "CREATE TABLE IF NOT EXISTS customer_messages (\
     id UUID PRIMARY KEY DEFAULT gen_random_uuid(), \
     customer_name VARCHAR(255) NOT NULL, \
     email VARCHAR(255) NOT NULL, \
     message TEXT NOT NULL, \
     created_at TIMESTAMP WITH TIME ZONE DEFAULT CURRENT_TIMESTAMP\
     );"
}

/// Writes one message, given its three texts as parameters, and returns
/// what the store generated for it.
pub fn insert_statement() -> (sql: &'static str)
    ensures
        sql@ == insert_sql(),
{
    "INSERT INTO customer_messages (customer_name, email, message) \
     VALUES ($1, $2, $3) \
     RETURNING id, created_at"
}

/// Reads every message, the most recent first.
pub fn list_statement() -> (sql: &'static str)
    ensures
        sql@ == list_sql(),
{
    "SELECT id, customer_name, email, message, created_at \
     FROM customer_messages \
     ORDER BY created_at DESC"
}

} // verus!
