//! How a database transaction ends once its body has run.
use vstd::prelude::*;

verus! {

/// The statement that ends a transaction.
#[derive(Debug, Clone, Copy, PartialEq, Eq, Structural)]
pub enum TransactionEnd {
    /// `COMMIT`
    Commit,
    /// `ROLLBACK`
    Rollback,
    /// nothing: after a MySQL error the connection rolls back by itself
    LeaveToConnection,
}

/// The end of a transaction whose body succeeded (`body_ok`) or failed,
/// with a MySQL error (`mysql_failure`) or with another one.
pub fn transaction_end(body_ok: bool, mysql_failure: bool) -> (res: TransactionEnd)
    ensures
        res == (if body_ok {
            TransactionEnd::Commit
        } else if mysql_failure {
            TransactionEnd::LeaveToConnection
        } else {
            TransactionEnd::Rollback
        }),
{
    if body_ok {
        TransactionEnd::Commit
    } else if mysql_failure {
        TransactionEnd::LeaveToConnection
    } else {
        TransactionEnd::Rollback
    }
}

} // verus!
