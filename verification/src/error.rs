use vstd::prelude::*;

verus! {

/// Why a data operation failed.
#[derive(Clone, Copy, Debug, PartialEq, Eq, Structural)]
pub enum DbError {
    /// No connection could be had from the pool in time.
    PoolExhausted,
    /// The store refused or could not run the statement.
    QueryError,
    /// No row came back where exactly one was needed.
    NotFound,
    /// A row lacks a column, or holds a value of another type or no value.
    MappingError,
}

impl DbError {
    /// The HTTP status that answers a request which failed with this error.
    pub open spec fn spec_status_code(self) -> u16 {
        match self {
            DbError::NotFound => 404,
            DbError::PoolExhausted => 503,
            DbError::QueryError => 500,
            DbError::MappingError => 500,
        }
    }

    /// The HTTP status that answers a request which failed with this error:
    /// 404 for a missing row, 503 while the pool is exhausted and may be
    /// tried again, 500 for a failed statement or a row of the wrong shape.
    #[verifier::when_used_as_spec(spec_status_code)]
    pub fn status_code(self) -> (code: u16)
        ensures
            code == self.spec_status_code(),
    {
        match self {
            DbError::NotFound => 404,
            DbError::PoolExhausted => 503,
            DbError::QueryError => 500,
            DbError::MappingError => 500,
        }
    }

    /// Whether the caller may simply try the operation again.
    pub fn is_retryable(self) -> (retry: bool)
        ensures
            retry == (self == DbError::PoolExhausted),
    {
        self == DbError::PoolExhausted
    }
}

/// A result, with what it holds on success taken as mathematical values.
pub open spec fn deep<T: DeepView>(result: Result<T, DbError>) -> Result<T::V, DbError> {
    match result {
        Ok(value) => Ok(value.deep_view()),
        Err(e) => Err(e),
    }
}

} // verus!
