//! The validated retention policy: how many units of a table's own
//! granularity to keep.  Invalid combinations never exist as a value.

use crate::errors::ValidationError;
use crate::granularity::Granularity;
use vstd::prelude::*;

verus! {

/// A validated pair of a positive amount and a real partitioning unit.
/// Built only through [`new_retention_period`]; immutable afterwards.
#[derive(Debug, Clone, Copy)]
pub struct RetentionPeriod {
    amount: i64,
    granularity: Granularity,
}

impl RetentionPeriod {
    /// What validation established: a positive amount, and a granularity
    /// under which the table actually has partitions.
    #[verifier::type_invariant]
    spec fn valid(self) -> bool {
        self.amount > 0 && self.granularity != Granularity::Unpartitioned
    }

    /// The retained amount, as the contracts speak of it.
    pub closed spec fn amount_spec(self) -> i64 {
        self.amount
    }

    /// The partitioning unit, as the contracts speak of it.
    pub closed spec fn granularity_spec(self) -> Granularity {
        self.granularity
    }

    /// The retained amount; validation made it positive.
    pub fn amount(&self) -> (r: i64)
        ensures
            r == self.amount_spec(),
            r > 0,
    {
        proof {
            use_type_invariant(&*self);
        }
        self.amount
    }

    /// The partitioning unit; validation ruled out an unpartitioned table.
    pub fn granularity(&self) -> (r: Granularity)
        ensures
            r == self.granularity_spec(),
            r != Granularity::Unpartitioned,
    {
        proof {
            use_type_invariant(&*self);
        }
        self.granularity
    }
}

/// The validating factory.  Both conditions are independent; a non-positive
/// amount is reported for every granularity, and a positive amount for an
/// unpartitioned table is rejected rather than silently ignored.
pub fn new_retention_period(amount: i64, granularity: Granularity) -> (r: Result<
    RetentionPeriod,
    ValidationError,
>)
    ensures
        amount <= 0 ==> (r matches Err(ValidationError::InvalidAmount(a)) && a == amount),
        amount > 0 && granularity == Granularity::Unpartitioned ==> (r matches Err(
            ValidationError::InvalidGranularity(g),
        ) && g == granularity),
        amount > 0 && granularity != Granularity::Unpartitioned ==> (r matches Ok(p)
            && p.amount_spec() == amount && p.granularity_spec() == granularity),
{
    if amount <= 0 {
        return Err(ValidationError::InvalidAmount(amount));
    }
    if granularity == Granularity::Unpartitioned {
        return Err(ValidationError::InvalidGranularity(granularity));
    }
    Ok(RetentionPeriod { amount, granularity })
}

} // verus!
