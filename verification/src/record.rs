//! Free-form measurements.  A [`Record`] stores one named amount (weight,
//! distance, anything countable) at the instant it was logged.  All records
//! share the partition key `"Record"`; the timestamp sort key orders them.

use vstd::prelude::*;

verus! {

/// One logged measurement.
#[derive(Debug, Clone)]
pub struct Record {
    pub pk: String,
    pub sk: String,
    pub name: String,
    pub amount: u64,
    pub unit: Option<String>,
}

/// The fields a caller supplies to log a measurement.
#[derive(Debug, Clone)]
pub struct RecordFC {
    pub name: String,
    pub amount: u64,
    pub unit: Option<String>,
}

impl Record {
    /// Builds the record to persist for a measurement logged at `now`.
    pub fn new(record_fc: RecordFC, now: String) -> (r: Record)
        ensures
            r.pk@ == "Record"@,
            r.sk == now,
            r.name == record_fc.name,
            r.amount == record_fc.amount,
            r.unit == record_fc.unit,
    {
        Record {
            pk: "Record".to_owned(),
            sk: now,
            name: record_fc.name,
            amount: record_fc.amount,
            unit: record_fc.unit,
        }
    }
}

} // verus!
