//! The write that brings the remote AAAA record in line with an address,
//! decided from the identifiers that the lookup by name and type returned.
use vstd::prelude::*;

verus! {

/// The request that follows the lookup.
#[derive(Debug, PartialEq, Eq)]
pub enum RecordWrite {
    /// No record matches: create one.
    Create,
    /// A record matches: overwrite the one with this identifier.
    Update { id: String },
}

/// Decides the write from the identifiers of the matching records, in the
/// order the provider listed them: create when there are none, otherwise
/// update the first (any further match is left alone).
pub fn plan_write(matches: &Vec<String>) -> (r: RecordWrite)
    ensures
        matches@.len() == 0 <==> r is Create,
        matches@.len() > 0 ==> (r matches RecordWrite::Update { id } && id@ == matches@[0]@),
{
    if matches.len() == 0 {
        RecordWrite::Create
    } else {
        RecordWrite::Update { id: matches[0].clone() }
    }
}

} // verus!
