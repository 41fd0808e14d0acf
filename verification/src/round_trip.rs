//! The round-trip consistency check the smoke test asserts: a get performed
//! right after a put against the same running instance must return the same
//! key and the same version identifier.
use vstd::prelude::*;

verus! {

/// The version metadata a store operation returns, reduced to the identifier
/// that round-trip consistency compares.
#[derive(Debug, Clone, Copy, PartialEq, Eq, Structural)]
pub struct RecordVersion {
    pub version_id: i64,
}

/// What a put or a get returns, reduced to the fields the smoke test reads.
#[derive(Debug, Clone)]
pub struct OperationResult {
    pub key: String,
    pub version: RecordVersion,
}

/// Mathematical view of an operation result: the key's characters and the
/// version identifier.
pub struct OperationResultView {
    pub key: Seq<char>,
    pub version_id: int,
}

impl View for OperationResult {
    type V = OperationResultView;

    open spec fn view(&self) -> OperationResultView {
        OperationResultView { key: self.key@, version_id: self.version.version_id as int }
    }
}

/// Whether a get result is consistent with the put that preceded it: the key
/// and the version identifier both agree.
pub open spec fn spec_round_trip_consistent(
    put: OperationResultView,
    get: OperationResultView,
) -> bool {
    put.key == get.key && put.version_id == get.version_id
}

pub fn round_trip_consistent(put: &OperationResult, get: &OperationResult) -> (r: bool)
    ensures
        r == spec_round_trip_consistent(put@, get@),
{
    put.key == get.key && put.version.version_id == get.version.version_id
}

} // verus!
