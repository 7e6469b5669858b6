//! Turning per-symbol lookup outcomes into a complete function table.
//!
//! The caller looks every required entry point up in the opened library and
//! records, per name, either the resolved handle or the loader's diagnostic.
//! Resolution then either bundles all handles into one immutable
//! [`LLVMMethods`] value, or fails naming exactly the first entry point that
//! was missing — a table is never partially populated.

use vstd::prelude::*;

use crate::entry_points::ENTRY_POINT_COUNT;
use crate::errors::LoadError;
use crate::table::LLVMMethods;

verus! {

/// What one symbol lookup in the opened library produced.
pub enum LookupOutcome {
    /// The entry point was present; carries the resolved handle.
    Found(usize),
    /// The entry point was absent; carries the OS loader's diagnostic text.
    Missing(String),
}

/// Whether a lookup produced a handle.
pub open spec fn is_found(outcome: LookupOutcome) -> bool {
    outcome is Found
}

/// Whether `position` is the first lookup that failed: it failed, and every
/// lookup before it succeeded.
pub open spec fn resolution_fails_at(outcomes: Seq<LookupOutcome>, position: int) -> bool {
    &&& 0 <= position < outcomes.len()
    &&& !is_found(outcomes[position])
    &&& forall|k: int| 0 <= k < position ==> is_found(outcomes[k])
}

/// There is at most one first failed lookup.
pub proof fn lemma_failure_position_unique(
    outcomes: Seq<LookupOutcome>,
    position_a: int,
    position_b: int,
)
    requires
        resolution_fails_at(outcomes, position_a),
        resolution_fails_at(outcomes, position_b),
    ensures
        position_a == position_b,
{
}

/// A set of outcomes in which exactly one lookup failed fails resolution at
/// that lookup, and nowhere else: the error resolution reports names exactly
/// the one missing entry point.
pub proof fn lemma_single_missing_fails_there(outcomes: Seq<LookupOutcome>, position: int)
    requires
        0 <= position < outcomes.len(),
        !is_found(outcomes[position]),
        forall|k: int| 0 <= k < outcomes.len() && k != position ==> is_found(outcomes[k]),
    ensures
        resolution_fails_at(outcomes, position),
        forall|k: int| resolution_fails_at(outcomes, k) ==> k == position,
{
    assert forall|k: int| resolution_fails_at(outcomes, k) implies k == position by {
        lemma_failure_position_unique(outcomes, k, position);
    }
}

impl LLVMMethods {
    /// Resolves the required entry points from the recorded lookup outcomes.
    ///
    /// Succeeds if and only if every lookup found its symbol; the table then
    /// holds every resolved handle in resolution order. Otherwise the result
    /// names the first entry point whose lookup failed, together with the
    /// loader's diagnostic for it.
    pub fn load(names: &Vec<&str>, outcomes: &Vec<LookupOutcome>) -> (result: Result<
        LLVMMethods,
        LoadError,
    >)
        requires
            names@.len() == ENTRY_POINT_COUNT,
            outcomes@.len() == names@.len(),
        ensures
            (result is Ok <==> (forall|k: int|
                0 <= k < outcomes@.len() ==> is_found(outcomes@[k]))),
            (result matches Ok(methods) ==> {
                &&& methods.wf()
                &&& forall|k: int|
                    0 <= k < outcomes@.len() ==> methods@[k] == outcomes@[k]->Found_0
            }),
            (result matches Err(error) ==> {
                &&& exists|position: int| #[trigger] resolution_fails_at(outcomes@, position)
                &&& forall|position: int|
                    #[trigger] resolution_fails_at(outcomes@, position) ==> (error matches
                    LoadError::LoadFunction { inner, target } && target@ == names@[position]@
                        && inner@ == outcomes@[position]->Missing_0@)
            }),
    {
        let mut handles: Vec<usize> = Vec::with_capacity(outcomes.len());
        let mut position: usize = 0;
        while position < outcomes.len()
            invariant
                position <= outcomes@.len(),
                names@.len() == ENTRY_POINT_COUNT,
                outcomes@.len() == names@.len(),
                handles@.len() == position,
                forall|k: int| 0 <= k < position ==> is_found(outcomes@[k]),
                forall|k: int| 0 <= k < position ==> handles@[k] == outcomes@[k]->Found_0,
            decreases outcomes@.len() - position,
        {
            match &outcomes[position] {
                LookupOutcome::Found(handle) => {
                    handles.push(*handle);
                },
                LookupOutcome::Missing(detail) => {
                    proof {
                        assert(resolution_fails_at(outcomes@, position as int));
                        assert forall|other: int| #[trigger] resolution_fails_at(outcomes@, other)
                            implies other == position as int by {
                            lemma_failure_position_unique(outcomes@, other, position as int);
                        }
                    }
                    return Err(
                        LoadError::LoadFunction {
                            inner: detail.clone(),
                            target: names[position].to_owned(),
                        },
                    );
                },
            }
            position = position + 1;
        }
        Ok(LLVMMethods::from_handles(handles))
    }
}

} // verus!
