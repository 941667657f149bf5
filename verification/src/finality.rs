//! The finality sync engine of one direction: it follows the best finalized
//! header of the source chain and the best one that the target chain knows,
//! and decides which finality proof is submitted next.

use crate::chain::HeaderId;
use vstd::prelude::*;

verus! {

/// A finalized header of the source chain, with the justification that the
/// chain holds for it, if any.
#[derive(Clone, Debug, PartialEq, Eq)]
pub struct FinalizedHeader {
    pub id: HeaderId,
    pub justification: Option<Vec<u8>>,
}

/// What the chains report that no run of the protocol leads to.
#[derive(Clone, Copy, Debug, PartialEq, Eq, Structural)]
pub enum FinalityError {
    /// The target chain reports a best header below the one it reported
    /// before, or another header of the same number.
    TargetFinalityRegression,
    /// The source chain reports a best finalized header below one whose
    /// proof was submitted, or another header of the same number.
    SourceFinalityRegression,
}

/// What the relay knows of the finality of the source chain at the target
/// chain.
#[derive(Clone, Debug, PartialEq, Eq)]
pub struct FinalitySyncState {
    /// The newest header whose proof the target chain has accepted from
    /// this relay.
    pub best_submitted: HeaderId,
    /// The newest source header that the target chain was seen to know.
    pub best_target_known: HeaderId,
}

/// Whether `reported` falls behind `known`: its number is lower, or it is
/// another header of the same number.
pub open spec fn falls_behind(reported: HeaderId, known: HeaderId) -> bool {
    reported.number < known.number || (reported.number == known.number && reported.hash@
        != known.hash@)
}

/// What is wrong with the reports of the chains, if anything: the target
/// chain falls behind what it was seen to know, or else the source chain
/// falls behind what was submitted.
pub open spec fn regression(
    state: FinalitySyncState,
    source_best_finalized: HeaderId,
    target_best: HeaderId,
) -> Option<FinalityError> {
    if falls_behind(target_best, state.best_target_known) {
        Some(FinalityError::TargetFinalityRegression)
    } else if falls_behind(source_best_finalized, state.best_submitted) {
        Some(FinalityError::SourceFinalityRegression)
    } else {
        None
    }
}

/// Whether a proof of `header` can be submitted: the header has a
/// justification, is newer than `above` and no newer than `up_to`.
pub open spec fn is_eligible(header: FinalizedHeader, above: int, up_to: int) -> bool {
    header.justification is Some && above < header.id.number <= up_to
}

/// Whether `headers[i]` is the header whose proof is submitted: the newest
/// eligible one, and the first of those with its number.
pub open spec fn is_newest_eligible(
    headers: Seq<FinalizedHeader>,
    above: int,
    up_to: int,
    i: int,
) -> bool {
    &&& 0 <= i < headers.len()
    &&& is_eligible(headers[i], above, up_to)
    &&& forall|j: int|
        0 <= j < headers.len() && is_eligible(#[trigger] headers[j], above, up_to)
            ==> headers[j].id.number <= headers[i].id.number
    &&& forall|j: int|
        0 <= j < i && is_eligible(#[trigger] headers[j], above, up_to) ==> headers[j].id.number
            < headers[i].id.number
}

/// The number that a header must exceed to be submitted: that of the best
/// header the target chain knows, and that of the best one submitted.
pub open spec fn submission_floor(best_submitted: HeaderId, target_best: HeaderId) -> int {
    if best_submitted.number > target_best.number {
        best_submitted.number as int
    } else {
        target_best.number as int
    }
}

/// Finds the newest header with a justification whose number lies above
/// `above` and not above `up_to`: finality is transitive, so its proof
/// stands for all the headers below it.
pub fn select_header_to_submit(headers: &Vec<FinalizedHeader>, above: u64, up_to: u64) -> (selected:
    Option<usize>)
    ensures
        match selected {
            Some(i) => is_newest_eligible(headers@, above as int, up_to as int, i as int),
            None => forall|j: int|
                0 <= j < headers.len() ==> !is_eligible(
                    #[trigger] headers[j],
                    above as int,
                    up_to as int,
                ),
        },
{
    let mut selected: Option<usize> = None;
    let mut i: usize = 0;
    while i < headers.len()
        invariant
            i <= headers.len(),
            match selected {
                Some(s) => {
                    &&& s < i
                    &&& is_eligible(headers[s as int], above as int, up_to as int)
                    &&& forall|j: int|
                        0 <= j < i && is_eligible(#[trigger] headers[j], above as int, up_to as int)
                            ==> headers[j].id.number <= headers[s as int].id.number
                    &&& forall|j: int|
                        0 <= j < s && is_eligible(#[trigger] headers[j], above as int, up_to as int)
                            ==> headers[j].id.number < headers[s as int].id.number
                },
                None => forall|j: int|
                    0 <= j < i ==> !is_eligible(#[trigger] headers[j], above as int, up_to as int),
            },
        decreases headers.len() - i,
    {
        let header = &headers[i];
        let eligible = header.justification.is_some() && above < header.id.number
            && header.id.number <= up_to;
        if eligible {
            match selected {
                Some(s) => {
                    if headers[s].id.number < header.id.number {
                        selected = Some(i);
                    }
                },
                None => {
                    selected = Some(i);
                },
            }
        }
        i += 1;
    }
    selected
}

impl FinalitySyncState {
    /// The state of an engine that starts at the header which the target
    /// chain knows.
    pub fn new(target_best: &HeaderId) -> (state: FinalitySyncState)
        ensures
            state.best_submitted@ == target_best@,
            state.best_target_known@ == target_best@,
    {
        FinalitySyncState {
            best_submitted: target_best.duplicate(),
            best_target_known: target_best.duplicate(),
        }
    }

    /// One step of the engine, on what the two chains report:
    /// `source_best_finalized` is the best finalized header of the source
    /// chain, `headers` are finalized headers that the source chain has told
    /// of, and `target_best` is the best source header that the target chain
    /// knows.
    ///
    /// A report that falls behind what was seen before is fatal and changes
    /// nothing. Else the engine takes note of what the target chain knows
    /// and gives the position in `headers` of the header whose proof is
    /// submitted: the newest justified one that is newer than all that the
    /// target chain knows and all that was submitted. That the proof was
    /// accepted is told by `on_proof_submitted`.
    pub fn sync_step(
        &mut self,
        source_best_finalized: &HeaderId,
        headers: &Vec<FinalizedHeader>,
        target_best: &HeaderId,
    ) -> (step: Result<Option<usize>, FinalityError>)
        ensures
            final(self).best_submitted@ == old(self).best_submitted@,
            match step {
                Err(error) => {
                    &&& regression(*old(self), *source_best_finalized, *target_best) == Some(error)
                    &&& final(self).best_target_known@ == old(self).best_target_known@
                },
                Ok(selected) => {
                    &&& regression(*old(self), *source_best_finalized, *target_best) is None
                    &&& final(self).best_target_known@ == target_best@
                    &&& match selected {
                        Some(i) => is_newest_eligible(
                            headers@,
                            submission_floor(old(self).best_submitted, *target_best),
                            source_best_finalized.number as int,
                            i as int,
                        ),
                        None => forall|j: int|
                            0 <= j < headers.len() ==> !is_eligible(
                                #[trigger] headers[j],
                                submission_floor(old(self).best_submitted, *target_best),
                                source_best_finalized.number as int,
                            ),
                    }
                },
            },
    {
        if target_best.number < self.best_target_known.number || (target_best.number
            == self.best_target_known.number && !target_best.same_as(&self.best_target_known)) {
            return Err(FinalityError::TargetFinalityRegression);
        }
        if source_best_finalized.number < self.best_submitted.number || (
        source_best_finalized.number == self.best_submitted.number
            && !source_best_finalized.same_as(&self.best_submitted)) {
            return Err(FinalityError::SourceFinalityRegression);
        }
        self.best_target_known = target_best.duplicate();
        let above = if self.best_submitted.number > target_best.number {
            self.best_submitted.number
        } else {
            target_best.number
        };
        Ok(select_header_to_submit(headers, above, source_best_finalized.number))
    }

    /// Takes note that the target chain has accepted the proof of `header`.
    /// The best submitted header never falls: an older header changes
    /// nothing.
    pub fn on_proof_submitted(&mut self, header: &HeaderId)
        ensures
            final(self).best_target_known@ == old(self).best_target_known@,
            header.number > old(self).best_submitted.number ==> final(self).best_submitted@
                == header@,
            header.number <= old(self).best_submitted.number ==> final(self).best_submitted@
                == old(self).best_submitted@,
    {
        if header.number > self.best_submitted.number {
            self.best_submitted = header.duplicate();
        }
    }
}

/// A header is never submitted twice: once its proof was accepted, no step
/// selects it or an older one again.
pub proof fn lemma_no_double_submission(
    headers: Seq<FinalizedHeader>,
    best_submitted: HeaderId,
    target_best: HeaderId,
    up_to: int,
    i: int,
)
    requires
        is_newest_eligible(headers, submission_floor(best_submitted, target_best), up_to, i),
    ensures
        headers[i].id.number > best_submitted.number,
        headers[i].id.number > target_best.number,
        headers[i].justification is Some,
{
}

} // verus!
