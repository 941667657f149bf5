use pass3d_bridge::chain::HeaderId;
use pass3d_bridge::finality::{
    select_header_to_submit, FinalityError, FinalitySyncState, FinalizedHeader,
};

fn id(number: u64) -> HeaderId {
    HeaderId { number, hash: vec![number as u8; 32] }
}

fn header(number: u64, justified: bool) -> FinalizedHeader {
    FinalizedHeader {
        id: id(number),
        justification: if justified { Some(vec![number as u8, 1, 2]) } else { None },
    }
}

#[test]
fn only_the_newest_justified_header_is_submitted() {
    // header #100 was submitted; the source then finalizes #105 with one
    // justification
    let mut state = FinalitySyncState::new(&id(100));
    let headers = vec![
        header(101, false),
        header(102, false),
        header(103, false),
        header(104, false),
        header(105, true),
    ];
    let step = state.sync_step(&id(105), &headers, &id(100));
    assert_eq!(step, Ok(Some(4)));
    assert_eq!(headers[4].id, id(105));
    assert_eq!(state.best_submitted, id(100));
    assert_eq!(state.best_target_known, id(100));
}

#[test]
fn intermediate_justifications_are_passed_over() {
    let mut state = FinalitySyncState::new(&id(100));
    let headers = vec![header(105, true), header(101, true), header(103, true), header(104, false)];
    assert_eq!(state.sync_step(&id(105), &headers, &id(100)), Ok(Some(0)));
    // the best finalized header itself has no justification
    let headers = vec![header(101, true), header(103, true), header(105, false)];
    assert_eq!(state.sync_step(&id(105), &headers, &id(100)), Ok(Some(1)));
}

#[test]
fn submitted_headers_are_not_submitted_again() {
    let mut state = FinalitySyncState::new(&id(100));
    let headers = vec![header(103, true), header(105, true)];
    assert_eq!(state.sync_step(&id(105), &headers, &id(100)), Ok(Some(1)));
    state.on_proof_submitted(&id(105));
    assert_eq!(state.best_submitted, id(105));
    // the target chain has not taken note yet
    assert_eq!(state.best_target_known, id(100));
    assert_eq!(state.sync_step(&id(105), &headers, &id(100)), Ok(None));
    // a later query confirms it
    assert_eq!(state.sync_step(&id(105), &headers, &id(105)), Ok(None));
    assert_eq!(state.best_target_known, id(105));
    // an older acceptance changes nothing
    state.on_proof_submitted(&id(103));
    assert_eq!(state.best_submitted, id(105));
}

#[test]
fn nothing_is_submitted_without_a_newer_justified_header() {
    let mut state = FinalitySyncState::new(&id(100));
    assert_eq!(state.sync_step(&id(100), &vec![], &id(100)), Ok(None));
    assert_eq!(state.sync_step(&id(105), &vec![header(105, false)], &id(100)), Ok(None));
    assert_eq!(state.sync_step(&id(105), &vec![header(100, true)], &id(100)), Ok(None));
    // a header beyond the best finalized one is not proved
    assert_eq!(state.sync_step(&id(105), &vec![header(106, true)], &id(100)), Ok(None));
    // the target chain knows more than was submitted
    assert_eq!(state.sync_step(&id(105), &vec![header(103, true)], &id(104)), Ok(None));
    assert_eq!(state.best_target_known, id(104));
    assert_eq!(state.best_submitted, id(100));
}

#[test]
fn regressions_are_fatal_and_change_nothing() {
    let mut state = FinalitySyncState::new(&id(100));
    state.on_proof_submitted(&id(105));
    let headers = vec![header(110, true)];
    assert_eq!(
        state.sync_step(&id(110), &headers, &id(99)),
        Err(FinalityError::TargetFinalityRegression)
    );
    let fork = HeaderId { number: 100, hash: vec![0u8; 32] };
    assert_eq!(
        state.sync_step(&id(110), &headers, &fork),
        Err(FinalityError::TargetFinalityRegression)
    );
    assert_eq!(
        state.sync_step(&id(104), &headers, &id(100)),
        Err(FinalityError::SourceFinalityRegression)
    );
    let source_fork = HeaderId { number: 105, hash: vec![0u8; 32] };
    assert_eq!(
        state.sync_step(&source_fork, &headers, &id(102)),
        Err(FinalityError::SourceFinalityRegression)
    );
    // both at once: the target chain is looked at first
    assert_eq!(
        state.sync_step(&id(104), &headers, &id(99)),
        Err(FinalityError::TargetFinalityRegression)
    );
    assert_eq!(state.best_target_known, id(100));
    assert_eq!(state.best_submitted, id(105));
    assert_eq!(state.sync_step(&id(110), &headers, &id(100)), Ok(Some(0)));
}

#[test]
fn selection_takes_the_first_of_equal_numbers() {
    let headers = vec![header(3, true), header(7, true), header(7, true), header(5, true)];
    assert_eq!(select_header_to_submit(&headers, 0, 10), Some(1));
    assert_eq!(select_header_to_submit(&headers, 0, 6), Some(3));
    assert_eq!(select_header_to_submit(&headers, 5, 6), None);
    assert_eq!(select_header_to_submit(&headers, 7, 10), None);
    assert_eq!(select_header_to_submit(&headers, 2, 3), Some(0));
    assert_eq!(select_header_to_submit(&vec![], 0, u64::MAX), None);
}

#[test]
fn header_ids_compare_number_and_hash() {
    assert!(id(5).same_as(&id(5)));
    assert!(!id(5).same_as(&id(6)));
    assert!(!id(5).same_as(&HeaderId { number: 5, hash: vec![5u8; 31] }));
    assert!(!id(5).same_as(&HeaderId { number: 5, hash: vec![0u8; 32] }));
    assert_eq!(id(5).duplicate(), id(5));
}
