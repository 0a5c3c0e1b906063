use mitama::consensus::{calculate_consensus_score, sort_scores};
use mitama::error::MitamaError;

#[test]
fn two_scores_take_the_mean() {
    assert_eq!(calculate_consensus_score(&vec![80, 84], 15), Ok(82));
}

#[test]
fn two_scores_round_down_and_skip_the_deviation_filter() {
    assert_eq!(calculate_consensus_score(&vec![0, 99], 0), Ok(49));
    assert_eq!(calculate_consensus_score(&vec![100, 100], 0), Ok(100));
}

#[test]
fn outlier_is_excluded_before_the_second_median() {
    assert_eq!(calculate_consensus_score(&vec![10, 84, 85, 88, 90], 15), Ok(85));
}

#[test]
fn consensus_does_not_depend_on_submission_order() {
    assert_eq!(calculate_consensus_score(&vec![90, 10, 88, 85, 84], 15), Ok(85));
    assert_eq!(calculate_consensus_score(&vec![84, 80], 15), Ok(82));
}

#[test]
fn fewer_than_two_scores_is_insufficient() {
    assert_eq!(
        calculate_consensus_score(&vec![70], 15),
        Err(MitamaError::InsufficientOracleConsensus)
    );
    assert_eq!(
        calculate_consensus_score(&vec![], 15),
        Err(MitamaError::InsufficientOracleConsensus)
    );
}

#[test]
fn scattered_scores_reach_no_consensus() {
    assert_eq!(
        calculate_consensus_score(&vec![0, 50, 100], 10),
        Err(MitamaError::NoConsensusReached)
    );
}

#[test]
fn three_close_scores_agree_on_the_median() {
    assert_eq!(calculate_consensus_score(&vec![70, 60, 65], 15), Ok(65));
}

#[test]
fn sort_scores_orders_ascending_and_keeps_duplicates() {
    assert_eq!(sort_scores(&vec![5, 3, 9, 3, 0, 255]), vec![0, 3, 3, 5, 9, 255]);
    assert_eq!(sort_scores(&vec![]), Vec::<u8>::new());
}
