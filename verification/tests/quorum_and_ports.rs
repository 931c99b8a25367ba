use puls::ports::allocate;
use puls::quorum::{quorum, QuorumConfig};

#[test]
fn quorum_is_the_bookie_count_up_to_three() {
    assert_eq!(quorum(1), QuorumConfig { ensemble_size: 1, write_quorum: 1, ack_quorum: 1 });
    assert_eq!(quorum(2), QuorumConfig { ensemble_size: 2, write_quorum: 2, ack_quorum: 2 });
    assert_eq!(quorum(3), QuorumConfig { ensemble_size: 3, write_quorum: 3, ack_quorum: 3 });
}

#[test]
fn quorum_is_capped_at_three() {
    assert_eq!(quorum(5), QuorumConfig { ensemble_size: 3, write_quorum: 3, ack_quorum: 3 });
    assert_eq!(
        quorum(u32::MAX),
        QuorumConfig { ensemble_size: 3, write_quorum: 3, ack_quorum: 3 }
    );
}

#[test]
fn ports_begin_with_the_cluster_index() {
    let first = allocate(0);
    assert_eq!(first.cluster_index, 0);
    assert_eq!(first.admin_port, 8080);
    assert_eq!(first.data_port, 6650);
    let third = allocate(2);
    assert_eq!(third.admin_port, 28080);
    assert_eq!(third.data_port, 26650);
    let last = allocate(9);
    assert_eq!(last.admin_port, 98080);
    assert_eq!(last.data_port, 96650);
}

#[test]
fn ports_of_single_digit_clusters_follow_the_formula() {
    for c in 0u32..10 {
        let p = allocate(c);
        assert_eq!(p.admin_port, u64::from(c) * 10000 + 8080);
        assert_eq!(p.data_port, u64::from(c) * 10000 + 6650);
        assert_eq!(p.admin_port.to_string(), format!("{}8080", c).trim_start_matches('0'));
    }
}
