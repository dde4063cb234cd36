use ip_sniffer::aggregate::aggregate;
use ip_sniffer::prober::probe_stripe;

#[test]
fn aggregate_sorts_ascending() {
    assert_eq!(aggregate(vec![8080, 22, 443]), vec![22, 443, 8080]);
}

#[test]
fn aggregate_of_empty_is_empty() {
    assert_eq!(aggregate(Vec::new()), Vec::<u16>::new());
}

#[test]
fn aggregate_keeps_sorted_input() {
    assert_eq!(aggregate(vec![1, 2, 3, 65535]), vec![1, 2, 3, 65535]);
}

#[test]
fn aggregate_keeps_every_occurrence() {
    assert_eq!(aggregate(vec![5, 3, 5, 1]), vec![1, 3, 5, 5]);
}

#[test]
fn prober_reports_open_ports_of_its_stripe_in_order() {
    let mut open = vec![false; 65536];
    open[22] = true;
    open[80] = true;
    open[23] = true;
    let stripe = vec![22, 23, 24, 80, 100];
    assert_eq!(probe_stripe(&stripe, &open), vec![22, 23, 80]);
}

#[test]
fn prober_reports_nothing_on_a_closed_stripe() {
    let open = vec![false; 65536];
    let stripe = vec![1, 5, 9];
    assert_eq!(probe_stripe(&stripe, &open), Vec::<u16>::new());
}

#[test]
fn prober_ignores_open_ports_outside_its_stripe() {
    let mut open = vec![false; 65536];
    open[443] = true;
    open[444] = true;
    let stripe = vec![444];
    assert_eq!(probe_stripe(&stripe, &open), vec![444]);
}
