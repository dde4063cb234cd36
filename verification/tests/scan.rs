use ip_sniffer::engine::run_scan;

/// A reachability table where exactly the listed ports accept a connection.
fn table(open_ports: &[u16]) -> Vec<bool> {
    let mut open = vec![false; 65536];
    for &p in open_ports {
        open[p as usize] = true;
    }
    open
}

#[test]
fn two_open_ports_four_workers() {
    let open = table(&[22, 80]);
    assert_eq!(run_scan(4, &open), vec![22, 80]);
}

#[test]
fn no_open_ports_one_worker() {
    let open = table(&[]);
    assert_eq!(run_scan(1, &open), Vec::<u16>::new());
}

#[test]
fn closed_target_is_empty_for_every_worker_count() {
    let open = table(&[]);
    for workers in [1u16, 2, 3, 7, 16, 100] {
        assert_eq!(run_scan(workers, &open), Vec::<u16>::new());
    }
}

#[test]
fn result_does_not_depend_on_worker_count() {
    let open = table(&[8080, 22, 65535, 1, 1024]);
    let expected = vec![1, 22, 1024, 8080, 65535];
    for workers in [1u16, 2, 3, 4, 5, 64, 1000] {
        assert_eq!(run_scan(workers, &open), expected);
    }
}

#[test]
fn one_vs_hundred_workers_agree() {
    let open = table(&[443, 8080]);
    let first = run_scan(1, &open);
    let second = run_scan(100, &open);
    assert_eq!(first, vec![443, 8080]);
    assert_eq!(second, vec![443, 8080]);
    assert_eq!(first, second);
}

#[test]
fn scanning_twice_is_idempotent() {
    let open = table(&[25, 110, 143]);
    let first = run_scan(8, &open);
    let second = run_scan(8, &open);
    assert_eq!(first, second);
    assert_eq!(first, vec![25, 110, 143]);
}

#[test]
fn maximal_worker_count_terminates() {
    let open = table(&[1, 65535]);
    assert_eq!(run_scan(65535, &open), vec![1, 65535]);
}

#[test]
fn maximal_worker_count_on_closed_target() {
    let open = table(&[]);
    assert_eq!(run_scan(65535, &open), Vec::<u16>::new());
}

#[test]
fn fully_open_target_reports_every_port() {
    let mut open = vec![true; 65536];
    open[0] = false;
    let result = run_scan(1, &open);
    assert_eq!(result.len(), 65535);
    for (i, &p) in result.iter().enumerate() {
        assert_eq!(p as usize, i + 1);
    }
}

#[test]
fn boundary_ports_are_reported() {
    let open = table(&[1, 2, 65534, 65535]);
    for workers in [1u16, 2, 4, 99] {
        assert_eq!(run_scan(workers, &open), vec![1, 2, 65534, 65535]);
    }
}
