use ip_sniffer::partition::stripe_ports;

#[test]
fn single_worker_owns_the_whole_range() {
    let ports = stripe_ports(0, 1);
    assert_eq!(ports.len(), 65535);
    assert_eq!(ports[0], 1);
    assert_eq!(*ports.last().unwrap(), 65535);
    for (i, &p) in ports.iter().enumerate() {
        assert_eq!(p as usize, i + 1);
    }
}

#[test]
fn stripe_starts_after_worker_index_and_steps_by_worker_count() {
    let ports = stripe_ports(2, 4);
    assert_eq!(ports[0], 3);
    assert_eq!(ports[1], 7);
    assert_eq!(ports[2], 11);
    for &p in &ports {
        assert_eq!((p - 1) % 4, 2);
    }
    assert_eq!(*ports.last().unwrap(), 65535);
}

#[test]
fn stripes_partition_the_port_range() {
    for workers in [1u16, 2, 3, 4, 5, 100] {
        let mut seen = vec![0u8; 65536];
        for worker in 0..workers {
            for &p in &stripe_ports(worker, workers) {
                seen[p as usize] += 1;
            }
        }
        assert_eq!(seen[0], 0);
        for port in 1..=65535usize {
            assert_eq!(seen[port], 1, "port {} workers {}", port, workers);
        }
    }
}

#[test]
fn port_one_belongs_to_worker_zero_alone() {
    for workers in [1u16, 2, 4, 5, 100] {
        let holders: Vec<u16> = (0..workers)
            .filter(|&w| stripe_ports(w, workers).contains(&1))
            .collect();
        assert_eq!(holders, vec![0]);
    }
}

#[test]
fn last_port_belongs_to_exactly_one_worker() {
    for workers in [1u16, 2, 4, 5, 100] {
        let holders: Vec<u16> = (0..workers)
            .filter(|&w| stripe_ports(w, workers).contains(&65535))
            .collect();
        assert_eq!(holders.len(), 1);
        assert_eq!(holders[0], (65535 - 1) % workers);
    }
}

#[test]
fn stripes_are_strictly_increasing() {
    for workers in [1u16, 3, 7] {
        for worker in 0..workers {
            let ports = stripe_ports(worker, workers);
            for pair in ports.windows(2) {
                assert!(pair[0] < pair[1]);
            }
        }
    }
}
