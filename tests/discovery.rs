use upstream_proxy::{
    localhost_any, Candidate, CandidateStream, Discovery, NoDiscovery, PeerId, PollNext,
    SocketAddress, StaticDiscovery,
};

fn addr(last: u8, port: u16) -> SocketAddress {
    SocketAddress::V4 { ip: [10, 0, 0, last], port }
}

fn candidate(b: u8, addrs: Vec<SocketAddress>) -> Candidate<SocketAddress> {
    Candidate { peer: PeerId([b; 32]), addrs }
}

#[test]
fn no_discovery_is_pending_on_every_poll() {
    for polls in [0usize, 1, 1000] {
        let mut s = NoDiscovery.discover();
        for _ in 0..polls {
            assert_eq!(s.poll_next(), PollNext::Pending);
        }
    }
}

#[test]
fn no_discovery_clones_are_pending_too() {
    let d = NoDiscovery;
    let mut s1 = d.clone().discover();
    let mut s2 = d.discover();
    assert_eq!(s1.poll_next(), PollNext::Pending);
    assert_eq!(s2.poll_next(), PollNext::Pending);
}

#[test]
fn static_discovery_yields_three_then_stays_pending() {
    let peers = vec![
        candidate(1, vec![addr(1, 8776)]),
        candidate(2, vec![addr(2, 8776), addr(3, 8777)]),
        candidate(3, vec![localhost_any()]),
    ];
    let mut s = StaticDiscovery::new(peers.clone()).discover();
    for c in peers {
        assert_eq!(s.poll_next(), PollNext::Ready(c));
    }
    for _ in 0..1000 {
        assert_eq!(s.poll_next(), PollNext::Pending);
    }
}

#[test]
fn static_discovery_skips_entries_without_addresses() {
    let peers = vec![
        candidate(1, vec![]),
        candidate(2, vec![addr(2, 1)]),
        candidate(3, vec![]),
        candidate(4, vec![addr(4, 2)]),
    ];
    let mut s = StaticDiscovery::new(peers).discover();
    assert_eq!(s.poll_next(), PollNext::Ready(candidate(2, vec![addr(2, 1)])));
    assert_eq!(s.poll_next(), PollNext::Ready(candidate(4, vec![addr(4, 2)])));
    assert_eq!(s.poll_next(), PollNext::Pending);
}

#[test]
fn static_discovery_of_nothing_is_pending() {
    let mut s = StaticDiscovery::<SocketAddress>::new(vec![]).discover();
    assert_eq!(s.poll_next(), PollNext::Pending);
    assert_eq!(s.poll_next(), PollNext::Pending);
}

#[test]
fn static_discovery_keeps_duplicate_peers() {
    let peers = vec![candidate(9, vec![addr(1, 1)]), candidate(9, vec![addr(1, 1)])];
    let mut s = StaticDiscovery::new(peers).discover();
    assert_eq!(s.poll_next(), PollNext::Ready(candidate(9, vec![addr(1, 1)])));
    assert_eq!(s.poll_next(), PollNext::Ready(candidate(9, vec![addr(1, 1)])));
    assert_eq!(s.poll_next(), PollNext::Pending);
}
