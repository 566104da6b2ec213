use loadbalancer::{InboundRequest, Policy, RoundRobinServerPolicy, SingleServerPolicy};

fn request(method: &str, path_and_query: &str, body: &[u8]) -> InboundRequest {
    InboundRequest {
        method: method.to_string(),
        path_and_query: path_and_query.to_string(),
        body: body.to_vec(),
    }
}

#[test]
fn single_policy_always_same_target() {
    let policy = SingleServerPolicy::new("http://only:1".to_string());
    for i in 0..10 {
        let req = request("GET", &format!("/call/{}", i), &[i as u8]);
        assert_eq!(policy.next(&req), "http://only:1");
    }
    let post = request("POST", "/other", b"body");
    assert_eq!(policy.next(&post), "http://only:1");
}

#[test]
fn round_robin_first_cycle_in_order() {
    let targets = vec!["A".to_string(), "B".to_string(), "C".to_string()];
    let mut policy = RoundRobinServerPolicy::new(targets);
    let req = request("GET", "/", b"");
    assert_eq!(policy.next(&req), "A");
    assert_eq!(policy.next(&req), "B");
    assert_eq!(policy.next(&req), "C");
    assert_eq!(policy.next(&req), "A");
}

#[test]
fn round_robin_single_target_stays_at_front() {
    let mut policy = RoundRobinServerPolicy::new(vec!["http://solo:9".to_string()]);
    let req = request("GET", "/", b"");
    for _ in 0..5 {
        assert_eq!(policy.next(&req), "http://solo:9");
    }
}

#[test]
fn round_robin_balanced_over_whole_cycles() {
    let targets = vec!["a".to_string(), "b".to_string(), "c".to_string()];
    let mut policy = RoundRobinServerPolicy::new(targets.clone());
    let req = request("GET", "/", b"");
    let mut counts = [0usize; 3];
    for _ in 0..6 {
        let t = policy.next(&req);
        let idx = targets.iter().position(|x| *x == t).unwrap();
        counts[idx] += 1;
    }
    assert_eq!(counts, [2, 2, 2]);
}

#[test]
fn policy_enum_dispatches_both_variants() {
    let req = request("GET", "/", b"");
    let mut single = Policy::Single(SingleServerPolicy::new("S".to_string()));
    assert_eq!(single.next(&req), "S");
    assert_eq!(single.next(&req), "S");

    let mut rr = Policy::RoundRobin(RoundRobinServerPolicy::new(vec![
        "X".to_string(),
        "Y".to_string(),
    ]));
    assert_eq!(rr.next(&req), "X");
    assert_eq!(rr.next(&req), "Y");
    assert_eq!(rr.next(&req), "X");
}
