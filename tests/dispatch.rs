use uzi_miner::dispatch::{
    handle_solution, DispatchError, Dispatcher, Plan, Request, RequestWrapper,
};
use uzi_miner::hashrate::HASH_PER_ROUND;
use uzi_miner::protocol::{Message, Puzzle, Solution};
use uzi_miner::worker::WorkerCore;

fn request(key: &str, blob: &str) -> RequestWrapper {
    RequestWrapper {
        puzzle: Some(Request {
            key: key.to_string(),
            blob: blob.to_string(),
            offset: 1,
            size: 2,
            target: 0x00ff_ffff,
            reward: 10,
        }),
    }
}

fn job(r: Result<Plan, DispatchError>) -> uzi_miner::dispatch::Job {
    match r {
        Ok(Plan::Dispatch(j)) => j,
        _ => panic!("expected a dispatch"),
    }
}

#[test]
fn first_puzzle_decodes_and_grows_pool() {
    let mut d: Dispatcher<u32, ()> = Dispatcher::new(2);
    let j = job(d.process_request(&request("0A0b", "00112233")));
    assert!(j.rebuild);
    assert_eq!(j.key, vec![0x0a, 0x0b]);
    assert_eq!(j.blob, vec![0x00, 0x11, 0x22, 0x33]);
    assert_eq!(j.new_workers, vec![0, 1]);
    assert_eq!(j.id, 0);
    assert_eq!((j.offset, j.count, j.target), (1, 2, 0x00ff_ffff));
}

#[test]
fn context_reused_for_same_key() {
    let mut d: Dispatcher<u32, ()> = Dispatcher::new(1);
    let rebuilds: Vec<bool> = [("aa", "00000000"), ("aa", "00000001"), ("bb", "00000001")]
        .iter()
        .map(|(k, b)| job(d.process_request(&request(k, b))).rebuild)
        .collect();
    assert_eq!(rebuilds, vec![true, false, true]);
}

#[test]
fn rebuild_clears_installed_context() {
    let mut d: Dispatcher<u32, &str> = Dispatcher::new(1);
    job(d.process_request(&request("aa", "00000000")));
    d.install_context("ctx-aa");
    job(d.process_request(&request("aa", "00000001")));
    assert_eq!(d.context(), Some(&"ctx-aa"));
    job(d.process_request(&request("bb", "00000001")));
    assert_eq!(d.context(), None);
}

#[test]
fn same_answer_dispatched_once() {
    let mut d: Dispatcher<u32, ()> = Dispatcher::new(1);
    let req = request("aa", "00000000");
    assert!(matches!(d.process_request(&req), Ok(Plan::Dispatch(_))));
    assert!(matches!(d.process_request(&req), Ok(Plan::Unchanged)));
    let j = job(d.process_request(&request("aa", "00000001")));
    assert_eq!(j.id, 1);
}

#[test]
fn no_puzzle_suspends() {
    let mut d: Dispatcher<u32, ()> = Dispatcher::new(1);
    let none = RequestWrapper { puzzle: None };
    assert!(matches!(d.process_request(&none), Ok(Plan::Suspend)));
    assert!(matches!(d.process_request(&none), Ok(Plan::Unchanged)));
}

#[test]
fn malformed_hex_is_decode_error() {
    let mut d: Dispatcher<u32, ()> = Dispatcher::new(1);
    assert!(matches!(d.process_request(&request("abc", "00000000")), Err(DispatchError::DecodeError)));
    assert!(matches!(d.process_request(&request("aa", "zz000000")), Err(DispatchError::DecodeError)));
    assert!(matches!(d.process_request(&request("aa", "zz000000")), Ok(Plan::Unchanged)));
    let j = job(d.process_request(&request("aa", "00000000")));
    assert_eq!(j.id, 0);
    assert!(j.rebuild);
}

#[test]
fn region_outside_blob_is_rejected() {
    let mut d: Dispatcher<u32, ()> = Dispatcher::new(1);
    assert!(matches!(d.process_request(&request("aa", "00")), Err(DispatchError::InvalidRegion)));
    assert_eq!(d.workers().len(), 0);
}

#[test]
fn pool_grows_only_to_its_size() {
    let mut d: Dispatcher<u32, ()> = Dispatcher::new(2);
    let j = job(d.process_request(&request("aa", "00000000")));
    for id in j.new_workers {
        d.add_worker(id);
    }
    let j = job(d.process_request(&request("aa", "00000001")));
    assert!(j.new_workers.is_empty());
    d.prune(&vec![true, false]);
    assert_eq!(d.workers(), &vec![0]);
    let j = job(d.process_request(&request("aa", "00000002")));
    assert_eq!(j.new_workers, vec![2]);
}

#[test]
fn prune_keeps_order() {
    let mut d: Dispatcher<u32, ()> = Dispatcher::new(5);
    for w in [10, 11, 12, 13, 14] {
        d.add_worker(w);
    }
    d.prune(&vec![false, true, true, false, true]);
    assert_eq!(d.workers(), &vec![11, 12, 14]);
    assert_eq!(d.take_workers(), vec![11, 12, 14]);
    assert!(d.workers().is_empty());
}

#[test]
fn solution_suspends_unless_pool_mode() {
    let sol = Solution { id: 3, nonce: vec![0x0a, 0xff, 0x00], found: true };
    let s = handle_solution(&sol, false).unwrap();
    assert!(s.suspend_all);
    assert_eq!(s.nonce_hex, "0aff00");
    let s = handle_solution(&sol, true).unwrap();
    assert!(!s.suspend_all);
    assert_eq!(s.nonce_hex, "0aff00");
}

#[test]
fn heartbeat_record_is_not_submitted() {
    let sol = Solution { id: 3, nonce: vec![], found: false };
    assert!(handle_solution(&sol, false).is_none());
}

#[test]
fn two_workers_find_solution_for_current_puzzle() {
    let mut d: Dispatcher<WorkerCore<()>, ()> = Dispatcher::new(2);
    let j = job(d.process_request(&request("aa", "00000000")));
    for id in j.new_workers.iter() {
        d.add_worker(WorkerCore::new(*id, 0));
    }
    let mut pool = d.take_workers();
    assert_eq!(pool.len(), 2);
    let mut records = Vec::new();
    for core in pool.iter_mut() {
        let p = Puzzle {
            id: j.id,
            context: (),
            blob: j.blob.clone(),
            offset: j.offset,
            count: j.count,
            target: j.target,
        };
        core.receive(Message::Puzzle(p), 0);
        for _ in 0..HASH_PER_ROUND {
            core.advance();
            // a target that every output meets
            if let Some(s) = core.record(true).solution {
                records.push(s);
            }
        }
    }
    assert!(records.iter().any(|s| s.found));
    assert!(records.iter().all(|s| s.id == j.id));
}
