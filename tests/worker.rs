use uzi_miner::hashrate::{Hashrate, HASH_PER_ROUND};
use uzi_miner::protocol::{read_region, write_region, Message, Puzzle, WorkerError};
use uzi_miner::worker::{Phase, Worker, WorkerCore};

fn puzzle(id: u32) -> Puzzle<()> {
    Puzzle { id, context: (), blob: vec![7u8; 16], offset: 4, count: 8, target: 0x00ff_ffff }
}

fn searching(core: &WorkerCore<()>) -> &Puzzle<()> {
    match &core.phase {
        Phase::Hashing(p) => p,
        _ => panic!("not searching"),
    }
}

#[test]
fn region_write_and_read() {
    let mut blob = vec![0u8; 6];
    write_region(&mut blob, 2, &vec![1, 2, 3]);
    assert_eq!(blob, vec![0, 0, 1, 2, 3, 0]);
    assert_eq!(read_region(&blob, 1, 3), vec![0, 1, 2]);
}

#[test]
fn puzzle_region_check() {
    assert!(puzzle(0).is_well_formed());
    let mut p = puzzle(0);
    p.offset = 9;
    assert!(!p.is_well_formed());
    p.offset = usize::MAX;
    assert!(!p.is_well_formed());
}

#[test]
fn puzzle_starts_search() {
    let mut core = WorkerCore::new(3, 0);
    assert!(!core.receive(Message::Puzzle(puzzle(5)), 100));
    assert!(core.is_hashing());
    let p = searching(&core);
    assert_eq!(p.id, 5);
    assert_eq!(&p.blob[..4], &[7u8; 4]);
    assert_eq!(&p.blob[12..], &[7u8; 4]);
    assert_eq!(core.hashed_nonce, p.blob[4..12].to_vec());
    assert_eq!(core.sampler.window_start_ms, 100);
}

#[test]
fn advance_keeps_hashed_nonce() {
    let mut core = WorkerCore::new(0, 0);
    core.receive(Message::Puzzle(puzzle(1)), 0);
    let before = searching(&core).blob[4..12].to_vec();
    assert!(core.advance());
    assert_eq!(core.hashed_nonce, before);
    assert_eq!(searching(&core).blob.len(), 16);
    let round = core.record(true);
    let sol = round.solution.unwrap();
    assert_eq!(sol.id, 1);
    assert_eq!(sol.nonce, before);
    assert!(sol.found);
}

#[test]
fn no_solution_when_target_missed() {
    let mut core = WorkerCore::new(0, 0);
    core.receive(Message::Puzzle(puzzle(1)), 0);
    core.advance();
    let round = core.record(false);
    assert!(round.solution.is_none());
    assert!(!round.poll_due);
    assert_eq!(core.counter, 1);
}

#[test]
fn poll_due_after_a_batch() {
    let mut core = WorkerCore::new(2, 0);
    core.receive(Message::Puzzle(puzzle(1)), 0);
    for i in 1..=HASH_PER_ROUND {
        core.advance();
        let round = core.record(false);
        assert_eq!(round.poll_due, i == HASH_PER_ROUND);
    }
    assert_eq!(core.end_batch(1_000), Some((2, Hashrate(256_000))));
    assert_eq!(core.counter, 0);
    assert_eq!(core.end_batch(2_000), None);
}

#[test]
fn solution_reported_before_switch() {
    let mut core = WorkerCore::new(0, 0);
    core.receive(Message::Puzzle(puzzle(7)), 0);
    let mut last = None;
    for _ in 0..HASH_PER_ROUND {
        core.advance();
        last = Some(core.record(true));
    }
    let round = last.unwrap();
    assert!(round.poll_due);
    assert_eq!(round.solution.unwrap().id, 7);
    assert!(core.receive(Message::Puzzle(puzzle(8)), 5));
    assert_eq!(searching(&core).id, 8);
    assert_eq!(core.counter, 0);
}

#[test]
fn break_when_idle_is_noop() {
    let mut core: WorkerCore<()> = WorkerCore::new(0, 0);
    assert!(!core.receive(Message::Break, 10));
    assert!(matches!(core.phase, Phase::Idle));
    assert_eq!(core.sampler.window_start_ms, 0);
}

#[test]
fn break_suspends_search() {
    let mut core = WorkerCore::new(0, 0);
    core.receive(Message::Puzzle(puzzle(1)), 0);
    assert!(core.receive(Message::Break, 10));
    assert!(matches!(core.phase, Phase::Idle));
    assert!(!core.advance());
    assert!(core.record(true).solution.is_none());
    assert_eq!(core.end_batch(20), None);
}

#[test]
fn terminate_ends_worker() {
    let mut core = WorkerCore::new(0, 0);
    core.receive(Message::Puzzle(puzzle(1)), 0);
    assert!(core.receive(Message::Terminate, 1));
    assert!(core.is_terminated());
    assert!(!core.receive(Message::Puzzle(puzzle(2)), 2));
    assert!(core.is_terminated());
}

#[test]
fn malformed_puzzle_leaves_worker_waiting() {
    let mut core = WorkerCore::new(0, 0);
    core.receive(Message::Puzzle(puzzle(1)), 0);
    let mut bad = puzzle(2);
    bad.count = 17;
    assert!(core.receive(Message::Puzzle(bad), 1));
    assert!(matches!(core.phase, Phase::Idle));
}

#[test]
fn terminate_twice_fails_second_time() {
    let mut w = Worker::new(4, "chan", 99u32);
    assert_eq!(w.id(), 4);
    assert!(w.is_alive());
    assert_eq!(w.channel(), Ok(&"chan"));
    assert_eq!(w.terminate(), Ok(99));
    assert!(!w.is_alive());
    assert_eq!(w.terminate(), Err(WorkerError::Terminated));
    assert_eq!(w.channel(), Err(WorkerError::Terminated));
}
