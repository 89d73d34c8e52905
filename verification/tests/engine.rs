//! The engine substrate: token-store matching disciplines, the register
//! pool, and the driver's conservation and full-consumption checks.

use kernel_generator::Generate;
use kernel_generator::GenerateError;
use kernel_generator::RegisterPool;
use kernel_generator::State;
use kernel_generator::StateManager;
use kernel_generator::drive;

fn store_with(tokens: &[(u32, u8, u8)]) -> StateManager {
    let states: Vec<State> = tokens
        .iter()
        .map(|&(id, idx, reg)| State { id, idx, reg })
        .collect();
    StateManager::new(states).expect("seed tokens must not collide")
}

#[test]
fn single_takes_lowest_lane_first() {
    // Tokens for one category at lanes 2, 5 and 7: lane 2 leaves first.
    let mut mgr = store_with(&[(9, 2, 10), (9, 5, 11), (9, 7, 12)]);
    let first = mgr.take_single_state(9).unwrap();
    assert_eq!(first.idx, 2);
    assert_eq!(first.reg, 10);
    let second = mgr.take_single_state(9).unwrap();
    assert_eq!(second.idx, 5);
    let third = mgr.take_single_state(9).unwrap();
    assert_eq!(third.idx, 7);
    assert!(mgr.take_single_state(9).is_none());
    assert!(mgr.is_empty());
}

#[test]
fn single_misses_absent_category() {
    let mut mgr = store_with(&[(3, 0, 1)]);
    assert!(mgr.take_single_state(4).is_none());
    assert!(!mgr.is_empty());
}

#[test]
fn stride_four_pairs_lanes_zero_and_four_first() {
    // Eight tokens at lanes 0..8: a count-2 stride-4 window starts at 0.
    let mut mgr = store_with(&[
        (1, 0, 20),
        (1, 1, 21),
        (1, 2, 22),
        (1, 3, 23),
        (1, 4, 24),
        (1, 5, 25),
        (1, 6, 26),
        (1, 7, 27),
    ]);
    let pair = mgr.take_same_id_states(1, 2, 4).unwrap();
    assert_eq!(pair.len(), 2);
    assert_eq!((pair[0].idx, pair[0].reg), (0, 20));
    assert_eq!((pair[1].idx, pair[1].reg), (4, 24));
    // The next stride-4 window starts at lane 1.
    let pair = mgr.take_same_id_states(1, 2, 4).unwrap();
    assert_eq!((pair[0].idx, pair[1].idx), (1, 5));
}

#[test]
fn stride_one_collapses_pairwise_in_ascending_order() {
    // After stride-4 pairing and replacement at the lower lane, a stride-1
    // rule collapses the merged tokens pairwise until one remains at lane
    // 0.
    let mut mgr = store_with(&[
        (1, 0, 20),
        (1, 1, 21),
        (1, 2, 22),
        (1, 3, 23),
        (1, 4, 24),
        (1, 5, 25),
        (1, 6, 26),
        (1, 7, 27),
    ]);
    // Stride-4 pairing consumes (0,4), (1,5), (2,6), (3,7); each merged
    // result re-enters at the pair's lower lane.
    for _ in 0..4 {
        let pair = mgr.take_same_id_states(1, 2, 4).unwrap();
        mgr.insert_states(vec![State { id: 2, idx: pair[0].idx, reg: pair[0].reg }])
            .unwrap();
    }
    // Stride-1 pairing of the four merged lanes 0..4: (0,1) then (2,3).
    let pair = mgr.take_same_id_states(2, 2, 1).unwrap();
    assert_eq!((pair[0].idx, pair[1].idx), (0, 1));
    mgr.insert_states(vec![State { id: 3, idx: 0, reg: 0 }]).unwrap();
    let pair = mgr.take_same_id_states(2, 2, 1).unwrap();
    assert_eq!((pair[0].idx, pair[1].idx), (2, 3));
    mgr.insert_states(vec![State { id: 3, idx: 2, reg: 0 }]).unwrap();
    assert!(mgr.take_same_id_states(2, 2, 1).is_none());
    // The final level pairs the two survivors; one token remains at lane 0.
    let pair = mgr.take_same_id_states(3, 2, 2).unwrap();
    assert_eq!((pair[0].idx, pair[1].idx), (0, 2));
    mgr.insert_states(vec![State { id: 4, idx: 0, reg: 0 }]).unwrap();
    let last = mgr.take_single_state(4).unwrap();
    assert_eq!(last.idx, 0);
    assert!(mgr.is_empty());
}

#[test]
fn same_lane_join_takes_smallest_common_lane() {
    let mut mgr = store_with(&[(5, 1, 2), (5, 3, 4), (6, 3, 6), (6, 4, 7)]);
    let pair = mgr.take_same_idx_states(5, 6).unwrap();
    assert_eq!(pair.len(), 2);
    assert_eq!(pair[0].id, 5);
    assert_eq!(pair[1].id, 6);
    assert_eq!((pair[0].idx, pair[1].idx), (3, 3));
    assert_eq!((pair[0].reg, pair[1].reg), (4, 6));
    assert!(mgr.take_same_idx_states(5, 6).is_none());
}

#[test]
fn insert_into_occupied_lane_is_a_collision() {
    let mut mgr = store_with(&[(7, 3, 1)]);
    let r = mgr.insert_states(vec![State { id: 7, idx: 3, reg: 2 }]);
    assert_eq!(r, Err(GenerateError::StateCollision));
}

#[test]
fn pool_acquires_lowest_free_slot() {
    let mut mask = [true; 32];
    mask[0] = false;
    mask[1] = false;
    let mut pool = RegisterPool::new(mask);
    assert_eq!(pool.get(), 2);
    assert_eq!(pool.get(), 3);
    pool.free(2);
    assert_eq!(pool.get(), 2);
    pool.allocate(7);
    assert!(!pool.avail_list()[7]);
    assert!(!pool.avail_list()[3]);
    assert!(pool.avail_list()[4]);
}

#[test]
fn pool_release_is_idempotent() {
    let mut pool = RegisterPool::new([true; 32]);
    let r = pool.get();
    pool.free(r);
    pool.free(r);
    assert!(pool.avail_list()[r as usize]);
}

#[test]
fn driver_conserves_pool_and_consumes_every_token() {
    // A successful run leaves the store globally empty and the pool
    // byte-for-byte as it started.
    let generator = kernel_generator::spmv::end::Generator::new(
        Some(3),
        "I",
        64,
        "Y",
        "NROW",
        "loop_spmv",
    );
    let entry_mask = generator.avail_registers();
    let mut pool = RegisterPool::new(entry_mask);
    let mut mgr = StateManager::new(generator.initial_states()).unwrap();
    let out = drive(&generator, &mut pool, &mut mgr);
    assert!(out.is_ok());
    assert!(mgr.is_empty());
    assert_eq!(pool.avail_list(), &entry_mask);
}

#[test]
fn driver_reports_unconsumed_tokens() {
    // A token no rule matches reaches the fixpoint unconsumed.
    let generator = kernel_generator::spmv::end::Generator::new(
        None,
        "I",
        8,
        "Y",
        "NROW",
        "loop_spmv",
    );
    let mut pool = RegisterPool::new(generator.avail_registers());
    let mut mgr = StateManager::new(vec![State { id: 999, idx: 0, reg: 0 }]).unwrap();
    let out = drive(&generator, &mut pool, &mut mgr);
    match out {
        Err(e) => assert_eq!(e, GenerateError::UnconsumedStates),
        Ok(_) => panic!("a token no rule matches must not be consumed"),
    }
}

#[test]
fn rule_order_is_the_tie_break() {
    // With tokens for two rules pending, the earlier-listed rule fires
    // first: the epilogue emits the base moves before the counter
    // decrement, whatever order the seeds carry.
    let generator = kernel_generator::microkernel::PostkernelGenerator::new(
        kernel_generator::microkernel::Direction::Forward,
        Some(1),
        128,
        "COL",
        256,
        "VAL",
        None,
        "TMP",
        None,
        true,
        "I",
        "loop_x",
    )
    .unwrap();
    let out = generator.generate().unwrap();
    let text = out.print(0, &[], &[]);
    let add_pos = text.find("add $0x80, %[COL]").unwrap();
    let sub_pos = text.find("sub $0x1, %[I]").unwrap();
    assert!(add_pos < sub_pos);
}

#[test]
fn stride_window_needs_every_lane_populated() {
    // Lanes 0 and 3 only: no count-2 stride-1 window exists, and no
    // stride-4 window fits below the lane bound.
    let mut mgr = store_with(&[(1, 0, 5), (1, 3, 6)]);
    assert!(mgr.take_same_id_states(1, 2, 1).is_none());
    assert!(mgr.take_same_id_states(1, 2, 4).is_none());
    // A stride-3 window pairs them.
    let pair = mgr.take_same_id_states(1, 2, 3).unwrap();
    assert_eq!((pair[0].idx, pair[1].idx), (0, 3));
}

#[test]
fn a_generator_with_no_seeds_is_owed_the_empty_output() {
    // No epilogue step is configured: no token is seeded, no rule can
    // match, and the driver returns the empty sequence.
    let generator = kernel_generator::microkernel::PostkernelGenerator::new(
        kernel_generator::microkernel::Direction::Forward,
        None,
        128,
        "COL",
        256,
        "VAL",
        None,
        "TMP",
        None,
        false,
        "I",
        "loop_x",
    )
    .unwrap();
    let out = generator.generate().unwrap();
    let text = out.print(0, &[], &[]);
    assert_eq!(text, "asm volatile(\n: \n:\n: \n);\n");
}
