use toby::counter::{
    allocate, next_job_id, read_counter, write_counter, Allocation, AllocationError, Endianness,
    FIRST_JOB_ID,
};

const ORDERS: [Endianness; 2] = [Endianness::Little, Endianness::Big];

/// The eight bytes of `value` in `order`, as std writes them.
fn bytes(order: Endianness, value: u64) -> Vec<u8> {
    match order {
        Endianness::Little => value.to_le_bytes().to_vec(),
        Endianness::Big => value.to_be_bytes().to_vec(),
    }
}

/// The order of this machine.
fn machine_order() -> Endianness {
    if u16::from_ne_bytes([1, 0]) == 1 {
        Endianness::Little
    } else {
        Endianness::Big
    }
}

#[test]
fn an_empty_counter_holds_the_first_id() {
    assert_eq!(1, FIRST_JOB_ID);
    for order in ORDERS.iter() {
        assert_eq!(1, read_counter(*order, &[]));
        assert_eq!(1, read_counter(*order, &[9, 9, 9]));
        assert_eq!(1, read_counter(*order, &[0, 0, 0, 0, 0, 0, 0]));
    }
}

#[test]
fn a_counter_is_read_in_the_order_that_is_named() {
    assert_eq!(41, read_counter(Endianness::Little, &[41, 0, 0, 0, 0, 0, 0, 0]));
    assert_eq!(41, read_counter(Endianness::Big, &[0, 0, 0, 0, 0, 0, 0, 41]));
    assert_eq!(0x0102030405060708, read_counter(Endianness::Big, &[1, 2, 3, 4, 5, 6, 7, 8]));
    assert_eq!(0x0807060504030201, read_counter(Endianness::Little, &[1, 2, 3, 4, 5, 6, 7, 8]));
    for order in ORDERS.iter() {
        assert_eq!(u64::MAX, read_counter(*order, &[255; 8]));

        // what follows the first eight bytes is not read
        let mut long = bytes(*order, 5);
        long.extend_from_slice(&[7, 7, 7]);
        assert_eq!(5, read_counter(*order, &long));
    }
}

#[test]
fn a_counter_in_the_order_of_the_machine() {
    let order = machine_order();
    assert_eq!(41, read_counter(order, &41u64.to_ne_bytes()));
    assert_eq!(0x0102030405060708u64.to_ne_bytes().to_vec(), write_counter(order, 0x0102030405060708));
}

#[test]
fn a_counter_is_written_as_eight_bytes() {
    assert_eq!(vec![2, 0, 0, 0, 0, 0, 0, 0], write_counter(Endianness::Little, 2));
    assert_eq!(vec![0, 0, 0, 0, 0, 0, 0, 2], write_counter(Endianness::Big, 2));
    assert_eq!(vec![1, 2, 3, 4, 5, 6, 7, 8], write_counter(Endianness::Big, 0x0102030405060708));
    assert_eq!(vec![8, 7, 6, 5, 4, 3, 2, 1], write_counter(Endianness::Little, 0x0102030405060708));
    for order in ORDERS.iter() {
        assert_eq!(vec![0u8; 8], write_counter(*order, 0));
        assert_eq!(vec![255u8; 8], write_counter(*order, u64::MAX));
    }
}

#[test]
fn what_is_written_is_read_back() {
    for order in ORDERS.iter() {
        for value in [0u64, 1, 2, 255, 256, 65535, 1 << 32, 0x0102030405060708, u64::MAX].iter() {
            assert_eq!(bytes(*order, *value), write_counter(*order, *value));
            assert_eq!(*value, read_counter(*order, &write_counter(*order, *value)));
        }
    }
}

#[test]
fn allocate_gives_the_counter_and_writes_back_one_more() {
    assert_eq!(Ok(Allocation { id: 1, next: 2 }), allocate(1));
    assert_eq!(Ok(Allocation { id: 41, next: 42 }), allocate(41));
    assert_eq!(Ok(Allocation { id: 0, next: 1 }), allocate(0));
    assert_eq!(Ok(Allocation { id: u64::MAX - 1, next: u64::MAX }), allocate(u64::MAX - 1));
    assert_eq!(Err(AllocationError::Exhausted), allocate(u64::MAX));
}

#[test]
fn the_first_job_of_a_project_has_id_one() {
    for order in ORDERS.iter() {
        let (id, written) = next_job_id(*order, &[]).unwrap();
        assert_eq!(1, id);
        assert_eq!(bytes(*order, 2), written);
    }
}

#[test]
fn the_returned_id_is_the_one_read_not_the_one_written() {
    for order in ORDERS.iter() {
        let (id, written) = next_job_id(*order, &bytes(*order, 7)).unwrap();
        assert_eq!(7, id);
        assert_eq!(bytes(*order, 8), written);
    }
}

#[test]
fn a_long_file_is_cut_to_a_counter() {
    for order in ORDERS.iter() {
        let mut contents = bytes(*order, 7);
        contents.extend_from_slice(b"garbage");
        let (id, written) = next_job_id(*order, &contents).unwrap();
        assert_eq!(7, id);
        assert_eq!(8, written.len());
    }
}

#[test]
fn ids_in_a_row_are_consecutive_and_unique() {
    for order in ORDERS.iter() {
        let mut contents: Vec<u8> = Vec::new();
        let mut ids: Vec<u64> = Vec::new();
        for _ in 0..1000 {
            let (id, written) = next_job_id(*order, &contents).unwrap();
            ids.push(id);
            contents = written;
        }
        let expected: Vec<u64> = (1..=1000).collect();
        assert_eq!(expected, ids);
    }
}

#[test]
fn ids_in_a_row_from_a_later_start() {
    for order in ORDERS.iter() {
        let mut contents = bytes(*order, 500);
        for k in 0..20u64 {
            let (id, written) = next_job_id(*order, &contents).unwrap();
            assert_eq!(500 + k, id);
            contents = written;
        }
    }
}

#[test]
fn no_id_is_made_up_when_the_counter_is_at_its_end() {
    for order in ORDERS.iter() {
        assert_eq!(Err(AllocationError::Exhausted), next_job_id(*order, &[255; 8]));
    }
}

use toby::counter::{turn, TurnAction, TurnEvent, TurnState};

/// Drives a turn in which everything works, on a counter that holds
/// `current`, and gives what was asked for.
fn turn_actions(events: &[TurnEvent]) -> (Vec<TurnAction>, TurnState) {
    let mut state = TurnState::Opening;
    let mut actions = Vec::new();
    for event in events.iter() {
        let (next, action) = turn(state, *event);
        state = next;
        actions.push(action);
    }
    (actions, state)
}

#[test]
fn a_turn_that_works() {
    let (actions, state) = turn_actions(&[
        TurnEvent::Done,
        TurnEvent::Done,
        TurnEvent::Read { current: 7 },
        TurnEvent::Done,
        TurnEvent::Done,
        TurnEvent::Done,
    ]);
    assert_eq!(
        vec![
            TurnAction::Lock,
            TurnAction::Read,
            TurnAction::Write { value: 8 },
            TurnAction::Truncate,
            TurnAction::Unlock,
            TurnAction::Return { id: 7 },
        ],
        actions
    );
    assert_eq!(TurnState::Finished { outcome: Some(7) }, state);
}

#[test]
fn a_failure_before_the_lock_ends_the_turn_at_once() {
    let (actions, state) = turn_actions(&[TurnEvent::Failed]);
    assert_eq!(vec![TurnAction::Fail], actions);
    assert_eq!(TurnState::Finished { outcome: None }, state);

    let (actions, state) = turn_actions(&[TurnEvent::Done, TurnEvent::Failed]);
    assert_eq!(vec![TurnAction::Lock, TurnAction::Fail], actions);
    assert_eq!(TurnState::Finished { outcome: None }, state);
}

#[test]
fn a_failure_under_the_lock_gives_the_lock_back_and_no_id() {
    // the write fails
    let (actions, state) = turn_actions(&[
        TurnEvent::Done,
        TurnEvent::Done,
        TurnEvent::Read { current: 7 },
        TurnEvent::Failed,
        TurnEvent::Done,
    ]);
    assert_eq!(
        vec![
            TurnAction::Lock,
            TurnAction::Read,
            TurnAction::Write { value: 8 },
            TurnAction::Unlock,
            TurnAction::Fail,
        ],
        actions
    );
    assert_eq!(TurnState::Finished { outcome: None }, state);

    // the cut fails
    let (actions, _) = turn_actions(&[
        TurnEvent::Done,
        TurnEvent::Done,
        TurnEvent::Read { current: 7 },
        TurnEvent::Done,
        TurnEvent::Failed,
        TurnEvent::Failed,
    ]);
    assert_eq!(
        vec![
            TurnAction::Lock,
            TurnAction::Read,
            TurnAction::Write { value: 8 },
            TurnAction::Truncate,
            TurnAction::Unlock,
            TurnAction::Fail,
        ],
        actions
    );
}

#[test]
fn a_counter_at_its_end_gives_the_lock_back_and_no_id() {
    let (actions, state) = turn_actions(&[
        TurnEvent::Done,
        TurnEvent::Done,
        TurnEvent::Read { current: u64::MAX },
        TurnEvent::Done,
    ]);
    assert_eq!(
        vec![TurnAction::Lock, TurnAction::Read, TurnAction::Unlock, TurnAction::Fail],
        actions
    );
    assert_eq!(TurnState::Finished { outcome: None }, state);
}

#[test]
fn the_lock_is_given_back_whatever_the_events() {
    let events = [
        TurnEvent::Done,
        TurnEvent::Failed,
        TurnEvent::Read { current: 3 },
        TurnEvent::Read { current: u64::MAX },
    ];
    // every sequence of eight events over the four kinds
    let mut code = 0usize;
    while code < 4usize.pow(8) {
        let mut state = TurnState::Opening;
        let mut held = false;
        let mut rest = code;
        for _ in 0..8 {
            let (next, action) = turn(state, events[rest % 4]);
            rest /= 4;
            state = next;
            match action {
                TurnAction::Read => {
                    assert!(!held);
                    held = true;
                }
                TurnAction::Write { .. } | TurnAction::Truncate => assert!(held),
                TurnAction::Unlock => {
                    assert!(held);
                    held = false;
                }
                TurnAction::Return { .. } | TurnAction::Fail => assert!(!held),
                _ => {}
            }
        }
        if let TurnState::Finished { .. } = state {
            assert!(!held);
        }
        code += 1;
    }
}
