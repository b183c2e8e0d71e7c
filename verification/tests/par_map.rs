use sphn::channel::{sync_channel, TryRecvError, TrySendError};
use sphn::par_map::{par_map, par_range, Next, ParMap};

/// Runs a pool over the positions `0..len` with an identity production
/// step. The workers and the consumer take turns: in each round every
/// worker sends as many results as `burst` allows and its queue takes,
/// then the consumer pulls `pulls` times.
fn run(len: usize, nthreads: usize, channel_len: usize, burst: usize, pulls: usize) -> Vec<usize> {
    let mut pool: ParMap<usize> = par_map(len, nthreads, channel_len);
    let workers = pool.buffered_lens().len();
    let mut out = Vec::new();
    let mut finished = false;
    while !finished {
        for worker in 0..workers {
            for _ in 0..burst {
                match pool.next_work(worker) {
                    Some(position) => {
                        if pool.send(worker, position).is_err() {
                            break;
                        }
                    }
                    None => break,
                }
            }
        }
        for _ in 0..pulls {
            match pool.next() {
                Next::Item(item) => out.push(item),
                Next::Pending => break,
                Next::Finished => {
                    finished = true;
                    break;
                }
                Next::Disconnected => panic!("a worker has gone"),
            }
            for occupancy in pool.buffered_lens() {
                assert!(occupancy <= channel_len.max(1));
            }
        }
    }
    out
}

#[test]
fn fan_in_gives_the_positions_back_in_order() {
    for nthreads in [1usize, 2, 3, 7] {
        for len in [0usize, 1, 6, 7, 8, 50] {
            for channel_len in [1usize, 2, 5] {
                let expected: Vec<usize> = (0..len).collect();
                assert_eq!(run(len, nthreads, channel_len, 3, 2), expected);
                assert_eq!(run(len, nthreads, channel_len, 1, 1), expected);
                assert_eq!(run(len, nthreads, channel_len, 100, 1), expected);
            }
        }
    }
}

#[test]
fn a_queue_of_no_capacity_hands_items_over_one_at_a_time() {
    let expected: Vec<usize> = (0..20).collect();
    for nthreads in [1usize, 2, 3, 7] {
        assert_eq!(run(20, nthreads, 0, 5, 1), expected);
    }
}

#[test]
fn there_are_never_more_workers_than_positions() {
    let pool: ParMap<u8> = par_map(3, 7, 1);
    assert_eq!(pool.buffered_lens(), vec![0, 0, 0]);
    let pool: ParMap<u8> = par_map(30, 7, 1);
    assert_eq!(pool.buffered_lens().len(), 7);
    let pool: ParMap<u8> = par_map(0, 0, 1);
    assert_eq!(pool.buffered_lens().len(), 0);
    let pool: ParMap<u8> = par_range(None, 5, 1);
    assert_eq!(pool.buffered_lens().len(), 5);
    let pool: ParMap<u8> = par_range(Some(2), 5, 1);
    assert_eq!(pool.buffered_lens().len(), 2);
}

#[test]
fn each_worker_is_given_the_positions_of_its_own_residue() {
    let mut pool: ParMap<usize> = par_map(10, 3, 4);
    assert_eq!(pool.next_work(0), Some(0));
    assert_eq!(pool.next_work(1), Some(1));
    assert_eq!(pool.next_work(2), Some(2));
    assert!(pool.send(1, 1).is_ok());
    assert_eq!(pool.next_work(1), Some(4));
    assert!(pool.send(1, 4).is_ok());
    assert_eq!(pool.next_work(1), Some(7));
    assert!(pool.send(1, 7).is_ok());
    assert_eq!(pool.next_work(1), None);
    assert_eq!(pool.next_work(0), Some(0));
    assert_eq!(pool.buffered_lens(), vec![0, 3, 0]);
}

#[test]
fn a_full_queue_refuses_and_gives_the_item_back() {
    let mut pool: ParMap<&str> = par_map(10, 2, 1);
    assert!(pool.send(0, "a").is_ok());
    assert!(matches!(pool.send(0, "b"), Err(TrySendError::Full("b"))));
    assert_eq!(pool.buffered_lens(), vec![1, 0]);
    assert!(matches!(pool.next(), Next::Item("a")));
    assert!(matches!(pool.next(), Next::Pending));
    assert!(pool.send(0, "b").is_ok());
    assert!(matches!(pool.next(), Next::Pending));
    assert!(pool.send(1, "c").is_ok());
    assert!(matches!(pool.next(), Next::Item("c")));
    assert!(matches!(pool.next(), Next::Item("b")));
    assert_eq!(pool.buffered_lens(), vec![0, 0]);
}

#[test]
fn occupancy_never_passes_a_capacity_of_one() {
    let len = 40;
    let mut pool: ParMap<usize> = par_map(len, 4, 1);
    let mut taken = 0;
    while taken < len {
        for _ in 0..3 {
            for worker in 0..4 {
                if let Some(position) = pool.next_work(worker) {
                    let _ = pool.send(worker, position);
                }
                for occupancy in pool.buffered_lens() {
                    assert!(occupancy <= 1);
                }
            }
        }
        match pool.next() {
            Next::Item(item) => {
                assert_eq!(item, taken);
                taken += 1;
            }
            _ => panic!("the item was sent"),
        }
    }
    assert!(matches!(pool.next(), Next::Finished));
}

#[test]
fn the_stream_ends_after_as_many_items_as_there_are_positions() {
    let mut pool: ParMap<u8> = par_map(2, 1, 4);
    assert!(pool.send(0, 10).is_ok());
    assert!(pool.send(0, 11).is_ok());
    assert_eq!(pool.next_work(0), None);
    assert!(matches!(pool.next(), Next::Item(10)));
    assert!(matches!(pool.next(), Next::Item(11)));
    assert!(matches!(pool.next(), Next::Finished));
    assert!(matches!(pool.next(), Next::Finished));
    let mut empty: ParMap<u8> = par_map(0, 3, 1);
    assert!(matches!(empty.next(), Next::Finished));
}

#[test]
fn a_worker_that_has_gone_is_reported_once_its_queue_is_empty() {
    let mut pool: ParMap<u8> = par_map(6, 2, 2);
    assert!(pool.send(0, 1).is_ok());
    pool.hang_up(0);
    assert!(matches!(pool.next(), Next::Item(1)));
    assert!(matches!(pool.next(), Next::Pending));
    pool.hang_up(1);
    assert!(matches!(pool.next(), Next::Disconnected));
    assert!(matches!(pool.next(), Next::Disconnected));
}

#[test]
fn a_closed_pool_refuses_every_send() {
    let mut pool: ParMap<u8> = par_map(6, 2, 2);
    assert!(pool.send(0, 1).is_ok());
    pool.close();
    assert!(matches!(pool.send(0, 2), Err(TrySendError::Disconnected(2))));
    assert!(matches!(pool.send(1, 3), Err(TrySendError::Disconnected(3))));
    assert_eq!(pool.buffered_lens(), vec![1, 0]);
}

#[test]
fn a_stream_without_end_keeps_handing_out() {
    let mut pool: ParMap<usize> = par_range(None, 3, 2);
    for round in 0..100 {
        for worker in 0..3 {
            let position = pool.next_work(worker).unwrap();
            assert_eq!(position, worker + 3 * round);
            assert!(pool.send(worker, position).is_ok());
        }
        for worker in 0..3 {
            match pool.next() {
                Next::Item(item) => assert_eq!(item, worker + 3 * round),
                _ => panic!("the item was sent"),
            }
        }
    }
    assert!(matches!(pool.next(), Next::Pending));
}

#[test]
fn a_channel_is_first_in_first_out_and_bounded() {
    let mut c = sync_channel::<u8>(2);
    assert_eq!(c.current_len(), 0);
    assert_eq!(c.recv(), Err(TryRecvError::Empty));
    assert!(c.send(1).is_ok());
    assert!(c.send(2).is_ok());
    assert!(matches!(c.send(3), Err(TrySendError::Full(3))));
    assert_eq!(c.current_len(), 2);
    assert_eq!(c.recv(), Ok(1));
    assert!(c.send(3).is_ok());
    assert_eq!(c.recv(), Ok(2));
    assert_eq!(c.recv(), Ok(3));
    assert_eq!(c.recv(), Err(TryRecvError::Empty));
    c.hang_up();
    assert_eq!(c.recv(), Err(TryRecvError::Disconnected));
    c.close();
    assert!(matches!(c.send(4), Err(TrySendError::Disconnected(4))));
}

#[test]
fn a_channel_of_no_capacity_takes_an_item_only_while_the_consumer_waits() {
    let mut c = sync_channel::<u8>(0);
    assert!(matches!(c.send(1), Err(TrySendError::Full(1))));
    assert_eq!(c.recv(), Err(TryRecvError::Empty));
    assert!(c.send(1).is_ok());
    assert!(matches!(c.send(2), Err(TrySendError::Full(2))));
    assert_eq!(c.current_len(), 1);
    assert_eq!(c.recv(), Ok(1));
    assert!(matches!(c.send(2), Err(TrySendError::Full(2))));
}
