use std::time::{Duration, Instant};
use ticker::{Disconnected, Round, Ticker};

const UNIT: Duration = Duration::from_millis(20);

#[test]
fn it_works() {
    let vec: Vec<usize> = (0..10).collect();
    let (ticker, mut daemon) = Ticker::new(vec.iter(), Duration::from_secs(1));
    let mut iter = ticker.into_iter();
    let mut seen: Vec<usize> = Vec::new();
    loop {
        assert_eq!(daemon.step(), Round::Ticked);
        match iter.next() {
            Ok(Some(i)) => {
                println!("{:?}", i);
                seen.push(*i);
            }
            Ok(None) => break,
            Err(Disconnected) => panic!("ticker channel to live"),
        }
    }
    assert_eq!(seen, vec);
}

#[test]
fn ten_elements_take_ten_units_and_then_the_end_is_reported() {
    let (ticker, mut daemon) = Ticker::new(0..10, UNIT);
    let mut iter = ticker.into_iter();
    let start = Instant::now();
    for expected in 0..10 {
        assert_eq!(daemon.step(), Round::Ticked);
        assert_eq!(iter.next(), Ok(Some(expected)));
    }
    assert!(start.elapsed() >= UNIT * 10);
    assert_eq!(daemon.step(), Round::Ticked);
    assert_eq!(iter.next(), Ok(None));
}

#[test]
fn closing_after_three_values_of_an_endless_sequence_stops_the_daemon() {
    let interval = Duration::from_millis(500);
    let (ticker, mut daemon) = Ticker::new(0u64.., interval);
    let mut iter = ticker.into_iter();
    for expected in 0..3u64 {
        assert_eq!(daemon.step(), Round::Ticked);
        assert_eq!(iter.next(), Ok(Some(expected)));
    }
    assert!(daemon.running());
    drop(iter);
    let closed = Instant::now();
    assert_eq!(daemon.step(), Round::Signalled);
    assert!(closed.elapsed() < interval);
    assert!(!daemon.running());
    assert_eq!(daemon.step(), Round::Retired);
}

#[test]
fn first_element_is_not_there_before_one_interval() {
    let start = Instant::now();
    let (ticker, mut daemon) = Ticker::new(vec!['a', 'b'].into_iter(), UNIT);
    let mut iter = ticker.into_iter();
    assert_eq!(daemon.step(), Round::Ticked);
    assert_eq!(iter.next(), Ok(Some('a')));
    assert!(start.elapsed() >= UNIT);
}

#[test]
fn whole_sequence_takes_its_length_in_intervals() {
    let items = vec![7u8, 8, 9, 10, 11];
    let (ticker, mut daemon) = Ticker::new(items.clone().into_iter(), UNIT);
    let mut iter = ticker.into_iter();
    let start = Instant::now();
    let mut seen: Vec<u8> = Vec::new();
    loop {
        assert_eq!(daemon.step(), Round::Ticked);
        match iter.next() {
            Ok(Some(item)) => seen.push(item),
            other => {
                assert_eq!(other, Ok(None));
                break;
            }
        }
    }
    assert_eq!(seen, items);
    assert!(start.elapsed() >= UNIT * 5);
}

#[test]
fn successive_elements_are_one_interval_apart() {
    let (ticker, mut daemon) = Ticker::new(0..4, UNIT);
    let mut iter = ticker.into_iter();
    assert_eq!(daemon.step(), Round::Ticked);
    assert_eq!(iter.next(), Ok(Some(0)));
    let mut last = Instant::now();
    for expected in 1..4 {
        assert_eq!(daemon.step(), Round::Ticked);
        assert_eq!(iter.next(), Ok(Some(expected)));
        let now = Instant::now();
        assert!(now.duration_since(last) >= UNIT);
        last = now;
    }
}

#[test]
fn dropped_handle_stops_the_daemon_without_waiting_out_the_interval() {
    let (ticker, mut daemon) = Ticker::new(0..10, Duration::from_secs(15));
    drop(ticker);
    let start = Instant::now();
    assert_eq!(daemon.step(), Round::Signalled);
    assert!(start.elapsed() < Duration::from_secs(5));
    assert!(!daemon.running());
}

#[test]
fn stopped_daemon_only_retires() {
    let (ticker, mut daemon) = Ticker::new(0..10, Duration::from_secs(15));
    drop(ticker);
    assert_eq!(daemon.step(), Round::Signalled);
    let start = Instant::now();
    for _ in 0..3 {
        assert_eq!(daemon.step(), Round::Retired);
        assert!(!daemon.running());
    }
    assert!(start.elapsed() < Duration::from_secs(5));
}

#[test]
fn end_of_sequence_is_reported_on_every_later_tick() {
    let (ticker, mut daemon) = Ticker::new(vec![1u32].into_iter(), UNIT);
    let mut iter = ticker.into_iter();
    assert_eq!(daemon.step(), Round::Ticked);
    assert_eq!(iter.next(), Ok(Some(1)));
    for _ in 0..4 {
        assert_eq!(daemon.step(), Round::Ticked);
        assert_eq!(iter.next(), Ok(None));
    }
}

#[test]
fn empty_sequence_still_costs_one_tick() {
    let (ticker, mut daemon) = Ticker::new(Vec::<u8>::new().into_iter(), UNIT);
    let mut iter = ticker.into_iter();
    let start = Instant::now();
    assert_eq!(daemon.step(), Round::Ticked);
    assert_eq!(iter.next(), Ok(None));
    assert!(start.elapsed() >= UNIT);
}

#[test]
fn lagging_consumer_finds_the_ticks_queued() {
    let interval = Duration::from_millis(300);
    let (ticker, mut daemon) = Ticker::new(0..10, interval);
    let mut iter = ticker.into_iter();
    for _ in 0..3 {
        assert_eq!(daemon.step(), Round::Ticked);
    }
    let start = Instant::now();
    for expected in 0..3 {
        assert_eq!(iter.next(), Ok(Some(expected)));
    }
    assert!(start.elapsed() < interval);
}

#[test]
fn dead_daemon_is_an_error_and_not_the_end() {
    let (ticker, daemon) = Ticker::new(0..10, UNIT);
    let mut iter = ticker.into_iter();
    drop(daemon);
    assert_eq!(iter.next(), Err(Disconnected));
    assert_eq!(iter.next(), Err(Disconnected));
}

#[test]
fn queued_ticks_outlive_the_daemon() {
    let (ticker, mut daemon) = Ticker::new(0..10, UNIT);
    let mut iter = ticker.into_iter();
    assert_eq!(daemon.step(), Round::Ticked);
    assert_eq!(daemon.step(), Round::Ticked);
    drop(daemon);
    assert_eq!(iter.next(), Ok(Some(0)));
    assert_eq!(iter.next(), Ok(Some(1)));
    assert_eq!(iter.next(), Err(Disconnected));
}

#[test]
fn stopped_daemon_lets_go_of_the_tick_line() {
    let (ticker, mut daemon) = Ticker::new(0..10, UNIT);
    let (other, mut other_daemon) = Ticker::new(5..6, UNIT);
    let mut iter = other.into_iter();
    drop(ticker);
    assert_eq!(daemon.step(), Round::Signalled);
    assert_eq!(other_daemon.step(), Round::Ticked);
    assert_eq!(iter.next(), Ok(Some(5)));
}

#[test]
fn zero_interval_ticks_at_once() {
    let (ticker, mut daemon) = Ticker::new(0..3, Duration::ZERO);
    let mut iter = ticker.into_iter();
    let start = Instant::now();
    for expected in 0..3 {
        assert_eq!(daemon.step(), Round::Ticked);
        assert_eq!(iter.next(), Ok(Some(expected)));
    }
    assert!(start.elapsed() < Duration::from_secs(5));
}

#[test]
fn queued_ticks_run_past_the_end_in_order() {
    let (ticker, mut daemon) = Ticker::new(vec!['x', 'y'].into_iter(), UNIT);
    let mut iter = ticker.into_iter();
    for _ in 0..4 {
        assert_eq!(daemon.step(), Round::Ticked);
    }
    assert_eq!(iter.next(), Ok(Some('x')));
    assert_eq!(iter.next(), Ok(Some('y')));
    assert_eq!(iter.next(), Ok(None));
    assert_eq!(iter.next(), Ok(None));
}

#[test]
fn turning_into_an_iterator_sends_no_signal_and_keeps_the_ticks() {
    let (ticker, mut daemon) = Ticker::new(10..13, UNIT);
    assert_eq!(daemon.step(), Round::Ticked);
    let mut iter = ticker.into_iter();
    assert_eq!(daemon.step(), Round::Ticked);
    assert!(daemon.running());
    assert_eq!(iter.next(), Ok(Some(10)));
    assert_eq!(iter.next(), Ok(Some(11)));
}
