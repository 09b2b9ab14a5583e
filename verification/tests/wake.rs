use pollable_mpsc::event::Source;
use pollable_mpsc::io_source::signal_after;
use pollable_mpsc::mpsc::channel;
use pollable_mpsc::mpsc::sync_channel;
use pollable_mpsc::mpsc::SendError;
use pollable_mpsc::mpsc::TryRecvError;
use pollable_mpsc::mpsc::TrySendError;
use pollable_mpsc::Interest;
use pollable_mpsc::IoSource;
use pollable_mpsc::Registry;
use pollable_mpsc::Token;
use pollable_mpsc::Waker;
use std::io;
use std::sync::Arc;
use std::sync::Mutex;

/// What the stand-in reactor remembers.
struct State {
    registered: Vec<Token>,
    signalled: Vec<Token>,
    wake_calls: usize,
    wake_fails: bool,
}

struct Shared {
    state: Mutex<State>,
}

/// A reactor that lives in the test. `poll` reports the tokens woken since
/// the last call.
struct Reactor {
    shared: Arc<Shared>,
}

struct ReactorWaker {
    token: Token,
    shared: Arc<Shared>,
}

impl Waker for ReactorWaker {
    fn wake(&self) -> io::Result<()> {
        let mut state = self.shared.state.lock().unwrap();
        state.wake_calls += 1;
        if state.wake_fails {
            return Err(io::Error::new(io::ErrorKind::WouldBlock, "wake channel is full"));
        }
        if !state.signalled.contains(&self.token) {
            state.signalled.push(self.token);
        }
        Ok(())
    }
}

impl Reactor {
    fn new() -> Reactor {
        Reactor {
            shared: Arc::new(Shared {
                state: Mutex::new(State {
                    registered: Vec::new(),
                    signalled: Vec::new(),
                    wake_calls: 0,
                    wake_fails: false,
                }),
            }),
        }
    }

    fn fail_wakes(&self) {
        self.shared.state.lock().unwrap().wake_fails = true;
    }

    fn wake_calls(&self) -> usize {
        self.shared.state.lock().unwrap().wake_calls
    }

    /// The tokens woken since the last call.
    fn poll(&self) -> Vec<Token> {
        std::mem::take(&mut self.shared.state.lock().unwrap().signalled)
    }

    fn waker(&self, token: Token) -> Arc<dyn Waker> {
        Arc::new(ReactorWaker { token, shared: self.shared.clone() })
    }
}

impl Registry for Reactor {
    fn register(&self, token: Token, _interests: Interest) -> io::Result<Arc<dyn Waker>> {
        self.shared.state.lock().unwrap().registered.push(token);
        Ok(self.waker(token))
    }

    fn reregister(
        &self,
        current: Token,
        token: Token,
        _interests: Interest,
    ) -> io::Result<Arc<dyn Waker>> {
        let mut state = self.shared.state.lock().unwrap();
        state.registered.retain(|held| *held != current);
        state.registered.push(token);
        drop(state);
        Ok(self.waker(token))
    }

    fn deregister(&self, token: Token) -> io::Result<()> {
        self.shared.state.lock().unwrap().registered.retain(|held| *held != token);
        Ok(())
    }
}

#[test]
fn every_successful_send_is_followed_by_a_notification() {
    let reactor = Reactor::new();
    let (tx, mut rx) = channel();
    assert!(rx.register(&reactor, Token(3), Interest::Readable).is_ok());
    for n in 0..5u32 {
        assert_eq!(tx.send(n), Ok(()));
        assert_eq!(reactor.poll(), vec![Token(3)]);
        assert_eq!(rx.try_recv(), Ok(n));
    }
    assert_eq!(reactor.wake_calls(), 5);
    assert_eq!(reactor.poll(), vec![]);
}

#[test]
fn bounded_sends_are_followed_by_a_notification() {
    let reactor = Reactor::new();
    let (tx, mut rx) = sync_channel(2);
    assert!(rx.register(&reactor, Token(8), Interest::Readable).is_ok());
    assert_eq!(tx.send(1u8), Ok(()));
    assert_eq!(reactor.poll(), vec![Token(8)]);
    assert_eq!(tx.try_send(2u8), Ok(()));
    assert_eq!(reactor.poll(), vec![Token(8)]);
    assert_eq!(reactor.wake_calls(), 2);
}

#[test]
fn one_notification_may_stand_for_many_items() {
    let reactor = Reactor::new();
    let (tx, mut rx) = channel();
    assert!(rx.register(&reactor, Token(1), Interest::Readable).is_ok());
    for n in 0..10u32 {
        assert_eq!(tx.send(n), Ok(()));
    }
    assert_eq!(reactor.poll(), vec![Token(1)]);
    let mut drained = Vec::new();
    loop {
        match rx.try_recv() {
            Ok(n) => drained.push(n),
            Err(e) => {
                assert_eq!(e, TryRecvError::Empty);
                break;
            }
        }
    }
    assert_eq!(drained, vec![0, 1, 2, 3, 4, 5, 6, 7, 8, 9]);
    assert_eq!(reactor.poll(), vec![]);
}

#[test]
fn send_without_registration_wakes_nothing_and_succeeds() {
    let reactor = Reactor::new();
    let (tx, rx) = channel();
    assert_eq!(tx.send(1u8), Ok(()));
    assert_eq!(reactor.wake_calls(), 0);
    assert_eq!(rx.try_recv(), Ok(1));
}

#[test]
fn failing_wake_does_not_change_what_send_returns() {
    let reactor = Reactor::new();
    reactor.fail_wakes();
    let (tx, mut rx) = channel();
    assert!(rx.register(&reactor, Token(1), Interest::Readable).is_ok());
    assert_eq!(tx.send(11u8), Ok(()));
    assert_eq!(tx.send(12u8), Ok(()));
    assert_eq!(reactor.wake_calls(), 2);
    assert_eq!(reactor.poll(), vec![]);
    assert_eq!(rx.try_recv(), Ok(11));
    assert_eq!(rx.try_recv(), Ok(12));
    drop(rx);
    assert_eq!(tx.send(13u8), Err(SendError(13)));
}

#[test]
fn failing_wake_does_not_change_what_bounded_sends_return() {
    let reactor = Reactor::new();
    reactor.fail_wakes();
    let (tx, mut rx) = sync_channel(1);
    assert!(rx.register(&reactor, Token(1), Interest::Readable).is_ok());
    assert_eq!(tx.try_send(1u8), Ok(()));
    assert_eq!(tx.try_send(2u8), Err(TrySendError::Full(2)));
    assert_eq!(rx.try_recv(), Ok(1));
    assert_eq!(tx.send(3u8), Ok(()));
    assert_eq!(rx.try_recv(), Ok(3));
    assert_eq!(reactor.wake_calls(), 2);
    drop(rx);
    assert_eq!(tx.try_send(4u8), Err(TrySendError::Disconnected(4)));
    assert_eq!(tx.send(5u8), Err(SendError(5)));
}

#[test]
fn failed_send_wakes_nothing() {
    let reactor = Reactor::new();
    let (tx, mut rx) = sync_channel(1);
    assert!(rx.register(&reactor, Token(1), Interest::Readable).is_ok());
    assert_eq!(tx.try_send(1u8), Ok(()));
    assert_eq!(reactor.wake_calls(), 1);
    assert_eq!(tx.try_send(2u8), Err(TrySendError::Full(2)));
    assert_eq!(reactor.wake_calls(), 1);
    drop(rx);
    assert_eq!(tx.try_send(3u8), Err(TrySendError::Disconnected(3)));
    assert_eq!(tx.send(4u8), Err(SendError(4)));
    assert_eq!(reactor.wake_calls(), 1);
}

#[test]
fn receiving_wakes_nothing() {
    let reactor = Reactor::new();
    let (tx, mut rx) = channel();
    assert!(rx.register(&reactor, Token(1), Interest::Readable).is_ok());
    assert_eq!(tx.send(1u8), Ok(()));
    assert_eq!(reactor.wake_calls(), 1);
    assert_eq!(rx.try_recv(), Ok(1));
    assert_eq!(rx.try_recv(), Err(TryRecvError::Empty));
    assert_eq!(reactor.wake_calls(), 1);
}

#[test]
fn sends_after_deregister_wake_nothing() {
    let reactor = Reactor::new();
    let (tx, mut rx) = channel();
    assert!(rx.register(&reactor, Token(1), Interest::Readable).is_ok());
    assert!(rx.deregister(&reactor).is_ok());
    assert_eq!(tx.send(1u8), Ok(()));
    assert_eq!(reactor.wake_calls(), 0);
    assert_eq!(reactor.poll(), vec![]);
    assert_eq!(rx.try_recv(), Ok(1));
}

#[test]
fn sends_after_reregister_wake_the_new_token() {
    let reactor = Reactor::new();
    let (tx, mut rx) = channel();
    assert!(rx.register(&reactor, Token(1), Interest::Readable).is_ok());
    assert_eq!(tx.send(1u8), Ok(()));
    assert_eq!(reactor.poll(), vec![Token(1)]);
    assert!(rx.reregister(&reactor, Token(2), Interest::Readable).is_ok());
    assert_eq!(tx.send(2u8), Ok(()));
    assert_eq!(reactor.poll(), vec![Token(2)]);
}

#[test]
fn two_queues_wake_their_own_tokens() {
    let reactor = Reactor::new();
    let (tx_a, mut rx_a) = channel();
    let (tx_b, mut rx_b) = sync_channel(1);
    assert!(rx_a.register(&reactor, Token(10), Interest::Readable).is_ok());
    assert!(rx_b.register(&reactor, Token(20), Interest::Readable).is_ok());
    assert_eq!(tx_b.send('b'), Ok(()));
    assert_eq!(reactor.poll(), vec![Token(20)]);
    assert_eq!(tx_a.send('a'), Ok(()));
    assert_eq!(reactor.poll(), vec![Token(10)]);
    assert_eq!(rx_a.try_recv(), Ok('a'));
    assert_eq!(rx_b.try_recv(), Ok('b'));
}

#[test]
fn interleaved_producers_wake_one_consumer_until_all_is_received() {
    let producers = 4u32;
    let each = 100u32;
    let reactor = Reactor::new();
    let (tx, mut rx) = channel();
    assert!(rx.register(&reactor, Token(1), Interest::Readable).is_ok());
    let handles = vec![&tx, &tx, &tx, &tx];
    let mut seen = vec![0u32; (producers * each) as usize];
    for n in 0..each {
        for p in 0..producers {
            assert_eq!(handles[p as usize].send(p * each + n), Ok(()));
        }
        if n % 7 == 6 || n + 1 == each {
            assert_eq!(reactor.poll(), vec![Token(1)]);
            while let Ok(item) = rx.try_recv() {
                seen[item as usize] += 1;
            }
        }
    }
    assert_eq!(reactor.poll(), vec![]);
    assert_eq!(seen, vec![1u32; (producers * each) as usize]);
    assert_eq!(reactor.wake_calls(), (producers * each) as usize);
}

#[test]
fn do_io_hands_the_result_back_and_wakes_on_success_only() {
    let reactor = Reactor::new();
    let mut source = IoSource::new(20u32);
    assert!(source.register(&reactor, Token(2), Interest::Readable).is_ok());
    let doubled: Result<u32, String> = source.do_io(|n| Ok(*n * 2));
    assert_eq!(doubled, Ok(40));
    assert_eq!(reactor.wake_calls(), 1);
    assert_eq!(reactor.poll(), vec![Token(2)]);
    let refused: Result<u32, String> = source.do_io(|n| Err(format!("no {}", n)));
    assert_eq!(refused, Err(String::from("no 20")));
    assert_eq!(reactor.wake_calls(), 1);
    assert_eq!(reactor.poll(), vec![]);
}

#[test]
fn wake_after_hands_the_outcome_back() {
    let reactor = Reactor::new();
    let mut source = IoSource::new(());
    let before: Result<u8, u8> = source.wake_after(Ok(1));
    assert_eq!(before, Ok(1));
    assert_eq!(reactor.wake_calls(), 0);
    assert!(source.register(&reactor, Token(2), Interest::Readable).is_ok());
    let ok: Result<u8, u8> = source.wake_after(Ok(1));
    assert_eq!(ok, Ok(1));
    assert_eq!(reactor.wake_calls(), 1);
    let err: Result<u8, u8> = source.wake_after(Err(2));
    assert_eq!(err, Err(2));
    assert_eq!(reactor.wake_calls(), 1);
    reactor.fail_wakes();
    let still_ok: Result<u8, u8> = source.wake_after(Ok(3));
    assert_eq!(still_ok, Ok(3));
    assert_eq!(reactor.wake_calls(), 2);
    assert_eq!(reactor.poll(), vec![Token(2)]);
}

#[test]
fn companion_wakes_the_registration_of_its_mate() {
    let reactor = Reactor::new();
    let mut source = IoSource::new(1u8);
    let mate = source.companion(2u8);
    assert!(source.register(&reactor, Token(6), Interest::Readable).is_ok());
    assert_eq!(mate.current_token(), None);
    let r: Result<u8, ()> = mate.do_io(|n| Ok(*n));
    assert_eq!(r, Ok(2));
    assert_eq!(reactor.poll(), vec![Token(6)]);
    assert!(source.deregister(&reactor).is_ok());
    let r: Result<u8, ()> = mate.do_io(|n| Ok(*n));
    assert_eq!(r, Ok(2));
    assert_eq!(reactor.poll(), vec![]);
}

#[test]
fn notification_for_an_item_that_is_gone_is_harmless() {
    let reactor = Reactor::new();
    let (tx, mut rx) = channel();
    assert!(rx.register(&reactor, Token(1), Interest::Readable).is_ok());
    assert_eq!(tx.send(1u8), Ok(()));
    assert_eq!(rx.try_recv(), Ok(1));
    assert_eq!(reactor.poll(), vec![Token(1)]);
    assert_eq!(rx.try_recv(), Err(TryRecvError::Empty));
    assert_eq!(reactor.poll(), vec![]);
}

#[test]
fn signal_after_wakes_only_after_success_and_with_a_waker() {
    let reactor = Reactor::new();
    assert!(signal_after(true, None).is_none());
    assert!(signal_after(false, None).is_none());
    assert!(signal_after(false, Some(reactor.waker(Token(4)))).is_none());
    assert_eq!(reactor.wake_calls(), 0);
    assert_eq!(reactor.poll(), vec![]);
    assert!(matches!(signal_after(true, Some(reactor.waker(Token(4)))), Some(Ok(()))));
    assert_eq!(reactor.wake_calls(), 1);
    assert_eq!(reactor.poll(), vec![Token(4)]);
}

#[test]
fn signal_after_reports_a_failed_wake() {
    let reactor = Reactor::new();
    reactor.fail_wakes();
    match signal_after(true, Some(reactor.waker(Token(4)))) {
        Some(Err(e)) => assert_eq!(e.kind(), io::ErrorKind::WouldBlock),
        other => panic!("expected the waker's error, got {:?}", other),
    }
    assert_eq!(reactor.wake_calls(), 1);
    assert_eq!(reactor.poll(), vec![]);
}

#[test]
fn registry_may_be_passed_as_a_trait_object() {
    let reactor = Reactor::new();
    let registry: &dyn Registry = &reactor;
    let (tx, mut rx) = channel();
    assert!(rx.register(registry, Token(3), Interest::Readable).is_ok());
    assert_eq!(tx.send(1u8), Ok(()));
    assert_eq!(reactor.poll(), vec![Token(3)]);
    assert!(rx.reregister(registry, Token(4), Interest::Readable).is_ok());
    assert!(rx.deregister(registry).is_ok());
    assert_eq!(rx.current_token(), None);
}
