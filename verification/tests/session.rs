use shutdown_channel::session::Producer;
use shutdown_channel::session::ProducerAction;
use shutdown_channel::session::Session;

fn expect_send(action: ProducerAction) -> String {
    match action {
        ProducerAction::Send(m) => m,
        ProducerAction::Exit => panic!("expected a send, got an exit"),
    }
}

#[test]
fn producer_sends_numbered_messages_in_order() {
    let mut p = Producer::new();
    assert_eq!(expect_send(p.step(false)), "hello,index:0");
    assert_eq!(expect_send(p.step(false)), "hello,index:1");
    assert_eq!(expect_send(p.step(false)), "hello,index:2");
}

#[test]
fn producer_exits_on_shutdown_signal() {
    let mut p = Producer::new();
    let _ = expect_send(p.step(false));
    let action = p.step(true);
    assert!(matches!(action, ProducerAction::Exit));
    assert!(p.stopped);
    // the signal came before a second send, so the index stays at one
    assert_eq!(p.next_index, 1);
}

#[test]
fn scenario_fixed_run_then_shutdown() {
    // the producer sends five messages, then the shutdown signal arrives;
    // the consumer must see exactly those five, in order, and then stop
    let mut s = Session::new(100);
    for _ in 0..5 {
        s.producer_tick(false);
    }
    s.producer_tick(true);
    let msgs = s.drain();
    assert_eq!(
        msgs,
        vec![
            "hello,index:0",
            "hello,index:1",
            "hello,index:2",
            "hello,index:3",
            "hello,index:4",
        ]
    );
    // the loop has ended: every further receive says so
    assert_eq!(s.consumer_tick(), None);
}

#[test]
fn consumer_gets_messages_in_send_order_while_interleaved() {
    let mut s = Session::new(2);
    s.producer_tick(false);
    s.producer_tick(false);
    assert_eq!(s.consumer_tick(), Some(String::from("hello,index:0")));
    s.producer_tick(false);
    assert_eq!(s.consumer_tick(), Some(String::from("hello,index:1")));
    assert_eq!(s.consumer_tick(), Some(String::from("hello,index:2")));
    s.producer_tick(true);
    assert_eq!(s.consumer_tick(), None);
}

#[test]
fn immediate_shutdown_sends_nothing() {
    let mut s = Session::new(4);
    s.producer_tick(true);
    assert!(!s.sender_open);
    let msgs = s.drain();
    assert!(msgs.is_empty());
    assert_eq!(s.consumer_tick(), None);
}

#[test]
fn ticks_after_shutdown_send_nothing() {
    let mut s = Session::new(4);
    s.producer_tick(false);
    s.producer_tick(true);
    // further observations by a stopped producer change nothing
    s.producer_tick(false);
    s.producer_tick(true);
    assert_eq!(s.producer.next_index, 1);
    let msgs = s.drain();
    assert_eq!(msgs, vec!["hello,index:0"]);
}

#[test]
fn queue_at_capacity_one_still_preserves_order() {
    let mut s = Session::new(1);
    let mut got: Vec<String> = Vec::new();
    for _ in 0..3 {
        s.producer_tick(false);
        if let Some(m) = s.consumer_tick() {
            got.push(m);
        }
    }
    s.producer_tick(true);
    for m in s.drain() {
        got.push(m);
    }
    assert_eq!(got, vec!["hello,index:0", "hello,index:1", "hello,index:2"]);
}
