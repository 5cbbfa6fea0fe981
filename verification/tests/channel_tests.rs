use syncprims::channel::channel;
use syncprims::channel::Channel;

#[test]
fn ready_made_pair_round_trip() {
    let (mut ch, sender, receiver) = channel();
    assert!(!ch.is_ready());
    sender.send(&mut ch, 9i64);
    assert_eq!(receiver.receive(&mut ch), 9);
}

#[test]
fn split_send_receive_round_trip() {
    let mut channel = Channel::new();
    let (sender, receiver) = channel.split();
    assert!(!receiver.is_ready(&channel));
    sender.send(&mut channel, "hello world!!");
    assert!(receiver.is_ready(&channel));
    assert_eq!(receiver.receive(&mut channel), "hello world!!");
    assert!(!channel.is_ready());
}

#[test]
fn split_again_after_a_finished_round() {
    let mut channel = Channel::new();
    let (s1, r1) = channel.split();
    s1.send(&mut channel, 1u32);
    assert_eq!(r1.receive(&mut channel), 1);

    // With the first pair consumed, the channel can be split again.
    let (s2, r2) = channel.split();
    s2.send(&mut channel, 2u32);
    assert_eq!(r2.receive(&mut channel), 2);
}

#[test]
fn split_resets_a_stale_message() {
    let mut channel = Channel::new();
    let (s1, _r1) = channel.split();
    s1.send(&mut channel, 5u8);
    // The receiver never came: splitting again drops the stale message
    // and starts an empty round.
    let (_s2, r2) = channel.split();
    assert!(!r2.is_ready(&channel));
}

#[test]
fn direct_send_and_receive() {
    let mut channel = Channel::new();
    assert!(!channel.is_ready());
    channel.send(7u64);
    assert!(channel.is_ready());
    assert_eq!(channel.receive(), 7);
    assert!(!channel.is_ready());
}

#[test]
fn teardown_hands_out_an_unconsumed_message_once() {
    let mut channel = Channel::new();
    channel.send(String::from("kept"));
    // Destroyed while holding a message: the message comes out exactly
    // once, decided solely by the readiness flag.
    assert_eq!(channel.into_message().as_deref(), Some("kept"));

    // Never sent to: nothing to hand out, nothing double-freed.
    let empty: Channel<String> = Channel::new();
    assert!(empty.into_message().is_none());

    // Sent and consumed: the flag is off again, so nothing comes out.
    let mut used = Channel::new();
    used.send(3u8);
    assert_eq!(used.receive(), 3);
    assert!(used.into_message().is_none());
}

#[test]
fn publish_then_observe() {
    // The release/acquire handoff in miniature: a value is written, then
    // published by the readiness flag; the observer spins on the flag and,
    // once it sees it set, must read the value — never the initial zero.
    let mut channel = Channel::new();
    channel.send(123u64);
    while !channel.is_ready() {}
    let data = channel.receive();
    assert_eq!(data, 123);
    assert_ne!(data, 0);
}
