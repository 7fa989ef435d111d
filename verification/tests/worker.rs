use totaldim::channel::ActionChannel;
use totaldim::channel::ActionSignal;
use totaldim::codec::decode;
use totaldim::communicator::Communicator;
use totaldim::communicator::ToggleState;
use totaldim::endpoint::default_destination;
use totaldim::endpoint::local_bind_address;
use totaldim::endpoint::Endpoint;
use totaldim::endpoint::IpAddress;

fn worker() -> Communicator {
    Communicator::new(default_destination(), None)
}

fn filled_channel(n: usize) -> ActionChannel {
    let mut c = ActionChannel::new();
    for _ in 0..n {
        c.send(ActionSignal);
    }
    c
}

#[test]
fn toggle_is_self_inverse() {
    let mut t = ToggleState { on: true };
    t.flip();
    assert!(!t.on);
    t.flip();
    assert!(t.on);
}

#[test]
fn new_worker_starts_set_with_fixed_destination() {
    let c = worker();
    assert_eq!(c.destination, Endpoint { addr: IpAddress::V4(127, 0, 0, 1), port: 7001 });
    assert_eq!(c.local, Endpoint { addr: IpAddress::V4(0, 0, 0, 0), port: 0 });
    assert!(c.state.on);
}

#[test]
fn explicit_local_address_is_kept() {
    let local = Endpoint { addr: IpAddress::V4(127, 0, 0, 1), port: 9000 };
    let c = Communicator::new(default_destination(), Some(local));
    assert_eq!(c.local, local);
}

#[test]
fn v6_destination_gets_v6_wildcard() {
    let dest = Endpoint { addr: IpAddress::V6(0, 0, 0, 0, 0, 0, 0, 1), port: 7001 };
    let picked = local_bind_address(&dest, None);
    assert_eq!(picked, Endpoint { addr: IpAddress::V6(0, 0, 0, 0, 0, 0, 0, 0), port: 0 });
}

#[test]
fn trigger_flips_then_encodes_constant_payload() {
    let mut c = worker();
    let first = c.trigger();
    assert!(!c.state.on);
    let second = c.trigger();
    assert!(c.state.on);
    // both states transmit the same argument, float 1.0
    assert_eq!(first, second);
    let decoded = decode(&first).unwrap();
    assert_eq!(f32::from_bits(decoded.arg_bits), 1.0);
}

#[test]
fn channel_is_fifo_and_lossless() {
    let mut c = ActionChannel::new();
    assert_eq!(c.len(), 0);
    assert_eq!(c.recv(), None);
    c.send(ActionSignal);
    c.send(ActionSignal);
    assert_eq!(c.len(), 2);
    assert_eq!(c.recv(), Some(ActionSignal));
    assert_eq!(c.recv(), Some(ActionSignal));
    assert_eq!(c.recv(), None);
    assert_eq!(c.len(), 0);
}

#[test]
fn burst_of_three_triggers_sends_three_datagrams() {
    let mut c = worker();
    let mut channel = filled_channel(3);
    let sent = c.work(&mut channel, &vec![true, true, true]);
    assert_eq!(channel.len(), 0);
    assert_eq!(sent.len(), 3);
    for datagram in sent {
        let datagram = datagram.expect("every transmit succeeded");
        let decoded = decode(&datagram).expect("datagram decodes");
        assert_eq!(f32::from_bits(decoded.arg_bits), 1.0);
    }
    // three flips from a set toggle leave it cleared
    assert!(!c.state.on);
}

#[test]
fn transmit_failure_is_isolated_to_its_trigger() {
    let mut c = worker();
    let mut channel = filled_channel(3);
    let sent = c.work(&mut channel, &vec![true, false, true]);
    assert_eq!(sent.len(), 3);
    assert!(sent[0].is_some());
    assert!(sent[1].is_none());
    assert!(sent[2].is_some());
    for datagram in [&sent[0], &sent[2]] {
        let decoded = decode(datagram.as_ref().unwrap()).expect("datagram decodes");
        assert_eq!(f32::from_bits(decoded.arg_bits), 1.0);
    }
    // the failed transmit still consumed its signal and flipped the state
    assert!(!c.state.on);
}

#[test]
fn each_signal_produces_exactly_one_transmit_attempt() {
    let mut c = worker();
    for n in [0usize, 1, 2, 5] {
        let mut channel = filled_channel(n);
        let sent = c.work(&mut channel, &vec![true; n]);
        assert_eq!(sent.len(), n);
        assert_eq!(channel.len(), 0);
    }
}
