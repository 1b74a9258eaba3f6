//! Tests of the peer-protocol substrate: the message bus, the job
//! manager, the host store and the address-exchange protocol.

use darkfid_core::addr::{filter_localnet, Addr};
use darkfid_core::channel::{Channel, SessionType};
use darkfid_core::error::Error;
use darkfid_core::hosts::Hosts;
use darkfid_core::jobs::ProtocolJobsManager;
use darkfid_core::message::{AddrsMessage, GetAddrsMessage, Message, MsgType};
use darkfid_core::protocol_address::{ProtocolAddress, Settings, SEND_ADDR_SLEEP_SECONDS};

fn addr(host: &str, port: u16) -> Addr {
    Addr::new(host.to_string(), port)
}

fn addrs_msg(list: Vec<Addr>) -> Message {
    Message::Addrs(AddrsMessage { addrs: list })
}

fn ready_channel(session: SessionType) -> Channel {
    let mut ch = Channel::new(session);
    ch.register(MsgType::Addrs);
    ch.register(MsgType::GetAddrs);
    ch
}

fn settings(localnet: bool, external: Vec<Addr>) -> Settings {
    Settings { localnet, external_addr: external }
}

#[test]
fn fan_out_delivers_to_every_live_subscription_in_order() {
    let mut ch = ready_channel(SessionType::Inbound);
    let s1 = ch.subscribe(MsgType::Addrs).unwrap();
    let s2 = ch.subscribe(MsgType::Addrs).unwrap();
    let s3 = ch.subscribe(MsgType::Addrs).unwrap();
    let other = ch.subscribe(MsgType::GetAddrs).unwrap();

    let m1 = addrs_msg(vec![addr("one.example", 1)]);
    let m2 = addrs_msg(vec![addr("two.example", 2)]);
    ch.dispatch(&m1).unwrap();
    ch.dispatch(&m2).unwrap();

    for sub in [&s1, &s2, &s3] {
        let first = ch.receive(sub).unwrap().unwrap();
        match first {
            Message::Addrs(m) => {
                assert_eq!(m.addrs.len(), 1);
                assert_eq!(m.addrs[0], addr("one.example", 1));
            }
            _ => panic!("wrong message type"),
        }
        let second = ch.receive(sub).unwrap().unwrap();
        match second {
            Message::Addrs(m) => assert_eq!(m.addrs[0], addr("two.example", 2)),
            _ => panic!("wrong message type"),
        }
        // Exactly once each: the queue is now empty.
        assert!(ch.receive(sub).unwrap().is_none());
    }
    // The other-typed subscription saw nothing.
    assert!(ch.receive(&other).unwrap().is_none());
}

#[test]
fn dispatch_of_unregistered_tag_is_rejected() {
    let mut ch = Channel::new(SessionType::Inbound);
    ch.register(MsgType::Addrs);
    let sub = ch.subscribe(MsgType::Addrs).unwrap();
    let r = ch.dispatch(&Message::GetAddrs(GetAddrsMessage {}));
    assert!(matches!(r, Err(Error::MalformedPacket)));
    assert!(ch.receive(&sub).unwrap().is_none());
}

#[test]
fn unsubscribed_slot_no_longer_receives() {
    let mut ch = ready_channel(SessionType::Inbound);
    let s1 = ch.subscribe(MsgType::Addrs).unwrap();
    let s2 = ch.subscribe(MsgType::Addrs).unwrap();
    ch.unsubscribe(s1);
    ch.dispatch(&addrs_msg(vec![addr("h", 9)])).unwrap();
    assert!(ch.receive(&s2).unwrap().is_some());
}

#[test]
fn receive_on_closed_empty_channel_fails() {
    let mut ch = ready_channel(SessionType::Inbound);
    let sub = ch.subscribe(MsgType::Addrs).unwrap();
    ch.dispatch(&addrs_msg(vec![addr("h", 9)])).unwrap();
    ch.close();
    // A queued message is still drained…
    assert!(ch.receive(&sub).unwrap().is_some());
    // …then the closed connection shows.
    assert!(matches!(ch.receive(&sub), Err(Error::ChannelClosed)));
    // And nothing can be sent any more.
    assert!(matches!(
        ch.send(Message::GetAddrs(GetAddrsMessage {})),
        Err(Error::ChannelClosed)
    ));
}

#[test]
fn init_fails_without_dispatcher() {
    let mut ch = Channel::new(SessionType::Inbound);
    let r = ProtocolAddress::init(&mut ch, settings(false, vec![]));
    assert!(matches!(r, Err(Error::DispatcherMissing)));
}

#[test]
fn filter_removes_exactly_localnet_and_empty_hosts() {
    let list = vec![
        addr("localhost", 1),
        addr("one.example", 1),
        addr("0.0.0.0", 2),
        addr("[::]", 3),
        addr("127.0.0.1", 4),
        addr("[::1]", 5),
        addr("", 6),
        addr("two.example", 2),
    ];
    let kept = filter_localnet(&list);
    assert_eq!(kept.len(), 2);
    assert_eq!(kept[0], addr("one.example", 1));
    assert_eq!(kept[1], addr("two.example", 2));
}

#[test]
fn incoming_addrs_are_filtered_and_stored() {
    // Local-network mode off; the list carries an empty host, a loopback
    // and one reachable address: exactly the reachable one is stored.
    let mut ch = ready_channel(SessionType::Inbound);
    let mut hosts = Hosts::new();
    let mut proto = ProtocolAddress::init(&mut ch, settings(false, vec![])).unwrap();
    proto.start(&mut ch).unwrap();

    let incoming = vec![addr("", 0), addr("127.0.0.1", 0), addr("203.0.113.5", 8000)];
    ch.dispatch(&addrs_msg(incoming)).unwrap();
    let stepped = proto.handle_receive_addrs(&mut ch, &mut hosts).unwrap();
    assert!(stepped);

    let stored = hosts.load_all();
    assert_eq!(stored.len(), 1);
    assert_eq!(stored[0], addr("203.0.113.5", 8000));
}

#[test]
fn localnet_mode_stores_the_list_unfiltered() {
    let mut ch = ready_channel(SessionType::Inbound);
    let mut hosts = Hosts::new();
    let mut proto = ProtocolAddress::init(&mut ch, settings(true, vec![])).unwrap();
    proto.start(&mut ch).unwrap();

    let incoming = vec![addr("localhost", 1), addr("203.0.113.5", 8000)];
    ch.dispatch(&addrs_msg(incoming)).unwrap();
    assert!(proto.handle_receive_addrs(&mut ch, &mut hosts).unwrap());

    let stored = hosts.load_all();
    assert_eq!(stored.len(), 2);
    assert_eq!(stored[0], addr("localhost", 1));
    assert_eq!(stored[1], addr("203.0.113.5", 8000));
}

#[test]
fn host_store_deduplicates_and_keeps_order() {
    let mut hosts = Hosts::new();
    hosts.store(vec![addr("a", 1), addr("b", 2)]);
    hosts.store(vec![addr("b", 2), addr("c", 3), addr("a", 1)]);
    let all = hosts.load_all();
    assert_eq!(all.len(), 3);
    assert_eq!(all[0], addr("a", 1));
    assert_eq!(all[1], addr("b", 2));
    assert_eq!(all[2], addr("c", 3));
    assert!(hosts.contains(&addr("c", 3)));
    assert!(!hosts.contains(&addr("c", 4)));
    assert_eq!(hosts.len(), 3);
}

#[test]
fn get_addrs_request_is_answered_with_the_whole_store() {
    let mut ch = ready_channel(SessionType::Inbound);
    let mut hosts = Hosts::new();
    hosts.store(vec![addr("a", 1), addr("b", 2)]);
    let mut proto = ProtocolAddress::init(&mut ch, settings(false, vec![])).unwrap();
    proto.start(&mut ch).unwrap();
    let sent_before = ch.outbound.len();

    ch.dispatch(&Message::GetAddrs(GetAddrsMessage {})).unwrap();
    assert!(proto.handle_receive_get_addrs(&mut ch, &hosts).unwrap());

    assert_eq!(ch.outbound.len(), sent_before + 1);
    match &ch.outbound[sent_before] {
        Message::Addrs(m) => {
            assert_eq!(m.addrs.len(), 2);
            assert_eq!(m.addrs[0], addr("a", 1));
            assert_eq!(m.addrs[1], addr("b", 2));
        }
        _ => panic!("expected an Addrs reply"),
    }
}

#[test]
fn start_sends_one_get_addrs_request() {
    let mut ch = ready_channel(SessionType::Inbound);
    let mut proto = ProtocolAddress::init(&mut ch, settings(false, vec![])).unwrap();
    proto.start(&mut ch).unwrap();
    assert_eq!(ch.outbound.len(), 1);
    assert!(matches!(ch.outbound[0], Message::GetAddrs(_)));
    assert_eq!(proto.name(), "ProtocolAddress");
}

#[test]
fn announcement_runs_only_for_reachable_outbound_sessions() {
    // Outbound with an external address: the announce job exists and a
    // step sends our address.
    let mut ch = ready_channel(SessionType::Outbound);
    let mut proto =
        ProtocolAddress::init(&mut ch, settings(false, vec![addr("198.51.100.7", 7000)])).unwrap();
    proto.start(&mut ch).unwrap();
    assert!(proto.announce_task.is_some());
    let sent_before = ch.outbound.len();
    assert!(proto.send_my_addrs(&mut ch).unwrap());
    match &ch.outbound[sent_before] {
        Message::Addrs(m) => assert_eq!(m.addrs[0], addr("198.51.100.7", 7000)),
        _ => panic!("expected our own address"),
    }

    // Inbound session: no announce job, and a step does nothing.
    let mut ch2 = ready_channel(SessionType::Inbound);
    let mut proto2 =
        ProtocolAddress::init(&mut ch2, settings(false, vec![addr("198.51.100.7", 7000)]))
            .unwrap();
    proto2.start(&mut ch2).unwrap();
    assert!(proto2.announce_task.is_none());
    let sent_before2 = ch2.outbound.len();
    assert!(!proto2.send_my_addrs(&mut ch2).unwrap());
    assert_eq!(ch2.outbound.len(), sent_before2);

    // Outbound without an external address: no announce job either.
    let mut ch3 = ready_channel(SessionType::Outbound);
    let mut proto3 = ProtocolAddress::init(&mut ch3, settings(false, vec![])).unwrap();
    proto3.start(&mut ch3).unwrap();
    assert!(proto3.announce_task.is_none());

    assert_eq!(SEND_ADDR_SLEEP_SECONDS, 900);
}

#[test]
fn stopped_manager_cancels_every_task_and_steps_do_nothing() {
    let mut ch = ready_channel(SessionType::Inbound);
    let mut hosts = Hosts::new();
    let mut proto = ProtocolAddress::init(&mut ch, settings(false, vec![])).unwrap();
    proto.start(&mut ch).unwrap();

    // A message is queued, then the connection is torn down.
    ch.dispatch(&addrs_msg(vec![addr("203.0.113.5", 8000)])).unwrap();
    proto.jobsman.stop();
    assert_eq!(proto.jobsman.n_tasks(), 2);
    for id in 0..proto.jobsman.n_tasks() {
        assert!(!proto.jobsman.is_running(id));
    }

    // No step of any loop delivers side effects any more.
    assert!(!proto.handle_receive_addrs(&mut ch, &mut hosts).unwrap());
    assert_eq!(hosts.len(), 0);
    let sent_before = ch.outbound.len();
    assert!(!proto.handle_receive_get_addrs(&mut ch, &hosts).unwrap());
    assert!(!proto.send_my_addrs(&mut ch).unwrap());
    assert_eq!(ch.outbound.len(), sent_before);
}

#[test]
fn finished_task_leaves_siblings_running() {
    let mut man = ProtocolJobsManager::new("test");
    man.start();
    let a = man.spawn();
    let b = man.spawn();
    man.task_finished(a);
    assert!(!man.is_running(a));
    assert!(man.is_running(b));
    man.stop();
    assert!(!man.is_running(b));
}

#[test]
fn a_failing_loop_is_recorded_finished_and_does_not_crash_siblings() {
    let mut ch = ready_channel(SessionType::Inbound);
    let mut hosts = Hosts::new();
    let mut proto = ProtocolAddress::init(&mut ch, settings(false, vec![])).unwrap();
    proto.start(&mut ch).unwrap();

    // The connection closes: the receive-addrs loop's next step fails…
    ch.close();
    let r = proto.handle_receive_addrs(&mut ch, &mut hosts);
    assert!(matches!(r, Err(Error::ChannelClosed)));
    // …the manager records that task as finished…
    let t = proto.recv_addrs_task.unwrap();
    proto.jobsman.task_finished(t);
    assert!(!proto.jobsman.is_running(t));
    // …and its sibling still runs.
    assert!(proto.jobsman.is_running(proto.recv_get_addrs_task.unwrap()));
}
