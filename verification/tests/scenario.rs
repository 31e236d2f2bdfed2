use mcast_core::dispatcher::{DispatchOutcome, Dispatcher, ReceivedPacket};
use mcast_core::pipeline::{classify_recv, RecvOutcome, RecvStep};
use mcast_core::vif::{filter_interfaces, InterfaceInfo, VifTable, FLAG_LOOPBACK, FLAG_MULTICAST};

fn hosts() -> Vec<InterfaceInfo> {
    vec![
        InterfaceInfo {
            name: "eth0".to_string(),
            ifindex: 2,
            addr: Some(0xc0a8_0101),
            netmask: Some(0xffff_ff00),
            flags: FLAG_MULTICAST,
        },
        InterfaceInfo {
            name: "lo".to_string(),
            ifindex: 1,
            addr: Some(0x7f00_0001),
            netmask: Some(0xff00_0000),
            flags: FLAG_LOOPBACK | 0x1,
        },
    ]
}

#[test]
fn startup_to_delivery_end_to_end() {
    // Catalog: of eth0 and lo, only eth0 survives the policy.
    let kept = filter_interfaces(hosts());
    assert_eq!(kept.len(), 1);
    assert_eq!(kept[0].name, "eth0");

    // Registration: eth0 becomes VIF 0.
    let mut table = VifTable::new();
    table.register_vifs(&kept).unwrap();
    assert_eq!(table.regs.len(), 1);
    assert_eq!(table.regs[0].vif_index, 0);
    assert_eq!(table.regs[0].interface_index, 2);

    // Receive three packets tagged with eth0's kernel index, with a
    // would-block race in between; each goes through the receive
    // decision, then through dispatch.
    let mut dispatcher = Dispatcher::new();
    dispatcher.add_sink(table.regs[0].interface_index);

    let outcomes = vec![
        RecvOutcome::Data { data: vec![1], ifindex: Some(2) },
        RecvOutcome::WouldBlock,
        RecvOutcome::Data { data: vec![2], ifindex: Some(2) },
        RecvOutcome::Data { data: vec![3], ifindex: Some(2) },
    ];
    for outcome in outcomes {
        match classify_recv(outcome) {
            RecvStep::Deliver { pkt } => {
                assert_eq!(
                    dispatcher.dispatch(pkt),
                    DispatchOutcome::Delivered { ifindex: 2 }
                );
            }
            RecvStep::Rewait => {}
            RecvStep::Fail { code } => panic!("unexpected fatal error {code}"),
        }
    }

    // Exactly those three packets, in order, on eth0's sink.
    let delivered = dispatcher.take_queued(2).unwrap();
    let tags: Vec<u8> = delivered.iter().map(|p| p.data[0]).collect();
    assert_eq!(tags, vec![1, 2, 3]);
    assert_eq!(dispatcher.discarded_so_far(), 0);

    // Removing eth0's sink turns further deliveries into counted
    // discards.
    dispatcher.remove_sink(2);
    let pkt = ReceivedPacket { ifindex: Some(2), data: vec![4] };
    assert_eq!(dispatcher.dispatch(pkt), DispatchOutcome::Discarded);
    assert_eq!(dispatcher.discarded_so_far(), 1);
}
