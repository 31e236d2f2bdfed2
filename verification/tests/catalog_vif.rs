use mcast_core::vif::{
    address_for_family, filter_interfaces, InterfaceInfo, VifError, VifTable, FAMILY_INET,
    FLAG_LOOPBACK, FLAG_MULTICAST,
};

fn iface(name: &str, ifindex: i32, addr: Option<u32>, flags: i16) -> InterfaceInfo {
    InterfaceInfo { name: name.to_string(), ifindex, addr, netmask: None, flags }
}

#[test]
fn catalog_keeps_eth0_and_drops_loopback() {
    let list = vec![
        iface("eth0", 2, Some(0xc0a8_0101), FLAG_MULTICAST),
        iface("lo", 1, Some(0x7f00_0001), FLAG_LOOPBACK),
    ];
    let kept = filter_interfaces(list);
    assert_eq!(kept.len(), 1);
    assert_eq!(kept[0].name, "eth0");
    assert_eq!(kept[0].ifindex, 2);
}

#[test]
fn catalog_policy_over_synthetic_flag_combinations() {
    let combos = vec![
        (0i16, false),                               // neither flag
        (FLAG_MULTICAST, true),                      // multicast only
        (FLAG_LOOPBACK, false),                      // loopback only
        (FLAG_MULTICAST | FLAG_LOOPBACK, false),     // both
        (FLAG_MULTICAST | 0x1, true),                // multicast plus others
        (FLAG_MULTICAST | FLAG_LOOPBACK | 0x1, false),
    ];
    for (flags, kept_expected) in combos {
        let out = filter_interfaces(vec![iface("x", 1, None, flags)]);
        assert_eq!(out.len() == 1, kept_expected, "flags {flags:#x}");
        for it in &out {
            assert!(it.flags & FLAG_MULTICAST != 0);
            assert!(it.flags & FLAG_LOOPBACK == 0);
        }
    }
}

#[test]
fn catalog_preserves_order_of_kept_interfaces() {
    let list = vec![
        iface("a", 1, None, FLAG_MULTICAST),
        iface("b", 2, None, FLAG_LOOPBACK),
        iface("c", 3, None, FLAG_MULTICAST),
        iface("d", 4, None, 0),
        iface("e", 5, None, FLAG_MULTICAST),
    ];
    let kept = filter_interfaces(list);
    let names: Vec<&str> = kept.iter().map(|i| i.name.as_str()).collect();
    assert_eq!(names, vec!["a", "c", "e"]);
}

#[test]
fn vif_indices_are_assigned_densely_in_catalog_order() {
    let list = vec![
        iface("eth0", 2, Some(10), FLAG_MULTICAST),
        iface("eth1", 5, Some(20), FLAG_MULTICAST),
        iface("wlan0", 9, Some(30), FLAG_MULTICAST),
    ];
    let mut table = VifTable::new();
    assert!(table.register_vifs(&list).is_ok());
    assert_eq!(table.regs.len(), 3);
    for (k, reg) in table.regs.iter().enumerate() {
        assert_eq!(reg.vif_index as usize, k);
        assert_eq!(reg.interface_index, list[k].ifindex);
        assert_eq!(Some(reg.address), list[k].addr);
    }
}

#[test]
fn vif_assignment_is_deterministic_over_the_same_list() {
    let make_list = || {
        vec![
            iface("eth0", 2, Some(10), FLAG_MULTICAST),
            iface("eth1", 5, Some(20), FLAG_MULTICAST),
        ]
    };
    let mut first = VifTable::new();
    first.register_vifs(&make_list()).unwrap();
    let mut second = VifTable::new();
    second.register_vifs(&make_list()).unwrap();
    assert_eq!(first.regs, second.regs);
}

#[test]
fn duplicate_interface_is_refused_by_kernel_index() {
    let mut table = VifTable::new();
    table.add_vif(&iface("eth0", 2, Some(10), FLAG_MULTICAST)).unwrap();
    let r = table.add_vif(&iface("eth0:1", 2, Some(11), FLAG_MULTICAST));
    assert_eq!(r, Err(VifError::DuplicateInterface { ifindex: 2 }));
    assert_eq!(table.regs.len(), 1);
}

#[test]
fn capacity_is_bounded_and_registration_is_not_transactional() {
    let list: Vec<InterfaceInfo> =
        (0..33).map(|k| iface("if", k + 100, Some(k as u32), FLAG_MULTICAST)).collect();
    let mut table = VifTable::new();
    let r = table.register_vifs(&list);
    assert_eq!(r, Err(VifError::CapacityExceeded { ifindex: 132 }));
    // The 32 registrations made before the refusal stand.
    assert_eq!(table.regs.len(), 32);
    assert_eq!(table.regs[31].vif_index, 31);
}

#[test]
fn only_ipv4_tagged_addresses_count() {
    assert_eq!(address_for_family(FAMILY_INET, 0xc0a8_0101), Some(0xc0a8_0101));
    // AF_INET6 and anything else yield "no address", not an error.
    assert_eq!(address_for_family(10, 0xc0a8_0101), None);
    assert_eq!(address_for_family(0, 7), None);
}

#[test]
fn an_interface_without_an_address_is_refused() {
    let mut table = VifTable::new();
    let r = table.add_vif(&iface("eth0", 2, None, FLAG_MULTICAST));
    assert_eq!(r, Err(VifError::InterfaceNotAddressable { ifindex: 2 }));
    assert!(table.regs.is_empty());
    assert!(!table.contains_ifindex(2));
}
