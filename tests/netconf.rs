use netavark_proxy::lease::RawLease;
use netavark_proxy::netconf::{
    apply_dhcp_ip_route, gen_rt_conf, get_prefix_len, new_net_conf_with_ip_conf,
    purge_dhcp_ip_route, AddrConf, AddrState, RouteState, DEFAULT_METRIC,
};

fn raw_with_gateways(gateways: Option<Vec<[u8; 4]>>) -> RawLease {
    RawLease {
        siaddr: [10, 0, 0, 1],
        yiaddr: [10, 0, 0, 5],
        t1: 1800,
        t2: 3150,
        lease_time: 3600,
        srv_id: [10, 0, 0, 1],
        subnet_mask: [255, 255, 255, 0],
        broadcast_addr: None,
        dns_servers: None,
        gateways,
        ntp_servers: None,
        mtu: None,
        host_name: None,
        domain_name: None,
    }
}

#[test]
fn prefix_len_of_contiguous_masks() {
    assert_eq!(get_prefix_len([255, 255, 255, 0]), 24);
    assert_eq!(get_prefix_len([255, 255, 0, 0]), 16);
    assert_eq!(get_prefix_len([255, 255, 255, 255]), 32);
    assert_eq!(get_prefix_len([0, 0, 0, 0]), 0);
    assert_eq!(get_prefix_len([255, 255, 255, 252]), 30);
    assert_eq!(get_prefix_len([255, 128, 0, 0]), 9);
}

#[test]
fn prefix_len_of_non_contiguous_mask_counts_bits() {
    assert_eq!(get_prefix_len([255, 0, 255, 0]), 16);
    assert_eq!(get_prefix_len([1, 1, 1, 1]), 4);
}

#[test]
fn gateway_metrics_follow_declaration_order() {
    let gws = vec![[10, 0, 0, 1], [10, 0, 0, 2], [10, 0, 0, 3]];
    let conf = apply_dhcp_ip_route("eth0", &raw_with_gateways(Some(gws)));
    let routes = conf.routes.unwrap();
    let metrics: Vec<Option<u32>> = routes.iter().map(|r| r.metric).collect();
    assert_eq!(metrics, vec![Some(500), Some(501), Some(502)]);
    let vias: Vec<String> = routes.iter().map(|r| r.via.clone().unwrap()).collect();
    assert_eq!(vias, vec!["10.0.0.1", "10.0.0.2", "10.0.0.3"]);
    for r in &routes {
        assert_eq!(r.dst, "0.0.0.0/0");
        assert_eq!(r.oif.as_deref(), Some("eth0"));
        assert_eq!(r.table, Some(254));
        assert!(r.dhcp && !r.remove);
    }
    assert_eq!(DEFAULT_METRIC, 500);
}

#[test]
fn address_is_installed_with_lease_lifetimes() {
    let conf = apply_dhcp_ip_route("eth0", &raw_with_gateways(None));
    assert!(conf.routes.is_none());
    let ifaces = conf.ifaces.unwrap();
    assert_eq!(ifaces.len(), 1);
    assert_eq!(ifaces[0].name, "eth0");
    assert!(ifaces[0].up);
    let addrs = ifaces[0].ipv4.as_ref().unwrap();
    assert_eq!(
        addrs,
        &vec![AddrConf {
            remove: false,
            address: "10.0.0.5".to_string(),
            prefix_len: 24,
            valid_lft: "3600sec".to_string(),
            preferred_lft: "3600sec".to_string(),
        }]
    );
    let empty = apply_dhcp_ip_route("eth0", &raw_with_gateways(Some(vec![])));
    assert!(empty.routes.is_none());
}

#[test]
fn route_and_iface_builders() {
    let r = gen_rt_conf(true, "10.0.0.0/8", "eth1", "10.0.0.1", None);
    assert!(r.remove);
    assert_eq!(r.dst, "10.0.0.0/8");
    assert_eq!(r.via.as_deref(), Some("10.0.0.1"));
    assert_eq!(r.metric, None);
    let c = new_net_conf_with_ip_conf("eth1", vec![]);
    assert_eq!(c.ifaces.unwrap()[0].name, "eth1");
    assert!(c.routes.is_none());
}

fn addr(a: &str, lft: &str) -> AddrState {
    AddrState { address: a.to_string(), prefix_len: 24, valid_lft: lft.to_string() }
}

fn route(oif: &str, dhcp: bool, ipv4: bool, via: Option<&str>, gw: Option<&str>) -> RouteState {
    RouteState {
        oif: Some(oif.to_string()),
        dhcp,
        ipv4,
        dst: None,
        via: via.map(|s| s.to_string()),
        gateway: gw.map(|s| s.to_string()),
    }
}

#[test]
fn purge_removes_dynamic_addresses_and_dhcp_routes() {
    let addrs = vec![addr("10.0.0.5", "3500sec"), addr("192.168.1.2", "forever")];
    let routes = vec![
        route("eth0", true, true, None, Some("10.0.0.1")),
        route("eth0", false, true, None, Some("10.0.0.9")),
        route("eth1", true, true, None, Some("10.0.0.1")),
        route("eth0", true, false, Some("fe80::1"), None),
        route("eth0", true, true, Some("10.0.0.2"), Some("10.0.0.3")),
    ];
    let plan = purge_dhcp_ip_route("eth0", Some(addrs), routes);
    let a = plan.addresses.unwrap();
    let removals = a.ifaces.unwrap()[0].ipv4.clone().unwrap();
    assert_eq!(removals.len(), 1);
    assert_eq!(removals[0].address, "10.0.0.5");
    assert!(removals[0].remove);
    let rs = plan.routes.routes.unwrap();
    assert_eq!(rs.len(), 2);
    assert_eq!(rs[0].via.as_deref(), Some("10.0.0.1"));
    assert_eq!(rs[1].via.as_deref(), Some("10.0.0.2"));
    assert!(rs.iter().all(|r| r.remove && r.dst == "0.0.0.0/0" && r.metric.is_none()));
}

#[test]
fn purge_without_dynamic_addresses_touches_routes_only() {
    let plan = purge_dhcp_ip_route("eth0", Some(vec![addr("192.168.1.2", "forever")]), vec![]);
    assert!(plan.addresses.is_none());
    assert_eq!(plan.routes.routes, Some(vec![]));
    let plan = purge_dhcp_ip_route("eth0", None, vec![route("eth0", true, true, None, None)]);
    assert!(plan.addresses.is_none());
    assert_eq!(plan.routes.routes.unwrap()[0].via.as_deref(), Some("0.0.0.0"));
}
