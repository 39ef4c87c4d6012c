use netavark_proxy::cache::{LeaseCache, StorageError};
use netavark_proxy::lease::Lease;

fn lease_for(mac: &str, yiaddr: &str) -> Lease {
    let mut l = Lease::zeroed(mac);
    l.yiaddr = yiaddr.to_string();
    l.subnet_mask = "255.255.255.0".to_string();
    l.lease_time = 3600;
    l.gateways = vec!["10.0.0.1".to_string()];
    l
}

fn keys(cache: &LeaseCache) -> Vec<String> {
    let mut k: Vec<String> = cache.snapshot().iter().map(|e| e.0.clone()).collect();
    k.sort();
    k
}

#[test]
fn new() {
    let cache = LeaseCache::new("/tmp/nv-proxy-test/lease.json".to_string());
    assert_eq!(cache.path(), "/tmp/nv-proxy-test/lease.json");
    assert!(cache.snapshot().is_empty());
}

#[test]
fn update() {
    let mut cache = LeaseCache::new("lease.json".to_string());
    let mac = "00:00:5e:00:53:af";
    let pending = cache.add_lease(mac, &lease_for(mac, "10.0.0.5"));
    assert!(cache.commit(pending, Ok(())).is_ok());
    let pending = cache.update_lease(mac, lease_for(mac, "10.0.0.9"));
    assert_eq!(pending.snapshot().len(), 1);
    let stored = cache.commit(pending, Ok(())).unwrap();
    assert_eq!(stored.yiaddr, "10.0.0.9");
    let snap = cache.snapshot();
    assert_eq!(snap.len(), 1);
    assert_eq!(snap[0].0, mac);
    assert_eq!(snap[0].1.len(), 1);
    assert_eq!(snap[0].1[0].yiaddr, "10.0.0.9");
}

#[test]
fn remove() {
    let mut cache = LeaseCache::new("lease.json".to_string());
    let a = "00:00:5e:00:53:af";
    let b = "11:22:33:44:55:66";
    let p = cache.add_lease(a, &lease_for(a, "10.0.0.5"));
    cache.commit(p, Ok(())).unwrap();
    let p = cache.add_lease(b, &lease_for(b, "10.0.0.6"));
    cache.commit(p, Ok(())).unwrap();
    assert_eq!(keys(&cache), vec![a.to_string(), b.to_string()]);
    let p = cache.remove_lease(a);
    let removed = cache.commit(p, Ok(())).unwrap();
    assert_eq!(removed, lease_for(a, "10.0.0.5"));
    assert_eq!(keys(&cache), vec![b.to_string()]);
}

#[test]
fn teardown() {
    let mut cache = LeaseCache::new("lease.json".to_string());
    let a = "00:00:5e:00:53:af";
    let p = cache.add_lease(a, &lease_for(a, "10.0.0.5"));
    cache.commit(p, Ok(())).unwrap();
    assert_eq!(cache.snapshot().len(), 1);
    cache.teardown();
    assert!(cache.snapshot().is_empty());
    assert_eq!(cache.path(), "lease.json");
}

#[test]
fn remove_returns_the_lease_just_added() {
    let mut cache = LeaseCache::new("lease.json".to_string());
    let mac = "02:42:ac:11:00:02";
    let lease = lease_for(mac, "172.17.0.2");
    let p = cache.add_lease(mac, &lease);
    cache.commit(p, Ok(())).unwrap();
    let p = cache.remove_lease(mac);
    assert_eq!(cache.commit(p, Ok(())).unwrap(), lease);
    assert!(cache.snapshot().is_empty());
}

#[test]
fn remove_absent_gives_zero_lease() {
    let mut cache = LeaseCache::new("lease.json".to_string());
    let p = cache.remove_lease("11:22:33:44:55:66");
    assert!(p.snapshot().is_empty());
    let removed = cache.commit(p, Ok(())).unwrap();
    assert_eq!(removed, Lease::zeroed(""));
    assert_eq!(removed.mac_address, "");
    assert_eq!(removed.lease_time, 0);
}

#[test]
fn failed_write_leaves_cache_unchanged() {
    let mut cache = LeaseCache::new("lease.json".to_string());
    let a = "00:00:5e:00:53:af";
    let p = cache.add_lease(a, &lease_for(a, "10.0.0.5"));
    cache.commit(p, Ok(())).unwrap();
    let p = cache.add_lease(a, &lease_for(a, "10.0.0.7"));
    let r = cache.commit(p, Err("disk full".to_string()));
    assert_eq!(r, Err(StorageError { message: "disk full".to_string() }));
    assert_eq!(cache.snapshot()[0].1[0].yiaddr, "10.0.0.5");
    let p = cache.remove_lease(a);
    assert!(cache.commit(p, Err("read-only".to_string())).is_err());
    assert_eq!(cache.snapshot().len(), 1);
}

#[test]
fn add_is_idempotent() {
    let mut cache = LeaseCache::new("lease.json".to_string());
    let a = "00:00:5e:00:53:af";
    for _ in 0..2 {
        let p = cache.add_lease(a, &lease_for(a, "10.0.0.5"));
        cache.commit(p, Ok(())).unwrap();
    }
    assert_eq!(cache.snapshot().len(), 1);
    assert_eq!(cache.snapshot()[0].1, vec![lease_for(a, "10.0.0.5")]);
}

#[test]
fn snapshot_after_changes_holds_latest_leases() {
    let mut cache = LeaseCache::new("lease.json".to_string());
    let a = "00:00:5e:00:53:af";
    let b = "11:22:33:44:55:66";
    let c = "aa:bb:cc:dd:ee:ff";
    let p = cache.add_lease(a, &lease_for(a, "10.0.0.1"));
    cache.commit(p, Ok(())).unwrap();
    let p = cache.add_lease(b, &lease_for(b, "10.0.0.2"));
    cache.commit(p, Ok(())).unwrap();
    let p = cache.update_lease(a, lease_for(a, "10.0.0.3"));
    cache.commit(p, Ok(())).unwrap();
    let p = cache.add_lease(c, &lease_for(c, "10.0.0.4"));
    cache.commit(p, Ok(())).unwrap();
    let p = cache.remove_lease(b);
    cache.commit(p, Ok(())).unwrap();
    assert_eq!(keys(&cache), vec![a.to_string(), c.to_string()]);
    for (mac, leases) in cache.snapshot() {
        assert_eq!(leases.len(), 1);
        let expected = if mac == a { "10.0.0.3" } else { "10.0.0.4" };
        assert_eq!(leases[0].yiaddr, expected);
    }
}
