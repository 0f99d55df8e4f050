use neon_proxy_core::pool::{pooled_or_connect, ComputeUserInfo, ConnInfo, ConnPool, IdleConn, PoolLookup};

fn key(user: &str, db: &str) -> ConnInfo {
    ConnInfo {
        user_info: ComputeUserInfo {
            endpoint: "ep-1".to_string(),
            user: user.to_string(),
            options: String::new(),
        },
        dbname: db.to_string(),
    }
}

#[test]
fn second_request_reuses_the_pooled_connection() {
    let mut pool: ConnPool<&'static str> = ConnPool::new();
    let conn_id = match pooled_or_connect(&mut pool, &key("u", "d"), false) {
        PoolLookup::Connect(id) => id,
        PoolLookup::Reused(_) => panic!("pool was empty"),
    };
    pool.put(IdleConn { key: key("u", "d"), conn_id, conn: "backend-1" });
    match pooled_or_connect(&mut pool, &key("u", "d"), false) {
        PoolLookup::Reused(e) => {
            assert_eq!(e.conn, "backend-1");
            assert_eq!(e.conn_id, conn_id);
        }
        PoolLookup::Connect(_) => panic!("expected a pool hit"),
    }
    assert!(matches!(pooled_or_connect(&mut pool, &key("u", "d"), false), PoolLookup::Connect(_)));
}

#[test]
fn other_keys_and_forced_connects_miss() {
    let mut pool: ConnPool<u8> = ConnPool::new();
    pool.put(IdleConn { key: key("u", "d"), conn_id: 7, conn: 1 });
    assert!(matches!(pooled_or_connect(&mut pool, &key("u", "other"), false), PoolLookup::Connect(_)));
    assert!(matches!(pooled_or_connect(&mut pool, &key("v", "d"), false), PoolLookup::Connect(_)));
    assert!(matches!(pooled_or_connect(&mut pool, &key("u", "d"), true), PoolLookup::Connect(_)));
    assert!(pool.get(&key("u", "d")).is_some());
}

#[test]
fn fresh_connection_ids_differ() {
    let mut pool: ConnPool<u8> = ConnPool::new();
    let a = match pooled_or_connect(&mut pool, &key("u", "d"), true) {
        PoolLookup::Connect(id) => id,
        PoolLookup::Reused(_) => panic!(),
    };
    let b = match pooled_or_connect(&mut pool, &key("u", "d"), true) {
        PoolLookup::Connect(id) => id,
        PoolLookup::Reused(_) => panic!(),
    };
    assert_ne!(a, b);
}

#[test]
fn terminated_driver_is_never_handed_out() {
    let mut pool: ConnPool<u8> = ConnPool::new();
    pool.put(IdleConn { key: key("u", "d"), conn_id: 1, conn: 10 });
    pool.put(IdleConn { key: key("u", "d"), conn_id: 2, conn: 20 });
    pool.driver_terminated(1);
    let e = pool.get(&key("u", "d")).expect("conn 2 is idle");
    assert_eq!(e.conn_id, 2);
    assert!(pool.get(&key("u", "d")).is_none());
}
