//! Tests of the server boundary's decisions and of the live store.

use orc_agent::collect_data;
use orc_agent::init;
use orc_agent::server::api_key_matches;
use orc_agent::server::metrics_reply;
use orc_agent::server::ping;
use orc_agent::server::MetricsReply;
use orc_agent::store::MetricsStore;
use orc_agent::State;

#[test]
fn ping_is_pong() {
    assert_eq!(ping(), "Pong!");
}

#[test]
fn auth_gate_with_key() {
    let psk = Some("secret".to_string());
    assert!(api_key_matches(&psk, Some(b"secret".as_slice())));
    assert!(!api_key_matches(&psk, Some(b"wrong".as_slice())));
    assert!(!api_key_matches(&psk, Some(b"".as_slice())));
    assert!(!api_key_matches(&psk, None));
}

#[test]
fn auth_gate_without_key() {
    let psk: Option<String> = None;
    assert!(api_key_matches(&psk, Some(b"anything".as_slice())));
    assert!(api_key_matches(&psk, None));
}

#[test]
fn refused_reply_is_default_snapshot() {
    let store = MetricsStore::new(init());
    let psk = Some("secret".to_string());
    match metrics_reply(&store, &psk, None) {
        MetricsReply::Refused(s) => {
            assert_eq!(s.timestamp, 0);
            assert_eq!(s.system_name, "");
            assert!(s.network.is_empty());
            assert!(s.volumes.is_empty());
        }
        MetricsReply::Granted(_) => panic!("missing key must be refused"),
    }
    match metrics_reply(&store, &psk, Some(b"wrong".as_slice())) {
        MetricsReply::Refused(_) => {}
        MetricsReply::Granted(_) => panic!("wrong key must be refused"),
    }
}

#[test]
fn granted_reply_is_live_snapshot() {
    let store = MetricsStore::new(init());
    let psk = Some("secret".to_string());
    match metrics_reply(&store, &psk, Some(b"secret".as_slice())) {
        MetricsReply::Granted(s) => {
            for (_, v) in s.volumes.iter() {
                assert!(v.used <= v.total);
                if v.available <= v.total {
                    assert_eq!(v.used, v.total - v.available);
                } else {
                    assert_eq!(v.used, 0);
                }
            }
        }
        MetricsReply::Refused(_) => panic!("matching key must be granted"),
    }
    match metrics_reply(&store, &None, None) {
        MetricsReply::Granted(_) => {}
        MetricsReply::Refused(_) => panic!("no configured key grants every request"),
    }
}

#[test]
fn collect_data_produces_sorted_maps() {
    let store = MetricsStore::new(State::new());
    let s = collect_data(&store);
    for w in s.network.windows(2) {
        assert!(w[0].0.as_bytes() < w[1].0.as_bytes());
    }
    for w in s.volumes.windows(2) {
        assert!(w[0].0.as_bytes() < w[1].0.as_bytes());
    }
    // A second call refreshes again and yields a fresh, well-formed snapshot.
    let t = store.refresh_and_snapshot();
    assert!(t.timestamp >= s.timestamp);
}

#[test]
fn system_facts_match_provider_readings() {
    let hm = init();
    let f = hm.system_facts();
    assert_eq!(f.total_memory, hm.system().total_memory());
    assert_eq!(f.used_memory, hm.system().used_memory());
    assert_eq!(f.total_swap, hm.system().total_swap());
    assert_eq!(f.used_swap, hm.system().used_swap());
    assert_eq!(f.num_cpus, hm.system().cpus().len());
    assert_eq!(
        f.cpu_usage_bits,
        hm.system().global_cpu_info().cpu_usage().to_bits()
    );
}
