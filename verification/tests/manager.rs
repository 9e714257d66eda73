use vision::client::{Temperature, VisionClientConfig};
use vision::error::VisionError;
use vision::manager::{idle_session_ids, VisionSessionManager};

fn test_config(model: &str) -> VisionClientConfig {
    VisionClientConfig {
        model: model.to_string(),
        api_key: "k".to_string(),
        base_url: "https://api.openai.com/v1".to_string(),
        max_tokens: 4096,
        temperature: Temperature { bits: 0.7f32.to_bits() },
        timeout_secs: 120,
    }
}

#[test]
fn register_then_get() {
    let mut m: VisionSessionManager<u32> = VisionSessionManager::new();
    assert_eq!(m.session_count(), 0);
    assert_eq!(m.register_session("a".to_string(), 1), None);
    assert_eq!(m.register_session("b".to_string(), 2), None);
    assert_eq!(m.get_session("a"), Some(&1));
    assert_eq!(m.get_session("b"), Some(&2));
    assert_eq!(m.get_session("c"), None);
    assert!(m.contains_session("a"));
    assert!(!m.contains_session("c"));
    assert_eq!(m.session_count(), 2);
}

#[test]
fn register_same_id_replaces() {
    let mut m: VisionSessionManager<u32> = VisionSessionManager::new();
    m.register_session("a".to_string(), 1);
    assert_eq!(m.register_session("a".to_string(), 5), Some(1));
    assert_eq!(m.get_session("a"), Some(&5));
    assert_eq!(m.session_count(), 1);
}

#[test]
fn remove_reports_presence() {
    let mut m: VisionSessionManager<u32> = VisionSessionManager::default();
    m.register_session("a".to_string(), 1);
    m.register_session("b".to_string(), 2);
    assert!(m.remove_session("a"));
    assert!(!m.remove_session("a"));
    assert_eq!(m.get_session("a"), None);
    assert_eq!(m.get_session("b"), Some(&2));
    assert_eq!(m.session_count(), 1);
}

#[test]
fn ids_lists_each_session_once() {
    let mut m: VisionSessionManager<u32> = VisionSessionManager::new();
    m.register_session("x".to_string(), 1);
    m.register_session("y".to_string(), 2);
    m.register_session("x".to_string(), 3);
    let mut ids = m.session_ids();
    ids.sort();
    assert_eq!(ids, vec!["x".to_string(), "y".to_string()]);
}

#[test]
fn clear_closes_everything() {
    let mut m: VisionSessionManager<u32> = VisionSessionManager::new();
    m.register_session("x".to_string(), 1);
    m.clear_all_sessions();
    assert_eq!(m.session_count(), 0);
    assert_eq!(m.get_session("x"), None);
}

#[test]
fn cleanup_removes_only_idle_sessions() {
    let mut m: VisionSessionManager<u32> = VisionSessionManager::new();
    m.register_session("busy".to_string(), 1);
    m.register_session("idle".to_string(), 2);
    m.register_session("edge".to_string(), 3);
    let report = vec![
        ("busy".to_string(), 10u64),
        ("idle".to_string(), 301u64),
        ("edge".to_string(), 300u64),
    ];
    assert_eq!(m.cleanup_idle_sessions(&report, 300), 1);
    assert!(m.contains_session("busy"));
    assert!(!m.contains_session("idle"));
    assert!(m.contains_session("edge"));
    assert_eq!(m.session_count(), 2);
}

#[test]
fn idle_ids_in_report_order() {
    let report = vec![
        ("a".to_string(), 5u64),
        ("b".to_string(), 1u64),
        ("c".to_string(), 9u64),
    ];
    assert_eq!(idle_session_ids(&report, 4), vec!["a".to_string(), "c".to_string()]);
    assert!(idle_session_ids(&report, 9).is_empty());
}

#[test]
fn session_config_resolution() {
    let without: VisionSessionManager<u32> = VisionSessionManager::new();
    assert_eq!(without.session_config(None).unwrap_err(), VisionError::NoClientConfiguration);
    assert_eq!(without.session_config(Some(test_config("given"))).unwrap().model, "given");
    let with: VisionSessionManager<u32> = VisionSessionManager::with_config(test_config("default"));
    assert_eq!(with.session_config(None).unwrap().model, "default");
    assert_eq!(with.session_config(Some(test_config("given"))).unwrap().model, "given");
}

#[test]
fn no_configuration_message() {
    assert_eq!(
        VisionError::NoClientConfiguration.message(),
        "No vision client configuration provided"
    );
}
