//! Tests for the runtime environment record.

use ferriclink_core::env::RuntimeEnvironment;

fn sample_environment() -> RuntimeEnvironment {
    RuntimeEnvironment {
        library_version: "0.1.0".to_string(),
        library: "ferriclink-core".to_string(),
        platform: "Linux x86_64".to_string(),
        runtime: "rust".to_string(),
        runtime_version: "1.76.0".to_string(),
        architecture: "x86_64".to_string(),
        os: "Linux".to_string(),
        compiler: "rustc 1.76.0".to_string(),
        target: "x86_64-unknown-linux-gnu".to_string(),
        env_vars: vec![
            ("RUST_LOG".to_string(), "info".to_string()),
            ("LANG".to_string(), "C.UTF-8".to_string()),
        ],
        features: vec!["release".to_string(), "64bit".to_string()],
    }
}

#[test]
fn test_runtime_environment_summary() {
    let env = sample_environment();
    let summary = env.summary();
    assert!(summary.contains("FerricLink"));
    assert!(summary.contains(&env.library_version));
}

#[test]
fn test_runtime_environment_summary_exact() {
    let env = sample_environment();
    assert_eq!(env.summary(), "FerricLink 0.1.0 on Linux x86_64 (1.76.0)");
}

#[test]
fn test_feature_detection() {
    let env = sample_environment();
    // Exactly one of debug and release is recorded as a feature
    assert!(env.has_feature("debug") || env.has_feature("release"));
    assert!(!env.has_feature("http"));
}

#[test]
fn test_environment_variables() {
    let env = sample_environment();
    // Should have some environment variables
    assert!(!env.env_vars.is_empty());
    assert_eq!(env.get_env_var("RUST_LOG").map(String::as_str), Some("info"));
    assert_eq!(env.get_env_var("MISSING"), None);
}
