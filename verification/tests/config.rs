use llm_driver::{default_skip_permissions, DriverConfig};

fn config(api_key: Option<&str>) -> DriverConfig {
    DriverConfig {
        provider: "open\"ai\n".to_string(),
        api_key: api_key.map(|key| key.to_string()),
        base_url: Some("http://localhost".to_string()),
        skip_permissions: true,
        subprocess_timeout_secs: Some(480),
    }
}

#[derive(Debug)]
#[allow(dead_code)]
struct Shown {
    provider: String,
    api_key: Option<String>,
    base_url: Option<String>,
    skip_permissions: bool,
    subprocess_timeout_secs: Option<u64>,
}

fn shown(config: &DriverConfig) -> Shown {
    Shown {
        provider: config.provider.clone(),
        api_key: config.api_key.as_ref().map(|_| "<redacted>".to_string()),
        base_url: config.base_url.clone(),
        skip_permissions: config.skip_permissions,
        subprocess_timeout_secs: config.subprocess_timeout_secs,
    }
}

#[test]
fn permissions_are_skipped_by_default() {
    assert!(default_skip_permissions());
}

#[test]
fn debug_form_is_redacted() {
    assert_eq!(
        config(Some("sk-123")).debug_string(false),
        "DriverConfig { provider: \"open\\\"ai\\n\", api_key: Some(\"<redacted>\"), \
         base_url: Some(\"http://localhost\"), skip_permissions: true, \
         subprocess_timeout_secs: Some(480) }"
    );
    assert_eq!(
        config(Some("sk-123")).debug_string(false),
        config(Some("sk-456")).debug_string(false)
    );
    assert!(!config(Some("sk-123")).debug_string(true).contains("sk-123"));
}

#[test]
fn debug_form_without_optional_fields() {
    let bare = DriverConfig {
        provider: "ollama".to_string(),
        api_key: None,
        base_url: None,
        skip_permissions: false,
        subprocess_timeout_secs: None,
    };
    assert_eq!(
        bare.debug_string(false),
        "DriverConfig { provider: \"ollama\", api_key: None, base_url: None, \
         skip_permissions: false, subprocess_timeout_secs: None }"
    );
}

#[test]
fn debug_form_is_that_of_a_struct() {
    let mut bare = config(None);
    bare.base_url = None;
    bare.subprocess_timeout_secs = None;
    for sample in [config(Some("k")), config(None), bare] {
        assert_eq!(
            sample.debug_string(false),
            format!("{:?}", shown(&sample)).replace("Shown", "DriverConfig")
        );
        assert_eq!(
            sample.debug_string(true),
            format!("{:#?}", shown(&sample)).replace("Shown", "DriverConfig")
        );
    }
}

#[test]
fn clone_keeps_every_field() {
    let copy = config(Some("sk-123")).clone();
    assert_eq!(copy.provider, "open\"ai\n");
    assert_eq!(copy.api_key, Some("sk-123".to_string()));
    assert_eq!(copy.base_url, Some("http://localhost".to_string()));
    assert!(copy.skip_permissions);
    assert_eq!(copy.subprocess_timeout_secs, Some(480));
}

#[test]
fn mark_in_place_of_the_key() {
    assert_eq!(config(Some("sk-123")).redacted_api_key(), Some("<redacted>"));
    assert_eq!(config(Some("")).redacted_api_key(), Some("<redacted>"));
    assert_eq!(config(None).redacted_api_key(), None);
}

#[test]
fn debug_form_of_quoted_strings() {
    let sample = config(Some("sk-123"));
    assert_eq!(
        sample.debug_string_quoted("\"openai\"", Some("\"http://h\""), false),
        "DriverConfig { provider: \"openai\", api_key: Some(\"<redacted>\"), \
         base_url: Some(\"http://h\"), skip_permissions: true, \
         subprocess_timeout_secs: Some(480) }"
    );
    assert_eq!(
        sample.debug_string_quoted("\"openai\"", None, true),
        "DriverConfig {\n    provider: \"openai\",\n    api_key: Some(\n        \
         \"<redacted>\",\n    ),\n    base_url: None,\n    skip_permissions: true,\n    \
         subprocess_timeout_secs: Some(\n        480,\n    ),\n}"
    );
}

#[test]
fn every_other_field_is_shown() {
    let base = config(Some("k"));
    let mut others = vec![config(None)];
    for _ in 0..6 {
        others.push(base.clone());
    }
    others[1].provider = "open\"ai".to_string();
    others[2].base_url = None;
    others[3].base_url = Some("http://localhost/".to_string());
    others[4].skip_permissions = false;
    others[5].subprocess_timeout_secs = None;
    others[6].subprocess_timeout_secs = Some(48);
    for other in &others {
        assert_ne!(other.debug_string(false), base.debug_string(false));
        assert_ne!(other.debug_string(true), base.debug_string(true));
    }
}
