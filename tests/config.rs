use serde_json::Value;
use ya_runtime_sdk::config::{
    config_candidates, config_file_names, file_extension, select_config_path, text_eq, ConfigError, ConfigFormat,
};

fn default_conf() -> Value {
    let mut m = serde_json::Map::new();
    m.insert("numeric".to_string(), Value::from(42i64));
    m.insert("string".to_string(), Value::from("default value"));
    m.insert(
        "vec".to_string(),
        Value::Array(vec![Value::from("first entry"), Value::from("second entry")]),
    );
    Value::Object(m)
}

fn encode(format: ConfigFormat, conf: &Value) -> String {
    match format {
        ConfigFormat::Toml => toml::to_string_pretty(conf).unwrap(),
        ConfigFormat::Yaml => serde_yaml::to_string(conf).unwrap(),
        ConfigFormat::Json => serde_json::to_string_pretty(conf).unwrap(),
    }
}

fn decode(format: ConfigFormat, text: &str) -> Option<Value> {
    match format {
        ConfigFormat::Toml => toml::from_str(text).ok(),
        ConfigFormat::Yaml => serde_yaml::from_str(text).ok(),
        ConfigFormat::Json => serde_json::from_str(text).ok(),
    }
}

#[test]
fn extension_is_lowercased() {
    assert_eq!(file_extension("config.JsoN").unwrap(), "json");
    assert_eq!(file_extension("/etc/rt/config.YML").unwrap(), "yml");
    assert_eq!(file_extension("dir/config.toml").unwrap(), "toml");
}

#[test]
fn path_without_extension_is_invalid() {
    assert!(matches!(file_extension("config"), Err(ConfigError::InvalidPath)));
    assert!(matches!(file_extension(".hidden"), Err(ConfigError::InvalidPath)));
    let err = ConfigFormat::of_path("dir/config").unwrap_err();
    assert_eq!(err.message(), "Invalid config path");
}

#[test]
fn formats_by_extension() {
    assert_eq!(ConfigFormat::of_path("a/config.json").unwrap(), ConfigFormat::Json);
    assert_eq!(ConfigFormat::of_path("a/config.JSON").unwrap(), ConfigFormat::Json);
    assert_eq!(ConfigFormat::of_path("a/config.JsoN").unwrap(), ConfigFormat::Json);
    assert_eq!(ConfigFormat::of_path("a/config.yaml").unwrap(), ConfigFormat::Yaml);
    assert_eq!(ConfigFormat::of_path("a/config.yml").unwrap(), ConfigFormat::Yaml);
    assert_eq!(ConfigFormat::of_path("a/config.toml").unwrap(), ConfigFormat::Toml);
    assert_eq!(ConfigFormat::from_extension("yml").unwrap(), ConfigFormat::Yaml);
}

#[test]
fn unsupported_extension_is_rejected() {
    match ConfigFormat::of_path("a/config.INI") {
        Err(ConfigError::UnsupportedExtension(ext)) => assert_eq!(ext, "ini"),
        other => panic!("unexpected: {:?}", other),
    }
    let err = ConfigFormat::from_extension("xml").unwrap_err();
    assert_eq!(err.message(), "Unsupported extension: xml");
    let e = err.to_error();
    assert_eq!(e.code(), 1);
    assert_eq!(e.message(), "Unsupported extension: xml");
}

#[test]
fn config_round_trip_per_format() {
    let conf = default_conf();
    for path in ["config.json", "config.JSON", "config.JsoN", "config.yaml", "config.yml", "config.toml"] {
        let format = ConfigFormat::of_path(path).unwrap();
        let text = encode(format, &conf);
        assert_eq!(decode(format, &text), Some(conf.clone()));
    }
}

#[test]
fn json_read_as_toml_fails() {
    let conf = default_conf();
    let text = encode(ConfigFormat::of_path("config.json").unwrap(), &conf);
    assert_eq!(decode(ConfigFormat::of_path("config.json").unwrap(), &text), Some(default_conf()));
    assert_eq!(decode(ConfigFormat::of_path("config.toml").unwrap(), &text), None);
}

#[test]
fn candidates_in_preference_order() {
    let c = config_candidates("/data/rt", "rt");
    assert_eq!(c, vec!["/data/rt/rt.toml", "/data/rt/rt.yaml", "/data/rt/rt.yml", "/data/rt/rt.json"]);
}

#[test]
fn first_existing_candidate_is_selected() {
    assert_eq!(select_config_path(&vec![false, true, true, false]), 1);
    assert_eq!(select_config_path(&vec![true, true, true, true]), 0);
    assert_eq!(select_config_path(&vec![false, false, false, true]), 3);
    assert_eq!(select_config_path(&vec![false, false, false, false]), 3);
}

#[test]
fn text_equality() {
    assert!(text_eq("yaml", "yaml"));
    assert!(!text_eq("yaml", "yml"));
    assert!(!text_eq("Yaml", "yaml"));
    assert!(text_eq("", ""));
}

#[test]
fn file_names_per_extension() {
    assert_eq!(config_file_names("rt"), vec!["rt.toml", "rt.yaml", "rt.yml", "rt.json"]);
}
