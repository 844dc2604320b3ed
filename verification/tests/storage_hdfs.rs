use opendal::Operator;
use opendal_service_hdfs_native::HdfsNativeConfig;
use paimon::error::Error;
use paimon::storage_hdfs::{
    hdfs_config_build, hdfs_config_parse, hdfs_config_with_authority, hdfs_relative_path,
    HdfsConfig, UrlAuthority,
};

fn make_props(pairs: &[(&str, &str)]) -> Vec<(String, String)> {
    pairs
        .iter()
        .map(|(k, v)| (k.to_string(), v.to_string()))
        .collect()
}

#[allow(deprecated)]
fn build_operator(cfg: &HdfsConfig, path: &str) -> Result<Operator, String> {
    let built = hdfs_config_build(cfg, path).map_err(|e| e.to_string())?;
    let mut native = HdfsNativeConfig::default();
    native.name_node = built.name_node;
    native.root = built.root;
    native.enable_append = built.enable_append;
    Operator::from_config(native).map_err(|e| e.to_string())
}

#[test]
fn test_hdfs_config_parse_with_name_node() {
    let props = make_props(&[("hdfs.name-node", "hdfs://namenode:8020")]);
    let cfg = hdfs_config_parse(props).unwrap();
    assert_eq!(cfg.name_node.as_deref(), Some("hdfs://namenode:8020"));
    assert!(!cfg.enable_append);
}

#[test]
fn test_hdfs_config_parse_with_enable_append() {
    let props = make_props(&[
        ("hdfs.name-node", "hdfs://namenode:8020"),
        ("hdfs.enable-append", "true"),
    ]);
    let cfg = hdfs_config_parse(props).unwrap();
    assert!(cfg.enable_append);
}

#[test]
fn test_hdfs_config_parse_empty_props() {
    let cfg = hdfs_config_parse(Vec::new()).unwrap();
    assert!(cfg.name_node.is_none());
    assert!(!cfg.enable_append);
}

#[test]
fn test_hdfs_config_build_extracts_name_node_from_path() {
    let cfg = HdfsConfig::new();
    let op = build_operator(&cfg, "hdfs://namenode:8020/warehouse/db").unwrap();
    assert_eq!(op.info().scheme().to_string(), "hdfs-native");
}

#[test]
fn test_hdfs_config_build_uses_config_name_node() {
    let mut cfg = HdfsConfig::new();
    cfg.name_node = Some("hdfs://my-cluster:9000".to_string());
    let op = build_operator(&cfg, "hdfs://my-cluster:9000/warehouse").unwrap();
    assert_eq!(op.info().scheme().to_string(), "hdfs-native");
}

#[test]
fn test_hdfs_config_build_invalid_url() {
    let cfg = HdfsConfig::new();
    let result = build_operator(&cfg, "not-a-valid-url");
    assert!(result.is_err());
}

#[test]
fn test_hdfs_config_build_missing_host() {
    let cfg = HdfsConfig::new();
    let result = build_operator(&cfg, "hdfs:///path/without/host");
    assert!(result.is_err());
}

#[test]
fn test_hdfs_config_parse_enable_append_false() {
    let props = make_props(&[
        ("hdfs.name-node", "hdfs://namenode:8020"),
        ("hdfs.enable-append", "false"),
    ]);
    let cfg = hdfs_config_parse(props).unwrap();
    assert!(!cfg.enable_append);
}

#[test]
fn test_hdfs_config_parse_unrelated_keys_ignored() {
    let props = make_props(&[
        ("s3.endpoint", "https://s3.amazonaws.com"),
        ("fs.oss.endpoint", "https://oss.aliyuncs.com"),
        ("hdfs.name-node", "hdfs://namenode:8020"),
    ]);
    let cfg = hdfs_config_parse(props).unwrap();
    assert_eq!(cfg.name_node.as_deref(), Some("hdfs://namenode:8020"));
}

#[test]
fn test_hdfs_relative_path_normal() {
    let result = hdfs_relative_path("hdfs://namenode:8020/warehouse/db/table");
    assert_eq!(result.unwrap(), "warehouse/db/table");
}

#[test]
fn test_hdfs_relative_path_root_slash() {
    let result = hdfs_relative_path("hdfs://namenode:8020/");
    assert_eq!(result.unwrap(), "");
}

#[test]
fn test_hdfs_relative_path_no_port() {
    let result = hdfs_relative_path("hdfs://nameservice1/warehouse/data");
    assert_eq!(result.unwrap(), "warehouse/data");
}

#[test]
fn test_hdfs_relative_path_missing_path_component() {
    let result = hdfs_relative_path("hdfs://namenode:8020");
    assert!(result.is_err());
}

#[test]
fn test_hdfs_relative_path_wrong_scheme() {
    let result = hdfs_relative_path("s3://bucket/key");
    assert!(result.is_err());
}

#[test]
fn relative_path_error_messages() {
    match hdfs_relative_path("s3://bucket/key") {
        Err(Error::ConfigInvalid { message }) => assert_eq!(
            message,
            "Invalid HDFS path: s3://bucket/key, should start with hdfs://"
        ),
        other => panic!("unexpected: {other:?}"),
    }
    match hdfs_relative_path("hdfs://namenode:8020") {
        Err(Error::ConfigInvalid { message }) => assert_eq!(
            message,
            "Invalid HDFS path: hdfs://namenode:8020, missing path component"
        ),
        other => panic!("unexpected: {other:?}"),
    }
}

#[test]
fn relative_path_keeps_later_slashes_and_unicode() {
    assert_eq!(hdfs_relative_path("hdfs://nn//a").unwrap(), "/a");
    assert_eq!(hdfs_relative_path("hdfs://nn/é/ü").unwrap(), "é/ü");
    assert!(hdfs_relative_path("HDFS://nn/a").is_err());
    assert!(hdfs_relative_path("hdfs:/").is_err());
}

#[test]
fn enable_append_ignores_case_and_first_entry_counts() {
    let cfg = hdfs_config_parse(make_props(&[("hdfs.enable-append", "TrUe")])).unwrap();
    assert!(cfg.enable_append);
    let cfg = hdfs_config_parse(make_props(&[("hdfs.enable-append", "yes")])).unwrap();
    assert!(!cfg.enable_append);
    let cfg = hdfs_config_parse(make_props(&[
        ("hdfs.name-node", "hdfs://first"),
        ("hdfs.name-node", "hdfs://second"),
    ]))
    .unwrap();
    assert_eq!(cfg.name_node.as_deref(), Some("hdfs://first"));
    assert!(cfg.root.is_none());
}

#[test]
fn build_takes_name_node_from_url() {
    let cfg = hdfs_config_build(&HdfsConfig::new(), "hdfs://namenode:8020/warehouse/db").unwrap();
    assert_eq!(cfg.name_node.as_deref(), Some("hdfs://namenode:8020"));
    assert_eq!(cfg.root.as_deref(), Some("/"));
    let cfg = hdfs_config_build(&HdfsConfig::new(), "hdfs://nameservice1/warehouse").unwrap();
    assert_eq!(cfg.name_node.as_deref(), Some("hdfs://nameservice1"));
}

#[test]
fn build_keeps_configured_name_node_and_append() {
    let mut given = HdfsConfig::new();
    given.name_node = Some("hdfs://my-cluster:9000".to_string());
    given.enable_append = true;
    let cfg = hdfs_config_build(&given, "hdfs://other:1/warehouse").unwrap();
    assert_eq!(cfg.name_node.as_deref(), Some("hdfs://my-cluster:9000"));
    assert!(cfg.enable_append);
    assert_eq!(cfg.root.as_deref(), Some("/"));
}

#[test]
fn build_refuses_unparsable_url() {
    match hdfs_config_build(&HdfsConfig::new(), "not-a-valid-url") {
        Err(Error::ConfigInvalid { message }) => {
            assert_eq!(message, "Invalid HDFS url: not-a-valid-url")
        }
        other => panic!("unexpected: {other:?}"),
    }
}

#[test]
fn completing_config_from_authority() {
    let cfg = HdfsConfig::new();
    let no_host = UrlAuthority { host: None, port: None };
    match hdfs_config_with_authority(&cfg, "x:/y", Some(no_host)) {
        Err(Error::ConfigInvalid { message }) => {
            assert_eq!(message, "Invalid HDFS url: x:/y, missing name node host")
        }
        other => panic!("unexpected: {other:?}"),
    }
    let auth = UrlAuthority { host: Some("nn".to_string()), port: Some(65535) };
    let out = hdfs_config_with_authority(&cfg, "hdfs://nn:65535/", Some(auth)).unwrap();
    assert_eq!(out.name_node.as_deref(), Some("hdfs://nn:65535"));
    let auth = UrlAuthority { host: Some("nn".to_string()), port: Some(0) };
    let out = hdfs_config_with_authority(&cfg, "hdfs://nn:0/", Some(auth)).unwrap();
    assert_eq!(out.name_node.as_deref(), Some("hdfs://nn:0"));
    assert!(hdfs_config_with_authority(&cfg, "?", None).is_err());
}
