use oracle_cloud_mcp::catalogue_json::{catalogue_json, tool_json};
use oracle_cloud_mcp::client::OciClient;
use oracle_cloud_mcp::config::{
    config_path, expand_home, profile_name, read_profile, setting, split_lines, trim_text, ProfileSettings,
};
use oracle_cloud_mcp::schema::{tool_definitions, tool_schema, ParamDef, ParamKind, ToolDef};

const CONFIG: &str = "[DEFAULT]\nuser=ocid1.user.oc1..xxx\nfingerprint=xx:xx:xx:xx:xx\ntenancy=ocid1.tenancy.oc1..xxx\nregion=us-chicago-1\nkey_file=~/.oci/api_keys/oci_api_key.pem\n\n# a comment\n[work]\n  region = eu-frankfurt-1  \r\nsecurity_token_file=~/.oci/sessions/work/token\n";

fn no_profile() -> ProfileSettings {
    ProfileSettings { tenancy: None, region: None, security_token_file: None }
}

#[test]
fn lines_and_trimming() {
    assert_eq!(split_lines(""), Vec::<String>::new());
    assert_eq!(split_lines("a\n\nb"), vec!["a", "", "b"]);
    assert_eq!(split_lines("a\n"), vec!["a"]);
    assert_eq!(trim_text(" \t x y \r\n"), "x y");
    assert_eq!(trim_text("   "), "");
}

#[test]
fn default_profile_settings() {
    let p = read_profile(CONFIG, "DEFAULT");
    assert_eq!(p.tenancy.as_deref(), Some("ocid1.tenancy.oc1..xxx"));
    assert_eq!(p.region.as_deref(), Some("us-chicago-1"));
    assert_eq!(p.security_token_file, None);
}

#[test]
fn named_profile_inherits_default() {
    let p = read_profile(CONFIG, "work");
    assert_eq!(p.region.as_deref(), Some("eu-frankfurt-1"));
    assert_eq!(p.tenancy.as_deref(), Some("ocid1.tenancy.oc1..xxx"));
    assert_eq!(p.security_token_file.as_deref(), Some("~/.oci/sessions/work/token"));
    assert_eq!(read_profile(CONFIG, "missing").region.as_deref(), Some("us-chicago-1"));
    assert_eq!(read_profile("", "DEFAULT"), no_profile());
}

#[test]
fn first_setting_wins_and_comments_are_skipped() {
    let lines = split_lines("[p]\n#region=x\n;region=y\nregion=z\nregion=w\n");
    assert_eq!(setting(&lines, "p", "region").as_deref(), Some("z"));
    assert_eq!(setting(&lines, "q", "region"), None);
    let before_any = split_lines("region=z\n[p]\n");
    assert_eq!(setting(&before_any, "p", "region"), None);
}

#[test]
fn paths_and_profile_names() {
    assert_eq!(profile_name(None), "DEFAULT");
    assert_eq!(profile_name(Some("work".to_string())), "work");
    assert_eq!(expand_home("~/.oci/config", Some("/home/u")), "/home/u/.oci/config");
    assert_eq!(expand_home("~", Some("/home/u")), "/home/u");
    assert_eq!(expand_home("~x/config", Some("/home/u")), "~x/config");
    assert_eq!(expand_home("~/.oci/config", None), "~/.oci/config");
    assert_eq!(config_path(None, Some("/home/u".to_string())).as_deref(), Some("/home/u/.oci/config"));
    assert_eq!(
        config_path(Some("~/oci.cfg".to_string()), Some("/h".to_string())).as_deref(),
        Some("/h/oci.cfg")
    );
    assert_eq!(config_path(None, None), None);
}

#[test]
fn environment_before_profile() {
    let profile = read_profile(CONFIG, "work");
    let c = OciClient::from_sources(None, None, None, &profile, Some("  session-token\n".to_string()));
    assert_eq!(c.auth_token, "session-token");
    assert_eq!(c.region, "eu-frankfurt-1");
    assert_eq!(c.tenancy_ocid, "ocid1.tenancy.oc1..xxx");
    let c = OciClient::from_sources(
        Some("env-token".to_string()),
        Some("ap-tokyo-1".to_string()),
        Some("env-tenancy".to_string()),
        &profile,
        Some("session-token".to_string()),
    );
    assert_eq!((c.auth_token.as_str(), c.region.as_str(), c.tenancy_ocid.as_str()), ("env-token", "ap-tokyo-1", "env-tenancy"));
    let c = OciClient::from_sources(None, None, None, &no_profile(), None);
    assert_eq!((c.auth_token.as_str(), c.region.as_str(), c.tenancy_ocid.as_str()), ("", "us-chicago-1", ""));
}

#[test]
fn tool_json_text() {
    let d = tool_schema("oci_compute_get_instance").unwrap();
    assert_eq!(
        tool_json(&d),
        "{\"name\":\"oci_compute_get_instance\",\"description\":\"Get details of a compute instance\",\"inputSchema\":{\"type\":\"object\",\"properties\":{\"instance_id\":{\"type\":\"string\"}},\"required\":[\"instance_id\"]}}"
    );
    let d = tool_schema("oci_vcn_list").unwrap();
    assert_eq!(
        tool_json(&d),
        "{\"name\":\"oci_vcn_list\",\"description\":\"List Virtual Cloud Networks\",\"inputSchema\":{\"type\":\"object\",\"properties\":{\"compartment_id\":{\"type\":\"string\"},\"limit\":{\"type\":\"number\",\"default\":50}}}}"
    );
}

#[test]
fn json_strings_are_escaped() {
    let d = ToolDef {
        name: "a\"b\\c\nd".to_string(),
        description: "é".to_string(),
        params: vec![ParamDef { name: "k".to_string(), kind: ParamKind::TextList }],
        required: vec![],
    };
    let text = tool_json(&d);
    assert_eq!(
        text,
        "{\"name\":\"a\\\"b\\\\c\\u000Ad\",\"description\":\"é\",\"inputSchema\":{\"type\":\"object\",\"properties\":{\"k\":{\"type\":\"array\",\"items\":{\"type\":\"string\"}}}}}"
    );
    let v: serde_json::Value = serde_json::from_str(&text).unwrap();
    assert_eq!(v["name"], "a\"b\\c\nd");
}

#[test]
fn catalogue_json_parses() {
    let text = catalogue_json(&tool_definitions());
    let v: serde_json::Value = serde_json::from_str(&text).unwrap();
    let tools = v.as_array().unwrap();
    assert_eq!(tools.len(), 23);
    let bucket = tools.iter().find(|t| t["name"] == "oci_os_create_bucket").unwrap();
    let tier = &bucket["inputSchema"]["properties"]["storage_tier"];
    assert_eq!(tier["default"], "Standard");
    assert_eq!(tier["enum"][1], "Archive");
    assert_eq!(bucket["inputSchema"]["required"][0], "bucket_name");
    let action = tools.iter().find(|t| t["name"] == "oci_compute_instance_action").unwrap();
    assert_eq!(action["inputSchema"]["properties"]["action"]["enum"].as_array().unwrap().len(), 5);
    let ns = tools.iter().find(|t| t["name"] == "oci_os_get_namespace").unwrap();
    assert!(ns["inputSchema"].get("required").is_none());
    assert_eq!(catalogue_json(&Vec::new()), "[]");
}
