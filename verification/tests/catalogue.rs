use oracle_cloud_mcp::args::{ArgValue, ToolArgs};
use oracle_cloud_mcp::client::OciClient;
use oracle_cloud_mcp::schema::{tool_definitions, tool_name_list, tool_schema, ParamDef, ParamKind};

fn param<'a>(params: &'a [ParamDef], name: &str) -> Option<&'a ParamKind> {
    params.iter().find(|p| p.name == name).map(|p| &p.kind)
}

#[test]
fn twenty_three_distinct_tools() {
    let defs = tool_definitions();
    assert_eq!(defs.len(), 23);
    let mut names: Vec<&str> = defs.iter().map(|d| d.name.as_str()).collect();
    assert_eq!(names, tool_name_list());
    names.sort();
    names.dedup();
    assert_eq!(names.len(), 23);
}

#[test]
fn tools_per_service() {
    let names = tool_name_list();
    let count = |p: &str| names.iter().filter(|n| n.starts_with(p)).count();
    assert_eq!(count("oci_compute_"), 4);
    assert_eq!(count("oci_os_"), 5);
    assert_eq!(count("oci_bv_"), 2);
    assert_eq!(count("oci_vcn_") + count("oci_subnet_"), 3);
    assert_eq!(count("oci_adb_"), 4);
    assert_eq!(count("oci_iam_"), 5);
}

#[test]
fn schema_of_instance_action() {
    let d = tool_schema("oci_compute_instance_action").unwrap();
    assert_eq!(d.description, "Perform action on instance (START/STOP/RESET/SOFTSTOP/SOFTRESET)");
    assert_eq!(d.required, vec!["instance_id".to_string(), "action".to_string()]);
    assert_eq!(param(&d.params, "instance_id"), Some(&ParamKind::Text));
    assert_eq!(
        param(&d.params, "action"),
        Some(&ParamKind::TextChoice(
            ["START", "STOP", "RESET", "SOFTSTOP", "SOFTRESET"].iter().map(|s| s.to_string()).collect()
        ))
    );
}

#[test]
fn schema_of_create_bucket_and_vcn() {
    let d = tool_schema("oci_os_create_bucket").unwrap();
    assert_eq!(d.description, "Create an Object Storage bucket");
    assert_eq!(d.required, vec!["bucket_name".to_string(), "namespace".to_string()]);
    assert_eq!(
        param(&d.params, "public_access"),
        Some(&ParamKind::TextDefault("NoPublicAccess".to_string()))
    );
    assert_eq!(
        param(&d.params, "storage_tier"),
        Some(&ParamKind::TextChoiceDefault(
            vec!["Standard".to_string(), "Archive".to_string()],
            "Standard".to_string()
        ))
    );
    let v = tool_schema("oci_vcn_create").unwrap();
    assert_eq!(param(&v.params, "cidr_blocks"), Some(&ParamKind::TextList));
    assert_eq!(v.required, vec!["display_name".to_string()]);
    let o = tool_schema("oci_os_list_objects").unwrap();
    assert_eq!(param(&o.params, "prefix"), Some(&ParamKind::Text));
    assert_eq!(param(&o.params, "limit"), Some(&ParamKind::Number(100)));
}

#[test]
fn unknown_tool_has_no_schema() {
    assert!(tool_schema("oci_nothing").is_none());
    assert!(tool_schema("").is_none());
}

#[test]
fn catalogue_and_calls_agree() {
    let c = OciClient::new(None, None, None);
    let none = ToolArgs::new();
    for d in tool_definitions() {
        let req = c.tool_request(&d.name, &none).expect("listed tool is callable");
        // a missing limit acts as the advertised default
        if let Some(ParamKind::Number(default)) = param(&d.params, "limit") {
            assert!(req.url.contains(&format!("limit={default}")), "{}", d.name);
        } else {
            assert!(!req.url.contains("limit="), "{}", d.name);
        }
    }
}

#[test]
fn limit_ignored_where_not_advertised() {
    let c = OciClient::new(None, None, None);
    for d in tool_definitions() {
        if param(&d.params, "limit").is_some() {
            continue;
        }
        let mut with_limit = ToolArgs::new();
        with_limit.insert("limit".to_string(), ArgValue::UInt(7));
        let plain = c.tool_request(&d.name, &ToolArgs::new()).unwrap();
        let limited = c.tool_request(&d.name, &with_limit).unwrap();
        assert_eq!(plain, limited, "{}", d.name);
    }
}

#[test]
fn explicit_default_limit_is_the_same_request() {
    let c = OciClient::new(None, Some("ap-tokyo-1".to_string()), Some("t".to_string()));
    for d in tool_definitions() {
        if let Some(ParamKind::Number(default)) = param(&d.params, "limit") {
            let mut given = ToolArgs::new();
            given.insert("limit".to_string(), ArgValue::UInt(*default));
            assert_eq!(c.tool_request(&d.name, &ToolArgs::new()), c.tool_request(&d.name, &given), "{}", d.name);
        }
    }
}
