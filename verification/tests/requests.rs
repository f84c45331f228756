use oracle_cloud_mcp::args::{ArgValue, ToolArgs};
use oracle_cloud_mcp::client::OciClient;
use oracle_cloud_mcp::request::{ApiRequest, HttpMethod};

fn client() -> OciClient {
    OciClient::new(
        Some("tok".to_string()),
        Some("eu-frankfurt-1".to_string()),
        Some("ocid1.tenancy.oc1..root".to_string()),
    )
}

fn args(pairs: &[(&str, ArgValue)]) -> ToolArgs {
    let mut a = ToolArgs::new();
    for (k, v) in pairs {
        a.insert(k.to_string(), v.duplicate());
    }
    a
}

fn s(v: &str) -> ArgValue {
    ArgValue::Str(v.to_string())
}

fn get_url(req: ApiRequest) -> String {
    assert_eq!(req.method, HttpMethod::Get);
    assert!(req.body.is_none());
    req.url
}

const IAAS: &str = "https://iaas.eu-frankfurt-1.oraclecloud.com/20160918";
const OS: &str = "https://objectstorage.eu-frankfurt-1.oraclecloud.com/n/";
const DB: &str = "https://database.eu-frankfurt-1.oraclecloud.com/20160918/autonomousDatabases";
const IAM: &str = "https://identity.eu-frankfurt-1.oraclecloud.com/20160918";
const ROOT: &str = "ocid1.tenancy.oc1..root";

#[test]
fn new_client_defaults() {
    let c = OciClient::new(None, None, None);
    assert_eq!(c.auth_token, "");
    assert_eq!(c.region, "us-chicago-1");
    assert_eq!(c.tenancy_ocid, "");
    let c = client();
    assert_eq!(c.auth_token, "tok");
    assert_eq!(c.region, "eu-frankfurt-1");
    assert_eq!(c.tenancy_ocid, ROOT);
}

#[test]
fn base_url_of_service() {
    assert_eq!(client().base_url("iaas"), IAAS);
    assert_eq!(
        OciClient::new(None, None, None).base_url("identity"),
        "https://identity.us-chicago-1.oraclecloud.com/20160918"
    );
}

#[test]
fn compartment_argument_or_tenancy() {
    let c = client();
    assert_eq!(c.compartment(&ToolArgs::new()), ROOT);
    assert_eq!(c.compartment(&args(&[("compartment_id", s("ocid1.compartment.x"))])), "ocid1.compartment.x");
    // a compartment that is not a string counts as absent
    assert_eq!(c.compartment(&args(&[("compartment_id", ArgValue::UInt(7))])), ROOT);
}

#[test]
fn list_instances_uses_compartment_and_limit() {
    let c = client();
    let url = get_url(c.tool_request("oci_compute_list_instances", &ToolArgs::new()).unwrap());
    assert_eq!(url, format!("{IAAS}/instances?compartmentId={ROOT}&limit=50"));
    let a = args(&[("compartment_id", s("cmp")), ("limit", ArgValue::UInt(7))]);
    let url = get_url(c.tool_request("oci_compute_list_instances", &a).unwrap());
    assert_eq!(url, format!("{IAAS}/instances?compartmentId=cmp&limit=7"));
}

#[test]
fn limit_must_be_a_whole_number() {
    let c = client();
    for bad in [s("7"), ArgValue::Other("-3".to_string()), ArgValue::Other("2.5".to_string())] {
        let url = get_url(c.tool_request("oci_vcn_list", &args(&[("limit", bad)])).unwrap());
        assert_eq!(url, format!("{IAAS}/vcns?compartmentId={ROOT}&limit=50"));
    }
    let url = get_url(c.tool_request("oci_vcn_list", &args(&[("limit", ArgValue::UInt(0))])).unwrap());
    assert_eq!(url, format!("{IAAS}/vcns?compartmentId={ROOT}&limit=0"));
    let url = get_url(c.tool_request("oci_vcn_list", &args(&[("limit", ArgValue::UInt(u64::MAX))])).unwrap());
    assert_eq!(url, format!("{IAAS}/vcns?compartmentId={ROOT}&limit=18446744073709551615"));
}

#[test]
fn advertised_limit_defaults_apply() {
    let c = client();
    let none = ToolArgs::new();
    let cases: [(&str, String); 13] = [
        ("oci_compute_list_instances", format!("{IAAS}/instances?compartmentId={ROOT}&limit=50")),
        ("oci_compute_list_shapes", format!("{IAAS}/shapes?compartmentId={ROOT}&limit=100")),
        ("oci_os_list_buckets", format!("{OS}/b?compartmentId={ROOT}&limit=100")),
        ("oci_os_list_objects", format!("{OS}/b//o?limit=100")),
        ("oci_bv_list_volumes", format!("{IAAS}/volumes?compartmentId={ROOT}&limit=50")),
        ("oci_bv_list_boot_volumes", format!("{IAAS}/bootVolumes?compartmentId={ROOT}&availabilityDomain=&limit=50")),
        ("oci_vcn_list", format!("{IAAS}/vcns?compartmentId={ROOT}&limit=50")),
        ("oci_subnet_list", format!("{IAAS}/subnets?compartmentId={ROOT}&vcnId=&limit=50")),
        ("oci_adb_list", format!("{DB}?compartmentId={ROOT}&limit=50")),
        ("oci_iam_list_users", format!("{IAM}/users?compartmentId={ROOT}&limit=100")),
        ("oci_iam_list_groups", format!("{IAM}/groups?compartmentId={ROOT}&limit=100")),
        ("oci_iam_list_policies", format!("{IAM}/policies?compartmentId={ROOT}&limit=100")),
        (
            "oci_iam_list_compartments",
            format!("{IAM}/compartments?compartmentId={ROOT}&limit=100&accessLevel=ANY&compartmentIdInSubtree=true"),
        ),
    ];
    for (name, expected) in cases {
        assert_eq!(get_url(c.tool_request(name, &none).unwrap()), expected, "{name}");
    }
}

#[test]
fn compute_requests() {
    let c = client();
    let a = args(&[("instance_id", s("ocid1.instance.a"))]);
    assert_eq!(
        get_url(c.tool_request("oci_compute_get_instance", &a).unwrap()),
        format!("{IAAS}/instances/ocid1.instance.a")
    );
    assert_eq!(
        get_url(c.tool_request("oci_compute_get_instance", &ToolArgs::new()).unwrap()),
        format!("{IAAS}/instances/")
    );
    let r = c.tool_request("oci_compute_instance_action", &a).unwrap();
    assert_eq!(r.method, HttpMethod::Post);
    assert_eq!(r.url, format!("{IAAS}/instances/ocid1.instance.a?action=STOP"));
    assert_eq!(r.body, Some(vec![]));
    let b = args(&[("instance_id", s("i")), ("action", s("SOFTRESET"))]);
    let r = c.tool_request("oci_compute_instance_action", &b).unwrap();
    assert_eq!(r.url, format!("{IAAS}/instances/i?action=SOFTRESET"));
}

#[test]
fn object_storage_requests() {
    let c = client();
    assert_eq!(get_url(c.tool_request("oci_os_get_namespace", &ToolArgs::new()).unwrap()), OS);
    let a = args(&[("namespace", s("ns")), ("bucket_name", s("bk")), ("limit", ArgValue::UInt(3))]);
    assert_eq!(
        get_url(c.tool_request("oci_os_list_buckets", &a).unwrap()),
        format!("{OS}ns/b?compartmentId={ROOT}&limit=3")
    );
    assert_eq!(get_url(c.tool_request("oci_os_list_objects", &a).unwrap()), format!("{OS}ns/b/bk/o?limit=3"));
    let p = args(&[("namespace", s("ns")), ("bucket_name", s("bk")), ("prefix", s("logs/"))]);
    assert_eq!(
        get_url(c.tool_request("oci_os_list_objects", &p).unwrap()),
        format!("{OS}ns/b/bk/o?limit=100&prefix=logs%2F")
    );
    let p = args(&[("prefix", s("a b&c=d#e+f%g~h_i.j-k/é€😀"))]);
    assert_eq!(
        get_url(c.tool_request("oci_os_list_objects", &p).unwrap()),
        format!("{OS}/b//o?limit=100&prefix=a%20b%26c%3Dd%23e%2Bf%25g~h_i.j-k%2F%C3%A9%E2%82%AC%F0%9F%98%80")
    );
    let d = c.tool_request("oci_os_delete_bucket", &a).unwrap();
    assert_eq!(d.method, HttpMethod::Delete);
    assert_eq!(d.url, format!("{OS}ns/b/bk"));
    assert!(d.body.is_none());
}

#[test]
fn create_bucket_body() {
    let c = client();
    let a = args(&[("namespace", s("ns")), ("bucket_name", s("bk"))]);
    let r = c.tool_request("oci_os_create_bucket", &a).unwrap();
    assert_eq!(r.method, HttpMethod::Post);
    assert_eq!(r.url, format!("{OS}ns/b"));
    assert_eq!(
        r.body,
        Some(vec![
            ("name".to_string(), s("bk")),
            ("compartmentId".to_string(), s(ROOT)),
            ("publicAccessType".to_string(), s("NoPublicAccess")),
        ])
    );
    let a = args(&[("bucket_name", s("bk")), ("public_access", s("ObjectRead")), ("compartment_id", s("c"))]);
    let r = c.tool_request("oci_os_create_bucket", &a).unwrap();
    assert_eq!(r.url, format!("{OS}/b"));
    assert_eq!(
        r.body,
        Some(vec![
            ("name".to_string(), s("bk")),
            ("compartmentId".to_string(), s("c")),
            ("publicAccessType".to_string(), s("ObjectRead")),
        ])
    );
    let a = args(&[("namespace", s("ns")), ("bucket_name", s("cold")), ("storage_tier", s("Archive"))]);
    let r = c.tool_request("oci_os_create_bucket", &a).unwrap();
    assert_eq!(
        r.body,
        Some(vec![
            ("name".to_string(), s("cold")),
            ("compartmentId".to_string(), s(ROOT)),
            ("publicAccessType".to_string(), s("NoPublicAccess")),
            ("storageTier".to_string(), s("Archive")),
        ])
    );
    // a tier that is not a string counts as absent
    let a = args(&[("bucket_name", s("b")), ("storage_tier", ArgValue::UInt(1))]);
    let r = c.tool_request("oci_os_create_bucket", &a).unwrap();
    assert_eq!(r.body.unwrap().len(), 3);
}

#[test]
fn networking_requests() {
    let c = client();
    let a = args(&[("availability_domain", s("AD-1")), ("vcn_id", s("v1"))]);
    assert_eq!(
        get_url(c.tool_request("oci_bv_list_boot_volumes", &a).unwrap()),
        format!("{IAAS}/bootVolumes?compartmentId={ROOT}&availabilityDomain=AD-1&limit=50")
    );
    assert_eq!(
        get_url(c.tool_request("oci_subnet_list", &a).unwrap()),
        format!("{IAAS}/subnets?compartmentId={ROOT}&vcnId=v1&limit=50")
    );
}

#[test]
fn vcn_create_body() {
    let c = client();
    let r = c.tool_request("oci_vcn_create", &args(&[("display_name", s("net"))])).unwrap();
    assert_eq!(r.method, HttpMethod::Post);
    assert_eq!(r.url, format!("{IAAS}/vcns"));
    assert_eq!(
        r.body,
        Some(vec![
            ("compartmentId".to_string(), s(ROOT)),
            ("displayName".to_string(), s("net")),
            ("cidrBlocks".to_string(), ArgValue::Other("[\"10.0.0.0/16\"]".to_string())),
        ])
    );
    let given = ArgValue::Other("[\"192.168.0.0/24\"]".to_string());
    let r = c.tool_request("oci_vcn_create", &args(&[("cidr_blocks", given.duplicate())])).unwrap();
    assert_eq!(
        r.body,
        Some(vec![
            ("compartmentId".to_string(), s(ROOT)),
            ("displayName".to_string(), s("")),
            ("cidrBlocks".to_string(), given),
        ])
    );
}

#[test]
fn database_requests() {
    let c = client();
    let a = args(&[("database_id", s("db1"))]);
    assert_eq!(get_url(c.tool_request("oci_adb_get", &a).unwrap()), format!("{DB}/db1"));
    let r = c.tool_request("oci_adb_start", &a).unwrap();
    assert_eq!((r.method, r.url, r.body), (HttpMethod::Post, format!("{DB}/db1/actions/start"), Some(vec![])));
    let r = c.tool_request("oci_adb_stop", &a).unwrap();
    assert_eq!((r.method, r.url, r.body), (HttpMethod::Post, format!("{DB}/db1/actions/stop"), Some(vec![])));
}

#[test]
fn availability_domains_request() {
    let c = client();
    let a = args(&[("compartment_id", s("c")), ("limit", ArgValue::UInt(5))]);
    assert_eq!(
        get_url(c.tool_request("oci_iam_list_availability_domains", &a).unwrap()),
        format!("{IAM}/availabilityDomains?compartmentId=c")
    );
}

#[test]
fn unknown_tool_is_an_error() {
    let c = client();
    match c.tool_request("oci_compute_reboot_everything", &ToolArgs::new()) {
        Err(e) => assert_eq!(e, "Unknown tool: oci_compute_reboot_everything"),
        Ok(_) => panic!("unknown tool accepted"),
    }
    match c.tool_request("", &ToolArgs::new()) {
        Err(e) => assert_eq!(e, "Unknown tool: "),
        Ok(_) => panic!("empty tool name accepted"),
    }
}

#[test]
fn every_request_stays_in_region() {
    let c = client();
    let a = args(&[("namespace", s("ns")), ("database_id", s("d"))]);
    for name in oracle_cloud_mcp::schema::tool_name_list() {
        let r = c.tool_request(name, &a).unwrap();
        assert!(r.url.starts_with("https://"), "{name}");
        assert!(r.url.contains(".eu-frankfurt-1.oraclecloud.com/"), "{name}");
    }
}
