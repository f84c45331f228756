//! Which OCI REST request each tool makes.

use vstd::prelude::*;
use crate::args::{member, str_of, text_or, u64_of, ArgValue, ArgView, ToolArgs};
use crate::client::{compartment_of, service_url, OciClient};
use crate::text::{decimal, percent_encode, push_decimal, push_percent_encoded, text_eq};

verus! {

/// The HTTP method of a request.
#[derive(PartialEq, Eq, Structural, Clone, Copy, Debug)]
pub enum HttpMethod {
    Get,
    Post,
    Delete,
}

/// An OCI REST request: its method, its URL, and for a POST the members of
/// the JSON object it sends, in order.
#[derive(Debug, PartialEq, Eq)]
pub struct ApiRequest {
    pub method: HttpMethod,
    pub url: String,
    pub body: Option<Vec<(String, ArgValue)>>,
}

/// The mathematical value of an [`ApiRequest`].
pub struct RequestView {
    pub method: HttpMethod,
    pub url: Seq<char>,
    pub body: Option<Seq<(Seq<char>, ArgView)>>,
}

/// The members of a JSON object body, by value.
pub open spec fn body_view(body: Seq<(String, ArgValue)>) -> Seq<(Seq<char>, ArgView)> {
    body.map_values(|m: (String, ArgValue)| (m.0@, m.1@))
}

impl View for ApiRequest {
    type V = RequestView;

    open spec fn view(&self) -> RequestView {
        RequestView {
            method: self.method,
            url: self.url@,
            body: match self.body {
                Some(b) => Some(body_view(b@)),
                None => None,
            },
        }
    }
}

/// A GET of `url`.
pub open spec fn get(url: Seq<char>) -> RequestView {
    RequestView { method: HttpMethod::Get, url, body: None }
}

/// A POST to `url` of a JSON object with these members.
pub open spec fn post(url: Seq<char>, body: Seq<(Seq<char>, ArgView)>) -> RequestView {
    RequestView { method: HttpMethod::Post, url, body: Some(body) }
}

/// A DELETE of `url`.
pub open spec fn delete(url: Seq<char>) -> RequestView {
    RequestView { method: HttpMethod::Delete, url, body: None }
}

/// The `limit` argument where it is a whole number in the range of `u64`,
/// `default` otherwise.
pub open spec fn limit_of(args: Map<Seq<char>, ArgView>, default: u64) -> u64 {
    match u64_of(member(args, "limit"@)) {
        Some(n) => n,
        None => default,
    }
}

/// A listing URL: `path?compartmentId=<compartment>&limit=<limit>`.
pub open spec fn listing(path: Seq<char>, compartment: Seq<char>, limit: u64) -> Seq<char> {
    path + "?compartmentId="@ + compartment + "&limit="@ + decimal(limit as nat)
}

/// The URL root of Object Storage in a region.
pub open spec fn object_storage_url(region: Seq<char>) -> Seq<char> {
    "https://objectstorage."@ + region + ".oraclecloud.com/n/"@
}

/// The URL of the Autonomous Database collection in a region.
pub open spec fn databases_url(region: Seq<char>) -> Seq<char> {
    service_url("database"@, region) + "/autonomousDatabases"@
}

/// The CIDR blocks a new VCN gets where the call names none, as JSON text.
pub open spec fn default_cidr_blocks() -> Seq<char> {
    "[\"10.0.0.0/16\"]"@
}

/// The `cidr_blocks` argument, whatever JSON value it is, or the default.
pub open spec fn cidr_blocks_of(args: Map<Seq<char>, ArgView>) -> ArgView {
    match member(args, "cidr_blocks"@) {
        Some(v) => v,
        None => ArgView::Other(default_cidr_blocks()),
    }
}

/// The `storageTier` member of a new bucket: there where the call names a
/// tier, so that OCI's default tier applies otherwise.
pub open spec fn storage_tier_member(args: Map<Seq<char>, ArgView>) -> Seq<(Seq<char>, ArgView)> {
    match str_of(member(args, "storage_tier"@)) {
        Some(t) => seq![("storageTier"@, ArgView::Str(t))],
        None => Seq::empty(),
    }
}

/// The request that the tool `name` makes with these arguments, for a
/// client in `region` whose tenancy is `tenancy`; `None` where no tool has
/// that name.
pub open spec fn tool_request_spec(
    region: Seq<char>,
    tenancy: Seq<char>,
    name: Seq<char>,
    args: Map<Seq<char>, ArgView>,
) -> Option<RequestView> {
    let cid = compartment_of(tenancy, args);
    let iaas = service_url("iaas"@, region);
    let os = object_storage_url(region);
    let adb = databases_url(region);
    let iam = service_url("identity"@, region);
    let ns = text_or(args, "namespace"@, ""@);
    let bucket = text_or(args, "bucket_name"@, ""@);
    if name == "oci_compute_list_instances"@ {
        Some(get(listing(iaas + "/instances"@, cid, limit_of(args, 50))))
    } else if name == "oci_compute_get_instance"@ {
        Some(get(iaas + "/instances/"@ + text_or(args, "instance_id"@, ""@)))
    } else if name == "oci_compute_list_shapes"@ {
        Some(get(listing(iaas + "/shapes"@, cid, limit_of(args, 100))))
    } else if name == "oci_compute_instance_action"@ {
        Some(
            post(
                iaas + "/instances/"@ + text_or(args, "instance_id"@, ""@) + "?action="@ + text_or(
                    args,
                    "action"@,
                    "STOP"@,
                ),
                Seq::empty(),
            ),
        )
    } else if name == "oci_os_get_namespace"@ {
        Some(get(os))
    } else if name == "oci_os_list_buckets"@ {
        Some(get(listing(os + ns + "/b"@, cid, limit_of(args, 100))))
    } else if name == "oci_os_create_bucket"@ {
        Some(
            post(
                os + ns + "/b"@,
                seq![
                    ("name"@, ArgView::Str(bucket)),
                    ("compartmentId"@, ArgView::Str(cid)),
                    (
                        "publicAccessType"@,
                        ArgView::Str(text_or(args, "public_access"@, "NoPublicAccess"@)),
                    ),
                ] + storage_tier_member(args),
            ),
        )
    } else if name == "oci_os_list_objects"@ {
        let url = os + ns + "/b/"@ + bucket + "/o?limit="@ + decimal(limit_of(args, 100) as nat);
        Some(
            get(
                match str_of(member(args, "prefix"@)) {
                    Some(p) => url + "&prefix="@ + percent_encode(p),
                    None => url,
                },
            ),
        )
    } else if name == "oci_os_delete_bucket"@ {
        Some(delete(os + ns + "/b/"@ + bucket))
    } else if name == "oci_bv_list_volumes"@ {
        Some(get(listing(iaas + "/volumes"@, cid, limit_of(args, 50))))
    } else if name == "oci_bv_list_boot_volumes"@ {
        Some(
            get(
                iaas + "/bootVolumes?compartmentId="@ + cid + "&availabilityDomain="@ + text_or(
                    args,
                    "availability_domain"@,
                    ""@,
                ) + "&limit="@ + decimal(limit_of(args, 50) as nat),
            ),
        )
    } else if name == "oci_vcn_list"@ {
        Some(get(listing(iaas + "/vcns"@, cid, limit_of(args, 50))))
    } else if name == "oci_subnet_list"@ {
        Some(
            get(
                iaas + "/subnets?compartmentId="@ + cid + "&vcnId="@ + text_or(args, "vcn_id"@, ""@)
                    + "&limit="@ + decimal(limit_of(args, 50) as nat),
            ),
        )
    } else if name == "oci_vcn_create"@ {
        Some(
            post(
                iaas + "/vcns"@,
                seq![
                    ("compartmentId"@, ArgView::Str(cid)),
                    ("displayName"@, ArgView::Str(text_or(args, "display_name"@, ""@))),
                    ("cidrBlocks"@, cidr_blocks_of(args)),
                ],
            ),
        )
    } else if name == "oci_adb_list"@ {
        Some(get(listing(adb, cid, limit_of(args, 50))))
    } else if name == "oci_adb_get"@ {
        Some(get(adb + "/"@ + text_or(args, "database_id"@, ""@)))
    } else if name == "oci_adb_start"@ {
        Some(post(adb + "/"@ + text_or(args, "database_id"@, ""@) + "/actions/start"@, Seq::empty()))
    } else if name == "oci_adb_stop"@ {
        Some(post(adb + "/"@ + text_or(args, "database_id"@, ""@) + "/actions/stop"@, Seq::empty()))
    } else if name == "oci_iam_list_users"@ {
        Some(get(listing(iam + "/users"@, cid, limit_of(args, 100))))
    } else if name == "oci_iam_list_groups"@ {
        Some(get(listing(iam + "/groups"@, cid, limit_of(args, 100))))
    } else if name == "oci_iam_list_policies"@ {
        Some(get(listing(iam + "/policies"@, cid, limit_of(args, 100))))
    } else if name == "oci_iam_list_compartments"@ {
        Some(
            get(
                listing(iam + "/compartments"@, cid, limit_of(args, 100))
                    + "&accessLevel=ANY&compartmentIdInSubtree=true"@,
            ),
        )
    } else if name == "oci_iam_list_availability_domains"@ {
        Some(get(iam + "/availabilityDomains?compartmentId="@ + cid))
    } else {
        None
    }
}

/// The message of a call to a tool that does not exist.
pub open spec fn unknown_tool_message(name: Seq<char>) -> Seq<char> {
    "Unknown tool: "@ + name
}

fn get_request(url: String) -> (r: ApiRequest)
    ensures
        r@ == get(url@),
{
    ApiRequest { method: HttpMethod::Get, url, body: None }
}

fn post_request(url: String, body: Vec<(String, ArgValue)>) -> (r: ApiRequest)
    ensures
        r@ == post(url@, body_view(body@)),
{
    ApiRequest { method: HttpMethod::Post, url, body: Some(body) }
}

fn empty_post(url: String) -> (r: ApiRequest)
    ensures
        r@ == post(url@, Seq::empty()),
{
    let body: Vec<(String, ArgValue)> = Vec::new();
    assert(body_view(body@) =~= Seq::empty());
    post_request(url, body)
}

fn listing_url(path: String, compartment: &str, limit: u64) -> (r: String)
    ensures
        r@ == listing(path@, compartment@, limit),
{
    let mut r = path;
    r.append("?compartmentId=");
    r.append(compartment);
    r.append("&limit=");
    push_decimal(&mut r, limit);
    r
}

fn text_member(key: &str, value: &str) -> (r: (String, ArgValue))
    ensures
        r.0@ == key@,
        r.1@ == ArgView::Str(value@),
{
    (String::from_str(key), ArgValue::Str(String::from_str(value)))
}

impl ToolArgs {
    /// The `limit` argument, or `default`.
    pub fn limit_or(&self, default: u64) -> (r: u64)
        ensures
            r == limit_of(self.view(), default),
    {
        match self.u64_arg("limit") {
            Some(n) => n,
            None => default,
        }
    }
}

impl OciClient {
    fn object_storage_url(&self) -> (r: String)
        ensures
            r@ == object_storage_url(self.region@),
    {
        let mut r = String::from_str("https://objectstorage.");
        r.append(self.region.as_str());
        r.append(".oraclecloud.com/n/");
        r
    }

    fn databases_url(&self) -> (r: String)
        ensures
            r@ == databases_url(self.region@),
    {
        let mut r = self.base_url("database");
        r.append("/autonomousDatabases");
        r
    }

    /// The request that the tool `name` makes with `args`, or the message
    /// `Unknown tool: <name>` where no tool has that name.
    #[verifier::rlimit(50)]
    pub fn tool_request(&self, name: &str, args: &ToolArgs) -> (r: Result<ApiRequest, String>)
        ensures
            match r {
                Ok(req) => tool_request_spec(self.region@, self.tenancy_ocid@, name@, args.view())
                    == Some(req@),
                Err(e) => tool_request_spec(self.region@, self.tenancy_ocid@, name@, args.view())
                    is None && e@ == unknown_tool_message(name@),
            },
    {
        let cid = self.compartment(args);
        if text_eq(name, "oci_compute_list_instances") {
            let mut path = self.base_url("iaas");
            path.append("/instances");
            Ok(get_request(listing_url(path, cid.as_str(), args.limit_or(50))))
        } else if text_eq(name, "oci_compute_get_instance") {
            let mut url = self.base_url("iaas");
            url.append("/instances/");
            url.append(args.text_or("instance_id", ""));
            Ok(get_request(url))
        } else if text_eq(name, "oci_compute_list_shapes") {
            let mut path = self.base_url("iaas");
            path.append("/shapes");
            Ok(get_request(listing_url(path, cid.as_str(), args.limit_or(100))))
        } else if text_eq(name, "oci_compute_instance_action") {
            let mut url = self.base_url("iaas");
            url.append("/instances/");
            url.append(args.text_or("instance_id", ""));
            url.append("?action=");
            url.append(args.text_or("action", "STOP"));
            Ok(empty_post(url))
        } else if text_eq(name, "oci_os_get_namespace") {
            Ok(get_request(self.object_storage_url()))
        } else if text_eq(name, "oci_os_list_buckets") {
            let mut path = self.object_storage_url();
            path.append(args.text_or("namespace", ""));
            path.append("/b");
            Ok(get_request(listing_url(path, cid.as_str(), args.limit_or(100))))
        } else if text_eq(name, "oci_os_create_bucket") {
            let mut url = self.object_storage_url();
            url.append(args.text_or("namespace", ""));
            url.append("/b");
            let mut body: Vec<(String, ArgValue)> = Vec::new();
            body.push(text_member("name", args.text_or("bucket_name", "")));
            body.push(text_member("compartmentId", cid.as_str()));
            body.push(text_member("publicAccessType", args.text_or("public_access", "NoPublicAccess")));
            match args.str_arg("storage_tier") {
                Some(tier) => {
                    body.push(text_member("storageTier", tier));
                },
                None => {},
            }
            proof {
                assert(body_view(body@) =~= seq![
                    ("name"@, ArgView::Str(text_or(args.view(), "bucket_name"@, ""@))),
                    ("compartmentId"@, ArgView::Str(cid@)),
                    (
                        "publicAccessType"@,
                        ArgView::Str(text_or(args.view(), "public_access"@, "NoPublicAccess"@)),
                    ),
                ] + storage_tier_member(args.view()));
            }
            Ok(post_request(url, body))
        } else if text_eq(name, "oci_os_list_objects") {
            let mut url = self.object_storage_url();
            url.append(args.text_or("namespace", ""));
            url.append("/b/");
            url.append(args.text_or("bucket_name", ""));
            url.append("/o?limit=");
            push_decimal(&mut url, args.limit_or(100));
            match args.str_arg("prefix") {
                Some(p) => {
                    url.append("&prefix=");
                    push_percent_encoded(&mut url, p);
                },
                None => {},
            }
            Ok(get_request(url))
        } else if text_eq(name, "oci_os_delete_bucket") {
            let mut url = self.object_storage_url();
            url.append(args.text_or("namespace", ""));
            url.append("/b/");
            url.append(args.text_or("bucket_name", ""));
            Ok(ApiRequest { method: HttpMethod::Delete, url, body: None })
        } else if text_eq(name, "oci_bv_list_volumes") {
            let mut path = self.base_url("iaas");
            path.append("/volumes");
            Ok(get_request(listing_url(path, cid.as_str(), args.limit_or(50))))
        } else if text_eq(name, "oci_bv_list_boot_volumes") {
            let mut url = self.base_url("iaas");
            url.append("/bootVolumes?compartmentId=");
            url.append(cid.as_str());
            url.append("&availabilityDomain=");
            url.append(args.text_or("availability_domain", ""));
            url.append("&limit=");
            push_decimal(&mut url, args.limit_or(50));
            Ok(get_request(url))
        } else if text_eq(name, "oci_vcn_list") {
            let mut path = self.base_url("iaas");
            path.append("/vcns");
            Ok(get_request(listing_url(path, cid.as_str(), args.limit_or(50))))
        } else if text_eq(name, "oci_subnet_list") {
            let mut url = self.base_url("iaas");
            url.append("/subnets?compartmentId=");
            url.append(cid.as_str());
            url.append("&vcnId=");
            url.append(args.text_or("vcn_id", ""));
            url.append("&limit=");
            push_decimal(&mut url, args.limit_or(50));
            Ok(get_request(url))
        } else if text_eq(name, "oci_vcn_create") {
            let mut url = self.base_url("iaas");
            url.append("/vcns");
            let cidr_blocks = match args.get("cidr_blocks") {
                Some(v) => v.duplicate(),
                None => ArgValue::Other(String::from_str("[\"10.0.0.0/16\"]")),
            };
            let mut body: Vec<(String, ArgValue)> = Vec::new();
            body.push(text_member("compartmentId", cid.as_str()));
            body.push(text_member("displayName", args.text_or("display_name", "")));
            body.push((String::from_str("cidrBlocks"), cidr_blocks));
            proof {
                assert(body_view(body@) =~= seq![
                    ("compartmentId"@, ArgView::Str(cid@)),
                    ("displayName"@, ArgView::Str(text_or(args.view(), "display_name"@, ""@))),
                    ("cidrBlocks"@, cidr_blocks_of(args.view())),
                ]);
            }
            Ok(post_request(url, body))
        } else if text_eq(name, "oci_adb_list") {
            Ok(get_request(listing_url(self.databases_url(), cid.as_str(), args.limit_or(50))))
        } else if text_eq(name, "oci_adb_get") {
            let mut url = self.databases_url();
            url.append("/");
            url.append(args.text_or("database_id", ""));
            Ok(get_request(url))
        } else if text_eq(name, "oci_adb_start") {
            let mut url = self.databases_url();
            url.append("/");
            url.append(args.text_or("database_id", ""));
            url.append("/actions/start");
            Ok(empty_post(url))
        } else if text_eq(name, "oci_adb_stop") {
            let mut url = self.databases_url();
            url.append("/");
            url.append(args.text_or("database_id", ""));
            url.append("/actions/stop");
            Ok(empty_post(url))
        } else if text_eq(name, "oci_iam_list_users") {
            let mut path = self.base_url("identity");
            path.append("/users");
            Ok(get_request(listing_url(path, cid.as_str(), args.limit_or(100))))
        } else if text_eq(name, "oci_iam_list_groups") {
            let mut path = self.base_url("identity");
            path.append("/groups");
            Ok(get_request(listing_url(path, cid.as_str(), args.limit_or(100))))
        } else if text_eq(name, "oci_iam_list_policies") {
            let mut path = self.base_url("identity");
            path.append("/policies");
            Ok(get_request(listing_url(path, cid.as_str(), args.limit_or(100))))
        } else if text_eq(name, "oci_iam_list_compartments") {
            let mut path = self.base_url("identity");
            path.append("/compartments");
            let mut url = listing_url(path, cid.as_str(), args.limit_or(100));
            url.append("&accessLevel=ANY&compartmentIdInSubtree=true");
            Ok(get_request(url))
        } else if text_eq(name, "oci_iam_list_availability_domains") {
            let mut url = self.base_url("identity");
            url.append("/availabilityDomains?compartmentId=");
            url.append(cid.as_str());
            Ok(get_request(url))
        } else {
            let mut e = String::from_str("Unknown tool: ");
            e.append(name);
            Err(e)
        }
    }
}

} // verus!
