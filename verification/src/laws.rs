//! Properties that tie the library's functions together.

use vstd::prelude::*;
use crate::catalogue_json::{
    catalogue_json_spec, escape, join, json_string, properties_json, property_json, string_array,
    tool_json_spec,
};
use crate::args::{member, str_of, text_or, u64_of, ArgView};
use crate::client::{compartment_of, service_url};
use crate::request::{databases_url, limit_of, object_storage_url, tool_request_spec};
use crate::text::decimal;
use crate::request::HttpMethod;
use crate::response::{next_step, OutcomeView, StepView};
use crate::rpc::{answered, route_spec};
use crate::schema::{ParamDefView, ToolDefView, lemma_listed_tool_described, number_param_spec, tool_names, tool_schema_spec};

verus! {

/// A tool call is carried out exactly for the tools the catalogue lists:
/// the call makes a request if and only if the catalogue describes a tool
/// of that name, and that is so if and only if the name is among the
/// listed tool names.
pub proof fn law_calls_match_catalogue(
    region: Seq<char>,
    tenancy: Seq<char>,
    name: Seq<char>,
    args: Map<Seq<char>, ArgView>,
)
    ensures
        tool_request_spec(region, tenancy, name, args) is Some <==> tool_schema_spec(name) is Some,
        tool_schema_spec(name) is Some <==> tool_names().contains(name),
{
    if tool_names().contains(name) {
        let i = choose|i: int| 0 <= i < tool_names().len() && tool_names()[i] == name;
        lemma_listed_tool_described(i);
    }
    if tool_schema_spec(name) is Some {
        if name == "oci_compute_list_instances"@ {
            assert(tool_names()[0] == name);
        } else if name == "oci_compute_get_instance"@ {
            assert(tool_names()[1] == name);
        } else if name == "oci_compute_list_shapes"@ {
            assert(tool_names()[2] == name);
        } else if name == "oci_compute_instance_action"@ {
            assert(tool_names()[3] == name);
        } else if name == "oci_os_get_namespace"@ {
            assert(tool_names()[4] == name);
        } else if name == "oci_os_list_buckets"@ {
            assert(tool_names()[5] == name);
        } else if name == "oci_os_create_bucket"@ {
            assert(tool_names()[6] == name);
        } else if name == "oci_os_list_objects"@ {
            assert(tool_names()[7] == name);
        } else if name == "oci_os_delete_bucket"@ {
            assert(tool_names()[8] == name);
        } else if name == "oci_bv_list_volumes"@ {
            assert(tool_names()[9] == name);
        } else if name == "oci_bv_list_boot_volumes"@ {
            assert(tool_names()[10] == name);
        } else if name == "oci_vcn_list"@ {
            assert(tool_names()[11] == name);
        } else if name == "oci_subnet_list"@ {
            assert(tool_names()[12] == name);
        } else if name == "oci_vcn_create"@ {
            assert(tool_names()[13] == name);
        } else if name == "oci_adb_list"@ {
            assert(tool_names()[14] == name);
        } else if name == "oci_adb_get"@ {
            assert(tool_names()[15] == name);
        } else if name == "oci_adb_start"@ {
            assert(tool_names()[16] == name);
        } else if name == "oci_adb_stop"@ {
            assert(tool_names()[17] == name);
        } else if name == "oci_iam_list_users"@ {
            assert(tool_names()[18] == name);
        } else if name == "oci_iam_list_groups"@ {
            assert(tool_names()[19] == name);
        } else if name == "oci_iam_list_policies"@ {
            assert(tool_names()[20] == name);
        } else if name == "oci_iam_list_compartments"@ {
            assert(tool_names()[21] == name);
        } else if name == "oci_iam_list_availability_domains"@ {
            assert(tool_names()[22] == name);
        }
    }
}

/// Setting `limit` leaves every other member that the tools read as it was.
proof fn lemma_limit_leaves_other_members(args: Map<Seq<char>, ArgView>, value: ArgView)
    ensures
        member(args.insert("limit"@, value), "compartment_id"@) == member(args, "compartment_id"@),
        member(args.insert("limit"@, value), "instance_id"@) == member(args, "instance_id"@),
        member(args.insert("limit"@, value), "action"@) == member(args, "action"@),
        member(args.insert("limit"@, value), "namespace"@) == member(args, "namespace"@),
        member(args.insert("limit"@, value), "bucket_name"@) == member(args, "bucket_name"@),
        member(args.insert("limit"@, value), "public_access"@) == member(args, "public_access"@),
        member(args.insert("limit"@, value), "prefix"@) == member(args, "prefix"@),
        member(args.insert("limit"@, value), "availability_domain"@) == member(args, "availability_domain"@),
        member(args.insert("limit"@, value), "vcn_id"@) == member(args, "vcn_id"@),
        member(args.insert("limit"@, value), "display_name"@) == member(args, "display_name"@),
        member(args.insert("limit"@, value), "cidr_blocks"@) == member(args, "cidr_blocks"@),
        member(args.insert("limit"@, value), "database_id"@) == member(args, "database_id"@),
        member(args.insert("limit"@, value), "storage_tier"@) == member(args, "storage_tier"@),
{
    reveal_strlit("limit");
    reveal_strlit("compartment_id");
    assert("limit"@.len() != "compartment_id"@.len());
    reveal_strlit("instance_id");
    assert("limit"@.len() != "instance_id"@.len());
    reveal_strlit("action");
    assert("limit"@.len() != "action"@.len());
    reveal_strlit("namespace");
    assert("limit"@.len() != "namespace"@.len());
    reveal_strlit("bucket_name");
    assert("limit"@.len() != "bucket_name"@.len());
    reveal_strlit("public_access");
    assert("limit"@.len() != "public_access"@.len());
    reveal_strlit("prefix");
    assert("limit"@.len() != "prefix"@.len());
    reveal_strlit("availability_domain");
    assert("limit"@.len() != "availability_domain"@.len());
    reveal_strlit("vcn_id");
    assert("limit"@.len() != "vcn_id"@.len());
    reveal_strlit("display_name");
    assert("limit"@.len() != "display_name"@.len());
    reveal_strlit("cidr_blocks");
    assert("limit"@.len() != "cidr_blocks"@.len());
    reveal_strlit("database_id");
    assert("limit"@.len() != "database_id"@.len());
    reveal_strlit("storage_tier");
    assert("limit"@.len() != "storage_tier"@.len());
}

/// A call that gives no usable `limit` lists as many items as the tool's
/// schema advertises as the default of `limit`: it makes the same request
/// as a call that gives that default.
pub proof fn law_missing_limit_is_advertised_default(
    region: Seq<char>,
    tenancy: Seq<char>,
    name: Seq<char>,
    args: Map<Seq<char>, ArgView>,
    default: u64,
)
    requires
        tool_schema_spec(name) matches Some(d) && d.params.contains(
            number_param_spec("limit"@, default),
        ),
        u64_of(member(args, "limit"@)) is None,
    ensures
        tool_request_spec(region, tenancy, name, args) == tool_request_spec(
            region,
            tenancy,
            name,
            args.insert("limit"@, ArgView::UInt(default)),
        ),
{
    let given = args.insert("limit"@, ArgView::UInt(default));
    lemma_limit_leaves_other_members(args, ArgView::UInt(default));
    assert(member(given, "limit"@) == Some(ArgView::UInt(default)));
    let d = tool_schema_spec(name).unwrap();
    let k = choose|k: int| 0 <= k < d.params.len() && d.params[k] == number_param_spec("limit"@, default);
    assert(d.params[k].name == "limit"@);
    if name == "oci_compute_list_instances"@ {
        assert(default == 50);
    } else if name == "oci_compute_get_instance"@ {
        assert(false);
    } else if name == "oci_compute_list_shapes"@ {
        assert(default == 100);
    } else if name == "oci_compute_instance_action"@ {
        assert(false);
    } else if name == "oci_os_get_namespace"@ {
        assert(false);
    } else if name == "oci_os_list_buckets"@ {
        assert(default == 100);
    } else if name == "oci_os_create_bucket"@ {
        assert(false);
    } else if name == "oci_os_list_objects"@ {
        assert(default == 100);
    } else if name == "oci_os_delete_bucket"@ {
        assert(false);
    } else if name == "oci_bv_list_volumes"@ {
        assert(default == 50);
    } else if name == "oci_bv_list_boot_volumes"@ {
        assert(default == 50);
    } else if name == "oci_vcn_list"@ {
        assert(default == 50);
    } else if name == "oci_subnet_list"@ {
        assert(default == 50);
    } else if name == "oci_vcn_create"@ {
        assert(false);
    } else if name == "oci_adb_list"@ {
        assert(default == 50);
    } else if name == "oci_adb_get"@ {
        assert(false);
    } else if name == "oci_adb_start"@ {
        assert(false);
    } else if name == "oci_adb_stop"@ {
        assert(false);
    } else if name == "oci_iam_list_users"@ {
        assert(default == 100);
    } else if name == "oci_iam_list_groups"@ {
        assert(default == 100);
    } else if name == "oci_iam_list_policies"@ {
        assert(default == 100);
    } else if name == "oci_iam_list_compartments"@ {
        assert(default == 100);
    } else if name == "oci_iam_list_availability_domains"@ {
        assert(false);
    }
}

/// The OCI services the tools talk to.
pub open spec fn oci_service(service: Seq<char>) -> bool {
    ||| service == "iaas"@
    ||| service == "objectstorage"@
    ||| service == "database"@
    ||| service == "identity"@
}

/// The address of an OCI endpoint in `region`: over HTTPS, the host is
/// `<service>.<region>.oraclecloud.com` for one of the OCI services, and
/// the path follows.
pub open spec fn in_region(url: Seq<char>, region: Seq<char>) -> bool {
    exists|service: Seq<char>, path: Seq<char>|
        oci_service(service) && url == "https://"@ + service + "."@ + region
            + ".oraclecloud.com/"@ + path
}

broadcast proof fn lemma_in_region_extend(url: Seq<char>, region: Seq<char>, more: Seq<char>)
    requires
        in_region(url, region),
    ensures
        #[trigger] in_region(url + more, region),
{
    let (service, path) = choose|service: Seq<char>, path: Seq<char>|
        oci_service(service) && url == "https://"@ + service + "."@ + region
            + ".oraclecloud.com/"@ + path;
    let root = "https://"@ + service + "."@ + region + ".oraclecloud.com/"@;
    assert(url + more =~= root + (path + more));
}

proof fn lemma_roots_in_region(region: Seq<char>, service: Seq<char>)
    requires
        oci_service(service),
    ensures
        in_region(service_url(service, region), region),
        in_region(object_storage_url(region), region),
{
    reveal_strlit(".oraclecloud.com/20160918");
    reveal_strlit(".oraclecloud.com/");
    reveal_strlit("20160918");
    reveal_strlit("https://objectstorage.");
    reveal_strlit("https://");
    reveal_strlit("objectstorage");
    reveal_strlit(".");
    reveal_strlit(".oraclecloud.com/n/");
    reveal_strlit("n/");
    let r1 = "https://"@ + service + "."@ + region + ".oraclecloud.com/"@;
    assert(service_url(service, region) =~= r1 + "20160918"@);
    let r2 = "https://"@ + "objectstorage"@ + "."@ + region + ".oraclecloud.com/"@;
    assert(object_storage_url(region) =~= r2 + "n/"@);
    assert(oci_service("objectstorage"@));
}

/// Every request a tool makes goes to the host of an OCI service (Compute
/// and networking, Object Storage, Database or Identity) in the client's
/// region.
pub proof fn law_requests_stay_in_region(
    region: Seq<char>,
    tenancy: Seq<char>,
    name: Seq<char>,
    args: Map<Seq<char>, ArgView>,
)
    ensures
        tool_request_spec(region, tenancy, name, args) matches Some(req) ==> in_region(
            req.url,
            region,
        ),
{
    broadcast use lemma_in_region_extend;

    lemma_roots_in_region(region, "iaas"@);
    lemma_roots_in_region(region, "database"@);
    lemma_roots_in_region(region, "identity"@);
}

/// Every request is answered except the `notifications/initialized`
/// notification.
pub proof fn law_only_the_notification_goes_unanswered(method: Seq<char>)
    ensures
        answered(route_spec(method)) <==> method != "notifications/initialized"@,
{
    reveal_strlit("initialize");
    reveal_strlit("notifications/initialized");
    reveal_strlit("tools/list");
    reveal_strlit("tools/call");
    assert("notifications/initialized"@.len() != "initialize"@.len());
    assert("notifications/initialized"@.len() != "tools/list"@.len());
    assert("notifications/initialized"@.len() != "tools/call"@.len());
}

/// The catalogue offers twenty-three tools, no two of them under one name.
pub proof fn law_tool_names_distinct()
    ensures
        tool_names().len() == 23,
        tool_names().no_duplicates(),
{
    reveal_strlit("oci_compute_list_instances");
    reveal_strlit("oci_compute_get_instance");
    reveal_strlit("oci_compute_list_shapes");
    reveal_strlit("oci_compute_instance_action");
    reveal_strlit("oci_os_get_namespace");
    reveal_strlit("oci_os_list_buckets");
    reveal_strlit("oci_os_create_bucket");
    reveal_strlit("oci_os_list_objects");
    reveal_strlit("oci_os_delete_bucket");
    reveal_strlit("oci_bv_list_volumes");
    reveal_strlit("oci_bv_list_boot_volumes");
    reveal_strlit("oci_vcn_list");
    reveal_strlit("oci_subnet_list");
    reveal_strlit("oci_vcn_create");
    reveal_strlit("oci_adb_list");
    reveal_strlit("oci_adb_get");
    reveal_strlit("oci_adb_start");
    reveal_strlit("oci_adb_stop");
    reveal_strlit("oci_iam_list_users");
    reveal_strlit("oci_iam_list_groups");
    reveal_strlit("oci_iam_list_policies");
    reveal_strlit("oci_iam_list_compartments");
    reveal_strlit("oci_iam_list_availability_domains");
    assert("oci_compute_get_instance"@[4] != "oci_bv_list_boot_volumes"@[4]);
    assert("oci_os_get_namespace"@[7] != "oci_os_create_bucket"@[7]);
    assert("oci_os_get_namespace"@[7] != "oci_os_delete_bucket"@[7]);
    assert("oci_os_list_buckets"@[12] != "oci_os_list_objects"@[12]);
    assert("oci_os_list_buckets"@[4] != "oci_bv_list_volumes"@[4]);
    assert("oci_os_list_buckets"@[4] != "oci_iam_list_groups"@[4]);
    assert("oci_os_create_bucket"@[7] != "oci_os_delete_bucket"@[7]);
    assert("oci_os_list_objects"@[4] != "oci_bv_list_volumes"@[4]);
    assert("oci_os_list_objects"@[4] != "oci_iam_list_groups"@[4]);
    assert("oci_bv_list_volumes"@[4] != "oci_iam_list_groups"@[4]);
    assert("oci_vcn_list"@[4] != "oci_adb_list"@[4]);
    assert("oci_vcn_list"@[4] != "oci_adb_stop"@[4]);
    assert("oci_adb_list"@[8] != "oci_adb_stop"@[8]);
    assert forall|i: int, j: int| 0 <= i < tool_names().len() && 0 <= j < tool_names().len() && i != j
        implies tool_names()[i] != tool_names()[j] by {
        if tool_names()[i] == tool_names()[j] {
            assert(tool_names()[i].len() == tool_names()[j].len());
        }
    }
}

/// A tool whose schema has no `limit` parameter makes the same request
/// whatever `limit` the call gives.
pub proof fn law_limit_ignored_where_not_advertised(
    region: Seq<char>,
    tenancy: Seq<char>,
    name: Seq<char>,
    args: Map<Seq<char>, ArgView>,
    limit: ArgView,
)
    requires
        tool_schema_spec(name) matches Some(d) && forall|k: int|
            0 <= k < d.params.len() ==> (#[trigger] d.params[k]).name != "limit"@,
    ensures
        tool_request_spec(region, tenancy, name, args) == tool_request_spec(
            region,
            tenancy,
            name,
            args.insert("limit"@, limit),
        ),
{
    lemma_limit_leaves_other_members(args, limit);
    let d = tool_schema_spec(name).unwrap();
    // the branches follow the catalogue's order, so each one fixes the tool;
    // for a tool with a `limit` parameter the requirement does not hold
    if name == "oci_compute_list_instances"@ {
        assert(d.params[1].name != "limit"@);
    } else if name == "oci_compute_get_instance"@ {
    } else if name == "oci_compute_list_shapes"@ {
        assert(d.params[1].name != "limit"@);
    } else if name == "oci_compute_instance_action"@ {
    } else if name == "oci_os_get_namespace"@ {
    } else if name == "oci_os_list_buckets"@ {
        assert(d.params[2].name != "limit"@);
    } else if name == "oci_os_create_bucket"@ {
    } else if name == "oci_os_list_objects"@ {
        assert(d.params[3].name != "limit"@);
    } else if name == "oci_os_delete_bucket"@ {
    } else if name == "oci_bv_list_volumes"@ {
        assert(d.params[1].name != "limit"@);
    } else if name == "oci_bv_list_boot_volumes"@ {
        assert(d.params[2].name != "limit"@);
    } else if name == "oci_vcn_list"@ {
        assert(d.params[1].name != "limit"@);
    } else if name == "oci_subnet_list"@ {
        assert(d.params[2].name != "limit"@);
    } else if name == "oci_vcn_create"@ {
    } else if name == "oci_adb_list"@ {
        assert(d.params[1].name != "limit"@);
    } else if name == "oci_adb_get"@ {
    } else if name == "oci_adb_start"@ {
    } else if name == "oci_adb_stop"@ {
    } else if name == "oci_iam_list_users"@ {
        assert(d.params[1].name != "limit"@);
    } else if name == "oci_iam_list_groups"@ {
        assert(d.params[1].name != "limit"@);
    } else if name == "oci_iam_list_policies"@ {
        assert(d.params[1].name != "limit"@);
    } else if name == "oci_iam_list_compartments"@ {
        assert(d.params[1].name != "limit"@);
    }
}

/// A POST makes of its reply what a GET makes of the same reply: the same
/// transport error, the same error for a failing status, and the JSON body
/// on success.
pub proof fn law_post_reads_replies_like_get(outcome: OutcomeView)
    ensures
        next_step(HttpMethod::Post, outcome) == next_step(HttpMethod::Get, outcome),
{
}

/// A DELETE makes of its reply what a GET makes of it, except that a
/// success reports the deletion in place of a JSON body.
pub proof fn law_delete_differs_only_on_success(outcome: OutcomeView)
    ensures
        outcome matches OutcomeView::Responded { success, .. } && success ==> next_step(
            HttpMethod::Delete,
            outcome,
        ) == StepView::Deleted && next_step(HttpMethod::Get, outcome) == StepView::ReadJson,
        !(outcome matches OutcomeView::Responded { success, .. } && success) ==> next_step(
            HttpMethod::Delete,
            outcome,
        ) == next_step(HttpMethod::Get, outcome),
{
}

/// How a tool uses the compartment of a call.
pub enum CompartmentUse {
    /// It lists in the compartment: the URL's query names it.
    InQuery,
    /// It creates a resource in the compartment: the body names it.
    InBody,
    /// It does not depend on the compartment.
    Unused,
}

/// How each tool uses the compartment, in the catalogue's order.
pub open spec fn compartment_use(name: Seq<char>) -> CompartmentUse {
    if name == "oci_compute_list_instances"@ {
        CompartmentUse::InQuery
    } else if name == "oci_compute_get_instance"@ {
        CompartmentUse::Unused
    } else if name == "oci_compute_list_shapes"@ {
        CompartmentUse::InQuery
    } else if name == "oci_compute_instance_action"@ {
        CompartmentUse::Unused
    } else if name == "oci_os_get_namespace"@ {
        CompartmentUse::Unused
    } else if name == "oci_os_list_buckets"@ {
        CompartmentUse::InQuery
    } else if name == "oci_os_create_bucket"@ {
        CompartmentUse::InBody
    } else if name == "oci_os_list_objects"@ {
        CompartmentUse::Unused
    } else if name == "oci_os_delete_bucket"@ {
        CompartmentUse::Unused
    } else if name == "oci_bv_list_volumes"@ {
        CompartmentUse::InQuery
    } else if name == "oci_bv_list_boot_volumes"@ {
        CompartmentUse::InQuery
    } else if name == "oci_vcn_list"@ {
        CompartmentUse::InQuery
    } else if name == "oci_subnet_list"@ {
        CompartmentUse::InQuery
    } else if name == "oci_vcn_create"@ {
        CompartmentUse::InBody
    } else if name == "oci_adb_list"@ {
        CompartmentUse::InQuery
    } else if name == "oci_adb_get"@ {
        CompartmentUse::Unused
    } else if name == "oci_adb_start"@ {
        CompartmentUse::Unused
    } else if name == "oci_adb_stop"@ {
        CompartmentUse::Unused
    } else if name == "oci_iam_list_users"@ {
        CompartmentUse::InQuery
    } else if name == "oci_iam_list_groups"@ {
        CompartmentUse::InQuery
    } else if name == "oci_iam_list_policies"@ {
        CompartmentUse::InQuery
    } else if name == "oci_iam_list_compartments"@ {
        CompartmentUse::InQuery
    } else if name == "oci_iam_list_availability_domains"@ {
        CompartmentUse::InQuery
    } else {
        CompartmentUse::Unused
    }
}

/// The tenancy is only the default compartment: a call that names its
/// compartment makes the same request whatever the client's tenancy.
pub proof fn law_named_compartment_ignores_tenancy(
    region: Seq<char>,
    tenancy: Seq<char>,
    other_tenancy: Seq<char>,
    name: Seq<char>,
    args: Map<Seq<char>, ArgView>,
)
    requires
        str_of(member(args, "compartment_id"@)) is Some,
    ensures
        tool_request_spec(region, tenancy, name, args) == tool_request_spec(
            region,
            other_tenancy,
            name,
            args,
        ),
{
    assert(compartment_of(tenancy, args) == compartment_of(other_tenancy, args));
}

/// Setting `compartment_id` leaves every other member that the tools read
/// as it was.
proof fn lemma_compartment_leaves_other_members(args: Map<Seq<char>, ArgView>, value: ArgView)
    ensures
        member(args.insert("compartment_id"@, value), "instance_id"@) == member(args, "instance_id"@),
        member(args.insert("compartment_id"@, value), "action"@) == member(args, "action"@),
        member(args.insert("compartment_id"@, value), "namespace"@) == member(args, "namespace"@),
        member(args.insert("compartment_id"@, value), "bucket_name"@) == member(args, "bucket_name"@),
        member(args.insert("compartment_id"@, value), "public_access"@) == member(args, "public_access"@),
        member(args.insert("compartment_id"@, value), "prefix"@) == member(args, "prefix"@),
        member(args.insert("compartment_id"@, value), "availability_domain"@) == member(args, "availability_domain"@),
        member(args.insert("compartment_id"@, value), "vcn_id"@) == member(args, "vcn_id"@),
        member(args.insert("compartment_id"@, value), "display_name"@) == member(args, "display_name"@),
        member(args.insert("compartment_id"@, value), "cidr_blocks"@) == member(args, "cidr_blocks"@),
        member(args.insert("compartment_id"@, value), "database_id"@) == member(args, "database_id"@),
        member(args.insert("compartment_id"@, value), "storage_tier"@) == member(args, "storage_tier"@),
        member(args.insert("compartment_id"@, value), "limit"@) == member(args, "limit"@),
{
    reveal_strlit("compartment_id");
    reveal_strlit("instance_id");
    assert("compartment_id"@.len() != "instance_id"@.len());
    reveal_strlit("action");
    assert("compartment_id"@.len() != "action"@.len());
    reveal_strlit("namespace");
    assert("compartment_id"@.len() != "namespace"@.len());
    reveal_strlit("bucket_name");
    assert("compartment_id"@.len() != "bucket_name"@.len());
    reveal_strlit("public_access");
    assert("compartment_id"@.len() != "public_access"@.len());
    reveal_strlit("prefix");
    assert("compartment_id"@.len() != "prefix"@.len());
    reveal_strlit("availability_domain");
    assert("compartment_id"@.len() != "availability_domain"@.len());
    reveal_strlit("vcn_id");
    assert("compartment_id"@.len() != "vcn_id"@.len());
    reveal_strlit("display_name");
    assert("compartment_id"@.len() != "display_name"@.len());
    reveal_strlit("cidr_blocks");
    assert("compartment_id"@.len() != "cidr_blocks"@.len());
    reveal_strlit("database_id");
    assert("compartment_id"@.len() != "database_id"@.len());
    reveal_strlit("storage_tier");
    assert("compartment_id"@.len() != "storage_tier"@.len());
    reveal_strlit("limit");
    assert("compartment_id"@.len() != "limit"@.len());
}

/// A call that names no compartment works in the tenancy: it makes the
/// same request as a call that names the tenancy as its compartment.
pub proof fn law_tenancy_is_the_default_compartment(
    region: Seq<char>,
    tenancy: Seq<char>,
    name: Seq<char>,
    args: Map<Seq<char>, ArgView>,
)
    requires
        str_of(member(args, "compartment_id"@)) is None,
    ensures
        tool_request_spec(region, tenancy, name, args) == tool_request_spec(
            region,
            tenancy,
            name,
            args.insert("compartment_id"@, ArgView::Str(tenancy)),
        ),
{
    lemma_compartment_leaves_other_members(args, ArgView::Str(tenancy));
    let given = args.insert("compartment_id"@, ArgView::Str(tenancy));
    assert(compartment_of(tenancy, given) == tenancy);
    assert(compartment_of(tenancy, args) == tenancy);
    // the branches follow the catalogue's order, so each one fixes the tool
    if name == "oci_compute_list_instances"@ {
    } else if name == "oci_compute_get_instance"@ {
    } else if name == "oci_compute_list_shapes"@ {
    } else if name == "oci_compute_instance_action"@ {
    } else if name == "oci_os_get_namespace"@ {
    } else if name == "oci_os_list_buckets"@ {
    } else if name == "oci_os_create_bucket"@ {
    } else if name == "oci_os_list_objects"@ {
    } else if name == "oci_os_delete_bucket"@ {
    } else if name == "oci_bv_list_volumes"@ {
    } else if name == "oci_bv_list_boot_volumes"@ {
    } else if name == "oci_vcn_list"@ {
    } else if name == "oci_subnet_list"@ {
    } else if name == "oci_vcn_create"@ {
    } else if name == "oci_adb_list"@ {
    } else if name == "oci_adb_get"@ {
    } else if name == "oci_adb_start"@ {
    } else if name == "oci_adb_stop"@ {
    } else if name == "oci_iam_list_users"@ {
    } else if name == "oci_iam_list_groups"@ {
    } else if name == "oci_iam_list_policies"@ {
    } else if name == "oci_iam_list_compartments"@ {
    } else if name == "oci_iam_list_availability_domains"@ {
    }
}

/// The query of a URL names the compartment `c`: `?compartmentId=c`,
/// followed by the end of the URL or by further parameters.
pub open spec fn query_names(url: Seq<char>, c: Seq<char>) -> bool {
    exists|pre: Seq<char>, post: Seq<char>|
        url == pre + "?compartmentId="@ + c + post && (post.len() == 0 || post[0] == '&')
}

/// Each tool uses the compartment of the call as the catalogue says: a
/// listing names it in the URL's query, a creation puts it in the body as
/// `compartmentId`, and any other tool makes the same request whatever
/// `compartment_id` the call gives. The compartment is the
/// `compartment_id` argument where that is a string, else the tenancy.
#[verifier::rlimit(100)]
#[verifier::spinoff_prover]
pub proof fn law_tools_use_the_named_compartment(
    region: Seq<char>,
    tenancy: Seq<char>,
    name: Seq<char>,
    args: Map<Seq<char>, ArgView>,
    other: ArgView,
)
    ensures
        match compartment_use(name) {
            CompartmentUse::InQuery => tool_request_spec(region, tenancy, name, args) matches Some(
                req,
            ) && query_names(req.url, compartment_of(tenancy, args)),
            CompartmentUse::InBody => tool_request_spec(region, tenancy, name, args) matches Some(
                req,
            ) && req.body matches Some(b) && b.contains(
                ("compartmentId"@, ArgView::Str(compartment_of(tenancy, args))),
            ),
            CompartmentUse::Unused => tool_request_spec(region, tenancy, name, args)
                == tool_request_spec(region, tenancy, name, args.insert("compartment_id"@, other)),
        },
{
    reveal_strlit("&limit=");
    reveal_strlit("&availabilityDomain=");
    reveal_strlit("&vcnId=");
    reveal_strlit("/bootVolumes?compartmentId=");
    reveal_strlit("/bootVolumes");
    reveal_strlit("?compartmentId=");
    reveal_strlit("/subnets?compartmentId=");
    reveal_strlit("/subnets");
    reveal_strlit("/availabilityDomains?compartmentId=");
    reveal_strlit("/availabilityDomains");
    reveal_strlit("&accessLevel=ANY&compartmentIdInSubtree=true");
    lemma_compartment_leaves_other_members(args, other);
    let cid = compartment_of(tenancy, args);
    let iaas = service_url("iaas"@, region);
    let os = object_storage_url(region);
    let adb = databases_url(region);
    let iam = service_url("identity"@, region);
    let ns = text_or(args, "namespace"@, ""@);
    let req = tool_request_spec(region, tenancy, name, args).unwrap();
    if name == "oci_compute_list_instances"@ {
        let pre = iaas + "/instances"@;
        let post = "&limit="@ + decimal(limit_of(args, 50) as nat);
        assert(req.url =~= pre + "?compartmentId="@ + cid + post);
        assert(post[0] == '&');
        assert(query_names(req.url, cid));
    } else if name == "oci_compute_get_instance"@ {
    } else if name == "oci_compute_list_shapes"@ {
        let pre = iaas + "/shapes"@;
        let post = "&limit="@ + decimal(limit_of(args, 100) as nat);
        assert(req.url =~= pre + "?compartmentId="@ + cid + post);
        assert(post[0] == '&');
        assert(query_names(req.url, cid));
    } else if name == "oci_compute_instance_action"@ {
    } else if name == "oci_os_get_namespace"@ {
    } else if name == "oci_os_list_buckets"@ {
        let pre = os + ns + "/b"@;
        let post = "&limit="@ + decimal(limit_of(args, 100) as nat);
        assert(req.url =~= pre + "?compartmentId="@ + cid + post);
        assert(post[0] == '&');
        assert(query_names(req.url, cid));
    } else if name == "oci_os_create_bucket"@ {
        assert(req.body.unwrap()[1] == ("compartmentId"@, ArgView::Str(cid)));
    } else if name == "oci_os_list_objects"@ {
    } else if name == "oci_os_delete_bucket"@ {
    } else if name == "oci_bv_list_volumes"@ {
        let pre = iaas + "/volumes"@;
        let post = "&limit="@ + decimal(limit_of(args, 50) as nat);
        assert(req.url =~= pre + "?compartmentId="@ + cid + post);
        assert(post[0] == '&');
        assert(query_names(req.url, cid));
    } else if name == "oci_bv_list_boot_volumes"@ {
        let pre = iaas + "/bootVolumes"@;
        let post = "&availabilityDomain="@ + text_or(args, "availability_domain"@, ""@) + "&limit="@
            + decimal(limit_of(args, 50) as nat);
        assert("/bootVolumes?compartmentId="@ =~= "/bootVolumes"@ + "?compartmentId="@);
        assert(req.url =~= pre + "?compartmentId="@ + cid + post);
        assert(post[0] == '&');
        assert(query_names(req.url, cid));
    } else if name == "oci_vcn_list"@ {
        let pre = iaas + "/vcns"@;
        let post = "&limit="@ + decimal(limit_of(args, 50) as nat);
        assert(req.url =~= pre + "?compartmentId="@ + cid + post);
        assert(post[0] == '&');
        assert(query_names(req.url, cid));
    } else if name == "oci_subnet_list"@ {
        let pre = iaas + "/subnets"@;
        let post = "&vcnId="@ + text_or(args, "vcn_id"@, ""@) + "&limit="@ + decimal(
            limit_of(args, 50) as nat,
        );
        assert("/subnets?compartmentId="@ =~= "/subnets"@ + "?compartmentId="@);
        assert(req.url =~= pre + "?compartmentId="@ + cid + post);
        assert(post[0] == '&');
        assert(query_names(req.url, cid));
    } else if name == "oci_vcn_create"@ {
        assert(req.body.unwrap()[0] == ("compartmentId"@, ArgView::Str(cid)));
    } else if name == "oci_adb_list"@ {
        let pre = adb;
        let post = "&limit="@ + decimal(limit_of(args, 50) as nat);
        assert(req.url =~= pre + "?compartmentId="@ + cid + post);
        assert(post[0] == '&');
        assert(query_names(req.url, cid));
    } else if name == "oci_adb_get"@ {
    } else if name == "oci_adb_start"@ {
    } else if name == "oci_adb_stop"@ {
    } else if name == "oci_iam_list_users"@ {
        let pre = iam + "/users"@;
        let post = "&limit="@ + decimal(limit_of(args, 100) as nat);
        assert(req.url =~= pre + "?compartmentId="@ + cid + post);
        assert(post[0] == '&');
        assert(query_names(req.url, cid));
    } else if name == "oci_iam_list_groups"@ {
        let pre = iam + "/groups"@;
        let post = "&limit="@ + decimal(limit_of(args, 100) as nat);
        assert(req.url =~= pre + "?compartmentId="@ + cid + post);
        assert(post[0] == '&');
        assert(query_names(req.url, cid));
    } else if name == "oci_iam_list_policies"@ {
        let pre = iam + "/policies"@;
        let post = "&limit="@ + decimal(limit_of(args, 100) as nat);
        assert(req.url =~= pre + "?compartmentId="@ + cid + post);
        assert(post[0] == '&');
        assert(query_names(req.url, cid));
    } else if name == "oci_iam_list_compartments"@ {
        let pre = iam + "/compartments"@;
        let post = "&limit="@ + decimal(limit_of(args, 100) as nat) + "&accessLevel=ANY&compartmentIdInSubtree=true"@;
        assert(req.url =~= pre + "?compartmentId="@ + cid + post);
        assert(post[0] == '&');
        assert(query_names(req.url, cid));
    } else if name == "oci_iam_list_availability_domains"@ {
        let pre = iam + "/availabilityDomains"@;
        let post = Seq::<char>::empty();
        assert("/availabilityDomains?compartmentId="@ =~= "/availabilityDomains"@ + "?compartmentId="@);
        assert(req.url =~= pre + "?compartmentId="@ + cid + post);
        assert(query_names(req.url, cid));
    }
}

proof fn lemma_join_push(items: Seq<Seq<char>>, x: Seq<char>)
    ensures
        join(items.push(x)) == if items.len() == 0 {
            x
        } else {
            join(items) + ","@ + x
        },
{
    assert(items.push(x).drop_last() =~= items);
}

/// A JSON array of strings lists the strings in order: the empty list is
/// `[]`, and one more string adds `,` and that string before the `]`.
pub proof fn law_string_array_lists_items(items: Seq<Seq<char>>, x: Seq<char>)
    ensures
        string_array(Seq::empty()) == "[]"@,
        string_array(items.push(x)) == if items.len() == 0 {
            "["@ + json_string(x) + "]"@
        } else {
            string_array(items).drop_last() + ","@ + json_string(x) + "]"@
        },
{
    reveal_strlit("[]");
    reveal_strlit("[");
    reveal_strlit("]");
    let f = |s: Seq<char>| json_string(s);
    assert(Seq::<Seq<char>>::empty().map_values(f) =~= Seq::empty());
    assert("["@ + Seq::<char>::empty() + "]"@ =~= "[]"@);
    assert(items.push(x).map_values(f) =~= items.map_values(f).push(json_string(x)));
    lemma_join_push(items.map_values(f), json_string(x));
    if items.len() == 0 {
        assert(items.map_values(f) =~= Seq::empty());
        assert(join(Seq::<Seq<char>>::empty().push(json_string(x))) == json_string(x));
    } else {
        let j = join(items.map_values(f));
        assert(("["@ + j + "]"@).drop_last() =~= "["@ + j);
        assert("["@ + (j + ","@ + json_string(x)) + "]"@ =~= "["@ + j + ","@ + json_string(x) + "]"@);
    }
}

/// The `properties` object lists the parameters in order: one more
/// parameter adds `,` and its member before the `}`.
pub proof fn law_properties_list_params(params: Seq<ParamDefView>, p: ParamDefView)
    ensures
        properties_json(Seq::empty()) == "{}"@,
        properties_json(params.push(p)) == if params.len() == 0 {
            "{"@ + property_json(p) + "}"@
        } else {
            properties_json(params).drop_last() + ","@ + property_json(p) + "}"@
        },
{
    reveal_strlit("{}");
    reveal_strlit("{");
    reveal_strlit("}");
    let f = |q: ParamDefView| property_json(q);
    assert(Seq::<ParamDefView>::empty().map_values(f) =~= Seq::empty());
    assert("{"@ + Seq::<char>::empty() + "}"@ =~= "{}"@);
    assert(params.push(p).map_values(f) =~= params.map_values(f).push(property_json(p)));
    lemma_join_push(params.map_values(f), property_json(p));
    if params.len() == 0 {
        assert(params.map_values(f) =~= Seq::empty());
        assert(join(Seq::<Seq<char>>::empty().push(property_json(p))) == property_json(p));
    } else {
        let j = join(params.map_values(f));
        assert(("{"@ + j + "}"@).drop_last() =~= "{"@ + j);
        assert("{"@ + (j + ","@ + property_json(p)) + "}"@ =~= "{"@ + j + ","@ + property_json(p) + "}"@);
    }
}

/// The catalogue lists the tools in order: one more tool adds `,` and its
/// object before the `]`.
pub proof fn law_catalogue_lists_tools(defs: Seq<ToolDefView>, d: ToolDefView)
    ensures
        catalogue_json_spec(Seq::empty()) == "[]"@,
        catalogue_json_spec(defs.push(d)) == if defs.len() == 0 {
            "["@ + tool_json_spec(d) + "]"@
        } else {
            catalogue_json_spec(defs).drop_last() + ","@ + tool_json_spec(d) + "]"@
        },
{
    reveal_strlit("[]");
    reveal_strlit("[");
    reveal_strlit("]");
    let f = |t: ToolDefView| tool_json_spec(t);
    assert(Seq::<ToolDefView>::empty().map_values(f) =~= Seq::empty());
    assert("["@ + Seq::<char>::empty() + "]"@ =~= "[]"@);
    assert(defs.push(d).map_values(f) =~= defs.map_values(f).push(tool_json_spec(d)));
    lemma_join_push(defs.map_values(f), tool_json_spec(d));
    if defs.len() == 0 {
        assert(defs.map_values(f) =~= Seq::empty());
        assert(join(Seq::<Seq<char>>::empty().push(tool_json_spec(d))) == tool_json_spec(d));
    } else {
        let j = join(defs.map_values(f));
        assert(("["@ + j + "]"@).drop_last() =~= "["@ + j);
        assert("["@ + (j + ","@ + tool_json_spec(d)) + "]"@ =~= "["@ + j + ","@ + tool_json_spec(d) + "]"@);
    }
}

/// A tool's JSON object starts with its name, description and the
/// properties of its parameters, and ends by listing exactly its required
/// parameters, or, where it has none, right after the properties.
pub proof fn law_tool_json_has_its_parts(d: ToolDefView)
    ensures
        exists|tail: Seq<char>|
            tool_json_spec(d) == "{\"name\":"@ + json_string(d.name) + ",\"description\":"@
                + json_string(d.description)
                + ",\"inputSchema\":{\"type\":\"object\",\"properties\":"@ + properties_json(
                d.params,
            ) + tail,
        d.required.len() > 0 ==> exists|head: Seq<char>|
            tool_json_spec(d) == head + ",\"required\":"@ + string_array(d.required) + "}}"@,
        d.required.len() == 0 ==> exists|head: Seq<char>|
            tool_json_spec(d) == head + properties_json(d.params) + "}}"@,
{
    let start = "{\"name\":"@ + json_string(d.name) + ",\"description\":"@ + json_string(
        d.description,
    ) + ",\"inputSchema\":{\"type\":\"object\",\"properties\":"@;
    let head = start + properties_json(d.params);
    if d.required.len() == 0 {
        assert(tool_json_spec(d) == head + "}}"@);
        assert(tool_json_spec(d) =~= start + properties_json(d.params) + "}}"@);
    } else {
        let tail = ",\"required\":"@ + string_array(d.required) + "}}"@;
        assert(tool_json_spec(d) =~= head + tail);
    }
}

/// Escaping works character by character: the escape of two texts one
/// after the other is their escapes one after the other, and a text
/// without quotes, backslashes or control characters stays as it is.
pub proof fn law_escape_by_characters(s: Seq<char>, t: Seq<char>)
    ensures
        escape(s + t) == escape(s) + escape(t),
        (forall|i: int| 0 <= i < s.len() ==> #[trigger] s[i] != '"' && s[i] != '\\' && (s[i] as nat)
            >= 0x20) ==> escape(s) == s,
    decreases t.len(),
{
    if t.len() > 0 {
        law_escape_by_characters(s, t.drop_last());
        assert((s + t).drop_last() =~= s + t.drop_last());
        assert((s + t).last() == t.last());
    } else {
        assert(s + t =~= s);
        assert(escape(t) =~= Seq::<char>::empty());
    }
    lemma_escape_plain(s);
}

proof fn lemma_escape_plain(s: Seq<char>)
    ensures
        (forall|i: int| 0 <= i < s.len() ==> #[trigger] s[i] != '"' && s[i] != '\\' && (s[i] as nat)
            >= 0x20) ==> escape(s) == s,
    decreases s.len(),
{
    if s.len() > 0 {
        lemma_escape_plain(s.drop_last());
        if forall|i: int| 0 <= i < s.len() ==> #[trigger] s[i] != '"' && s[i] != '\\' && (s[i] as nat)
            >= 0x20 {
            assert(s.drop_last() + seq![s.last()] =~= s);
            assert(s[s.len() - 1] == s.last());
        }
    }
}

/// The compartment of a call is the string it gives as `compartment_id`;
/// a call that gives none, or gives a value that is no string, works in
/// the tenancy.
pub proof fn law_compartment_is_the_argument(
    tenancy: Seq<char>,
    args: Map<Seq<char>, ArgView>,
    c: Seq<char>,
    other: ArgView,
)
    ensures
        compartment_of(tenancy, args.insert("compartment_id"@, ArgView::Str(c))) == c,
        !(other is Str) ==> compartment_of(tenancy, args.insert("compartment_id"@, other)) == tenancy,
        compartment_of(tenancy, args.remove("compartment_id"@)) == tenancy,
{
}

} // verus!
