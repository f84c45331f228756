//! The catalogue of tools that the server offers, with the input schema of
//! each.

use vstd::prelude::*;
use crate::text::text_eq;

verus! {

/// The type of a tool parameter, as its input schema declares it.
#[derive(Debug, PartialEq, Eq)]
pub enum ParamKind {
    /// A string.
    Text,
    /// A number, with the default that applies where it is left out.
    Number(u64),
    /// A string, with the default that applies where it is left out.
    TextDefault(String),
    /// A string from a fixed list.
    TextChoice(Vec<String>),
    /// A string from a fixed list, with the default that applies where it
    /// is left out.
    TextChoiceDefault(Vec<String>, String),
    /// An array of strings.
    TextList,
}

/// The mathematical value of a [`ParamKind`].
pub enum ParamKindView {
    Text,
    Number(u64),
    TextDefault(Seq<char>),
    TextChoice(Seq<Seq<char>>),
    TextChoiceDefault(Seq<Seq<char>>, Seq<char>),
    TextList,
}

/// A list of strings, by value.
pub open spec fn texts_view(v: Seq<String>) -> Seq<Seq<char>> {
    v.map_values(|s: String| s@)
}

impl View for ParamKind {
    type V = ParamKindView;

    open spec fn view(&self) -> ParamKindView {
        match self {
            ParamKind::Text => ParamKindView::Text,
            ParamKind::Number(d) => ParamKindView::Number(*d),
            ParamKind::TextDefault(s) => ParamKindView::TextDefault(s@),
            ParamKind::TextChoice(v) => ParamKindView::TextChoice(texts_view(v@)),
            ParamKind::TextChoiceDefault(v, d) => ParamKindView::TextChoiceDefault(
                texts_view(v@),
                d@,
            ),
            ParamKind::TextList => ParamKindView::TextList,
        }
    }
}

/// A parameter of a tool: its name and type.
#[derive(Debug, PartialEq, Eq)]
pub struct ParamDef {
    pub name: String,
    pub kind: ParamKind,
}

/// The mathematical value of a [`ParamDef`].
pub struct ParamDefView {
    pub name: Seq<char>,
    pub kind: ParamKindView,
}

impl View for ParamDef {
    type V = ParamDefView;

    open spec fn view(&self) -> ParamDefView {
        ParamDefView { name: self.name@, kind: self.kind@ }
    }
}

/// A list of parameters, by value.
pub open spec fn params_view(v: Seq<ParamDef>) -> Seq<ParamDefView> {
    v.map_values(|p: ParamDef| p@)
}

/// A tool as the server describes it: name, description, parameters and
/// the names of the parameters a call must give.
#[derive(Debug, PartialEq, Eq)]
pub struct ToolDef {
    pub name: String,
    pub description: String,
    pub params: Vec<ParamDef>,
    pub required: Vec<String>,
}

/// The mathematical value of a [`ToolDef`].
pub struct ToolDefView {
    pub name: Seq<char>,
    pub description: Seq<char>,
    pub params: Seq<ParamDefView>,
    pub required: Seq<Seq<char>>,
}

impl View for ToolDef {
    type V = ToolDefView;

    open spec fn view(&self) -> ToolDefView {
        ToolDefView {
            name: self.name@,
            description: self.description@,
            params: params_view(self.params@),
            required: texts_view(self.required@),
        }
    }
}

/// A tool description from its parts.
pub open spec fn tool_def_spec(
    name: Seq<char>,
    description: Seq<char>,
    params: Seq<ParamDefView>,
    required: Seq<Seq<char>>,
) -> ToolDefView {
    ToolDefView { name, description, params, required }
}

/// A string parameter.
pub open spec fn text_param_spec(name: Seq<char>) -> ParamDefView {
    ParamDefView { name, kind: ParamKindView::Text }
}

/// A number parameter with its default.
pub open spec fn number_param_spec(name: Seq<char>, default: u64) -> ParamDefView {
    ParamDefView { name, kind: ParamKindView::Number(default) }
}

/// A string parameter restricted to `choices`.
pub open spec fn choice_param_spec(name: Seq<char>, choices: Seq<Seq<char>>) -> ParamDefView {
    ParamDefView { name, kind: ParamKindView::TextChoice(choices) }
}

/// The storage tiers a bucket can be created in.
pub open spec fn storage_tiers_spec() -> Seq<Seq<char>> {
    seq!["Standard"@, "Archive"@]
}

/// The actions an instance takes.
pub open spec fn action_choices_spec() -> Seq<Seq<char>> {
    seq!["START"@, "STOP"@, "RESET"@, "SOFTSTOP"@, "SOFTRESET"@]
}

/// The names of the tools, in the order in which the server lists them.
pub open spec fn tool_names() -> Seq<Seq<char>> {
    seq![
        "oci_compute_list_instances"@,
        "oci_compute_get_instance"@,
        "oci_compute_list_shapes"@,
        "oci_compute_instance_action"@,
        "oci_os_get_namespace"@,
        "oci_os_list_buckets"@,
        "oci_os_create_bucket"@,
        "oci_os_list_objects"@,
        "oci_os_delete_bucket"@,
        "oci_bv_list_volumes"@,
        "oci_bv_list_boot_volumes"@,
        "oci_vcn_list"@,
        "oci_subnet_list"@,
        "oci_vcn_create"@,
        "oci_adb_list"@,
        "oci_adb_get"@,
        "oci_adb_start"@,
        "oci_adb_stop"@,
        "oci_iam_list_users"@,
        "oci_iam_list_groups"@,
        "oci_iam_list_policies"@,
        "oci_iam_list_compartments"@,
        "oci_iam_list_availability_domains"@,
    ]
}

/// The description of the tool `name`; `None` where no tool has that name.
pub open spec fn tool_schema_spec(name: Seq<char>) -> Option<ToolDefView> {
    if name == "oci_compute_list_instances"@ {
        Some(tool_def_spec(
            "oci_compute_list_instances"@,
            "List compute instances in a compartment"@,
            seq![text_param_spec("compartment_id"@), number_param_spec("limit"@, 50)],
            seq![],
        ))
    } else if name == "oci_compute_get_instance"@ {
        Some(tool_def_spec(
            "oci_compute_get_instance"@,
            "Get details of a compute instance"@,
            seq![text_param_spec("instance_id"@)],
            seq!["instance_id"@],
        ))
    } else if name == "oci_compute_list_shapes"@ {
        Some(tool_def_spec(
            "oci_compute_list_shapes"@,
            "List available compute shapes"@,
            seq![text_param_spec("compartment_id"@), number_param_spec("limit"@, 100)],
            seq![],
        ))
    } else if name == "oci_compute_instance_action"@ {
        Some(tool_def_spec(
            "oci_compute_instance_action"@,
            "Perform action on instance (START/STOP/RESET/SOFTSTOP/SOFTRESET)"@,
            seq![text_param_spec("instance_id"@), choice_param_spec("action"@, action_choices_spec())],
            seq!["instance_id"@, "action"@],
        ))
    } else if name == "oci_os_get_namespace"@ {
        Some(tool_def_spec(
            "oci_os_get_namespace"@,
            "Get Object Storage namespace"@,
            seq![text_param_spec("compartment_id"@)],
            seq![],
        ))
    } else if name == "oci_os_list_buckets"@ {
        Some(tool_def_spec(
            "oci_os_list_buckets"@,
            "List Object Storage buckets"@,
            seq![text_param_spec("compartment_id"@), text_param_spec("namespace"@), number_param_spec("limit"@, 100)],
            seq![],
        ))
    } else if name == "oci_os_create_bucket"@ {
        Some(tool_def_spec(
            "oci_os_create_bucket"@,
            "Create an Object Storage bucket"@,
            seq![text_param_spec("bucket_name"@), text_param_spec("namespace"@), text_param_spec("compartment_id"@), ParamDefView { name: "public_access"@, kind: ParamKindView::TextDefault("NoPublicAccess"@) }, ParamDefView { name: "storage_tier"@, kind: ParamKindView::TextChoiceDefault(storage_tiers_spec(), "Standard"@) }],
            seq!["bucket_name"@, "namespace"@],
        ))
    } else if name == "oci_os_list_objects"@ {
        Some(tool_def_spec(
            "oci_os_list_objects"@,
            "List objects in a bucket"@,
            seq![text_param_spec("bucket_name"@), text_param_spec("namespace"@), text_param_spec("prefix"@), number_param_spec("limit"@, 100)],
            seq!["bucket_name"@, "namespace"@],
        ))
    } else if name == "oci_os_delete_bucket"@ {
        Some(tool_def_spec(
            "oci_os_delete_bucket"@,
            "Delete an empty bucket"@,
            seq![text_param_spec("bucket_name"@), text_param_spec("namespace"@)],
            seq!["bucket_name"@, "namespace"@],
        ))
    } else if name == "oci_bv_list_volumes"@ {
        Some(tool_def_spec(
            "oci_bv_list_volumes"@,
            "List block volumes"@,
            seq![text_param_spec("compartment_id"@), number_param_spec("limit"@, 50)],
            seq![],
        ))
    } else if name == "oci_bv_list_boot_volumes"@ {
        Some(tool_def_spec(
            "oci_bv_list_boot_volumes"@,
            "List boot volumes"@,
            seq![text_param_spec("compartment_id"@), text_param_spec("availability_domain"@), number_param_spec("limit"@, 50)],
            seq![],
        ))
    } else if name == "oci_vcn_list"@ {
        Some(tool_def_spec(
            "oci_vcn_list"@,
            "List Virtual Cloud Networks"@,
            seq![text_param_spec("compartment_id"@), number_param_spec("limit"@, 50)],
            seq![],
        ))
    } else if name == "oci_subnet_list"@ {
        Some(tool_def_spec(
            "oci_subnet_list"@,
            "List subnets in a VCN"@,
            seq![text_param_spec("vcn_id"@), text_param_spec("compartment_id"@), number_param_spec("limit"@, 50)],
            seq!["vcn_id"@],
        ))
    } else if name == "oci_vcn_create"@ {
        Some(tool_def_spec(
            "oci_vcn_create"@,
            "Create a VCN"@,
            seq![text_param_spec("display_name"@), ParamDefView { name: "cidr_blocks"@, kind: ParamKindView::TextList }, text_param_spec("compartment_id"@)],
            seq!["display_name"@],
        ))
    } else if name == "oci_adb_list"@ {
        Some(tool_def_spec(
            "oci_adb_list"@,
            "List Autonomous Databases"@,
            seq![text_param_spec("compartment_id"@), number_param_spec("limit"@, 50)],
            seq![],
        ))
    } else if name == "oci_adb_get"@ {
        Some(tool_def_spec(
            "oci_adb_get"@,
            "Get Autonomous Database details"@,
            seq![text_param_spec("database_id"@)],
            seq!["database_id"@],
        ))
    } else if name == "oci_adb_start"@ {
        Some(tool_def_spec(
            "oci_adb_start"@,
            "Start an Autonomous Database"@,
            seq![text_param_spec("database_id"@)],
            seq!["database_id"@],
        ))
    } else if name == "oci_adb_stop"@ {
        Some(tool_def_spec(
            "oci_adb_stop"@,
            "Stop an Autonomous Database"@,
            seq![text_param_spec("database_id"@)],
            seq!["database_id"@],
        ))
    } else if name == "oci_iam_list_users"@ {
        Some(tool_def_spec(
            "oci_iam_list_users"@,
            "List IAM users"@,
            seq![text_param_spec("compartment_id"@), number_param_spec("limit"@, 100)],
            seq![],
        ))
    } else if name == "oci_iam_list_groups"@ {
        Some(tool_def_spec(
            "oci_iam_list_groups"@,
            "List IAM groups"@,
            seq![text_param_spec("compartment_id"@), number_param_spec("limit"@, 100)],
            seq![],
        ))
    } else if name == "oci_iam_list_policies"@ {
        Some(tool_def_spec(
            "oci_iam_list_policies"@,
            "List IAM policies"@,
            seq![text_param_spec("compartment_id"@), number_param_spec("limit"@, 100)],
            seq![],
        ))
    } else if name == "oci_iam_list_compartments"@ {
        Some(tool_def_spec(
            "oci_iam_list_compartments"@,
            "List compartments"@,
            seq![text_param_spec("compartment_id"@), number_param_spec("limit"@, 100)],
            seq![],
        ))
    } else if name == "oci_iam_list_availability_domains"@ {
        Some(tool_def_spec(
            "oci_iam_list_availability_domains"@,
            "List availability domains"@,
            seq![text_param_spec("compartment_id"@)],
            seq![],
        ))
    } else {
        None
    }
}

fn text_param(name: &str) -> (r: ParamDef)
    ensures
        r@ == text_param_spec(name@),
{
    ParamDef { name: String::from_str(name), kind: ParamKind::Text }
}

fn number_param(name: &str, default: u64) -> (r: ParamDef)
    ensures
        r@ == number_param_spec(name@, default),
{
    ParamDef { name: String::from_str(name), kind: ParamKind::Number(default) }
}

fn choice_param(name: &str, choices: Vec<String>) -> (r: ParamDef)
    ensures
        r@ == choice_param_spec(name@, texts_view(choices@)),
{
    ParamDef { name: String::from_str(name), kind: ParamKind::TextChoice(choices) }
}

fn action_choices() -> (r: Vec<String>)
    ensures
        texts_view(r@) == action_choices_spec(),
{
    let mut r: Vec<String> = Vec::new();
    r.push(String::from_str("START"));
    r.push(String::from_str("STOP"));
    r.push(String::from_str("RESET"));
    r.push(String::from_str("SOFTSTOP"));
    r.push(String::from_str("SOFTRESET"));
    assert(texts_view(r@) =~= action_choices_spec());
    r
}

fn params1(a: ParamDef) -> (r: Vec<ParamDef>)
    ensures
        params_view(r@) == seq![a@],
{
    let ghost va = a@;
    let mut r: Vec<ParamDef> = Vec::new();
    r.push(a);
    assert(params_view(r@) =~= seq![va]);
    r
}

fn params2(a: ParamDef, b: ParamDef) -> (r: Vec<ParamDef>)
    ensures
        params_view(r@) == seq![a@, b@],
{
    let ghost (va, vb) = (a@, b@);
    let mut r: Vec<ParamDef> = Vec::new();
    r.push(a);
    r.push(b);
    assert(params_view(r@) =~= seq![va, vb]);
    r
}

fn params3(a: ParamDef, b: ParamDef, c: ParamDef) -> (r: Vec<ParamDef>)
    ensures
        params_view(r@) == seq![a@, b@, c@],
{
    let ghost (va, vb, vc) = (a@, b@, c@);
    let mut r: Vec<ParamDef> = Vec::new();
    r.push(a);
    r.push(b);
    r.push(c);
    assert(params_view(r@) =~= seq![va, vb, vc]);
    r
}

fn params4(a: ParamDef, b: ParamDef, c: ParamDef, d: ParamDef) -> (r: Vec<ParamDef>)
    ensures
        params_view(r@) == seq![a@, b@, c@, d@],
{
    let ghost (va, vb, vc, vd) = (a@, b@, c@, d@);
    let mut r: Vec<ParamDef> = Vec::new();
    r.push(a);
    r.push(b);
    r.push(c);
    r.push(d);
    assert(params_view(r@) =~= seq![va, vb, vc, vd]);
    r
}

fn params5(a: ParamDef, b: ParamDef, c: ParamDef, d: ParamDef, e: ParamDef) -> (r: Vec<ParamDef>)
    ensures
        params_view(r@) == seq![a@, b@, c@, d@, e@],
{
    let ghost (va, vb, vc, vd, ve) = (a@, b@, c@, d@, e@);
    let mut r: Vec<ParamDef> = Vec::new();
    r.push(a);
    r.push(b);
    r.push(c);
    r.push(d);
    r.push(e);
    assert(params_view(r@) =~= seq![va, vb, vc, vd, ve]);
    r
}

fn storage_tiers() -> (r: Vec<String>)
    ensures
        texts_view(r@) == storage_tiers_spec(),
{
    let mut r: Vec<String> = Vec::new();
    r.push(String::from_str("Standard"));
    r.push(String::from_str("Archive"));
    assert(texts_view(r@) =~= storage_tiers_spec());
    r
}

fn names0() -> (r: Vec<String>)
    ensures
        texts_view(r@) == Seq::<Seq<char>>::empty(),
{
    let r: Vec<String> = Vec::new();
    assert(texts_view(r@) =~= Seq::<Seq<char>>::empty());
    r
}

fn names1(a: &str) -> (r: Vec<String>)
    ensures
        texts_view(r@) == seq![a@],
{
    let mut r: Vec<String> = Vec::new();
    r.push(String::from_str(a));
    assert(texts_view(r@) =~= seq![a@]);
    r
}

fn names2(a: &str, b: &str) -> (r: Vec<String>)
    ensures
        texts_view(r@) == seq![a@, b@],
{
    let mut r: Vec<String> = Vec::new();
    r.push(String::from_str(a));
    r.push(String::from_str(b));
    assert(texts_view(r@) =~= seq![a@, b@]);
    r
}

fn tool_def(name: &str, description: &str, params: Vec<ParamDef>, required: Vec<String>) -> (r: ToolDef)
    ensures
        r@ == tool_def_spec(name@, description@, params_view(params@), texts_view(required@)),
{
    ToolDef {
        name: String::from_str(name),
        description: String::from_str(description),
        params,
        required,
    }
}

/// The description of the tool `name`, or `None` where no tool has that
/// name.
#[verifier::rlimit(50)]
pub fn tool_schema(name: &str) -> (r: Option<ToolDef>)
    ensures
        match r {
            Some(d) => tool_schema_spec(name@) == Some(d@),
            None => tool_schema_spec(name@) is None,
        },
{
        if text_eq(name, "oci_compute_list_instances") {
            Some(tool_def(
                "oci_compute_list_instances",
                "List compute instances in a compartment",
                params2(text_param("compartment_id"), number_param("limit", 50)),
                names0(),
            ))
        } else if text_eq(name, "oci_compute_get_instance") {
            Some(tool_def(
                "oci_compute_get_instance",
                "Get details of a compute instance",
                params1(text_param("instance_id")),
                names1("instance_id"),
            ))
        } else if text_eq(name, "oci_compute_list_shapes") {
            Some(tool_def(
                "oci_compute_list_shapes",
                "List available compute shapes",
                params2(text_param("compartment_id"), number_param("limit", 100)),
                names0(),
            ))
        } else if text_eq(name, "oci_compute_instance_action") {
            Some(tool_def(
                "oci_compute_instance_action",
                "Perform action on instance (START/STOP/RESET/SOFTSTOP/SOFTRESET)",
                params2(text_param("instance_id"), choice_param("action", action_choices())),
                names2("instance_id", "action"),
            ))
        } else if text_eq(name, "oci_os_get_namespace") {
            Some(tool_def(
                "oci_os_get_namespace",
                "Get Object Storage namespace",
                params1(text_param("compartment_id")),
                names0(),
            ))
        } else if text_eq(name, "oci_os_list_buckets") {
            Some(tool_def(
                "oci_os_list_buckets",
                "List Object Storage buckets",
                params3(text_param("compartment_id"), text_param("namespace"), number_param("limit", 100)),
                names0(),
            ))
        } else if text_eq(name, "oci_os_create_bucket") {
            Some(tool_def(
                "oci_os_create_bucket",
                "Create an Object Storage bucket",
                params5(
                    text_param("bucket_name"),
                    text_param("namespace"),
                    text_param("compartment_id"),
                    ParamDef { name: String::from_str("public_access"), kind: ParamKind::TextDefault(String::from_str("NoPublicAccess")) },
                    ParamDef { name: String::from_str("storage_tier"), kind: ParamKind::TextChoiceDefault(storage_tiers(), String::from_str("Standard")) },
                ),
                names2("bucket_name", "namespace"),
            ))
        } else if text_eq(name, "oci_os_list_objects") {
            Some(tool_def(
                "oci_os_list_objects",
                "List objects in a bucket",
                params4(text_param("bucket_name"), text_param("namespace"), text_param("prefix"), number_param("limit", 100)),
                names2("bucket_name", "namespace"),
            ))
        } else if text_eq(name, "oci_os_delete_bucket") {
            Some(tool_def(
                "oci_os_delete_bucket",
                "Delete an empty bucket",
                params2(text_param("bucket_name"), text_param("namespace")),
                names2("bucket_name", "namespace"),
            ))
        } else if text_eq(name, "oci_bv_list_volumes") {
            Some(tool_def(
                "oci_bv_list_volumes",
                "List block volumes",
                params2(text_param("compartment_id"), number_param("limit", 50)),
                names0(),
            ))
        } else if text_eq(name, "oci_bv_list_boot_volumes") {
            Some(tool_def(
                "oci_bv_list_boot_volumes",
                "List boot volumes",
                params3(text_param("compartment_id"), text_param("availability_domain"), number_param("limit", 50)),
                names0(),
            ))
        } else if text_eq(name, "oci_vcn_list") {
            Some(tool_def(
                "oci_vcn_list",
                "List Virtual Cloud Networks",
                params2(text_param("compartment_id"), number_param("limit", 50)),
                names0(),
            ))
        } else if text_eq(name, "oci_subnet_list") {
            Some(tool_def(
                "oci_subnet_list",
                "List subnets in a VCN",
                params3(text_param("vcn_id"), text_param("compartment_id"), number_param("limit", 50)),
                names1("vcn_id"),
            ))
        } else if text_eq(name, "oci_vcn_create") {
            Some(tool_def(
                "oci_vcn_create",
                "Create a VCN",
                params3(text_param("display_name"), ParamDef { name: String::from_str("cidr_blocks"), kind: ParamKind::TextList }, text_param("compartment_id")),
                names1("display_name"),
            ))
        } else if text_eq(name, "oci_adb_list") {
            Some(tool_def(
                "oci_adb_list",
                "List Autonomous Databases",
                params2(text_param("compartment_id"), number_param("limit", 50)),
                names0(),
            ))
        } else if text_eq(name, "oci_adb_get") {
            Some(tool_def(
                "oci_adb_get",
                "Get Autonomous Database details",
                params1(text_param("database_id")),
                names1("database_id"),
            ))
        } else if text_eq(name, "oci_adb_start") {
            Some(tool_def(
                "oci_adb_start",
                "Start an Autonomous Database",
                params1(text_param("database_id")),
                names1("database_id"),
            ))
        } else if text_eq(name, "oci_adb_stop") {
            Some(tool_def(
                "oci_adb_stop",
                "Stop an Autonomous Database",
                params1(text_param("database_id")),
                names1("database_id"),
            ))
        } else if text_eq(name, "oci_iam_list_users") {
            Some(tool_def(
                "oci_iam_list_users",
                "List IAM users",
                params2(text_param("compartment_id"), number_param("limit", 100)),
                names0(),
            ))
        } else if text_eq(name, "oci_iam_list_groups") {
            Some(tool_def(
                "oci_iam_list_groups",
                "List IAM groups",
                params2(text_param("compartment_id"), number_param("limit", 100)),
                names0(),
            ))
        } else if text_eq(name, "oci_iam_list_policies") {
            Some(tool_def(
                "oci_iam_list_policies",
                "List IAM policies",
                params2(text_param("compartment_id"), number_param("limit", 100)),
                names0(),
            ))
        } else if text_eq(name, "oci_iam_list_compartments") {
            Some(tool_def(
                "oci_iam_list_compartments",
                "List compartments",
                params2(text_param("compartment_id"), number_param("limit", 100)),
                names0(),
            ))
        } else if text_eq(name, "oci_iam_list_availability_domains") {
            Some(tool_def(
                "oci_iam_list_availability_domains",
                "List availability domains",
                params1(text_param("compartment_id")),
                names0(),
            ))
        } else {
            None
        }
}

/// The names of the tools, in the order in which the server lists them.
pub fn tool_name_list() -> (r: Vec<&'static str>)
    ensures
        r@.map_values(|s: &str| s@) == tool_names(),
{
    let mut v: Vec<&'static str> = Vec::new();
    v.push("oci_compute_list_instances");
    v.push("oci_compute_get_instance");
    v.push("oci_compute_list_shapes");
    v.push("oci_compute_instance_action");
    v.push("oci_os_get_namespace");
    v.push("oci_os_list_buckets");
    v.push("oci_os_create_bucket");
    v.push("oci_os_list_objects");
    v.push("oci_os_delete_bucket");
    v.push("oci_bv_list_volumes");
    v.push("oci_bv_list_boot_volumes");
    v.push("oci_vcn_list");
    v.push("oci_subnet_list");
    v.push("oci_vcn_create");
    v.push("oci_adb_list");
    v.push("oci_adb_get");
    v.push("oci_adb_start");
    v.push("oci_adb_stop");
    v.push("oci_iam_list_users");
    v.push("oci_iam_list_groups");
    v.push("oci_iam_list_policies");
    v.push("oci_iam_list_compartments");
    v.push("oci_iam_list_availability_domains");
    assert(v@.map_values(|s: &str| s@) =~= tool_names());
    v
}

/// Every listed name has a description.
pub proof fn lemma_listed_tool_described(i: int)
    requires
        0 <= i < tool_names().len(),
    ensures
        tool_schema_spec(tool_names()[i]) is Some,
{
}

/// The descriptions of all tools, in the order of [`tool_names`].
pub fn tool_definitions() -> (r: Vec<ToolDef>)
    ensures
        r@.len() == tool_names().len(),
        forall|i: int|
            0 <= i < r@.len() ==> tool_schema_spec(tool_names()[i]) == Some(#[trigger] r@[i]@),
{
    let names = tool_name_list();
    let mut r: Vec<ToolDef> = Vec::new();
    let mut i: usize = 0;
    while i < names.len()
        invariant
            names@.map_values(|s: &str| s@) == tool_names(),
            i <= names@.len(),
            r@.len() == i,
            forall|j: int|
                0 <= j < i ==> tool_schema_spec(tool_names()[j]) == Some(#[trigger] r@[j]@),
        decreases names@.len() - i,
    {
        assert(names@[i as int]@ == tool_names()[i as int]);
        proof {
            lemma_listed_tool_described(i as int);
        }
        match tool_schema(names[i]) {
            Some(d) => r.push(d),
            None => {
                assert(false);
            },
        }
        i = i + 1;
    }
    r
}

} // verus!
