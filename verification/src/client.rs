//! The settings of an OCI client and the pieces of URL that depend on them.

use vstd::prelude::*;
use crate::args::{member, str_of, ToolArgs};

verus! {

/// The region used where none is configured.
pub open spec fn default_region() -> Seq<char> {
    "us-chicago-1"@
}

/// The root URL of an OCI service in a region.
pub open spec fn service_url(service: Seq<char>, region: Seq<char>) -> Seq<char> {
    "https://"@ + service + "."@ + region + ".oraclecloud.com/20160918"@
}

/// The compartment a call works in: the `compartment_id` argument where it
/// is a string, the tenancy otherwise.
pub open spec fn compartment_of(tenancy: Seq<char>, args: Map<Seq<char>, crate::args::ArgView>) -> Seq<char> {
    match str_of(member(args, "compartment_id"@)) {
        Some(c) => c,
        None => tenancy,
    }
}

/// What a client needs to address OCI: its bearer token, its region and
/// the OCID of its tenancy.
pub struct OciClient {
    pub auth_token: String,
    pub region: String,
    pub tenancy_ocid: String,
}

impl OciClient {
    /// A client from the configured values (each `None` where it is not
    /// set): a missing token or tenancy is empty, a missing region is
    /// `us-chicago-1`.
    pub fn new(auth_token: Option<String>, region: Option<String>, tenancy_ocid: Option<String>) -> (r: OciClient)
        ensures
            r.auth_token@ == (match auth_token {
                Some(t) => t@,
                None => Seq::<char>::empty(),
            }),
            r.region@ == (match region {
                Some(g) => g@,
                None => default_region(),
            }),
            r.tenancy_ocid@ == (match tenancy_ocid {
                Some(t) => t@,
                None => Seq::<char>::empty(),
            }),
    {
        let auth_token = match auth_token {
            Some(t) => t,
            None => String::new(),
        };
        let region = match region {
            Some(g) => g,
            None => String::from_str("us-chicago-1"),
        };
        let tenancy_ocid = match tenancy_ocid {
            Some(t) => t,
            None => String::new(),
        };
        OciClient { auth_token, region, tenancy_ocid }
    }

    /// The root URL of `service` in the client's region.
    pub fn base_url(&self, service: &str) -> (r: String)
        ensures
            r@ == service_url(service@, self.region@),
    {
        let mut r = String::from_str("https://");
        r.append(service);
        r.append(".");
        r.append(self.region.as_str());
        r.append(".oraclecloud.com/20160918");
        r
    }

    /// The compartment a call with these arguments works in.
    pub fn compartment(&self, args: &ToolArgs) -> (r: String)
        ensures
            r@ == compartment_of(self.tenancy_ocid@, args.view()),
    {
        String::from_str(args.text_or("compartment_id", self.tenancy_ocid.as_str()))
    }
}

} // verus!
