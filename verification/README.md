# oracle-cloud-mcp

An MCP server for Oracle Cloud Infrastructure: it offers tools for Compute,
Object Storage, Block Storage, Networking, Autonomous Database and IAM, and
turns each tool call into a request to the OCI REST API.

- `src/` is the verified library (Verus): the tool catalogue, its schemas and
  their JSON text, the request each tool makes (method, URL, JSON body), the
  handling of OCI's replies, the routing of JSON-RPC methods, and the reading
  of the OCI configuration file. `src/laws.rs` holds the properties that tie
  these together.
- `app/` is the server process: stdin/stdout JSON-RPC, environment
  variables, reading files, and HTTP.
- `tests/` runs the library on concrete inputs.

## Behaviour that follows the documentation

Where the tool schemas or this project's documentation promise a behaviour,
the library provides it:

- A listing call without a usable `limit` uses the default its schema
  advertises (100 for shapes, buckets, objects and the IAM listings, 50 for
  the others).
- `oci_os_list_objects` takes an optional `prefix` filter, sent
  percent-encoded.
- `oci_os_create_bucket` takes a `storage_tier` (`Standard` or `Archive`),
  sent as `storageTier` only where the call gives one; otherwise the body is
  the original three members and OCI's default tier, `Standard`, applies.
- Settings come from the environment (`OCI_AUTH_TOKEN`, `OCI_REGION`,
  `OCI_TENANCY_OCID`) and, where it does not set them, from the profile
  `OCI_PROFILE` (default `DEFAULT`) of the configuration file
  `OCI_CONFIG_FILE` (default `~/.oci/config`): its `tenancy`, `region`, and
  the session token read from its `security_token_file`. A profile inherits
  the values of `DEFAULT`. The region falls back to `us-chicago-1`.

Signing requests with an API key (RSA key and fingerprint) is not
implemented; calls carry the token as a bearer token.
