use vstd::prelude::*;
use vstd::string::StringExecFns;

verus! {

/// The fixed local bind address: loopback, one well-known port.
pub const SERVER_PORT: u16 = 8080;

/// Ephemeral per-start configuration: the root folder to serve, from which
/// the index document path is derived. Constructed once at start time and
/// handed read-only to the server task.
pub struct ServerConfig {
    pub folder: String,
}

impl ServerConfig {
    /// The derived index document path: `<folder>/index.html`.
    pub open spec fn spec_index_path(&self) -> Seq<char> {
        self.folder@ + "/index.html"@
    }

    pub fn new(folder: String) -> (r: ServerConfig)
        ensures
            r.folder@ == folder@,
    {
        ServerConfig { folder }
    }

    /// The path of the index document served for the root route.
    pub fn index_path(&self) -> (r: String)
        ensures
            r@ == self.spec_index_path(),
    {
        self.folder.clone().concat("/index.html")
    }

    /// The port of the fixed bind address.
    pub fn port(&self) -> (r: u16)
        ensures
            r == SERVER_PORT,
    {
        SERVER_PORT
    }

    /// The four octets of the loopback interface the server binds.
    pub fn bind_octets(&self) -> (r: [u8; 4])
        ensures
            r@ == seq![127u8, 0u8, 0u8, 1u8],
    {
        let r: [u8; 4] = [127, 0, 0, 1];
        proof {
            assert(r@ =~= seq![127u8, 0u8, 0u8, 1u8]);
        }
        r
    }

    /// The URL the served content is reachable under.
    pub fn base_url(&self) -> (r: String)
        ensures
            r@ == "http://127.0.0.1:8080"@,
    {
        String::from_str("http://127.0.0.1:8080")
    }
}

} // verus!
