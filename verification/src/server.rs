//! Where the gateway sends what it relays: the remote origin, and the
//! addresses built from it.

use vstd::prelude::*;

verus! {

/// The route of the CAT control socket.
pub const CAT_ROUTE: &'static str = "/radio";

/// The route of the tunnel that submits spots.
pub const SUBMIT_SPOT_ROUTE: &'static str = "/submit_spot";

/// The route of the tunnel that streams spots.
pub const SPOTS_WS_ROUTE: &'static str = "/spots_ws";

/// The route that is relayed to the origin even where the local UI bundle is
/// served.
pub const SPOTS_ROUTE: &'static str = "/spots";

/// The remote origin and the local port the gateway listens on.
pub struct ServerConfig {
    pub dns: String,
    pub is_using_ssl: bool,
    pub local_port: u16,
}

impl Clone for ServerConfig {
    fn clone(&self) -> (r: Self)
        ensures
            r.dns@ == self.dns@,
            r.is_using_ssl == self.is_using_ssl,
            r.local_port == self.local_port,
    {
        ServerConfig {
            dns: self.dns.clone(),
            is_using_ssl: self.is_using_ssl,
            local_port: self.local_port,
        }
    }
}

impl ServerConfig {
    /// The address of `path_and_query` at the origin: the schema, an `s` where
    /// the origin speaks SSL, `://`, the origin's name, and the path as given.
    pub open spec fn uri(&self, schema: Seq<char>, path_and_query: Seq<char>) -> Seq<char> {
        schema + (if self.is_using_ssl {
            "s"@
        } else {
            Seq::<char>::empty()
        }) + "://"@ + self.dns@ + path_and_query
    }

    pub fn build_uri(&self, schema: &str, path_and_query: &str) -> (r: String)
        ensures
            r@ == self.uri(schema@, path_and_query@),
    {
        let mut uri = schema.to_owned();
        if self.is_using_ssl {
            uri.append("s");
        }
        uri.append("://");
        uri.append(self.dns.as_str());
        uri.append(path_and_query);
        assert(uri@ =~= self.uri(schema@, path_and_query@));
        uri
    }

    /// Where the reverse proxy fetches a request from: the request's path and
    /// query at the origin, over HTTP. A request without either goes to the
    /// origin's bare name.
    pub fn proxy_uri(&self, path_and_query: Option<&str>) -> (r: String)
        ensures
            r@ == self.uri(
                "http"@,
                match path_and_query {
                    Some(p) => p@,
                    None => Seq::<char>::empty(),
                },
            ),
    {
        match path_and_query {
            Some(p) => self.build_uri("http", p),
            None => {
                let r = self.build_uri("http", "");
                proof {
                    reveal_strlit("");
                }
                assert(""@ =~= Seq::<char>::empty());
                r
            },
        }
    }

    /// Where a tunnel for `path` connects to: the same path at the origin,
    /// over WebSocket.
    pub fn tunnel_uri(&self, path: &str) -> (r: String)
        ensures
            r@ == self.uri("ws"@, path@),
    {
        self.build_uri("ws", path)
    }
}

} // verus!
