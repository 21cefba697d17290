use vstd::prelude::*;

verus! {

/// Network-facing defaults of the host application.
#[derive(Debug)]
pub struct AppConfig {
    pub server_port: u16,
    pub max_connections: usize,
}

impl Default for AppConfig {
    fn default() -> (r: Self)
        ensures
            r.server_port == 8080,
            r.max_connections == 100,
    {
        AppConfig { server_port: 8080, max_connections: 100 }
    }
}

} // verus!
