use vstd::prelude::*;
use vstd::string::StringExecFns;

use crate::text::{join_path, joined};

verus! {

/// The directory that holds the server's configuration, under `home`.
pub open spec fn caddy_dir_of(home: Seq<char>) -> Seq<char> {
    joined(home, "caddy"@)
}

/// The server's configuration file, under `home`.
pub open spec fn caddyfile_path_of(home: Seq<char>) -> Seq<char> {
    joined(caddy_dir_of(home), "Caddyfile"@)
}

/// The configuration written when none exists yet.
pub open spec fn default_template() -> Seq<char> {
    "# Caddy Configuration\n\n# Example:\n# localhost:8080 {\n#     respond \"Hello, world!\"\n# }\n"@
}

/// The directory that holds the server's configuration.
pub fn caddy_dir(home: &str) -> (r: String)
    ensures
        r@ == caddy_dir_of(home@),
{
    join_path(home, "caddy")
}

/// The server's configuration file.
pub fn caddyfile_path(home: &str) -> (r: String)
    ensures
        r@ == caddyfile_path_of(home@),
{
    let dir = caddy_dir(home);
    join_path(dir.as_str(), "Caddyfile")
}

/// The configuration written when none exists yet.
pub fn default_caddyfile() -> (r: String)
    ensures
        r@ == default_template(),
{
    String::from_str("# Caddy Configuration\n\n# Example:\n# localhost:8080 {\n#     respond \"Hello, world!\"\n# }\n")
}

/// What reading the configuration must do first.
pub struct ConfigPlan {
    /// Create the configuration directory.
    pub create_dir: bool,
    /// Write the default configuration, which is then what is read.
    pub write_default: bool,
}

/// Plans a read of the configuration from what exists: a missing directory
/// is created and a missing file gets the default configuration.
pub fn read_caddyfile(dir_exists: bool, file_exists: bool) -> (r: ConfigPlan)
    ensures
        r.create_dir == !dir_exists,
        r.write_default == !file_exists,
{
    ConfigPlan { create_dir: !dir_exists, write_default: !file_exists }
}

} // verus!
