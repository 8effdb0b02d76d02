//! FIPS mode: git traffic goes through a local `stunnel` that speaks
//! FIPS-validated TLS to the server.
use vstd::prelude::*;
use crate::path::{path_join, path_join_spec};
use crate::text::owned;

verus! {

/// Where the `stunnel` of the Chef DK is installed.
pub const STUNNEL_PATH: &'static str = "/opt/chefdk/embedded/bin/stunnel";

/// Whether a command's options ask for FIPS mode.
pub trait CheckFipsMode {
    /// Whether FIPS mode is on.
    fn is_fips_mode(&self) -> bool;
}

/// A file under the home directory `home`.
pub open spec fn home_file(home: Seq<char>, rel: Seq<char>) -> Seq<char> {
    path_join_spec(home, rel)
}

/// The `stunnel` configuration for a server and the local port git talks
/// to. The log and certificate paths keep the line break that ends their
/// lines.
pub open spec fn stunnel_config_spec(home: Seq<char>, server: Seq<char>, fips_git_port: Seq<char>) -> Seq<char> {
    "fips = yes\nclient = yes\n"@ + "output = "@ + home_file(home, ".chefdk/log/stunnel.log\n"@) + "foreground = quiet\n"@
        + "[git]\n"@ + "accept = "@ + fips_git_port + "\n"@ + "connect = "@ + server + ":8989\n"@ + "checkHost = "@ + server
        + "\n"@ + "verifyChain = yes\n"@ + "verify = 3\n"@ + "CAfile = "@ + home_file(
        home,
        ".chefdk/etc/automate-nginx-cert.pem\n"@,
    )
}

/// The content of `~/.chefdk/etc/stunnel.conf`.
pub fn generate_stunnel_config(home: &str, server: &str, fips_git_port: &str) -> (r: String)
    ensures
        r@ == stunnel_config_spec(home@, server@, fips_git_port@),
{
    let mut c = owned("fips = yes\nclient = yes\n");
    c.append("output = ");
    let log = path_join(home, ".chefdk/log/stunnel.log\n");
    c.append(log.as_str());
    c.append("foreground = quiet\n");
    c.append("[git]\n");
    c.append("accept = ");
    c.append(fips_git_port);
    c.append("\n");
    c.append("connect = ");
    c.append(server);
    c.append(":8989\n");
    c.append("checkHost = ");
    c.append(server);
    c.append("\n");
    c.append("verifyChain = yes\n");
    c.append("verify = 3\n");
    c.append("CAfile = ");
    let cert = path_join(home, ".chefdk/etc/automate-nginx-cert.pem\n");
    c.append(cert.as_str());
    c
}

/// The files FIPS mode writes under the home directory: the `stunnel`
/// configuration and the server's certificate.
pub fn stunnel_paths(home: &str) -> (r: (String, String))
    ensures
        r.0@ == home_file(home@, ".chefdk/etc/stunnel.conf"@),
        r.1@ == home_file(home@, ".chefdk/etc/automate-nginx-cert.pem"@),
{
    (path_join(home, ".chefdk/etc/stunnel.conf"), path_join(home, ".chefdk/etc/automate-nginx-cert.pem"))
}

/// The command that starts `stunnel` with its configuration.
pub fn start_stunnel(home: &str) -> (r: (String, Vec<String>))
    ensures
        r.0@ == STUNNEL_PATH@,
        r.1@.len() == 1,
        r.1@[0]@ == home_file(home@, ".chefdk/etc/stunnel.conf"@),
{
    let mut args: Vec<String> = Vec::new();
    args.push(path_join(home, ".chefdk/etc/stunnel.conf"));
    (owned(STUNNEL_PATH), args)
}

} // verus!
