//! Locations of the application's stored files.
//!
//! Every location is a plain string joined under a base directory that the
//! caller supplies; reading the base directory from the environment is the
//! caller's business.

use vstd::prelude::*;

verus! {

broadcast use vstd::string::group_string_axioms;

fn join_under(base: &str, rest: &str) -> (r: String)
    ensures
        r@ == base@ + ("/")@ + rest@,
{
    let mut s = base.to_owned();
    s.append("/");
    s.append(rest);
    s
}

/// The settings file under the base directory.
pub fn settings_path(base: &str) -> (r: String)
    ensures
        r@ == base@ + ("/")@ + ("settings.json")@,
{
    join_under(base, "settings.json")
}

/// The profiles directory under the base directory.
pub fn profiles_dir(base: &str) -> (r: String)
    ensures
        r@ == base@ + ("/")@ + ("profiles")@,
{
    join_under(base, "profiles")
}

/// The file of one profile under the base directory.
pub fn profile_path(base: &str, profile_id: &str) -> (r: String)
    ensures
        r@ == base@ + ("/")@ + ("profiles")@ + ("/")@ + profile_id@ + (".json")@,
{
    let mut s = profiles_dir(base);
    s.append("/");
    s.append(profile_id);
    s.append(".json");
    s
}

/// The generated server configuration of one profile under the server's
/// working directory.
pub fn generated_config_path(work_dir: &str, profile_id: &str) -> (r: String)
    ensures
        r@ == work_dir@ + ("/")@ + ("configs")@ + ("/")@ + profile_id@ + ("/")@ + (
        "server.json")@,
{
    let mut s = join_under(work_dir, "configs");
    s.append("/");
    s.append(profile_id);
    s.append("/");
    s.append("server.json");
    s
}

/// The mod registry file under the base directory.
pub fn mods_path(base: &str) -> (r: String)
    ensures
        r@ == base@ + ("/")@ + ("mods.json")@,
{
    join_under(base, "mods.json")
}

/// The package registry file under the base directory.
pub fn packages_path(base: &str) -> (r: String)
    ensures
        r@ == base@ + ("/")@ + ("packages.json")@,
{
    join_under(base, "packages.json")
}

/// The log directory under the base directory.
pub fn logs_dir(base: &str) -> (r: String)
    ensures
        r@ == base@ + ("/")@ + ("logs")@,
{
    join_under(base, "logs")
}

/// The log file of one profile under the base directory.
pub fn log_file_path(base: &str, profile_id: &str) -> (r: String)
    ensures
        r@ == base@ + ("/")@ + ("logs")@ + ("/")@ + profile_id@ + (".log")@,
{
    let mut s = logs_dir(base);
    s.append("/");
    s.append(profile_id);
    s.append(".log");
    s
}

/// The credentials file under the base directory.
pub fn credentials_path(base: &str) -> (r: String)
    ensures
        r@ == base@ + ("/")@ + ("credentials.json")@,
{
    join_under(base, "credentials.json")
}

/// The certificate directory under the base directory.
pub fn certs_dir(base: &str) -> (r: String)
    ensures
        r@ == base@ + ("/")@ + ("certs")@,
{
    join_under(base, "certs")
}

/// The TLS certificate file under the base directory.
pub fn cert_path(base: &str) -> (r: String)
    ensures
        r@ == base@ + ("/")@ + ("certs")@ + ("/")@ + ("arssm.crt.pem")@,
{
    let mut s = certs_dir(base);
    s.append("/");
    s.append("arssm.crt.pem");
    s
}

/// The TLS private key file under the base directory.
pub fn key_path(base: &str) -> (r: String)
    ensures
        r@ == base@ + ("/")@ + ("certs")@ + ("/")@ + ("arssm.key.pem")@,
{
    let mut s = certs_dir(base);
    s.append("/");
    s.append("arssm.key.pem");
    s
}

} // verus!
