//! Where things are: the address of the remote player, from a host and a port
//! that may be unset, and the cached album art of a track.

use vstd::prelude::*;
use vstd::string::StringExecFns;

verus! {

/// The host used where none is configured.
pub const DEFAULT_HOST: &'static str = "localhost";

/// The port used where none is configured.
pub const DEFAULT_PORT: &'static str = "6061";

/// `tcp://<host>:<port>`.
pub open spec fn endpoint_of(host: Seq<char>, port: Seq<char>) -> Seq<char> {
    "tcp://"@ + host + ":"@ + port
}

/// The configured value, or the default where there is none.
pub open spec fn or_default(value: Option<String>, default: Seq<char>) -> Seq<char> {
    match value {
        Some(v) => v@,
        None => default,
    }
}

/// The endpoint of the player, with the defaults in place of what is unset.
pub fn build_url(host: Option<String>, port: Option<String>) -> (r: String)
    ensures
        r@ == endpoint_of(or_default(host, DEFAULT_HOST@), or_default(port, DEFAULT_PORT@)),
{
    let h = match host {
        Some(h) => h,
        None => String::from_str(DEFAULT_HOST),
    };
    let p = match port {
        Some(p) => p,
        None => String::from_str(DEFAULT_PORT),
    };
    String::from_str("tcp://").concat(h.as_str()).concat(":").concat(p.as_str())
}

/// The cover cache directory below a home directory.
pub const COVER_DIR: &'static str = "/.config/rockbox.org/covers/";

/// `<home>/.config/rockbox.org/covers/<file_name>`.
pub open spec fn cover_path_of(home: Seq<char>, file_name: Seq<char>) -> Seq<char> {
    home + COVER_DIR@ + file_name
}

/// The path of a cached album art file, from the home directory and the file
/// name that a track summary gives.
pub fn cover_path(home: &str, file_name: &str) -> (r: String)
    ensures
        r@ == cover_path_of(home@, file_name@),
{
    String::from_str(home).concat(COVER_DIR).concat(file_name)
}

} // verus!
