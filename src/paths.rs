//! Locations of the root certificate files under the application data directory.
use vstd::prelude::*;
use vstd::string::*;

verus! {

/// Relative location of the root certificate under the data directory.
pub const CA_CERT_REL: &'static str = "cert/ca.crt";

/// Relative location of the root private key under the data directory.
pub const CA_KEY_REL: &'static str = "cert/ca.key";

/// A relative path `rel` appended to `dir`, with one `/` between them
/// unless `dir` is empty or already ends in `/`.
pub open spec fn joined(dir: Seq<char>, rel: Seq<char>) -> Seq<char> {
    if dir.len() == 0 || dir.last() == '/' {
        dir + rel
    } else {
        dir + seq!['/'] + rel
    }
}

/// Appends the relative path `rel` to the directory `dir`.
pub fn join_path(dir: &str, rel: &str) -> (r: String)
    ensures
        r@ == joined(dir@, rel@),
{
    let n = dir.unicode_len();
    let mut out = String::from_str(dir);
    if n > 0 && dir.get_char(n - 1) != '/' {
        out.append("/");
    }
    out.append(rel);
    proof {
        reveal_strlit("/");
    }
    out
}

/// The paths of the root certificate and of its private key under
/// `local_data_dir`: `cert/ca.crt` and `cert/ca.key`.
pub fn get_cert_path(local_data_dir: &str) -> (r: (String, String))
    ensures
        r.0@ == joined(local_data_dir@, CA_CERT_REL@),
        r.1@ == joined(local_data_dir@, CA_KEY_REL@),
{
    (join_path(local_data_dir, CA_CERT_REL), join_path(local_data_dir, CA_KEY_REL))
}

} // verus!
