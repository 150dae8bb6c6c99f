//! The pairs that authenticate a request to the server: a token made of the password and
//! a salt stands for the password.
use crate::url::pair_views;
use vstd::prelude::*;

verus! {

/// The name that this client gives the server.
pub const CLIENT_NAME: &'static str = "maraetai-tui";

/// The version of the server's API that this client speaks.
pub const API_VERSION: &'static str = "1.16.1";

/// The MD5 digest of a text, as `md5::compute` gives it, in hexadecimal digits.
pub uninterp spec fn md5_of(text: Seq<char>) -> Seq<char>;

/// Calls `md5::compute` on the text's UTF-8 bytes, and prints the digest in lower-case
/// hexadecimal digits. The result depends on the text alone.
#[verifier::external_body]
fn digest(text: &str) -> (r: String)
    ensures
        r@ == md5_of(text@),
{
    format!("{:x}", md5::compute(text.as_bytes()))
}

/// User, token, salt, version and client.
pub open spec fn auth_of(username: Seq<char>, token: Seq<char>, salt: Seq<char>) -> Seq<
    (Seq<char>, Seq<char>),
> {
    seq![
        ("u"@, username),
        ("t"@, token),
        ("s"@, salt),
        ("v"@, API_VERSION@),
        ("c"@, CLIENT_NAME@),
    ]
}

/// The pairs that authenticate a user by a token that goes with a salt.
pub fn token_pairs(username: &str, token: String, salt: &str) -> (pairs: Vec<(String, String)>)
    ensures
        pair_views(pairs@) == auth_of(username@, token@, salt@),
{
    let mut pairs: Vec<(String, String)> = Vec::new();
    pairs.push(("u".to_owned(), username.to_owned()));
    pairs.push(("t".to_owned(), token));
    pairs.push(("s".to_owned(), salt.to_owned()));
    pairs.push(("v".to_owned(), API_VERSION.to_owned()));
    pairs.push(("c".to_owned(), CLIENT_NAME.to_owned()));
    assert(pair_views(pairs@) =~= auth_of(username@, token@, salt@));
    pairs
}

/// The pairs that authenticate a user by their password, which is not among them: the
/// token is the digest of the password with the salt behind it.
pub fn auth_pairs(username: &str, password: &str, salt: &str) -> (pairs: Vec<(String, String)>)
    ensures
        pair_views(pairs@) == auth_of(username@, md5_of(password@ + salt@), salt@),
{
    let token: String = digest(password.to_owned().concat(salt).as_str());
    token_pairs(username, token, salt)
}

} // verus!
