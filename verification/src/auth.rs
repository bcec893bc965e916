//! Startup authentication support: the per-connection random salt and the
//! salted credential hash that the wire protocol's password exchange
//! verifies.

use vstd::prelude::*;

verus! {

/// What pgwire's hash_md5_password returns for a user name, password and
/// salt: the protocol's salted credential hash, a function of the three
/// alone.
pub uninterp spec fn md5_salted(user: Seq<char>, password: Seq<char>, salt: Seq<u8>) -> Seq<char>;

/// Relies on rand::random: four bytes of fresh randomness for the
/// per-connection salt. Nothing is promised of their values.
#[verifier::external_body]
pub fn random_salt() -> (r: Vec<u8>)
    ensures
        r@.len() == 4,
{
    rand::random::<[u8; 4]>().to_vec()
}

/// Relies on pgwire's hash_md5_password: the protocol-standard salted MD5
/// of password, user name and salt, a pure function of its arguments.
#[verifier::external_body]
fn hash_md5(user: &str, password: &str, salt: &Vec<u8>) -> (r: String)
    ensures
        r@ == md5_salted(user@, password@, salt@),
{
    pgwire::api::auth::md5pass::hash_md5_password(user, password, salt)
}

/// The fixed credential this gateway accepts, pending a pluggable source.
pub fn gateway_password() -> (r: &'static str)
    ensures
        r@ == "peerdb"@,
{
    "peerdb"
}

/// The material for one login challenge: the salt the server echoes and
/// the salted hash the client's answer must match.
pub struct PasswordChallenge {
    pub salt: Vec<u8>,
    pub hashed: String,
}

/// Build the challenge for a login: hash the configured credential for
/// `user` under `salt`. An absent user name hashes as the empty name.
pub fn password_challenge(user: Option<&String>, salt: Vec<u8>) -> (r: PasswordChallenge)
    ensures
        r.salt@ == salt@,
        r.hashed@ == match user {
            Some(u) => md5_salted(u@, "peerdb"@, salt@),
            None => md5_salted(Seq::empty(), "peerdb"@, salt@),
        },
{
    let hashed = match user {
        Some(u) => hash_md5(u.as_str(), gateway_password(), &salt),
        None => {
            proof {
                reveal_strlit("");
                assert(""@ =~= Seq::<char>::empty());
            }
            hash_md5("", gateway_password(), &salt)
        },
    };
    PasswordChallenge { salt, hashed }
}

} // verus!
