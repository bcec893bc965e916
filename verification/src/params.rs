//! The startup parameters the server reports to every client: protocol
//! and server version, text encoding, date style and datetime
//! representation.

use vstd::prelude::*;

verus! {

pub struct NexusServerParameterProvider;

impl NexusServerParameterProvider {
    /// The fixed name/value pairs reported on startup.
    pub fn server_parameters(&self) -> (r: Vec<(String, String)>)
        ensures
            r@.len() == 5,
            r@[0].0@ == "server_version"@ && r@[0].1@ == "14"@,
            r@[1].0@ == "server_encoding"@ && r@[1].1@ == "UTF8"@,
            r@[2].0@ == "client_encoding"@ && r@[2].1@ == "UTF8"@,
            r@[3].0@ == "DateStyle"@ && r@[3].1@ == "ISO YMD"@,
            r@[4].0@ == "integer_datetimes"@ && r@[4].1@ == "on"@,
    {
        let mut params: Vec<(String, String)> = Vec::new();
        params.push(("server_version".to_owned(), "14".to_owned()));
        params.push(("server_encoding".to_owned(), "UTF8".to_owned()));
        params.push(("client_encoding".to_owned(), "UTF8".to_owned()));
        params.push(("DateStyle".to_owned(), "ISO YMD".to_owned()));
        params.push(("integer_datetimes".to_owned(), "on".to_owned()));
        params
    }
}

} // verus!
