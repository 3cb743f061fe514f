//! Server settings and the values derived from them.
use vstd::prelude::*;

use crate::text::{decimal, push_char, push_decimal};

verus! {

broadcast use vstd::string::group_string_axioms;

pub struct Settings {
    pub hmac_secret: String,
    pub session_cookie_name: String,
    pub database: SQLite3Settings,
    pub listen: String,
    pub port: u16,
    pub dist: String,
}

pub struct SQLite3Settings {
    pub connection: String,
}

impl Settings {
    /// The socket address to bind, as `host:port`.
    pub fn listen_address(&self) -> (a: String)
        ensures
            a@ == self.listen@ + seq![':'] + decimal(self.port as nat),
    {
        let mut a = self.listen.clone();
        push_char(&mut a, ':');
        push_decimal(&mut a, self.port as u64);
        a
    }

    /// The single-page application's entry file under the `dist` directory.
    pub fn index_path(&self) -> (p: String)
        ensures
            p@ == self.dist@ + "/index.html"@,
    {
        let mut p = self.dist.clone();
        p.append("/index.html");
        p
    }
}

} // verus!
