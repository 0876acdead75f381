//! Process configuration: the environment-sourced settings and the
//! connection URL derived from them.

use vstd::prelude::*;

verus! {

/// The settings the process is started with. Values are read from the
/// environment by the surrounding binary; the library only computes with
/// them (the database URL, the provisioning and insert statements).
pub struct AppConfig {
    pub db_host: String,
    pub db_name: String,
    pub db_schema: String,
    pub db_table: String,
    pub db_user: String,
    pub db_password: String,
    pub db_pool_size: u32,
    pub helm_release_name: String,
    pub helm_release_revision: String,
    pub helm_chart_name: String,
    pub helm_chart_version: String,
    pub helm_release_namespace: String,
    pub hostname: String,
    pub web_port: u16,
}

/// The text of the connection URL built from the configured credentials,
/// host and database name.
pub open spec fn connection_url_text(
    user: Seq<char>,
    password: Seq<char>,
    host: Seq<char>,
    name: Seq<char>,
) -> Seq<char> {
    "postgres://"@ + user + ":"@ + password + "@"@ + host + "/"@ + name
}

impl AppConfig {
    /// The URL the connection pool is opened with.
    pub fn connection_url(&self) -> (r: String)
        ensures
            r@ == connection_url_text(
                self.db_user@,
                self.db_password@,
                self.db_host@,
                self.db_name@,
            ),
    {
        let mut r = String::from_str("postgres://");
        r.append(self.db_user.as_str());
        r.append(":");
        r.append(self.db_password.as_str());
        r.append("@");
        r.append(self.db_host.as_str());
        r.append("/");
        r.append(self.db_name.as_str());
        r
    }
}

} // verus!
