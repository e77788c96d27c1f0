use vstd::prelude::*;

verus! {

/// Database connection parameters, fixed once at startup and consumed when
/// the connection pool is built. No validation is performed on the fields:
/// an unreachable host or a wrong password only surfaces on first use of the
/// pool.
pub struct DatabaseConfig {
    pub host: String,
    pub port: u16,
    pub username: String,
    pub password: String,
    pub database: String,
}

/// The mathematical content of a set of connection parameters: the four
/// textual fields as character sequences, and the port number.
#[verifier::ext_equal]
pub struct ConfigModel {
    pub host: Seq<char>,
    pub port: u16,
    pub username: Seq<char>,
    pub password: Seq<char>,
    pub database: Seq<char>,
}

impl View for DatabaseConfig {
    type V = ConfigModel;

    open spec fn view(&self) -> ConfigModel {
        ConfigModel {
            host: self.host@,
            port: self.port,
            username: self.username@,
            password: self.password@,
            database: self.database@,
        }
    }
}

} // verus!
