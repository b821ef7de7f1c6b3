use vstd::prelude::*;

verus! {

/// Where the issuer's key pair is stored.
pub struct ConfigPath {
    pub meta_path: String,
}

impl Default for ConfigPath {
    fn default() -> (r: Self)
        ensures
            r.meta_path@ == "./digital_currency.json"@,
    {
        ConfigPath { meta_path: String::from_str("./digital_currency.json") }
    }
}

/// The endpoint of the central management system, where an issue request is
/// registered before quota is asked for.
pub struct CMSRequestAddr {
    pub central_addr: String,
}

/// The address the central management system is reached at, given the
/// host and port chosen on the command line, if any.
pub open spec fn spec_central_addr(cms: Option<Seq<char>>) -> Seq<char> {
    match cms {
        Some(c) => "http://"@ + c + "/api/dcds/qouta_issue"@,
        None => "http://localhost:8077/api/dcds/qouta_issue"@,
    }
}

impl CMSRequestAddr {
    /// Builds the endpoint from the `cms` command-line value (`host:port`).
    pub fn new(cms: Option<&str>) -> (r: Self)
        ensures
            r.central_addr@ == spec_central_addr(match cms {
                Some(c) => Some(c@),
                None => None,
            }),
    {
        let addr = match cms {
            Some(c) => {
                let mut a = String::from_str("http://");
                a.append(c);
                a.append("/api/dcds/qouta_issue");
                a
            },
            None => String::from_str("http://localhost:8077/api/dcds/qouta_issue"),
        };
        CMSRequestAddr { central_addr: addr }
    }
}

/// The endpoint of the quota control system, where quota control fields are
/// asked for once an issue request has been registered.
pub struct QCSRequestAddr {
    pub quota_addr: String,
}

/// The address the quota control system is reached at, given the host and
/// port chosen on the command line, if any.
pub open spec fn spec_quota_addr(qcs: Option<Seq<char>>) -> Seq<char> {
    match qcs {
        Some(q) => "http://"@ + q + "/api/quota"@,
        None => "http://localhost:8088/api/quota"@,
    }
}

impl QCSRequestAddr {
    /// Builds the endpoint from the `qcs` command-line value (`host:port`).
    pub fn new(qcs: Option<&str>) -> (r: Self)
        ensures
            r.quota_addr@ == spec_quota_addr(match qcs {
                Some(q) => Some(q@),
                None => None,
            }),
    {
        let addr = match qcs {
            Some(q) => {
                let mut a = String::from_str("http://");
                a.append(q);
                a.append("/api/quota");
                a
            },
            None => String::from_str("http://localhost:8088/api/quota"),
        };
        QCSRequestAddr { quota_addr: addr }
    }
}

/// The address this service listens on, given the `dcds` command-line value.
pub open spec fn spec_listen_addr(dcds: Option<Seq<char>>) -> Seq<char> {
    match dcds {
        Some(d) => d,
        None => "127.0.0.1:8888"@,
    }
}

/// Chooses the address the service binds to.
pub fn listen_addr(dcds: Option<&str>) -> (r: String)
    ensures
        r@ == spec_listen_addr(match dcds {
            Some(d) => Some(d@),
            None => None,
        }),
{
    match dcds {
        Some(d) => String::from_str(d),
        None => String::from_str("127.0.0.1:8888"),
    }
}

/// How the service reaches its database.
pub struct DbSettings {
    pub host: String,
    pub user: String,
    pub password: String,
    pub dbname: String,
    /// The most connections the pool keeps open.
    pub max_size: usize,
}

/// The database the service keeps its currency in.
pub fn db_settings() -> (r: DbSettings)
    ensures
        r.host@ == "localhost"@,
        r.user@ == "postgres"@,
        r.password@ == "postgres"@,
        r.dbname@ == "test_digitalcurrencydeliverysystem"@,
        r.max_size == 8,
{
    DbSettings {
        host: String::from_str("localhost"),
        user: String::from_str("postgres"),
        password: String::from_str("postgres"),
        dbname: String::from_str("test_digitalcurrencydeliverysystem"),
        max_size: 8,
    }
}

} // verus!
