use vstd::prelude::*;

verus! {

/// The body of every reply the service sends: a status code, a message and,
/// on success, an optional payload.
pub struct ResponseBody<T> {
    pub code: i32,
    pub message: String,
    pub data: Option<T>,
}

/// The ways a request can be refused.
pub enum Failure {
    /// The issuer's key file could not be opened.
    FileError,
    /// The key file could not be read or parsed, or a conversion asked for
    /// more currency of a value than is waiting to be issued.
    StrConverError,
    /// A signature did not check.
    JsonParseError,
    /// A database statement failed; the database's message comes along.
    DatabaseRunning(String),
    /// A currency that a request names is not in the database, or the
    /// database refused to hand one over.
    DatabaseBuild,
    /// The value of the currency given in a conversion differs from the
    /// value asked for.
    CurrencyConvert,
}

/// How a request ends: a success with an optional payload, or a failure.
pub enum Outcome<T> {
    Success(Option<T>),
    Failure(Failure),
}

/// The status code each failure is reported with.
pub open spec fn failure_code(f: Failure) -> i32 {
    match f {
        Failure::FileError => 90001,
        Failure::StrConverError => 90002,
        Failure::JsonParseError => 90003,
        Failure::DatabaseRunning(_) => 90004,
        Failure::DatabaseBuild => 90005,
        Failure::CurrencyConvert => 90006,
    }
}

/// The message each failure is reported with.
pub open spec fn failure_message(f: Failure) -> Seq<char> {
    match f {
        Failure::FileError => "file open error"@,
        Failure::StrConverError => "string conversion error"@,
        Failure::JsonParseError => "json parse error"@,
        Failure::DatabaseRunning(_) => "database running error"@,
        Failure::DatabaseBuild => "database build error"@,
        Failure::CurrencyConvert => "currency convert error"@,
    }
}

impl<T> ResponseBody<T> {
    /// A successful reply carrying `data`.
    pub fn new_success(data: Option<T>) -> (r: Self)
        ensures
            r.code == 0,
            r.message@ == "success"@,
            r.data == data,
    {
        ResponseBody { code: 0, message: String::from_str("success"), data }
    }

    /// The reply when the issuer's key file cannot be opened.
    pub fn new_file_error() -> (r: Self)
        ensures
            r.code == failure_code(Failure::FileError),
            r.message@ == failure_message(Failure::FileError),
            r.data is None,
    {
        ResponseBody { code: 90001, message: String::from_str("file open error"), data: None }
    }

    /// The reply when text cannot be read or converted.
    pub fn new_str_conver_error() -> (r: Self)
        ensures
            r.code == failure_code(Failure::StrConverError),
            r.message@ == failure_message(Failure::StrConverError),
            r.data is None,
    {
        ResponseBody {
            code: 90002,
            message: String::from_str("string conversion error"),
            data: None,
        }
    }

    /// The reply when a signature does not check.
    pub fn new_json_parse_error() -> (r: Self)
        ensures
            r.code == failure_code(Failure::JsonParseError),
            r.message@ == failure_message(Failure::JsonParseError),
            r.data is None,
    {
        ResponseBody { code: 90003, message: String::from_str("json parse error"), data: None }
    }

    /// The reply when a database statement fails, with what the database said.
    pub fn database_runing_error(data: Option<T>) -> (r: Self)
        ensures
            r.code == 90004,
            r.message@ == "database running error"@,
            r.data == data,
    {
        ResponseBody { code: 90004, message: String::from_str("database running error"), data }
    }

    /// The reply when a currency the request names is missing from the database.
    pub fn database_build_error() -> (r: Self)
        ensures
            r.code == failure_code(Failure::DatabaseBuild),
            r.message@ == failure_message(Failure::DatabaseBuild),
            r.data is None,
    {
        ResponseBody { code: 90005, message: String::from_str("database build error"), data: None }
    }

    /// The reply when a conversion does not keep the total value.
    pub fn currency_convert_error() -> (r: Self)
        ensures
            r.code == failure_code(Failure::CurrencyConvert),
            r.message@ == failure_message(Failure::CurrencyConvert),
            r.data is None,
    {
        ResponseBody {
            code: 90006,
            message: String::from_str("currency convert error"),
            data: None,
        }
    }
}

impl Failure {
    /// The reply that reports this failure; a database failure carries the
    /// database's message as its payload.
    pub fn into_body(self) -> (r: ResponseBody<String>)
        ensures
            r.code == failure_code(self),
            r.message@ == failure_message(self),
            r.data == (match self {
                Failure::DatabaseRunning(m) => Some(m),
                _ => None,
            }),
    {
        match self {
            Failure::FileError => ResponseBody::new_file_error(),
            Failure::StrConverError => ResponseBody::new_str_conver_error(),
            Failure::JsonParseError => ResponseBody::new_json_parse_error(),
            Failure::DatabaseRunning(m) => ResponseBody::database_runing_error(Some(m)),
            Failure::DatabaseBuild => ResponseBody::database_build_error(),
            Failure::CurrencyConvert => ResponseBody::currency_convert_error(),
        }
    }
}

} // verus!
