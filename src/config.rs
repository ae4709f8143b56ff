//! Time-series storage settings and the decisions taken while checking the
//! storage connection at start-up.
use vstd::prelude::*;
use vstd::string::*;
use crate::text::{contains, has_infix, same_text};

verus! {

/// Why storage set-up failed.
#[derive(Clone, Debug, PartialEq, Eq)]
pub enum InfluxSetupError {
    ClientError(String),
    ConfigError(String),
}

/// Connection settings for time-series storage.
#[derive(Clone, Debug, PartialEq, Eq)]
pub struct InfluxConfig {
    pub url: String,
    pub token: String,
    pub org: String,
    pub bucket: String,
}

/// The organisation and bucket used when none is configured.
pub open spec fn default_name() -> Seq<char> {
    "smokeping"@
}

/// `v` when present, else the default name.
pub open spec fn or_default(v: Option<String>) -> Seq<char> {
    match v {
        Some(s) => s@,
        None => default_name(),
    }
}

impl InfluxSetupError {
    /// The text of the error as reported.
    pub fn message(&self) -> (r: String)
        ensures
            match self {
                InfluxSetupError::ClientError(m) => r@ == "InfluxDB client error: "@ + m@,
                InfluxSetupError::ConfigError(m) => r@ == "InfluxDB configuration error: "@ + m@,
            },
    {
        match self {
            InfluxSetupError::ClientError(m) => String::from_str("InfluxDB client error: ").concat(
                m.as_str(),
            ),
            InfluxSetupError::ConfigError(m) => String::from_str(
                "InfluxDB configuration error: ",
            ).concat(m.as_str()),
        }
    }
}

impl InfluxConfig {
    /// Settings from the values of `INFLUXDB_URL`, `INFLUXDB_TOKEN`,
    /// `INFLUXDB_ORG` and `INFLUXDB_BUCKET` (`None` when unset). URL and
    /// token are required; organisation and bucket default to `smokeping`.
    pub fn from_env(
        url: Option<String>,
        token: Option<String>,
        org: Option<String>,
        bucket: Option<String>,
    ) -> (r: Result<InfluxConfig, InfluxSetupError>)
        ensures
            url is None ==> (r matches Err(InfluxSetupError::ConfigError(m)) && m@
                == "INFLUXDB_URL environment variable not set"@),
            url is Some && token is None ==> (r matches Err(InfluxSetupError::ConfigError(m)) && m@
                == "INFLUXDB_TOKEN environment variable not set"@),
            url is Some && token is Some ==> (r matches Ok(c) && c.url@ == url->Some_0@ && c.token@
                == token->Some_0@ && c.org@ == or_default(org) && c.bucket@ == or_default(bucket)),
    {
        let url = match url {
            Some(u) => u,
            None => {
                return Err(
                    InfluxSetupError::ConfigError(
                        String::from_str("INFLUXDB_URL environment variable not set"),
                    ),
                );
            },
        };
        let token = match token {
            Some(t) => t,
            None => {
                return Err(
                    InfluxSetupError::ConfigError(
                        String::from_str("INFLUXDB_TOKEN environment variable not set"),
                    ),
                );
            },
        };
        let org = match org {
            Some(o) => o,
            None => String::from_str("smokeping"),
        };
        let bucket = match bucket {
            Some(b) => b,
            None => String::from_str("smokeping"),
        };
        Ok(InfluxConfig { url, token, org, bucket })
    }
}

/// An error text that points at the network (a proxy, a refused
/// connection, an unavailable service) rather than at the storage.
pub open spec fn network_issue_spec(msg: Seq<char>) -> bool {
    has_infix(msg, "503 Service Unavailable"@) || has_infix(msg, "proxy"@) || has_infix(
        msg,
        "connection refused"@,
    )
}

/// Whether an error text points at the network rather than the storage.
pub fn is_network_issue(msg: &str) -> (r: bool)
    ensures
        r == network_issue_spec(msg@),
{
    contains(msg, "503 Service Unavailable") || contains(msg, "proxy") || contains(
        msg,
        "connection refused",
    )
}

/// Whether `name` is among `names`.
pub fn bucket_exists(names: &Vec<String>, name: &str) -> (r: bool)
    ensures
        r == exists|i: int| 0 <= i < names@.len() && (#[trigger] names@[i])@ == name@,
{
    let mut i: usize = 0;
    while i < names.len()
        invariant
            i <= names@.len(),
            forall|j: int| 0 <= j < i ==> (#[trigger] names@[j])@ != name@,
        decreases names@.len() - i,
    {
        if same_text(names[i].as_str(), name) {
            return true;
        }
        i = i + 1;
    }
    false
}

/// What listing the storage's buckets showed.
#[derive(Clone, Copy, Debug, PartialEq, Eq, Structural)]
pub enum BucketListing {
    /// The configured bucket exists; go on to the write check.
    Found,
    /// The listing worked but the bucket is absent; warn, then go on.
    Missing,
    /// The listing failed for a network reason; set-up ends successfully
    /// with limited functionality.
    NetworkIssue,
    /// The listing failed otherwise; warn, then go on.
    Failed,
}

/// Classifies the result of listing buckets (names, or an error text).
pub fn classify_listing(listing: &Result<Vec<String>, String>, bucket: &str) -> (r: BucketListing)
    ensures
        match listing {
            Ok(names) => (r == BucketListing::Found) == (exists|i: int|
                0 <= i < names@.len() && (#[trigger] names@[i])@ == bucket@) && (r
                == BucketListing::Found || r == BucketListing::Missing),
            Err(msg) => r == (if network_issue_spec(msg@) {
                BucketListing::NetworkIssue
            } else {
                BucketListing::Failed
            }),
        },
{
    match listing {
        Ok(names) => {
            if bucket_exists(names, bucket) {
                BucketListing::Found
            } else {
                BucketListing::Missing
            }
        },
        Err(msg) => {
            if is_network_issue(msg.as_str()) {
                BucketListing::NetworkIssue
            } else {
                BucketListing::Failed
            }
        },
    }
}

/// The error reported when writing to the bucket was refused.
pub open spec fn write_refused_text(bucket: Seq<char>, msg: Seq<char>) -> Seq<char> {
    "Failed to verify write access to bucket '"@ + bucket + "': "@ + msg
        + ". Please ensure the bucket exists and the token has write permissions."@
}

/// Ends set-up from the result of a trial write (an error text on
/// failure): success, also when the failure is a network one.
pub fn conclude_write_check(outcome: &Result<(), String>, bucket: &str) -> (r: Result<
    (),
    InfluxSetupError,
>)
    ensures
        match outcome {
            Ok(_) => r is Ok,
            Err(msg) => if network_issue_spec(msg@) {
                r is Ok
            } else {
                (r matches Err(InfluxSetupError::ClientError(m)) && m@ == write_refused_text(
                    bucket@,
                    msg@,
                ))
            },
        },
{
    match outcome {
        Ok(_) => Ok(()),
        Err(msg) => {
            if is_network_issue(msg.as_str()) {
                Ok(())
            } else {
                let m = String::from_str("Failed to verify write access to bucket '").concat(
                    bucket,
                ).concat("': ").concat(msg.as_str()).concat(
                    ". Please ensure the bucket exists and the token has write permissions.",
                );
                Err(InfluxSetupError::ClientError(m))
            }
        },
    }
}

} // verus!
