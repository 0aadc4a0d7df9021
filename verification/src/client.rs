//! The client's side of the wire: what an envelope that came back from the
//! helper means to the caller.
use crate::service::ServiceInfo;
use crate::snapshot::{
    log_entries_of, services_of, LogEntry, LogEntrySnapshot, ServiceSnapshot,
};
use crate::text::same_text;
use vstd::prelude::*;
use vstd::std_specs::convert::FromSpec;
use vstd::string::*;

verus! {

/// The status word of an envelope that reports a success.
pub const STATUS_OK: &'static str = "ok";

/// The description of one service on the wire.
#[derive(Debug, PartialEq, Eq)]
pub struct DescriptionSnapshot {
    pub service: String,
    pub description: Option<String>,
}

/// An envelope as the client has decoded it, with data of the kind `T`.
#[derive(Debug, PartialEq, Eq)]
pub struct DaemonProcessResponse<T> {
    pub status: String,
    pub message: Option<String>,
    pub data: Option<T>,
}

/// The text of `message`, or `fallback` where there is none.
pub open spec fn text_or(message: Option<String>, fallback: Seq<char>) -> Seq<char> {
    match message {
        Some(text) => text@,
        None => fallback,
    }
}

fn message_or(message: Option<String>, fallback: String) -> (r: String)
    ensures
        r@ == text_or(message, fallback@),
{
    match message {
        Some(text) => text,
        None => fallback,
    }
}

fn sentence(start: &str, service: &str) -> (r: String)
    ensures
        r@ == start@ + service@,
{
    let mut r = String::from_str(start);
    r.append(service);
    r
}

/// How many log lines the client asks for when the caller wants `lines`: at
/// least one, and no more than fit the wire.
pub fn log_line_cap(lines: usize) -> (cap: u32)
    ensures
        cap == (if lines < 1 {
            1
        } else if lines > u32::MAX {
            u32::MAX as int
        } else {
            lines as int
        }),
{
    if lines < 1 {
        1
    } else if lines > 0xffff_ffff {
        0xffff_ffff
    } else {
        lines as u32
    }
}

impl<T> DaemonProcessResponse<T> {
    /// Whether the envelope reports a success.
    pub open spec fn succeeded(self) -> bool {
        self.status@ == STATUS_OK@
    }

    /// Whether the envelope reports a success.
    pub fn is_ok(&self) -> (r: bool)
        ensures
            r == self.succeeded(),
    {
        same_text(self.status.as_str(), STATUS_OK)
    }

    /// What the answer to an action on `service` tells the caller: the
    /// helper's message, as a success or as a failure; a sentence of the
    /// client's own where the helper sent none.
    pub fn into_message(self, action: &str, service: &str) -> (r: Result<String, String>)
        ensures
            self.succeeded() ==> r is Ok && r.unwrap()@ == text_or(
                self.message,
                action@ + " command completed for "@ + service@,
            ),
            !self.succeeded() ==> r is Err && r.unwrap_err()@ == text_or(
                self.message,
                "runkitd reported failure for "@ + service@,
            ),
    {
        if self.is_ok() {
            let mut fallback = String::from_str(action);
            fallback.append(" command completed for ");
            fallback.append(service);
            Ok(message_or(self.message, fallback))
        } else {
            Err(message_or(self.message, sentence("runkitd reported failure for ", service)))
        }
    }
}

impl DaemonProcessResponse<Vec<ServiceSnapshot>> {
    /// The services that the answer to an enumeration holds, each decoded, in
    /// the order in which they came. An envelope that reports a failure gives
    /// its message; one that holds no data is a failure too.
    pub fn into_services(self) -> (r: Result<Vec<ServiceInfo>, String>)
        ensures
            !self.succeeded() ==> r is Err && r.unwrap_err()@ == text_or(
                self.message,
                "runkitd failed to enumerate services"@,
            ),
            self.succeeded() && self.data is None ==> r is Err && r.unwrap_err()@
                == "runkitd returned no service data"@,
            self.succeeded() && self.data is Some ==> r is Ok && r.unwrap()@.len()
                == self.data.unwrap()@.len() && forall|i: int|
                0 <= i < r.unwrap()@.len() ==> #[trigger] r.unwrap()@[i] == ServiceInfo::from_spec(
                    self.data.unwrap()@[i],
                ),
    {
        if !self.is_ok() {
            return Err(
                message_or(self.message, String::from_str("runkitd failed to enumerate services")),
            );
        }
        match self.data {
            None => Err(String::from_str("runkitd returned no service data")),
            Some(snapshots) => Ok(services_of(snapshots)),
        }
    }
}

impl DaemonProcessResponse<Vec<LogEntrySnapshot>> {
    /// The log lines that the answer holds, each decoded, in the order in
    /// which they came. An envelope that reports a failure gives its message;
    /// one that holds no data is a failure too.
    pub fn into_logs(self, service: &str) -> (r: Result<Vec<LogEntry>, String>)
        ensures
            !self.succeeded() ==> r is Err && r.unwrap_err()@ == text_or(
                self.message,
                "runkitd failed to stream logs for "@ + service@,
            ),
            self.succeeded() && self.data is None ==> r is Err && r.unwrap_err()@
                == "runkitd returned no log data"@,
            self.succeeded() && self.data is Some ==> r is Ok && r.unwrap()@.len()
                == self.data.unwrap()@.len() && forall|i: int|
                0 <= i < r.unwrap()@.len() ==> #[trigger] r.unwrap()@[i] == LogEntry::from_spec(
                    self.data.unwrap()@[i],
                ),
    {
        if !self.is_ok() {
            return Err(
                message_or(self.message, sentence("runkitd failed to stream logs for ", service)),
            );
        }
        match self.data {
            None => Err(String::from_str("runkitd returned no log data")),
            Some(snapshots) => Ok(log_entries_of(snapshots)),
        }
    }
}

impl DaemonProcessResponse<DescriptionSnapshot> {
    /// The description that the answer holds. An envelope that reports a
    /// failure gives its message; one that holds no data is a failure too.
    pub fn into_description(self, service: &str) -> (r: Result<Option<String>, String>)
        ensures
            !self.succeeded() ==> r is Err && r.unwrap_err()@ == text_or(
                self.message,
                "runkitd failed to describe "@ + service@,
            ),
            self.succeeded() && self.data is None ==> r is Err && r.unwrap_err()@
                == "runkitd returned no description data"@,
            self.succeeded() && self.data is Some ==> r == Ok::<Option<String>, String>(
                self.data.unwrap().description,
            ),
    {
        if !self.is_ok() {
            return Err(message_or(self.message, sentence("runkitd failed to describe ", service)));
        }
        match self.data {
            None => Err(String::from_str("runkitd returned no description data")),
            Some(snapshot) => Ok(snapshot.description),
        }
    }
}

} // verus!
