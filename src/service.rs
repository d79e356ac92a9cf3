//! The business service: its messages, its errors, and the dispatch of a
//! method path to the one handled verb or to the `Unimplemented` fallback.
use crate::clock::{ClockError, TimeService};
use vstd::prelude::*;

verus! {

/// The request of `WhatTimeIsIt`: an empty message.
#[derive(Debug, Clone, Copy, Default, PartialEq, Eq, Structural)]
pub struct WhatTimeIsItRequest {}

/// The response of `WhatTimeIsIt`.
#[derive(Debug, Clone, Copy, Default, PartialEq, Eq, Structural)]
pub struct WhatTimeIsItResponse {
    /// Elapsed whole seconds since 1970-01-01T00:00:00Z.
    pub seconds_since_epoch: u64,
}

/// The request of `SomethingUnimplemented`, a verb of the schema that this
/// service does not handle.
#[derive(Debug, Clone, Copy, Default, PartialEq, Eq, Structural)]
pub struct SomethingUnimplementedRequest {}

/// The response of `SomethingUnimplemented`; never produced.
#[derive(Debug, Clone, Copy, Default, PartialEq, Eq, Structural)]
pub struct SomethingUnimplementedResponse {}

/// How a call on the business service fails.
#[derive(Debug, Clone, PartialEq, Eq)]
pub enum ServiceError {
    /// The handler could not produce an answer; `message` says why.
    Internal { message: String },
    /// The method is not handled by this service.
    Unimplemented,
}

/// The diagnostic that goes with a clock that reads earlier than the epoch.
pub open spec fn time_travel_message() -> Seq<char> {
    "the service is time travelling again"@
}

/// The fully qualified name under which the business service is registered.
pub open spec fn business_identity() -> Seq<char> {
    "com.github.canardleteer.grpc_service_rs.v1alpha1.SimpleTimestampService"@
}

/// The path of the one handled verb.
pub open spec fn what_time_is_it_path() -> Seq<char> {
    "/com.github.canardleteer.grpc_service_rs.v1alpha1.SimpleTimestampService/WhatTimeIsIt"@
}

/// The path of the verb that the schema declares and this service leaves out.
pub open spec fn something_unimplemented_path() -> Seq<char> {
    "/com.github.canardleteer.grpc_service_rs.v1alpha1.SimpleTimestampService/SomethingUnimplemented"@
}

/// The methods that the business service's schema declares, and a fallback
/// for every other path.
#[derive(Debug, Clone, Copy, PartialEq, Eq, Structural)]
pub enum Method {
    WhatTimeIsIt,
    SomethingUnimplemented,
    Unknown,
}

/// The method that a request path names.
pub open spec fn method_of(path: Seq<char>) -> Method {
    if path == what_time_is_it_path() {
        Method::WhatTimeIsIt
    } else if path == something_unimplemented_path() {
        Method::SomethingUnimplemented
    } else {
        Method::Unknown
    }
}

/// The answer to `WhatTimeIsIt` for a given clock reading: the seconds
/// unchanged, or an internal error with the fixed diagnostic.
pub open spec fn answers(reading: Result<u64, ClockError>, r: Result<WhatTimeIsItResponse, ServiceError>) -> bool {
    match reading {
        Ok(secs) => r == Ok::<WhatTimeIsItResponse, ServiceError>(WhatTimeIsItResponse { seconds_since_epoch: secs }),
        Err(_) => match r {
            Err(ServiceError::Internal { message }) => message@ == time_travel_message(),
            _ => false,
        },
    }
}

/// The answer to a call on `path` for a given clock reading: the handled verb
/// answers from the reading, every other path is `Unimplemented`.
pub open spec fn dispatches(path: Seq<char>, reading: Result<u64, ClockError>, r: Result<WhatTimeIsItResponse, ServiceError>) -> bool {
    if method_of(path) == Method::WhatTimeIsIt {
        answers(reading, r)
    } else {
        r == Err::<WhatTimeIsItResponse, ServiceError>(ServiceError::Unimplemented)
    }
}

/// The name under which the business service is registered.
pub fn business_service_name() -> (r: String)
    ensures
        r@ == business_identity(),
{
    "com.github.canardleteer.grpc_service_rs.v1alpha1.SimpleTimestampService".to_owned()
}

impl Method {
    /// The method that a request path names; any path but the schema's two
    /// is `Unknown`.
    pub fn from_path(path: &str) -> (r: Method)
        ensures
            r == method_of(path@),
    {
        let p = path.to_owned();
        let what = "/com.github.canardleteer.grpc_service_rs.v1alpha1.SimpleTimestampService/WhatTimeIsIt".to_owned();
        let unimpl = "/com.github.canardleteer.grpc_service_rs.v1alpha1.SimpleTimestampService/SomethingUnimplemented".to_owned();
        if p == what {
            Method::WhatTimeIsIt
        } else if p == unimpl {
            Method::SomethingUnimplemented
        } else {
            Method::Unknown
        }
    }
}

/// The business service as exposed over RPC, version `v1alpha1`.
#[derive(Debug, Default)]
pub struct TimeServiceGRPCV1Alpha1 {
    inner: TimeService,
}

impl TimeServiceGRPCV1Alpha1 {
    pub fn new() -> (r: TimeServiceGRPCV1Alpha1) {
        TimeServiceGRPCV1Alpha1 { inner: TimeService::new() }
    }

    /// The answer to `WhatTimeIsIt` for a given clock reading.
    pub fn answer(reading: Result<u64, ClockError>) -> (r: Result<WhatTimeIsItResponse, ServiceError>)
        ensures
            answers(reading, r),
    {
        match reading {
            Ok(secs) => Ok(WhatTimeIsItResponse { seconds_since_epoch: secs }),
            Err(_) => Err(ServiceError::Internal { message: "the service is time travelling again".to_owned() }),
        }
    }

    /// The answer to a call on `path` for a given clock reading.
    pub fn dispatch_with_reading(path: &str, reading: Result<u64, ClockError>) -> (r: Result<WhatTimeIsItResponse, ServiceError>)
        ensures
            dispatches(path@, reading, r),
    {
        match Method::from_path(path) {
            Method::WhatTimeIsIt => Self::answer(reading),
            _ => Err(ServiceError::Unimplemented),
        }
    }

    /// The one verb this service supports: reads the clock and answers from
    /// the reading.
    pub fn what_time_is_it(&self, _request: WhatTimeIsItRequest) -> (r: Result<WhatTimeIsItResponse, ServiceError>)
        ensures
            exists|reading: Result<u64, ClockError>| answers(reading, r),
    {
        let reading = self.inner.what_time_is_it();
        Self::answer(reading)
    }

    /// A verb of the schema that this service does not handle.
    pub fn something_unimplemented(&self, _request: SomethingUnimplementedRequest) -> (r: Result<SomethingUnimplementedResponse, ServiceError>)
        ensures
            r == Err::<SomethingUnimplementedResponse, ServiceError>(ServiceError::Unimplemented),
    {
        Err(ServiceError::Unimplemented)
    }

    /// Answers a call on `path`: the handled verb reads the clock, every
    /// other path is `Unimplemented` without reading it.
    pub fn dispatch(&self, path: &str) -> (r: Result<WhatTimeIsItResponse, ServiceError>)
        ensures
            method_of(path@) != Method::WhatTimeIsIt ==> r == Err::<WhatTimeIsItResponse, ServiceError>(ServiceError::Unimplemented),
            method_of(path@) == Method::WhatTimeIsIt ==> exists|reading: Result<u64, ClockError>| answers(reading, r),
    {
        match Method::from_path(path) {
            Method::WhatTimeIsIt => self.what_time_is_it(WhatTimeIsItRequest {  }),
            _ => Err(ServiceError::Unimplemented),
        }
    }
}

/// Every path but that of `WhatTimeIsIt` is answered with `Unimplemented`,
/// and with no other error, whatever the clock reads.
pub proof fn lemma_other_paths_unimplemented(path: Seq<char>, reading: Result<u64, ClockError>, r: Result<WhatTimeIsItResponse, ServiceError>)
    requires
        path != what_time_is_it_path(),
        dispatches(path, reading, r),
    ensures
        r == Err::<WhatTimeIsItResponse, ServiceError>(ServiceError::Unimplemented),
{
}

/// The handler never reorders clock readings: a later reading (one not
/// smaller) never yields a smaller `seconds_since_epoch`.
pub proof fn lemma_answers_keep_order(a: u64, b: u64, ra: Result<WhatTimeIsItResponse, ServiceError>, rb: Result<WhatTimeIsItResponse, ServiceError>)
    requires
        a <= b,
        answers(Ok(a), ra),
        answers(Ok(b), rb),
    ensures
        ra is Ok && rb is Ok,
        ra->Ok_0.seconds_since_epoch <= rb->Ok_0.seconds_since_epoch,
{
}

} // verus!
