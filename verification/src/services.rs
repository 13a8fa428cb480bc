//! The service abstraction: options, results, and the capability traits
//! that a concrete backend implements.

use vstd::prelude::*;
use crate::error::LopError;
use crate::timestamps::now_epoch_ms;

pub mod vh7;

verus! {

/// Milliseconds in one day.
pub const MS_PER_DAY: i64 = 86_400_000;

/// The largest day count whose millisecond equivalent fits in an `i64`.
pub const MAX_EXPIRY_DAYS: i64 = 106_751_991_167;

/// A span of time, in whole milliseconds.
#[derive(Clone, Copy, Debug)]
pub struct Duration {
    pub millis: i64,
}

impl Duration {
    /// The span of a whole number of days.
    pub fn days(n: i64) -> (r: Duration)
        requires
            -MAX_EXPIRY_DAYS <= n <= MAX_EXPIRY_DAYS,
        ensures
            r.millis == n * MS_PER_DAY,
    {
        Duration { millis: n * MS_PER_DAY }
    }
}

/// What a successful remote call yields: the public URL of the created
/// resource and, where the server set one, its expiry as milliseconds
/// since the Unix epoch.
#[derive(Debug)]
pub struct ServiceResult {
    pub url: String,
    pub expires: Option<i64>,
}

/// Whether an executable optional millisecond count carries exactly the
/// instants of a mathematical one.
pub open spec fn same_opt_ms(x: Option<i64>, y: Option<int>) -> bool {
    match x {
        Some(ms) => y == Some(ms as int),
        None => y is None,
    }
}

/// Per-invocation configuration: how long the created resource should
/// live. `None` asks the server for a resource that never expires.
#[derive(Clone, Copy, Debug)]
pub struct ServiceOptions {
    pub expiry: Option<Duration>,
}

impl ServiceOptions {
    /// The absolute expiry implied by the options at the instant `now_ms`:
    /// nothing where no expiry is requested, and the instant shifted by
    /// the requested span otherwise.
    pub open spec fn spec_expiry_at(&self, now_ms: int) -> Option<int> {
        match self.expiry {
            Some(d) => Some(now_ms + d.millis),
            None => None,
        }
    }

    /// The absolute expiry timestamp implied by the options at the instant
    /// `now_ms`: nothing where no expiry is requested, and the instant
    /// shifted by the requested span otherwise.
    pub fn expiry_epoch_ms_at(&self, now_ms: i64) -> (r: Option<i64>)
        requires
            self.expiry matches Some(d) ==> i64::MIN <= now_ms + d.millis <= i64::MAX,
        ensures
            r is None <==> self.expiry is None,
            self.expiry matches Some(d) ==> r == Some((now_ms + d.millis) as i64),
            same_opt_ms(r, self.spec_expiry_at(now_ms as int)),
    {
        match self.expiry {
            Some(d) => Some(now_ms + d.millis),
            None => None,
        }
    }

    /// The absolute expiry timestamp implied by the options at the present
    /// instant. Where the shifted instant falls outside the range of an
    /// `i64` millisecond count it is clamped to the nearest end of that
    /// range rather than aborting the command.
    pub fn expiry_epoch_ms(&self) -> (r: Option<i64>)
        ensures
            r is Some <==> self.expiry is Some,
    {
        match self.expiry {
            Some(d) => {
                let now = now_epoch_ms();
                match now.checked_add(d.millis) {
                    Some(ts) => Some(ts),
                    None => Some(
                        if d.millis >= 0 {
                            i64::MAX
                        } else {
                            i64::MIN
                        },
                    ),
                }
            },
            None => None,
        }
    }
}

/// Law: against one clock instant, requesting a longer expiry never
/// yields an earlier timestamp, and requesting equal expiries yields
/// equal timestamps.
pub proof fn lemma_expiry_monotone(a: ServiceOptions, b: ServiceOptions, now_ms: int)
    requires
        a.expiry is Some,
        b.expiry is Some,
        a.expiry.unwrap().millis <= b.expiry.unwrap().millis,
    ensures
        a.spec_expiry_at(now_ms).unwrap() <= b.spec_expiry_at(now_ms).unwrap(),
{
}

/// A backend that can be constructed from its built-in configuration.
pub trait Service: Sized {
    fn new() -> Result<Self, LopError>;
}

/// A backend that maps a long URL to a short one.
pub trait ShortenService {
    fn shorten(&self, opts: &ServiceOptions, url: &str) -> Result<ServiceResult, LopError>;
}

/// A backend that hosts a block of text.
pub trait PasteService {
    fn paste(&self, opts: &ServiceOptions, code: &str, language: &str) -> Result<
        ServiceResult,
        LopError,
    >;
}

/// A backend that hosts an uploaded file.
pub trait UploadService {
    fn upload(
        &self,
        opts: &ServiceOptions,
        data: Vec<u8>,
        file_name: String,
        mime_type: String,
    ) -> Result<ServiceResult, LopError>;
}

} // verus!
