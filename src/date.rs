//! The rendered `Date` header, refreshed once per second by a ticker so that
//! responses need not read the clock.

use vstd::prelude::*;

verus! {

/// Seconds between two refreshes of the rendered date.
pub const DATE_REFRESH_SECS: u64 = 1;

/// The first second since the Unix epoch that falls in the year 10000,
/// which an HTTP date cannot show.
pub const HTTP_DATE_END_SECS: u64 = 253402300800;

/// The IMF-fixdate (`Sun, 06 Nov 1994 08:49:37 GMT`) of a second since the
/// Unix epoch.
pub uninterp spec fn http_date_of(unix_secs: u64) -> Seq<char>;

/// Relies on httpdate::fmt_http_date: the IMF-fixdate of the given time,
/// 29 characters long; it panics from the year 10000 on.
#[verifier::external_body]
fn render_http_date(unix_secs: u64) -> (r: String)
    requires
        unix_secs < HTTP_DATE_END_SECS,
    ensures
        r@ == http_date_of(unix_secs),
        r@.len() == 29,
{
    httpdate::fmt_http_date(std::time::UNIX_EPOCH + std::time::Duration::from_secs(unix_secs))
}

/// A `DateCache` as plain values.
pub struct DateState {
    /// The second that the rendered date shows.
    pub secs: u64,
    pub rendered: Seq<char>,
    /// Whether a ticker keeps the date fresh.
    pub ticking: bool,
}

/// The date of the current second, rendered once, and whether a ticker keeps
/// it fresh.
#[derive(Debug)]
pub struct DateCache {
    secs: u64,
    rendered: String,
    ticking: bool,
}

impl View for DateCache {
    type V = DateState;

    closed spec fn view(&self) -> DateState {
        DateState { secs: self.secs, rendered: self.rendered@, ticking: self.ticking }
    }
}

impl DateCache {
    /// The rendered date is that of the second it records.
    pub open spec fn wf(&self) -> bool {
        &&& self@.rendered == http_date_of(self@.secs)
        &&& self@.secs < HTTP_DATE_END_SECS
    }

    /// A cache holding the date of `now_secs`, with no ticker.
    pub fn new(now_secs: u64) -> (r: DateCache)
        requires
            now_secs < HTTP_DATE_END_SECS,
        ensures
            r.wf(),
            r@.secs == now_secs,
            !r@.ticking,
    {
        DateCache { secs: now_secs, rendered: render_http_date(now_secs), ticking: false }
    }

    /// Brings the date to `now_secs`. It is rendered again only when the
    /// second has changed.
    pub fn refresh(&mut self, now_secs: u64)
        requires
            old(self).wf(),
            now_secs < HTTP_DATE_END_SECS,
        ensures
            final(self).wf(),
            final(self)@.secs == now_secs,
            final(self)@.ticking == old(self)@.ticking,
            old(self)@.secs == now_secs ==> final(self)@ == old(self)@,
    {
        if self.secs != now_secs {
            self.rendered = render_http_date(now_secs);
            self.secs = now_secs;
        }
    }

    /// A tick of the ticker: refreshes the date and marks it as kept fresh.
    pub fn update_interval(&mut self, now_secs: u64)
        requires
            old(self).wf(),
            now_secs < HTTP_DATE_END_SECS,
        ensures
            final(self).wf(),
            final(self)@.secs == now_secs,
            final(self)@.ticking,
            old(self)@.secs == now_secs ==> final(self)@.rendered == old(self)@.rendered,
    {
        self.refresh(now_secs);
        self.ticking = true;
    }

    /// The ticker has stopped: responses must read the clock again.
    pub fn interval_off(&mut self)
        ensures
            final(self)@ == (DateState { ticking: false, ..old(self)@ }),
    {
        self.ticking = false;
    }

    /// The date for a response, when the ticker keeps it fresh; `None` when
    /// the caller must read the clock and `refresh` first.
    pub fn cached(&self) -> (r: Option<&String>)
        ensures
            r is Some <==> self@.ticking,
            r matches Some(s) ==> s@ == self@.rendered,
    {
        if self.ticking {
            Some(&self.rendered)
        } else {
            None
        }
    }

    /// The rendered date, whether kept fresh or not.
    pub fn rendered(&self) -> (r: &String)
        ensures
            r@ == self@.rendered,
    {
        &self.rendered
    }
}

/// Two caches that record the same second show the same date: every response
/// within one second sees one string, and the string changes only when the
/// second does.
pub proof fn lemma_date_per_second(a: DateCache, b: DateCache)
    requires
        a.wf(),
        b.wf(),
        a@.secs == b@.secs,
    ensures
        a@.rendered == b@.rendered,
{
}

} // verus!
