//! Protocol options shared by every server and connection.

use vstd::prelude::*;

verus! {

/// Seconds of TCP keep-alive applied to accepted sockets while HTTP
/// keep-alive is on.
pub const TCP_KEEPALIVE_SECS: u64 = 90;

/// The options an `Http` holds, as plain values.
pub struct HttpOptions {
    pub keep_alive: bool,
    pub pipeline: bool,
    pub max_buf_size: Option<usize>,
    pub sleep_on_errors: bool,
}

/// A configuration of the HTTP protocol.
///
/// Each instance can be configured with protocol-level options such as
/// keep-alive, and is copied into every server and connection built from it.
#[derive(Clone, Copy, Debug, PartialEq, Eq, Structural)]
pub struct Http {
    max_buf_size: Option<usize>,
    keep_alive: bool,
    pipeline: bool,
    sleep_on_errors: bool,
}

impl View for Http {
    type V = HttpOptions;

    closed spec fn view(&self) -> HttpOptions {
        HttpOptions {
            keep_alive: self.keep_alive,
            pipeline: self.pipeline,
            max_buf_size: self.max_buf_size,
            sleep_on_errors: self.sleep_on_errors,
        }
    }
}

impl Http {
    /// Creates the default configuration: keep-alive on, pipelining off,
    /// no read-buffer cap, accept errors surfaced.
    pub fn new() -> (r: Http)
        ensures
            r@ == (HttpOptions {
                keep_alive: true,
                pipeline: false,
                max_buf_size: None,
                sleep_on_errors: false,
            }),
    {
        Http { keep_alive: true, max_buf_size: None, pipeline: false, sleep_on_errors: false }
    }

    /// Enables or disables HTTP keep-alive.
    pub fn keep_alive(&mut self, val: bool) -> (r: &mut Self)
        ensures
            r@ == (HttpOptions { keep_alive: val, ..old(self)@ }),
            *final(self) == *final(r),
    {
        self.keep_alive = val;
        self
    }

    /// Caps the read buffer of each connection at `max` bytes.
    pub fn max_buf_size(&mut self, max: usize) -> (r: &mut Self)
        ensures
            r@ == (HttpOptions { max_buf_size: Some(max), ..old(self)@ }),
            *final(self) == *final(r),
    {
        self.max_buf_size = Some(max);
        self
    }

    /// Aggregates flushes to better support pipelined responses.
    pub fn pipeline(&mut self, enabled: bool) -> (r: &mut Self)
        ensures
            r@ == (HttpOptions { pipeline: enabled, ..old(self)@ }),
            *final(self) == *final(r),
    {
        self.pipeline = enabled;
        self
    }

    /// Swallows accept errors instead of passing them up: per-connection
    /// errors are retried at once, the others after a short sleep.
    pub fn sleep_on_errors(&mut self, enabled: bool) -> (r: &mut Self)
        ensures
            r@ == (HttpOptions { sleep_on_errors: enabled, ..old(self)@ }),
            *final(self) == *final(r),
    {
        self.sleep_on_errors = enabled;
        self
    }

    /// Whether HTTP keep-alive is on.
    pub fn is_keep_alive(&self) -> (r: bool)
        ensures
            r == self@.keep_alive,
    {
        self.keep_alive
    }

    /// Whether responses aggregate their flushes.
    pub fn is_pipeline(&self) -> (r: bool)
        ensures
            r == self@.pipeline,
    {
        self.pipeline
    }

    /// The read-buffer cap, if one is set.
    pub fn read_buf_limit(&self) -> (r: Option<usize>)
        ensures
            r == self@.max_buf_size,
    {
        self.max_buf_size
    }

    /// Whether accept errors are slept on rather than surfaced.
    pub fn is_sleep_on_errors(&self) -> (r: bool)
        ensures
            r == self@.sleep_on_errors,
    {
        self.sleep_on_errors
    }

    /// The TCP keep-alive, in seconds, to set on accepted sockets: some
    /// exactly when HTTP keep-alive is on.
    pub fn tcp_keepalive_secs(&self) -> (r: Option<u64>)
        ensures
            r == (if self@.keep_alive { Some(TCP_KEEPALIVE_SECS) } else { None }),
    {
        if self.keep_alive {
            Some(TCP_KEEPALIVE_SECS)
        } else {
            None
        }
    }
}

} // verus!
