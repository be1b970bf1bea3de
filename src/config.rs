//! HTTP/2 connection parameters, built once and then shared read-only.
//!
//! A conditional setter takes a value that may be absent and leaves the field
//! alone when it is; an unconditional setter always stores what it is given.
//! That asymmetry lets a caller layer overrides over defaults.

pub use http2::frame::{
    ExperimentalSettings, Priorities, PrioritiesBuilder, Priority, PseudoId, PseudoOrder,
    PseudoOrderBuilder, Setting, SettingId, SettingsOrder, SettingsOrderBuilder,
    StreamDependency, StreamId,
};
use vstd::prelude::*;

verus! {

/// Declares http2's `SettingsOrder` (the order of setting identifiers in the
/// SETTINGS frame) so a configuration can carry it. Opaque: nothing is assumed
/// of its contents.
#[verifier::external_type_specification]
#[verifier::external_body]
pub struct ExSettingsOrder(SettingsOrder);

/// Declares http2's `StreamDependency` (parent stream, weight and exclusivity of
/// the first HEADERS frame) so a configuration can carry it. Opaque.
#[verifier::external_type_specification]
#[verifier::external_body]
pub struct ExStreamDependency(StreamDependency);

/// Declares http2's `PseudoOrder` (the order of the pseudo-headers) so a
/// configuration can carry it. Opaque.
#[verifier::external_type_specification]
#[verifier::external_body]
pub struct ExPseudoOrder(PseudoOrder);

/// Declares http2's `ExperimentalSettings` (non-standard SETTINGS entries) so a
/// configuration can carry it. Opaque.
#[verifier::external_type_specification]
#[verifier::external_body]
pub struct ExExperimentalSettings(ExperimentalSettings);

/// Declares http2's `Priorities` (the PRIORITY frames sent after the connection
/// preface) so a configuration can carry it. Opaque.
#[verifier::external_type_specification]
#[verifier::external_body]
pub struct ExPriorities(Priorities);

/// A field set by a conditional setter: a present value replaces the
/// current one, an absent value leaves it.
pub open spec fn keep_or_set<T>(current: Option<T>, given: Option<T>) -> Option<T> {
    match given {
        Some(v) => Some(v),
        None => current,
    }
}

/// Configuration for an HTTP/2 connection.
///
/// Every field is either unset (the protocol engine's default applies) or
/// set. The orders say in which order the engine emits what is present; they
/// do not make anything present.
#[derive(Debug, Clone)]
#[non_exhaustive]
pub struct Http2Config {
    /// The initial stream ID for HTTP/2 communication.
    pub initial_stream_id: Option<u32>,

    /// The initial connection-level window size.
    pub initial_connection_window_size: Option<u32>,

    /// The size of the header compression table.
    pub header_table_size: Option<u32>,

    /// Enables or disables server push functionality.
    pub enable_push: Option<bool>,

    /// The maximum number of concurrent streams allowed.
    pub max_concurrent_streams: Option<u32>,

    /// The initial window size for stream-level flow control.
    pub initial_stream_window_size: Option<u32>,

    /// The maximum frame size allowed.
    pub max_frame_size: Option<u32>,

    /// The maximum size of header lists.
    pub max_header_list_size: Option<u32>,

    /// Placeholder for an unknown HTTP/2 setting with identifier `8`.
    pub unknown_setting8: Option<bool>,

    /// Placeholder for an unknown HTTP/2 setting with identifier `9`.
    pub unknown_setting9: Option<bool>,

    /// Whether to enable the CONNECT protocol.
    pub enable_connect_protocol: Option<bool>,

    /// Whether to disable RFC 7540 Stream Priorities.
    pub no_rfc7540_priorities: Option<bool>,

    /// The order in which settings are applied.
    pub settings_order: Option<SettingsOrder>,

    /// The priority settings for header frames.
    pub headers_stream_dependency: Option<StreamDependency>,

    /// The order of pseudo-header fields.
    pub headers_pseudo_order: Option<PseudoOrder>,

    /// Custom experimental HTTP/2 settings.
    pub experimental_settings: Option<ExperimentalSettings>,

    /// The priority configuration for priority frames.
    pub priorities: Option<Priorities>,
}

impl Http2Config {
    /// The configuration with every field unset.
    pub open spec fn unset() -> Http2Config {
        Http2Config {
            initial_stream_id: None,
            initial_connection_window_size: None,
            header_table_size: None,
            enable_push: None,
            max_concurrent_streams: None,
            initial_stream_window_size: None,
            max_frame_size: None,
            max_header_list_size: None,
            unknown_setting8: None,
            unknown_setting9: None,
            enable_connect_protocol: None,
            no_rfc7540_priorities: None,
            settings_order: None,
            headers_stream_dependency: None,
            headers_pseudo_order: None,
            experimental_settings: None,
            priorities: None,
        }
    }

    /// `self` after a conditional update of `initial_stream_id`.
    pub open spec fn with_initial_stream_id(self, v: Option<u32>) -> Http2Config {
        Http2Config { initial_stream_id: keep_or_set(self.initial_stream_id, v), ..self }
    }

    /// `self` after a conditional update of `initial_connection_window_size`.
    pub open spec fn with_initial_connection_window_size(self, v: Option<u32>) -> Http2Config {
        Http2Config { initial_connection_window_size: keep_or_set(self.initial_connection_window_size, v), ..self }
    }

    /// `self` after a conditional update of `header_table_size`.
    pub open spec fn with_header_table_size(self, v: Option<u32>) -> Http2Config {
        Http2Config { header_table_size: keep_or_set(self.header_table_size, v), ..self }
    }

    /// `self` with `enable_push` set to `v`.
    pub open spec fn with_enable_push(self, v: bool) -> Http2Config {
        Http2Config { enable_push: Some(v), ..self }
    }

    /// `self` after a conditional update of `max_concurrent_streams`.
    pub open spec fn with_max_concurrent_streams(self, v: Option<u32>) -> Http2Config {
        Http2Config { max_concurrent_streams: keep_or_set(self.max_concurrent_streams, v), ..self }
    }

    /// `self` after a conditional update of `initial_stream_window_size`.
    pub open spec fn with_initial_stream_window_size(self, v: Option<u32>) -> Http2Config {
        Http2Config { initial_stream_window_size: keep_or_set(self.initial_stream_window_size, v), ..self }
    }

    /// `self` after a conditional update of `max_frame_size`.
    pub open spec fn with_max_frame_size(self, v: Option<u32>) -> Http2Config {
        Http2Config { max_frame_size: keep_or_set(self.max_frame_size, v), ..self }
    }

    /// `self` with `max_header_list_size` set to `v`.
    pub open spec fn with_max_header_list_size(self, v: u32) -> Http2Config {
        Http2Config { max_header_list_size: Some(v), ..self }
    }

    /// `self` with `unknown_setting8` set to `v`.
    pub open spec fn with_unknown_setting8(self, v: bool) -> Http2Config {
        Http2Config { unknown_setting8: Some(v), ..self }
    }

    /// `self` with `unknown_setting9` set to `v`.
    pub open spec fn with_unknown_setting9(self, v: bool) -> Http2Config {
        Http2Config { unknown_setting9: Some(v), ..self }
    }

    /// `self` with `enable_connect_protocol` set to `v`.
    pub open spec fn with_enable_connect_protocol(self, v: bool) -> Http2Config {
        Http2Config { enable_connect_protocol: Some(v), ..self }
    }

    /// `self` with `no_rfc7540_priorities` set to `v`.
    pub open spec fn with_no_rfc7540_priorities(self, v: bool) -> Http2Config {
        Http2Config { no_rfc7540_priorities: Some(v), ..self }
    }

    /// `self` after a conditional update of `settings_order`.
    pub open spec fn with_settings_order(self, v: Option<SettingsOrder>) -> Http2Config {
        Http2Config { settings_order: keep_or_set(self.settings_order, v), ..self }
    }

    /// `self` after a conditional update of `headers_stream_dependency`.
    pub open spec fn with_headers_stream_dependency(self, v: Option<StreamDependency>) -> Http2Config {
        Http2Config { headers_stream_dependency: keep_or_set(self.headers_stream_dependency, v), ..self }
    }

    /// `self` after a conditional update of `headers_pseudo_order`.
    pub open spec fn with_headers_pseudo_order(self, v: Option<PseudoOrder>) -> Http2Config {
        Http2Config { headers_pseudo_order: keep_or_set(self.headers_pseudo_order, v), ..self }
    }

    /// `self` after a conditional update of `experimental_settings`.
    pub open spec fn with_experimental_settings(self, v: Option<ExperimentalSettings>) -> Http2Config {
        Http2Config { experimental_settings: keep_or_set(self.experimental_settings, v), ..self }
    }

    /// `self` after a conditional update of `priorities`.
    pub open spec fn with_priorities(self, v: Option<Priorities>) -> Http2Config {
        Http2Config { priorities: keep_or_set(self.priorities, v), ..self }
    }

    /// Creates a new `Http2ConfigBuilder` instance, with every field unset.
    pub fn builder() -> (r: Http2ConfigBuilder)
        ensures
            r@ == Http2Config::unset(),
    {
        Http2ConfigBuilder { opts: Http2Config::default() }
    }
}

impl Default for Http2Config {
    fn default() -> (r: Http2Config)
        ensures
            r == Http2Config::unset(),
    {
        Http2Config {
            initial_stream_id: None,
            initial_connection_window_size: None,
            header_table_size: None,
            enable_push: None,
            max_concurrent_streams: None,
            initial_stream_window_size: None,
            max_frame_size: None,
            max_header_list_size: None,
            unknown_setting8: None,
            unknown_setting9: None,
            enable_connect_protocol: None,
            no_rfc7540_priorities: None,
            settings_order: None,
            headers_stream_dependency: None,
            headers_pseudo_order: None,
            experimental_settings: None,
            priorities: None,
        }
    }
}

/// Builder for `Http2Config`. Each call consumes the builder and returns the
/// updated one, so no two configuration pipelines share builder state.
#[must_use]
#[derive(Debug, Clone)]
pub struct Http2ConfigBuilder {
    opts: Http2Config,
}

impl View for Http2ConfigBuilder {
    type V = Http2Config;

    /// The configuration that `build` would return now.
    closed spec fn view(&self) -> Http2Config {
        self.opts
    }
}

impl Http2ConfigBuilder {
    pub fn initial_stream_id(self, id: Option<u32>) -> (r: Self)
        ensures
            r@ == self@.with_initial_stream_id(id),
    {
        let mut b = self;
        if let Some(v) = id {
            b.opts.initial_stream_id = Some(v);
        }
        b
    }

    pub fn initial_connection_window_size(self, sz: Option<u32>) -> (r: Self)
        ensures
            r@ == self@.with_initial_connection_window_size(sz),
    {
        let mut b = self;
        if let Some(v) = sz {
            b.opts.initial_connection_window_size = Some(v);
        }
        b
    }

    pub fn header_table_size(self, size: Option<u32>) -> (r: Self)
        ensures
            r@ == self@.with_header_table_size(size),
    {
        let mut b = self;
        if let Some(v) = size {
            b.opts.header_table_size = Some(v);
        }
        b
    }

    pub fn enable_push(self, opt: bool) -> (r: Self)
        ensures
            r@ == self@.with_enable_push(opt),
    {
        let mut b = self;
        b.opts.enable_push = Some(opt);
        b
    }

    pub fn max_concurrent_streams(self, max: Option<u32>) -> (r: Self)
        ensures
            r@ == self@.with_max_concurrent_streams(max),
    {
        let mut b = self;
        if let Some(v) = max {
            b.opts.max_concurrent_streams = Some(v);
        }
        b
    }

    pub fn initial_stream_window_size(self, sz: Option<u32>) -> (r: Self)
        ensures
            r@ == self@.with_initial_stream_window_size(sz),
    {
        let mut b = self;
        if let Some(v) = sz {
            b.opts.initial_stream_window_size = Some(v);
        }
        b
    }

    /// Alias for `initial_stream_window_size`.
    pub fn initial_window_size(self, sz: Option<u32>) -> (r: Self)
        ensures
            r@ == self@.with_initial_stream_window_size(sz),
    {
        self.initial_stream_window_size(sz)
    }

    pub fn max_frame_size(self, sz: Option<u32>) -> (r: Self)
        ensures
            r@ == self@.with_max_frame_size(sz),
    {
        let mut b = self;
        if let Some(v) = sz {
            b.opts.max_frame_size = Some(v);
        }
        b
    }

    pub fn max_header_list_size(self, max: u32) -> (r: Self)
        ensures
            r@ == self@.with_max_header_list_size(max),
    {
        let mut b = self;
        b.opts.max_header_list_size = Some(max);
        b
    }

    pub fn unknown_setting8(self, opt: bool) -> (r: Self)
        ensures
            r@ == self@.with_unknown_setting8(opt),
    {
        let mut b = self;
        b.opts.unknown_setting8 = Some(opt);
        b
    }

    pub fn unknown_setting9(self, opt: bool) -> (r: Self)
        ensures
            r@ == self@.with_unknown_setting9(opt),
    {
        let mut b = self;
        b.opts.unknown_setting9 = Some(opt);
        b
    }

    pub fn enable_connect_protocol(self, opt: bool) -> (r: Self)
        ensures
            r@ == self@.with_enable_connect_protocol(opt),
    {
        let mut b = self;
        b.opts.enable_connect_protocol = Some(opt);
        b
    }

    pub fn no_rfc7540_priorities(self, opt: bool) -> (r: Self)
        ensures
            r@ == self@.with_no_rfc7540_priorities(opt),
    {
        let mut b = self;
        b.opts.no_rfc7540_priorities = Some(opt);
        b
    }

    pub fn settings_order(self, settings_order: Option<SettingsOrder>) -> (r: Self)
        ensures
            r@ == self@.with_settings_order(settings_order),
    {
        let mut b = self;
        if let Some(v) = settings_order {
            b.opts.settings_order = Some(v);
        }
        b
    }

    /// Alias for `headers_stream_dependency`.
    pub fn headers_priority(self, stream_dependency: Option<StreamDependency>) -> (r: Self)
        ensures
            r@ == self@.with_headers_stream_dependency(stream_dependency),
    {
        self.headers_stream_dependency(stream_dependency)
    }

    pub fn headers_stream_dependency(self, stream_dependency: Option<StreamDependency>) -> (r: Self)
        ensures
            r@ == self@.with_headers_stream_dependency(stream_dependency),
    {
        let mut b = self;
        if let Some(v) = stream_dependency {
            b.opts.headers_stream_dependency = Some(v);
        }
        b
    }

    pub fn headers_pseudo_order(self, headers_pseudo_order: Option<PseudoOrder>) -> (r: Self)
        ensures
            r@ == self@.with_headers_pseudo_order(headers_pseudo_order),
    {
        let mut b = self;
        if let Some(v) = headers_pseudo_order {
            b.opts.headers_pseudo_order = Some(v);
        }
        b
    }

    pub fn experimental_settings(self, experimental_settings: Option<ExperimentalSettings>) -> (r: Self)
        ensures
            r@ == self@.with_experimental_settings(experimental_settings),
    {
        let mut b = self;
        if let Some(v) = experimental_settings {
            b.opts.experimental_settings = Some(v);
        }
        b
    }

    /// Alias for `priorities`.
    pub fn priority(self, priorities: Option<Priorities>) -> (r: Self)
        ensures
            r@ == self@.with_priorities(priorities),
    {
        self.priorities(priorities)
    }

    pub fn priorities(self, priorities: Option<Priorities>) -> (r: Self)
        ensures
            r@ == self@.with_priorities(priorities),
    {
        let mut b = self;
        if let Some(v) = priorities {
            b.opts.priorities = Some(v);
        }
        b
    }

    /// Finish and return the configuration.
    pub fn build(self) -> (r: Http2Config)
        ensures
            r == self@,
    {
        self.opts
    }
}

/// A conditional setter handed an absent value changes nothing, so any run of
/// such calls leaves the configuration exactly as it was.
pub proof fn absent_values_keep_config(c: Http2Config)
    ensures
        c.with_initial_stream_id(None) == c,
        c.with_initial_connection_window_size(None) == c,
        c.with_header_table_size(None) == c,
        c.with_max_concurrent_streams(None) == c,
        c.with_initial_stream_window_size(None) == c,
        c.with_max_frame_size(None) == c,
        c.with_settings_order(None) == c,
        c.with_headers_stream_dependency(None) == c,
        c.with_headers_pseudo_order(None) == c,
        c.with_experimental_settings(None) == c,
        c.with_priorities(None) == c,
{
}

/// An unconditional setter always stores the value it is given, whatever the
/// field held: of two calls on the same field, the last one wins, and no other
/// field moves.
pub proof fn last_unconditional_call_wins(c: Http2Config, a: bool, b: bool, x: u32, y: u32)
    ensures
        c.with_enable_push(b).enable_push == Some(b),
        c.with_enable_push(a).with_enable_push(b) == c.with_enable_push(b),
        (Http2Config { enable_push: c.enable_push, ..c.with_enable_push(b) }) == c,
        c.with_max_header_list_size(y).max_header_list_size == Some(y),
        c.with_max_header_list_size(x).with_max_header_list_size(y) == c.with_max_header_list_size(y),
        (Http2Config { max_header_list_size: c.max_header_list_size, ..c.with_max_header_list_size(y) }) == c,
        c.with_unknown_setting8(b).unknown_setting8 == Some(b),
        c.with_unknown_setting8(a).with_unknown_setting8(b) == c.with_unknown_setting8(b),
        (Http2Config { unknown_setting8: c.unknown_setting8, ..c.with_unknown_setting8(b) }) == c,
        c.with_unknown_setting9(b).unknown_setting9 == Some(b),
        c.with_unknown_setting9(a).with_unknown_setting9(b) == c.with_unknown_setting9(b),
        (Http2Config { unknown_setting9: c.unknown_setting9, ..c.with_unknown_setting9(b) }) == c,
        c.with_enable_connect_protocol(b).enable_connect_protocol == Some(b),
        c.with_enable_connect_protocol(a).with_enable_connect_protocol(b) == c.with_enable_connect_protocol(b),
        (Http2Config { enable_connect_protocol: c.enable_connect_protocol, ..c.with_enable_connect_protocol(b) }) == c,
        c.with_no_rfc7540_priorities(b).no_rfc7540_priorities == Some(b),
        c.with_no_rfc7540_priorities(a).with_no_rfc7540_priorities(b) == c.with_no_rfc7540_priorities(b),
        (Http2Config { no_rfc7540_priorities: c.no_rfc7540_priorities, ..c.with_no_rfc7540_priorities(b) }) == c,
{
}

} // verus!
