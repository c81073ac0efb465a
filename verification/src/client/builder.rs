//! Configuration of a connection, and the rule that keeps plaintext
//! connections on the local machine unless the caller opts out.

use crate::error::{Error, ErrorView};
use crate::model::{concat3, is_prefix, option_view, starts_with};
use crate::types::keys::key_eq;
use std::time::Duration;
use vstd::prelude::*;
use vstd::string::StringExecFns;
use vstd::utf8::encode_utf8;

verus! {

/// What parsing an endpoint as a URI gives: the host of the URI, which a
/// URI may lack, or the reason why the endpoint is no URI. It stands for
/// the result of `http::Uri`'s parser, followed by `http::Uri::host` where
/// the parser succeeds and by the `Display` of `http::uri::InvalidUri`
/// where it fails.
pub uninterp spec fn endpoint_host(endpoint: Seq<char>) -> Result<Option<Seq<char>>, Seq<char>>;

/// The model of what parsing an endpoint gave.
pub open spec fn parsed_view(parsed: Result<Option<String>, String>) -> Result<
    Option<Seq<char>>,
    Seq<char>,
> {
    match parsed {
        Ok(host) => Ok(option_view(host)),
        Err(reason) => Err(reason@),
    }
}

/// Parses `endpoint` with `<http::Uri as FromStr>::from_str`; reads the
/// host of the URI with `http::Uri::host`, or renders the reason of the
/// failure with the `Display` impl of `http::uri::InvalidUri`.
///
/// Trusted: all three depend on the text of the endpoint alone, so the
/// result is named by [`endpoint_host`]; nothing more is claimed of it.
#[verifier::external_body]
fn parse_endpoint_host(endpoint: &str) -> (r: Result<Option<String>, String>)
    ensures
        parsed_view(r) == endpoint_host(endpoint@),
{
    match endpoint.parse::<http::Uri>() {
        Ok(uri) => Ok(uri.host().map(str::to_owned)),
        Err(e) => Err(e.to_string()),
    }
}

/// Asks `tonic::transport::Endpoint::from_shared` whether it takes
/// `endpoint`, and hands back the `Display` text of its error if not.
///
/// Trusted: tonic parses the endpoint with the parser of `http::Uri` and
/// fails exactly where that parser fails; its error for an endpoint that is
/// no URI prints as `invalid URI`.
#[verifier::external_body]
fn endpoint_rejection(endpoint: &str) -> (r: Option<String>)
    ensures
        r is None <==> endpoint_host(endpoint@) is Ok,
        r matches Some(reason) ==> reason@ == "invalid URI"@,
{
    match tonic::transport::Endpoint::from_shared(endpoint.to_owned()) {
        Ok(_) => None,
        Err(e) => Some(e.to_string()),
    }
}

/// Whether a host names the local machine.
pub open spec fn is_loopback(host: Seq<char>) -> bool {
    host == "localhost"@ || host == "127.0.0.1"@ || host == "::1"@ || host == "[::1]"@
}

/// The host of a URI, or the empty string where it has none.
pub open spec fn host_or_empty(host: Option<Seq<char>>) -> Seq<char> {
    match host {
        Some(h) => h,
        None => Seq::empty(),
    }
}

/// Whether an endpoint asks for a plaintext connection that the caller has
/// not explicitly allowed, so that it must lead to the local machine.
pub open spec fn must_be_loopback(endpoint: Seq<char>, insecure: bool) -> bool {
    is_prefix("http://"@, endpoint) && !insecure
}

/// The message of the failure for a plaintext endpoint that leads elsewhere.
pub open spec fn non_loopback_message(endpoint: Seq<char>) -> Seq<char> {
    "insecure connection to non-loopback address '"@ + endpoint
        + "' requires .insecure(true) on the builder. Use https:// for production."@
}

/// Tells whether a host names the local machine.
pub fn is_loopback_host(host: &str) -> (r: bool)
    ensures
        r == is_loopback(host@),
{
    key_eq(host, "localhost") || key_eq(host, "127.0.0.1") || key_eq(host, "::1") || key_eq(
        host,
        "[::1]",
    )
}

/// Decides whether a plaintext connection to `endpoint`, whose URI has the
/// given host, may be attempted: only if the host names the local machine.
pub fn check_plaintext_host(endpoint: &str, host: Option<&str>) -> (r: Result<(), Error>)
    ensures
        match r {
            Ok(_) => is_loopback(host_or_empty(option_view(host))),
            Err(e) => !is_loopback(host_or_empty(option_view(host))) && e@
                == ErrorView::InvalidArgument(non_loopback_message(endpoint@)),
        },
{
    let name = match host {
        Some(h) => h,
        None => "",
    };
    proof {
        reveal_strlit("");
        assert(name@ =~= host_or_empty(option_view(host)));
    }
    if is_loopback_host(name) {
        Ok(())
    } else {
        Err(
            Error::InvalidArgument(
                concat3(
                    "insecure connection to non-loopback address '",
                    endpoint,
                    "' requires .insecure(true) on the builder. Use https:// for production.",
                ),
            ),
        )
    }
}

/// Whether a byte may stand in the value of a header: any byte but the
/// control characters, of which only the tab is let through.
pub open spec fn header_byte(b: u8) -> bool {
    (b >= 32 && b != 127) || b == 9
}

/// Whether a text may be sent as the value of a header: every byte of its
/// UTF-8 encoding may stand there.
pub open spec fn header_text(text: Seq<char>) -> bool {
    forall|i: int| 0 <= i < encode_utf8(text).len() ==> header_byte(#[trigger] encode_utf8(text)[i])
}

/// Tells whether `tonic` takes `value` as the value of a metadata entry, by
/// `<MetadataValue<Ascii> as FromStr>::from_str`.
///
/// Trusted: tonic hands the text to `http::HeaderValue::from_str`, which
/// succeeds exactly if every byte is at least 32 and not 127, or is a tab.
#[verifier::external_body]
fn metadata_value_parses(value: &str) -> (ok: bool)
    ensures
        ok == header_text(value@),
{
    value.parse::<tonic::metadata::MetadataValue<tonic::metadata::Ascii>>().is_ok()
}

/// What preparing the authorization header for `token` yields: the token
/// after `Bearer `, or an invalid-argument failure where that text cannot
/// be sent as a header.
pub open spec fn bearer_header_of(token: Seq<char>) -> Result<Seq<char>, ErrorView> {
    if header_text("Bearer "@ + token) {
        Ok("Bearer "@ + token)
    } else {
        Err(ErrorView::InvalidArgument("invalid bearer token"@))
    }
}

/// Prepares the value of the authorization header that carries `token`.
pub fn bearer_header(token: &str) -> (r: Result<String, Error>)
    ensures
        match r {
            Ok(header) => bearer_header_of(token@) == Ok::<Seq<char>, ErrorView>(header@),
            Err(e) => bearer_header_of(token@) == Err::<Seq<char>, ErrorView>(e@),
        },
{
    let header = "Bearer ".to_owned().concat(token);
    if metadata_value_parses(header.as_str()) {
        Ok(header)
    } else {
        Err(Error::invalid_argument("invalid bearer token"))
    }
}

/// The settings of a connection that passed validation.
#[derive(Debug, Clone, PartialEq, Eq)]
pub struct ConnectionSettings {
    /// The endpoint to connect to.
    pub endpoint: String,
    /// The bearer token sent with every request.
    pub token: String,
    /// The connection timeout, if set.
    pub connect_timeout: Option<Duration>,
    /// The default timeout applied to every request, if set.
    pub default_timeout: Option<Duration>,
}

/// Mathematical model of [`ConnectionSettings`].
pub struct ConnectionSettingsView {
    pub endpoint: Seq<char>,
    pub token: Seq<char>,
    pub connect_timeout: Option<Duration>,
    pub default_timeout: Option<Duration>,
}

impl View for ConnectionSettings {
    type V = ConnectionSettingsView;

    open spec fn view(&self) -> ConnectionSettingsView {
        ConnectionSettingsView {
            endpoint: self.endpoint@,
            token: self.token@,
            connect_timeout: self.connect_timeout,
            default_timeout: self.default_timeout,
        }
    }
}

/// A builder for configuring a connection.
pub struct ClientBuilder {
    endpoint: String,
    token: String,
    insecure: bool,
    connect_timeout: Option<Duration>,
    default_timeout: Option<Duration>,
}

/// Mathematical model of [`ClientBuilder`].
pub struct ClientBuilderView {
    pub endpoint: Seq<char>,
    pub token: Seq<char>,
    pub insecure: bool,
    pub connect_timeout: Option<Duration>,
    pub default_timeout: Option<Duration>,
}

impl ClientBuilderView {
    /// The settings that a builder stands for.
    pub open spec fn settings(self) -> ConnectionSettingsView {
        ConnectionSettingsView {
            endpoint: self.endpoint,
            token: self.token,
            connect_timeout: self.connect_timeout,
            default_timeout: self.default_timeout,
        }
    }
}

/// What validating a configuration yields, given what parsing its endpoint
/// gave.
///
/// An endpoint that asks for a plaintext connection the caller has not
/// allowed must be a URI whose host names the local machine. Any other
/// endpoint must be a URI. Every failure is an invalid argument.
pub open spec fn validated(
    builder: ClientBuilderView,
    parsed: Result<Option<Seq<char>>, Seq<char>>,
) -> Result<ConnectionSettingsView, ErrorView> {
    match parsed {
        Err(reason) => if must_be_loopback(builder.endpoint, builder.insecure) {
            Err(ErrorView::InvalidArgument("invalid endpoint URI: "@ + reason))
        } else {
            Err(ErrorView::InvalidArgument("invalid endpoint: "@ + "invalid URI"@))
        },
        Ok(host) => if must_be_loopback(builder.endpoint, builder.insecure) && !is_loopback(
            host_or_empty(host),
        ) {
            Err(ErrorView::InvalidArgument(non_loopback_message(builder.endpoint)))
        } else {
            Ok(builder.settings())
        },
    }
}

/// A configuration is valid exactly if its endpoint is a URI and, where it
/// asks for a plaintext connection that the caller has not allowed, the
/// host of that URI names the local machine.
pub proof fn lemma_validated(
    builder: ClientBuilderView,
    parsed: Result<Option<Seq<char>>, Seq<char>>,
)
    ensures
        validated(builder, parsed) is Ok <==> (parsed matches Ok(host) && (must_be_loopback(
            builder.endpoint,
            builder.insecure,
        ) ==> is_loopback(host_or_empty(host)))),
        validated(builder, parsed) matches Ok(s) ==> s == builder.settings(),
        validated(builder, parsed) matches Err(e) ==> e is InvalidArgument,
        builder.insecure && parsed is Ok ==> validated(builder, parsed) is Ok,
{
}

impl View for ClientBuilder {
    type V = ClientBuilderView;

    closed spec fn view(&self) -> ClientBuilderView {
        ClientBuilderView {
            endpoint: self.endpoint@,
            token: self.token@,
            insecure: self.insecure,
            connect_timeout: self.connect_timeout,
            default_timeout: self.default_timeout,
        }
    }
}

impl ClientBuilder {
    /// Starts the configuration of a connection to `endpoint`, authenticated
    /// by `token`. Plaintext connections to other machines are refused until
    /// allowed, and no timeout is set.
    pub fn new(endpoint: &str, token: &str) -> (b: ClientBuilder)
        ensures
            b@ == (ClientBuilderView {
                endpoint: endpoint@,
                token: token@,
                insecure: false,
                connect_timeout: None,
                default_timeout: None,
            }),
    {
        ClientBuilder {
            endpoint: endpoint.to_owned(),
            token: token.to_owned(),
            insecure: false,
            connect_timeout: None,
            default_timeout: None,
        }
    }

    /// Allow insecure (plaintext) connections to non-loopback addresses.
    pub fn insecure(self, insecure: bool) -> (b: ClientBuilder)
        ensures
            b@ == (ClientBuilderView { insecure, ..self@ }),
    {
        let mut b = self;
        b.insecure = insecure;
        b
    }

    /// Sets the connection timeout.
    pub fn connect_timeout(self, timeout: Duration) -> (b: ClientBuilder)
        ensures
            b@ == (ClientBuilderView { connect_timeout: Some(timeout), ..self@ }),
    {
        let mut b = self;
        b.connect_timeout = Some(timeout);
        b
    }

    /// Sets a default timeout applied to all requests unless overridden per
    /// request.
    pub fn default_timeout(self, timeout: Duration) -> (b: ClientBuilder)
        ensures
            b@ == (ClientBuilderView { default_timeout: Some(timeout), ..self@ }),
    {
        let mut b = self;
        b.default_timeout = Some(timeout);
        b
    }

    /// Validates the configuration before any connection is attempted and
    /// hands out the settings to connect with, or the invalid-argument
    /// failure that [`validated`] names.
    pub fn validate(self) -> (r: Result<ConnectionSettings, Error>)
        ensures
            match r {
                Ok(settings) => validated(self@, endpoint_host(self@.endpoint)) == Ok::<
                    ConnectionSettingsView,
                    ErrorView,
                >(settings@),
                Err(e) => validated(self@, endpoint_host(self@.endpoint)) == Err::<
                    ConnectionSettingsView,
                    ErrorView,
                >(e@),
            },
    {
        if starts_with(self.endpoint.as_str(), "http://") && !self.insecure {
            match parse_endpoint_host(self.endpoint.as_str()) {
                Err(reason) => {
                    return Err(
                        Error::InvalidArgument(
                            "invalid endpoint URI: ".to_owned().concat(reason.as_str()),
                        ),
                    );
                },
                Ok(host) => {
                    let checked = match &host {
                        Some(h) => check_plaintext_host(self.endpoint.as_str(), Some(h.as_str())),
                        None => check_plaintext_host(self.endpoint.as_str(), None),
                    };
                    match checked {
                        Err(e) => {
                            return Err(e);
                        },
                        Ok(_) => {},
                    }
                },
            }
        }
        match endpoint_rejection(self.endpoint.as_str()) {
            Some(reason) => {
                return Err(
                    Error::InvalidArgument("invalid endpoint: ".to_owned().concat(reason.as_str())),
                );
            },
            None => {},
        }
        Ok(
            ConnectionSettings {
                endpoint: self.endpoint,
                token: self.token,
                connect_timeout: self.connect_timeout,
                default_timeout: self.default_timeout,
            },
        )
    }
}

} // verus!
