//! The connection context: a target endpoint and a cached channel to it.
//!
//! Connecting is network work, which the caller performs. The context decides
//! what an acquisition has to do (`TempoContext::channel`) and what becomes of
//! the outcome of a connection attempt (`TempoContext::connected`).

use crate::endpoint::{
    endpoint_connection_window, endpoint_for, endpoint_stream_window, endpoint_target,
    endpoint_text, uri_accepted, uri_of_text, MAX_MESSAGE_SIZE,
};
use crate::error::TempoError;
use tonic::transport::{Channel, Endpoint};
use vstd::prelude::*;

verus! {

/// Address of the server that a context targets until it is told otherwise.
pub const DEFAULT_ADDRESS: &'static str = "localhost";

/// Port of the server that a context targets until it is told otherwise.
pub const DEFAULT_PORT: u16 = 10001;

/// `tonic::transport::Channel`: a shareable handle to an established
/// connection. Opaque here: it is stored and handed on, never looked into.
#[verifier::external_type_specification]
#[verifier::external_body]
pub struct ExChannel(Channel);

/// Calls `Channel::clone`. Trusted: the clone is a handle to the same
/// connection, which contracts treat as the same value.
#[verifier::external_body]
fn share(channel: &Channel) -> (shared: Channel)
    ensures
        shared == *channel,
{
    channel.clone()
}

/// A cached channel together with the target that it was opened for.
pub ghost struct CachedChannel {
    pub channel: Channel,
    pub address: Seq<char>,
    pub port: u16,
}

/// What an acquisition has to do.
pub ghost enum Decision {
    /// A channel is cached: hand it out, connect to nothing.
    Reuse(Channel),
    /// Nothing is cached: connect to this target.
    Connect { address: Seq<char>, port: u16 },
    /// Nothing is cached and the target's endpoint text is no URI: fail.
    Reject,
}

/// The mathematical model of a connection context.
pub ghost struct ContextView {
    pub address: Seq<char>,
    pub port: u16,
    pub cached: Option<CachedChannel>,
}

impl ContextView {
    /// A cached channel was opened for the current target.
    pub open spec fn wf(self) -> bool {
        self.cached matches Some(c) ==> c.address == self.address && c.port == self.port
    }

    /// A context for a target, with nothing cached.
    pub open spec fn fresh(address: Seq<char>, port: u16) -> ContextView {
        ContextView { address, port, cached: None }
    }

    /// The context after its target is replaced.
    pub open spec fn configure(self, address: Seq<char>, port: u16) -> ContextView {
        ContextView::fresh(address, port)
    }

    /// What an acquisition on this context has to do.
    pub open spec fn decide(self) -> Decision {
        match self.cached {
            Some(c) => Decision::Reuse(c.channel),
            None => if uri_accepted(endpoint_text(self.address, self.port)) {
                Decision::Connect { address: self.address, port: self.port }
            } else {
                Decision::Reject
            },
        }
    }

    /// Whether the outcome of an attempt for `(address, port)` becomes the
    /// cached channel: it succeeded, the target is still the one it was made
    /// for, and no other attempt was cached first.
    pub open spec fn caches(
        self,
        address: Seq<char>,
        port: u16,
        outcome: Result<Channel, tonic::transport::Error>,
    ) -> bool {
        outcome is Ok && self.cached is None && address == self.address && port == self.port
    }

    /// The context after the outcome of an attempt for `(address, port)`.
    pub open spec fn settle(
        self,
        address: Seq<char>,
        port: u16,
        outcome: Result<Channel, tonic::transport::Error>,
    ) -> ContextView {
        match outcome {
            Ok(channel) if self.caches(address, port, outcome) => ContextView {
                cached: Some(CachedChannel { channel, address, port }),
                ..self
            },
            _ => self,
        }
    }

    /// What the caller that made the attempt for `(address, port)` is handed.
    pub open spec fn handed(
        self,
        address: Seq<char>,
        port: u16,
        outcome: Result<Channel, tonic::transport::Error>,
    ) -> Result<Channel, TempoError> {
        match outcome {
            Err(cause) => Err(TempoError::Connection(cause)),
            Ok(channel) => match self.cached {
                Some(c) if address == self.address && port == self.port => Ok(c.channel),
                _ => Ok(channel),
            },
        }
    }
}

/// A connection attempt that a context asked for: the target, and the
/// endpoint to connect to.
pub struct ConnectAttempt {
    address: String,
    port: u16,
    endpoint: Endpoint,
}

impl ConnectAttempt {
    /// The endpoint holds the URI of the target's endpoint text and is sized
    /// for large messages.
    #[verifier::type_invariant]
    spec fn inv(&self) -> bool {
        &&& endpoint_target(self.endpoint) == uri_of_text(
            endpoint_text(self.address@, self.port),
        )
        &&& endpoint_stream_window(self.endpoint) == Some(MAX_MESSAGE_SIZE)
        &&& endpoint_connection_window(self.endpoint) == Some(MAX_MESSAGE_SIZE)
    }

    /// The address that the attempt is for.
    pub closed spec fn spec_address(&self) -> Seq<char> {
        self.address@
    }

    /// The port that the attempt is for.
    pub closed spec fn spec_port(&self) -> u16 {
        self.port
    }

    /// The endpoint to connect to.
    pub closed spec fn spec_endpoint(&self) -> Endpoint {
        self.endpoint
    }

    /// The address that the attempt is for.
    pub fn address(&self) -> (address: &str)
        ensures
            address@ == self.spec_address(),
    {
        self.address.as_str()
    }

    /// The port that the attempt is for.
    pub fn port(&self) -> (port: u16)
        ensures
            port == self.spec_port(),
    {
        self.port
    }

    /// The endpoint to connect to: it holds the URI that the transport makes
    /// of the endpoint text of the attempt's target, and asks for receive
    /// windows of `MAX_MESSAGE_SIZE` per stream and per connection.
    pub fn endpoint(&self) -> (endpoint: &Endpoint)
        ensures
            *endpoint == self.spec_endpoint(),
            endpoint_target(*endpoint) == uri_of_text(
                endpoint_text(self.spec_address(), self.spec_port()),
            ),
            endpoint_stream_window(*endpoint) == Some(MAX_MESSAGE_SIZE),
            endpoint_connection_window(*endpoint) == Some(MAX_MESSAGE_SIZE),
    {
        proof {
            use_type_invariant(self);
        }
        &self.endpoint
    }
}

/// What the caller of an acquisition does next.
pub enum Acquire {
    /// The cached channel: use it.
    Ready(Channel),
    /// Nothing is cached: make this attempt and report its outcome with
    /// `TempoContext::connected`.
    Connect(ConnectAttempt),
}

/// A target endpoint and a lazily established, cached channel to it.
pub struct TempoContext {
    address: String,
    port: u16,
    channel: Option<Channel>,
    origin: Ghost<(Seq<char>, u16)>,
}

impl View for TempoContext {
    type V = ContextView;

    closed spec fn view(&self) -> ContextView {
        ContextView {
            address: self.address@,
            port: self.port,
            cached: match self.channel {
                Some(channel) => Some(
                    CachedChannel { channel, address: self.origin@.0, port: self.origin@.1 },
                ),
                None => None,
            },
        }
    }
}

impl Default for TempoContext {
    /// A context for the default target, with nothing cached.
    fn default() -> (ctx: TempoContext)
        ensures
            ctx@ == ContextView::fresh(DEFAULT_ADDRESS@, DEFAULT_PORT),
    {
        TempoContext::new(DEFAULT_ADDRESS, DEFAULT_PORT)
    }
}

impl TempoContext {
    #[verifier::type_invariant]
    spec fn inv(&self) -> bool {
        self@.wf()
    }

    /// A context for a target, with nothing cached.
    pub fn new(address: &str, port: u16) -> (ctx: TempoContext)
        ensures
            ctx@ == ContextView::fresh(address@, port),
    {
        TempoContext {
            address: address.to_owned(),
            port,
            channel: None,
            origin: Ghost((address@, port)),
        }
    }

    /// Replaces the target and drops the cached channel, if there is one.
    /// Channels handed out earlier stay with their holders.
    pub fn set_server(&mut self, address: &str, port: u16)
        ensures
            final(self)@ == old(self)@.configure(address@, port),
    {
        *self = TempoContext::new(address, port);
    }

    /// Decides an acquisition. With a channel cached, it is handed out and no
    /// connection is attempted. With none, the result is the attempt to make
    /// for the current target, or a connection error where the target's
    /// endpoint text is not a URI. The context itself does not change.
    pub fn channel(&self) -> (res: Result<Acquire, TempoError>)
        ensures
            self@.wf(),
            match self@.decide() {
                Decision::Reuse(channel) => res == Ok::<Acquire, TempoError>(
                    Acquire::Ready(channel),
                ),
                Decision::Connect { address, port } => {
                    &&& res matches Ok(Acquire::Connect(attempt))
                    &&& attempt.spec_address() == address
                    &&& attempt.spec_port() == port
                    &&& endpoint_target(attempt.spec_endpoint()) == uri_of_text(
                        endpoint_text(address, port),
                    )
                    &&& endpoint_stream_window(attempt.spec_endpoint()) == Some(MAX_MESSAGE_SIZE)
                    &&& endpoint_connection_window(attempt.spec_endpoint()) == Some(
                        MAX_MESSAGE_SIZE,
                    )
                },
                Decision::Reject => res matches Err(TempoError::Connection(_)),
            },
    {
        proof {
            use_type_invariant(self);
        }
        match &self.channel {
            Some(cached) => Ok(Acquire::Ready(share(cached))),
            None => match endpoint_for(self.address.as_str(), self.port) {
                Ok(endpoint) => Ok(
                    Acquire::Connect(
                        ConnectAttempt { address: self.address.clone(), port: self.port, endpoint },
                    ),
                ),
                Err(err) => Err(err),
            },
        }
    }

    /// Takes the outcome of a connection attempt. A failure is a connection
    /// error and leaves the cache as it is. A channel is cached if the target
    /// is still the one that the attempt was made for and nothing was cached
    /// meanwhile; if something was, the caller is handed that cached channel,
    /// so that all holders share one connection. A channel for a target that
    /// has been replaced meanwhile is handed to the caller and not cached.
    pub fn connected(
        &mut self,
        attempt: ConnectAttempt,
        outcome: Result<Channel, tonic::transport::Error>,
    ) -> (res: Result<Channel, TempoError>)
        ensures
            final(self)@ == old(self)@.settle(
                attempt.spec_address(),
                attempt.spec_port(),
                outcome,
            ),
            res == old(self)@.handed(attempt.spec_address(), attempt.spec_port(), outcome),
            final(self)@.wf(),
    {
        proof {
            use_type_invariant(&*self);
        }
        match outcome {
            Err(cause) => Err(TempoError::from(cause)),
            Ok(channel) => {
                if attempt.port != self.port || attempt.address != self.address {
                    return Ok(channel);
                }
                match &self.channel {
                    Some(cached) => Ok(share(cached)),
                    None => {
                        let handed = share(&channel);
                        self.origin = Ghost((attempt.address@, attempt.port));
                        self.channel = Some(channel);
                        Ok(handed)
                    },
                }
            },
        }
    }

    /// The address of the current target.
    pub fn address(&self) -> (address: &str)
        ensures
            address@ == self@.address,
    {
        self.address.as_str()
    }

    /// The port of the current target.
    pub fn port(&self) -> (port: u16)
        ensures
            port == self@.port,
    {
        self.port
    }
}

/// What an acquisition does on a context with nothing cached: it connects to
/// the target, or fails where the target's endpoint text is no URI.
pub open spec fn first_decision(address: Seq<char>, port: u16) -> Decision {
    if uri_accepted(endpoint_text(address, port)) {
        Decision::Connect { address, port }
    } else {
        Decision::Reject
    }
}

/// The cached channel belongs to the current target in every state: in a
/// fresh context, after the target is replaced, and after the outcome of any
/// attempt, also of one made for a target that has been replaced since.
pub proof fn lemma_cache_follows_target(
    ctx: ContextView,
    address: Seq<char>,
    port: u16,
    outcome: Result<Channel, tonic::transport::Error>,
)
    requires
        ctx.wf(),
    ensures
        ContextView::fresh(address, port).wf(),
        ctx.configure(address, port).wf(),
        ctx.settle(address, port, outcome).wf(),
{
}

/// After the target is replaced, an acquisition connects to the new target,
/// whatever was cached before.
pub proof fn lemma_configure_redirects(ctx: ContextView, address: Seq<char>, port: u16)
    ensures
        ctx.configure(address, port).address == address,
        ctx.configure(address, port).port == port,
        ctx.configure(address, port).decide() == first_decision(address, port),
{
}

/// Replacing the target while a channel is cached drops that channel: the
/// next acquisition does not reuse it, and the channel that a new attempt
/// brings takes its place.
pub proof fn lemma_configure_clears_cache(
    ctx: ContextView,
    address: Seq<char>,
    port: u16,
    fresh: Channel,
)
    requires
        ctx.cached is Some,
    ensures
        ctx.configure(address, port).cached is None,
        !(ctx.configure(address, port).decide() is Reuse),
        ctx.configure(address, port).settle(address, port, Ok(fresh)).decide() == Decision::Reuse(
            fresh,
        ),
{
}

/// An acquisition on a context with a cached channel returns that channel,
/// and so does every further one: the outcome of another attempt for the
/// same target changes nothing, and its caller is handed the cached channel.
pub proof fn lemma_cached_channel_is_shared(
    ctx: ContextView,
    outcome: Result<Channel, tonic::transport::Error>,
)
    requires
        ctx.wf(),
        ctx.cached is Some,
    ensures
        ctx.decide() == Decision::Reuse(ctx.cached->0.channel),
        ctx.settle(ctx.address, ctx.port, outcome) == ctx,
        outcome is Ok ==> ctx.handed(ctx.address, ctx.port, outcome) == Ok::<Channel, TempoError>(
            ctx.cached->0.channel,
        ),
{
}

/// The first attempt that succeeds for the current target is cached: its
/// caller is handed the channel, and every acquisition after it reuses that
/// same channel.
pub proof fn lemma_first_success_is_cached(ctx: ContextView, channel: Channel)
    requires
        ctx.wf(),
        ctx.cached is None,
    ensures
        ctx.handed(ctx.address, ctx.port, Ok(channel)) == Ok::<Channel, TempoError>(channel),
        ctx.settle(ctx.address, ctx.port, Ok(channel)).decide() == Decision::Reuse(channel),
{
}

/// The outcome of one connection attempt, as its caller reports it.
pub ghost struct Report {
    pub address: Seq<char>,
    pub port: u16,
    pub outcome: Result<Channel, tonic::transport::Error>,
}

/// The context after `reports` have been taken, in order.
pub open spec fn settle_all(ctx: ContextView, reports: Seq<Report>) -> ContextView
    decreases reports.len(),
{
    if reports.len() == 0 {
        ctx
    } else {
        let last = reports.last();
        settle_all(ctx, reports.drop_last()).settle(last.address, last.port, last.outcome)
    }
}

/// What the caller that makes report `i` of `reports` is handed.
pub open spec fn handed_at(ctx: ContextView, reports: Seq<Report>, i: int) -> Result<
    Channel,
    TempoError,
>
    recommends
        0 <= i < reports.len(),
{
    settle_all(ctx, reports.take(i)).handed(
        reports[i].address,
        reports[i].port,
        reports[i].outcome,
    )
}

/// While a channel is cached, no report replaces it, however many callers
/// report and whatever they report: the context stays as it is, and each
/// caller whose attempt for the current target succeeded is handed the
/// cached channel.
pub proof fn lemma_cache_outlasts_reports(ctx: ContextView, reports: Seq<Report>, i: int)
    requires
        ctx.wf(),
        ctx.cached is Some,
        0 <= i < reports.len(),
    ensures
        settle_all(ctx, reports) == ctx,
        settle_all(ctx, reports.take(i)) == ctx,
        reports[i].outcome is Ok && reports[i].address == ctx.address && reports[i].port
            == ctx.port ==> handed_at(ctx, reports, i) == Ok::<Channel, TempoError>(
            ctx.cached->0.channel,
        ),
{
    lemma_settle_all_keeps_cache(ctx, reports);
    lemma_settle_all_keeps_cache(ctx, reports.take(i));
}

/// With a channel cached, taking any reports leaves the context as it is.
pub proof fn lemma_settle_all_keeps_cache(ctx: ContextView, reports: Seq<Report>)
    requires
        ctx.cached is Some,
    ensures
        settle_all(ctx, reports) == ctx,
    decreases reports.len(),
{
    if reports.len() > 0 {
        lemma_settle_all_keeps_cache(ctx, reports.drop_last());
    }
}

/// Failed attempts leave the context as it was, however many there are.
pub proof fn lemma_failures_leave_cache(ctx: ContextView, reports: Seq<Report>)
    requires
        forall|j: int| 0 <= j < reports.len() ==> (#[trigger] reports[j]).outcome is Err,
    ensures
        settle_all(ctx, reports) == ctx,
    decreases reports.len(),
{
    if reports.len() > 0 {
        lemma_failures_leave_cache(ctx, reports.drop_last());
    }
}

/// Among any number of attempts for the current target on a context with
/// nothing cached, the first that succeeds is the one whose channel is
/// cached, and every caller that succeeds, that one and each after it, is
/// handed that same channel.
pub proof fn lemma_first_success_wins(
    ctx: ContextView,
    reports: Seq<Report>,
    first: int,
    i: int,
)
    requires
        ctx.wf(),
        ctx.cached is None,
        forall|j: int|
            0 <= j < reports.len() ==> (#[trigger] reports[j]).address == ctx.address
                && reports[j].port == ctx.port,
        0 <= first <= i < reports.len(),
        forall|j: int| 0 <= j < first ==> (#[trigger] reports[j]).outcome is Err,
        reports[first].outcome is Ok,
        reports[i].outcome is Ok,
    ensures
        settle_all(ctx, reports).cached == Some(
            CachedChannel {
                channel: reports[first].outcome->Ok_0,
                address: ctx.address,
                port: ctx.port,
            },
        ),
        settle_all(ctx, reports).address == ctx.address,
        settle_all(ctx, reports).port == ctx.port,
        handed_at(ctx, reports, i) == Ok::<Channel, TempoError>(reports[first].outcome->Ok_0),
{
    let won = ctx.settle(ctx.address, ctx.port, reports[first].outcome);
    lemma_failures_leave_cache(ctx, reports.take(first));
    assert(reports.take(first + 1).drop_last() =~= reports.take(first));
    assert(settle_all(ctx, reports.take(first + 1)) == won);
    let later = reports.skip(first + 1);
    lemma_settle_all_splits(ctx, reports.take(first + 1), later);
    assert(reports.take(first + 1) + later =~= reports);
    lemma_settle_all_keeps_cache(won, later);
    if i > first {
        let between = reports.take(i).skip(first + 1);
        lemma_settle_all_splits(ctx, reports.take(first + 1), between);
        assert(reports.take(first + 1) + between =~= reports.take(i));
        lemma_settle_all_keeps_cache(won, between);
    }
}

/// Taking `first + then` is taking `first` and going on with `then`.
pub proof fn lemma_settle_all_splits(ctx: ContextView, first: Seq<Report>, then: Seq<Report>)
    ensures
        settle_all(ctx, first + then) == settle_all(settle_all(ctx, first), then),
    decreases then.len(),
{
    if then.len() == 0 {
        assert(first + then =~= first);
    } else {
        lemma_settle_all_splits(ctx, first, then.drop_last());
        assert((first + then).drop_last() =~= first + then.drop_last());
    }
}

/// A failed attempt is a connection error and leaves the context as it was,
/// so that the next acquisition tries again.
pub proof fn lemma_failure_leaves_cache(
    ctx: ContextView,
    address: Seq<char>,
    port: u16,
    cause: tonic::transport::Error,
)
    ensures
        ctx.settle(address, port, Err(cause)) == ctx,
        ctx.handed(address, port, Err(cause)) == Err::<Channel, TempoError>(
            TempoError::Connection(cause),
        ),
{
}

/// Two contexts made for the same target share nothing: a channel that one
/// of them caches is not seen by the other, which still has to connect, and
/// afterwards each reuses its own.
pub proof fn lemma_contexts_are_independent(
    address: Seq<char>,
    port: u16,
    first: Channel,
    second: Channel,
)
    ensures
        ({
            let a = ContextView::fresh(address, port).settle(address, port, Ok(first));
            let b = ContextView::fresh(address, port);
            &&& a.decide() == Decision::Reuse(first)
            &&& b.cached is None
            &&& b.decide() == first_decision(address, port)
            &&& b.settle(address, port, Ok(second)).decide() == Decision::Reuse(second)
        }),
{
}

} // verus!
