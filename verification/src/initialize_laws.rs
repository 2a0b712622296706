//! What each event leads to while a connection is opened.

use vstd::prelude::*;

use crate::initialize::{
    InitializeCallView, InitializeEventView, InitializeOutcomeView, InitializeRetriesView,
    InitializeStageView, InitializeStepView, OAuthRecoveryView, RecoveryCallView,
    RecoveryEventView, RecoveryOutcomeView, RecoveryStageView, RecoveryStepView, TransportKind,
};
use crate::retry::ErrorLinkView;

verus! {

/// The first attempt connects at once, over whatever transport it was given. Whether failures are
/// waited out is settled by that transport: they are over either kind of HTTP, and over nothing
/// else.
pub proof fn law_first_attempt(kind: TransportKind, timeout: Option<nat>)
    ensures
        InitializeRetriesView::begin(kind, timeout) matches InitializeStepView::Call(call, retries)
            && {
            &&& call is Connect
            &&& retries.stage is Connecting
            &&& retries.attempt == 0
            &&& retries.timeout == timeout
            &&& retries.should_retry <==> (kind == TransportKind::StreamableHttp || kind
                == TransportKind::StreamableHttpWithOAuth)
            &&& retries.with_oauth <==> kind == TransportKind::StreamableHttpWithOAuth
            &&& retries.well_formed()
        },
{
}

/// What the first transport settled stays settled: no event changes whether failures are waited
/// out, or how long the handshake may take.
pub proof fn law_retrying_is_settled_once(
    retries: InitializeRetriesView,
    event: InitializeEventView,
    deadline: Option<nat>,
    now: nat,
)
    requires
        retries.well_formed(),
        retries.accepts(event),
    ensures
        retries.resume(event, deadline, now) matches InitializeStepView::Call(_, next) ==> {
            &&& next.should_retry == retries.should_retry
            &&& next.timeout == retries.timeout
        },
{
}

/// A failure that may pass is waited out after the first and after the second attempt, for 250
/// milliseconds and for one second, as long as time is left; the pause may take no longer than
/// that time. Over which kind of HTTP the attempt was made makes no difference.
pub proof fn law_passing_failures_are_waited_out(
    retries: InitializeRetriesView,
    chain: Seq<ErrorLinkView>,
    deadline: Option<nat>,
    now: nat,
)
    requires
        retries.stage is Connecting,
        retries.should_retry,
        retries.attempt <= 1,
        crate::retry::chain_may_pass(chain),
        deadline matches Some(at) ==> now < at,
    ensures
        retries.resume(InitializeEventView::ConnectFailed(chain), deadline, now) matches
            InitializeStepView::Call(InitializeCallView::Sleep { delay, limit }, next) && {
            &&& retries.attempt == 0 ==> delay == 250_000_000
            &&& retries.attempt == 1 ==> delay == 1_000_000_000
            &&& deadline is None ==> limit is None
            &&& deadline matches Some(at) ==> limit matches Some(left) && now + left == at
            &&& next.stage == (InitializeStageView::Sleeping { delay })
            &&& next.attempt == retries.attempt
            &&& next.with_oauth == retries.with_oauth
        },
{
}

/// A failure that may pass is not waited out once the deadline has passed: the handshake took too
/// long. What it is said to have taken is the time it was given, or else the pause.
pub proof fn law_passing_failures_after_the_deadline(
    retries: InitializeRetriesView,
    chain: Seq<ErrorLinkView>,
    deadline: nat,
    now: nat,
)
    requires
        retries.stage is Connecting,
        retries.should_retry,
        retries.attempt <= 1,
        crate::retry::chain_may_pass(chain),
        deadline <= now,
    ensures
        retries.resume(InitializeEventView::ConnectFailed(chain), Some(deadline), now) matches
            InitializeStepView::Done(InitializeOutcomeView::TimedOut(message)) && message
            == "timed out handshaking with MCP server after "@ + crate::duration::debug_text(
            match (retries.timeout, retries.attempt) {
                (Some(given), _) => given,
                (None, 0) => 250_000_000,
                (None, _) => 1_000_000_000,
            },
        ),
{
}

/// Any other failure to connect ends the attempts with that failure: one that will not pass, one
/// of a transport whose failures are not waited out, and one of the third attempt, even after the
/// deadline.
pub proof fn law_other_failures_end_the_attempts(
    retries: InitializeRetriesView,
    chain: Seq<ErrorLinkView>,
    deadline: Option<nat>,
    now: nat,
)
    requires
        retries.stage is Connecting,
        !retries.should_retry || !crate::retry::chain_may_pass(chain) || retries.attempt >= 2,
    ensures
        retries.resume(InitializeEventView::ConnectFailed(chain), deadline, now) matches
            InitializeStepView::Done(InitializeOutcomeView::Failed { chain: reported, with_oauth })
            && reported == chain && with_oauth == retries.with_oauth,
{
}

/// A connection ends the attempts, whenever it comes.
pub proof fn law_connection_ends_the_attempts(
    retries: InitializeRetriesView,
    deadline: Option<nat>,
    now: nat,
)
    requires
        retries.stage is Connecting,
    ensures
        retries.resume(InitializeEventView::Connected, deadline, now) matches
            InitializeStepView::Done(outcome) && outcome is Connected,
{
}

/// After a pause that was slept through in time a new transport is made, in the time that is
/// left, and the attempt with it counts as one more. A pause that was not, or that ended after
/// the deadline, ends the attempts: the handshake took too long.
pub proof fn law_after_the_pause(
    retries: InitializeRetriesView,
    delay: nat,
    in_time: bool,
    deadline: Option<nat>,
    now: nat,
)
    requires
        retries.stage == (InitializeStageView::Sleeping { delay }),
        retries.attempt <= 1,
    ensures
        in_time && (deadline matches Some(at) ==> now < at) ==> (retries.resume(
            InitializeEventView::Slept(in_time),
            deadline,
            now,
        ) matches InitializeStepView::Call(InitializeCallView::CreateTransport { limit }, next) && {
            &&& deadline is None ==> limit is None
            &&& deadline matches Some(at) ==> limit matches Some(left) && now + left == at
            &&& next.stage == (InitializeStageView::Creating { limit })
            &&& next.attempt == retries.attempt + 1
            &&& next.with_oauth == retries.with_oauth
        }),
        in_time && (deadline matches Some(at) && at <= now) ==> (retries.resume(
            InitializeEventView::Slept(in_time),
            deadline,
            now,
        ) matches InitializeStepView::Done(InitializeOutcomeView::TimedOut(message)) && message
            == "timed out handshaking with MCP server after "@ + crate::duration::debug_text(
            if retries.timeout is Some {
                retries.timeout->0
            } else {
                0
            },
        )),
        !in_time ==> (retries.resume(InitializeEventView::Slept(in_time), deadline, now) matches
            InitializeStepView::Done(InitializeOutcomeView::TimedOut(message)) && message
            == "timed out handshaking with MCP server after "@ + crate::duration::debug_text(
            if retries.timeout is Some {
                retries.timeout->0
            } else {
                delay
            },
        )),
{
}

/// A new transport is connected over at once, in the same attempt, and from then on it is the new
/// transport that decides whether the credentials can be refreshed. A transport that could not be
/// made ends the attempts, and so does one that took too long to be made.
pub proof fn law_after_a_new_transport(
    retries: InitializeRetriesView,
    kind: TransportKind,
    chain: Seq<ErrorLinkView>,
    limit: Option<nat>,
    deadline: Option<nat>,
    now: nat,
)
    requires
        retries.stage == (InitializeStageView::Creating { limit }),
    ensures
        retries.resume(InitializeEventView::Created(kind), deadline, now) matches
            InitializeStepView::Call(call, next) && {
            &&& call is Connect
            &&& next.stage is Connecting
            &&& next.attempt == retries.attempt
            &&& next.with_oauth <==> kind == TransportKind::StreamableHttpWithOAuth
        },
        retries.resume(InitializeEventView::CreateFailed(chain), deadline, now) matches
            InitializeStepView::Done(InitializeOutcomeView::Failed { chain: reported, with_oauth })
            && reported == chain && with_oauth == retries.with_oauth,
        limit matches Some(span) ==> (retries.resume(
            InitializeEventView::CreateTimedOut,
            deadline,
            now,
        ) matches InitializeStepView::Done(InitializeOutcomeView::TimedOut(message)) && message
            == "timed out handshaking with MCP server after "@ + crate::duration::debug_text(
            if retries.timeout is Some {
                retries.timeout->0
            } else {
                span
            },
        )),
{
}

/// Attempts wait for the events of the call that they last made, and for no others; a transport
/// can take too long only where its time is limited.
pub proof fn law_attempts_wait_for_their_call(
    retries: InitializeRetriesView,
    event: InitializeEventView,
)
    ensures
        retries.stage is Connecting ==> (retries.accepts(event) <==> (event is Connected
            || event is ConnectFailed)),
        retries.stage is Sleeping ==> (retries.accepts(event) <==> event is Slept),
        retries.stage matches InitializeStageView::Creating { limit } ==> (retries.accepts(event)
            <==> (event is Created || event is CreateFailed || (event is CreateTimedOut
            && limit is Some))),
{
}

/// Three failures that may pass make three attempts, over whichever kinds of transport the
/// attempts are made, as long as time is left: begun over either kind of HTTP, the attempts pause
/// for 250 milliseconds, connect over a new transport, pause for one second, connect over another
/// new transport, and end with what becomes of that.
pub proof fn law_three_passing_failures_make_three_attempts(
    kinds: (TransportKind, TransportKind, TransportKind),
    timeout: Option<nat>,
    chains: (Seq<ErrorLinkView>, Seq<ErrorLinkView>, Seq<ErrorLinkView>),
    deadline: Option<nat>,
    times: Seq<nat>,
)
    requires
        times.len() == 7,
        kinds.0 == TransportKind::StreamableHttp || kinds.0
            == TransportKind::StreamableHttpWithOAuth,
        crate::retry::chain_may_pass(chains.0),
        crate::retry::chain_may_pass(chains.1),
        crate::retry::chain_may_pass(chains.2),
        deadline matches Some(at) ==> forall|i: int|
            0 <= i < times.len() ==> #[trigger] times[i] < at,
    ensures
        ({
            &&& InitializeRetriesView::begin(kinds.0, timeout) matches InitializeStepView::Call(
                call,
                first,
            )
            &&& call is Connect
            &&& first.resume(InitializeEventView::ConnectFailed(chains.0), deadline, times[0])
                matches InitializeStepView::Call(InitializeCallView::Sleep { delay, .. }, second)
            &&& delay == 250_000_000
            &&& second.resume(InitializeEventView::Slept(true), deadline, times[1]) matches
                InitializeStepView::Call(InitializeCallView::CreateTransport { .. }, third)
            &&& third.resume(InitializeEventView::Created(kinds.1), deadline, times[2]) matches
                InitializeStepView::Call(InitializeCallView::Connect, fourth)
            &&& fourth.resume(InitializeEventView::ConnectFailed(chains.1), deadline, times[3])
                matches InitializeStepView::Call(InitializeCallView::Sleep { delay: longer, .. }, fifth)
            &&& longer == 1_000_000_000
            &&& fifth.resume(InitializeEventView::Slept(true), deadline, times[4]) matches
                InitializeStepView::Call(InitializeCallView::CreateTransport { .. }, sixth)
            &&& sixth.resume(InitializeEventView::Created(kinds.2), deadline, times[5]) matches
                InitializeStepView::Call(InitializeCallView::Connect, seventh)
            &&& seventh.resume(InitializeEventView::Connected, deadline, times[6]) matches
                InitializeStepView::Done(InitializeOutcomeView::Connected)
            &&& seventh.resume(InitializeEventView::ConnectFailed(chains.2), deadline, times[6])
                matches InitializeStepView::Done(InitializeOutcomeView::Failed { chain, with_oauth })
            &&& chain == chains.2
            &&& with_oauth <==> kinds.2 == TransportKind::StreamableHttpWithOAuth
        }),
{
}

/// Opening a connection begins with the first attempt.
pub proof fn law_opening_begins_with_an_attempt(kind: TransportKind, timeout: Option<nat>)
    ensures
        OAuthRecoveryView::begin(kind, timeout) matches RecoveryStepView::Call(
            RecoveryCallView::Initialize(call),
            recovery,
        ) && {
            &&& call is Connect
            &&& recovery.timeout == timeout
            &&& recovery.stage matches RecoveryStageView::First(retries)
            &&& InitializeRetriesView::begin(kind, timeout) == InitializeStepView::Call(
                call,
                retries,
            )
        },
{
}

/// While attempts go on, opening a connection makes their calls, before a refresh and after it,
/// and keeps the time that the handshake was given.
pub proof fn law_opening_makes_the_calls_of_the_attempts(
    recovery: OAuthRecoveryView,
    retries: InitializeRetriesView,
    event: InitializeEventView,
    deadline: Option<nat>,
    now: nat,
)
    requires
        retries.resume(event, deadline, now) is Call,
    ensures
        ({
            let step = retries.resume(event, deadline, now);
            let call = step->Call_0;
            let next = step->Call_1;
            &&& recovery.stage == RecoveryStageView::First(retries) ==> (recovery.resume(
                RecoveryEventView::Initialize(event),
                deadline,
                now,
            ) matches RecoveryStepView::Call(made, then) && {
                &&& made == RecoveryCallView::Initialize(call)
                &&& then.stage == RecoveryStageView::First(next)
                &&& then.timeout == recovery.timeout
            })
            &&& recovery.stage == RecoveryStageView::Second(retries) ==> (recovery.resume(
                RecoveryEventView::Initialize(event),
                deadline,
                now,
            ) matches RecoveryStepView::Call(made, then) && {
                &&& made == RecoveryCallView::Initialize(call)
                &&& then.stage == RecoveryStageView::Second(next)
                &&& then.timeout == recovery.timeout
            })
        }),
{
}

/// Where the first attempts fail because the access token of refreshable credentials was
/// rejected, that token is refreshed at once while time is left; once the deadline has passed,
/// the handshake took too long.
pub proof fn law_rejected_token_is_refreshed(
    recovery: OAuthRecoveryView,
    retries: InitializeRetriesView,
    event: InitializeEventView,
    chain: Seq<ErrorLinkView>,
    token: Seq<char>,
    deadline: Option<nat>,
    now: nat,
)
    requires
        recovery.stage == RecoveryStageView::First(retries),
        retries.resume(event, deadline, now) == InitializeStepView::Done(
            InitializeOutcomeView::Failed { chain, with_oauth: true },
        ),
        crate::retry::chain_rejected_token(chain) == Some(token),
    ensures
        (deadline matches Some(at) ==> now < at) ==> (recovery.resume(
            RecoveryEventView::Initialize(event),
            deadline,
            now,
        ) matches RecoveryStepView::Call(RecoveryCallView::Refresh { rejected_access_token }, next)
            && {
            &&& rejected_access_token == token
            &&& next.stage == (RecoveryStageView::Refreshing { started_at: now })
            &&& next.timeout == recovery.timeout
        }),
        (deadline matches Some(at) && at <= now) ==> (recovery.resume(
            RecoveryEventView::Initialize(event),
            deadline,
            now,
        ) matches RecoveryStepView::Done(
            RecoveryOutcomeView::Initialize(InitializeOutcomeView::TimedOut(message)),
        ) && message == "timed out handshaking with MCP server after "@
            + crate::duration::debug_text(
            if recovery.timeout is Some {
                recovery.timeout->0
            } else {
                0
            },
        )),
{
}

/// Any other end of the first attempts, and every end of the attempts after a refresh, is the end
/// of opening the connection.
pub proof fn law_attempts_end_the_opening(
    recovery: OAuthRecoveryView,
    retries: InitializeRetriesView,
    event: InitializeEventView,
    deadline: Option<nat>,
    now: nat,
)
    requires
        retries.resume(event, deadline, now) is Done,
    ensures
        ({
            let outcome = retries.resume(event, deadline, now)->Done_0;
            let ended = RecoveryStepView::Done(RecoveryOutcomeView::Initialize(outcome));
            &&& recovery.stage == RecoveryStageView::Second(retries) ==> recovery.resume(
                RecoveryEventView::Initialize(event),
                deadline,
                now,
            ) == ended
            &&& recovery.stage == RecoveryStageView::First(retries) && (outcome matches
                InitializeOutcomeView::Failed { chain, with_oauth } ==> !with_oauth
                || crate::retry::chain_rejected_token(chain) is None) ==> recovery.resume(
                RecoveryEventView::Initialize(event),
                deadline,
                now,
            ) == ended
        }),
{
}

/// Once the credentials were refreshed a new transport is made, in the time that was left when the
/// refresh began. A refresh that failed ends the opening, and so does one that began with no time
/// left.
pub proof fn law_after_a_refresh(
    recovery: OAuthRecoveryView,
    started_at: nat,
    message: Seq<char>,
    deadline: Option<nat>,
    now: nat,
)
    requires
        recovery.stage == (RecoveryStageView::Refreshing { started_at }),
        started_at <= now,
    ensures
        recovery.resume(RecoveryEventView::Refreshed(Err(message)), deadline, now)
            == RecoveryStepView::Done(RecoveryOutcomeView::RefreshFailed(message)),
        (deadline matches Some(at) ==> started_at < at) ==> (recovery.resume(
            RecoveryEventView::Refreshed(Ok(())),
            deadline,
            now,
        ) matches RecoveryStepView::Call(
            RecoveryCallView::Initialize(InitializeCallView::CreateTransport { limit }),
            next,
        ) && {
            &&& deadline is None ==> limit is None
            &&& deadline matches Some(at) ==> limit matches Some(left) && started_at + left == at
            &&& next.stage == (RecoveryStageView::Creating { limit })
            &&& next.timeout == recovery.timeout
        }),
        (deadline matches Some(at) && at <= started_at) ==> (recovery.resume(
            RecoveryEventView::Refreshed(Ok(())),
            deadline,
            now,
        ) matches RecoveryStepView::Done(
            RecoveryOutcomeView::Initialize(InitializeOutcomeView::TimedOut(text)),
        ) && text == "timed out handshaking with MCP server after "@ + crate::duration::debug_text(
            if recovery.timeout is Some {
                recovery.timeout->0
            } else {
                0
            },
        )),
{
}

/// The deadline moves by the time that a refresh took, and by nothing else.
pub proof fn law_only_a_refresh_moves_the_deadline(
    recovery: OAuthRecoveryView,
    deadline: Option<nat>,
    now: nat,
)
    ensures
        !(recovery.stage is Refreshing) ==> recovery.moved_deadline(deadline, now) == deadline,
        deadline is None ==> recovery.moved_deadline(deadline, now) is None,
        recovery.stage matches RecoveryStageView::Refreshing { started_at } ==> (
        deadline matches Some(at) ==> (recovery.moved_deadline(deadline, now) matches Some(moved)
            && {
            &&& started_at <= now ==> moved - at == now - started_at
            &&& now < started_at ==> moved == at
        })),
{
}

/// After a refresh the attempts begin anew over the new transport. A transport that could not be
/// made ends the opening, without another refresh, and so does one that took too long.
pub proof fn law_attempts_begin_anew_after_a_refresh(
    recovery: OAuthRecoveryView,
    limit: Option<nat>,
    kind: TransportKind,
    chain: Seq<ErrorLinkView>,
    deadline: Option<nat>,
    now: nat,
)
    requires
        recovery.stage == (RecoveryStageView::Creating { limit }),
    ensures
        recovery.resume(
            RecoveryEventView::Initialize(InitializeEventView::Created(kind)),
            deadline,
            now,
        ) matches RecoveryStepView::Call(RecoveryCallView::Initialize(call), next) && {
            &&& call is Connect
            &&& next.timeout == recovery.timeout
            &&& next.stage matches RecoveryStageView::Second(retries)
            &&& InitializeRetriesView::begin(kind, recovery.timeout) == InitializeStepView::Call(
                call,
                retries,
            )
        },
        recovery.resume(
            RecoveryEventView::Initialize(InitializeEventView::CreateFailed(chain)),
            deadline,
            now,
        ) matches RecoveryStepView::Done(
            RecoveryOutcomeView::Initialize(
                InitializeOutcomeView::Failed { chain: reported, with_oauth },
            ),
        ) && reported == chain && !with_oauth,
        limit matches Some(span) ==> (recovery.resume(
            RecoveryEventView::Initialize(InitializeEventView::CreateTimedOut),
            deadline,
            now,
        ) matches RecoveryStepView::Done(
            RecoveryOutcomeView::Initialize(InitializeOutcomeView::TimedOut(message)),
        ) && message == "timed out handshaking with MCP server after "@
            + crate::duration::debug_text(
            if recovery.timeout is Some {
                recovery.timeout->0
            } else {
                span
            },
        )),
{
}

/// Opening a connection waits for what the call that it last made gives back: for the events of
/// the attempts while they go on, for the end of a refresh, and for a new transport after it.
pub proof fn law_opening_waits_for_its_call(
    recovery: OAuthRecoveryView,
    event: RecoveryEventView,
)
    ensures
        recovery.stage matches RecoveryStageView::First(retries) ==> (recovery.accepts(event) <==> (
        event matches RecoveryEventView::Initialize(inner) && retries.well_formed()
            && retries.accepts(inner))),
        recovery.stage matches RecoveryStageView::Second(retries) ==> (recovery.accepts(event)
            <==> (event matches RecoveryEventView::Initialize(inner) && retries.well_formed()
            && retries.accepts(inner))),
        recovery.stage is Refreshing ==> (recovery.accepts(event) <==> event is Refreshed),
        recovery.stage matches RecoveryStageView::Creating { limit } ==> (recovery.accepts(event)
            <==> (event matches RecoveryEventView::Initialize(inner) && (inner is Created
            || inner is CreateFailed || (inner is CreateTimedOut && limit is Some)))),
{
}

} // verus!
