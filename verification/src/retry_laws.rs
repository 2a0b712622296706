//! Which failures may pass, and which token a failure rejected.

use vstd::prelude::*;

use crate::retry::{
    ClientInitializeErrorView, ErrorLinkView, ExecServerErrorView, HttpClientErrorView,
    StreamableHttpErrorView,
};

verus! {

proof fn lemma_decimal_digits(number: nat)
    ensures
        crate::json::decimal_text(number).len() > 0,
        forall|i: int|
            0 <= i < crate::json::decimal_text(number).len() ==> crate::retry::is_digit(
                #[trigger] crate::json::decimal_text(number)[i],
            ),
        crate::retry::digits_value(crate::json::decimal_text(number)) == number,
    decreases number,
{
    reveal_strlit("0123456789");
    let text = crate::json::decimal_text(number);
    let last = "0123456789"@[(number % 10) as int];
    assert(last as nat == '0' as nat + number % 10);
    if number < 10 {
        assert(text.drop_last() =~= seq![]);
        assert(crate::retry::digits_value(text.drop_last()) == 0);
    } else {
        lemma_decimal_digits(number / 10);
        assert(text.drop_last() =~= crate::json::decimal_text(number / 10));
    }
}

proof fn lemma_leading_digits(digits: Seq<char>, rest: Seq<char>)
    requires
        forall|i: int| 0 <= i < digits.len() ==> crate::retry::is_digit(#[trigger] digits[i]),
        rest.len() > 0 ==> !('0' <= rest[0] && rest[0] <= '9'),
    ensures
        crate::retry::leading_digits(digits + rest) == digits,
    decreases digits.len(),
{
    if digits.len() == 0 {
        assert(digits + rest =~= rest);
        assert(crate::retry::leading_digits(rest) =~= digits);
    } else {
        let shorter = digits.drop_first();
        assert forall|i: int| 0 <= i < shorter.len() implies crate::retry::is_digit(
            #[trigger] shorter[i],
        ) by {
            assert(shorter[i] == digits[i + 1]);
        }
        lemma_leading_digits(shorter, rest);
        assert((digits + rest)[0] == digits[0]);
        assert((digits + rest).drop_first() =~= shorter + rest);
        assert(seq![digits[0]] + shorter =~= digits);
    }
}

/// A response that is reported as `HTTP`, a space, the decimal digits of its status and then
/// anything but a further digit may pass exactly where the status is 408, 429, 500, 502, 503 or
/// 504.
pub proof fn law_response_passes_by_its_status(status: nat, rest: Seq<char>)
    requires
        rest.len() > 0 ==> !('0' <= rest[0] && rest[0] <= '9'),
    ensures
        crate::retry::response_may_pass("HTTP "@ + crate::json::decimal_text(status) + rest) <==> (
        status == 408 || status == 429 || status == 500 || status == 502 || status == 503 || status
            == 504),
{
    reveal_strlit("HTTP ");
    let digits = crate::json::decimal_text(status);
    let message = "HTTP "@ + digits + rest;
    lemma_decimal_digits(status);
    lemma_leading_digits(digits, rest);
    assert(message.skip(5) =~= digits + rest);
    assert("HTTP "@ =~= message.subrange(0, 5));
}

/// A response that is not reported so, or that names no status, does not pass.
pub proof fn law_response_without_a_status_does_not_pass(message: Seq<char>)
    ensures
        crate::retry::response_may_pass(message) ==> {
            &&& "HTTP "@.is_prefix_of(message)
            &&& message.len() >= 6
            &&& '0' <= message[5] && message[5] <= '9'
        },
{
    reveal_strlit("HTTP ");
    if crate::retry::response_may_pass(message) {
        assert(message.skip(5).len() > 0);
        assert(message.skip(5)[0] == message[5]);
    }
}

/// A request that could not be made may pass, whatever it says. A failure of the server that makes
/// requests may pass only where it is an internal error, with the code -32603, about a request,
/// and a violation of its protocol only where a stream of a response failed. Nothing else about
/// the client may pass: not a token that was rejected, nor a session that expired.
pub proof fn law_request_failures_that_may_pass(
    code: i64,
    message: Seq<char>,
    token: Seq<char>,
)
    ensures
        StreamableHttpErrorView::Client(
            HttpClientErrorView::HttpRequest(ExecServerErrorView::HttpRequest(message)),
        ).may_pass(),
        StreamableHttpErrorView::Client(
            HttpClientErrorView::HttpRequest(ExecServerErrorView::Server { code, message }),
        ).may_pass() <==> code == -32603 && "http/request failed:"@.is_prefix_of(message),
        StreamableHttpErrorView::Client(
            HttpClientErrorView::HttpRequest(ExecServerErrorView::Protocol(message)),
        ).may_pass() <==> "http response stream `"@.is_prefix_of(message)
            && crate::text::contains_text(message, "` failed:"@),
        !StreamableHttpErrorView::Client(
            HttpClientErrorView::HttpRequest(ExecServerErrorView::Other),
        ).may_pass(),
        !StreamableHttpErrorView::Client(HttpClientErrorView::SessionExpired404).may_pass(),
        !StreamableHttpErrorView::Client(
            HttpClientErrorView::AccessTokenRejected { rejected_access_token: token },
        ).may_pass(),
        !StreamableHttpErrorView::Client(HttpClientErrorView::OAuth(message)).may_pass(),
        !StreamableHttpErrorView::Client(HttpClientErrorView::Header(message)).may_pass(),
{
}

/// An unexpected response may pass as its message says; no other failure of the transport itself
/// may.
pub proof fn law_transport_failures_that_may_pass(
    error: StreamableHttpErrorView,
    message: Seq<char>,
)
    ensures
        StreamableHttpErrorView::UnexpectedServerResponse(message).may_pass()
            <==> crate::retry::response_may_pass(message),
        !(error is Client) && !(error is UnexpectedServerResponse) ==> !error.may_pass(),
{
}

/// A failure rejected a token exactly where it says so, and then it is the token that it names.
pub proof fn law_rejected_token_is_the_one_that_is_named(
    error: StreamableHttpErrorView,
    token: Seq<char>,
)
    ensures
        error.rejected_token() == Some(token) <==> error == StreamableHttpErrorView::Client(
            HttpClientErrorView::AccessTokenRejected { rejected_access_token: token },
        ),
        error.rejected_token() is Some ==> !error.may_pass(),
{
}

/// A failure to initialize may pass where the failure of the transport may, while the request or
/// the notification that follows it is sent, and in no other context. A channel that was closed
/// may pass for the notification only. Which token was rejected does not depend on the context.
pub proof fn law_initialize_failures(error: StreamableHttpErrorView, context: Seq<char>)
    ensures
        ({
            let failure = ClientInitializeErrorView::TransportError { error: Some(error), context };
            &&& context == "send initialize request"@ ==> (failure.may_pass()
                <==> error.may_pass())
            &&& context == "send initialized notification"@ ==> (failure.may_pass() <==> (
            error.may_pass() || error is TransportChannelClosed))
            &&& context != "send initialize request"@ && context
                != "send initialized notification"@ ==> !failure.may_pass()
            &&& failure.rejected_token() == error.rejected_token()
        }),
        !(ClientInitializeErrorView::TransportError { error: None, context }).may_pass(),
        (ClientInitializeErrorView::TransportError { error: None, context }).rejected_token()
            is None,
        !ClientInitializeErrorView::Other.may_pass(),
        ClientInitializeErrorView::Other.rejected_token() is None,
{
    reveal_strlit("send initialize request");
    reveal_strlit("send initialized notification");
    assert("send initialize request"@.len() != "send initialized notification"@.len());
}

/// A link in a chain of errors says what its failure says, whichever of the two kinds it is; any
/// other error neither may pass nor rejected a token.
pub proof fn law_links_say_what_their_failure_says(failure: ClientInitializeErrorView)
    ensures
        ErrorLinkView::Handshake(failure).may_pass() <==> failure.may_pass(),
        ErrorLinkView::Initialize(failure).may_pass() <==> failure.may_pass(),
        ErrorLinkView::Handshake(failure).rejected_token() == failure.rejected_token(),
        ErrorLinkView::Initialize(failure).rejected_token() == failure.rejected_token(),
        !ErrorLinkView::Other.may_pass(),
        ErrorLinkView::Other.rejected_token() is None,
{
}

/// A chain of errors may pass where any part of it may, however it is taken apart, and no chain
/// may without a link that may.
pub proof fn law_any_link_may_let_a_chain_pass(a: Seq<ErrorLinkView>, b: Seq<ErrorLinkView>)
    ensures
        crate::retry::chain_may_pass(a + b) <==> crate::retry::chain_may_pass(a)
            || crate::retry::chain_may_pass(b),
        !crate::retry::chain_may_pass(seq![]),
        forall|link: ErrorLinkView|
            crate::retry::chain_may_pass(seq![link]) <==> #[trigger] link.may_pass(),
{
    let joined = a + b;
    if crate::retry::chain_may_pass(a) {
        let i = choose|i: int| 0 <= i < a.len() && (#[trigger] a[i]).may_pass();
        assert(joined[i].may_pass());
    }
    if crate::retry::chain_may_pass(b) {
        let i = choose|i: int| 0 <= i < b.len() && (#[trigger] b[i]).may_pass();
        assert(joined[a.len() + i].may_pass());
    }
    if crate::retry::chain_may_pass(joined) {
        let i = choose|i: int| 0 <= i < joined.len() && (#[trigger] joined[i]).may_pass();
        if i < a.len() {
            assert(a[i].may_pass());
        } else {
            assert(b[i - a.len()].may_pass());
        }
    }
    assert forall|link: ErrorLinkView|
        crate::retry::chain_may_pass(seq![link]) <==> #[trigger] link.may_pass() by {
        assert(seq![link][0] == link);
    }
}

/// The token that a chain of errors rejected is that of the first link that rejected one.
pub proof fn law_first_rejected_token_counts(
    before: Seq<ErrorLinkView>,
    link: ErrorLinkView,
    after: Seq<ErrorLinkView>,
)
    requires
        forall|i: int| 0 <= i < before.len() ==> (#[trigger] before[i]).rejected_token() is None,
    ensures
        crate::retry::chain_rejected_token(before) is None,
        link.rejected_token() is Some ==> crate::retry::chain_rejected_token(
            before.push(link) + after,
        ) == link.rejected_token(),
    decreases before.len(),
{
    let chain = before.push(link) + after;
    if before.len() == 0 {
        assert(chain[0] == link);
    } else {
        let rest = before.drop_first();
        assert forall|i: int| 0 <= i < rest.len() implies (#[trigger] rest[i]).rejected_token()
            is None by {
            assert(rest[i] == before[i + 1]);
        }
        law_first_rejected_token_counts(rest, link, after);
        assert(chain[0] == before[0]);
        assert(chain.drop_first() =~= rest.push(link) + after);
    }
}

/// The time that is left of a handshake is what lies between now and the deadline; a handshake
/// without a deadline has no limit, and one whose deadline has passed took too long. What it is
/// said to have taken is the time that it was given.
pub proof fn law_time_left_of_a_handshake(timeout: Option<nat>, deadline: nat, now: nat)
    ensures
        now <= deadline ==> now + crate::retry::time_left(deadline, now) == deadline,
        deadline < now ==> crate::retry::time_left(deadline, now) == 0,
        crate::retry::handshake_limit(timeout, None, now) matches Ok(limit) && limit is None,
        now < deadline ==> (crate::retry::handshake_limit(timeout, Some(deadline), now) matches Ok(
            Some(left),
        ) && now + left == deadline),
        deadline <= now ==> (crate::retry::handshake_limit(timeout, Some(deadline), now) matches
            Err(message) && message == "timed out handshaking with MCP server after "@
            + crate::duration::debug_text(
            if timeout is Some {
                timeout->0
            } else {
                0
            },
        )),
{
}

/// The message of a handshake that took too long names the time that it was given, where it was
/// given one, whatever else could be named.
pub proof fn law_timeout_message_names_the_time_given(given: nat, fallback: nat)
    ensures
        crate::retry::timeout_message(Some(given), fallback)
            == "timed out handshaking with MCP server after "@ + crate::duration::debug_text(given),
        crate::retry::timeout_message(None, fallback)
            == "timed out handshaking with MCP server after "@ + crate::duration::debug_text(
            fallback,
        ),
{
}

/// Zeros in front of a status make no difference.
pub proof fn law_leading_zeros_make_no_difference(digits: Seq<char>, rest: Seq<char>)
    requires
        digits.len() > 0,
        forall|i: int| 0 <= i < digits.len() ==> ('0' <= #[trigger] digits[i] && digits[i] <= '9'),
        rest.len() > 0 ==> !('0' <= rest[0] && rest[0] <= '9'),
    ensures
        crate::retry::response_may_pass("HTTP "@ + seq!['0'] + digits + rest)
            <==> crate::retry::response_may_pass("HTTP "@ + digits + rest),
{
    reveal_strlit("HTTP ");
    let longer = seq!['0'] + digits;
    let message = "HTTP "@ + digits + rest;
    let padded = "HTTP "@ + seq!['0'] + digits + rest;
    assert forall|i: int| 0 <= i < longer.len() implies crate::retry::is_digit(
        #[trigger] longer[i],
    ) by {
        if i > 0 {
            assert(longer[i] == digits[i - 1]);
        }
    }
    lemma_leading_digits(digits, rest);
    lemma_leading_digits(longer, rest);
    assert(message.skip(5) =~= digits + rest);
    assert(padded.skip(5) =~= longer + rest);
    assert("HTTP "@ =~= message.subrange(0, 5));
    assert("HTTP "@ =~= padded.subrange(0, 5));
    lemma_leading_zero(digits);
}

proof fn lemma_leading_zero(digits: Seq<char>)
    ensures
        crate::retry::digits_value(seq!['0'] + digits) == crate::retry::digits_value(digits),
    decreases digits.len(),
{
    let longer = seq!['0'] + digits;
    if digits.len() == 0 {
        assert(longer.drop_last() =~= seq![]);
        assert(longer.last() == '0');
        assert(crate::retry::digits_value(longer.drop_last()) == 0);
    } else {
        lemma_leading_zero(digits.drop_last());
        assert(longer.drop_last() =~= seq!['0'] + digits.drop_last());
        assert(longer.last() == digits.last());
    }
}

} // verus!
