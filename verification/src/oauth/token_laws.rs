//! What is kept of tokens, how long they last, and how the file holds them.

use vstd::prelude::*;

use crate::oauth::fallback_file::{FallbackEntries, FallbackTokenEntryView};
use crate::oauth::tokens::{
    OAuthTokenResponseView, StoredOAuthTokenStatus, StoredOAuthTokensView, TokenTypeView,
};

verus! {

/// The milliseconds of a time are the whole ones in it, counted modulo the numbers that a `u64`
/// holds.
pub proof fn law_whole_milliseconds(time: nat)
    ensures
        time < 0x1_0000_0000_0000_0000 * 1_000_000 ==> {
            &&& crate::oauth::tokens::millis_of(time) * 1_000_000 <= time
            &&& time < (crate::oauth::tokens::millis_of(time) + 1) * 1_000_000
        },
        crate::oauth::tokens::millis_of(time + 0x1_0000_0000_0000_0000 * 1_000_000)
            == crate::oauth::tokens::millis_of(time),
{
    let wrap: nat = 0x1_0000_0000_0000_0000;
    assert((time + wrap * 1_000_000) / 1_000_000 == time / 1_000_000 + wrap);
    assert((time / 1_000_000 + wrap) % wrap == (time / 1_000_000) % wrap);
}

/// A lifetime ends that many seconds from now, in whole milliseconds: never later than that, and
/// less than one millisecond earlier. One that ends too late for a `u64` of milliseconds ends at
/// the last of them, one that ends too late for a span of time has no end, and without a lifetime
/// there is none either.
pub proof fn law_lifetime_ends(secs: u64, now: nat)
    ensures
        crate::oauth::tokens::expiry_millis(None, now) is None,
        now + secs * 1_000_000_000 >= 0x1_0000_0000_0000_0000 * 1_000_000_000
            <==> crate::oauth::tokens::expiry_millis(Some(secs), now) is None,
        crate::oauth::tokens::expiry_millis(Some(secs), now) matches Some(at) ==> {
            &&& at * 1_000_000 <= now + secs * 1_000_000_000
            &&& at < u64::MAX ==> now + secs * 1_000_000_000 < (at + 1) * 1_000_000
        },
{
}

/// A later lifetime ends no earlier, and a lifetime that starts later ends no earlier.
pub proof fn law_longer_lifetimes_end_later(secs: u64, more: u64, now: nat, later: nat)
    requires
        secs <= more,
        now <= later,
    ensures
        crate::oauth::tokens::expiry_millis(Some(secs), now) matches Some(at) ==> (
        crate::oauth::tokens::expiry_millis(Some(more), later) matches Some(then) ==> at <= then),
        crate::oauth::tokens::expiry_millis(Some(more), later) is Some
            ==> crate::oauth::tokens::expiry_millis(Some(secs), now) is Some,
{
    assert(secs * 1_000_000_000 <= more * 1_000_000_000);
}

/// The seconds that are left are the whole ones from now to the expiry; none are left once it has
/// come.
pub proof fn law_whole_seconds_are_left(expires_at: u64, now: nat)
    ensures
        crate::oauth::tokens::seconds_left(expires_at, now) is None <==> expires_at
            <= crate::oauth::tokens::millis_of(now),
        crate::oauth::tokens::seconds_left(expires_at, now) matches Some(secs) ==> {
            &&& crate::oauth::tokens::millis_of(now) + secs * 1000 <= expires_at
            &&& expires_at < crate::oauth::tokens::millis_of(now) + (secs + 1) * 1000
        },
{
}

/// A token is to be refreshed from sixty seconds before its expiry on, and never where no expiry
/// is known.
pub proof fn law_refresh_is_due_a_minute_early(expires_at: u64, now: nat)
    ensures
        !crate::oauth::tokens::needs_refresh(None, now),
        crate::oauth::tokens::needs_refresh(Some(expires_at), now) <==> expires_at
            <= crate::oauth::tokens::millis_of(now) + 60_000,
{
}

/// Tokens without a client are of no use. With one, tokens that are not due for a refresh are of
/// use by their access token alone, and tokens that are by their refresh token alone.
pub proof fn law_usable_tokens(tokens: StoredOAuthTokensView, now: nat)
    ensures
        crate::text::is_blank(tokens.client_id) ==> !tokens.usable(now),
        !crate::text::is_blank(tokens.client_id) && !crate::oauth::tokens::needs_refresh(
            tokens.expires_at,
            now,
        ) ==> (tokens.usable(now) <==> !crate::text::is_blank(tokens.token_response.access_token)),
        !crate::text::is_blank(tokens.client_id) && crate::oauth::tokens::needs_refresh(
            tokens.expires_at,
            now,
        ) ==> (tokens.usable(now) <==> tokens.token_response.refresh_token is Some
            && !crate::text::is_blank(tokens.token_response.refresh_token->0)),
{
}

/// Tokens are missing exactly where there are none, and otherwise usable exactly where they are
/// of use.
pub proof fn law_token_status(tokens: StoredOAuthTokensView, now: nat)
    ensures
        crate::oauth::tokens::token_status(None, now) == StoredOAuthTokenStatus::Missing,
        crate::oauth::tokens::token_status(Some(tokens), now) == StoredOAuthTokenStatus::Usable
            <==> tokens.usable(now),
        crate::oauth::tokens::token_status(Some(tokens), now)
            == StoredOAuthTokenStatus::AuthorizationRequired <==> !tokens.usable(now),
{
}

/// Bringing a lifetime up to date touches nothing but the lifetime: it becomes the seconds that
/// are left, and zero once the expiry has come; without an expiry it stays as it is.
pub proof fn law_only_the_lifetime_is_brought_up_to_date(tokens: StoredOAuthTokensView, now: nat)
    ensures
        ({
            let updated = tokens.with_lifetime_left(now);
            let response = updated.token_response;
            &&& updated.server_name == tokens.server_name
            &&& updated.url == tokens.url
            &&& updated.client_id == tokens.client_id
            &&& updated.expires_at == tokens.expires_at
            &&& response.access_token == tokens.token_response.access_token
            &&& response.token_type == tokens.token_response.token_type
            &&& response.refresh_token == tokens.token_response.refresh_token
            &&& response.scopes == tokens.token_response.scopes
            &&& response.extra_fields == tokens.token_response.extra_fields
            &&& tokens.expires_at is None ==> response.expires_in
                == tokens.token_response.expires_in
            &&& tokens.expires_at matches Some(at) ==> (response.expires_in matches Some(secs) && {
                &&& at <= crate::oauth::tokens::millis_of(now) ==> secs == 0
                &&& crate::oauth::tokens::millis_of(now) < at
                    ==> crate::oauth::tokens::millis_of(now) + secs * 1000 <= at
                    < crate::oauth::tokens::millis_of(now) + (secs + 1) * 1000
            })
        }),
{
}

/// The scopes of a response are written in a row, with one space between any two.
pub proof fn law_scopes_are_joined_by_spaces(scopes: Seq<Seq<char>>, scope: Seq<char>)
    ensures
        crate::oauth::tokens::space_joined(seq![]).len() == 0,
        crate::oauth::tokens::space_joined(seq![scope]) == scope,
        scopes.len() > 0 ==> crate::oauth::tokens::space_joined(scopes.push(scope))
            == crate::oauth::tokens::space_joined(scopes) + seq![' '] + scope,
{
    reveal_strlit(" ");
    assert(seq![scope][0] == scope);
    if scopes.len() > 0 {
        assert(scopes.push(scope).drop_last() =~= scopes);
        assert(scopes.push(scope).last() == scope);
        assert(" "@ =~= seq![' ']);
    }
}

/// The kinds of tokens are written by their names.
pub proof fn law_token_types_are_written_by_name(name: Seq<char>)
    ensures
        TokenTypeView::Bearer.text() == "bearer"@,
        TokenTypeView::Mac.text() == "mac"@,
        TokenTypeView::Extension(name).text() == name,
{
}

/// A response is written as its access token, its type, then those of its lifetime, refresh token
/// and scopes that it has, in this order, and then its other members in theirs. A member that it
/// does not have is not written.
pub proof fn law_written_members_stand_in_order(response: OAuthTokenResponseView)
    ensures
        ({
            let members = response.written_members();
            let lifetime: int = 2;
            let refresh: int = lifetime + if response.expires_in is Some {
                1int
            } else {
                0int
            };
            let scope: int = refresh + if response.refresh_token is Some {
                1int
            } else {
                0int
            };
            let others: int = scope + if response.scopes is Some {
                1int
            } else {
                0int
            };
            &&& members.len() == others + response.extra_fields.len()
            &&& members[0] == ("access_token"@, crate::json::json_string(response.access_token))
            &&& members[1] == ("token_type"@, crate::json::json_string(response.token_type.text()))
            &&& response.expires_in matches Some(secs) ==> members[lifetime] == (
                "expires_in"@,
                crate::json::decimal_text(secs as nat),
            )
            &&& response.refresh_token matches Some(token) ==> members[refresh] == (
                "refresh_token"@,
                crate::json::json_string(token),
            )
            &&& response.scopes matches Some(scopes) ==> members[scope] == (
                "scope"@,
                crate::json::json_string(crate::oauth::tokens::space_joined(scopes)),
            )
            &&& forall|i: int|
                0 <= i < response.extra_fields.len() ==> (#[trigger] members[others + i]) == (
                    response.extra_fields[i].name,
                    response.extra_fields[i].value.text(),
                )
        }),
{
}

/// Responses count as the same exactly where they are written with the same members.
pub proof fn law_responses_are_the_same_as_written(
    response: OAuthTokenResponseView,
    other: OAuthTokenResponseView,
)
    ensures
        response.written_like(other) <==> response.written_members() == other.written_members(),
        response.written_like(response),
        response.written_like(other) <==> other.written_like(response),
{
}

/// The file's entry for tokens holds their own server, address, client, access token and refresh
/// token, and their scopes where they have any, whether or not their expiry is known. It holds
/// their own expiry where that is known, and else the one that their lifetime leads to.
pub proof fn law_entry_holds_the_tokens(tokens: StoredOAuthTokensView, now: nat)
    ensures
        ({
            let entry = tokens.fallback_entry(now);
            &&& entry.server_name == tokens.server_name
            &&& entry.server_url == tokens.url
            &&& entry.client_id == tokens.client_id
            &&& entry.access_token == tokens.token_response.access_token
            &&& entry.refresh_token == tokens.token_response.refresh_token
            &&& tokens.token_response.scopes matches Some(scopes) ==> entry.scopes == scopes
            &&& tokens.token_response.scopes is None ==> entry.scopes.len() == 0
            &&& tokens.expires_at is Some ==> entry.expires_at == tokens.expires_at
            &&& tokens.expires_at is None && tokens.token_response.expires_in is None
                ==> entry.expires_at is None
            &&& tokens.expires_at is None && tokens.token_response.expires_in is Some
                ==> entry.expires_at == crate::oauth::tokens::expiry_millis(
                tokens.token_response.expires_in,
                now,
            )
        }),
{
}

/// The tokens of an entry of the file are those that it holds: bearer tokens without further
/// members and without a lifetime, whose scopes are known only where the entry lists any.
pub proof fn law_tokens_of_an_entry(entry: FallbackTokenEntryView)
    ensures
        ({
            let tokens = entry.tokens();
            &&& tokens.server_name == entry.server_name
            &&& tokens.url == entry.server_url
            &&& tokens.client_id == entry.client_id
            &&& tokens.expires_at == entry.expires_at
            &&& tokens.token_response.access_token == entry.access_token
            &&& tokens.token_response.token_type is Bearer
            &&& tokens.token_response.expires_in is None
            &&& tokens.token_response.refresh_token == entry.refresh_token
            &&& entry.scopes.len() > 0 ==> tokens.token_response.scopes == Some(entry.scopes)
            &&& entry.scopes.len() == 0 ==> tokens.token_response.scopes is None
            &&& tokens.token_response.extra_fields.len() == 0
        }),
{
}

/// Texts are ordered by the first character in which they differ, and a text comes before every
/// longer text that begins with it.
pub proof fn law_texts_are_ordered_by_their_first_difference(
    start: Seq<char>,
    a: char,
    b: char,
    after_a: Seq<char>,
    after_b: Seq<char>,
)
    ensures
        a != b ==> (crate::oauth::fallback_file::text_less(
            start + seq![a] + after_a,
            start + seq![b] + after_b,
        ) <==> (a as int) < (b as int)),
        crate::oauth::fallback_file::text_less(start, start + seq![a] + after_a),
        !crate::oauth::fallback_file::text_less(start + seq![a] + after_a, start),
    decreases start.len(),
{
    let left = start + seq![a] + after_a;
    let right = start + seq![b] + after_b;
    if start.len() == 0 {
        assert(left[0] == a);
        assert(right[0] == b);
    } else {
        law_texts_are_ordered_by_their_first_difference(
            start.drop_first(),
            a,
            b,
            after_a,
            after_b,
        );
        assert(left[0] == start[0]);
        assert(right[0] == start[0]);
        assert(left.drop_first() =~= start.drop_first() + seq![a] + after_a);
        assert(right.drop_first() =~= start.drop_first() + seq![b] + after_b);
    }
}

proof fn lemma_head_and_rest(entries: FallbackEntries, pair: (Seq<char>, FallbackTokenEntryView))
    requires
        entries.len() > 0,
    ensures
        entries.contains(pair) <==> entries[0] == pair || entries.drop_first().contains(pair),
{
    if entries.contains(pair) {
        let i = choose|i: int| 0 <= i < entries.len() && entries[i] == pair;
        if i > 0 {
            assert(entries.drop_first()[i - 1] == pair);
        }
    }
    if entries.drop_first().contains(pair) {
        let i = choose|i: int|
            0 <= i < entries.drop_first().len() && entries.drop_first()[i] == pair;
        assert(entries[i + 1] == pair);
    }
    if entries[0] == pair {
        assert(entries.contains(pair));
    }
}

proof fn lemma_joined(
    head: (Seq<char>, FallbackTokenEntryView),
    rest: FallbackEntries,
    pair: (Seq<char>, FallbackTokenEntryView),
)
    ensures
        (seq![head] + rest).contains(pair) <==> head == pair || rest.contains(pair),
{
    let joined = seq![head] + rest;
    lemma_head_and_rest(joined, pair);
    assert(joined.drop_first() =~= rest);
    assert(joined[0] == head);
}

/// Adding an entry to the file leaves the entries of all other keys as they are, and
/// the key has the new entry.
pub proof fn law_adding_touches_one_key(
    entries: FallbackEntries,
    key: Seq<char>,
    entry: FallbackTokenEntryView,
    pair: (Seq<char>, FallbackTokenEntryView),
)
    ensures
        crate::oauth::fallback_file::with_entry(entries, key, entry).contains((key, entry)),
        pair.0 != key ==> (crate::oauth::fallback_file::with_entry(entries, key, entry).contains(
            pair,
        ) <==> entries.contains(pair)),
    decreases entries.len(),
{
    let added = crate::oauth::fallback_file::with_entry(entries, key, entry);
    if entries.len() == 0 {
        assert(added[0] == (key, entry));
        assert(added.contains((key, entry)));
    } else {
        lemma_head_and_rest(entries, pair);
        law_adding_touches_one_key(entries.drop_first(), key, entry, pair);
        let rest = crate::oauth::fallback_file::with_entry(entries.drop_first(), key, entry);
        lemma_joined((key, entry), entries.drop_first(), pair);
        lemma_joined((key, entry), entries.drop_first(), (key, entry));
        lemma_joined((key, entry), entries, pair);
        lemma_joined((key, entry), entries, (key, entry));
        lemma_joined(entries[0], rest, pair);
        lemma_joined(entries[0], rest, (key, entry));
    }
}

/// In a file whose keys rise, a key that was added has the new entry and no other.
pub proof fn law_added_key_has_one_entry(
    entries: FallbackEntries,
    key: Seq<char>,
    entry: FallbackTokenEntryView,
    found: FallbackTokenEntryView,
)
    requires
        crate::oauth::fallback_file::keys_rise(entries),
        crate::oauth::fallback_file::with_entry(entries, key, entry).contains((key, found)),
    ensures
        found == entry,
{
    let added = crate::oauth::fallback_file::with_entry(entries, key, entry);
    crate::oauth::fallback_file::lemma_with_entry_keeps_order(entries, key, entry);
    law_adding_touches_one_key(entries, key, entry, (key, entry));
    let i = choose|i: int| 0 <= i < added.len() && added[i] == (key, entry);
    let j = choose|j: int| 0 <= j < added.len() && added[j] == (key, found);
    crate::oauth::fallback_file::lemma_text_less_irreflexive(key);
    if i < j {
        assert(crate::oauth::fallback_file::text_less(added[i].0, added[j].0));
    }
    if j < i {
        assert(crate::oauth::fallback_file::text_less(added[j].0, added[i].0));
    }
}

/// Removing a key from a file whose keys rise leaves no entry of that key, and every entry of
/// every other.
pub proof fn law_removing_touches_one_key(
    entries: FallbackEntries,
    key: Seq<char>,
    pair: (Seq<char>, FallbackTokenEntryView),
)
    requires
        crate::oauth::fallback_file::keys_rise(entries),
    ensures
        crate::oauth::fallback_file::without_entry(entries, key).contains(pair)
            <==> entries.contains(pair) && pair.0 != key,
        !crate::oauth::fallback_file::has_entry(entries, key)
            ==> crate::oauth::fallback_file::without_entry(entries, key) == entries,
        crate::oauth::fallback_file::has_entry(entries, key)
            ==> crate::oauth::fallback_file::without_entry(entries, key).len() == entries.len() - 1,
    decreases entries.len(),
{
    if entries.len() > 0 {
        let rest = entries.drop_first();
        lemma_head_and_rest(entries, pair);
        assert forall|i: int, j: int| 0 <= i < j < rest.len() implies
            crate::oauth::fallback_file::text_less(
            #[trigger] rest[i].0,
            #[trigger] rest[j].0,
        ) by {
            assert(rest[i] == entries[i + 1]);
            assert(rest[j] == entries[j + 1]);
        }
        law_removing_touches_one_key(rest, key, pair);
        if entries[0].0 == key {
            assert(crate::oauth::fallback_file::has_entry(entries, key));
            if rest.contains(pair) && pair.0 == key {
                let i = choose|i: int| 0 <= i < rest.len() && rest[i] == pair;
                assert(entries[i + 1] == pair);
                assert(crate::oauth::fallback_file::text_less(entries[0].0, entries[i + 1].0));
                crate::oauth::fallback_file::lemma_text_less_irreflexive(key);
            }
        } else {
            let shorter = crate::oauth::fallback_file::without_entry(rest, key);
            lemma_joined(entries[0], shorter, pair);
            if crate::oauth::fallback_file::has_entry(entries, key) {
                let i = choose|i: int| 0 <= i < entries.len() && #[trigger] entries[i].0 == key;
                assert(rest[i - 1].0 == key);
                assert(crate::oauth::fallback_file::has_entry(rest, key));
            } else {
                if crate::oauth::fallback_file::has_entry(rest, key) {
                    let i = choose|i: int| 0 <= i < rest.len() && #[trigger] rest[i].0 == key;
                    assert(entries[i + 1].0 == key);
                }
                assert(seq![entries[0]] + rest =~= entries);
            }
        }
    }
}

/// The entry that is found for a key is the first whose own server and address lead to that key,
/// whatever key it is listed under; there is none exactly where no entry's do.
pub proof fn law_first_entry_of_its_server_is_found(
    before: FallbackEntries,
    pair: (Seq<char>, FallbackTokenEntryView),
    after: FallbackEntries,
    key: Seq<char>,
)
    requires
        crate::oauth::keys::store_key(pair.1.server_name, pair.1.server_url) == key,
        forall|i: int|
            0 <= i < before.len() ==> crate::oauth::keys::store_key(
                (#[trigger] before[i]).1.server_name,
                before[i].1.server_url,
            ) != key,
    ensures
        crate::oauth::fallback_file::entry_for(before, key) is None,
        crate::oauth::fallback_file::entry_for(before.push(pair) + after, key) == Some(pair.1),
    decreases before.len(),
{
    let entries = before.push(pair) + after;
    if before.len() == 0 {
        assert(entries[0] == pair);
    } else {
        let rest = before.drop_first();
        assert forall|i: int| 0 <= i < rest.len() implies crate::oauth::keys::store_key(
            (#[trigger] rest[i]).1.server_name,
            rest[i].1.server_url,
        ) != key by {
            assert(rest[i] == before[i + 1]);
        }
        law_first_entry_of_its_server_is_found(rest, pair, after, key);
        assert(entries[0] == before[0]);
        assert(entries.drop_first() =~= rest.push(pair) + after);
    }
}

/// The tokens that the file has for a key are those of the entry that is found for it, with their
/// lifetime brought up to date, and none where no entry is found.
pub proof fn law_tokens_of_the_entry_that_is_found(
    entries: FallbackEntries,
    key: Seq<char>,
    now: nat,
)
    ensures
        crate::oauth::fallback_file::tokens_for(entries, key, now) is Some
            <==> crate::oauth::fallback_file::entry_for(entries, key) is Some,
        crate::oauth::fallback_file::tokens_for(entries, key, now) matches Some(tokens) ==> {
            let entry = crate::oauth::fallback_file::entry_for(entries, key)->0;
            &&& tokens.server_name == entry.server_name
            &&& tokens.url == entry.server_url
            &&& tokens.client_id == entry.client_id
            &&& tokens.expires_at == entry.expires_at
            &&& tokens.token_response.access_token == entry.access_token
            &&& tokens.token_response.refresh_token == entry.refresh_token
            &&& tokens.token_response.expires_in is Some <==> entry.expires_at is Some
            &&& entry.expires_at matches Some(at) ==> {
                let millis = crate::oauth::tokens::millis_of(now);
                let secs = tokens.token_response.expires_in->0;
                &&& at <= millis ==> secs == 0
                &&& millis < at ==> millis + secs * 1000 <= at < millis + (secs + 1) * 1000
            }
        },
{
}

} // verus!
