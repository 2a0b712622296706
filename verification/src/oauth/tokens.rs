//! OAuth tokens, and what their expiry means at a given time.

use vstd::prelude::*;

use crate::clock::{time_of, unix_time};
use crate::duplicate::Duplicate;
use crate::duration::Duration;
use crate::json::{write_decimal, write_json_string, JsonValue, JsonValueView};
use crate::text::{is_blank_text, same_text};
use vstd::string::StringExecFns;

verus! {

/// How long before its expiry a token counts as expired, so that ordinary requests do not race
/// the expiry.
pub const REFRESH_SKEW_MILLIS: u64 = 60_000;

/// How an access token is to be presented.
#[derive(Clone, Debug, PartialEq)]
pub enum TokenType {
    Bearer,
    Mac,
    /// A type with a name of its own.
    Extension(String),
}

/// What `TokenType` stands for.
#[verifier::ext_equal]
pub enum TokenTypeView {
    Bearer,
    Mac,
    Extension(Seq<char>),
}

impl DeepView for TokenType {
    type V = TokenTypeView;

    open spec fn deep_view(&self) -> TokenTypeView {
        match self {
            TokenType::Bearer => TokenTypeView::Bearer,
            TokenType::Mac => TokenTypeView::Mac,
            TokenType::Extension(value) => TokenTypeView::Extension(value@),
        }
    }
}

impl Duplicate for TokenType {
    fn duplicate(&self) -> (copy: Self) {
        let copy = match self {
            TokenType::Bearer => TokenType::Bearer,
            TokenType::Mac => TokenType::Mac,
            TokenType::Extension(value) => TokenType::Extension(value.clone()),
        };
        assert(copy.deep_view() =~= self.deep_view());
        copy
    }
}

/// A member of a token response beyond the standard ones.
#[derive(Clone, Debug, PartialEq)]
pub struct ExtraTokenField {
    pub name: String,
    pub value: JsonValue,
}

/// What `ExtraTokenField` stands for.
#[verifier::ext_equal]
pub struct ExtraTokenFieldView {
    pub name: Seq<char>,
    pub value: JsonValueView,
}

impl DeepView for ExtraTokenField {
    type V = ExtraTokenFieldView;

    open spec fn deep_view(&self) -> ExtraTokenFieldView {
        ExtraTokenFieldView {
            name: self.name@,
            value: self.value.deep_view(),
        }
    }
}

impl Duplicate for ExtraTokenField {
    fn duplicate(&self) -> (copy: Self) {
        let copy = ExtraTokenField {
            name: self.name.clone(),
            value: self.value.duplicate(),
        };
        assert(copy.deep_view() =~= self.deep_view());
        copy
    }
}

/// What an authorization server answers to a token request.
#[derive(Clone, Debug, PartialEq)]
pub struct OAuthTokenResponse {
    pub access_token: String,
    pub token_type: TokenType,
    /// The lifetime of the access token, in seconds.
    pub expires_in: Option<u64>,
    pub refresh_token: Option<String>,
    pub scopes: Option<Vec<String>>,
    /// The other members, in the order in which they are written.
    pub extra_fields: Vec<ExtraTokenField>,
}

/// What `OAuthTokenResponse` stands for.
#[verifier::ext_equal]
pub struct OAuthTokenResponseView {
    pub access_token: Seq<char>,
    pub token_type: TokenTypeView,
    pub expires_in: Option<u64>,
    pub refresh_token: Option<Seq<char>>,
    pub scopes: Option<Seq<Seq<char>>>,
    pub extra_fields: Seq<ExtraTokenFieldView>,
}

impl DeepView for OAuthTokenResponse {
    type V = OAuthTokenResponseView;

    open spec fn deep_view(&self) -> OAuthTokenResponseView {
        OAuthTokenResponseView {
            access_token: self.access_token@,
            token_type: self.token_type.deep_view(),
            expires_in: self.expires_in.deep_view(),
            refresh_token: self.refresh_token.deep_view(),
            scopes: self.scopes.deep_view(),
            extra_fields: self.extra_fields.deep_view(),
        }
    }
}

impl Duplicate for OAuthTokenResponse {
    fn duplicate(&self) -> (copy: Self) {
        let copy = OAuthTokenResponse {
            access_token: self.access_token.clone(),
            token_type: self.token_type.duplicate(),
            expires_in: self.expires_in,
            refresh_token: self.refresh_token.duplicate(),
            scopes: self.scopes.duplicate(),
            extra_fields: self.extra_fields.duplicate(),
        };
        assert(copy.deep_view() =~= self.deep_view());
        copy
    }
}

/// A token response that is compared by its written form.
#[derive(Clone, Debug)]
pub struct WrappedOAuthTokenResponse(pub OAuthTokenResponse);

impl DeepView for WrappedOAuthTokenResponse {
    type V = OAuthTokenResponseView;

    open spec fn deep_view(&self) -> OAuthTokenResponseView {
        self.0.deep_view()
    }
}

impl Duplicate for WrappedOAuthTokenResponse {
    fn duplicate(&self) -> (copy: Self) {
        WrappedOAuthTokenResponse(self.0.duplicate())
    }
}

/// The credentials that are kept for a server.
#[derive(Clone, Debug, PartialEq)]
pub struct StoredOAuthTokens {
    pub server_name: String,
    pub url: String,
    pub client_id: String,
    pub token_response: WrappedOAuthTokenResponse,
    /// When the access token expires, in milliseconds since the Unix epoch.
    pub expires_at: Option<u64>,
}

/// What `StoredOAuthTokens` stands for.
#[verifier::ext_equal]
pub struct StoredOAuthTokensView {
    pub server_name: Seq<char>,
    pub url: Seq<char>,
    pub client_id: Seq<char>,
    pub token_response: OAuthTokenResponseView,
    pub expires_at: Option<u64>,
}

impl DeepView for StoredOAuthTokens {
    type V = StoredOAuthTokensView;

    open spec fn deep_view(&self) -> StoredOAuthTokensView {
        StoredOAuthTokensView {
            server_name: self.server_name@,
            url: self.url@,
            client_id: self.client_id@,
            token_response: self.token_response.deep_view(),
            expires_at: self.expires_at.deep_view(),
        }
    }
}

impl Duplicate for StoredOAuthTokens {
    fn duplicate(&self) -> (copy: Self) {
        let copy = StoredOAuthTokens {
            server_name: self.server_name.clone(),
            url: self.url.clone(),
            client_id: self.client_id.clone(),
            token_response: self.token_response.duplicate(),
            expires_at: self.expires_at,
        };
        assert(copy.deep_view() =~= self.deep_view());
        copy
    }
}

/// The texts in `parts`, with a space between neighbours.
pub open spec fn space_joined(parts: Seq<Seq<char>>) -> Seq<char>
    decreases parts.len(),
{
    if parts.len() == 0 {
        seq![]
    } else if parts.len() == 1 {
        parts[0]
    } else {
        space_joined(parts.drop_last()) + " "@ + parts.last()
    }
}

/// Joins `parts` with a space between neighbours.
fn join_with_spaces(parts: &Vec<String>) -> (text: String)
    ensures
        text@ == space_joined(parts.deep_view()),
{
    let mut text: String = String::new();
    let mut index: usize = 0;
    let ghost views = parts.deep_view();
    while index < parts.len()
        invariant
            index <= parts@.len(),
            views == parts.deep_view(),
            text@ == space_joined(views.take(index as int)),
        decreases parts@.len() - index,
    {
        if index > 0 {
            text.append(" ");
        }
        text.append(parts[index].as_str());
        assert(views.take(index + 1).drop_last() =~= views.take(index as int));
        if index == 0 {
            assert(text@ =~= views.take(index + 1)[0]);
        }
        index += 1;
    }
    assert(views.take(views.len() as int) =~= views);
    text
}

impl TokenTypeView {
    /// The name of the type.
    pub open spec fn text(self) -> Seq<char> {
        match self {
            TokenTypeView::Bearer => "bearer"@,
            TokenTypeView::Mac => "mac"@,
            TokenTypeView::Extension(name) => name,
        }
    }
}

impl TokenType {
    /// The name of the type.
    pub fn as_str(&self) -> (text: &str)
        ensures
            text@ == self.deep_view().text(),
    {
        match self {
            TokenType::Bearer => "bearer",
            TokenType::Mac => "mac",
            TokenType::Extension(name) => name.as_str(),
        }
    }
}

/// A member of a JSON object, if it has a value.
pub open spec fn optional_member(name: Seq<char>, value: Option<Seq<char>>) -> Seq<
    (Seq<char>, Seq<char>),
> {
    match value {
        Some(text) => seq![(name, text)],
        None => seq![],
    }
}

impl OAuthTokenResponseView {
    /// The members that are always written first.
    pub open spec fn leading_members(self) -> Seq<(Seq<char>, Seq<char>)> {
        seq![
            ("access_token"@, crate::json::json_string(self.access_token)),
            ("token_type"@, crate::json::json_string(self.token_type.text())),
        ]
    }

    /// The members of the JSON object that the response is written as, each with its name and the
    /// JSON text of its value: the standard ones first, of these only those that are there, and
    /// then the others.
    pub open spec fn written_members(self) -> Seq<(Seq<char>, Seq<char>)> {
        let expires_in = match self.expires_in {
            Some(secs) => Some(crate::json::decimal_text(secs as nat)),
            None => None,
        };
        let refresh_token = match self.refresh_token {
            Some(token) => Some(crate::json::json_string(token)),
            None => None,
        };
        let scope = match self.scopes {
            Some(scopes) => Some(crate::json::json_string(space_joined(scopes))),
            None => None,
        };
        self.leading_members() + optional_member("expires_in"@, expires_in) + optional_member(
            "refresh_token"@,
            refresh_token,
        ) + optional_member("scope"@, scope) + self.extra_fields.map_values(
            |field: ExtraTokenFieldView| (field.name, field.value.text()),
        )
    }

    /// The two responses are written alike.
    pub open spec fn written_like(self, other: OAuthTokenResponseView) -> bool {
        self.written_members() == other.written_members()
    }
}

/// The JSON text that stands for `text`.
fn json_text(text: &str) -> (json: String)
    ensures
        json@ == crate::json::json_string(text@),
{
    match write_json_string(text) {
        Ok(json) => json,
        Err(_) => {
            assert(false);
            String::new()
        },
    }
}

/// Adds a member to `members`.
fn push_member(members: &mut Vec<(String, String)>, name: &str, value: String)
    ensures
        final(members).deep_view() == old(members).deep_view().push((name@, value@)),
{
    members.push((name.to_owned(), value));
    assert(members.deep_view() =~= old(members).deep_view().push((name@, value@)));
}

impl OAuthTokenResponse {
    /// The members of the JSON object that the response is written as.
    pub fn written_members(&self) -> (members: Vec<(String, String)>)
        ensures
            members.deep_view() == self.deep_view().written_members(),
    {
        let mut members: Vec<(String, String)> = Vec::new();
        push_member(&mut members, "access_token", json_text(self.access_token.as_str()));
        push_member(&mut members, "token_type", json_text(self.token_type.as_str()));
        let ghost view = self.deep_view();
        assert(members.deep_view() =~= view.leading_members());
        if let Some(secs) = self.expires_in {
            push_member(&mut members, "expires_in", write_decimal(secs));
        }
        if let Some(token) = &self.refresh_token {
            push_member(&mut members, "refresh_token", json_text(token.as_str()));
        }
        if let Some(scopes) = &self.scopes {
            push_member(&mut members, "scope", json_text(join_with_spaces(scopes).as_str()));
        }
        let ghost others = view.extra_fields.map_values(
            |field: ExtraTokenFieldView| (field.name, field.value.text()),
        );
        let ghost standard = members.deep_view();
        assert(standard + others =~= view.written_members());
        let mut index: usize = 0;
        assert(standard + others.take(0) =~= standard);
        while index < self.extra_fields.len()
            invariant
                index <= self.extra_fields@.len(),
                view == self.deep_view(),
                others == view.extra_fields.map_values(
                    |field: ExtraTokenFieldView| (field.name, field.value.text()),
                ),
                members.deep_view() == standard + others.take(index as int),
            decreases self.extra_fields@.len() - index,
        {
            let field = &self.extra_fields[index];
            assert(view.extra_fields[index as int] == field.deep_view());
            push_member(&mut members, field.name.as_str(), field.value.as_str().to_owned());
            assert(members.deep_view() =~= standard + others.take(index + 1));
            index += 1;
        }
        assert(others.take(others.len() as int) =~= others);
        members
    }
}

/// Tests whether two lists of members are the same.
fn same_members(a: &Vec<(String, String)>, b: &Vec<(String, String)>) -> (r: bool)
    ensures
        r == (a.deep_view() == b.deep_view()),
{
    if a.len() != b.len() {
        assert(a.deep_view().len() != b.deep_view().len());
        return false;
    }
    let mut index: usize = 0;
    while index < a.len()
        invariant
            index <= a@.len(),
            a@.len() == b@.len(),
            forall|i: int| 0 <= i < index ==> #[trigger] a@[i].deep_view() == b@[i].deep_view(),
        decreases a@.len() - index,
    {
        if !same_text(a[index].0.as_str(), b[index].0.as_str()) || !same_text(
            a[index].1.as_str(),
            b[index].1.as_str(),
        ) {
            assert(a.deep_view()[index as int] != b.deep_view()[index as int]);
            return false;
        }
        index += 1;
    }
    assert(a.deep_view() =~= b.deep_view());
    true
}

impl PartialEq for WrappedOAuthTokenResponse {
    fn eq(&self, other: &Self) -> (r: bool) {
        same_members(&self.0.written_members(), &other.0.written_members())
    }
}

impl vstd::std_specs::cmp::PartialEqSpecImpl for WrappedOAuthTokenResponse {
    open spec fn obeys_eq_spec() -> bool {
        true
    }

    open spec fn eq_spec(&self, other: &Self) -> bool {
        self.deep_view().written_like(other.deep_view())
    }
}

/// Responses that are written alike have the same access token and the same name of its type.
pub proof fn law_alike_responses_share_the_access_token(
    response: OAuthTokenResponseView,
    other: OAuthTokenResponseView,
)
    requires
        response.written_like(other),
    ensures
        response.access_token == other.access_token,
        response.token_type.text() == other.token_type.text(),
{
    let members = response.written_members();
    let others = other.written_members();
    assert(members[0] == response.leading_members()[0]);
    assert(members[1] == response.leading_members()[1]);
    assert(others[0] == other.leading_members()[0]);
    assert(others[1] == other.leading_members()[1]);
    if response.access_token != other.access_token {
        crate::json::law_texts_have_their_own_json(response.access_token, other.access_token);
    }
    if response.token_type.text() != other.token_type.text() {
        crate::json::law_texts_have_their_own_json(
            response.token_type.text(),
            other.token_type.text(),
        );
    }
}

/// The milliseconds of a time, as a 64-bit number that wraps around.
pub open spec fn millis_of(time: nat) -> u64 {
    ((time / 1_000_000) % 0x1_0000_0000_0000_0000) as u64
}

/// When a token that is valid for `expires_in` seconds from `now` on expires, in milliseconds:
/// nothing where that time cannot be represented as a span, and the greatest number where its
/// milliseconds do not fit.
pub open spec fn expiry_millis(expires_in: Option<u64>, now: nat) -> Option<u64> {
    match expires_in {
        Some(secs) => {
            let expiry = now + secs * 1_000_000_000;
            if expiry >= crate::duration::duration_limit() {
                None
            } else if expiry / 1_000_000 > u64::MAX {
                Some(u64::MAX)
            } else {
                Some((expiry / 1_000_000) as u64)
            }
        },
        None => None,
    }
}

/// The whole seconds that are left until `expires_at`, unless it has passed.
pub open spec fn seconds_left(expires_at: u64, now: nat) -> Option<u64> {
    if expires_at <= millis_of(now) {
        None
    } else {
        Some(((expires_at - millis_of(now)) / 1000) as u64)
    }
}

/// The token is expired or about to expire. A token whose expiry is unknown never is.
pub open spec fn needs_refresh(expires_at: Option<u64>, now: nat) -> bool {
    match expires_at {
        Some(at) => millis_of(now) + REFRESH_SKEW_MILLIS >= at,
        None => false,
    }
}

/// The milliseconds of a time, as a 64-bit number that wraps around.
fn millis(time: &Duration) -> (r: u64)
    ensures
        r == millis_of(time@),
{
    let wide: u128 = time.as_millis();
    let low: u64 = (wide % 0x1_0000_0000_0000_0000) as u64;
    low
}

/// Computes when a token that was received at `now` expires.
pub fn compute_expires_at_millis_at(response: &OAuthTokenResponse, now: &Duration) -> (r: Option<
    u64,
>)
    ensures
        r == expiry_millis(response.expires_in, now@),
{
    match response.expires_in {
        Some(secs) => {
            let expires_in = Duration::from_secs(secs);
            match now.checked_add(&expires_in) {
                Some(expiry) => {
                    let wide: u128 = expiry.as_millis();
                    if wide > u64::MAX as u128 {
                        Some(u64::MAX)
                    } else {
                        Some(wide as u64)
                    }
                },
                None => None,
            }
        },
        None => None,
    }
}

/// Computes when a token that was received just now expires.
pub fn compute_expires_at_millis(response: &OAuthTokenResponse) -> (r: Option<u64>)
    ensures
        exists|now: nat|
            now < crate::duration::duration_limit() && r == #[trigger] expiry_millis(
                response.expires_in,
                now,
            ),
        response.expires_in is None ==> r is None,
        response.expires_in == Some(0u64) ==> r is Some,
{
    let now = time_of(unix_time());
    compute_expires_at_millis_at(response, &now)
}

/// Computes the whole seconds from `now` until `expires_at`, unless that has passed.
pub fn expires_in_from_timestamp_at(expires_at: u64, now: &Duration) -> (r: Option<u64>)
    ensures
        r == seconds_left(expires_at, now@),
{
    let now_ms: u64 = millis(now);
    if expires_at <= now_ms {
        None
    } else {
        Some((expires_at - now_ms) / 1000)
    }
}

/// Computes the whole seconds that are left until `expires_at`, unless that has passed.
pub fn expires_in_from_timestamp(expires_at: u64) -> (r: Option<u64>)
    ensures
        exists|now: nat|
            now < crate::duration::duration_limit() && r == #[trigger] seconds_left(expires_at, now),
        expires_at == 0 ==> r is None,
{
    let now = time_of(unix_time());
    expires_in_from_timestamp_at(expires_at, &now)
}

/// Tests whether a token with this expiry should be refreshed at `now`.
pub fn token_needs_refresh_at(expires_at: Option<u64>, now: &Duration) -> (r: bool)
    ensures
        r == needs_refresh(expires_at, now@),
{
    match expires_at {
        Some(at) => millis(now).saturating_add(REFRESH_SKEW_MILLIS) >= at,
        None => false,
    }
}

/// Tests whether a token with this expiry should be refreshed.
pub fn token_needs_refresh(expires_at: Option<u64>) -> (r: bool)
    ensures
        exists|now: nat|
            now < crate::duration::duration_limit() && r == #[trigger] needs_refresh(expires_at, now),
        expires_at is None ==> !r,
        expires_at matches Some(at) && at <= REFRESH_SKEW_MILLIS ==> r,
{
    let now = time_of(unix_time());
    token_needs_refresh_at(expires_at, &now)
}

impl StoredOAuthTokensView {
    /// The tokens can still authorize requests: the client is known, and there is an access token
    /// that lasts, or a refresh token to get one.
    pub open spec fn usable(self, now: nat) -> bool {
        if crate::text::is_blank(self.client_id) {
            false
        } else if needs_refresh(self.expires_at, now) {
            self.token_response.refresh_token matches Some(token) && !crate::text::is_blank(token)
        } else {
            !crate::text::is_blank(self.token_response.access_token)
        }
    }

    /// The tokens with the lifetime that their expiry leaves at `now`. An expiry that has passed
    /// leaves a lifetime of zero, which is not the same as an unknown one: it has the token
    /// refreshed before it is first used.
    pub open spec fn with_lifetime_left(self, now: nat) -> StoredOAuthTokensView {
        match self.expires_at {
            Some(at) => StoredOAuthTokensView {
                token_response: OAuthTokenResponseView {
                    expires_in: Some(
                        match seconds_left(at, now) {
                            Some(secs) => secs,
                            None => 0,
                        },
                    ),
                    ..self.token_response
                },
                ..self
            },
            None => self,
        }
    }
}

/// Tests whether the tokens can authorize requests at `now`.
pub fn oauth_tokens_are_usable_at(tokens: &StoredOAuthTokens, now: &Duration) -> (r: bool)
    ensures
        r == tokens.deep_view().usable(now@),
{
    if is_blank_text(tokens.client_id.as_str()) {
        return false;
    }
    if token_needs_refresh_at(tokens.expires_at, now) {
        return match &tokens.token_response.0.refresh_token {
            Some(token) => !is_blank_text(token.as_str()),
            None => false,
        };
    }
    !is_blank_text(tokens.token_response.0.access_token.as_str())
}

/// Tests whether the tokens can authorize requests.
pub fn oauth_tokens_are_usable(tokens: &StoredOAuthTokens) -> (r: bool)
    ensures
        exists|now: nat|
            now < crate::duration::duration_limit() && r == #[trigger] tokens.deep_view().usable(now),
        tokens.expires_at is None ==> r == tokens.deep_view().usable(0),
        crate::text::is_blank(tokens.client_id@) ==> !r,
{
    let now = time_of(unix_time());
    oauth_tokens_are_usable_at(tokens, &now)
}

/// Sets the lifetime of the tokens to what their expiry leaves at `now`.
pub fn refresh_expires_in_from_timestamp_at(tokens: &mut StoredOAuthTokens, now: &Duration)
    ensures
        final(tokens).deep_view() == old(tokens).deep_view().with_lifetime_left(now@),
{
    let Some(expires_at) = tokens.expires_at else {
        return ;
    };
    let lifetime: u64 = match expires_in_from_timestamp_at(expires_at, now) {
        Some(secs) => secs,
        None => 0,
    };
    tokens.token_response.0.expires_in = Some(lifetime);
}

/// Sets the lifetime of the tokens to what their expiry leaves now.
pub fn refresh_expires_in_from_timestamp(tokens: &mut StoredOAuthTokens)
    ensures
        exists|now: nat|
            now < crate::duration::duration_limit() && final(tokens).deep_view() == #[trigger] old(
                tokens,
            ).deep_view().with_lifetime_left(now),
        old(tokens).expires_at is None ==> final(tokens).deep_view() == old(tokens).deep_view(),
        old(tokens).expires_at == Some(0u64) ==> final(tokens).token_response.0.expires_in == Some(
            0u64,
        ),
{
    let now = time_of(unix_time());
    refresh_expires_in_from_timestamp_at(tokens, &now);
}

/// What the credentials that are stored for a server allow.
#[derive(Clone, Copy, Debug, PartialEq, Eq, Structural)]
pub enum StoredOAuthTokenStatus {
    Missing,
    Usable,
    AuthorizationRequired,
}

/// What the stored tokens allow at a given time.
pub open spec fn token_status(tokens: Option<StoredOAuthTokensView>, now: nat) ->
    StoredOAuthTokenStatus {
    match tokens {
        None => StoredOAuthTokenStatus::Missing,
        Some(stored) => if stored.usable(now) {
            StoredOAuthTokenStatus::Usable
        } else {
            StoredOAuthTokenStatus::AuthorizationRequired
        },
    }
}

/// Tells what the tokens that were found for a server allow at `now`.
pub fn oauth_token_status_at(tokens: Option<&StoredOAuthTokens>, now: &Duration) -> (r:
    StoredOAuthTokenStatus)
    ensures
        r == token_status(
            match tokens {
                Some(stored) => Some(stored.deep_view()),
                None => None,
            },
            now@,
        ),
{
    match tokens {
        None => StoredOAuthTokenStatus::Missing,
        Some(stored) => if oauth_tokens_are_usable_at(stored, now) {
            StoredOAuthTokenStatus::Usable
        } else {
            StoredOAuthTokenStatus::AuthorizationRequired
        },
    }
}

/// Tells what the tokens that were found for a server allow.
pub fn oauth_token_status(tokens: Option<&StoredOAuthTokens>) -> (r: StoredOAuthTokenStatus)
    ensures
        tokens is None <==> r == StoredOAuthTokenStatus::Missing,
        tokens matches Some(stored) ==> exists|now: nat|
            now < crate::duration::duration_limit() && r == #[trigger] token_status(
                Some(stored.deep_view()),
                now,
            ),
{
    let now = time_of(unix_time());
    oauth_token_status_at(tokens, &now)
}

/// A token that needs a refresh keeps needing it as time goes on, while the milliseconds since
/// the epoch fit in 64 bits.
pub proof fn law_need_for_refresh_stays(expires_at: Option<u64>, now: nat, later: nat)
    requires
        needs_refresh(expires_at, now),
        now <= later,
        later / 1_000_000 <= u64::MAX,
    ensures
        needs_refresh(expires_at, later),
{
}

/// A token that does not need a refresh has more than the refresh skew of its lifetime left.
pub proof fn law_fresh_token_outlasts_skew(expires_at: u64, now: nat)
    requires
        !needs_refresh(Some(expires_at), now),
    ensures
        seconds_left(expires_at, now) matches Some(secs) && secs >= REFRESH_SKEW_MILLIS / 1000,
{
}

/// The expiry that is computed for a token gives back the token's lifetime at the time it was
/// computed, while that expiry fits in 64 bits of milliseconds.
pub proof fn law_expiry_gives_back_lifetime(lifetime: u64, now: nat)
    requires
        lifetime > 0,
        (now + lifetime * 1_000_000_000) / 1_000_000 <= u64::MAX,
    ensures
        expiry_millis(Some(lifetime), now) matches Some(at) && seconds_left(at, now) == Some(
            lifetime,
        ),
{
}

/// Wrapped responses are equal exactly where they are written with the same members.
pub proof fn law_wrapped_responses_are_equal_as_written(
    response: WrappedOAuthTokenResponse,
    other: WrappedOAuthTokenResponse,
)
    ensures
        vstd::std_specs::cmp::PartialEqSpec::eq_spec(&response, &other)
            <==> response.deep_view().written_members() == other.deep_view().written_members(),
{
}

} // verus!
