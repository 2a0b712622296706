//! The file that holds credentials where no keyring does.

use vstd::prelude::*;

use crate::duplicate::Duplicate;
use crate::duration::Duration;
use crate::oauth::keys::compute_store_key;
use crate::oauth::tokens::{
    compute_expires_at_millis_at, refresh_expires_in_from_timestamp_at, OAuthTokenResponse,
    OAuthTokenResponseView, StoredOAuthTokens, StoredOAuthTokensView, TokenType, TokenTypeView,
    WrappedOAuthTokenResponse,
};
use crate::text::{chars_of, same_text};

verus! {

/// The name of the file.
pub const FALLBACK_FILENAME: &'static str = ".credentials.json";

/// The credentials of one server, as the file holds them.
#[derive(Clone, Debug, PartialEq)]
pub struct FallbackTokenEntry {
    pub server_name: String,
    pub server_url: String,
    pub client_id: String,
    pub access_token: String,
    pub expires_at: Option<u64>,
    pub refresh_token: Option<String>,
    pub scopes: Vec<String>,
}

/// What `FallbackTokenEntry` stands for.
#[verifier::ext_equal]
pub struct FallbackTokenEntryView {
    pub server_name: Seq<char>,
    pub server_url: Seq<char>,
    pub client_id: Seq<char>,
    pub access_token: Seq<char>,
    pub expires_at: Option<u64>,
    pub refresh_token: Option<Seq<char>>,
    pub scopes: Seq<Seq<char>>,
}

impl DeepView for FallbackTokenEntry {
    type V = FallbackTokenEntryView;

    open spec fn deep_view(&self) -> FallbackTokenEntryView {
        FallbackTokenEntryView {
            server_name: self.server_name@,
            server_url: self.server_url@,
            client_id: self.client_id@,
            access_token: self.access_token@,
            expires_at: self.expires_at.deep_view(),
            refresh_token: self.refresh_token.deep_view(),
            scopes: self.scopes.deep_view(),
        }
    }
}

impl Duplicate for FallbackTokenEntry {
    fn duplicate(&self) -> (copy: Self) {
        let copy = FallbackTokenEntry {
            server_name: self.server_name.clone(),
            server_url: self.server_url.clone(),
            client_id: self.client_id.clone(),
            access_token: self.access_token.clone(),
            expires_at: self.expires_at,
            refresh_token: self.refresh_token.duplicate(),
            scopes: self.scopes.duplicate(),
        };
        assert(copy.deep_view() =~= self.deep_view());
        copy
    }
}

/// `a` comes before `b` in the order of texts by their characters.
pub open spec fn text_less(a: Seq<char>, b: Seq<char>) -> bool
    decreases a.len(),
{
    if b.len() == 0 {
        false
    } else if a.len() == 0 {
        true
    } else if a[0] == b[0] {
        text_less(a.drop_first(), b.drop_first())
    } else {
        (a[0] as int) < (b[0] as int)
    }
}

/// No text comes before itself.
pub proof fn lemma_text_less_irreflexive(a: Seq<char>)
    ensures
        !text_less(a, a),
    decreases a.len(),
{
    if a.len() > 0 {
        lemma_text_less_irreflexive(a.drop_first());
    }
}

proof fn lemma_text_less_transitive(a: Seq<char>, b: Seq<char>, c: Seq<char>)
    requires
        text_less(a, b),
        text_less(b, c),
    ensures
        text_less(a, c),
    decreases a.len(),
{
    if a.len() > 0 && a[0] == b[0] && b[0] == c[0] {
        lemma_text_less_transitive(a.drop_first(), b.drop_first(), c.drop_first());
    }
}

proof fn lemma_text_less_total(a: Seq<char>, b: Seq<char>)
    ensures
        a == b || text_less(a, b) || text_less(b, a),
    decreases a.len(),
{
    if a.len() > 0 && b.len() > 0 && a[0] == b[0] {
        lemma_text_less_total(a.drop_first(), b.drop_first());
        if a.drop_first() == b.drop_first() {
            assert(a =~= seq![a[0]] + a.drop_first());
            assert(b =~= seq![b[0]] + b.drop_first());
        }
    } else if a.len() == 0 && b.len() == 0 {
        assert(a =~= b);
    }
}

/// Tests whether `a` comes before `b`.
fn text_before(a: &str, b: &str) -> (r: bool)
    ensures
        r == text_less(a@, b@),
{
    let left = chars_of(a);
    let right = chars_of(b);
    let mut index: usize = 0;
    proof {
        assert(a@.skip(0) =~= a@);
        assert(b@.skip(0) =~= b@);
    }
    while index < left.len() && index < right.len()
        invariant
            index <= left@.len(),
            index <= right@.len(),
            left@ == a@,
            right@ == b@,
            text_less(a@, b@) == text_less(a@.skip(index as int), b@.skip(index as int)),
        decreases left@.len() - index,
    {
        proof {
            assert(a@.skip(index as int).drop_first() =~= a@.skip(index + 1));
            assert(b@.skip(index as int).drop_first() =~= b@.skip(index + 1));
        }
        let mine: char = left[index];
        let theirs: char = right[index];
        if mine != theirs {
            return mine < theirs;
        }
        index += 1;
    }
    index < right.len()
}

/// The entries of a file with their keys.
pub type FallbackEntries = Seq<(Seq<char>, FallbackTokenEntryView)>;

/// The keys rise from entry to entry.
pub open spec fn keys_rise(entries: FallbackEntries) -> bool {
    forall|i: int, j: int|
        0 <= i < j < entries.len() ==> text_less(#[trigger] entries[i].0, #[trigger] entries[j].0)
}

/// The entries with `entry` under `key`, in place of what was there.
pub open spec fn with_entry(
    entries: FallbackEntries,
    key: Seq<char>,
    entry: FallbackTokenEntryView,
) -> FallbackEntries
    decreases entries.len(),
{
    if entries.len() == 0 {
        seq![(key, entry)]
    } else if entries[0].0 == key {
        seq![(key, entry)] + entries.drop_first()
    } else if text_less(key, entries[0].0) {
        seq![(key, entry)] + entries
    } else {
        seq![entries[0]] + with_entry(entries.drop_first(), key, entry)
    }
}

/// The entries without the one under `key`.
pub open spec fn without_entry(entries: FallbackEntries, key: Seq<char>) -> FallbackEntries
    decreases entries.len(),
{
    if entries.len() == 0 {
        entries
    } else if entries[0].0 == key {
        entries.drop_first()
    } else {
        seq![entries[0]] + without_entry(entries.drop_first(), key)
    }
}

/// There is an entry under `key`.
pub open spec fn has_entry(entries: FallbackEntries, key: Seq<char>) -> bool {
    exists|i: int| 0 <= i < entries.len() && #[trigger] entries[i].0 == key
}

proof fn lemma_with_entry_from(
    entries: FallbackEntries,
    key: Seq<char>,
    entry: FallbackTokenEntryView,
    from: int,
)
    requires
        0 <= from <= entries.len(),
        forall|i: int| 0 <= i < from ==> text_less(#[trigger] entries[i].0, key),
    ensures
        with_entry(entries, key, entry) == entries.take(from) + with_entry(
            entries.skip(from),
            key,
            entry,
        ),
    decreases from,
{
    if from == 0 {
        assert(entries.skip(0) =~= entries);
        assert(entries.take(0) + with_entry(entries, key, entry) =~= with_entry(
            entries,
            key,
            entry,
        ));
    } else {
        let rest = entries.drop_first();
        assert(text_less(entries[0].0, key));
        lemma_text_less_irreflexive(key);
        if text_less(key, entries[0].0) {
            lemma_text_less_transitive(key, entries[0].0, key);
        }
        assert forall|i: int| 0 <= i < from - 1 implies text_less(#[trigger] rest[i].0, key) by {
            assert(rest[i] == entries[i + 1]);
        }
        lemma_with_entry_from(rest, key, entry, from - 1);
        assert(rest.skip(from - 1) =~= entries.skip(from));
        assert(seq![entries[0]] + (rest.take(from - 1) + with_entry(entries.skip(from), key, entry))
            =~= entries.take(from) + with_entry(entries.skip(from), key, entry));
    }
}

/// Putting an entry in its place keeps the keys in order.
pub proof fn lemma_with_entry_keeps_order(
    entries: FallbackEntries,
    key: Seq<char>,
    entry: FallbackTokenEntryView,
)
    requires
        keys_rise(entries),
    ensures
        keys_rise(with_entry(entries, key, entry)),
        with_entry(entries, key, entry).len() > 0,
        forall|low: Seq<char>|
            text_less(low, key) && (entries.len() > 0 ==> text_less(low, entries[0].0))
                ==> #[trigger] text_less(low, with_entry(entries, key, entry)[0].0),
    decreases entries.len(),
{
    let added = with_entry(entries, key, entry);
    if entries.len() > 0 {
        let rest = entries.drop_first();
        assert forall|i: int, j: int| 0 <= i < j < rest.len() implies text_less(
            #[trigger] rest[i].0,
            #[trigger] rest[j].0,
        ) by {
            assert(rest[i].0 == entries[i + 1].0 && rest[j].0 == entries[j + 1].0);
        }
        lemma_with_entry_keeps_order(rest, key, entry);
        lemma_text_less_total(key, entries[0].0);
        let added_rest = with_entry(rest, key, entry);
        assert forall|i: int, j: int| 0 <= i < j < added.len() implies text_less(
            #[trigger] added[i].0,
            #[trigger] added[j].0,
        ) by {
            if entries[0].0 == key {
                assert(added[j].0 == entries[j].0);
                assert(added[i].0 == entries[i].0);
            } else if text_less(key, entries[0].0) {
                assert(added[j].0 == entries[j - 1].0);
                if i == 0 {
                    if j > 1 {
                        assert(text_less(entries[0].0, entries[j - 1].0));
                        lemma_text_less_transitive(key, entries[0].0, entries[j - 1].0);
                    }
                } else {
                    assert(added[i].0 == entries[i - 1].0);
                }
            } else {
                assert(added[j].0 == added_rest[j - 1].0);
                if i == 0 {
                    assert(rest.len() > 0 ==> rest[0].0 == entries[1].0);
                    assert(text_less(entries[0].0, added_rest[0].0));
                    if j > 1 {
                        assert(text_less(added_rest[0].0, added_rest[j - 1].0));
                        lemma_text_less_transitive(
                            entries[0].0,
                            added_rest[0].0,
                            added_rest[j - 1].0,
                        );
                    }
                } else {
                    assert(added[i].0 == added_rest[i - 1].0);
                }
            }
        }
    }
}

proof fn lemma_without_entry_at(entries: FallbackEntries, key: Seq<char>, at: int)
    requires
        0 <= at < entries.len(),
        entries[at].0 == key,
        forall|i: int| 0 <= i < at ==> #[trigger] entries[i].0 != key,
    ensures
        without_entry(entries, key) == entries.remove(at),
    decreases at,
{
    if at > 0 {
        let rest = entries.drop_first();
        assert forall|i: int| 0 <= i < at - 1 implies #[trigger] rest[i].0 != key by {
            assert(rest[i] == entries[i + 1]);
        }
        assert(entries[0].0 != key);
        lemma_without_entry_at(rest, key, at - 1);
        assert(seq![entries[0]] + rest.remove(at - 1) =~= entries.remove(at));
    } else {
        assert(entries.drop_first() =~= entries.remove(0));
    }
}

proof fn lemma_without_absent_entry(entries: FallbackEntries, key: Seq<char>)
    requires
        forall|i: int| 0 <= i < entries.len() ==> #[trigger] entries[i].0 != key,
    ensures
        without_entry(entries, key) == entries,
    decreases entries.len(),
{
    if entries.len() > 0 {
        let rest = entries.drop_first();
        assert forall|i: int| 0 <= i < rest.len() implies #[trigger] rest[i].0 != key by {
            assert(rest[i] == entries[i + 1]);
        }
        assert(entries[0].0 != key);
        lemma_without_absent_entry(rest, key);
        assert(seq![entries[0]] + rest =~= entries);
    }
}

/// Taking an entry out keeps the keys in order.
pub proof fn lemma_without_entry_keeps_order(entries: FallbackEntries, key: Seq<char>)
    requires
        keys_rise(entries),
    ensures
        keys_rise(without_entry(entries, key)),
{
    if has_entry(entries, key) {
        let at = choose|i: int| 0 <= i < entries.len() && #[trigger] entries[i].0 == key;
        assert forall|i: int| 0 <= i < at implies #[trigger] entries[i].0 != key by {
            lemma_text_less_irreflexive(key);
        }
        lemma_without_entry_at(entries, key, at);
    } else {
        lemma_without_absent_entry(entries, key);
    }
}

/// One entry of the file and its key.
#[derive(Clone, Debug, PartialEq)]
pub struct KeyedEntry {
    pub key: String,
    pub entry: FallbackTokenEntry,
}

impl DeepView for KeyedEntry {
    type V = (Seq<char>, FallbackTokenEntryView);

    open spec fn deep_view(&self) -> (Seq<char>, FallbackTokenEntryView) {
        (self.key@, self.entry.deep_view())
    }
}

impl Duplicate for KeyedEntry {
    fn duplicate(&self) -> (copy: Self) {
        KeyedEntry { key: self.key.clone(), entry: self.entry.duplicate() }
    }
}

/// The contents of the file: entries under keys, in the order of the keys.
#[derive(Debug, PartialEq)]
pub struct FallbackFile {
    entries: Vec<KeyedEntry>,
}

impl DeepView for FallbackFile {
    type V = FallbackEntries;

    closed spec fn deep_view(&self) -> FallbackEntries {
        self.entries.deep_view()
    }
}

impl Duplicate for FallbackFile {
    fn duplicate(&self) -> (copy: Self) {
        proof {
            use_type_invariant(self);
        }
        FallbackFile { entries: self.entries.duplicate() }
    }
}

impl Clone for FallbackFile {
    fn clone(&self) -> (copy: Self)
        ensures
            copy.deep_view() == self.deep_view(),
    {
        self.duplicate()
    }
}

impl FallbackFile {
    #[verifier::type_invariant]
    spec fn well_formed(self) -> bool {
        keys_rise(self.entries.deep_view())
    }

    /// A file with no entries.
    pub fn new() -> (file: FallbackFile)
        ensures
            file.deep_view() == Seq::<(Seq<char>, FallbackTokenEntryView)>::empty(),
    {
        let entries: Vec<KeyedEntry> = Vec::new();
        let file = FallbackFile { entries };
        assert(file.deep_view() =~= Seq::<(Seq<char>, FallbackTokenEntryView)>::empty());
        file
    }

    /// The entries, in the order of their keys.
    pub fn entries(&self) -> (entries: &Vec<KeyedEntry>)
        ensures
            entries.deep_view() == self.deep_view(),
            keys_rise(entries.deep_view()),
    {
        proof {
            use_type_invariant(self);
        }
        &self.entries
    }

    /// Tests whether the file has no entries.
    pub fn is_empty(&self) -> (r: bool)
        ensures
            r == (self.deep_view().len() == 0),
    {
        self.entries.len() == 0
    }

    /// Returns the entry under `key`.
    pub fn get(&self, key: &str) -> (entry: Option<&FallbackTokenEntry>)
        ensures
            entry is Some <==> has_entry(self.deep_view(), key@),
            entry matches Some(found) ==> self.deep_view().contains((key@, found.deep_view())),
    {
        let mut index: usize = 0;
        while index < self.entries.len()
            invariant
                index <= self.entries@.len(),
                forall|i: int| 0 <= i < index ==> #[trigger] self.entries@[i].key@ != key@,
            decreases self.entries@.len() - index,
        {
            if same_text(self.entries[index].key.as_str(), key) {
                assert(self.deep_view()[index as int] == (
                    key@,
                    self.entries@[index as int].entry.deep_view(),
                ));
                assert(self.deep_view()[index as int].0 == key@);
                return Some(&self.entries[index].entry);
            }
            index += 1;
        }
        assert forall|i: int| 0 <= i < self.deep_view().len() implies #[trigger] self.deep_view()[i].0
            != key@ by {
            assert(self.entries@[i].key@ != key@);
        }
        None
    }

    /// Puts `entry` under `key`, in place of what was there.
    pub fn insert(self, key: String, entry: FallbackTokenEntry) -> (file: FallbackFile)
        ensures
            file.deep_view() == with_entry(self.deep_view(), key@, entry.deep_view()),
    {
        proof {
            use_type_invariant(&self);
        }
        let mut entries = self.entries;
        let ghost before = entries.deep_view();
        let ghost added = (key@, entry.deep_view());
        let mut index: usize = 0;
        while index < entries.len() && text_before(entries[index].key.as_str(), key.as_str())
            invariant
                index <= entries@.len(),
                before == entries.deep_view(),
                forall|i: int| 0 <= i < index ==> text_less(#[trigger] before[i].0, key@),
            decreases entries@.len() - index,
        {
            assert(before[index as int].0 == entries@[index as int].key@);
            index += 1;
        }
        proof {
            lemma_with_entry_from(before, key@, entry.deep_view(), index as int);
            let rest = before.skip(index as int);
            if index < before.len() {
                assert(rest[0] == before[index as int]);
                assert(before[index as int].0 == entries@[index as int].key@);
                lemma_text_less_total(before[index as int].0, key@);
                assert forall|j: int| index < j < before.len() implies text_less(
                    key@,
                    #[trigger] before[j].0,
                ) by {
                    assert(text_less(before[index as int].0, before[j].0));
                    if before[index as int].0 != key@ {
                        lemma_text_less_transitive(key@, before[index as int].0, before[j].0);
                    }
                }
            }
        }
        if index < entries.len() && same_text(entries[index].key.as_str(), key.as_str()) {
            let _replaced = entries.remove(index);
        }
        entries.insert(index, KeyedEntry { key, entry });
        proof {
            let after = entries.deep_view();
            assert(after =~= with_entry(before, added.0, added.1));
            assert forall|i: int, j: int| 0 <= i < j < after.len() implies text_less(
                #[trigger] after[i].0,
                #[trigger] after[j].0,
            ) by {
                let shift: int = if after.len() == before.len() {
                    0
                } else {
                    1
                };
                assert(i < index ==> after[i] == before[i]);
                assert(j < index ==> after[j] == before[j]);
                assert(i > index ==> after[i] == before[i - shift]);
                assert(j > index ==> after[j] == before[j - shift]);
                if i == index {
                    assert(text_less(key@, before[j - shift].0));
                }
            }
        }
        FallbackFile { entries }
    }

    /// Takes out the entry under `key`, and tells whether there was one.
    pub fn remove(self, key: &str) -> (r: (FallbackFile, bool))
        ensures
            r.0.deep_view() == without_entry(self.deep_view(), key@),
            r.1 == has_entry(self.deep_view(), key@),
    {
        proof {
            use_type_invariant(&self);
        }
        let mut entries = self.entries;
        let ghost before = entries.deep_view();
        let mut index: usize = 0;
        while index < entries.len()
            invariant
                index <= entries@.len(),
                before == entries.deep_view(),
                before == self.deep_view(),
                keys_rise(before),
                forall|i: int| 0 <= i < index ==> #[trigger] before[i].0 != key@,
            decreases entries@.len() - index,
        {
            assert(before[index as int].0 == entries@[index as int].key@);
            if same_text(entries[index].key.as_str(), key) {
                proof {
                    lemma_without_entry_at(before, key@, index as int);
                }
                let _removed = entries.remove(index);
                proof {
                    assert(entries.deep_view() =~= before.remove(index as int));
                    let after = entries.deep_view();
                    assert forall|i: int, j: int| 0 <= i < j < after.len() implies text_less(
                        #[trigger] after[i].0,
                        #[trigger] after[j].0,
                    ) by {
                        let from: int = if i < index {
                            i
                        } else {
                            i + 1
                        };
                        let to: int = if j < index {
                            j
                        } else {
                            j + 1
                        };
                        assert(after[i] == before[from] && after[j] == before[to]);
                    }
                }
                return (FallbackFile { entries }, true);
            }
            index += 1;
        }
        proof {
            lemma_without_absent_entry(before, key@);
        }
        (FallbackFile { entries }, false)
    }
}

impl FallbackTokenEntryView {
    /// The tokens that an entry stands for. The file holds no token type and no further members:
    /// its tokens are bearer tokens without any. It holds no lifetime either.
    pub open spec fn tokens(self) -> StoredOAuthTokensView {
        StoredOAuthTokensView {
            server_name: self.server_name,
            url: self.server_url,
            client_id: self.client_id,
            token_response: OAuthTokenResponseView {
                access_token: self.access_token,
                token_type: TokenTypeView::Bearer,
                expires_in: None,
                refresh_token: self.refresh_token,
                scopes: if self.scopes.len() == 0 {
                    None
                } else {
                    Some(self.scopes)
                },
                extra_fields: seq![],
            },
            expires_at: self.expires_at,
        }
    }
}

impl StoredOAuthTokensView {
    /// The entry that the file holds for the tokens when it is written at `now`.
    pub open spec fn fallback_entry(self, now: nat) -> FallbackTokenEntryView {
        FallbackTokenEntryView {
            server_name: self.server_name,
            server_url: self.url,
            client_id: self.client_id,
            access_token: self.token_response.access_token,
            expires_at: match self.expires_at {
                Some(at) => Some(at),
                None => crate::oauth::tokens::expiry_millis(self.token_response.expires_in, now),
            },
            refresh_token: self.token_response.refresh_token,
            scopes: match self.token_response.scopes {
                Some(scopes) => scopes,
                None => seq![],
            },
        }
    }
}

/// The entry of the file that answers for `key`: the first one, in the order of the keys, whose
/// own server has that key.
pub open spec fn entry_for(entries: FallbackEntries, key: Seq<char>) -> Option<
    FallbackTokenEntryView,
>
    decreases entries.len(),
{
    if entries.len() == 0 {
        None
    } else if crate::oauth::keys::store_key(entries[0].1.server_name, entries[0].1.server_url)
        == key {
        Some(entries[0].1)
    } else {
        entry_for(entries.drop_first(), key)
    }
}

/// The tokens that the file holds for `key`, with the lifetime that is left at `now`.
pub open spec fn tokens_for(entries: FallbackEntries, key: Seq<char>, now: nat) -> Option<
    StoredOAuthTokensView,
> {
    match entry_for(entries, key) {
        Some(entry) => Some(entry.tokens().with_lifetime_left(now)),
        None => None,
    }
}

/// Makes the tokens that an entry stands for.
fn tokens_from_entry(entry: &FallbackTokenEntry) -> (tokens: StoredOAuthTokens)
    ensures
        tokens.deep_view() == entry.deep_view().tokens(),
{
    let scopes = if entry.scopes.len() == 0 {
        None
    } else {
        Some(entry.scopes.duplicate())
    };
    let tokens = StoredOAuthTokens {
        server_name: entry.server_name.clone(),
        url: entry.server_url.clone(),
        client_id: entry.client_id.clone(),
        token_response: WrappedOAuthTokenResponse(
            OAuthTokenResponse {
                access_token: entry.access_token.clone(),
                token_type: TokenType::Bearer,
                expires_in: None,
                refresh_token: entry.refresh_token.duplicate(),
                scopes,
                extra_fields: Vec::new(),
            },
        ),
        expires_at: entry.expires_at,
    };
    assert(tokens.deep_view().token_response.extra_fields
        =~= entry.deep_view().tokens().token_response.extra_fields);
    tokens
}

/// Finds the tokens of a server in the file, with the lifetime that is left at `now`.
pub fn tokens_in_file_at(file: &FallbackFile, key: &str, now: &Duration) -> (found: Option<
    StoredOAuthTokens,
>)
    ensures
        found.deep_view() == tokens_for(file.deep_view(), key@, now@),
{
    let entries = file.entries();
    let ghost views = file.deep_view();
    let mut index: usize = 0;
    assert(views.skip(0) =~= views);
    while index < entries.len()
        invariant
            index <= entries@.len(),
            views == file.deep_view(),
            views == entries.deep_view(),
            entry_for(views, key@) == entry_for(views.skip(index as int), key@),
        decreases entries@.len() - index,
    {
        let entry = &entries[index].entry;
        proof {
            assert(views.skip(index as int)[0] == entries@[index as int].deep_view());
            assert(views.skip(index as int).drop_first() =~= views.skip(index + 1));
        }
        let own = compute_store_key(entry.server_name.as_str(), entry.server_url.as_str());
        if same_text(own.as_str(), key) {
            let mut tokens = tokens_from_entry(entry);
            refresh_expires_in_from_timestamp_at(&mut tokens, now);
            return Some(tokens);
        }
        index += 1;
    }
    None
}

/// Makes the entry that the file holds for the tokens when it is written at `now`.
pub fn entry_from_tokens_at(tokens: &StoredOAuthTokens, now: &Duration) -> (entry:
    FallbackTokenEntry)
    ensures
        entry.deep_view() == tokens.deep_view().fallback_entry(now@),
{
    let response = &tokens.token_response.0;
    let expires_at = match tokens.expires_at {
        Some(at) => Some(at),
        None => compute_expires_at_millis_at(response, now),
    };
    let scopes: Vec<String> = match &response.scopes {
        Some(scopes) => scopes.duplicate(),
        None => Vec::new(),
    };
    let entry = FallbackTokenEntry {
        server_name: tokens.server_name.clone(),
        server_url: tokens.url.clone(),
        client_id: tokens.client_id.clone(),
        access_token: response.access_token.clone(),
        expires_at,
        refresh_token: response.refresh_token.duplicate(),
        scopes,
    };
    assert(entry.deep_view().scopes =~= tokens.deep_view().fallback_entry(now@).scopes);
    entry
}

/// Puts the tokens into the file under `key`, as written at `now`. No file is a file without
/// entries.
pub fn file_with_tokens_at(
    file: Option<FallbackFile>,
    key: String,
    tokens: &StoredOAuthTokens,
    now: &Duration,
) -> (r: FallbackFile)
    ensures
        r.deep_view() == with_entry(
            match file {
                Some(existing) => existing.deep_view(),
                None => seq![],
            },
            key@,
            tokens.deep_view().fallback_entry(now@),
        ),
{
    let existing = match file {
        Some(existing) => existing,
        None => FallbackFile::new(),
    };
    existing.insert(key, entry_from_tokens_at(tokens, now))
}

} // verus!
