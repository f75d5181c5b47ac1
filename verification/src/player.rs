//! Account and player records and the use cases over them: Register,
//! Login, Validate-Session and Bulk-List.
//!
//! Records are persisted as JSON strings in the store's two tables, both
//! keyed by username. The encoders and parsers are trusted wrappers around
//! serde; their results are related through the `account_json` /
//! `parsed_account` and `player_json` / `parsed_player` names, so that what
//! a use case writes and what a later read recovers stay tied together.

use vstd::prelude::*;

verus! {

use crate::credential;
use crate::credential::argon2_matches;
use crate::credential::argon2_parses;
use crate::errors::AppError;
use crate::errors::SessionError;
use crate::normalize::assoc_map;
use crate::normalize::entries_view;
use crate::normalize::normalize_data;
use crate::normalize::normalized_map;
use crate::session::decoded_claims;
use crate::session::spec_jwt_secret;
use crate::session::token_of;
use crate::session::Claims;
use crate::store::Store;
use crate::store::StoreView;
use crate::store::TableKind;
use vstd::string::StringExecFns;

/// A login request body: the username and the secret presented for it.
#[derive(Debug, PartialEq, Eq)]
pub struct Login {
    /// The account to log into.
    pub username: String,
    /// The secret presented.
    pub password: String,
}

/// An identity record: the unique, immutable username and the encoded
/// password hash. Created once at registration and never overwritten by
/// later logins.
#[derive(Debug, PartialEq, Eq)]
pub struct Account {
    /// The unique key of both tables.
    pub username: String,
    /// The self-describing encoded password hash.
    pub password: String,
}

/// An account's abstract content.
pub ghost struct AccountView {
    /// The username, as its character sequence.
    pub username: Seq<char>,
    /// The encoded password hash, as its character sequence.
    pub password: Seq<char>,
}

impl View for Account {
    type V = AccountView;

    open spec fn view(&self) -> AccountView {
        AccountView { username: self.username@, password: self.password@ }
    }
}

/// A gameplay record: the username it belongs to, an opaque rating payload,
/// and the custom data mapping, whose key set is constrained to the schema
/// catalog's on every write.
#[derive(Debug, PartialEq)]
pub struct Player {
    /// The unique key, shared with the account.
    pub username: String,
    /// The rating payload; stored opaquely, never inspected here.
    pub rank: serde_json::Value,
    /// The custom data fields, as an association list.
    pub data: Vec<(String, serde_json::Value)>,
}

/// A player's abstract content: the data association list is read as the
/// mapping it denotes.
pub ghost struct PlayerView {
    /// The username, as its character sequence.
    pub username: Seq<char>,
    /// The rating payload.
    pub rank: serde_json::Value,
    /// The custom data mapping.
    pub data: Map<Seq<char>, serde_json::Value>,
}

impl View for Player {
    type V = PlayerView;

    open spec fn view(&self) -> PlayerView {
        PlayerView {
            username: self.username@,
            rank: self.rank,
            data: assoc_map(entries_view(self.data@)),
        }
    }
}

/// The JSON string serde produces for an account record: a pure function
/// of its content.
pub uninterp spec fn account_json(a: AccountView) -> Seq<char>;

/// What parsing a stored account string recovers: `None` when the text is
/// not a JSON object carrying a string `username`. A pure function of the
/// text.
pub uninterp spec fn parsed_account(s: Seq<char>) -> Option<AccountView>;

/// The JSON string serde produces for a player record: a pure function of
/// its content.
pub uninterp spec fn player_json(p: PlayerView) -> Seq<char>;

/// What parsing a stored player string recovers: `None` when the text is
/// not a JSON object carrying a string `username`, a `rank` and a `data`
/// object. A pure function of the text.
pub uninterp spec fn parsed_player(s: Seq<char>) -> Option<PlayerView>;

/// Whether some entry of a players table parses to exactly this player
/// content.
pub open spec fn listed_player(players: Map<Seq<char>, Seq<char>>, p: PlayerView) -> bool {
    exists|k: Seq<char>| #[trigger] players.dom().contains(k) && parsed_player(players[k]) == Some(
        p,
    )
}

/// That a registration for `u` committed against the prior store contents:
/// both tables gained exactly one record under `u` — an account whose hash
/// parses and matches the secret, and the player with this rank and data —
/// and the two stored strings parse back to exactly what was written.
pub open spec fn register_wrote(
    prior: StoreView,
    current: StoreView,
    u: Seq<char>,
    rank: serde_json::Value,
    data: Map<Seq<char>, serde_json::Value>,
    secret: Seq<char>,
) -> bool {
    let pv = PlayerView { username: u, rank: rank, data: data };
    &&& (exists|h: Seq<char>|
        {
            let av = AccountView { username: u, password: h };
            &&& #[trigger] argon2_parses(h)
            &&& argon2_matches(h, secret)
            &&& current.accounts == prior.accounts.insert(u, account_json(av))
            &&& parsed_account(current.accounts[u]) == Some(av)
        })
    &&& current.players == prior.players.insert(u, player_json(pv))
    &&& parsed_player(current.players[u]) == Some(pv)
}

/// Relies on `serde_json::to_string`: the account's two fields become a
/// JSON object, and parsing that text recovers exactly the same content.
#[verifier::external_body]
fn encode_account(a: &Account) -> (r: String)
    ensures
        r@ == account_json(a@),
        parsed_account(r@) == Some(a@),
{
    let mut m = serde_json::Map::new();
    m.insert("username".to_string(), serde_json::Value::String(a.username.clone()));
    m.insert("password".to_string(), serde_json::Value::String(a.password.clone()));
    serde_json::to_string(&serde_json::Value::Object(m)).expect("serializing a JSON value cannot fail")
}

/// Relies on `serde_json::from_str`: recovers the account fields from the
/// stored text; a missing password reads as the empty string.
#[verifier::external_body]
fn decode_account(s: &str) -> (r: Option<Account>)
    ensures
        match r {
            Some(a) => parsed_account(s@) == Some(a@),
            None => parsed_account(s@) is None,
        },
{
    let v: serde_json::Value = serde_json::from_str(s).ok()?;
    let username = v.get("username")?.as_str()?.to_string();
    let password = match v.get("password").and_then(|p| p.as_str()) {
        Some(p) => p.to_string(),
        None => String::new(),
    };
    Some(Account { username, password })
}

/// Relies on `serde_json::to_string`: the player becomes a JSON object
/// whose `data` member holds the association list as an object (a repeated
/// name keeps its last value, as the denoted mapping does), and parsing
/// that text recovers exactly the same content.
#[verifier::external_body]
fn encode_player(p: &Player) -> (r: String)
    ensures
        r@ == player_json(p@),
        parsed_player(r@) == Some(p@),
{
    let data: serde_json::Map<String, serde_json::Value> = p.data.iter().cloned().collect();
    let mut m = serde_json::Map::new();
    m.insert("username".to_string(), serde_json::Value::String(p.username.clone()));
    m.insert("rank".to_string(), p.rank.clone());
    m.insert("data".to_string(), serde_json::Value::Object(data));
    serde_json::to_string(&serde_json::Value::Object(m)).expect("serializing a JSON value cannot fail")
}

/// Relies on `serde_json::from_str`: recovers the player fields from the
/// stored text, the `data` object as an association list.
#[verifier::external_body]
fn decode_player(s: &str) -> (r: Option<Player>)
    ensures
        match r {
            Some(p) => parsed_player(s@) == Some(p@),
            None => parsed_player(s@) is None,
        },
{
    let v: serde_json::Value = serde_json::from_str(s).ok()?;
    let username = v.get("username")?.as_str()?.to_string();
    let rank = v.get("rank")?.clone();
    let data_obj = v.get("data")?.as_object()?;
    let mut data: Vec<(String, serde_json::Value)> = Vec::new();
    for (k, val) in data_obj.iter() {
        data.push((k.clone(), val.clone()));
    }
    Some(Player { username, rank, data })
}

impl Player {
    /// The record normalizer of the write pipeline: the same username and
    /// rank, with the data mapping whitelist-merged against the catalog.
    pub fn normalize(
        submitted: &Player,
        catalog: &Vec<(String, serde_json::Value)>,
    ) -> (r: Player)
        ensures
            r@ == (PlayerView {
                username: submitted.username@,
                rank: submitted.rank,
                data: normalized_map(submitted@.data, entries_view(catalog@)),
            }),
    {
        Player {
            username: submitted.username.clone(),
            rank: submitted.rank.clone(),
            data: normalize_data(&submitted.data, catalog),
        }
    }

    /// Registers a new player: rejects a taken username, whitelist-merges
    /// the submitted data against the catalog, hashes the secret, and
    /// writes the account and player records under the username in one
    /// transaction. On success the store gained exactly those two records,
    /// and they parse back to what was written. A conflict or a hashing
    /// fault leaves the store unchanged; a surfaced store failure leaves it
    /// unchanged too, unless a failed commit applied the very pair a
    /// success would have (the store does not promise a failed commit
    /// rolled back).
    pub fn register(
        store: &mut Store,
        catalog: &Vec<(String, serde_json::Value)>,
        submitted: &Player,
        secret: &str,
    ) -> (r: Result<(), AppError>)
        ensures
            match r {
                Ok(()) => !old(store)@.accounts.dom().contains(submitted.username@)
                    && register_wrote(
                    old(store)@,
                    final(store)@,
                    submitted.username@,
                    submitted.rank,
                    normalized_map(submitted@.data, entries_view(catalog@)),
                    secret@,
                ),
                Err(e) => {
                    &&& (e == AppError::Conflict ==> old(store)@.accounts.dom().contains(
                        submitted.username@,
                    ) && final(store)@ == old(store)@)
                    &&& (e == AppError::Internal ==> !old(store)@.accounts.dom().contains(
                        submitted.username@,
                    ) && final(store)@ == old(store)@)
                    &&& (e == AppError::Store ==> final(store)@ == old(store)@ || (!old(
                        store,
                    )@.accounts.dom().contains(submitted.username@) && register_wrote(
                        old(store)@,
                        final(store)@,
                        submitted.username@,
                        submitted.rank,
                        normalized_map(submitted@.data, entries_view(catalog@)),
                        secret@,
                    )))
                    &&& (e == AppError::Conflict || e == AppError::Store || e
                        == AppError::Internal)
                },
            },
    {
        match store.read_one(TableKind::Accounts, submitted.username.as_str()) {
            Err(_) => {
                return Err(AppError::Store);
            },
            Ok(Some(_)) => {
                return Err(AppError::Conflict);
            },
            Ok(None) => {},
        }
        let normalized = Player::normalize(submitted, catalog);
        let hash = match credential::hash(secret) {
            Ok(h) => h,
            Err(_) => {
                return Err(AppError::Internal);
            },
        };
        let account = Account { username: submitted.username.clone(), password: hash };
        let account_str = encode_account(&account);
        let player_str = encode_player(&normalized);
        let r = store.write_unique(
            submitted.username.as_str(),
            account_str.as_str(),
            player_str.as_str(),
        );
        proof {
            let u = submitted.username@;
            if store@.accounts == old(store)@.accounts.insert(u, account_str@) && store@.players
                == old(store)@.players.insert(u, player_str@) {
                let h = account@.password;
                let av = AccountView { username: u, password: h };
                let pv = PlayerView {
                    username: u,
                    rank: submitted.rank,
                    data: normalized_map(submitted@.data, entries_view(catalog@)),
                };
                assert(account@ == av);
                assert(normalized@ == pv);
                assert(store@.accounts[u] == account_str@);
                assert(store@.players[u] == player_str@);
                assert(argon2_parses(h) && argon2_matches(h, secret@) && store@.accounts == old(
                    store,
                )@.accounts.insert(u, account_json(av)) && parsed_account(store@.accounts[u])
                    == Some(av));
                assert(register_wrote(old(store)@, store@, u, submitted.rank, pv.data, secret@));
            }
        }
        r
    }

    /// Lists every stored player record: one decoded player per entry of
    /// the players table. A single entry that fails to parse fails the
    /// whole call, fail-fast, with the serialization fault.
    pub fn bulk(store: &Store) -> (r: Result<Vec<Player>, AppError>)
        ensures
            match r {
                Ok(v) => {
                    &&& v@.len() == store@.players.dom().len()
                    &&& (forall|i: int|
                        0 <= i < v@.len() ==> listed_player(store@.players, (#[trigger] v@[i])@))
                    &&& (forall|k: Seq<char>| #[trigger]
                        store@.players.dom().contains(k) ==> exists|i: int|
                            0 <= i < v@.len() && parsed_player(store@.players[k]) == Some(
                                (#[trigger] v@[i])@,
                            ))
                },
                Err(e) => {
                    &&& (e == AppError::Serialization ==> exists|k: Seq<char>| #[trigger]
                        store@.players.dom().contains(k) && parsed_player(
                            store@.players[k],
                        ) is None)
                    &&& (e == AppError::Serialization || e == AppError::Store)
                },
            },
    {
        let entries = match store.list_all(TableKind::Players) {
            Ok(v) => v,
            Err(_) => {
                return Err(AppError::Store);
            },
        };
        let mut out: Vec<Player> = Vec::new();
        let mut i: usize = 0;
        while i < entries.len()
            invariant
                i <= entries@.len(),
                out@.len() == i,
                entries@.len() == store@.players.dom().len(),
                forall|j: int|
                    0 <= j < entries@.len() ==> store@.players.contains_pair(
                        (#[trigger] entries@[j]).0@,
                        entries@[j].1@,
                    ),
                forall|k: Seq<char>| #[trigger]
                    store@.players.dom().contains(k) ==> exists|j: int|
                        0 <= j < entries@.len() && (#[trigger] entries@[j]).0@ == k,
                forall|j: int|
                    0 <= j < i ==> parsed_player((#[trigger] entries@[j]).1@) == Some(out@[j]@),
                forall|j: int|
                    0 <= j < i ==> listed_player(store@.players, (#[trigger] out@[j])@),
            decreases entries@.len() - i,
        {
            match decode_player(entries[i].1.as_str()) {
                Some(p) => {
                    proof {
                        let ghost k = entries@[i as int].0@;
                        assert(store@.players.contains_pair(k, entries@[i as int].1@));
                        assert(store@.players.dom().contains(k) && parsed_player(
                            store@.players[k],
                        ) == Some(p@));
                        assert(listed_player(store@.players, p@));
                    }
                    out.push(p);
                },
                None => {
                    proof {
                        let ghost k = entries@[i as int].0@;
                        assert(store@.players.contains_pair(k, entries@[i as int].1@));
                    }
                    return Err(AppError::Serialization);
                },
            }
            i = i + 1;
        }
        proof {
            assert forall|k: Seq<char>| #[trigger]
                store@.players.dom().contains(k) implies exists|j: int|
                0 <= j < out@.len() && parsed_player(store@.players[k]) == Some(
                    (#[trigger] out@[j])@,
                ) by {
                let j = choose|j: int|
                    0 <= j < entries@.len() && (#[trigger] entries@[j]).0@ == k;
                assert(store@.players.contains_pair(entries@[j].0@, entries@[j].1@));
                assert(0 <= j < out@.len() && parsed_player(store@.players[k]) == Some(
                    out@[j]@,
                ));
            }
        }
        Ok(out)
    }
}

/// The line `validate` answers with for a verified claim: a fixed prefix
/// and the subject.
pub open spec fn subject_line(sub: Seq<char>) -> Seq<char> {
    "sub: "@ + sub
}

/// The success rendering never equals the failure marker, whatever the
/// subject: the prefix's first character already differs.
pub proof fn lemma_subject_line_differs_from_marker(sub: Seq<char>)
    ensures
        subject_line(sub) != "Failed"@,
{
    reveal_strlit("sub: ");
    reveal_strlit("Failed");
    assert(subject_line(sub)[0] == 's');
    assert("Failed"@[0] == 'F');
}

impl Account {
    /// Logs a user in: a missing account is the lookup miss, a credential
    /// mismatch is unauthorized, and on a match a fresh session token bound
    /// to the stored username is returned.
    pub fn login(store: &Store, username: &str, secret: &str) -> (r: Result<String, AppError>)
        ensures
            match r {
                Ok(t) => {
                    &&& store@.accounts.dom().contains(username@)
                    &&& parsed_account(store@.accounts[username@]) matches Some(a)
                        && argon2_parses(a.password) && argon2_matches(a.password, secret@) && (
                    exists|e: int|
                        0 <= e <= usize::MAX && t@ == token_of(spec_jwt_secret(), a.username, e)
                            && decoded_claims(spec_jwt_secret(), t@) == Some((a.username, e)))
                },
                Err(e) => {
                    &&& (e == AppError::NotFound ==> !store@.accounts.dom().contains(username@))
                    &&& (e == AppError::Serialization ==> store@.accounts.dom().contains(username@)
                        && parsed_account(store@.accounts[username@]) is None)
                    &&& (e == AppError::CorruptHash ==> store@.accounts.dom().contains(username@)
                        && (parsed_account(store@.accounts[username@]) matches Some(a)
                        && !argon2_parses(a.password)))
                    &&& (e == AppError::Unauthorized ==> store@.accounts.dom().contains(username@)
                        && (parsed_account(store@.accounts[username@]) matches Some(a)
                        && argon2_parses(a.password) && !argon2_matches(a.password, secret@)))
                    &&& (e == AppError::Internal ==> store@.accounts.dom().contains(username@)
                        && (parsed_account(store@.accounts[username@]) matches Some(a)
                        && argon2_parses(a.password)))
                    &&& (e == AppError::NotFound || e == AppError::Unauthorized || e
                        == AppError::Serialization || e == AppError::CorruptHash || e
                        == AppError::Store || e == AppError::Internal)
                },
            },
    {
        let stored = match store.read_one(TableKind::Accounts, username) {
            Err(_) => {
                return Err(AppError::Store);
            },
            Ok(None) => {
                return Err(AppError::NotFound);
            },
            Ok(Some(s)) => s,
        };
        let account = match decode_account(stored.as_str()) {
            None => {
                return Err(AppError::Serialization);
            },
            Some(a) => a,
        };
        match credential::verify(account.password.as_str(), secret) {
            Err(e) => {
                return Err(e);
            },
            Ok(false) => {
                return Err(AppError::Unauthorized);
            },
            Ok(true) => {},
        }
        match crate::session::generate_session(account.username.as_str()) {
            Ok(t) => {
                proof {
                    assert(parsed_account(store@.accounts[username@]) == Some(account@));
                    let e = choose|e: int|
                        0 <= e <= usize::MAX && t@ == token_of(
                            spec_jwt_secret(),
                            account.username@,
                            e,
                        ) && decoded_claims(spec_jwt_secret(), t@) == Some((account.username@, e));
                    assert(0 <= e <= usize::MAX && t@ == token_of(
                        spec_jwt_secret(),
                        account@.username,
                        e,
                    ) && decoded_claims(spec_jwt_secret(), t@) == Some((account@.username, e)));
                }
                Ok(t)
            },
            Err(_) => Err(AppError::Internal),
        }
    }

    /// Turns a presented token into the decoded claim's subject line, or
    /// the failure marker when the token does not verify. The subject line
    /// carries its own prefix, so it never collides with the marker — not
    /// even for a subject literally named like it.
    pub fn validate(token: &str) -> (r: String)
        ensures
            decoded_claims(spec_jwt_secret(), token@) is None ==> r@ == "Failed"@,
            decoded_claims(spec_jwt_secret(), token@) matches Some((sub, e)) ==> (r@
                == subject_line(sub) || r@ == "Failed"@),
            r@ != "Failed"@ ==> (decoded_claims(spec_jwt_secret(), token@) matches Some((sub, e))
                && r@ == subject_line(sub)),
    {
        match crate::session::verify_session(token) {
            Ok(c) => {
                proof {
                    lemma_subject_line_differs_from_marker(c.sub@);
                }
                "sub: ".to_owned().concat(c.sub.as_str())
            },
            Err(_) => "Failed".to_owned(),
        }
    }

    /// Issues a session token bound to `sub`; the session engine's
    /// issuance, under the account type's name.
    pub fn generate_session(sub: &str) -> (r: Result<String, AppError>)
        ensures
            r matches Ok(t) ==> exists|e: int|
                0 <= e <= usize::MAX && t@ == token_of(spec_jwt_secret(), sub@, e)
                    && decoded_claims(spec_jwt_secret(), t@) == Some((sub@, e)),
            r matches Err(e) ==> e == AppError::Internal,
    {
        crate::session::generate_session(sub)
    }

    /// Verifies a session token; the session engine's verification, under
    /// the account type's name.
    pub fn verify_session(token: &str) -> (r: Result<Claims, SessionError>)
        ensures
            r matches Ok(c) ==> decoded_claims(spec_jwt_secret(), token@) == Some(
                (c.sub@, c.exp as int),
            ),
            r == Err::<Claims, SessionError>(SessionError::Expired) ==> decoded_claims(
                spec_jwt_secret(),
                token@,
            ) is Some,
            decoded_claims(spec_jwt_secret(), token@) is None ==> r == Err::<
                Claims,
                SessionError,
            >(SessionError::InvalidSignature),
            r == Err::<Claims, SessionError>(SessionError::InvalidSignature) ==> decoded_claims(
                spec_jwt_secret(),
                token@,
            ) is None || (decoded_claims(spec_jwt_secret(), token@) matches Some(p) && p.1
                > usize::MAX),
    {
        crate::session::verify_session(token)
    }
}

/// Sequential uniqueness: a registration that committed put the username
/// into the accounts table, so a later registration attempt for the same
/// username finds the key taken and reports the conflict instead of a
/// second success.
pub proof fn lemma_register_unique(s0: StoreView, u: Seq<char>, a: Seq<char>, p: Seq<char>)
    requires
        !s0.accounts.dom().contains(u),
    ensures
        (StoreView {
            accounts: s0.accounts.insert(u, a),
            players: s0.players.insert(u, p),
        }).accounts.dom().contains(u),
{
}

} // verus!
