//! Transactional store gateway: wraps the embedded key-value store's read
//! and write transactions behind a handle whose contents are modelled as two
//! maps from key to stored string, one per logical table.
//!
//! Reads run inside a read transaction and see a consistent snapshot.
//! The paired write runs inside a single write transaction, so either both
//! tables change or neither does; a transient transaction failure is retried
//! a bounded number of times before it is surfaced. The uniqueness check
//! precedes the write and is not repeated inside the write transaction.

use vstd::prelude::*;

use redb::ReadableDatabase;
use redb::ReadableTable;
use redb::TableDefinition;

verus! {

use crate::errors::AppError;

/// How many times a failed write transaction is attempted in all before the
/// failure is surfaced.
pub const WRITE_ATTEMPTS: usize = 3;

#[verifier::external_type_specification]
#[verifier::external_body]
pub struct ExDatabase(redb::Database);

/// What a table of the database holds: the mapping from key to stored
/// string. The two logical tables are read through this one name.
pub uninterp spec fn db_table(db: redb::Database, table: Seq<char>) -> Map<Seq<char>, Seq<char>>;

/// The two logical tables of the store, both keyed by username.
#[derive(Clone, Copy, Debug, PartialEq, Eq, Structural)]
pub enum TableKind {
    /// Identity records: username and password hash.
    Accounts,
    /// Gameplay records: username, rank and custom data.
    Players,
}

/// The store's abstract contents: one map per logical table.
pub ghost struct StoreView {
    /// Contents of the accounts table.
    pub accounts: Map<Seq<char>, Seq<char>>,
    /// Contents of the players table.
    pub players: Map<Seq<char>, Seq<char>>,
}

impl StoreView {
    /// The contents of one table.
    pub open spec fn table(self, t: TableKind) -> Map<Seq<char>, Seq<char>> {
        match t {
            TableKind::Accounts => self.accounts,
            TableKind::Players => self.players,
        }
    }
}

/// A handle on the embedded store, with its two tables created.
pub struct Store {
    db: redb::Database,
}

impl View for Store {
    type V = StoreView;

    closed spec fn view(&self) -> StoreView {
        StoreView {
            accounts: db_table(self.db, "accounts"@),
            players: db_table(self.db, "players"@),
        }
    }
}

impl Store {
    /// Wraps an open database, creating the two tables inside one write
    /// transaction so that later opens cannot miss them. Relies on redb's
    /// `WriteTransaction::open_table` creating a missing table.
    #[verifier::external_body]
    pub fn new(db: redb::Database) -> (r: Result<Store, AppError>) {
        let txn = db.begin_write().map_err(|_| AppError::Store)?;
        let a = txn.open_table(TableDefinition::<&str, &str>::new("accounts")).map(|_| ());
        let p = txn.open_table(TableDefinition::<&str, &str>::new("players")).map(|_| ());
        if a.is_err() || p.is_err() {
            return Err(AppError::Store);
        }
        txn.commit().map_err(|_| AppError::Store)?;
        Ok(Store { db })
    }

    /// Relies on redb: a single-key get inside a read transaction returns
    /// the stored value for that key, or nothing when the key is absent.
    #[verifier::external_body]
    fn raw_get(&self, table: &str, key: &str) -> (r: Result<Option<String>, ()>)
        ensures
            r matches Ok(o) ==> match o {
                Some(s) => db_table(self.db, table@).contains_pair(key@, s@),
                None => !db_table(self.db, table@).dom().contains(key@),
            },
    {
        let txn = self.db.begin_read().map_err(|_| (()))?;
        let t = txn.open_table(TableDefinition::<&str, &str>::new(table)).map_err(|_| (()))?;
        match t.get(key).map_err(|_| (()))? {
            Some(guard) => Ok(Some(guard.value().to_string())),
            None => Ok(None),
        }
    }

    /// Relies on redb: iterating a table inside a read transaction yields
    /// every entry exactly once, so the pairs returned are exactly the
    /// table's contents.
    #[verifier::external_body]
    fn raw_scan(&self, table: &str) -> (r: Result<Vec<(String, String)>, ()>)
        ensures
            r matches Ok(v) ==> {
                &&& db_table(self.db, table@).dom().finite()
                &&& v@.len() == db_table(self.db, table@).dom().len()
                &&& (forall|i: int|
                    0 <= i < v@.len() ==> db_table(self.db, table@).contains_pair(
                        (#[trigger] v@[i]).0@,
                        v@[i].1@,
                    ))
                &&& (forall|k: Seq<char>|
                    #[trigger] db_table(self.db, table@).dom().contains(k) ==> exists|i: int|
                        0 <= i < v@.len() && (#[trigger] v@[i]).0@ == k)
            },
    {
        let txn = self.db.begin_read().map_err(|_| (()))?;
        let t = txn.open_table(TableDefinition::<&str, &str>::new(table)).map_err(|_| (()))?;
        let iter = t.iter().map_err(|_| (()))?;
        let mut out: Vec<(String, String)> = Vec::new();
        for entry in iter {
            let (k, v) = entry.map_err(|_| (()))?;
            out.push((k.value().to_string(), v.value().to_string()));
        }
        Ok(out)
    }

    /// Relies on redb's transaction atomicity: one write transaction inserts
    /// the same key into both tables and commits, so on success both tables
    /// gain exactly that entry. A failure before the commit aborts the
    /// transaction and changes nothing; a failed commit is still atomic, but
    /// redb documents that its changes may already have become durable and
    /// must not be assumed rolled back — so on an error either nothing
    /// changed or exactly this pair was applied.
    #[verifier::external_body]
    fn raw_insert_pair(&mut self, key: &str, account_val: &str, player_val: &str) -> (r: Result<
        (),
        (),
    >)
        ensures
            r is Ok ==> final(self)@.accounts == old(self)@.accounts.insert(key@, account_val@)
                && final(self)@.players == old(self)@.players.insert(key@, player_val@),
            r is Err ==> final(self)@ == old(self)@ || (final(self)@.accounts == old(
                self,
            )@.accounts.insert(key@, account_val@) && final(self)@.players == old(
                self,
            )@.players.insert(key@, player_val@)),
    {
        let txn = self.db.begin_write().map_err(|_| (()))?;
        {
            let mut a = txn.open_table(TableDefinition::<&str, &str>::new("accounts")).map_err(
                |_| (()),
            )?;
            a.insert(key, account_val).map_err(|_| (()))?;
            let mut p = txn.open_table(TableDefinition::<&str, &str>::new("players")).map_err(
                |_| (()),
            )?;
            p.insert(key, player_val).map_err(|_| (()))?;
        }
        txn.commit().map_err(|_| (()))
    }

    /// A single-key read inside a read transaction.
    pub fn read_one(&self, table: TableKind, key: &str) -> (r: Result<Option<String>, AppError>)
        ensures
            match r {
                Ok(Some(s)) => self@.table(table).contains_pair(key@, s@),
                Ok(None) => !self@.table(table).dom().contains(key@),
                Err(e) => e == AppError::Store,
            },
    {
        let name = match table {
            TableKind::Accounts => "accounts",
            TableKind::Players => "players",
        };
        match self.raw_get(name, key) {
            Ok(o) => Ok(o),
            Err(()) => Err(AppError::Store),
        }
    }

    /// A full-table scan inside a read transaction: the returned pairs are
    /// exactly the table's entries, one per key.
    pub fn list_all(&self, table: TableKind) -> (r: Result<Vec<(String, String)>, AppError>)
        ensures
            match r {
                Ok(v) => {
                    &&& self@.table(table).dom().finite()
                    &&& v@.len() == self@.table(table).dom().len()
                    &&& (forall|i: int|
                        0 <= i < v@.len() ==> self@.table(table).contains_pair(
                            (#[trigger] v@[i]).0@,
                            v@[i].1@,
                        ))
                    &&& (forall|k: Seq<char>|
                        #[trigger] self@.table(table).dom().contains(k) ==> exists|i: int|
                            0 <= i < v@.len() && (#[trigger] v@[i]).0@ == k)
                },
                Err(e) => e == AppError::Store,
            },
    {
        let name = match table {
            TableKind::Accounts => "accounts",
            TableKind::Players => "players",
        };
        match self.raw_scan(name) {
            Ok(v) => Ok(v),
            Err(()) => Err(AppError::Store),
        }
    }

    /// A uniqueness-checked paired write: aborts with `Conflict` when the
    /// key already has an account, otherwise writes the same key into both
    /// tables inside one transaction, retrying a bounded number of times on
    /// transient failure. On success both tables gained exactly this entry.
    /// On a surfaced failure the tables are unchanged, except that a failed
    /// commit may have applied the pair after all (the store does not
    /// promise a failed commit rolled back); either way nothing else was
    /// written.
    pub fn write_unique(&mut self, key: &str, account_val: &str, player_val: &str) -> (r: Result<
        (),
        AppError,
    >)
        ensures
            match r {
                Ok(()) => {
                    &&& !old(self)@.accounts.dom().contains(key@)
                    &&& final(self)@.accounts == old(self)@.accounts.insert(key@, account_val@)
                    &&& final(self)@.players == old(self)@.players.insert(key@, player_val@)
                },
                Err(AppError::Conflict) => old(self)@.accounts.dom().contains(key@) && final(self)@
                    == old(self)@,
                Err(AppError::Store) => final(self)@ == old(self)@ || (!old(
                    self,
                )@.accounts.dom().contains(key@) && final(self)@.accounts == old(
                    self,
                )@.accounts.insert(key@, account_val@) && final(self)@.players == old(
                    self,
                )@.players.insert(key@, player_val@)),
                Err(_) => false,
            },
    {
        match self.raw_get("accounts", key) {
            Err(()) => {
                return Err(AppError::Store);
            },
            Ok(Some(_)) => {
                return Err(AppError::Conflict);
            },
            Ok(None) => {},
        }
        let mut attempt: usize = 0;
        while attempt < WRITE_ATTEMPTS
            invariant
                !old(self)@.accounts.dom().contains(key@),
                self@ == old(self)@ || (self@.accounts == old(self)@.accounts.insert(
                    key@,
                    account_val@,
                ) && self@.players == old(self)@.players.insert(key@, player_val@)),
            decreases WRITE_ATTEMPTS - attempt,
        {
            let ghost before = self@;
            match self.raw_insert_pair(key, account_val, player_val) {
                Ok(()) => {
                    proof {
                        assert(self@.accounts =~= old(self)@.accounts.insert(key@, account_val@));
                        assert(self@.players =~= old(self)@.players.insert(key@, player_val@));
                    }
                    return Ok(());
                },
                Err(()) => {
                    proof {
                        if self@ != before {
                            assert(self@.accounts =~= old(self)@.accounts.insert(
                                key@,
                                account_val@,
                            ));
                            assert(self@.players =~= old(self)@.players.insert(
                                key@,
                                player_val@,
                            ));
                        }
                    }
                },
            }
            attempt = attempt + 1;
        }
        Err(AppError::Store)
    }
}

} // verus!
