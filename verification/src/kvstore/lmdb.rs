//! The store on disk: one LMDB database of the environment, keyed by the
//! user id in little-endian order.

use vstd::prelude::*;

use crate::kvstore::{presence, presence_of, KVError, KVStore, UserId};

verus! {

#[verifier::external_type_specification]
#[verifier::external_body]
pub struct ExEnv(heed::Env);

#[verifier::external_type_specification]
#[verifier::external_body]
pub struct ExRwTxn<'p>(heed::RwTxn<'p>);

#[verifier::external_type_specification]
#[verifier::external_body]
pub struct ExHeedError(heed::Error);

#[verifier::external_type_specification]
#[verifier::external_body]
#[verifier::reject_recursive_types(KC)]
#[verifier::reject_recursive_types(DC)]
#[verifier::reject_recursive_types(C)]
pub struct ExDatabase<KC, DC, C>(heed::Database<KC, DC, C>);

#[verifier::external_type_specification]
#[verifier::external_body]
#[verifier::reject_recursive_types(O)]
pub struct ExU64<O>(heed::types::U64<O>);

#[verifier::external_type_specification]
#[verifier::external_body]
pub struct ExBytes(heed::types::Bytes);

#[verifier::external_type_specification]
#[verifier::external_body]
pub struct ExLittleEndian(heed::byteorder::LittleEndian);

#[verifier::external_type_specification]
#[verifier::external_body]
pub struct ExDefaultComparator(heed::DefaultComparator);

/// The database that holds one value per user.
pub type UserDatabase = heed::Database<heed::types::U64<heed::byteorder::LittleEndian>, heed::types::Bytes>;

impl KVError for heed::Error {}

/// The environment that a write transaction was opened on (heed compares
/// the two environment handles before using a transaction).
pub uninterp spec fn txn_env(txn: heed::RwTxn) -> heed::Env;

/// The environment that a database handle was opened in (heed compares it
/// with the transaction's environment before every read or write).
pub uninterp spec fn db_env(db: UserDatabase) -> heed::Env;

/// What the database `db` holds as the write transaction `txn` sees it:
/// the bytes stored under each key. A write transaction is the only writer
/// of its environment while it is open, and it sees its own writes.
pub uninterp spec fn db_contents(db: UserDatabase, txn: heed::RwTxn) -> Map<u64, Seq<u8>>;

/// The value that `contents` holds under `key`, if any.
pub open spec fn lookup(contents: Map<u64, Seq<u8>>, key: u64) -> Option<Seq<u8>> {
    if contents.contains_key(key) {
        Some(contents[key])
    } else {
        None
    }
}

/// Whether bytes that were read are `expected`.
pub open spec fn read_is(found: Option<Vec<u8>>, expected: Option<Seq<u8>>) -> bool {
    match found {
        Some(v) => expected == Some(v@),
        None => expected is None,
    }
}

/// Whether a database name can be passed to LMDB: it holds no NUL
/// character (heed turns it into a C string and panics on one).
pub open spec fn valid_db_name(name: Seq<char>) -> bool {
    !name.contains('\0')
}

/// Calls `Env::write_txn`. Claims only that a transaction it opens belongs
/// to `env`. Whether it succeeds depends on the environment on disk; it
/// waits while another write transaction of the environment is open, and
/// the store below never holds one while it opens another.
#[verifier::external_body]
fn env_write_txn(env: &heed::Env) -> (r: Result<heed::RwTxn<'_>, heed::Error>)
    ensures
        r matches Ok(t) ==> txn_env(t) == *env,
{
    env.write_txn()
}

/// Calls `Env::create_database` with the name `name`, in a transaction of
/// the same environment and with a name that holds no NUL (heed panics
/// otherwise). Claims that the database belongs to `env` and that the
/// transaction stays with its environment; whether it succeeds depends on
/// the environment on disk.
#[verifier::external_body]
fn env_create_database(env: &heed::Env, wtxn: &mut heed::RwTxn, name: &str) -> (r: Result<UserDatabase, heed::Error>)
    requires
        txn_env(*old(wtxn)) == *env,
        valid_db_name(name@),
    ensures
        txn_env(*final(wtxn)) == txn_env(*old(wtxn)),
        r matches Ok(db) ==> db_env(db) == *env,
{
    env.create_database(wtxn, Some(name))
}

/// Calls `Database::get` for the key `key` and copies the bytes found, with
/// a transaction of the database's environment (heed panics otherwise).
/// Claims that what a successful read gives is what the database holds
/// under `key` in that transaction; whether it succeeds is not claimed.
#[verifier::external_body]
fn db_get(db: &UserDatabase, txn: &heed::RwTxn, key: u64) -> (r: Result<Option<Vec<u8>>, heed::Error>)
    requires
        db_env(*db) == txn_env(*txn),
    ensures
        r matches Ok(found) ==> read_is(found, lookup(db_contents(*db, *txn), key)),
{
    db.get(txn, &key).map(|opt| opt.map(|data| data.to_vec()))
}

/// Calls `Database::put`, with a transaction of the database's environment
/// (heed panics otherwise). Claims that the transaction stays with its
/// environment and that, when it succeeds, the database then holds `value`
/// under `key` (replacing what was there) and is otherwise unchanged in the
/// transaction. Nothing is claimed of the contents after a failure.
#[verifier::external_body]
fn db_put(db: &UserDatabase, txn: &mut heed::RwTxn, key: u64, value: &[u8]) -> (r: Result<(), heed::Error>)
    requires
        db_env(*db) == txn_env(*old(txn)),
    ensures
        txn_env(*final(txn)) == txn_env(*old(txn)),
        r is Ok ==> db_contents(*db, *final(txn)) == db_contents(*db, *old(txn)).insert(key, value@),
{
    db.put(txn, &key, value)
}

/// Calls `Database::delete`, with a transaction of the database's
/// environment (heed panics otherwise). Claims that the transaction stays
/// with its environment and that, when it succeeds, it tells whether `key`
/// was present and the database then holds nothing under `key` and is
/// otherwise unchanged in the transaction. Nothing is claimed of the
/// contents after a failure.
#[verifier::external_body]
fn db_delete(db: &UserDatabase, txn: &mut heed::RwTxn, key: u64) -> (r: Result<bool, heed::Error>)
    requires
        db_env(*db) == txn_env(*old(txn)),
    ensures
        txn_env(*final(txn)) == txn_env(*old(txn)),
        r matches Ok(present) ==> present == db_contents(*db, *old(txn)).contains_key(key)
            && db_contents(*db, *final(txn)) == db_contents(*db, *old(txn)).remove(key),
{
    db.delete(txn, &key)
}

/// Calls `RwTxn::commit`. Nothing is claimed of the outcome.
#[verifier::external_body]
fn txn_commit(txn: heed::RwTxn) -> (r: Result<(), heed::Error>) {
    txn.commit()
}

/// What a removal does with what the read in its transaction found: a
/// failure ends it, a value is deleted and handed back, and with nothing
/// stored the transaction is dropped and nothing is returned.
#[derive(Debug)]
pub enum Removal {
    Fail(heed::Error),
    Delete(Vec<u8>),
    NothingStored,
}

/// Decides a removal from what the read in its transaction found.
pub fn removal_step(found: Result<Option<Vec<u8>>, heed::Error>) -> (r: Removal)
    ensures
        match found {
            Err(e) => r == Removal::Fail(e),
            Ok(Some(v)) => r == Removal::Delete(v),
            Ok(None) => r is NothingStored,
        },
{
    match found {
        Err(e) => Removal::Fail(e),
        Ok(Some(v)) => Removal::Delete(v),
        Ok(None) => Removal::NothingStored,
    }
}

/// A store in a named database of an LMDB environment.
pub struct HeedKV {
    env: heed::Env,
    name: String,
}

impl HeedKV {
    #[verifier::type_invariant]
    spec fn well_formed(self) -> bool {
        valid_db_name(self.name@)
    }

    /// A store in the database `name` of the opened environment `env`. The
    /// name must hold no NUL character, which LMDB cannot take.
    pub fn from_env(env: heed::Env, name: &str) -> (r: Self)
        requires
            valid_db_name(name@),
        ensures
            r.name() == name@,
    {
        HeedKV { env, name: crate::text::owned(name) }
    }

    /// The name of the database.
    pub closed spec fn name(&self) -> Seq<char> {
        self.name@
    }

    /// The environment of the store.
    pub closed spec fn env(&self) -> heed::Env {
        self.env
    }

    /// Opens a write transaction and, in it, the database of this store
    /// (created if missing). The first failure is returned. The database and
    /// the transaction belong to the store's environment.
    pub fn create_database(&self) -> (r: Result<(UserDatabase, heed::RwTxn<'_>), heed::Error>)
        ensures
            r matches Ok((db, txn)) ==> db_env(db) == self.env() && txn_env(txn) == self.env(),
    {
        proof {
            use_type_invariant(self);
        }
        let mut wtxn = match env_write_txn(&self.env) {
            Ok(t) => t,
            Err(e) => return Err(e),
        };
        let db = match env_create_database(&self.env, &mut wtxn, self.name.as_str()) {
            Ok(db) => db,
            Err(e) => return Err(e),
        };
        Ok((db, wtxn))
    }
}

impl KVStore for HeedKV {
    type Err = heed::Error;

    /// A read that succeeds gives what the database held under the user's
    /// id in a write transaction of the store's environment.
    open spec fn read_of(&self, user_id: UserId, r: Result<Option<Vec<u8>>, heed::Error>) -> bool {
        r matches Ok(found) ==> exists|db: UserDatabase, txn: heed::RwTxn|
            #![trigger db_contents(db, txn)]
            db_env(db) == self.env() && txn_env(txn) == self.env()
                && read_is(found, lookup(db_contents(db, txn), user_id.0))
    }

    /// A write transaction of the store's environment took the database
    /// from what it held to the same with `value` under the user's id.
    open spec fn written(&self, user_id: UserId, value: Seq<u8>) -> bool {
        exists|db: UserDatabase, before: heed::RwTxn, after: heed::RwTxn|
            #![trigger db_contents(db, before), db_contents(db, after)]
            db_env(db) == self.env() && txn_env(before) == self.env()
                && db_contents(db, after) == db_contents(db, before).insert(user_id.0, value)
    }

    /// A removal that succeeds hands back what the database held under the
    /// user's id in a write transaction of the store's environment, and when
    /// that was a value, the transaction then holds nothing there and is
    /// otherwise unchanged.
    open spec fn removal_of(&self, user_id: UserId, r: Result<Option<Vec<u8>>, heed::Error>) -> bool {
        r matches Ok(found) ==> exists|db: UserDatabase, before: heed::RwTxn, after: heed::RwTxn|
            #![trigger db_contents(db, before), db_contents(db, after)]
            db_env(db) == self.env() && txn_env(before) == self.env()
                && read_is(found, lookup(db_contents(db, before), user_id.0))
                && (found is Some ==> db_contents(db, after) == db_contents(db, before).remove(user_id.0))
    }

    /// Whether a user has a value is what `presence` makes of a read.
    open spec fn presence_read(&self, user_id: UserId, r: Result<bool, heed::Error>) -> bool {
        exists|read: Result<Option<Vec<u8>>, heed::Error>| #[trigger] self.read_of(user_id, read) && r == presence_of(read)
    }

    /// Reads the user's value in a write transaction of the store's
    /// environment, as `read_of` says.
    fn get(&self, user_id: UserId) -> (r: Result<Option<Vec<u8>>, heed::Error>) {
        let (db, rwtxn) = match self.create_database() {
            Ok(x) => x,
            Err(e) => return Err(e),
        };
        db_get(&db, &rwtxn, user_id.0)
    }

    /// Writes the user's value in a write transaction of the store's
    /// environment and commits it: when it succeeds, the transaction's
    /// database held `value` under the user's id, and otherwise what it held
    /// before.
    fn set(&self, user_id: UserId, value: &[u8]) -> (r: Result<(), heed::Error>) {
        let (db, mut wtxn) = match self.create_database() {
            Ok(x) => x,
            Err(e) => return Err(e),
        };
        match db_put(&db, &mut wtxn, user_id.0, value) {
            Ok(()) => {},
            Err(e) => return Err(e),
        }
        txn_commit(wtxn)
    }

    /// Reads the user's value and deletes it in one write transaction, as
    /// `removal_step` decides, handing back what was stored: what is handed
    /// back is what the database held under the user's id, and when it held
    /// a value, the transaction that is committed holds nothing there and is
    /// otherwise unchanged.
    fn remove(&self, user_id: UserId) -> (r: Result<Option<Vec<u8>>, heed::Error>) {
        let (db, mut wtxn) = match self.create_database() {
            Ok(x) => x,
            Err(e) => return Err(e),
        };
        let found = db_get(&db, &wtxn, user_id.0);
        match removal_step(found) {
            Removal::Fail(e) => Err(e),
            Removal::NothingStored => Ok(None),
            Removal::Delete(value) => {
                match db_delete(&db, &mut wtxn, user_id.0) {
                    Ok(_) => {},
                    Err(e) => return Err(e),
                }
                match txn_commit(wtxn) {
                    Ok(()) => Ok(Some(value)),
                    Err(e) => Err(e),
                }
            },
        }
    }

    /// Whether the user has a value: `presence` of a read.
    fn contains(&self, user_id: UserId) -> (r: Result<bool, heed::Error>) {
        presence(self.get(user_id))
    }
}

} // verus!
