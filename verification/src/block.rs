//! The persistent slot and its lifecycle.
//!
//! A [`Block`] is constructed either from the persisted contents found at
//! its resolved path ([`Block::load`]) or as a fresh anonymous slot holding
//! the default value ([`Block::default`]).  During its lifetime the value
//! is read with [`Block::get`] and replaced with [`Block::set`];
//! [`Block::store`] turns the current value back into the bytes to
//! persist, skipping values equal to the type's default so that storage is
//! not littered with placeholder files.  The embedding program performs
//! the filesystem reads and writes around these operations and triggers
//! the final store when the slot's scope ends.

use crate::error::Error;
use crate::path::{anon_key_chars, lemma_anon_key_nonempty, path_chars, resolve_path, KeyAllocator};
use crate::storage::Storage;
use vstd::prelude::*;

verus! {

/// The abstract contents of optionally present persisted bytes: `None`
/// when no file exists at the slot's path.
pub open spec fn contents_view(c: Option<Vec<u8>>) -> Option<Seq<u8>> {
    match c {
        Some(b) => Some(b@),
        None => None,
    }
}

/// What reading a value out of persisted contents promises: the default on
/// a missing file; on a present file exactly what the codec makes of its
/// bytes — the decoded value where they decode, a decode error where they
/// decode to nothing — and in particular the encoded value on any value's
/// exact byte image.
pub open spec fn load_post<T: Storage>(contents: Option<Seq<u8>>, r: Result<T, Error>) -> bool {
    &&& (contents is None ==> (r matches Ok(w) && w@ == T::default_view()))
    &&& (contents matches Some(b) ==> (r is Ok <==> T::decoding_of(b) is Some))
    &&& (contents matches Some(b) ==> (r matches Ok(w) ==> T::decoding_of(b) == Some(w@)))
    &&& (forall|v: T::V| contents == Some(T::encoding_of(v)) ==> (r matches Ok(w) && w@ == v))
    &&& (r is Err ==> contents is Some && r->Err_0 == Error::Decode)
}

/// What storing a value with abstract contents `value` promises of the
/// bytes handed back: `None` — no write at all — exactly when the value is
/// the type's default, and otherwise the value's byte image.
pub open spec fn store_post<T: Storage>(value: T::V, r: Option<Seq<u8>>) -> bool {
    &&& (r is None <==> value == T::default_view())
    &&& (r matches Some(b) ==> b == T::encoding_of(value))
}

/// Reads a value out of the persisted contents found for a slot: the
/// type's default where no file existed (the expected first-use case, not
/// an error), the decoded value otherwise.  Bytes that do not decode are a
/// fatal load error; there is no repair path.
pub fn pre_load<T: Storage>(contents: Option<Vec<u8>>) -> (r: Result<T, Error>)
    ensures
        load_post::<T>(contents_view(contents), r),
{
    match contents {
        None => Ok(T::default_value()),
        Some(bytes) => match T::decode(bytes.as_slice()) {
            Ok(v) => Ok(v),
            Err(e) => match e {
                Error::Decode => Err(Error::Decode),
            },
        },
    }
}

/// A typed slot backed by one file: the current value, owned exclusively
/// by the slot, and the resolved on-disk location of its persisted bytes,
/// fixed at construction.
#[derive(Debug)]
pub struct Block<T: Storage> {
    value: T,
    path: String,
}

/// What constructing a slot from persisted contents promises: the path is
/// derived from the program's name and the key, and the value obeys
/// [`load_post`].
pub open spec fn block_load_post<T: Storage>(
    program: Seq<char>,
    key: Seq<char>,
    contents: Option<Seq<u8>>,
    r: Result<Block<T>, Error>,
) -> bool {
    &&& (r matches Ok(b) ==> b.path_view() == path_chars(program, key))
    &&& (contents is None ==> (r matches Ok(b) && b.value_view() == T::default_view()))
    &&& (contents matches Some(c) ==> (r is Ok <==> T::decoding_of(c) is Some))
    &&& (contents matches Some(c) ==> (r matches Ok(b) ==> T::decoding_of(c) == Some(
        b.value_view(),
    )))
    &&& (forall|v: T::V|
        contents == Some(T::encoding_of(v)) ==> (r matches Ok(b) && b.value_view() == v))
    &&& (r is Err ==> contents is Some && r->Err_0 == Error::Decode)
}

impl<T: Storage> Block<T> {
    /// The abstract contents of the slot's current value.
    pub closed spec fn value_view(&self) -> T::V {
        self.value@
    }

    /// The characters of the slot's resolved storage path.
    pub closed spec fn path_view(&self) -> Seq<char> {
        self.path@
    }

    /// Constructs the slot keyed `key` for the program named `program`
    /// from the persisted contents found at the resolved path (`None`
    /// when no file exists there).  The sole entry point for loading
    /// previously persisted state.
    pub fn load(key: &str, program: &str, contents: Option<Vec<u8>>) -> (r: Result<Block<T>, Error>)
        requires
            key@.len() > 0,
        ensures
            block_load_post::<T>(program@, key@, contents_view(contents), r),
    {
        let path = resolve_path(program, key);
        match pre_load::<T>(contents) {
            Ok(value) => Ok(Block { value, path }),
            Err(e) => Err(e),
        }
    }

    /// Constructs a fresh anonymous slot holding the type's default value,
    /// keyed by the next synthetic key of `alloc` — the value type's name
    /// and the counter value.  No load is attempted: the key is fresh, so
    /// no file of that name was ever written by this process.  Distinct
    /// allocations resolve to distinct paths (see
    /// [`crate::path::lemma_anonymous_paths_distinct`]).
    pub fn default(program: &str, alloc: &mut KeyAllocator) -> (r: Block<T>)
        requires
            old(alloc).next_index() < 0xffff_ffff_ffff_ffff,
        ensures
            r.value_view() == T::default_view(),
            r.path_view() == path_chars(
                program@,
                anon_key_chars(T::type_name_view(), old(alloc).next_index()),
            ),
            final(alloc).next_index() == old(alloc).next_index() + 1,
    {
        let key = alloc.fresh_key(T::name_of_type());
        proof {
            lemma_anon_key_nonempty(T::type_name_view(), old(alloc).next_index());
        }
        let path = resolve_path(program, key.as_str());
        Block { value: T::default_value(), path }
    }

    /// Builds an anonymous slot that already holds `value`: the one-shot
    /// "persist this value under a synthetic key" convenience.  The
    /// embedding program stores it when the slot's scope ends.
    #[allow(non_snake_case)]
    pub fn Log(value: T, program: &str, alloc: &mut KeyAllocator) -> (r: Block<T>)
        requires
            old(alloc).next_index() < 0xffff_ffff_ffff_ffff,
        ensures
            r.value_view() == value@,
            r.path_view() == path_chars(
                program@,
                anon_key_chars(T::type_name_view(), old(alloc).next_index()),
            ),
            final(alloc).next_index() == old(alloc).next_index() + 1,
    {
        let mut b = Block::default(program, alloc);
        b.set(value);
        b
    }

    /// A read-only view of the current value; no side effects.
    pub fn get(&self) -> (r: &T)
        ensures
            r@ == self.value_view(),
    {
        &self.value
    }

    /// Replaces the in-memory value; storage is not touched.
    pub fn set(&mut self, value: T)
        ensures
            final(self).value_view() == value@,
            final(self).path_view() == old(self).path_view(),
    {
        self.value = value;
    }

    /// The resolved storage path for this slot's persisted bytes.
    pub fn path(&self) -> (r: &String)
        ensures
            r@ == self.path_view(),
    {
        &self.path
    }

    /// Turns the current value into the bytes to persist at this slot's
    /// path.  Returns `None` — nothing worth persisting, no write to be
    /// performed — exactly when the value equals the type's default; the
    /// deliberate skip-if-default policy.  Idempotent: an unchanged value
    /// gives identical bytes every time (see [`lemma_store_idempotent`]).
    pub fn store(&self) -> (r: Option<Vec<u8>>)
        ensures
            store_post::<T>(self.value_view(), contents_view(r)),
    {
        if self.value.is_default() {
            None
        } else {
            Some(self.value.encode())
        }
    }
}

/// Round trip: loading back exactly what a store produced yields the
/// stored value — or the default where the store skipped the write, in
/// which case the stored value was itself the default.
pub proof fn lemma_round_trip<T: Storage>(
    v: T::V,
    stored: Option<Seq<u8>>,
    loaded: Result<T, Error>,
)
    requires
        store_post::<T>(v, stored),
        load_post::<T>(stored, loaded),
    ensures
        loaded is Ok,
        stored is Some ==> loaded->Ok_0@ == v,
        stored is None ==> v == T::default_view() && loaded->Ok_0@ == T::default_view(),
{
    if stored is Some {
        assert(stored == Some(T::encoding_of(v)));
    }
}

/// Idempotent store: two stores of one unchanged value hand back the same
/// bytes — or both skip.
pub proof fn lemma_store_idempotent<T: Storage>(
    v: T::V,
    r1: Option<Seq<u8>>,
    r2: Option<Seq<u8>>,
)
    requires
        store_post::<T>(v, r1),
        store_post::<T>(v, r2),
    ensures
        r1 == r2,
{
}

} // verus!


