//! Path derivation and synthetic key allocation.
//!
//! A slot's bytes live in a directory named after the running program's
//! executable, in a file named after the slot's key.  Anonymous slots get
//! a synthetic key embedding their value type's name and a value drawn
//! from a process-wide monotonic counter, held here as an explicitly owned
//! allocator; distinct allocations never resolve to the same path.

use crate::numeral::{
    dec_chars, lemma_dec_chars_injective, lemma_dec_chars_len, lemma_dec_chars_no_hash,
    u64_to_string,
};
use vstd::prelude::*;
use vstd::string::StringExecFns;

verus! {

/// The path at which a slot keyed `key` is persisted when run under a
/// program named `program`: a directory per program, a file per key.
pub open spec fn path_chars(program: Seq<char>, key: Seq<char>) -> Seq<char> {
    program + seq!['/'] + key
}

/// The synthetic key allocated to the anonymous slot of index `index`
/// whose value type is named `name`: the type's name, a separator, and
/// the counter value's decimal numeral.
pub open spec fn anon_key_chars(name: Seq<char>, index: nat) -> Seq<char> {
    name + seq!['#'] + dec_chars(index)
}

/// A synthetic key is never empty.
pub proof fn lemma_anon_key_nonempty(name: Seq<char>, index: nat)
    ensures
        anon_key_chars(name, index).len() >= 1,
{
    lemma_dec_chars_len(index);
}

/// Derives the storage path for `key` under the directory belonging to the
/// program named `program`.  Deterministic: the same inputs give the same
/// path, within one run and across runs of the same program.
pub fn resolve_path(program: &str, key: &str) -> (r: String)
    requires
        key@.len() > 0,
    ensures
        r@ == path_chars(program@, key@),
{
    let mut r = String::from_str(program);
    r.append("/");
    r.append(key);
    proof {
        reveal_strlit("/");
        assert(r@ =~= path_chars(program@, key@));
    }
    r
}

/// Appending distinct suffixes to one prefix gives distinct sequences.
proof fn lemma_concat_injective_in_suffix(prefix: Seq<char>, s1: Seq<char>, s2: Seq<char>)
    requires
        s1 != s2,
    ensures
        prefix + s1 != prefix + s2,
{
    if prefix + s1 == prefix + s2 {
        assert((prefix + s1).len() == prefix.len() + s1.len());
        assert((prefix + s2).len() == prefix.len() + s2.len());
        assert(s1.len() == s2.len());
        assert forall|i: int| 0 <= i < s1.len() implies s1[i] == s2[i] by {
            assert((prefix + s1)[prefix.len() + i] == s1[i]);
            assert((prefix + s2)[prefix.len() + i] == s2[i]);
        }
        assert(s1 =~= s2);
    }
}

/// Under one program, distinct keys resolve to distinct paths.
pub proof fn lemma_path_injective_in_key(program: Seq<char>, k1: Seq<char>, k2: Seq<char>)
    requires
        k1 != k2,
    ensures
        path_chars(program, k1) != path_chars(program, k2),
{
    lemma_concat_injective_in_suffix(program + seq!['/'], k1, k2);
}

/// In a synthetic key, no separator occurs after the one written at the
/// end of the type's name: the numeral holds only digits.
proof fn lemma_anon_key_separator(name: Seq<char>, index: nat)
    ensures
        anon_key_chars(name, index).len() == name.len() + 1 + dec_chars(index).len(),
        anon_key_chars(name, index)[name.len() as int] == '#',
        forall|q: int|
            name.len() < q < anon_key_chars(name, index).len()
                ==> anon_key_chars(name, index)[q] != '#',
        forall|t: int|
            0 <= t < dec_chars(index).len()
                ==> anon_key_chars(name, index)[name.len() + 1 + t] == dec_chars(index)[t],
{
    let k = anon_key_chars(name, index);
    let head = name + seq!['#'];
    lemma_dec_chars_no_hash(index);
    assert(head.len() == name.len() + 1);
    assert(k.len() == head.len() + dec_chars(index).len());
    assert(head[name.len() as int] == '#');
    assert(k[name.len() as int] == head[name.len() as int]);
    assert forall|q: int| name.len() < q < k.len() implies k[q] != '#' by {
        assert(k[q] == dec_chars(index)[q - head.len()]);
    }
    assert forall|t: int| 0 <= t < dec_chars(index).len() implies k[name.len() + 1 + t]
        == dec_chars(index)[t] by {
        assert(k[head.len() + t] == dec_chars(index)[t]);
    }
}

/// Distinct allocation indices give distinct synthetic keys, whatever the
/// type names: the characters after a key's last separator are the
/// counter's numeral, and the numeral is injective.
pub proof fn lemma_anon_keys_distinct(name1: Seq<char>, i: nat, name2: Seq<char>, j: nat)
    requires
        i != j,
    ensures
        anon_key_chars(name1, i) != anon_key_chars(name2, j),
{
    if anon_key_chars(name1, i) == anon_key_chars(name2, j) {
        let k = anon_key_chars(name1, i);
        lemma_anon_key_separator(name1, i);
        lemma_anon_key_separator(name2, j);
        // The separator at the end of each name is the last one in `k`,
        // so the names have one length.
        if name1.len() < name2.len() {
            assert(k[name2.len() as int] == '#');
            assert(false);
        }
        if name2.len() < name1.len() {
            assert(k[name1.len() as int] == '#');
            assert(false);
        }
        // Equal name lengths leave equal numerals, so the indices agree.
        assert(dec_chars(i).len() == dec_chars(j).len());
        assert forall|t: int| 0 <= t < dec_chars(i).len() implies dec_chars(i)[t]
            == dec_chars(j)[t] by {
            assert(k[name1.len() + 1 + t] == dec_chars(i)[t]);
            assert(k[name2.len() + 1 + t] == dec_chars(j)[t]);
        }
        assert(dec_chars(i) =~= dec_chars(j));
        lemma_dec_chars_injective(i, j);
    }
}

/// Anonymous slots of distinct indices resolve to distinct paths, whatever
/// their value types: within one process, every allocation persists to its
/// own file.
pub proof fn lemma_anonymous_paths_distinct(
    program: Seq<char>,
    name1: Seq<char>,
    i: nat,
    name2: Seq<char>,
    j: nat,
)
    requires
        i != j,
    ensures
        path_chars(program, anon_key_chars(name1, i)) != path_chars(
            program,
            anon_key_chars(name2, j),
        ),
{
    lemma_anon_keys_distinct(name1, i, name2, j);
    lemma_path_injective_in_key(program, anon_key_chars(name1, i), anon_key_chars(name2, j));
}

/// The process-wide source of synthetic keys for anonymous slots.  The
/// embedding program owns one allocator and threads it to every anonymous
/// construction; the counter only ever grows, so no two allocations within
/// one process share a key.
pub struct KeyAllocator {
    next: u64,
}

impl KeyAllocator {
    /// The index the next allocation will be given.
    pub closed spec fn next_index(&self) -> nat {
        self.next as nat
    }

    /// A fresh allocator, starting at index zero.
    pub fn new() -> (r: KeyAllocator)
        ensures
            r.next_index() == 0,
    {
        KeyAllocator { next: 0 }
    }

    /// The counter value the next allocation will use.  Callers check it
    /// against the counter's limit before constructing anonymous slots.
    pub fn next_value(&self) -> (r: u64)
        ensures
            r as nat == self.next_index(),
    {
        self.next
    }

    /// Allocates the next synthetic key for a value type named `name` and
    /// advances the counter.
    pub fn fresh_key(&mut self, name: &str) -> (r: String)
        requires
            old(self).next_index() < 0xffff_ffff_ffff_ffff,
        ensures
            r@ == anon_key_chars(name@, old(self).next_index()),
            final(self).next_index() == old(self).next_index() + 1,
    {
        let digits = u64_to_string(self.next);
        self.next = self.next + 1;
        let mut r = String::from_str(name);
        r.append("#");
        r.append(digits.as_str());
        proof {
            reveal_strlit("#");
            assert(r@ =~= anon_key_chars(name@, old(self).next_index()));
        }
        r
    }
}

} // verus!
