//! Caches of compilation results with least-recently-used eviction, and the
//! hashing of expressions that keys them.
//!
//! The caches are plain values here; a process-wide instance behind a lock
//! belongs to the program that uses the library.

use std::num::NonZeroUsize;
use std::sync::Arc;

use lru::LruCache;
use vstd::prelude::*;
use vstd::string::StringExecFns;

use crate::chunk::{BytecodeChunk, ChunkModel, all_constants};
use crate::value::{MettaValue, Val, debug_repr, push_debug, seq_view};

verus! {

broadcast use vstd::string::group_string_axioms;

#[verifier::external_type_specification]
#[verifier::external_body]
#[verifier::reject_recursive_types(K)]
#[verifier::reject_recursive_types(V)]
#[verifier::reject_recursive_types(S)]
pub struct ExLruCache<K, V, S>(lru::LruCache<K, V, S>);

#[verifier::external_type_specification]
#[verifier::external_body]
pub struct ExLruDefaultHasher(lru::DefaultHasher);

/// The entries of a cache of compilability flags.
pub uninterp spec fn flag_entries(c: LruCache<u64, bool>) -> Map<u64, bool>;

/// The capacity that a cache of compilability flags was made with.
pub uninterp spec fn flag_capacity(c: LruCache<u64, bool>) -> nat;

/// The entries of a cache of compiled chunks, each by its model.
pub uninterp spec fn chunk_entries(c: LruCache<u64, Arc<BytecodeChunk>>) -> Map<u64, ChunkModel>;

/// The capacity that a cache of compiled chunks was made with.
pub uninterp spec fn chunk_capacity(c: LruCache<u64, Arc<BytecodeChunk>>) -> nat;

/// The entries after storing `k` with `v` in a cache of capacity `cap`: the
/// entry is added or replaced; when a new key finds the cache full, one
/// other entry (the least recently used) is evicted.
pub open spec fn lru_put<V>(before: Map<u64, V>, cap: nat, k: u64, v: V, after: Map<u64, V>) -> bool {
    &&& after.dom().finite()
    &&& (before.contains_key(k) || before.len() < cap) ==> after == before.insert(k, v)
    &&& (!before.contains_key(k) && before.len() >= cap) ==> exists|e: u64|
        #![trigger before.remove(e)]
        before.contains_key(e) && after == before.remove(e).insert(k, v)
}

/// `LruCache::new`: an empty cache that holds at most `cap` entries.
#[verifier::external_body]
fn new_flag_cache(cap: usize) -> (r: LruCache<u64, bool>)
    requires
        cap > 0,
    ensures
        flag_entries(r).dom() == Set::<u64>::empty(),
        flag_capacity(r) == cap,
{
    LruCache::new(NonZeroUsize::new(cap).unwrap())
}

/// `LruCache::peek`: the entry for `k`, without touching the recency order.
#[verifier::external_body]
fn flag_peek(c: &LruCache<u64, bool>, k: u64) -> (r: Option<bool>)
    ensures
        r == flag_entries(*c).get(k),
{
    c.peek(&k).copied()
}

/// `LruCache::put`: store `v` at `k`, evicting the least recently used entry
/// when a new key finds the cache full.
#[verifier::external_body]
fn flag_put(c: &mut LruCache<u64, bool>, k: u64, v: bool)
    requires
        flag_entries(*old(c)).dom().finite(),
        flag_entries(*old(c)).len() <= flag_capacity(*old(c)),
    ensures
        flag_capacity(*final(c)) == flag_capacity(*old(c)),
        lru_put(flag_entries(*old(c)), flag_capacity(*old(c)), k, v, flag_entries(*final(c))),
{
    c.put(k, v);
}

/// `LruCache::clear`: drop every entry.
#[verifier::external_body]
fn flag_clear(c: &mut LruCache<u64, bool>)
    ensures
        flag_entries(*final(c)).dom() == Set::<u64>::empty(),
        flag_capacity(*final(c)) == flag_capacity(*old(c)),
{
    c.clear();
}

/// `LruCache::len`: the number of entries.
#[verifier::external_body]
fn flag_len(c: &LruCache<u64, bool>) -> (r: usize)
    requires
        flag_entries(*c).dom().finite(),
    ensures
        r == flag_entries(*c).len(),
{
    c.len()
}

/// `LruCache::new`: an empty cache that holds at most `cap` chunks.
#[verifier::external_body]
fn new_chunk_cache(cap: usize) -> (r: LruCache<u64, Arc<BytecodeChunk>>)
    requires
        cap > 0,
    ensures
        chunk_entries(r).dom() == Set::<u64>::empty(),
        chunk_capacity(r) == cap,
{
    LruCache::new(NonZeroUsize::new(cap).unwrap())
}

/// `LruCache::peek`: a shared handle to the chunk at `k`, without touching
/// the recency order.
#[verifier::external_body]
fn chunk_peek(c: &LruCache<u64, Arc<BytecodeChunk>>, k: u64) -> (r: Option<Arc<BytecodeChunk>>)
    ensures
        r is Some <==> chunk_entries(*c).contains_key(k),
        r is Some ==> r->Some_0@ == chunk_entries(*c)[k],
{
    c.peek(&k).cloned()
}

/// `LruCache::put`: store a chunk at `k`, evicting the least recently used
/// entry when a new key finds the cache full.
#[verifier::external_body]
fn chunk_put(c: &mut LruCache<u64, Arc<BytecodeChunk>>, k: u64, v: Arc<BytecodeChunk>)
    requires
        chunk_entries(*old(c)).dom().finite(),
        chunk_entries(*old(c)).len() <= chunk_capacity(*old(c)),
    ensures
        chunk_capacity(*final(c)) == chunk_capacity(*old(c)),
        lru_put(chunk_entries(*old(c)), chunk_capacity(*old(c)), k, v@, chunk_entries(*final(c))),
{
    c.put(k, v);
}

/// `LruCache::clear`: drop every chunk.
#[verifier::external_body]
fn chunk_clear(c: &mut LruCache<u64, Arc<BytecodeChunk>>)
    ensures
        chunk_entries(*final(c)).dom() == Set::<u64>::empty(),
        chunk_capacity(*final(c)) == chunk_capacity(*old(c)),
{
    c.clear();
}

/// `LruCache::len`: the number of chunks.
#[verifier::external_body]
fn chunk_len(c: &LruCache<u64, Arc<BytecodeChunk>>) -> (r: usize)
    requires
        chunk_entries(*c).dom().finite(),
    ensures
        r == chunk_entries(*c).len(),
{
    c.len()
}

/// Statistics for bytecode cache monitoring.
#[derive(Debug)]
pub struct BytecodeCacheStats {
    /// can_compile cache hits
    pub can_compile_hits: u64,
    /// can_compile cache misses
    pub can_compile_misses: u64,
    /// bytecode cache hits
    pub bytecode_hits: u64,
    /// bytecode cache misses (compilations)
    pub bytecode_misses: u64,
}

/// Snapshot of bytecode cache statistics.
#[derive(Debug, Default, Clone)]
pub struct BytecodeCacheStatsSnapshot {
    /// can_compile cache hits
    pub can_compile_hits: u64,
    /// can_compile cache misses
    pub can_compile_misses: u64,
    /// bytecode cache hits
    pub bytecode_hits: u64,
    /// bytecode cache misses (compilations)
    pub bytecode_misses: u64,
}

impl Default for BytecodeCacheStats {
    fn default() -> (r: Self)
        ensures
            r.can_compile_hits == 0 && r.can_compile_misses == 0 && r.bytecode_hits == 0 && r.bytecode_misses == 0,
    {
        BytecodeCacheStats { can_compile_hits: 0, can_compile_misses: 0, bytecode_hits: 0, bytecode_misses: 0 }
    }
}

impl BytecodeCacheStats {
    /// A snapshot of the current counters.
    pub fn snapshot(&self) -> (r: BytecodeCacheStatsSnapshot)
        ensures
            r.can_compile_hits == self.can_compile_hits,
            r.can_compile_misses == self.can_compile_misses,
            r.bytecode_hits == self.bytecode_hits,
            r.bytecode_misses == self.bytecode_misses,
    {
        BytecodeCacheStatsSnapshot {
            can_compile_hits: self.can_compile_hits,
            can_compile_misses: self.can_compile_misses,
            bytecode_hits: self.bytecode_hits,
            bytecode_misses: self.bytecode_misses,
        }
    }

    /// Reset all counters to zero.
    pub fn reset(&mut self)
        ensures
            final(self).can_compile_hits == 0,
            final(self).can_compile_misses == 0,
            final(self).bytecode_hits == 0,
            final(self).bytecode_misses == 0,
    {
        self.can_compile_hits = 0;
        self.can_compile_misses = 0;
        self.bytecode_hits = 0;
        self.bytecode_misses = 0;
    }
}

/// The caches of compilation results: compilability flags and compiled
/// chunks, each keyed by an expression hash, and their statistics.
pub struct BytecodeCaches {
    can_compile: LruCache<u64, bool>,
    bytecode: LruCache<u64, Arc<BytecodeChunk>>,
    stats: BytecodeCacheStats,
}

impl BytecodeCaches {
    /// The hit and miss counters.
    pub closed spec fn counters(&self) -> BytecodeCacheStats {
        self.stats
    }

    /// The cached compilability flags.
    pub closed spec fn flags(&self) -> Map<u64, bool> {
        flag_entries(self.can_compile)
    }

    /// The capacity of the flag cache.
    pub closed spec fn flags_capacity(&self) -> nat {
        flag_capacity(self.can_compile)
    }

    /// The cached chunks.
    pub closed spec fn chunks(&self) -> Map<u64, ChunkModel> {
        chunk_entries(self.bytecode)
    }

    /// The capacity of the chunk cache.
    pub closed spec fn chunks_capacity(&self) -> nat {
        chunk_capacity(self.bytecode)
    }

    /// Both caches are finite and within their capacities.
    pub open spec fn wf(&self) -> bool {
        &&& self.flags().dom().finite()
        &&& self.flags().len() <= self.flags_capacity()
        &&& self.chunks().dom().finite()
        &&& self.chunks().len() <= self.chunks_capacity()
    }

    /// Empty caches of the given capacities.
    pub fn new(can_compile_size: usize, bytecode_size: usize) -> (r: BytecodeCaches)
        requires
            can_compile_size > 0,
            bytecode_size > 0,
        ensures
            r.wf(),
            r.flags().dom() == Set::<u64>::empty(),
            r.chunks().dom() == Set::<u64>::empty(),
            r.flags_capacity() == can_compile_size,
            r.chunks_capacity() == bytecode_size,
    {
        BytecodeCaches {
            can_compile: new_flag_cache(can_compile_size),
            bytecode: new_chunk_cache(bytecode_size),
            stats: BytecodeCacheStats::default(),
        }
    }
}

/// The cached compilability of the expression with hash `hash`, if any.
pub fn get_cached_can_compile(caches: &BytecodeCaches, hash: u64) -> (r: Option<bool>)
    ensures
        r == caches.flags().get(hash),
{
    flag_peek(&caches.can_compile, hash)
}

/// Cache the compilability of the expression with hash `hash`.
pub fn cache_can_compile(caches: &mut BytecodeCaches, hash: u64, compilable: bool)
    requires
        old(caches).wf(),
    ensures
        final(caches).wf(),
        lru_put(old(caches).flags(), old(caches).flags_capacity(), hash, compilable, final(caches).flags()),
        final(caches).flags_capacity() == old(caches).flags_capacity(),
        final(caches).chunks() == old(caches).chunks(),
        final(caches).chunks_capacity() == old(caches).chunks_capacity(),
{
    flag_put(&mut caches.can_compile, hash, compilable);
    proof {
        lemma_put_bounded(old(caches).flags(), old(caches).flags_capacity(), hash, compilable, caches.flags());
    }
}

/// The cached chunk of the expression with hash `hash`, if any.
pub fn get_cached_bytecode(caches: &BytecodeCaches, hash: u64) -> (r: Option<Arc<BytecodeChunk>>)
    ensures
        r is Some <==> caches.chunks().contains_key(hash),
        r is Some ==> r->Some_0@ == caches.chunks()[hash],
{
    chunk_peek(&caches.bytecode, hash)
}

/// Cache the compiled chunk of the expression with hash `hash`.
pub fn cache_bytecode(caches: &mut BytecodeCaches, hash: u64, chunk: Arc<BytecodeChunk>)
    requires
        old(caches).wf(),
    ensures
        final(caches).wf(),
        lru_put(old(caches).chunks(), old(caches).chunks_capacity(), hash, chunk@, final(caches).chunks()),
        final(caches).chunks_capacity() == old(caches).chunks_capacity(),
        final(caches).flags() == old(caches).flags(),
        final(caches).flags_capacity() == old(caches).flags_capacity(),
{
    let ghost cm = chunk@;
    chunk_put(&mut caches.bytecode, hash, chunk);
    proof {
        lemma_put_bounded(old(caches).chunks(), old(caches).chunks_capacity(), hash, cm, caches.chunks());
    }
}

/// The current statistics.
pub fn get_stats(caches: &BytecodeCaches) -> (r: BytecodeCacheStatsSnapshot)
    ensures
        r.can_compile_hits == caches.counters().can_compile_hits,
        r.can_compile_misses == caches.counters().can_compile_misses,
        r.bytecode_hits == caches.counters().bytecode_hits,
        r.bytecode_misses == caches.counters().bytecode_misses,
{
    caches.stats.snapshot()
}

/// Clear both caches and reset the statistics.
pub fn clear_caches(caches: &mut BytecodeCaches)
    ensures
        final(caches).wf(),
        final(caches).flags().dom() == Set::<u64>::empty(),
        final(caches).chunks().dom() == Set::<u64>::empty(),
        final(caches).flags_capacity() == old(caches).flags_capacity(),
        final(caches).chunks_capacity() == old(caches).chunks_capacity(),
        final(caches).counters().can_compile_hits == 0,
        final(caches).counters().can_compile_misses == 0,
        final(caches).counters().bytecode_hits == 0,
        final(caches).counters().bytecode_misses == 0,
{
    flag_clear(&mut caches.can_compile);
    chunk_clear(&mut caches.bytecode);
    caches.stats.reset();
}

/// The numbers of cached flags and cached chunks.
pub fn cache_sizes(caches: &BytecodeCaches) -> (r: (usize, usize))
    requires
        caches.wf(),
    ensures
        r.0 == caches.flags().len(),
        r.1 == caches.chunks().len(),
{
    (flag_len(&caches.can_compile), chunk_len(&caches.bytecode))
}

/// Append the constants of a chunk and of its sub-chunks, depth first.
pub fn collect_chunk_constants(chunk: &BytecodeChunk, roots: &mut Vec<MettaValue>)
    ensures
        seq_view(final(roots)@) == seq_view(old(roots)@) + all_constants(chunk@),
{
    chunk.collect_constants(roots);
}

/// Storing keeps a cache within its capacity.
pub proof fn lemma_put_bounded<V>(before: Map<u64, V>, cap: nat, k: u64, v: V, after: Map<u64, V>)
    requires
        before.dom().finite(),
        before.len() <= cap,
        cap > 0,
        lru_put(before, cap, k, v, after),
    ensures
        after.dom().finite(),
        after.len() <= cap,
{
    if before.contains_key(k) {
        assert(after.len() == before.len());
    } else if before.len() < cap {
        assert(after.len() == before.len() + 1);
    } else {
        let e = choose|e: u64| #![trigger before.remove(e)] before.contains_key(e) && after == before.remove(e).insert(k, v);
        assert(before.remove(e).len() == before.len() - 1);
        assert(!before.remove(e).contains_key(k));
    }
}

/// A value just cached is what a lookup of its key then gives back, and
/// every other key keeps its entry unless it is the one evicted.
pub proof fn lemma_cached_value_is_returned<V>(before: Map<u64, V>, cap: nat, k: u64, v: V, after: Map<u64, V>)
    requires
        lru_put(before, cap, k, v, after),
    ensures
        after.get(k) == Some(v),
        forall|j: u64| j != k && #[trigger] after.contains_key(j) ==> before.contains_key(j) && after[j] == before[j],
{
    if !before.contains_key(k) && before.len() >= cap {
        let e = choose|e: u64| #![trigger before.remove(e)] before.contains_key(e) && after == before.remove(e).insert(k, v);
        assert(after.contains_key(k));
    }
}

/// Capacity of the compilability cache unless configured.
pub const DEFAULT_CAN_COMPILE_CACHE_SIZE: usize = 16384;
/// Capacity of the chunk cache unless configured.
pub const DEFAULT_BYTECODE_CACHE_SIZE: usize = 4096;

/// Whether every character is an ASCII decimal digit.
pub open spec fn all_digits(d: Seq<char>) -> bool {
    forall|i: int| 0 <= i < d.len() ==> '0' <= #[trigger] d[i] <= '9'
}

/// The value of a string of decimal digits.
pub open spec fn digits_value(d: Seq<char>) -> nat
    decreases d.len(),
{
    if d.len() == 0 {
        0
    } else {
        digits_value(d.drop_last()) * 10 + (d.last() as nat - '0' as nat) as nat
    }
}

/// The size that a text reads as: an optional `+`, then one or more decimal
/// digits whose value fits a `usize`.
pub open spec fn parsed_size(t: Seq<char>) -> Option<nat> {
    let d = if t.len() > 0 && t[0] == '+' {
        t.drop_first()
    } else {
        t
    };
    if d.len() > 0 && all_digits(d) && digits_value(d) <= usize::MAX {
        Some(digits_value(d))
    } else {
        None
    }
}

/// The cache size that a setting asks for: its value when it reads as a
/// positive size, else the default.
pub open spec fn setting_size(setting: Option<Seq<char>>, default: usize) -> usize {
    match setting {
        Some(t) => match parsed_size(t) {
            Some(n) => if n > 0 {
                n as usize
            } else {
                default
            },
            None => default,
        },
        None => default,
    }
}

/// A prefix of a digit string is worth no more than the whole.
proof fn lemma_digits_prefix(d: Seq<char>, k: int)
    requires
        0 <= k <= d.len(),
        all_digits(d),
    ensures
        digits_value(d.take(k)) <= digits_value(d),
    decreases d.len(),
{
    if k < d.len() {
        let p = d.drop_last();
        assert(all_digits(p)) by {
            assert forall|i: int| 0 <= i < p.len() implies '0' <= #[trigger] p[i] <= '9' by {
                assert(p[i] == d[i]);
            }
        }
        lemma_digits_prefix(p, k);
        assert(p.take(k) =~= d.take(k));
    } else {
        assert(d.take(k) =~= d);
    }
}

/// The size that a text reads as, computed.
fn parse_size(t: &str) -> (r: Option<usize>)
    ensures
        match parsed_size(t@) {
            Some(n) => r == Some(n as usize),
            None => r is None,
        },
{
    let n = t.unicode_len();
    let start: usize = if n > 0 && t.get_char(0) == '+' { 1 } else { 0 };
    let ghost d = if t@.len() > 0 && t@[0] == '+' { t@.drop_first() } else { t@ };
    assert(d =~= t@.skip(start as int));
    if start >= n {
        return None;
    }
    let mut value: usize = 0;
    let mut i: usize = start;
    while i < n
        invariant
            start <= i <= n,
            start < n,
            n == t@.len(),
            d == t@.skip(start as int),
            d == (if t@.len() > 0 && t@[0] == '+' {
                t@.drop_first()
            } else {
                t@
            }),
            all_digits(d.take(i - start)),
            value == digits_value(d.take(i - start)),
        decreases n - i,
    {
        let c = t.get_char(i);
        let ghost k: int = i - start;
        assert(d[k] == c);
        assert(d.take(k + 1).drop_last() =~= d.take(k));
        if c < '0' || c > '9' {
            assert(!all_digits(d)) by {
                assert(!('0' <= d[k] <= '9'));
            }
            return None;
        }
        let digit: usize = (c as u32 - '0' as u32) as usize;
        assert(all_digits(d.take(k + 1))) by {
            assert forall|j: int| 0 <= j < k + 1 implies '0' <= #[trigger] d.take(k + 1)[j] <= '9' by {
                if j < k {
                    assert(d.take(k + 1)[j] == d.take(k)[j]);
                }
            }
        }
        match value.checked_mul(10) {
            Some(tens) => match tens.checked_add(digit) {
                Some(next) => {
                    value = next;
                },
                None => {
                    proof {
                        lemma_overflow_rejects(d, k + 1);
                    }
                    return None;
                },
            },
            None => {
                proof {
                    lemma_overflow_rejects(d, k + 1);
                }
                return None;
            },
        }
        i = i + 1;
    }
    assert(d.take(i - start) =~= d);
    Some(value)
}

/// A text whose digits overflow a `usize` at some prefix reads as nothing.
proof fn lemma_overflow_rejects(d: Seq<char>, k: int)
    requires
        0 < k <= d.len(),
        all_digits(d.take(k)),
        digits_value(d.take(k)) > usize::MAX,
    ensures
        !(all_digits(d) && digits_value(d) <= usize::MAX),
{
    if all_digits(d) {
        lemma_digits_prefix(d, k);
    }
}

/// The cache size that a setting asks for: its value when it reads as a
/// positive size, else `default`.
pub fn configured_cache_size(setting: Option<&str>, default: usize) -> (r: usize)
    ensures
        r == setting_size(
            match setting {
                Some(t) => Some(t@),
                None => None,
            },
            default,
        ),
{
    match setting {
        Some(t) => match parse_size(t) {
            Some(n) => if n > 0 {
                n
            } else {
                default
            },
            None => default,
        },
        None => default,
    }
}

/// Golden-ratio multiplier of the primitive hashes.
pub const GOLDEN_RATIO: u64 = 0x9e3779b97f4a7c15;
/// Seed of the hashes of integers.
pub const LONG_SEED: u64 = 0x517cc1b727220a95;
/// Seed of the hashes of booleans.
pub const BOOL_SEED: u64 = 0x2d358dccaa6c78a5;
/// Hash of the unit value.
pub const NIL_HASH: u64 = 0x6e696c5f68617368;
/// Seed of the hashes of floats, by bit pattern.
pub const FLOAT_SEED: u64 = 0x85ebca77c2b2ae63;

/// The 64-bit XXH3 hash of the UTF-8 encoding of a text.
pub uninterp spec fn xxh3_of_text(t: Seq<char>) -> u64;

/// `xxhash_rust::xxh3::xxh3_64` over the UTF-8 bytes of `t`.
#[verifier::external_body]
fn xxh3_text(t: &str) -> (r: u64)
    ensures
        r == xxh3_of_text(t@),
{
    xxhash_rust::xxh3::xxh3_64(t.as_bytes())
}

/// Mixing of a seeded 64-bit word.
pub open spec fn mix(x: u64, seed: u64) -> u64 {
    let y = x.wrapping_add(seed).wrapping_mul(GOLDEN_RATIO);
    y ^ (y >> 32u64)
}

/// The hash of an expression: inline mixing for integers, booleans, unit
/// and floats; XXH3 of the readable text for every other value.
pub open spec fn value_hash(v: Val) -> u64 {
    match v {
        Val::Long(n) => mix(n as u64, LONG_SEED),
        Val::Bool(b) => if b { BOOL_SEED.wrapping_mul(GOLDEN_RATIO) } else { BOOL_SEED },
        Val::Unit => NIL_HASH,
        Val::Float(bits) => mix(bits, FLOAT_SEED),
        _ => xxh3_of_text(debug_repr(v)),
    }
}

/// Hash of an expression, for cache keys.
pub fn hash_metta_value(expr: &MettaValue) -> (r: u64)
    ensures
        r == value_hash(expr@),
{
    match expr {
        MettaValue::Long(n) => {
            let y = (*n as u64).wrapping_add(LONG_SEED).wrapping_mul(GOLDEN_RATIO);
            y ^ (y >> 32u64)
        },
        MettaValue::Bool(b) => {
            if *b {
                BOOL_SEED.wrapping_mul(GOLDEN_RATIO)
            } else {
                BOOL_SEED
            }
        },
        MettaValue::Unit => NIL_HASH,
        MettaValue::Float(bits) => {
            let y = bits.wrapping_add(FLOAT_SEED).wrapping_mul(GOLDEN_RATIO);
            y ^ (y >> 32u64)
        },
        _ => {
            if crate::compiler::folding::is_unit(expr) {
                return NIL_HASH;
            }
            let mut text = String::new();
            push_debug(&mut text, expr);
            xxh3_text(text.as_str())
        },
    }
}

} // verus!
