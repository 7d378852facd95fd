//! Small helpers: keys made of bytes, seats per shard, random names.

use crate::hash::{hash, sha256, CryptoHash};
use byteorder::{LittleEndian, WriteBytesExt};
use rand::distributions::Alphanumeric;
use rand::{thread_rng, Rng};
use vstd::arithmetic::div_mod::{lemma_div_is_ordered_by_denominator, lemma_fundamental_div_mod};
use vstd::bytes::{spec_u64_to_le_bytes, u64_to_le_bytes};
use vstd::prelude::*;

verus! {

/// The number of a shard.
pub type ShardId = u64;

/// A number of shards.
pub type NumShards = u64;

/// A number of seats.
pub type NumSeats = u64;

/// Number of nanoseconds in a second.
pub const NS_IN_SECOND: u64 = 1_000_000_000;

/// The key under which something is stored per block and shard: the 32
/// bytes of the block hash, then the shard as eight little-endian bytes.
pub fn get_block_shard_id(block_hash: &CryptoHash, shard_id: ShardId) -> (res: Vec<u8>)
    ensures
        res@ == block_hash@ + spec_u64_to_le_bytes(shard_id),
{
    let mut res = Vec::with_capacity(40);
    res.extend_from_slice(block_hash.0.as_slice());
    let shard = u64_to_le_bytes(shard_id);
    res.extend_from_slice(shard.as_slice());
    assert(res@ =~= block_hash@ + spec_u64_to_le_bytes(shard_id));
    res
}

/// Calls `byteorder::WriteBytesExt::write_u64::<LittleEndian>` on a byte
/// vector, which appends the eight little-endian bytes of `value`. Writing
/// to a vector only grows it and reports no error.
#[verifier::external_body]
fn write_u64_le(bytes: &mut Vec<u8>, value: u64)
    ensures
        final(bytes)@ == old(bytes)@ + spec_u64_to_le_bytes(value),
{
    bytes.write_u64::<LittleEndian>(value).expect("writing to bytes failed");
}

/// The eight little-endian bytes of `index`.
pub fn index_to_bytes(index: u64) -> (res: Vec<u8>)
    ensures
        res@ == spec_u64_to_le_bytes(index),
{
    let mut bytes = Vec::new();
    write_u64_le(&mut bytes, index);
    assert(bytes@ =~= spec_u64_to_le_bytes(index));
    bytes
}

/// A new hash from `base` and `salt`: the SHA-256 digest of the bytes of
/// `base` followed by the eight little-endian bytes of `salt`.
pub fn create_nonce_with_nonce(base: &CryptoHash, salt: u64) -> (res: CryptoHash)
    ensures
        res@ == sha256(base@ + spec_u64_to_le_bytes(salt)),
{
    let mut nonce: Vec<u8> = Vec::new();
    nonce.extend_from_slice(base.0.as_slice());
    let salt_bytes = index_to_bytes(salt);
    nonce.extend_from_slice(salt_bytes.as_slice());
    assert(nonce@ =~= base@ + spec_u64_to_le_bytes(salt));
    hash(nonce.as_slice())
}

/// The seats of the shard numbered `shard` when `num_seats` seats are
/// dealt out to `num_shards` shards: an even share, one more for each of
/// the first shards while the remainder lasts, and never less than one.
pub open spec fn seats_of_shard(num_shards: NumShards, num_seats: NumSeats, shard: int) -> int {
    let share = num_seats as int / num_shards as int;
    let remainder = num_seats as int % num_shards as int;
    let seats = if shard < remainder {
        share + 1
    } else {
        share
    };
    if seats >= 1 {
        seats
    } else {
        1
    }
}

/// The seats of the first `shards` shards together.
pub open spec fn seats_of_first_shards(
    num_shards: NumShards,
    num_seats: NumSeats,
    shards: nat,
) -> int
    decreases shards,
{
    if shards == 0 {
        0
    } else {
        seats_of_first_shards(num_shards, num_seats, (shards - 1) as nat) + seats_of_shard(
            num_shards,
            num_seats,
            shards - 1,
        )
    }
}

/// The seats of the first `shards` shards together: all of them are
/// dealt out where there are at least as many seats as shards, and else
/// every shard has one.
proof fn lemma_seats_of_first_shards(num_shards: NumShards, num_seats: NumSeats, shards: nat)
    requires
        num_shards >= 1,
        shards <= num_shards,
    ensures
        seats_of_first_shards(num_shards, num_seats, shards) == if num_seats >= num_shards {
            let remainder = num_seats as int % num_shards as int;
            (num_seats as int / num_shards as int) * shards + if shards < remainder {
                shards as int
            } else {
                remainder
            }
        } else {
            shards as int
        },
    decreases shards,
{
    let share = num_seats as int / num_shards as int;
    let remainder = num_seats as int % num_shards as int;
    lemma_fundamental_div_mod(num_seats as int, num_shards as int);
    if num_seats >= num_shards {
        assert(share >= 1) by (nonlinear_arith)
            requires
                num_seats as int == num_shards as int * share + remainder,
                0 <= remainder < num_shards as int,
                num_seats >= num_shards,
        ;
    } else {
        assert(share == 0) by (nonlinear_arith)
            requires
                num_seats as int == num_shards as int * share + remainder,
                0 <= remainder < num_shards as int,
                0 <= num_seats < num_shards,
        ;
    }
    if shards > 0 {
        lemma_seats_of_first_shards(num_shards, num_seats, (shards - 1) as nat);
        assert(share * shards == share * (shards - 1) + share) by (nonlinear_arith);
    } else {
        assert(share * shards == 0) by (nonlinear_arith)
            requires
                shards == 0,
        ;
    }
}

/// The seats that are dealt out add up to the number of seats or, where
/// there are more shards than seats, to the number of shards.
pub proof fn lemma_seats_add_up(num_shards: NumShards, num_seats: NumSeats)
    requires
        num_shards >= 1,
    ensures
        seats_of_first_shards(num_shards, num_seats, num_shards as nat) == if num_seats
            >= num_shards {
            num_seats
        } else {
            num_shards
        },
{
    lemma_seats_of_first_shards(num_shards, num_seats, num_shards as nat);
    lemma_fundamental_div_mod(num_seats as int, num_shards as int);
    assert((num_seats as int / num_shards as int) * num_shards == num_shards * (num_seats as int
        / num_shards as int)) by (nonlinear_arith);
}

/// Deals out `num_seats` seats to `num_shards` shards and returns the
/// seats of each shard, by shard number.
pub fn get_num_seats_per_shard(num_shards: NumShards, num_seats: NumSeats) -> (res: Vec<NumSeats>)
    ensures
        res@.len() == num_shards,
        forall|i: int|
            0 <= i < num_shards ==> #[trigger] res@[i] == seats_of_shard(num_shards, num_seats, i),
{
    let mut res: Vec<NumSeats> = Vec::new();
    let mut i: u64 = 0;
    while i < num_shards
        invariant
            i <= num_shards,
            res@.len() == i,
            forall|j: int|
                0 <= j < i ==> #[trigger] res@[j] == seats_of_shard(num_shards, num_seats, j),
        decreases num_shards - i,
    {
        let remainder = num_seats % num_shards;
        let share = num_seats / num_shards;
        let seats = if i < remainder {
            assert(share < u64::MAX) by {
                lemma_div_is_ordered_by_denominator(num_seats as int, 2, num_shards as int);
            }
            share + 1
        } else {
            share
        };
        res.push(if seats >= 1 { seats } else { 1 });
        i += 1;
    }
    res
}

/// Whether `c` is an ASCII letter or digit.
pub open spec fn is_ascii_alphanumeric(c: char) -> bool {
    ||| 'A' <= c <= 'Z'
    ||| 'a' <= c <= 'z'
    ||| '0' <= c <= '9'
}

/// Draws `len` characters from rand's `Alphanumeric` distribution with
/// the thread's generator (`thread_rng().sample_iter(..)`). Which
/// characters come is left to chance; each is an ASCII letter or digit.
#[verifier::external_body]
fn sample_alphanumeric(len: usize) -> (res: String)
    ensures
        res@.len() == len,
        forall|i: int| 0 <= i < len ==> is_ascii_alphanumeric(#[trigger] res@[i]),
{
    thread_rng().sample_iter(&Alphanumeric).take(len).collect::<String>()
}

/// A random string of `len` ASCII letters and digits.
pub fn generate_random_string(len: usize) -> (res: String)
    ensures
        res@.len() == len,
        forall|i: int| 0 <= i < len ==> is_ascii_alphanumeric(#[trigger] res@[i]),
{
    sample_alphanumeric(len)
}

/// An `Option` that can be shown as text: `Some(..)` around the text of
/// what it holds, or `None`.
pub struct DisplayOption<T>(pub Option<T>);

impl<T> DisplayOption<T> {
    /// The option that is wrapped.
    pub fn into(self) -> (res: Option<T>)
        ensures
            res == self.0,
    {
        self.0
    }
}

impl<T> DisplayOption<T> {
    /// The text that shows this option, where `shown` is the text that
    /// shows what it holds: `Some(..)` around `shown`, or `None`.
    pub fn to_text(&self, shown: &str) -> (res: String)
        ensures
            res@ == match self.0 {
                Some(_) => "Some("@ + shown@ + ")"@,
                None => "None"@,
            },
    {
        match self.0 {
            Some(_) => String::from_str("Some(").concat(shown).concat(")"),
            None => String::from_str("None"),
        }
    }
}

impl<T> AsRef<Option<T>> for DisplayOption<T> {
    fn as_ref(&self) -> (res: &Option<T>)
        ensures
            *res == self.0,
    {
        &self.0
    }
}

impl<T> From<Option<T>> for DisplayOption<T> {
    fn from(o: Option<T>) -> (res: Self) {
        DisplayOption(o)
    }
}

impl<T> vstd::std_specs::convert::FromSpecImpl<Option<T>> for DisplayOption<T> {
    open spec fn obeys_from_spec() -> bool {
        true
    }

    open spec fn from_spec(o: Option<T>) -> Self {
        DisplayOption(o)
    }
}

/// A value that is to be shown as its JSON text.
pub struct Serializable<'a, T>(&'a T);

impl<'a, T> Serializable<'a, T> {
    /// The value that is wrapped, as a mathematical value.
    pub closed spec fn object(&self) -> T {
        *self.0
    }

    /// The value that is wrapped.
    pub fn get(&self) -> (res: &'a T)
        ensures
            *res == self.object(),
    {
        self.0
    }
}

/// Wraps `object` so that it can be shown as its JSON text.
pub fn ser<'a, T>(object: &'a T) -> (res: Serializable<'a, T>)
    ensures
        res.object() == *object,
{
    Serializable(object)
}

/// A moment in UTC: the whole seconds since the start of 1970, and the
/// nanoseconds into that second.
#[derive(Clone, Copy, Debug, PartialEq, Eq, Structural)]
pub struct UtcTime {
    pub secs: i64,
    pub nsecs: u32,
}

impl UtcTime {
    /// The nanoseconds from the start of 1970 to this moment.
    pub open spec fn nanos(self) -> int {
        self.secs * NS_IN_SECOND + self.nsecs
    }
}

/// The moment that lies `timestamp` nanoseconds after the start of 1970.
pub fn from_timestamp(timestamp: u64) -> (res: UtcTime)
    ensures
        res.nanos() == timestamp,
        res.secs == timestamp / NS_IN_SECOND,
        res.nsecs == timestamp % NS_IN_SECOND,
{
    proof {
        lemma_fundamental_div_mod(timestamp as int, NS_IN_SECOND as int);
    }
    UtcTime { secs: (timestamp / NS_IN_SECOND) as i64, nsecs: (timestamp % NS_IN_SECOND) as u32 }
}

/// The nanoseconds from the start of 1970 to `time`, which must be a
/// number that sixty-four bits with a sign can hold. A moment before 1970
/// gives that negative number in two's complement.
pub fn to_timestamp(time: UtcTime) -> (res: u64)
    requires
        i64::MIN <= time.nanos() <= i64::MAX,
    ensures
        res == if time.nanos() >= 0 {
            time.nanos()
        } else {
            time.nanos() + 0x1_0000_0000_0000_0000
        },
{
    let nanos: i128 = time.secs as i128 * NS_IN_SECOND as i128 + time.nsecs as i128;
    if nanos >= 0 {
        nanos as u64
    } else {
        (nanos + 0x1_0000_0000_0000_0000) as u64
    }
}

} // verus!
