//! Where a user's local state is kept: a directory named by a one-way hash of
//! the user id.

use sha2::Digest;
use vstd::prelude::*;

verus! {

/// The directory, below the application's data root, that holds one
/// directory per user.
pub const USER_DATA_DIR: &'static str = "userdata";

/// The file, inside a user's directory, that holds the protocol layer's
/// state store.
pub const STATE_STORE_FILE: &'static str = "client.db";

/// The SHA-256 digest of `data`, as the `sha2` crate computes it.
pub uninterp spec fn sha256_digest(data: Seq<u8>) -> Seq<u8>;

/// The decimal digits of `n`, most significant first, in ASCII.
pub open spec fn decimal_digits(n: nat) -> Seq<u8>
    decreases n,
{
    if n < 10 {
        seq![(48 + n) as u8]
    } else {
        decimal_digits(n / 10).push((48 + n % 10) as u8)
    }
}

/// `n` in decimal, in ASCII: a minus sign if it is negative, then the digits
/// of its magnitude.
pub open spec fn decimal(n: int) -> Seq<u8> {
    if n < 0 {
        seq![45u8] + decimal_digits((-n) as nat)
    } else {
        decimal_digits(n as nat)
    }
}

/// The text that is hashed for a user: `user_` and the id in decimal.
pub open spec fn key_preimage(user_id: int) -> Seq<u8> {
    seq![117u8, 115u8, 101u8, 114u8, 95u8] + decimal(user_id)
}

/// The lower-case hexadecimal digit of a value below 16.
pub open spec fn hex_digit(nibble: int) -> char {
    if nibble < 10 {
        ((48 + nibble) as u8) as char
    } else {
        ((87 + nibble) as u8) as char
    }
}

/// `bytes` in lower-case hexadecimal, two digits per byte, high digit first.
pub open spec fn hex_lower(bytes: Seq<u8>) -> Seq<char> {
    Seq::new(
        2 * bytes.len(),
        |i: int|
            if i % 2 == 0 {
                hex_digit(bytes[i / 2] as int / 16)
            } else {
                hex_digit(bytes[i / 2] as int % 16)
            },
    )
}

/// The name of the storage directory of a user.
pub open spec fn storage_key(user_id: int) -> Seq<char> {
    hex_lower(sha256_digest(key_preimage(user_id)))
}

/// `sha2::Sha256`, fed `data` in one piece and finalized. The result is the
/// digest of `data`, which has 32 bytes.
#[verifier::external_body]
fn sha256(data: &Vec<u8>) -> (digest: Vec<u8>)
    ensures
        digest@ == sha256_digest(data@),
        digest@.len() == 32,
{
    let mut hasher = sha2::Sha256::new();
    hasher.update(data);
    hasher.finalize().to_vec()
}

/// `hex::encode`: every byte becomes its two lower-case hexadecimal digits,
/// high digit first, in the order of the bytes.
#[verifier::external_body]
fn hex_encode(bytes: &Vec<u8>) -> (text: String)
    ensures
        text@ == hex_lower(bytes@),
{
    hex::encode(bytes)
}

proof fn lemma_digits_step(n: nat)
    ensures
        n >= 10 ==> decimal_digits(n) == decimal_digits(n / 10).push((48 + n % 10) as u8),
        n < 10 ==> decimal_digits(n) == seq![(48 + n) as u8],
{
}

/// The ASCII decimal form of `n`.
pub fn decimal_bytes(n: i64) -> (text: Vec<u8>)
    ensures
        text@ == decimal(n as int),
{
    let wide: i128 = n as i128;
    let magnitude: u64 = if wide < 0 {
        (0 - wide) as u64
    } else {
        wide as u64
    };
    // Least significant digit first.
    let mut reversed: Vec<u8> = Vec::new();
    let mut rest: u64 = magnitude;
    reversed.push((48 + rest % 10) as u8);
    rest = rest / 10;
    proof {
        lemma_digits_step(magnitude as nat);
        if magnitude >= 10 {
            assert(decimal_digits(magnitude as nat) == decimal_digits(rest as nat) + reversed@.reverse());
        } else {
            assert(decimal_digits(magnitude as nat) == reversed@.reverse());
        }
    }
    while rest > 0
        invariant
            reversed@.len() >= 1,
            rest > 0 ==> decimal_digits(magnitude as nat) == decimal_digits(rest as nat)
                + reversed@.reverse(),
            rest == 0 ==> decimal_digits(magnitude as nat) == reversed@.reverse(),
        decreases rest,
    {
        let ghost before = reversed@;
        let ghost prior = rest;
        let digit: u8 = (48 + rest % 10) as u8;
        reversed.push(digit);
        rest = rest / 10;
        proof {
            lemma_digits_step(prior as nat);
            assert(reversed@.reverse() == seq![digit] + before.reverse());
            if prior >= 10 {
                assert(decimal_digits(prior as nat) + before.reverse() == decimal_digits(
                    rest as nat,
                ) + reversed@.reverse());
            } else {
                assert(decimal_digits(prior as nat) + before.reverse() == reversed@.reverse());
            }
        }
    }
    let mut text: Vec<u8> = Vec::new();
    if wide < 0 {
        text.push(45u8);
    }
    let ghost sign = text@;
    let mut left: usize = reversed.len();
    while left > 0
        invariant
            left <= reversed@.len(),
            text@ == sign + reversed@.reverse().subrange(0, reversed@.len() - left),
        decreases left,
    {
        left = left - 1;
        text.push(reversed[left]);
        proof {
            let done = reversed@.len() - left;
            assert(reversed@.reverse().subrange(0, done) == reversed@.reverse().subrange(
                0,
                done - 1,
            ).push(reversed@[left as int]));
        }
    }
    proof {
        assert(reversed@.reverse().subrange(0, reversed@.len() as int) == reversed@.reverse());
    }
    text
}

/// The bytes that are hashed for a user.
pub fn key_preimage_bytes(user_id: i64) -> (bytes: Vec<u8>)
    ensures
        bytes@ == key_preimage(user_id as int),
{
    let mut bytes: Vec<u8> = Vec::new();
    bytes.push(117u8);
    bytes.push(115u8);
    bytes.push(101u8);
    bytes.push(114u8);
    bytes.push(95u8);
    let mut digits = decimal_bytes(user_id);
    let ghost head = bytes@;
    let ghost tail = digits@;
    bytes.append(&mut digits);
    proof {
        assert(head == seq![117u8, 115u8, 101u8, 114u8, 95u8]);
        assert(bytes@ == head + tail);
    }
    bytes
}

/// The directory name that stands for a digest: the digest in lower-case
/// hexadecimal.
pub fn key_of_digest(digest: &Vec<u8>) -> (key: String)
    ensures
        key@ == hex_lower(digest@),
        key@.len() == 2 * digest@.len(),
{
    hex_encode(digest)
}

/// The name of the storage directory of `user_id`: the SHA-256 digest of
/// `user_` followed by the id in decimal, in lower-case hexadecimal.
pub fn hash_user_id(user_id: i64) -> (key: String)
    ensures
        key@ == storage_key(user_id as int),
        key@.len() == 64,
{
    let preimage = key_preimage_bytes(user_id);
    let digest = sha256(&preimage);
    key_of_digest(&digest)
}

proof fn lemma_digits_are_digits(n: nat)
    ensures
        decimal_digits(n).len() >= 1,
        forall|i: int| 0 <= i < decimal_digits(n).len() ==> 48 <= #[trigger] decimal_digits(n)[i] <= 57,
    decreases n,
{
    if n >= 10 {
        lemma_digits_are_digits(n / 10);
    }
}

proof fn lemma_digits_injective(a: nat, b: nat)
    requires
        decimal_digits(a) == decimal_digits(b),
    ensures
        a == b,
    decreases a,
{
    lemma_digits_are_digits(a / 10);
    lemma_digits_are_digits(b / 10);
    if a >= 10 {
        let high_a = decimal_digits(a / 10);
        let low_a = (48 + a % 10) as u8;
        assert(decimal_digits(a) == high_a.push(low_a));
        assert(decimal_digits(a).len() >= 2);
        if b < 10 {
            assert(decimal_digits(b).len() == 1);
        }
        let high_b = decimal_digits(b / 10);
        let low_b = (48 + b % 10) as u8;
        assert(decimal_digits(b) == high_b.push(low_b));
        assert(high_a.push(low_a).drop_last() == high_a);
        assert(high_b.push(low_b).drop_last() == high_b);
        assert(high_a == high_b);
        assert(high_a.push(low_a).last() == low_a);
        assert(high_b.push(low_b).last() == low_b);
        assert(low_a == low_b);
        lemma_digits_injective(a / 10, b / 10);
        assert(a % 10 == b % 10);
        assert(a == 10 * (a / 10) + a % 10);
        assert(b == 10 * (b / 10) + b % 10);
    } else {
        assert(decimal_digits(a) == seq![(48 + a) as u8]);
        assert(decimal_digits(a).len() == 1);
        if b >= 10 {
            assert(decimal_digits(b) == decimal_digits(b / 10).push((48 + b % 10) as u8));
            assert(decimal_digits(b).len() >= 2);
        }
        assert(decimal_digits(b) == seq![(48 + b) as u8]);
        assert(decimal_digits(a)[0] == (48 + a) as u8);
        assert(decimal_digits(b)[0] == (48 + b) as u8);
    }
}

/// No two numbers are written alike in decimal.
pub proof fn lemma_decimal_injective(a: int, b: int)
    requires
        decimal(a) == decimal(b),
    ensures
        a == b,
{
    let digits_a = decimal_digits((if a < 0 { -a } else { a }) as nat);
    let digits_b = decimal_digits((if b < 0 { -b } else { b }) as nat);
    lemma_digits_are_digits((if a < 0 { -a } else { a }) as nat);
    lemma_digits_are_digits((if b < 0 { -b } else { b }) as nat);
    assert(decimal(a)[0] == decimal(b)[0]);
    if a < 0 {
        assert(decimal(a)[0] == 45u8);
        assert(b < 0);
        let signed_a = seq![45u8] + digits_a;
        let signed_b = seq![45u8] + digits_b;
        assert(decimal(a) == signed_a);
        assert(decimal(b) == signed_b);
        assert(signed_a.len() == 1 + digits_a.len());
        assert(signed_b.len() == 1 + digits_b.len());
        assert(signed_a.subrange(1, 1 + digits_a.len() as int) == digits_a);
        assert(signed_b.subrange(1, 1 + digits_b.len() as int) == digits_b);
        assert(digits_a == digits_b);
        lemma_digits_injective((-a) as nat, (-b) as nat);
    } else {
        assert(decimal(a)[0] == digits_a[0]);
        assert(b >= 0);
        lemma_digits_injective(a as nat, b as nat);
    }
}

/// No two byte strings are written alike in hexadecimal.
pub proof fn lemma_hex_lower_injective(x: Seq<u8>, y: Seq<u8>)
    requires
        hex_lower(x) == hex_lower(y),
    ensures
        x == y,
{
    assert(hex_lower(x).len() == 2 * x.len());
    assert(hex_lower(y).len() == 2 * y.len());
    assert forall|i: int| 0 <= i < x.len() implies x[i] == y[i] by {
        let high_x = x[i] as int / 16;
        let high_y = y[i] as int / 16;
        let low_x = x[i] as int % 16;
        let low_y = y[i] as int % 16;
        assert(hex_lower(x)[2 * i] == hex_digit(high_x));
        assert(hex_lower(y)[2 * i] == hex_digit(high_y));
        assert(hex_lower(x)[2 * i + 1] == hex_digit(low_x));
        assert(hex_lower(y)[2 * i + 1] == hex_digit(low_y));
        assert(hex_digit(high_x) == hex_digit(high_y));
        assert(hex_digit(low_x) == hex_digit(low_y));
        assert(high_x == high_y);
        assert(low_x == low_y);
    }
    assert(x =~= y);
}

/// Every user has a storage key of its own, as far as the digest allows: the
/// key is a function of the id alone, and two different ids share a key only
/// where SHA-256 gives one digest to their two different preimages.
pub proof fn lemma_key_collision_is_digest_collision(a: int, b: int)
    requires
        a != b,
        storage_key(a) == storage_key(b),
    ensures
        key_preimage(a) != key_preimage(b),
        sha256_digest(key_preimage(a)) == sha256_digest(key_preimage(b)),
{
    lemma_hex_lower_injective(sha256_digest(key_preimage(a)), sha256_digest(key_preimage(b)));
    if key_preimage(a) == key_preimage(b) {
        let prefix = seq![117u8, 115u8, 101u8, 114u8, 95u8];
        assert((prefix + decimal(a)).subrange(5, 5 + decimal(a).len() as int) == decimal(a));
        assert((prefix + decimal(b)).subrange(5, 5 + decimal(b).len() as int) == decimal(b));
        assert(decimal(a).len() == decimal(b).len());
        lemma_decimal_injective(a, b);
    }
}

} // verus!
