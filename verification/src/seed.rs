use vstd::prelude::*;

use rand::RngCore;
use rand::SeedableRng;
use rand_chacha::ChaCha8Rng;

verus! {

#[verifier::external_type_specification]
#[verifier::external_body]
pub struct ExChaCha8Rng(ChaCha8Rng);

/// The 64-bit seed a generator was built from.
pub uninterp spec fn chacha_seed(rng: ChaCha8Rng) -> u64;

/// How many 64-bit draws have been taken from a generator.
pub uninterp spec fn chacha_drawn(rng: ChaCha8Rng) -> nat;

/// The value of the given draw (counted from 0) of the stream keyed by `seed`.
pub uninterp spec fn chacha_value(seed: u64, draw: nat) -> u64;

/// Relies on rand_chacha::ChaCha8Rng::seed_from_u64 (rand_core::SeedableRng):
/// the generator state is a pure, reproducible function of the 64-bit seed,
/// positioned at the start of its stream.
#[verifier::external_body]
fn chacha_from_seed(seed: u64) -> (r: ChaCha8Rng)
    ensures
        chacha_seed(r) == seed,
        chacha_drawn(r) == 0,
{
    ChaCha8Rng::seed_from_u64(seed)
}

/// Relies on rand_core::RngCore::next_u64 for ChaCha8Rng: the stream is
/// reproducible, so each draw is a pure function of the seed and of how many
/// draws came before it, and one call advances the state by exactly one draw.
#[verifier::external_body]
fn chacha_next_u64(rng: &mut ChaCha8Rng) -> (r: u64)
    ensures
        chacha_seed(*final(rng)) == chacha_seed(*old(rng)),
        chacha_drawn(*final(rng)) == chacha_drawn(*old(rng)) + 1,
        r == chacha_value(chacha_seed(*old(rng)), chacha_drawn(*old(rng))),
{
    rng.next_u64()
}

/// Relies on rand::thread_rng and rand_core::RngCore::next_u64: a 64-bit value
/// from the thread-local entropy source. Nothing is promised of which value
/// comes back.
#[verifier::external_body]
fn entropy_u64() -> u64 {
    rand::thread_rng().next_u64()
}

/// Why a seed text was rejected.
#[derive(Clone, Copy, PartialEq, Eq, Structural, Debug)]
pub enum SeedError {
    InvalidLength,
    InvalidEncoding,
}

/// A base-36 digit: `0`-`9`, `a`-`z` or `A`-`Z`.
pub open spec fn is_base36_digit(c: char) -> bool {
    ('0' as int <= c as int <= '9' as int) || ('a' as int <= c as int <= 'z' as int) || (
    'A' as int <= c as int <= 'Z' as int)
}

/// The numeric value of a base-36 digit.
pub open spec fn base36_digit_value(c: char) -> nat
    recommends
        is_base36_digit(c),
{
    if '0' as int <= c as int <= '9' as int {
        (c as int - '0' as int) as nat
    } else if 'a' as int <= c as int <= 'z' as int {
        (c as int - 'a' as int + 10) as nat
    } else {
        (c as int - 'A' as int + 10) as nat
    }
}

/// Every character of `s` is a base-36 digit.
pub open spec fn all_base36(s: Seq<char>) -> bool {
    forall|i: int| 0 <= i < s.len() ==> is_base36_digit(#[trigger] s[i])
}

/// The number denoted by `s` read as base-36 digits, most significant first.
pub open spec fn base36_value(s: Seq<char>) -> nat
    recommends
        all_base36(s),
    decreases s.len(),
{
    if s.len() == 0 {
        0
    } else {
        base36_value(s.drop_last()) * 36 + base36_digit_value(s.last())
    }
}

/// 36 to the power `n`.
pub open spec fn pow36(n: nat) -> nat
    decreases n,
{
    if n == 0 {
        1
    } else {
        36 * pow36((n - 1) as nat)
    }
}

/// The character for the base-36 digit `d`: a decimal digit below ten, a
/// lower-case letter from ten up.
pub open spec fn digit36_char(d: nat) -> char
    recommends
        d < 36,
{
    if d < 10 {
        (d + 48) as char
    } else {
        (d + 87) as char
    }
}

/// The `n`-character base-36 text for `seed`, least significant digit last.
pub open spec fn base36_encoding(seed: nat, n: nat) -> Seq<char>
    decreases n,
{
    if n == 0 {
        Seq::empty()
    } else {
        base36_encoding(seed / 36, (n - 1) as nat).push(digit36_char(seed % 36))
    }
}

/// Seed round-trip: for every seed below the 12-digit bound, the base-36
/// encoding has the asked-for width, holds only base-36 digits, and denotes
/// the seed it was made from.
pub proof fn lemma_seed_round_trip(seed: nat, n: nat)
    requires
        seed < pow36(n),
    ensures
        base36_encoding(seed, n).len() == n,
        all_base36(base36_encoding(seed, n)),
        base36_value(base36_encoding(seed, n)) == seed,
    decreases n,
{
    if n == 0 {
    } else {
        let d = seed % 36;
        let rest = seed / 36;
        vstd::arithmetic::div_mod::lemma_fundamental_div_mod(seed as int, 36);
        vstd::arithmetic::div_mod::lemma_mod_bound(seed as int, 36);
        assert(seed == 36 * rest + d && d < 36);
        assert(rest < pow36((n - 1) as nat)) by (nonlinear_arith)
            requires
                seed < 36 * pow36((n - 1) as nat),
                seed == 36 * rest + d,
                d < 36,
        ;
        lemma_seed_round_trip(rest, (n - 1) as nat);
        let enc = base36_encoding(seed, n);
        let prefix = base36_encoding(rest, (n - 1) as nat);
        assert(enc == prefix.push(digit36_char(d)));
        assert(is_base36_digit(digit36_char(d)));
        assert(base36_digit_value(digit36_char(d)) == d);
        assert(enc.drop_last() == prefix);
        assert(enc.last() == digit36_char(d));
        assert forall|i: int| 0 <= i < enc.len() implies is_base36_digit(enc[i]) by {
            if i < enc.len() - 1 {
                assert(enc[i] == prefix[i]);
            }
        }
    }
}

/// The numeric value of a base-36 digit character, if it is one.
fn base36_digit_of(c: char) -> (r: Option<u8>)
    ensures
        r is Some <==> is_base36_digit(c),
        r is Some ==> r->0 < 36 && r->0 as nat == base36_digit_value(c),
{
    let v = c as u32;
    if 48 <= v && v <= 57 {
        Some((v - 48) as u8)
    } else if 97 <= v && v <= 122 {
        Some((v - 97 + 10) as u8)
    } else if 65 <= v && v <= 90 {
        Some((v - 65 + 10) as u8)
    } else {
        None
    }
}

/// The character for the base-36 digit `d`.
fn digit36_to_char(d: u8) -> (r: char)
    requires
        d < 36,
    ensures
        r == digit36_char(d as nat),
{
    if d < 10 {
        (48 + d) as char
    } else {
        (87 + d) as char
    }
}

/// Relies on String::push: appends exactly the given character.
#[verifier::external_body]
pub(crate) fn push_char(s: &mut String, c: char)
    ensures
        final(s)@ == old(s)@.push(c),
{
    s.push(c);
}

/// The `width`-character base-36 text for `seed`.
fn encode_digits(seed: u64, width: usize) -> (r: String)
    requires
        (seed as nat) < pow36(width as nat),
    ensures
        r@ == base36_encoding(seed as nat, width as nat),
    decreases width,
{
    if width == 0 {
        String::new()
    } else {
        let d = (seed % 36) as u8;
        let rest = seed / 36;
        proof {
            vstd::arithmetic::div_mod::lemma_fundamental_div_mod(seed as int, 36);
            vstd::arithmetic::div_mod::lemma_mod_bound(seed as int, 36);
            assert(seed as nat == 36 * (rest as nat) + (d as nat) && (d as nat) < 36);
            assert((rest as nat) < pow36((width - 1) as nat)) by (nonlinear_arith)
                requires
                    (seed as nat) < 36 * pow36((width - 1) as nat),
                    seed as nat == 36 * (rest as nat) + (d as nat),
            ;
        }
        let mut s = encode_digits(rest, width - 1);
        push_char(&mut s, digit36_to_char(d));
        s
    }
}

/// The deterministic random stream of a run: a 64-bit root seed, the count of
/// draws taken so far, and the generator those two determine.
pub struct Seed {
    pub root_seed: u64,
    pub step: u128,
    pub rng: ChaCha8Rng,
}

/// The first `n` values any stream with root seed `seed` yields.
pub open spec fn stream_prefix(seed: u64, n: nat) -> Seq<u64> {
    Seq::new(n, |i: int| chacha_value(seed, i as nat))
}

/// Determinism: each draw is a function of the root seed and the step count
/// alone, so two streams with the same root seed yield the same first `n`
/// values, however and wherever each was constructed.
pub proof fn lemma_stream_determinism(a: Seed, b: Seed, n: nat)
    requires
        a.root_seed == b.root_seed,
    ensures
        stream_prefix(a.root_seed, n) == stream_prefix(b.root_seed, n),
{
}

impl Seed {
    /// The generator state matches the recorded root seed and step count.
    pub open spec fn wf(&self) -> bool {
        chacha_seed(self.rng) == self.root_seed && chacha_drawn(self.rng) == self.step as nat
    }

    /// A fresh stream at step 0: keyed by the given root seed, or by one drawn
    /// from the entropy source when none is given.
    pub fn new(seed: Option<u64>) -> (r: Seed)
        ensures
            r.wf(),
            r.step == 0,
            seed is Some ==> r.root_seed == seed->0,
    {
        let root = match seed {
            Some(s) => s,
            None => entropy_u64(),
        };
        Seed { root_seed: root, step: 0, rng: chacha_from_seed(root) }
    }

    /// A fresh stream keyed by a 12-character base-36 text. Rejects a text of
    /// any other length, and a 12-character text with a non-base-36 character;
    /// on rejection no stream is constructed.
    pub fn from_string(seed_str: &str) -> (r: Result<Seed, SeedError>)
        ensures
            r is Ok <==> (seed_str@.len() == 12 && all_base36(seed_str@)),
            r is Ok ==> r->Ok_0.wf() && r->Ok_0.step == 0 && r->Ok_0.root_seed as nat
                == base36_value(seed_str@),
            seed_str@.len() != 12 ==> r == Result::<Seed, SeedError>::Err(
                SeedError::InvalidLength,
            ),
            seed_str@.len() == 12 && !all_base36(seed_str@) ==> r == Result::<Seed, SeedError>::Err(
                SeedError::InvalidEncoding,
            ),
    {
        let n = seed_str.unicode_len();
        if n != 12 {
            return Err(SeedError::InvalidLength);
        }
        proof {
            lemma_pow36_12();
        }
        let mut value: u64 = 0;
        let mut i: usize = 0;
        while i < 12
            invariant
                i <= 12,
                seed_str@.len() == 12,
                all_base36(seed_str@.subrange(0, i as int)),
                value as nat == base36_value(seed_str@.subrange(0, i as int)),
                (value as nat) < pow36(i as nat),
                pow36(12) == 4738381338321616896,
            decreases 12 - i,
        {
            let c = seed_str.get_char(i);
            let d = match base36_digit_of(c) {
                Some(d) => d,
                None => {
                    proof {
                        assert(!is_base36_digit(seed_str@[i as int]));
                    }
                    return Err(SeedError::InvalidEncoding);
                },
            };
            proof {
                lemma_pow36_increases(i as nat + 1, 12);
                assert((value as nat) * 36 + 35 < pow36(i as nat + 1));
                assert(seed_str@.subrange(0, i + 1).drop_last() == seed_str@.subrange(0, i as int));
                assert(seed_str@.subrange(0, i + 1).last() == seed_str@[i as int]);
            }
            value = value * 36 + d as u64;
            i = i + 1;
            proof {
                assert forall|j: int| 0 <= j < i implies is_base36_digit(
                    #[trigger] seed_str@.subrange(0, i as int)[j],
                ) by {
                    assert(seed_str@.subrange(0, i as int)[j] == seed_str@[j]);
                    if j < i - 1 {
                        assert(seed_str@.subrange(0, i - 1)[j] == seed_str@[j]);
                    }
                }
            }
        }
        proof {
            assert(seed_str@.subrange(0, 12) == seed_str@);
        }
        Ok(Seed::new(Some(value)))
    }

    /// Advance the step count by exactly one and return the next value of the
    /// stream: the draw at the old step, a function of the root seed and that
    /// step alone. Never fails.
    pub fn next_id(&mut self) -> (r: u64)
        requires
            old(self).wf(),
            old(self).step < u128::MAX,
        ensures
            final(self).wf(),
            final(self).root_seed == old(self).root_seed,
            final(self).step == old(self).step + 1,
            r == chacha_value(old(self).root_seed, old(self).step as nat),
            r == stream_prefix(old(self).root_seed, old(self).step as nat + 1).last(),
    {
        self.step = self.step + 1;
        chacha_next_u64(&mut self.rng)
    }

    /// The 12-character base-36 text of this stream's root seed: defined
    /// exactly for seeds below 36 to the 12th power, and decoding it yields
    /// the root seed back.
    pub fn encode(&self) -> (r: Option<String>)
        ensures
            r is Some <==> (self.root_seed as nat) < pow36(12),
            r is Some ==> r->0@.len() == 12 && all_base36(r->0@) && base36_value(r->0@)
                == self.root_seed as nat,
    {
        proof {
            lemma_pow36_12();
        }
        if self.root_seed < 4738381338321616896 {
            let s = encode_digits(self.root_seed, 12);
            proof {
                lemma_seed_round_trip(self.root_seed as nat, 12);
            }
            Some(s)
        } else {
            None
        }
    }
}

/// 36 to a smaller power is no larger.
pub proof fn lemma_pow36_increases(a: nat, b: nat)
    requires
        a <= b,
    ensures
        pow36(a) <= pow36(b),
    decreases b,
{
    if a < b {
        lemma_pow36_increases(a, (b - 1) as nat);
    }
}


/// The 12-digit base-36 bound, written out.
pub proof fn lemma_pow36_12()
    ensures
        pow36(12) == 4738381338321616896,
{
    reveal_with_fuel(pow36, 13);
}

} // verus!
