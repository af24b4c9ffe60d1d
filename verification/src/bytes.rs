//! Unsigned integers as byte strings of a fixed width, in either byte order.
use vstd::prelude::*;

verus! {

/// The order in which the bytes of an integer are laid out.
#[derive(Clone, Copy, Debug, PartialEq, Eq, Structural)]
pub enum Endian {
    /// The least significant byte comes first.
    Little,
    /// The most significant byte comes first.
    Big,
}

/// How many values `n` bytes can hold.
pub open spec fn span(n: nat) -> nat
    decreases n,
{
    if n == 0 {
        1
    } else {
        256 * span((n - 1) as nat)
    }
}

/// The `n` lowest base-256 digits of `x`, least significant first.
pub open spec fn digits(x: nat, n: nat) -> Seq<u8>
    decreases n,
{
    if n == 0 {
        Seq::empty()
    } else {
        seq![(x % 256) as u8] + digits(x / 256, (n - 1) as nat)
    }
}

/// The number whose base-256 digits are `s`, least significant first.
pub open spec fn value(s: Seq<u8>) -> nat
    decreases s.len(),
{
    if s.len() == 0 {
        0
    } else {
        s[0] as nat + 256 * value(s.drop_first())
    }
}

/// The `n` bytes that stand for `x` in byte order `e`.
pub open spec fn to_bytes(e: Endian, x: nat, n: nat) -> Seq<u8> {
    match e {
        Endian::Little => digits(x, n),
        Endian::Big => digits(x, n).reverse(),
    }
}

/// The number that the bytes `s` stand for in byte order `e`.
pub open spec fn from_bytes(e: Endian, s: Seq<u8>) -> nat {
    match e {
        Endian::Little => value(s),
        Endian::Big => value(s.reverse()),
    }
}

proof fn lemma_digits_len(x: nat, n: nat)
    ensures
        digits(x, n).len() == n,
    decreases n,
{
    if n > 0 {
        lemma_digits_len(x / 256, (n - 1) as nat);
    }
}

proof fn lemma_value_bound(s: Seq<u8>)
    ensures
        value(s) < span(s.len()),
    decreases s.len(),
{
    if s.len() > 0 {
        lemma_value_bound(s.drop_first());
    }
}

proof fn lemma_value_digits(x: nat, n: nat)
    requires
        x < span(n),
    ensures
        value(digits(x, n)) == x,
    decreases n,
{
    if n > 0 {
        let rest: nat = x / 256;
        let tail = digits(rest, (n - 1) as nat);
        lemma_value_digits(rest, (n - 1) as nat);
        assert(digits(x, n).drop_first() =~= tail);
    }
}

proof fn lemma_digits_value(s: Seq<u8>)
    ensures
        digits(value(s), s.len()) == s,
    decreases s.len(),
{
    if s.len() > 0 {
        let tail = s.drop_first();
        lemma_digits_value(tail);
        assert(value(s) / 256 == value(tail));
        assert(value(s) % 256 == s[0] as nat);
        assert(seq![s[0]] + tail =~= s);
    }
}

/// The two widths in use hold exactly the 32-bit and the 64-bit integers.
pub proof fn lemma_span()
    ensures
        span(4) == 0x1_0000_0000,
        span(8) == 0x1_0000_0000_0000_0000,
{
    reveal_with_fuel(span, 9);
}

/// A number's representation has the width that was asked for.
pub proof fn lemma_to_bytes_len(e: Endian, x: nat, n: nat)
    ensures
        to_bytes(e, x, n).len() == n,
{
    lemma_digits_len(x, n);
}

/// Decoding gives back what was encoded, whatever the byte order.
pub proof fn law_decode_encode(e: Endian, x: nat, n: nat)
    requires
        x < span(n),
    ensures
        from_bytes(e, to_bytes(e, x, n)) == x,
{
    lemma_digits_len(x, n);
    lemma_value_digits(x, n);
    assert(digits(x, n).reverse().reverse() =~= digits(x, n));
}

/// Every byte string is the representation of the number that it decodes to.
pub proof fn law_encode_decode(e: Endian, s: Seq<u8>)
    ensures
        from_bytes(e, s) < span(s.len()),
        to_bytes(e, from_bytes(e, s), s.len()) == s,
{
    lemma_value_bound(s);
    lemma_value_bound(s.reverse());
    lemma_digits_value(s);
    lemma_digits_value(s.reverse());
    assert(s.reverse().reverse() =~= s);
}

proof fn lemma_span_is_power(n: nat)
    ensures
        span(n) == vstd::arithmetic::power::pow(256, n),
        span(n) > 0,
    decreases n,
{
    reveal(vstd::arithmetic::power::pow);
    if n > 0 {
        lemma_span_is_power((n - 1) as nat);
    }
}

proof fn lemma_digit(x: nat, n: nat, i: nat)
    requires
        i < n,
    ensures
        digits(x, n)[i as int] as int == (x as int / vstd::arithmetic::power::pow(256, i)) % 256,
    decreases n,
{
    lemma_digits_len(x / 256, (n - 1) as nat);
    reveal(vstd::arithmetic::power::pow);
    if i > 0 {
        let rest: nat = (i - 1) as nat;
        let p: int = vstd::arithmetic::power::pow(256, rest);
        lemma_digit(x / 256, (n - 1) as nat, rest);
        lemma_span_is_power(rest);
        vstd::arithmetic::div_mod::lemma_div_denominator(x as int, 256, p);
        assert(digits(x, n)[i as int] == digits(x / 256, (n - 1) as nat)[rest as int]);
    }
}

/// Each byte of a number's representation is the base-256 digit of its place, for every number and
/// width. The first byte is the units' in the one order and the last byte is in the other.
pub proof fn law_byte_is_digit_of_its_place(x: nat, n: nat, i: nat)
    requires
        i < n,
    ensures
        to_bytes(Endian::Little, x, n).len() == n,
        to_bytes(Endian::Big, x, n).len() == n,
        to_bytes(Endian::Little, x, n)[i as int] as int == (x as int
            / vstd::arithmetic::power::pow(256, i)) % 256,
        to_bytes(Endian::Big, x, n)[n - 1 - i] as int == (x as int
            / vstd::arithmetic::power::pow(256, i)) % 256,
{
    lemma_digits_len(x, n);
    lemma_digit(x, n, i);
}

/// Reading a byte string adds up its bytes, each by the weight of its place: a byte in front of
/// the most significant one adds its multiple of the power of 256 that the others stay below.
pub proof fn law_bytes_add_up(b: u8, s: Seq<u8>)
    ensures
        from_bytes(Endian::Little, s.push(b)) == from_bytes(Endian::Little, s) + b
            * vstd::arithmetic::power::pow(256, s.len()),
        from_bytes(Endian::Big, seq![b] + s) == from_bytes(Endian::Big, s) + b
            * vstd::arithmetic::power::pow(256, s.len()),
        from_bytes(Endian::Little, s) < vstd::arithmetic::power::pow(256, s.len()),
        from_bytes(Endian::Big, s) < vstd::arithmetic::power::pow(256, s.len()),
        from_bytes(Endian::Little, Seq::<u8>::empty()) == 0,
        from_bytes(Endian::Big, Seq::<u8>::empty()) == 0,
{
    lemma_value_push(s, b);
    lemma_value_push(s.reverse(), b);
    lemma_span_is_power(s.len());
    lemma_value_bound(s);
    lemma_value_bound(s.reverse());
    assert((seq![b] + s).reverse() =~= s.reverse().push(b));
}

proof fn lemma_value_push(s: Seq<u8>, b: u8)
    ensures
        value(s.push(b)) == value(s) + b * vstd::arithmetic::power::pow(256, s.len()),
    decreases s.len(),
{
    reveal(vstd::arithmetic::power::pow);
    if s.len() == 0 {
        assert(s.push(b).drop_first() =~= s);
    } else {
        let tail = s.drop_first();
        let p: int = vstd::arithmetic::power::pow(256, tail.len());
        lemma_value_push(tail, b);
        assert(s.push(b).drop_first() =~= tail.push(b));
        assert(256 * (b as int * p) == b as int * (256 * p)) by (nonlinear_arith);
    }
}

/// Every number below the power of 256 that a width holds comes back from its representation, and
/// no two of them share one.
pub proof fn law_representation_is_exact(e: Endian, x: nat, y: nat, n: nat)
    requires
        x < vstd::arithmetic::power::pow(256, n),
        y < vstd::arithmetic::power::pow(256, n),
    ensures
        from_bytes(e, to_bytes(e, x, n)) == x,
        to_bytes(e, x, n) == to_bytes(e, y, n) ==> x == y,
{
    lemma_span_is_power(n);
    law_decode_encode(e, x, n);
    law_decode_encode(e, y, n);
}

/// Encodes the low `n` bytes of `x` in byte order `endian`.
pub fn encode(endian: Endian, x: u64, n: usize) -> (bytes: Vec<u8>)
    ensures
        bytes@ == to_bytes(endian, x as nat, n as nat),
        bytes@.len() == n,
{
    let mut out: Vec<u8> = Vec::new();
    let mut rest: u64 = x;
    let mut i: usize = 0;
    while i < n
        invariant
            i <= n,
            out@.len() == i,
            out@ + digits(rest as nat, (n - i) as nat) == digits(x as nat, n as nat),
        decreases n - i,
    {
        let ghost before = out@;
        let digit: u8 = (rest % 256) as u8;
        out.push(digit);
        proof {
            assert(out@ + digits(rest as nat / 256, (n - i - 1) as nat) =~= before + digits(
                rest as nat,
                (n - i) as nat,
            ));
        }
        rest = rest / 256;
        i = i + 1;
    }
    assert(out@ =~= digits(x as nat, n as nat));
    match endian {
        Endian::Little => out,
        Endian::Big => reversed(&out),
    }
}

/// The bytes of `bytes`, last one first.
fn reversed(bytes: &Vec<u8>) -> (out: Vec<u8>)
    ensures
        out@ == bytes@.reverse(),
{
    let mut out: Vec<u8> = Vec::new();
    let mut left: usize = bytes.len();
    while left > 0
        invariant
            left <= bytes@.len(),
            out@ == bytes@.reverse().take(bytes@.len() - left),
        decreases left,
    {
        left = left - 1;
        out.push(bytes[left]);
        assert(out@ =~= bytes@.reverse().take(bytes@.len() - left));
    }
    assert(out@ =~= bytes@.reverse());
    out
}

/// Decodes an integer of at most eight bytes in byte order `endian`.
pub fn decode(endian: Endian, bytes: &[u8]) -> (x: u64)
    requires
        bytes@.len() <= 8,
    ensures
        x as nat == from_bytes(endian, bytes@),
{
    match endian {
        Endian::Little => decode_little(bytes),
        Endian::Big => decode_big(bytes),
    }
}

proof fn lemma_short_value_fits(s: Seq<u8>)
    requires
        s.len() <= 8,
    ensures
        value(s) <= u64::MAX,
{
    lemma_value_bound(s);
    reveal_with_fuel(span, 9);
}

fn decode_little(bytes: &[u8]) -> (x: u64)
    requires
        bytes@.len() <= 8,
    ensures
        x as nat == value(bytes@),
{
    let mut x: u64 = 0;
    let mut left: usize = bytes.len();
    while left > 0
        invariant
            left <= bytes@.len() <= 8,
            x as nat == value(bytes@.skip(left as int)),
        decreases left,
    {
        left = left - 1;
        proof {
            let s = bytes@.skip(left as int);
            assert(s.drop_first() =~= bytes@.skip(left + 1));
            lemma_short_value_fits(s);
        }
        x = x * 256 + bytes[left] as u64;
    }
    assert(bytes@.skip(0) =~= bytes@);
    x
}

fn decode_big(bytes: &[u8]) -> (x: u64)
    requires
        bytes@.len() <= 8,
    ensures
        x as nat == value(bytes@.reverse()),
{
    let mut x: u64 = 0;
    let mut done: usize = 0;
    assert(bytes@.take(0).reverse() =~= Seq::empty());
    while done < bytes.len()
        invariant
            done <= bytes@.len() <= 8,
            x as nat == value(bytes@.take(done as int).reverse()),
        decreases bytes@.len() - done,
    {
        proof {
            let s = bytes@.take(done + 1).reverse();
            assert(s.drop_first() =~= bytes@.take(done as int).reverse());
            lemma_short_value_fits(s);
        }
        x = x * 256 + bytes[done] as u64;
        done = done + 1;
    }
    assert(bytes@.take(bytes@.len() as int) =~= bytes@);
    x
}

/// `u32::to_ne_bytes`: the four bytes of `x` as this machine keeps them in memory, which is one
/// of the two byte orders. Which of the two is the machine's own affair and is left unsaid.
#[verifier::external_body]
fn u32_to_ne_bytes(x: u32) -> (bytes: [u8; 4])
    ensures
        bytes@ == to_bytes(Endian::Little, x as nat, 4) || bytes@ == to_bytes(
            Endian::Big,
            x as nat,
            4,
        ),
{
    x.to_ne_bytes()
}

/// The byte order of a machine that lays the number one out as `one`.
pub fn endian_of(one: [u8; 4]) -> (endian: Endian)
    requires
        one@ == to_bytes(Endian::Little, 1, 4) || one@ == to_bytes(Endian::Big, 1, 4),
    ensures
        one@ == to_bytes(endian, 1, 4),
{
    proof {
        reveal_with_fuel(digits, 5);
    }
    if one[0] == 1 {
        Endian::Little
    } else {
        Endian::Big
    }
}

/// Whether `bytes` is a layout of `x` in memory that `u32::to_ne_bytes` gives.
pub closed spec fn native_layout(x: u32, bytes: [u8; 4]) -> bool {
    call_ensures(u32_to_ne_bytes, (x,), bytes)
}

/// The layouts in memory of a number are what the machine lays out, and each is the number's
/// representation in one of the two byte orders.
proof fn law_native_layout_is_the_machines(x: u32, bytes: [u8; 4])
    ensures
        native_layout(x, bytes) <==> call_ensures(u32_to_ne_bytes, (x,), bytes),
        native_layout(x, bytes) ==> bytes@ == to_bytes(Endian::Little, x as nat, 4) || bytes@
            == to_bytes(Endian::Big, x as nat, 4),
{
}

/// The result of `layout` on `x`.
fn lay_out(layout: impl Fn(u32) -> [u8; 4], x: u32) -> (bytes: [u8; 4])
    requires
        call_requires(layout, (x,)),
    ensures
        call_ensures(layout, (x,), bytes),
{
    layout(x)
}

/// The byte order of this machine: the one in which `u32::to_ne_bytes` lays the number one out.
/// Both orders are possible, so nothing is promised of which.
pub fn native_endian() -> (endian: Endian)
    ensures
        exists|one: [u8; 4]| #[trigger] native_layout(1, one) && one@ == to_bytes(endian, 1, 4),
{
    let one: [u8; 4] = lay_out(u32_to_ne_bytes, 1);
    assert(native_layout(1, one));
    endian_of(one)
}

} // verus!
