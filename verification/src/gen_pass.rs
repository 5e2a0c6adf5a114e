//! Random passwords over a mixed alphabet from which look-alike characters
//! (`I`, `O`, `l`, `0`) are left out.
//!
//! The random choices come from a `RandomSource` that the caller may pass:
//! `ThreadRandom` is the one of the `rand` crate, and a caller that needs
//! the same password twice passes a source of its own.
use vstd::prelude::*;
use vstd::utf8::*;
use vstd::string::*;
use rand::seq::SliceRandom;
use crate::bytes::{lemma_ascii_bytes_are_text, text_of_bytes};

verus! {

broadcast use vstd::seq_lib::group_to_multiset_ensures;

/// An upper-case letter of the alphabet: `A` to `Z` without `I` and `O`.
pub open spec fn is_upper(b: u8) -> bool {
    65 <= b <= 90 && b != 73 && b != 79
}

/// A lower-case letter of the alphabet: `a` to `z` without `l`.
pub open spec fn is_lower(b: u8) -> bool {
    97 <= b <= 122 && b != 108
}

/// A digit of the alphabet: `1` to `9`.
pub open spec fn is_number(b: u8) -> bool {
    49 <= b <= 57
}

/// A symbol of the alphabet: one of `!@#$%^&*_`.
pub open spec fn is_symbol(b: u8) -> bool {
    b == 33 || b == 64 || b == 35 || b == 36 || b == 37 || b == 94 || b == 38 || b == 42 || b
        == 95
}

/// Whether `b` belongs to one of the classes that were asked for.
pub open spec fn allowed(b: u8, upper: bool, lower: bool, number: bool, symbol: bool) -> bool {
    (upper && is_upper(b)) || (lower && is_lower(b)) || (number && is_number(b)) || (symbol
        && is_symbol(b))
}

/// How many classes were asked for.
pub open spec fn class_count(upper: bool, lower: bool, number: bool, symbol: bool) -> int {
    (if upper { 1int } else { 0 }) + (if lower { 1int } else { 0 }) + (if number { 1int } else { 0 })
        + (if symbol { 1int } else { 0 })
}

/// A request can be served when the password has room for one character of
/// each class asked for, and asks for no character when no class is chosen.
pub open spec fn request_ok(length: int, upper: bool, lower: bool, number: bool, symbol: bool) -> bool {
    class_count(upper, lower, number, symbol) <= length && (class_count(
        upper,
        lower,
        number,
        symbol,
    ) == 0 ==> length == 0)
}

/// What a generated password is: `length` bytes, each from a class asked
/// for, and at least one from every class asked for.
pub open spec fn is_password(
    p: Seq<u8>,
    length: int,
    upper: bool,
    lower: bool,
    number: bool,
    symbol: bool,
) -> bool {
    &&& p.len() == length
    &&& forall|i: int| 0 <= i < p.len() ==> allowed(#[trigger] p[i], upper, lower, number, symbol)
    &&& upper ==> exists|i: int| 0 <= i < p.len() && is_upper(#[trigger] p[i])
    &&& lower ==> exists|i: int| 0 <= i < p.len() && is_lower(#[trigger] p[i])
    &&& number ==> exists|i: int| 0 <= i < p.len() && is_number(#[trigger] p[i])
    &&& symbol ==> exists|i: int| 0 <= i < p.len() && is_symbol(#[trigger] p[i])
}

/// Whether a switch reads `true`, in any mix of upper and lower case.
pub open spec fn flag_enabled(s: Seq<char>) -> bool {
    &&& s.len() == 4
    &&& (s[0] == 't' || s[0] == 'T')
    &&& (s[1] == 'r' || s[1] == 'R')
    &&& (s[2] == 'u' || s[2] == 'U')
    &&& (s[3] == 'e' || s[3] == 'E')
}

/// Decides whether a switch reads `true`, ignoring ASCII case.
pub fn is_enabled(flag: &str) -> (r: bool)
    ensures
        r == flag_enabled(flag@),
{
    if !flag.is_ascii() {
        return false;
    }
    if flag.unicode_len() != 4 {
        return false;
    }
    let b0: u8 = flag.get_ascii(0);
    let b1: u8 = flag.get_ascii(1);
    let b2: u8 = flag.get_ascii(2);
    let b3: u8 = flag.get_ascii(3);
    (b0 == 116 || b0 == 84) && (b1 == 114 || b1 == 82) && (b2 == 117 || b2 == 85) && (b3 == 101
        || b3 == 69)
}

/// `SliceRandom::choose` of rand on a non-empty slice, with the thread's
/// generator: the byte returned is one of the slice. Which one is left open.
#[verifier::external_body]
fn choose_byte(pool: &[u8]) -> (b: u8)
    requires
        pool@.len() > 0,
    ensures
        pool@.contains(b),
{
    *pool.choose(&mut rand::thread_rng()).expect("the pool is not empty")
}

/// `SliceRandom::shuffle` of rand, with the thread's generator: the bytes are
/// rearranged in place, none added and none lost. The order is left open.
#[verifier::external_body]
fn shuffle_bytes(v: &mut Vec<u8>)
    ensures
        final(v)@.to_multiset() == old(v)@.to_multiset(),
{
    v.shuffle(&mut rand::thread_rng());
}

/// A source of random choices.
pub trait RandomSource {
    /// Picks one byte of a pool that is not empty.
    fn pick(&mut self, pool: &[u8]) -> (b: u8)
        requires
            pool@.len() > 0,
        ensures
            pool@.contains(b),
    ;

    /// Rearranges the bytes in place: none is added and none is lost.
    fn shuffle(&mut self, bytes: &mut Vec<u8>)
        ensures
            final(bytes)@.to_multiset() == old(bytes)@.to_multiset(),
    ;
}

/// The random source of the `rand` crate: the generator of the calling
/// thread.
pub struct ThreadRandom;

impl RandomSource for ThreadRandom {
    fn pick(&mut self, pool: &[u8]) -> (b: u8) {
        choose_byte(pool)
    }

    fn shuffle(&mut self, bytes: &mut Vec<u8>) {
        shuffle_bytes(bytes)
    }
}

fn upper_pool() -> (r: Vec<u8>)
    ensures
        r@.len() == 24,
        forall|i: int| 0 <= i < r@.len() ==> is_upper(#[trigger] r@[i]),
{
    vec![65u8, 66, 67, 68, 69, 70, 71, 72, 74, 75, 76, 77, 78, 80, 81, 82, 83, 84, 85, 86, 87, 88, 89, 90]
}

fn lower_pool() -> (r: Vec<u8>)
    ensures
        r@.len() == 25,
        forall|i: int| 0 <= i < r@.len() ==> is_lower(#[trigger] r@[i]),
{
    vec![97u8, 98, 99, 100, 101, 102, 103, 104, 105, 106, 107, 109, 110, 111, 112, 113, 114, 115, 116, 117, 118, 119, 120, 121, 122]
}

fn number_pool() -> (r: Vec<u8>)
    ensures
        r@.len() == 9,
        forall|i: int| 0 <= i < r@.len() ==> is_number(#[trigger] r@[i]),
{
    vec![49u8, 50, 51, 52, 53, 54, 55, 56, 57]
}

fn symbol_pool() -> (r: Vec<u8>)
    ensures
        r@.len() == 9,
        forall|i: int| 0 <= i < r@.len() ==> is_symbol(#[trigger] r@[i]),
{
    vec![33u8, 64, 35, 36, 37, 94, 38, 42, 95]
}

/// Generates the bytes of a password with the thread's random generator.
pub fn generate_password_bytes(
    length: u8,
    upper: bool,
    lower: bool,
    number: bool,
    symbol: bool,
) -> (r: Vec<u8>)
    requires
        request_ok(length as int, upper, lower, number, symbol),
    ensures
        is_password(r@, length as int, upper, lower, number, symbol),
{
    let mut rng = ThreadRandom;
    generate_password_with(&mut rng, length, upper, lower, number, symbol)
}

/// Generates the bytes of a password: one character of each class asked
/// for, in the order upper case, lower case, digit, symbol, then the rest
/// drawn from all those classes together, then all of it shuffled.
pub fn generate_password_with<R: RandomSource>(
    rng: &mut R,
    length: u8,
    upper: bool,
    lower: bool,
    number: bool,
    symbol: bool,
) -> (r: Vec<u8>)
    requires
        request_ok(length as int, upper, lower, number, symbol),
    ensures
        is_password(r@, length as int, upper, lower, number, symbol),
{
    let mut password: Vec<u8> = Vec::new();
    let mut chars: Vec<u8> = Vec::new();
    let ghost mut at_upper: int = 0;
    let ghost mut at_lower: int = 0;
    let ghost mut at_number: int = 0;
    let ghost mut at_symbol: int = 0;

    if upper {
        let pool = upper_pool();
        chars.extend_from_slice(pool.as_slice());
        let b = rng.pick(pool.as_slice());
        proof {
            at_upper = password@.len() as int;
        }
        password.push(b);
    }
    if lower {
        let pool = lower_pool();
        chars.extend_from_slice(pool.as_slice());
        let b = rng.pick(pool.as_slice());
        proof {
            at_lower = password@.len() as int;
        }
        password.push(b);
    }
    if number {
        let pool = number_pool();
        chars.extend_from_slice(pool.as_slice());
        let b = rng.pick(pool.as_slice());
        proof {
            at_number = password@.len() as int;
        }
        password.push(b);
    }
    if symbol {
        let pool = symbol_pool();
        chars.extend_from_slice(pool.as_slice());
        let b = rng.pick(pool.as_slice());
        proof {
            at_symbol = password@.len() as int;
        }
        password.push(b);
    }
    while password.len() < length as usize
        invariant
            password@.len() <= length,
            class_count(upper, lower, number, symbol) > 0 ==> chars@.len() > 0,
            class_count(upper, lower, number, symbol) == 0 ==> length == 0,
            forall|i: int|
                0 <= i < chars@.len() ==> allowed(#[trigger] chars@[i], upper, lower, number, symbol),
            forall|i: int|
                0 <= i < password@.len() ==> allowed(
                    #[trigger] password@[i],
                    upper,
                    lower,
                    number,
                    symbol,
                ),
            upper ==> 0 <= at_upper < password@.len() && is_upper(password@[at_upper]),
            lower ==> 0 <= at_lower < password@.len() && is_lower(password@[at_lower]),
            number ==> 0 <= at_number < password@.len() && is_number(password@[at_number]),
            symbol ==> 0 <= at_symbol < password@.len() && is_symbol(password@[at_symbol]),
        decreases length - password@.len(),
    {
        let b = rng.pick(chars.as_slice());
        password.push(b);
    }

    let ghost before = password@;
    rng.shuffle(&mut password);
    proof {
        lemma_rearranged_password(before, password@, length as int, upper, lower, number, symbol);
    }
    password
}

/// Two sequences with the same multiset of items have the same members.
pub proof fn lemma_same_members(p: Seq<u8>, q: Seq<u8>, x: u8)
    requires
        p.to_multiset() == q.to_multiset(),
        p.contains(x),
    ensures
        q.contains(x),
{
    p.to_multiset_ensures();
    q.to_multiset_ensures();
    assert(q.to_multiset().count(x) > 0);
}

/// A rearrangement of a password is a password for the same request.
pub proof fn lemma_rearranged_password(
    p: Seq<u8>,
    q: Seq<u8>,
    length: int,
    upper: bool,
    lower: bool,
    number: bool,
    symbol: bool,
)
    requires
        is_password(p, length, upper, lower, number, symbol),
        p.to_multiset() == q.to_multiset(),
    ensures
        is_password(q, length, upper, lower, number, symbol),
{
    p.to_multiset_ensures();
    q.to_multiset_ensures();
    assert forall|i: int| 0 <= i < q.len() implies allowed(
        #[trigger] q[i],
        upper,
        lower,
        number,
        symbol,
    ) by {
        lemma_same_members(q, p, q[i]);
    }
    if upper {
        let i = choose|i: int| 0 <= i < p.len() && is_upper(#[trigger] p[i]);
        lemma_same_members(p, q, p[i]);
    }
    if lower {
        let i = choose|i: int| 0 <= i < p.len() && is_lower(#[trigger] p[i]);
        lemma_same_members(p, q, p[i]);
    }
    if number {
        let i = choose|i: int| 0 <= i < p.len() && is_number(#[trigger] p[i]);
        lemma_same_members(p, q, p[i]);
    }
    if symbol {
        let i = choose|i: int| 0 <= i < p.len() && is_symbol(#[trigger] p[i]);
        lemma_same_members(p, q, p[i]);
    }
}

/// Generates a password of `length` characters.
///
/// Each switch is on when it reads `true` in any case. The password holds at
/// least one character of every class switched on and none of any other; it
/// is ASCII, so its characters are its bytes.
pub fn process_genpass(
    length: u8,
    uppercase: String,
    lowercase: String,
    number: String,
    symbol: String,
) -> (r: String)
    requires
        request_ok(
            length as int,
            flag_enabled(uppercase@),
            flag_enabled(lowercase@),
            flag_enabled(number@),
            flag_enabled(symbol@),
        ),
    ensures
        r@.len() == length,
        is_password(
            encode_utf8(r@),
            length as int,
            flag_enabled(uppercase@),
            flag_enabled(lowercase@),
            flag_enabled(number@),
            flag_enabled(symbol@),
        ),
{
    let upper = is_enabled(uppercase.as_str());
    let lower = is_enabled(lowercase.as_str());
    let digits = is_enabled(number.as_str());
    let symbols = is_enabled(symbol.as_str());
    let bytes = generate_password_bytes(length, upper, lower, digits, symbols);
    proof {
        lemma_ascii_bytes_are_text(bytes@);
    }
    match text_of_bytes(bytes) {
        Some(s) => s,
        None => String::new(),
    }
}

} // verus!
