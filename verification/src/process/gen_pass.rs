use vstd::prelude::*;

verus! {

// ============================================================================
// Random password generation.
//
// A password of a requested length is drawn from the union of the selected
// character classes, with at least one character of every selected class.
// Look-alike characters (I, O, l, 0) are left out of the classes.  The
// keyed-hash key generator uses a 32-character password as key material.
// ============================================================================

/// Upper-case class: `A`-`Z` without the look-alikes `I` and `O`.
pub open spec fn is_upper_char(b: u8) -> bool {
    65 <= b && b <= 90 && b != 73 && b != 79
}

/// Lower-case class: `a`-`z` without the look-alike `l`.
pub open spec fn is_lower_char(b: u8) -> bool {
    97 <= b && b <= 122 && b != 108
}

/// Digit class: `1`-`9` (no look-alike `0`).
pub open spec fn is_number_char(b: u8) -> bool {
    49 <= b && b <= 57
}

/// Symbol class: `!@#$%^&*()_-=[]{}:,.<>?`.
pub open spec fn is_symbol_char(b: u8) -> bool {
    ||| b == 33
    ||| b == 64
    ||| b == 35
    ||| b == 36
    ||| b == 37
    ||| b == 94
    ||| b == 38
    ||| b == 42
    ||| b == 40
    ||| b == 41
    ||| b == 95
    ||| b == 45
    ||| b == 61
    ||| b == 91
    ||| b == 93
    ||| b == 123
    ||| b == 125
    ||| b == 58
    ||| b == 44
    ||| b == 46
    ||| b == 60
    ||| b == 62
    ||| b == 63
}

/// Membership in the union of the selected classes.
pub open spec fn in_charset(b: u8, upper: bool, lower: bool, number: bool, symbol: bool) -> bool {
    ||| (upper && is_upper_char(b))
    ||| (lower && is_lower_char(b))
    ||| (number && is_number_char(b))
    ||| (symbol && is_symbol_char(b))
}

/// Some character of the password is upper-case.
pub open spec fn has_upper(p: Seq<u8>) -> bool {
    exists|i: int| 0 <= i < p.len() && is_upper_char(p[i])
}

/// Some character of the password is lower-case.
pub open spec fn has_lower(p: Seq<u8>) -> bool {
    exists|i: int| 0 <= i < p.len() && is_lower_char(p[i])
}

/// Some character of the password is a digit.
pub open spec fn has_number(p: Seq<u8>) -> bool {
    exists|i: int| 0 <= i < p.len() && is_number_char(p[i])
}

/// Some character of the password is a symbol.
pub open spec fn has_symbol(p: Seq<u8>) -> bool {
    exists|i: int| 0 <= i < p.len() && is_symbol_char(p[i])
}

#[verifier::external_type_specification]
#[verifier::external_body]
pub struct ExThreadRng(rand::rngs::ThreadRng);

/// Relies on rand's thread_rng: a lazily seeded thread-local CSPRNG, taken
/// as a scoped resource for one generate call.
#[verifier::external_body]
fn new_rng() -> rand::rngs::ThreadRng {
    rand::thread_rng()
}

/// Relies on rand's SliceRandom::choose: some element of the slice, unless
/// it is empty; which one depends on the generator's state.
#[verifier::external_body]
fn choose_byte(rng: &mut rand::rngs::ThreadRng, s: &[u8]) -> (r: Option<u8>)
    ensures
        r is Some <==> s@.len() > 0,
        r matches Some(b) ==> s@.contains(b),
{
    rand::seq::SliceRandom::choose(s, rng).copied()
}

/// Relies on rand's SliceRandom::shuffle: a permutation of the same bytes.
#[verifier::external_body]
fn shuffle_bytes(rng: &mut rand::rngs::ThreadRng, v: &mut Vec<u8>)
    ensures
        final(v)@.to_multiset() == old(v)@.to_multiset(),
{
    rand::seq::SliceRandom::shuffle(v.as_mut_slice(), rng)
}

/// The upper-case class as a byte vector.
fn upper_chars() -> (r: Vec<u8>)
    ensures
        r@.len() > 0,
        forall|i: int| 0 <= i < r@.len() ==> is_upper_char(r@[i]),
{
    let mut r: Vec<u8> = Vec::new();
    let mut b: u8 = 65;
    while b <= 90
        invariant
            65 <= b <= 91,
            b > 65 ==> r@.len() > 0,
            forall|i: int| 0 <= i < r@.len() ==> is_upper_char(r@[i]),
        decreases 91 - b,
    {
        if b != 73 && b != 79 {
            r.push(b);
        }
        b = b + 1;
    }
    r
}

/// The lower-case class as a byte vector.
fn lower_chars() -> (r: Vec<u8>)
    ensures
        r@.len() > 0,
        forall|i: int| 0 <= i < r@.len() ==> is_lower_char(r@[i]),
{
    let mut r: Vec<u8> = Vec::new();
    let mut b: u8 = 97;
    while b <= 122
        invariant
            97 <= b <= 123,
            b > 97 ==> r@.len() > 0,
            forall|i: int| 0 <= i < r@.len() ==> is_lower_char(r@[i]),
        decreases 123 - b,
    {
        if b != 108 {
            r.push(b);
        }
        b = b + 1;
    }
    r
}

/// The digit class as a byte vector.
fn number_chars() -> (r: Vec<u8>)
    ensures
        r@.len() > 0,
        forall|i: int| 0 <= i < r@.len() ==> is_number_char(r@[i]),
{
    let mut r: Vec<u8> = Vec::new();
    let mut b: u8 = 49;
    while b <= 57
        invariant
            49 <= b <= 58,
            b > 49 ==> r@.len() > 0,
            forall|i: int| 0 <= i < r@.len() ==> is_number_char(r@[i]),
        decreases 58 - b,
    {
        r.push(b);
        b = b + 1;
    }
    r
}

/// The symbol class as a byte vector.
fn symbol_chars() -> (r: Vec<u8>)
    ensures
        r@.len() > 0,
        forall|i: int| 0 <= i < r@.len() ==> is_symbol_char(r@[i]),
{
    let mut r: Vec<u8> = Vec::new();
    r.push(33);
    r.push(64);
    r.push(35);
    r.push(36);
    r.push(37);
    r.push(94);
    r.push(38);
    r.push(42);
    r.push(40);
    r.push(41);
    r.push(95);
    r.push(45);
    r.push(61);
    r.push(91);
    r.push(93);
    r.push(123);
    r.push(125);
    r.push(58);
    r.push(44);
    r.push(46);
    r.push(60);
    r.push(62);
    r.push(63);
    r
}

/// Generate a random password of `length` bytes over the selected classes.
///
/// Every selected class contributes at least one character; all characters
/// come from the union of the selected classes.  Selecting no class at all
/// fails (unless the length is zero, when the password is empty).  The
/// requested length must leave room for one character per selected class.
#[verifier::rlimit(30)]
pub fn process_genpass(length: u8, upper: bool, lower: bool, number: bool, symbol: bool) -> (r:
    Result<Vec<u8>, &'static str>)
    requires
        length as int >= (if upper { 1int } else { 0int }) + (if lower { 1int } else { 0int }) + (
        if number { 1int } else { 0int }) + (if symbol { 1int } else { 0int }),
    ensures
        (r is Ok) <==> (upper || lower || number || symbol || length == 0),
        r matches Err(m) ==> m@ == "Invalid character set"@,
        r matches Ok(p) ==> p@.len() == length as int,
        r matches Ok(p) ==> forall|i: int|
            0 <= i < p@.len() ==> in_charset(p@[i], upper, lower, number, symbol),
        r matches Ok(p) ==> (upper ==> has_upper(p@)),
        r matches Ok(p) ==> (lower ==> has_lower(p@)),
        r matches Ok(p) ==> (number ==> has_number(p@)),
        r matches Ok(p) ==> (symbol ==> has_symbol(p@)),
{
    let mut rng = new_rng();
    let mut password: Vec<u8> = Vec::new();
    let mut chars: Vec<u8> = Vec::new();

    if upper {
        let mut set = upper_chars();
        match choose_byte(&mut rng, set.as_slice()) {
            Some(c) => {
                proof {
                    let j = choose|i: int| 0 <= i < set@.len() && set@[i] == c;
                    assert(is_upper_char(set@[j]));
                }
                let ghost pw0 = password@;
                password.push(c);
                proof {
                    assert(password@[pw0.len() as int] == c);
                }
            },
            None => {},
        }
        chars.append(&mut set);
    }

    if lower {
        let mut set = lower_chars();
        match choose_byte(&mut rng, set.as_slice()) {
            Some(c) => {
                proof {
                    let j = choose|i: int| 0 <= i < set@.len() && set@[i] == c;
                    assert(is_lower_char(set@[j]));
                }
                let ghost pw0 = password@;
                password.push(c);
                proof {
                    assert(password@[pw0.len() as int] == c);
                    assert(forall|i: int| 0 <= i < pw0.len() ==> password@[i] == pw0[i]);
                }
            },
            None => {},
        }
        chars.append(&mut set);
    }

    if number {
        let mut set = number_chars();
        match choose_byte(&mut rng, set.as_slice()) {
            Some(c) => {
                proof {
                    let j = choose|i: int| 0 <= i < set@.len() && set@[i] == c;
                    assert(is_number_char(set@[j]));
                }
                let ghost pw0 = password@;
                password.push(c);
                proof {
                    assert(password@[pw0.len() as int] == c);
                    assert(forall|i: int| 0 <= i < pw0.len() ==> password@[i] == pw0[i]);
                }
            },
            None => {},
        }
        chars.append(&mut set);
    }

    if symbol {
        let mut set = symbol_chars();
        match choose_byte(&mut rng, set.as_slice()) {
            Some(c) => {
                proof {
                    let j = choose|i: int| 0 <= i < set@.len() && set@[i] == c;
                    assert(is_symbol_char(set@[j]));
                }
                let ghost pw0 = password@;
                password.push(c);
                proof {
                    assert(password@[pw0.len() as int] == c);
                    assert(forall|i: int| 0 <= i < pw0.len() ==> password@[i] == pw0[i]);
                }
            },
            None => {},
        }
        chars.append(&mut set);
    }

    while password.len() < length as usize
        invariant
            password@.len() <= length as int,
            chars@.len() > 0 <==> (upper || lower || number || symbol),
            forall|i: int|
                0 <= i < chars@.len() ==> in_charset(chars@[i], upper, lower, number, symbol),
            forall|i: int|
                0 <= i < password@.len() ==> in_charset(
                    password@[i],
                    upper,
                    lower,
                    number,
                    symbol,
                ),
            upper ==> has_upper(password@),
            lower ==> has_lower(password@),
            number ==> has_number(password@),
            symbol ==> has_symbol(password@),
        decreases length as int - password@.len(),
    {
        match choose_byte(&mut rng, chars.as_slice()) {
            Some(c) => {
                proof {
                    let j = choose|i: int| 0 <= i < chars@.len() && chars@[i] == c;
                    assert(in_charset(chars@[j], upper, lower, number, symbol));
                }
                let ghost pw0 = password@;
                password.push(c);
                proof {
                    assert(password@[pw0.len() as int] == c);
                    assert(forall|i: int| 0 <= i < pw0.len() ==> password@[i] == pw0[i]);
                }
            },
            None => {
                return Err("Invalid character set");
            },
        }
    }

    let ghost before = password@;
    shuffle_bytes(&mut rng, &mut password);

    proof {
        broadcast use vstd::seq_lib::group_to_multiset_ensures;

        assert(password@.len() == password@.to_multiset().len());
        assert(before.len() == before.to_multiset().len());
        assert(password@.len() == length as int);
        assert forall|i: int|
            0 <= i < password@.len() implies in_charset(
            password@[i],
            upper,
            lower,
            number,
            symbol,
        ) by {
            let x = password@[i];
            assert(password@.contains(x));
            assert(before.to_multiset().count(x) > 0);
            assert(before.contains(x));
            let j = choose|j: int| 0 <= j < before.len() && before[j] == x;
            assert(in_charset(before[j], upper, lower, number, symbol));
        }
        if upper {
            let i0 = choose|i: int| 0 <= i < before.len() && is_upper_char(before[i]);
            assert(before.contains(before[i0]));
            assert(password@.to_multiset().count(before[i0]) > 0);
            assert(password@.contains(before[i0]));
            let k = choose|i: int| 0 <= i < password@.len() && password@[i] == before[i0];
            assert(is_upper_char(password@[k]));
            assert(has_upper(password@));
        }
        if lower {
            let i0 = choose|i: int| 0 <= i < before.len() && is_lower_char(before[i]);
            assert(before.contains(before[i0]));
            assert(password@.to_multiset().count(before[i0]) > 0);
            assert(password@.contains(before[i0]));
            let k = choose|i: int| 0 <= i < password@.len() && password@[i] == before[i0];
            assert(is_lower_char(password@[k]));
            assert(has_lower(password@));
        }
        if number {
            let i0 = choose|i: int| 0 <= i < before.len() && is_number_char(before[i]);
            assert(before.contains(before[i0]));
            assert(password@.to_multiset().count(before[i0]) > 0);
            assert(password@.contains(before[i0]));
            let k = choose|i: int| 0 <= i < password@.len() && password@[i] == before[i0];
            assert(is_number_char(password@[k]));
            assert(has_number(password@));
        }
        if symbol {
            let i0 = choose|i: int| 0 <= i < before.len() && is_symbol_char(before[i]);
            assert(before.contains(before[i0]));
            assert(password@.to_multiset().count(before[i0]) > 0);
            assert(password@.contains(before[i0]));
            let k = choose|i: int| 0 <= i < password@.len() && password@[i] == before[i0];
            assert(is_symbol_char(password@[k]));
            assert(has_symbol(password@));
        }
        if !(upper || lower || number || symbol) && password@.len() > 0 {
            assert(in_charset(password@[0], upper, lower, number, symbol));
            assert(false);
        }
    }

    Ok(password)
}

} // verus!
