//! Widget identifier allocation.
//!
//! A widget either carries a caller-supplied identifier or gets a generated
//! one: a kind-specific prefix followed by the decimal digits of a fresh
//! serial from the allocator. The decimal rendering is proved injective, so
//! generated identifiers with one prefix never collide.

use vstd::prelude::*;
use vstd::string::StringExecFns;

verus! {

/// The decimal digit character for `d` (with `0 <= d < 10`).
pub open spec fn digit_char(d: int) -> char {
    if d == 0 {
        '0'
    } else if d == 1 {
        '1'
    } else if d == 2 {
        '2'
    } else if d == 3 {
        '3'
    } else if d == 4 {
        '4'
    } else if d == 5 {
        '5'
    } else if d == 6 {
        '6'
    } else if d == 7 {
        '7'
    } else if d == 8 {
        '8'
    } else {
        '9'
    }
}

/// The decimal rendering of `n`, most significant digit first, no leading
/// zeros (except for `n == 0` itself).
pub open spec fn dec_rep(n: nat) -> Seq<char>
    decreases n,
{
    if n < 10 {
        seq![digit_char(n as int)]
    } else {
        dec_rep(n / 10) + seq![digit_char((n % 10) as int)]
    }
}

/// The identifier generated for serial `n` under `prefix`.
pub open spec fn auto_id(prefix: Seq<char>, n: nat) -> Seq<char> {
    prefix + dec_rep(n)
}

/// Process-wide counter handing out fresh serials for generated identifiers.
/// The host keeps a single instance for the whole run; the UI work is
/// single-threaded, so plain mutable state suffices.
pub struct IdAllocator {
    pub counter: u64,
}

impl IdAllocator {
    /// A fresh allocator, starting at the base serial.
    pub fn new() -> (a: Self)
        ensures
            a.counter == 0,
    {
        IdAllocator { counter: 0 }
    }

    /// Hand out the next serial; strictly increasing over the allocator's
    /// lifetime, so no serial is ever handed out twice.
    pub fn next_id(&mut self) -> (n: u64)
        requires
            old(self).counter < u64::MAX,
        ensures
            n == old(self).counter,
            final(self).counter == old(self).counter + 1,
    {
        let n = self.counter;
        self.counter = self.counter + 1;
        n
    }
}

fn append_digit(s: &mut String, d: u64)
    requires
        d < 10,
    ensures
        final(s)@ == old(s)@ + seq![digit_char(d as int)],
{
    let digit: &str = match d {
        0 => "0",
        1 => "1",
        2 => "2",
        3 => "3",
        4 => "4",
        5 => "5",
        6 => "6",
        7 => "7",
        8 => "8",
        _ => "9",
    };
    proof {
        reveal_strlit("0");
        reveal_strlit("1");
        reveal_strlit("2");
        reveal_strlit("3");
        reveal_strlit("4");
        reveal_strlit("5");
        reveal_strlit("6");
        reveal_strlit("7");
        reveal_strlit("8");
        reveal_strlit("9");
        assert(digit@ =~= seq![digit_char(d as int)]);
    }
    s.append(digit);
}

fn push_dec(s: &mut String, n: u64)
    ensures
        final(s)@ == old(s)@ + dec_rep(n as nat),
    decreases n,
{
    if n >= 10 {
        push_dec(s, n / 10);
    }
    append_digit(s, n % 10);
    proof {
        assert(final(s)@ =~= old(s)@ + dec_rep(n as nat));
    }
}

/// The decimal rendering of `n` as an owned string.
pub fn u64_to_dec(n: u64) -> (s: String)
    ensures
        s@ == dec_rep(n as nat),
{
    let mut s = String::new();
    push_dec(&mut s, n);
    proof {
        assert(s@ =~= dec_rep(n as nat));
    }
    s
}

/// Resolve a widget identifier: the caller-supplied one when present,
/// otherwise `prefix` followed by a fresh serial from `alloc`.
pub fn resolve_id(prefix: &str, explicit: &Option<String>, alloc: &mut IdAllocator) -> (id: String)
    requires
        (*explicit) is None ==> old(alloc).counter < u64::MAX,
    ensures
        (*explicit) matches Some(e) ==> id@ == e@ && *final(alloc) == *old(alloc),
        (*explicit) is None ==> id@ == auto_id(prefix@, old(alloc).counter as nat)
            && final(alloc).counter == old(alloc).counter + 1,
{
    match explicit {
        Some(e) => e.clone(),
        None => {
            let n = alloc.next_id();
            let mut id = prefix.to_owned();
            push_dec(&mut id, n);
            id
        },
    }
}

proof fn lemma_digit_char_injective(a: int, b: int)
    requires
        0 <= a < 10,
        0 <= b < 10,
        digit_char(a) == digit_char(b),
    ensures
        a == b,
{
}

proof fn lemma_dec_rep_nonempty(n: nat)
    ensures
        dec_rep(n).len() >= 1,
    decreases n,
{
    if n >= 10 {
        lemma_dec_rep_nonempty(n / 10);
    }
}

/// Decimal renderings of distinct numbers are distinct.
pub proof fn lemma_dec_rep_injective(a: nat, b: nat)
    requires
        dec_rep(a) == dec_rep(b),
    ensures
        a == b,
    decreases a + b,
{
    if a < 10 && b < 10 {
        assert(dec_rep(a) == seq![digit_char(a as int)]);
        assert(dec_rep(b) == seq![digit_char(b as int)]);
        assert(seq![digit_char(a as int)][0] == digit_char(a as int));
        assert(seq![digit_char(b as int)][0] == digit_char(b as int));
        lemma_digit_char_injective(a as int, b as int);
    } else if a < 10 {
        lemma_dec_rep_nonempty(b / 10);
        assert(dec_rep(b).len() >= 2);
    } else if b < 10 {
        lemma_dec_rep_nonempty(a / 10);
        assert(dec_rep(a).len() >= 2);
    } else {
        let la = dec_rep(a).len();
        assert(dec_rep(a).last() == digit_char((a % 10) as int));
        assert(dec_rep(b).last() == digit_char((b % 10) as int));
        lemma_digit_char_injective((a % 10) as int, (b % 10) as int);
        assert(dec_rep(a / 10) =~= dec_rep(a).subrange(0, la - 1));
        assert(dec_rep(b / 10) =~= dec_rep(b).subrange(0, la - 1));
        lemma_dec_rep_injective(a / 10, b / 10);
        assert(a == 10 * (a / 10) + a % 10) by {
            vstd::arithmetic::div_mod::lemma_fundamental_div_mod(a as int, 10);
        }
        assert(b == 10 * (b / 10) + b % 10) by {
            vstd::arithmetic::div_mod::lemma_fundamental_div_mod(b as int, 10);
        }
    }
}

/// Generated identifiers are unique: under one prefix, distinct serials give
/// distinct identifiers, so adapters of one kind constructed without an
/// explicit identifier never share one within a process run.
pub proof fn lemma_auto_id_injective(prefix: Seq<char>, a: nat, b: nat)
    requires
        a != b,
    ensures
        auto_id(prefix, a) != auto_id(prefix, b),
{
    if auto_id(prefix, a) == auto_id(prefix, b) {
        assert((prefix + dec_rep(a)).len() == prefix.len() + dec_rep(a).len());
        assert((prefix + dec_rep(b)).len() == prefix.len() + dec_rep(b).len());
        assert(dec_rep(a).len() == dec_rep(b).len());
        assert(dec_rep(a) =~= dec_rep(b)) by {
            assert forall|i: int| 0 <= i < dec_rep(a).len() implies dec_rep(a)[i] == dec_rep(
                b,
            )[i] by {
                assert(auto_id(prefix, a)[prefix.len() + i] == dec_rep(a)[i]);
                assert(auto_id(prefix, b)[prefix.len() + i] == dec_rep(b)[i]);
            }
        }
        lemma_dec_rep_injective(a, b);
    }
}

} // verus!
