//! Identifiers for new tasks: decimal numbers that one source never repeats.

use crate::clock::{decimal_digits, decimal_string, digit_char, lemma_decimal_injective, Timestamp};
use vstd::prelude::*;
use vstd::string::*;

verus! {

/// Ten to the power `k`.
pub open spec fn pow10(k: nat) -> nat
    decreases k,
{
    if k == 0 {
        1
    } else {
        10 * pow10((k - 1) as nat)
    }
}

/// `k` times the digit zero.
pub open spec fn zeros(k: nat) -> Seq<char> {
    Seq::new(k, |i: int| '0')
}

/// The number of the next identifier, after `last` and at the second `secs`:
/// the second itself where it lies beyond every number issued, else the
/// number after the last one. Beyond what sixty-four bits hold the numbers go
/// on in steps of ten times the last.
pub open spec fn next_number(last: Option<nat>, secs: nat) -> nat {
    match last {
        None => secs,
        Some(issued) => if issued < u64::MAX {
            if secs > issued {
                secs
            } else {
                issued + 1
            }
        } else {
            10 * issued
        },
    }
}

/// Every next number lies beyond the last.
pub proof fn lemma_next_number_grows(issued: nat, secs: nat)
    ensures
        next_number(Some(issued), secs) > issued,
{
}

/// A power of ten is at least one, so a number times it is no smaller.
pub proof fn lemma_pow10_scales(n: nat, k: nat)
    ensures
        pow10(k) >= 1,
        n * pow10(k) >= n,
        k == 0 ==> n * pow10(k) == n,
    decreases k,
{
    if k > 0 {
        lemma_pow10_scales(n, (k - 1) as nat);
    }
    assert(n * pow10(k) >= n) by (nonlinear_arith)
        requires
            pow10(k) >= 1,
    ;
    if k == 0 {
        assert(n * pow10(k) == n) by (nonlinear_arith)
            requires
                pow10(k) == 1,
        ;
    }
}

/// A number times a power of ten is written as the number followed by zeros.
pub proof fn lemma_padded_decimal(n: nat, k: nat)
    requires
        n >= 1,
    ensures
        n * pow10(k) >= 1,
        decimal_digits(n * pow10(k)) == decimal_digits(n) + zeros(k),
    decreases k,
{
    if k == 0 {
        assert(n * pow10(0) == n) by (nonlinear_arith)
            requires
                pow10(0) == 1,
        ;
        assert(decimal_digits(n) + zeros(0) =~= decimal_digits(n));
    } else {
        let m = n * pow10((k - 1) as nat);
        lemma_padded_decimal(n, (k - 1) as nat);
        assert(n * pow10(k) == 10 * m) by (nonlinear_arith)
            requires
                pow10(k) == 10 * pow10((k - 1) as nat),
                m == n * pow10((k - 1) as nat),
        ;
        assert((10 * m) / 10 == m);
        assert((10 * m) % 10 == 0);
        assert(digit_char(0) == '0');
        assert(decimal_digits(10 * m) == decimal_digits(m).push('0'));
        assert((decimal_digits(n) + zeros((k - 1) as nat)).push('0') =~= decimal_digits(n) + zeros(
            k,
        ));
    }
}

/// A source of identifiers. It remembers the last number it issued and never
/// issues that number, or a smaller one, again. One source serves a whole
/// process; the identifiers of two sources may coincide.
pub struct IdSource {
    last: Option<u64>,
    pad: String,
}

impl IdSource {
    #[verifier::type_invariant]
    spec fn well_formed(self) -> bool {
        &&& self.pad@ == zeros(self.pad@.len())
        &&& self.pad@.len() > 0 ==> self.last == Some(u64::MAX)
    }

    /// The last number issued, if any was.
    pub closed spec fn issued(self) -> Option<nat> {
        match self.last {
            None => None,
            Some(last) => Some((last * pow10(self.pad@.len())) as nat),
        }
    }

    /// Whether the source may have issued the identifier `id`: whether it is
    /// the decimal of a number up to the last one issued. The source issues
    /// no such identifier again.
    pub open spec fn may_have_issued(self, id: Seq<char>) -> bool {
        exists|n: nat|
            self.issued() matches Some(last) && n <= last && id == #[trigger] decimal_digits(n)
    }

    /// A source that has issued nothing yet.
    pub fn new() -> (ids: IdSource)
        ensures
            ids.issued() is None,
    {
        let pad = String::new();
        assert(pad@ =~= zeros(0));
        IdSource { last: None, pad }
    }

    /// Issues the identifier for a task created at the instant `now`: the
    /// decimal of the next number. It differs from every identifier that the
    /// source has issued before.
    pub fn next_id(&mut self, now: Timestamp) -> (id: String)
        ensures
            final(self).issued() == Some(next_number(old(self).issued(), now.secs as nat)),
            id@ == decimal_digits(next_number(old(self).issued(), now.secs as nat)),
            !old(self).may_have_issued(id@),
            final(self).may_have_issued(id@),
            forall|earlier: Seq<char>|
                old(self).may_have_issued(earlier) ==> #[trigger] final(self).may_have_issued(earlier),
    {
        proof {
            use_type_invariant(&*self);
        }
        let ghost before = old(self).issued();
        let ghost number = next_number(before, now.secs as nat);
        proof {
            lemma_pow10_scales(now.secs as nat, self.pad@.len());
            if self.last is Some {
                lemma_pow10_scales(self.last->0 as nat, self.pad@.len());
            }
        }
        let id = match self.last {
            None => {
                self.last = Some(now.secs);
                assert(self.issued() == Some(number));
                decimal_string(now.secs)
            },
            Some(last) => {
                if last < u64::MAX {
                    let next = if now.secs > last {
                        now.secs
                    } else {
                        last + 1
                    };
                    proof {
                        lemma_pow10_scales(next as nat, 0);
                    }
                    self.last = Some(next);
                    assert(self.issued() == Some(number));
                    decimal_string(next)
                } else {
                    let ghost k = self.pad@.len();
                    proof {
                        reveal_strlit("0");
                        lemma_padded_decimal(last as nat, k);
                        lemma_padded_decimal(last as nat, k + 1);
                        assert(last * pow10(k + 1) == 10 * (last * pow10(k))) by (nonlinear_arith)
                            requires
                                pow10(k + 1) == 10 * pow10(k),
                        ;
                    }
                    let padded = self.pad.clone().concat("0");
                    assert(padded@ =~= zeros(k + 1));
                    self.pad = padded;
                    assert(self.issued() == Some(number));
                    decimal_string(last).concat(self.pad.as_str())
                }
            },
        };
        proof {
            assert(self.issued() == Some(number));
            assert(id@ == decimal_digits(number));
            if before is Some {
                lemma_next_number_grows(before->0, now.secs as nat);
            }
            assert(!old(self).may_have_issued(id@)) by {
                if old(self).may_have_issued(id@) {
                    let n = choose|n: nat|
                        before matches Some(last) && n <= last && id@ == #[trigger] decimal_digits(
                            n,
                        );
                    lemma_decimal_injective(n, number);
                }
            }
            assert forall|earlier: Seq<char>| old(self).may_have_issued(earlier) implies #[trigger] self.may_have_issued(
                earlier,
            ) by {
                let n = choose|n: nat|
                    before matches Some(last) && n <= last && earlier == #[trigger] decimal_digits(
                        n,
                    );
                assert(n <= number);
            }
        }
        id
    }
}

} // verus!
