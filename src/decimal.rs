use vstd::prelude::*;
use vstd::string::axiom_spec_iter;
use vstd::std_specs::iter::IteratorSpec;

verus! {

broadcast use vstd::string::next_postcondition;

pub open spec fn is_ascii_digit(c: char) -> bool {
    '0' <= c && c <= '9'
}

pub open spec fn all_digits(s: Seq<char>) -> bool {
    forall|i: int| 0 <= i < s.len() ==> is_ascii_digit(#[trigger] s[i])
}

/// The number that a string of ASCII digits writes in base ten.
pub open spec fn digits_value(s: Seq<char>) -> int
    decreases s.len(),
{
    if s.len() == 0 {
        0
    } else {
        10 * digits_value(s.drop_last()) + (s.last() as int - '0' as int)
    }
}

/// The `i64` that `s` writes in base ten: one or more ASCII digits whose
/// value fits.
pub open spec fn decimal_spec(s: Seq<char>) -> Option<i64> {
    if s.len() > 0 && all_digits(s) && digits_value(s) <= i64::MAX {
        Some(digits_value(s) as i64)
    } else {
        None
    }
}

proof fn lemma_digits_nonneg(s: Seq<char>)
    requires
        all_digits(s),
    ensures
        digits_value(s) >= 0,
    decreases s.len(),
{
    if s.len() > 0 {
        assert(all_digits(s.drop_last())) by {
            assert forall|i: int| 0 <= i < s.drop_last().len() implies is_ascii_digit(
                #[trigger] s.drop_last()[i],
            ) by {
                assert(s.drop_last()[i] == s[i]);
            }
        }
        lemma_digits_nonneg(s.drop_last());
        assert(is_ascii_digit(s[s.len() - 1]));
    }
}

/// Reads an unsigned decimal number that fits in an `i64`.
pub fn parse_decimal(s: &str) -> (r: Option<i64>)
    ensures
        r == decimal_spec(s@),
{
    proof {
        axiom_spec_iter(s);
    }
    let mut it = s.chars();
    let ghost done: Seq<char> = Seq::empty();
    let mut acc: i64 = 0;
    let mut over = false;
    let mut ok = true;
    let mut any = false;
    loop
        invariant
            done + it.remaining() == s@,
            it.obeys_prophetic_iter_laws(),
            it.decrease() is Some,
            ok == all_digits(done),
            any == (done.len() > 0),
            ok ==> (over <==> digits_value(done) > i64::MAX),
            ok && !over ==> acc == digits_value(done),
        ensures
            done == s@,
            ok == all_digits(done),
            any == (done.len() > 0),
            ok ==> (over <==> digits_value(done) > i64::MAX),
            ok && !over ==> acc == digits_value(done),
        decreases it.decrease()->0,
    {
        let ghost before = it.remaining();
        match it.next() {
            None => {
                proof {
                    assert(done =~= s@);
                }
                break;
            },
            Some(c) => {
                proof {
                    assert(before[0] == c);
                    assert(done.push(c) + it.remaining() =~= s@);
                    assert(done.push(c).drop_last() =~= done);
                }
                if ok && '0' <= c && c <= '9' {
                    let d = (c as u32 - '0' as u32) as i64;
                    proof {
                        assert(all_digits(done.push(c))) by {
                            assert forall|i: int| 0 <= i < done.push(c).len() implies is_ascii_digit(
                                #[trigger] done.push(c)[i],
                            ) by {
                                if i < done.len() {
                                    assert(done.push(c)[i] == done[i]);
                                }
                            }
                        }
                        lemma_digits_nonneg(done);
                    }
                    if !over {
                        if acc > (i64::MAX - d) / 10 {
                            over = true;
                        } else {
                            acc = acc * 10 + d;
                        }
                    }
                } else {
                    proof {
                        if ok {
                            assert(!is_ascii_digit(done.push(c)[done.len() as int]));
                        } else {
                            assert(!all_digits(done.push(c))) by {
                                let i = choose|i: int| 0 <= i < done.len() && !is_ascii_digit(done[i]);
                                assert(done.push(c)[i] == done[i]);
                            }
                        }
                    }
                    ok = false;
                }
                any = true;
                proof {
                    done = done.push(c);
                }
            },
        }
    }
    if ok && !over && any {
        Some(acc)
    } else {
        None
    }
}

} // verus!
