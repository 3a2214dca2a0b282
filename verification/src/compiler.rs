//! Grammar compiler adapter: the `peg` crate translates grammar text into
//! generated Rust source. The compiler is opaque; the library knows that
//! whether a text is accepted, and which code it generates, are functions of
//! the text alone. The rendered message of a rejected text is not: its
//! expected-token set is walked in hash order, so nothing is claimed of it
//! beyond its presence.
//!
//! The compiler does not return on every text: its grammar parser unwraps
//! the integer conversion of a repeat bound and the code-point check of a
//! `\u{...}` escape, and aborts when either is out of range. The adapter
//! therefore has a supported domain, `peg_input_safe`: text with no long
//! digit run (a bound of ten or more digits can exceed a 32-bit `usize`) and
//! no well-formed `\u{...}` escape naming an invalid code point. The scan is
//! conservative — it reads the raw text, not the grammar's structure — so it
//! also refuses such fragments inside comments or quoted literals.

use vstd::prelude::*;

verus! {

/// An ASCII decimal digit.
pub open spec fn is_dec_digit(c: char) -> bool {
    48 <= c as int && c as int <= 57
}

/// Every position of `s` in `[start, end)` holds a decimal digit.
pub open spec fn all_dec_digits(s: Seq<char>, start: int, end: int) -> bool {
    forall|j: int| start <= j < end ==> is_dec_digit(s[j])
}

/// Ten or more consecutive decimal digits somewhere in `s`: a repeat bound
/// of that size can exceed the compiler's `usize` parsing.
pub open spec fn has_long_digit_run(s: Seq<char>) -> bool {
    exists|i: int| 0 <= i && i + 10 <= s.len() && #[trigger] all_dec_digits(s, i, i + 10)
}

/// An ASCII hexadecimal digit.
pub open spec fn is_hex_digit(c: char) -> bool {
    (48 <= c as int && c as int <= 57) || (97 <= c as int && c as int <= 102) || (65 <= c as int
        && c as int <= 70)
}

/// Every position of `s` in `[start, end)` holds a hexadecimal digit.
pub open spec fn all_hex_digits(s: Seq<char>, start: int, end: int) -> bool {
    forall|j: int| start <= j < end ==> is_hex_digit(s[j])
}

/// The numeric value of one hexadecimal digit.
pub open spec fn hex_digit_val(c: char) -> int {
    if 48 <= c as int && c as int <= 57 {
        c as int - 48
    } else if 97 <= c as int && c as int <= 102 {
        c as int - 87
    } else if 65 <= c as int && c as int <= 70 {
        c as int - 55
    } else {
        0
    }
}

/// The numeric value of a sequence of hexadecimal digits, most significant
/// first.
pub open spec fn hex_val(s: Seq<char>) -> int
    decreases s.len(),
{
    if s.len() == 0 {
        0
    } else {
        16 * hex_val(s.drop_last()) + hex_digit_val(s.last())
    }
}

/// A Unicode scalar value: what `char` can hold.
pub open spec fn is_scalar_value(v: int) -> bool {
    0 <= v && v <= 0x10FFFF && !(0xD800 <= v && v < 0xE000)
}

/// A hex run of `k` digits opening at the escape that starts at `i`, closed
/// by `}`, whose value is not a Unicode scalar value.
pub open spec fn bad_escape_body_at(s: Seq<char>, i: int, k: int) -> bool {
    &&& 1 <= k
    &&& i + 4 + k <= s.len()
    &&& all_hex_digits(s, i + 3, i + 3 + k)
    &&& s[i + 3 + k] == '}'
    &&& !is_scalar_value(hex_val(s.subrange(i + 3, i + 3 + k)))
}

/// A well-formed `\u{...}` escape at position `i` whose code point is not a
/// Unicode scalar value: the compiler's grammar parser would abort on it.
pub open spec fn bad_unicode_escape_at(s: Seq<char>, i: int) -> bool {
    &&& 0 <= i
    &&& i + 3 <= s.len()
    &&& s[i] == '\\'
    &&& s[i + 1] == 'u'
    &&& s[i + 2] == '{'
    &&& exists|k: int| #[trigger] bad_escape_body_at(s, i, k)
}

/// Some well-formed `\u{...}` escape in `s` names an invalid code point.
pub open spec fn has_bad_unicode_escape(s: Seq<char>) -> bool {
    exists|i: int| #[trigger] bad_unicode_escape_at(s, i)
}

/// The compiler adapter's supported domain: text on which `peg::compile`
/// returns instead of aborting.
pub open spec fn peg_input_safe(s: Seq<char>) -> bool {
    !has_long_digit_run(s) && !has_bad_unicode_escape(s)
}

/// Whether `s` holds a run of ten or more consecutive decimal digits,
/// scanning left to right while tracking the current run's length.
fn scan_digit_run(s: &str) -> (b: bool)
    ensures
        b == has_long_digit_run(s@),
{
    let n: usize = s.unicode_len();
    let mut i: usize = 0;
    let mut run: usize = 0;
    while i < n
        invariant
            i <= n,
            n == s@.len(),
            run <= i,
            run < 10,
            all_dec_digits(s@, i - run, i as int),
            run == i || !is_dec_digit(s@[i - run - 1]),
            forall|st: int| 0 <= st && st + 10 <= i ==> !(#[trigger] all_dec_digits(s@, st, st + 10)),
        decreases n - i,
    {
        let c = s.get_char(i);
        let cv = c as u32;
        if 48 <= cv && cv <= 57 {
            run = run + 1;
            if run == 10 {
                proof {
                    let st = i + 1 - 10;
                    assert(all_dec_digits(s@, st, st + 10));
                    assert(has_long_digit_run(s@));
                }
                return true;
            }
            proof {
                assert forall|st: int| 0 <= st && st + 10 <= i + 1 implies !(#[trigger] all_dec_digits(
                    s@,
                    st,
                    st + 10,
                )) by {
                    if st + 10 == i + 1 {
                        // the run ending here is shorter than ten, so the
                        // character just before it breaks the window
                        assert(run - 1 != i);
                        assert(!is_dec_digit(s@[i - run]));
                        assert(st <= i - run < st + 10);
                    }
                }
            }
        } else {
            run = 0;
            proof {
                assert(!is_dec_digit(s@[i as int]));
                assert forall|st: int| 0 <= st && st + 10 <= i + 1 implies !(#[trigger] all_dec_digits(
                    s@,
                    st,
                    st + 10,
                )) by {
                    if st + 10 == i + 1 {
                        assert(st <= i < st + 10);
                    }
                }
            }
        }
        i = i + 1;
    }
    false
}

/// The capped tracking of a hex run's value: exact while the value is in
/// the scalar range, pinned just above it once the true value has left it.
spec fn capped_hex_val_ok(hv: int, v: u32) -> bool {
    (hv <= 0x10FFFF && v as int == hv) || (hv > 0x10FFFF && v == 0x110000)
}

/// The value of an ASCII hexadecimal digit, or nothing for any other
/// character.
fn hex_digit_of(c: char) -> (r: Option<u32>)
    ensures
        match r {
            Some(v) => is_hex_digit(c) && v as int == hex_digit_val(c),
            None => !is_hex_digit(c),
        },
{
    let cv = c as u32;
    if 48 <= cv && cv <= 57 {
        Some(cv - 48)
    } else if 97 <= cv && cv <= 102 {
        Some(cv - 87)
    } else if 65 <= cv && cv <= 70 {
        Some(cv - 55)
    } else {
        None
    }
}

/// Whether `s` holds a well-formed `\u{...}` escape naming an invalid code
/// point: every position is tried as an escape opener, and a hex run's value
/// is tracked capped just above the scalar range, so it never overflows.
fn scan_bad_escape(s: &str) -> (b: bool)
    ensures
        b == has_bad_unicode_escape(s@),
{
    let n: usize = s.unicode_len();
    let mut i: usize = 0;
    while i < n
        invariant
            i <= n,
            n == s@.len(),
            forall|p: int| 0 <= p < i ==> !(#[trigger] bad_unicode_escape_at(s@, p)),
        decreases n - i,
    {
        if n - i >= 3 && s.get_char(i) == '\\' && s.get_char(i + 1) == 'u' && s.get_char(i + 2)
            == '{' {
            let mut j: usize = i + 3;
            let mut v: u32 = 0;
            proof {
                assert(s@.subrange(i + 3, i + 3) =~= Seq::<char>::empty());
            }
            while j < n && hex_digit_of(s.get_char(j)).is_some()
                invariant
                    i + 3 <= j <= n,
                    n == s@.len(),
                    all_hex_digits(s@, i + 3, j as int),
                    capped_hex_val_ok(hex_val(s@.subrange(i + 3, j as int)), v),
                decreases n - j,
            {
                let d = hex_digit_of(s.get_char(j)).unwrap();
                proof {
                    let pref = s@.subrange(i + 3, j as int);
                    let prefx = s@.subrange(i + 3, j + 1);
                    assert(prefx.drop_last() =~= pref);
                    assert(prefx.last() == s@[j as int]);
                }
                v = v * 16 + d;
                if v > 0x10FFFF {
                    v = 0x110000;
                }
                j = j + 1;
            }
            let k = j - (i + 3);
            if k >= 1 && j < n && s.get_char(j) == '}' && (v > 0x10FFFF || (0xD800 <= v && v
                < 0xE000)) {
                proof {
                    let hv = hex_val(s@.subrange(i + 3, j as int));
                    assert(!is_scalar_value(hv));
                    assert(bad_escape_body_at(s@, i as int, k as int));
                    assert(bad_unicode_escape_at(s@, i as int));
                    assert(has_bad_unicode_escape(s@));
                }
                return true;
            }
            proof {
                let base = i + 3;
                assert forall|k2: int| !(#[trigger] bad_escape_body_at(s@, i as int, k2)) by {
                    if 1 <= k2 && i + 4 + k2 <= n {
                        if k2 < k {
                            // inside the hex run: a hex digit is never `}`
                            assert(is_hex_digit(s@[base + k2]));
                            assert(s@[base + k2] != '}');
                        } else if k2 == k {
                            // the run ends here: either no closing brace
                            // follows, or the value was checked above and is
                            // a scalar value
                            if j < n && s@[j as int] == '}' {
                                let hv = hex_val(s@.subrange(i + 3, j as int));
                                assert(!(v > 0x10FFFF || (0xD800 <= v && v < 0xE000)));
                                assert(hv <= 0x10FFFF && v as int == hv);
                                assert(is_scalar_value(hv));
                            }
                        } else {
                            // past the run's end: the character there is not
                            // a hex digit, so the digits condition fails
                            assert(j < n && !is_hex_digit(s@[j as int]));
                            assert(base <= base + k < base + k2);
                            assert(!all_hex_digits(s@, base as int, base + k2));
                        }
                    }
                }
                assert(!bad_unicode_escape_at(s@, i as int));
            }
        } else {
            proof {
                assert(!bad_unicode_escape_at(s@, i as int));
            }
        }
        i = i + 1;
    }
    proof {
        assert forall|p: int| !(#[trigger] bad_unicode_escape_at(s@, p)) by {
            if 0 <= p && p + 3 <= n {
                assert(!bad_unicode_escape_at(s@, p));
            }
        }
    }
    false
}

/// Whether the adapter will attempt to compile `text`: true exactly when the
/// text is inside the supported domain.
pub fn grammar_text_supported(text: &str) -> (b: bool)
    ensures
        b == peg_input_safe(text@),
{
    !scan_digit_run(text) && !scan_bad_escape(text)
}

/// What `peg::compile` generates for a given grammar text: the generated
/// source when the text is accepted, nothing when it is rejected.
pub uninterp spec fn peg_compile_spec(text: Seq<char>) -> Option<Seq<char>>;

/// Relies on `peg::compile` (peg 0.5): translates a peg grammar to Rust
/// source text, returning `Err` with a rendered message when the grammar is
/// rejected. Acceptance and the generated code depend on the input text
/// alone; the error message's wording does not, so it is left unspecified.
/// The caller must stay inside the supported domain: on text with an
/// oversized repeat bound or an invalid `\u{...}` code point the compiler
/// panics instead of returning.
#[verifier::external_body]
pub(crate) fn compile_text(text: &str) -> (r: Result<String, String>)
    requires
        peg_input_safe(text@),
    ensures
        match r {
            Ok(code) => peg_compile_spec(text@) == Some(code@),
            Err(_) => peg_compile_spec(text@) == None::<Seq<char>>,
        },
{
    peg::compile(text)
}

} // verus!
