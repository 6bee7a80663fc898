//! The wide-character boundary representation of text.
//!
//! Strings cross the boundary as a sequence of 16-bit units with an
//! explicit length: a scalar value below 0x10000 travels as itself, any
//! other as a surrogate pair.  The conversion is lossless for every
//! representable code point — [`lemma_wide_round_trip`] proves that
//! decoding the encoding of any text gives the text back — and a wide
//! sequence with a lone or out-of-order surrogate is ill formed and
//! decodes to nothing rather than to made-up text.

use vstd::prelude::*;

verus! {

/// A unit that opens a surrogate pair.
pub open spec fn is_high_surrogate(u: u16) -> bool {
    0xD800 <= u <= 0xDBFF
}

/// A unit that closes a surrogate pair.
pub open spec fn is_low_surrogate(u: u16) -> bool {
    0xDC00 <= u <= 0xDFFF
}

/// The wide units of one scalar value: the value itself when it fits one
/// unit, else the surrogate pair spreading its offset above 0x10000.
pub open spec fn wide_of_char(c: char) -> Seq<u16> {
    let u = c as u32;
    if u < 0x10000 {
        seq![u as u16]
    } else {
        seq![
            (0xD800 + (u - 0x10000) / 0x400) as u16,
            (0xDC00 + (u - 0x10000) % 0x400) as u16,
        ]
    }
}

/// The wide encoding of a text.
pub open spec fn wide_of(s: Seq<char>) -> Seq<u16>
    decreases s.len(),
{
    if s.len() == 0 {
        Seq::empty()
    } else {
        wide_of_char(s.first()) + wide_of(s.drop_first())
    }
}

/// The text a wide sequence encodes, if it is well formed; a lone or
/// out-of-order surrogate makes the whole sequence ill formed.
pub open spec fn chars_of_wide(w: Seq<u16>) -> Option<Seq<char>>
    decreases w.len(),
{
    if w.len() == 0 {
        Option::Some(Seq::empty())
    } else if !is_high_surrogate(w.first()) && !is_low_surrogate(w.first()) {
        match chars_of_wide(w.drop_first()) {
            Option::Some(rest) => Option::Some(seq![((w.first() as u32) as char)] + rest),
            Option::None => Option::None,
        }
    } else if is_high_surrogate(w.first()) && w.len() >= 2 && is_low_surrogate(w[1]) {
        let cp = 0x10000 + (w.first() - 0xD800) * 0x400 + (w[1] - 0xDC00);
        match chars_of_wide(w.skip(2)) {
            Option::Some(rest) => Option::Some(seq![((cp as u32) as char)] + rest),
            Option::None => Option::None,
        }
    } else {
        Option::None
    }
}

/// Appending one character extends the encoding by that character's
/// units.
pub proof fn lemma_wide_of_push(s: Seq<char>, c: char)
    ensures
        wide_of(s.push(c)) == wide_of(s) + wide_of_char(c),
    decreases s.len(),
{
    if s.len() == 0 {
        assert(s.push(c).first() == c);
        assert(s.push(c).drop_first() =~= Seq::<char>::empty());
        assert(wide_of(s.push(c)) == wide_of_char(c) + wide_of(Seq::<char>::empty()));
        assert(wide_of_char(c) + wide_of(Seq::<char>::empty()) =~= wide_of_char(c));
        assert(wide_of(s) + wide_of_char(c) =~= wide_of_char(c));
    } else {
        assert(s.push(c).first() == s.first());
        assert(s.push(c).drop_first() =~= s.drop_first().push(c));
        lemma_wide_of_push(s.drop_first(), c);
        assert(wide_of_char(s.first()) + (wide_of(s.drop_first()) + wide_of_char(c))
            =~= (wide_of_char(s.first()) + wide_of(s.drop_first())) + wide_of_char(c));
    }
}

/// Law: the wide representation is lossless.  For every text — every
/// representable code point included — decoding the encoding gives the
/// text back.
pub proof fn lemma_wide_round_trip(s: Seq<char>)
    ensures
        chars_of_wide(wide_of(s)) == Option::Some(s),
    decreases s.len(),
{
    if s.len() == 0 {
        assert(s =~= Seq::<char>::empty());
    } else {
        let c = s.first();
        let u = c as u32;
        let rest = s.drop_first();
        lemma_wide_round_trip(rest);
        let w = wide_of(s);
        vstd::utf8::char_is_scalar(c);
        assert(u <= 0x10FFFF && !(0xD800 <= u <= 0xDFFF));
        vstd::utf8::char_u32_cast(c, u);
        if u < 0x10000 {
            assert(w.first() == (u as u16));
            assert((u as u16) as u32 == u);
            assert(!is_high_surrogate(w.first()) && !is_low_surrogate(w.first()));
            assert(w.drop_first() =~= wide_of(rest));
            assert(((w.first() as u32) as char) == c);
            assert(seq![c] + rest =~= s);
        } else {
            let hi = (0xD800 + (u - 0x10000) / 0x400) as u16;
            let lo = (0xDC00 + (u - 0x10000) % 0x400) as u16;
            assert(0 <= (u - 0x10000) / 0x400 <= 0x3FF && 0 <= (u - 0x10000) % 0x400 <= 0x3FF)
                by (nonlinear_arith)
                requires
                    0x10000 <= u <= 0x10FFFF,
            ;
            assert(w.first() == hi);
            assert(w[1] == lo);
            assert(is_high_surrogate(hi) && is_low_surrogate(lo));
            let cp = 0x10000 + (hi - 0xD800) * 0x400 + (lo - 0xDC00);
            assert(cp == u) by (nonlinear_arith)
                requires
                    0x10000 <= u <= 0x10FFFF,
                    hi == (0xD800 + (u - 0x10000) / 0x400) as u16,
                    lo == (0xDC00 + (u - 0x10000) % 0x400) as u16,
                    cp == 0x10000 + (hi - 0xD800) * 0x400 + (lo - 0xDC00),
            ;
            assert((cp as u32) == u);
            assert(((cp as u32) as char) == c);
            assert(w.skip(2) =~= wide_of(rest));
            assert(seq![c] + rest =~= s);
        }
    }
}

/// Law: a well-formed wide sequence is the encoding of the text it
/// decodes to — the wide form of any text is canonical.
pub proof fn lemma_wide_canonical(w: Seq<u16>)
    ensures
        chars_of_wide(w) matches Option::Some(s) ==> wide_of(s) == w,
    decreases w.len(),
{
    if w.len() == 0 {
        assert(wide_of(Seq::<char>::empty()) =~= Seq::<u16>::empty());
        assert(w =~= Seq::<u16>::empty());
    } else if !is_high_surrogate(w.first()) && !is_low_surrogate(w.first()) {
        lemma_wide_canonical(w.drop_first());
        match chars_of_wide(w.drop_first()) {
            Option::None => {},
            Option::Some(rest) => {
                let u = w.first() as u32;
                let c = (u as char);
                assert(u <= 0x10FFFF && !(0xD800 <= u <= 0xDFFF));
                assert((c as u32) == u);
                let s = seq![c] + rest;
                assert(s.first() == c);
                assert(s.drop_first() =~= rest);
                assert(wide_of_char(c) =~= seq![w.first()]);
                assert(wide_of(s) =~= w);
            },
        }
    } else if is_high_surrogate(w.first()) && w.len() >= 2 && is_low_surrogate(w[1]) {
        lemma_wide_canonical(w.skip(2));
        match chars_of_wide(w.skip(2)) {
            Option::None => {},
            Option::Some(rest) => {
                let cp = 0x10000 + (w.first() - 0xD800) * 0x400 + (w[1] - 0xDC00);
                assert(0x10000 <= cp <= 0x10FFFF) by (nonlinear_arith)
                    requires
                        0xD800 <= w.first() <= 0xDBFF,
                        0xDC00 <= w[1] <= 0xDFFF,
                        cp == 0x10000 + (w.first() - 0xD800) * 0x400 + (w[1] - 0xDC00),
                ;
                let c = ((cp as u32) as char);
                assert((c as u32) == cp as u32);
                let u = c as u32;
                assert(u == cp);
                assert((u - 0x10000) / 0x400 == w.first() - 0xD800 && (u - 0x10000) % 0x400
                    == w[1] - 0xDC00) by (nonlinear_arith)
                    requires
                        0xD800 <= w.first() <= 0xDBFF,
                        0xDC00 <= w[1] <= 0xDFFF,
                        u == 0x10000 + (w.first() - 0xD800) * 0x400 + (w[1] - 0xDC00),
                ;
                let s = seq![c] + rest;
                assert(s.first() == c);
                assert(s.drop_first() =~= rest);
                assert(wide_of_char(c) =~= seq![w.first(), w[1]]);
                assert(wide_of(s) =~= w);
            },
        }
    }
}

/// Relies on char::from_u32: the answer is the character of the given
/// scalar value, and nothing when the value lies in the surrogate gap or
/// above the last code point.
pub assume_specification[ char::from_u32 ](u: u32) -> (r: Option<char>)
    ensures
        r is Some <==> (u <= 0x10FFFF && !(0xD800 <= u <= 0xDFFF)),
        r matches Option::Some(c) ==> c as u32 == u,
;

/// A piece of text in its wide boundary form: 16-bit units with the
/// length held next to them, never a terminator.
pub struct CefString {
    units: Vec<u16>,
}

impl CefString {
    /// The units as the boundary sees them.
    pub closed spec fn view(&self) -> Seq<u16> {
        self.units@
    }

    /// Encode a text into its wide boundary form.
    pub fn new(chars: &Vec<char>) -> (r: CefString)
        ensures
            r@ == wide_of(chars@),
    {
        let mut units: Vec<u16> = Vec::new();
        let mut i: usize = 0;
        while i < chars.len()
            invariant
                0 <= i <= chars.len(),
                units@ == wide_of(chars@.take(i as int)),
            decreases chars.len() - i,
        {
            let c = chars[i];
            let u = c as u32;
            proof {
                vstd::utf8::char_is_scalar(c);
                lemma_wide_of_push(chars@.take(i as int), c);
                assert(chars@.take(i + 1) =~= chars@.take(i as int).push(c));
            }
            if u < 0x10000 {
                units.push(u as u16);
                proof {
                    assert(units@ =~= wide_of(chars@.take(i + 1)));
                }
            } else {
                proof {
                    assert(0 <= (u - 0x10000) / 0x400 <= 0x3FF && 0 <= (u - 0x10000) % 0x400
                        <= 0x3FF) by (nonlinear_arith)
                        requires
                            0x10000 <= u <= 0x10FFFF,
                    ;
                }
                units.push((0xD800 + (u - 0x10000) / 0x400) as u16);
                units.push((0xDC00 + (u - 0x10000) % 0x400) as u16);
                proof {
                    assert(units@ =~= wide_of(chars@.take(i + 1)));
                }
            }
            i = i + 1;
        }
        proof {
            assert(chars@.take(chars@.len() as int) =~= chars@);
        }
        CefString { units }
    }

    /// Take units in as the foreign side handed them over; nothing says
    /// yet that they are well formed.
    pub fn from_units(units: Vec<u16>) -> (r: CefString)
        ensures
            r@ == units@,
    {
        CefString { units }
    }

    /// How many units the boundary will read.
    pub fn len(&self) -> (n: usize)
        ensures
            n == self@.len(),
    {
        self.units.len()
    }

    /// Decode the units back into text, or nothing if the sequence is
    /// ill formed.
    pub fn to_chars(&self) -> (r: Option<Vec<char>>)
        ensures
            r matches Option::Some(cs) ==> chars_of_wide(self@) == Option::Some(cs@),
            r is None ==> chars_of_wide(self@) is None,
    {
        let w = Ghost(self.units@);
        let mut out: Vec<char> = Vec::new();
        let mut i: usize = 0;
        proof {
            assert(w@.skip(0) =~= w@);
            match chars_of_wide(w@) {
                Option::Some(rest) => {
                    assert(out@ + rest =~= rest);
                },
                Option::None => {},
            }
        }
        while i < self.units.len()
            invariant
                0 <= i <= self.units.len(),
                w@ == self.units@,
                chars_of_wide(w@) == (match chars_of_wide(w@.skip(i as int)) {
                    Option::Some(rest) => Option::Some(out@ + rest),
                    Option::None => Option::<Seq<char>>::None,
                }),
            decreases self.units.len() - i,
        {
            let ghost tail = w@.skip(i as int);
            let ghost out0 = out@;
            let u0 = self.units[i];
            proof {
                assert(tail.first() == u0);
                assert(tail.drop_first() =~= w@.skip(i + 1));
            }
            if !(0xD800 <= u0 && u0 <= 0xDFFF) {
                let c = match char::from_u32(u0 as u32) {
                    Some(c) => c,
                    None => unreached(),
                };
                out.push(c);
                proof {
                    vstd::utf8::char_u32_cast(c, u0 as u32);
                    assert(((tail.first() as u32) as char) == c);
                    match chars_of_wide(w@.skip(i + 1)) {
                        Option::Some(rest) => {
                            assert(chars_of_wide(tail) == Option::Some(seq![c] + rest));
                            assert(out0.push(c) + rest =~= out0 + (seq![c] + rest));
                        },
                        Option::None => {
                            assert(chars_of_wide(tail) is None);
                        },
                    }
                }
                i = i + 1;
            } else if u0 <= 0xDBFF && i + 1 < self.units.len() && 0xDC00 <= self.units[i + 1]
                && self.units[i + 1] <= 0xDFFF {
                let u1 = self.units[i + 1];
                proof {
                    assert(tail[1] == u1);
                    assert(tail.skip(2) =~= w@.skip(i + 2));
                    assert((u0 as u32 - 0xD800) * 0x400 <= 0xFFC00) by (nonlinear_arith)
                        requires
                            0xD800 <= u0 <= 0xDBFF,
                    ;
                }
                let cp: u32 = 0x10000 + (u0 as u32 - 0xD800) * 0x400 + (u1 as u32 - 0xDC00);
                let c = match char::from_u32(cp) {
                    Some(c) => c,
                    None => unreached(),
                };
                out.push(c);
                proof {
                    vstd::utf8::char_u32_cast(c, cp);
                    let cp_spec = 0x10000 + (tail.first() - 0xD800) * 0x400 + (tail[1] - 0xDC00);
                    assert(cp_spec == cp);
                    assert(((cp_spec as u32) as char) == c);
                    match chars_of_wide(w@.skip(i + 2)) {
                        Option::Some(rest) => {
                            assert(chars_of_wide(tail) == Option::Some(seq![c] + rest));
                            assert(out0.push(c) + rest =~= out0 + (seq![c] + rest));
                        },
                        Option::None => {
                            assert(chars_of_wide(tail) is None);
                        },
                    }
                }
                i = i + 2;
            } else {
                proof {
                    assert(chars_of_wide(tail) is None);
                }
                return None;
            }
        }
        proof {
            assert(w@.skip(w@.len() as int) =~= Seq::<u16>::empty());
            assert(out@ + Seq::<char>::empty() =~= out@);
        }
        Some(out)
    }
}

} // verus!
