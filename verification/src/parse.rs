use crate::encode::{be16_bytes, dec_rep, pgm16_bytes, ppm16_bytes, ppm8_bytes, raster_header};
use vstd::prelude::*;

verus! {

/// Is the byte the ASCII code of a decimal digit?
pub open spec fn is_digit(b: u8) -> bool {
    48 <= b && b <= 57
}

/// Every byte of the token is a decimal digit.
pub open spec fn all_digits(t: Seq<u8>) -> bool {
    forall|i: int| 0 <= i < t.len() ==> is_digit(#[trigger] t[i])
}

/// The token a conforming reader takes greedily: everything up to the first
/// space or line break.
pub open spec fn token_of(s: Seq<u8>) -> Seq<u8>
    decreases s.len(),
{
    if s.len() == 0 {
        Seq::empty()
    } else if s[0] == 32 || s[0] == 10 {
        Seq::empty()
    } else {
        seq![s[0]] + token_of(s.drop_first())
    }
}

/// What remains after the token and its single separator are consumed.
pub open spec fn after_token(s: Seq<u8>) -> Seq<u8>
    decreases s.len(),
{
    if s.len() == 0 {
        Seq::empty()
    } else if s[0] == 32 || s[0] == 10 {
        s.drop_first()
    } else {
        after_token(s.drop_first())
    }
}

/// The numeric value of a digit token, most significant digit first.
pub open spec fn token_value(t: Seq<u8>) -> nat
    decreases t.len(),
{
    if t.len() == 0 {
        0
    } else {
        token_value(t.drop_last()) * 10 + (t.last() - 48) as nat
    }
}

/// Decode big-endian byte pairs back into 16-bit samples.
pub open spec fn decode_be16(s: Seq<u8>) -> Seq<u16>
    decreases s.len(),
{
    if s.len() < 2 {
        Seq::empty()
    } else {
        seq![(s[0] * 256 + s[1]) as u16] + decode_be16(s.skip(2))
    }
}

/// A conforming reader of the binary 16-bit rasters: the magic token with
/// the expected format digit, then width, height and the maximum value
/// 65535 as space-separated decimal tokens, then exactly
/// `width * height * channels` big-endian 16-bit samples and nothing more.
pub open spec fn parse_raster16(b: Seq<u8>, magic: u8, channels: nat) -> Option<
    (nat, nat, Seq<u16>),
> {
    if b.len() < 3 || b[0] != 80 || b[1] != magic || b[2] != 32 {
        None
    } else {
        let wt = token_of(b.skip(3));
        let r1 = after_token(b.skip(3));
        let ht = token_of(r1);
        let r2 = after_token(r1);
        let mt = token_of(r2);
        let r3 = after_token(r2);
        if wt.len() == 0 || !all_digits(wt) || ht.len() == 0 || !all_digits(ht) || mt.len() == 0
            || !all_digits(mt) || token_value(mt) != 65535 {
            None
        } else {
            let w = token_value(wt);
            let h = token_value(ht);
            if r3.len() == 2 * (w * h * channels) {
                Some((w, h, decode_be16(r3)))
            } else {
                None
            }
        }
    }
}

/// A conforming reader of the binary 8-bit three-channel raster: a `P6`
/// magic token, width, height and the maximum value 255, then exactly
/// `width * height * 3` plain byte samples and nothing more.
pub open spec fn parse_raster8(b: Seq<u8>) -> Option<(nat, nat, Seq<u8>)> {
    if b.len() < 3 || b[0] != 80 || b[1] != 54 || b[2] != 32 {
        None
    } else {
        let wt = token_of(b.skip(3));
        let r1 = after_token(b.skip(3));
        let ht = token_of(r1);
        let r2 = after_token(r1);
        let mt = token_of(r2);
        let r3 = after_token(r2);
        if wt.len() == 0 || !all_digits(wt) || ht.len() == 0 || !all_digits(ht) || mt.len() == 0
            || !all_digits(mt) || token_value(mt) != 255 {
            None
        } else {
            let w = token_value(wt);
            let h = token_value(ht);
            if r3.len() == w * h * 3 {
                Some((w, h, r3))
            } else {
                None
            }
        }
    }
}

/// The decimal rendering consists of digits alone and is never empty.
pub proof fn lemma_dec_rep_digits(n: nat)
    ensures
        dec_rep(n).len() >= 1,
        all_digits(dec_rep(n)),
    decreases n,
{
    if n >= 10 {
        lemma_dec_rep_digits(n / 10);
        assert forall|i: int| 0 <= i < dec_rep(n).len() implies is_digit(#[trigger] dec_rep(n)[i])
        by {
            if i < dec_rep(n / 10).len() {
                assert(dec_rep(n)[i] == dec_rep(n / 10)[i]);
            }
        }
    }
}

/// Reading the decimal rendering back gives the number itself.
pub proof fn lemma_dec_rep_value(n: nat)
    ensures
        token_value(dec_rep(n)) == n,
    decreases n,
{
    if n < 10 {
        assert(dec_rep(n).drop_last() =~= Seq::<u8>::empty());
        assert(token_value(Seq::<u8>::empty()) == 0);
    } else {
        lemma_dec_rep_value(n / 10);
        assert(dec_rep(n).drop_last() =~= dec_rep(n / 10));
        assert(dec_rep(n).last() == (n % 10 + 48) as u8);
    }
}

proof fn lemma_token_split(t: Seq<u8>, sep: u8, rest: Seq<u8>)
    requires
        forall|i: int| 0 <= i < t.len() ==> #[trigger] t[i] != 32 && t[i] != 10,
        sep == 32 || sep == 10,
    ensures
        token_of(t + seq![sep] + rest) == t,
        after_token(t + seq![sep] + rest) == rest,
    decreases t.len(),
{
    let s = t + seq![sep] + rest;
    if t.len() == 0 {
        assert(s[0] == sep);
        assert(s.drop_first() =~= rest);
        assert(token_of(s) =~= t);
    } else {
        assert(s[0] == t[0]);
        assert(s.drop_first() =~= t.drop_first() + seq![sep] + rest);
        lemma_token_split(t.drop_first(), sep, rest);
        assert(token_of(s) =~= seq![t[0]] + t.drop_first());
        assert(seq![t[0]] + t.drop_first() =~= t);
    }
}

/// Decoding inverts the big-endian sample rendering.
pub proof fn lemma_decode_be16_inverse(s: Seq<u16>)
    ensures
        be16_bytes(s).len() == 2 * s.len(),
        decode_be16(be16_bytes(s)) == s,
    decreases s.len(),
{
    if s.len() == 0 {
        assert(decode_be16(be16_bytes(s)) =~= s);
    } else {
        lemma_decode_be16_inverse(s.drop_first());
        let px = s[0];
        let hi = (px as int / 256) as u8;
        let lo = (px as int % 256) as u8;
        let b = be16_bytes(s);
        assert(b[0] == hi && b[1] == lo);
        assert(hi * 256 + lo == px as int);
        assert(b.skip(2) =~= be16_bytes(s.drop_first()));
        assert(decode_be16(b) =~= s);
    }
}

proof fn lemma_digits_not_sep(t: Seq<u8>)
    requires
        all_digits(t),
    ensures
        forall|i: int| 0 <= i < t.len() ==> #[trigger] t[i] != 32 && t[i] != 10,
{
    assert forall|i: int| 0 <= i < t.len() implies #[trigger] t[i] != 32 && t[i] != 10 by {
        assert(is_digit(t[i]));
    }
}

proof fn lemma_header_split(magic: u8, w: nat, h: nat, mv: nat, tail: Seq<u8>)
    ensures
        ({
            let b = raster_header(magic, w, h, mv) + tail;
            let r1 = dec_rep(h) + seq![32u8] + dec_rep(mv) + seq![10u8] + tail;
            let r2 = dec_rep(mv) + seq![10u8] + tail;
            &&& b.len() >= 3
            &&& b[0] == 80 && b[1] == magic && b[2] == 32
            &&& token_of(b.skip(3)) == dec_rep(w) && after_token(b.skip(3)) == r1
            &&& token_of(r1) == dec_rep(h) && after_token(r1) == r2
            &&& token_of(r2) == dec_rep(mv) && after_token(r2) == tail
        }),
{
    let b = raster_header(magic, w, h, mv) + tail;
    let r1 = dec_rep(h) + seq![32u8] + dec_rep(mv) + seq![10u8] + tail;
    let r2 = dec_rep(mv) + seq![10u8] + tail;
    lemma_dec_rep_digits(w);
    lemma_dec_rep_digits(h);
    lemma_dec_rep_digits(mv);
    lemma_digits_not_sep(dec_rep(w));
    lemma_digits_not_sep(dec_rep(h));
    lemma_digits_not_sep(dec_rep(mv));
    assert(b[0] == 80 && b[1] == magic && b[2] == 32);
    assert(b.skip(3) =~= dec_rep(w) + seq![32u8] + r1);
    lemma_token_split(dec_rep(w), 32, r1);
    assert(r1 =~= dec_rep(h) + seq![32u8] + r2);
    lemma_token_split(dec_rep(h), 32, r2);
    assert(r2 =~= dec_rep(mv) + seq![10u8] + tail);
    lemma_token_split(dec_rep(mv), 10, tail);
}

proof fn lemma_raster16_roundtrip(magic: u8, channels: nat, w: nat, h: nat, s: Seq<u16>)
    requires
        s.len() == w * h * channels,
    ensures
        parse_raster16(raster_header(magic, w, h, 65535) + be16_bytes(s), magic, channels)
            == Some((w, h, s)),
{
    let b = raster_header(magic, w, h, 65535) + be16_bytes(s);
    lemma_header_split(magic, w, h, 65535, be16_bytes(s));
    lemma_dec_rep_digits(w);
    lemma_dec_rep_digits(h);
    lemma_dec_rep_digits(65535);
    lemma_dec_rep_value(w);
    lemma_dec_rep_value(h);
    lemma_dec_rep_value(65535);
    lemma_decode_be16_inverse(s);
}

/// Law: the one-channel 16-bit encoding round-trips.  For positive
/// dimensions and one sample per pixel, a conforming reader of the encoder's
/// output recovers the width, the height and the exact sample values.
pub proof fn lemma_pgm16_roundtrip(w: nat, h: nat, s: Seq<u16>)
    requires
        w > 0,
        h > 0,
        s.len() == w * h,
    ensures
        parse_raster16(pgm16_bytes(w, h, s), 53, 1) == Some((w, h, s)),
{
    assert(w * h * 1 == w * h) by (nonlinear_arith);
    lemma_raster16_roundtrip(53, 1, w, h, s);
}

/// Law: the three-channel 16-bit encoding round-trips.  For three samples
/// per pixel, a conforming reader of the encoder's output recovers the
/// width, the height and the exact interleaved sample values, order kept.
pub proof fn lemma_ppm16_roundtrip(w: nat, h: nat, s: Seq<u16>)
    requires
        s.len() == w * h * 3,
    ensures
        parse_raster16(ppm16_bytes(w, h, s), 54, 3) == Some((w, h, s)),
{
    lemma_raster16_roundtrip(54, 3, w, h, s);
}

/// Law: the three-channel 8-bit encoding round-trips.  For three samples
/// per pixel, a conforming reader of the encoder's output recovers the
/// width, the height and the exact interleaved sample values, order kept.
pub proof fn lemma_ppm8_roundtrip(w: nat, h: nat, s: Seq<u8>)
    requires
        s.len() == w * h * 3,
    ensures
        parse_raster8(ppm8_bytes(w, h, s)) == Some((w, h, s)),
{
    lemma_header_split(54, w, h, 255, s);
    lemma_dec_rep_digits(w);
    lemma_dec_rep_digits(h);
    lemma_dec_rep_digits(255);
    lemma_dec_rep_value(w);
    lemma_dec_rep_value(h);
    lemma_dec_rep_value(255);
}

} // verus!
