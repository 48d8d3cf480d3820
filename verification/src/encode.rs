use crate::error::AnalyzeError;
use vstd::prelude::*;
use vstd::string::StringExecFns;

verus! {

/// Decimal digit characters of a number as ASCII bytes, most significant
/// digit first, no sign and no leading zero.
pub open spec fn dec_rep(n: nat) -> Seq<u8>
    decreases n,
{
    if n < 10 {
        seq![(n + 48) as u8]
    } else {
        dec_rep(n / 10) + seq![(n % 10 + 48) as u8]
    }
}

/// Big-endian byte rendering of 16-bit samples: high byte first, two bytes
/// per sample, in sample order.
pub open spec fn be16_bytes(s: Seq<u16>) -> Seq<u8>
    decreases s.len(),
{
    if s.len() == 0 {
        Seq::empty()
    } else {
        seq![(s[0] as int / 256) as u8, (s[0] as int % 256) as u8] + be16_bytes(s.drop_first())
    }
}

/// The plain-text header of a portable bitmap: the magic token `P` plus a
/// format digit, then width, height and maximum sample value in decimal,
/// space separated and closed by one line break.
pub open spec fn raster_header(magic: u8, width: nat, height: nat, maxval: nat) -> Seq<u8> {
    seq![80u8, magic, 32u8] + dec_rep(width) + seq![32u8] + dec_rep(height) + seq![32u8]
        + dec_rep(maxval) + seq![10u8]
}

/// One-channel 16-bit raster: `P5` header with maximum value 65535, then the
/// samples as big-endian 16-bit values in row-major order.
pub open spec fn pgm16_bytes(width: nat, height: nat, samples: Seq<u16>) -> Seq<u8> {
    raster_header(53, width, height, 65535) + be16_bytes(samples)
}

/// Three-channel 16-bit raster: `P6` header with maximum value 65535, then
/// the samples as big-endian 16-bit values, three consecutive values per
/// pixel in row-major order.
pub open spec fn ppm16_bytes(width: nat, height: nat, samples: Seq<u16>) -> Seq<u8> {
    raster_header(54, width, height, 65535) + be16_bytes(samples)
}

/// Three-channel 8-bit raster: `P6` header with maximum value 255, then the
/// samples as plain bytes, three consecutive values per pixel in row-major
/// order.
pub open spec fn ppm8_bytes(width: nat, height: nat, samples: Seq<u8>) -> Seq<u8> {
    raster_header(54, width, height, 255) + samples
}

/// The length of every 16-bit raster is the header length plus two bytes per
/// sample.
pub proof fn lemma_be16_len(s: Seq<u16>)
    ensures
        be16_bytes(s).len() == 2 * s.len(),
    decreases s.len(),
{
    if s.len() > 0 {
        lemma_be16_len(s.drop_first());
    }
}

/// Law: a 16-bit raster is exactly its header followed by two bytes per
/// sample, so its total length is the header length plus twice the sample
/// count.
pub proof fn lemma_raster16_len(width: nat, height: nat, samples: Seq<u16>)
    ensures
        pgm16_bytes(width, height, samples).len() == raster_header(53, width, height, 65535).len()
            + 2 * samples.len(),
        ppm16_bytes(width, height, samples).len() == raster_header(54, width, height, 65535).len()
            + 2 * samples.len(),
{
    lemma_be16_len(samples);
}

proof fn lemma_be16_push(s: Seq<u16>, px: u16)
    ensures
        be16_bytes(s.push(px)) == be16_bytes(s) + seq![
            (px as int / 256) as u8,
            (px as int % 256) as u8,
        ],
    decreases s.len(),
{
    let pair = seq![(px as int / 256) as u8, (px as int % 256) as u8];
    if s.len() == 0 {
        assert(s.push(px)[0] == px);
        assert(s.push(px).drop_first() =~= Seq::<u16>::empty());
        assert(be16_bytes(Seq::<u16>::empty()) == Seq::<u8>::empty());
        assert(be16_bytes(s) == Seq::<u8>::empty());
        assert(be16_bytes(s.push(px)) =~= be16_bytes(s) + pair);
    } else {
        assert(s.push(px)[0] == s[0]);
        assert(s.push(px).drop_first() =~= s.drop_first().push(px));
        lemma_be16_push(s.drop_first(), px);
        assert(be16_bytes(s.push(px)) =~= be16_bytes(s) + pair);
    }
}

fn push_decimal(out: &mut Vec<u8>, n: usize)
    ensures
        final(out)@ == old(out)@ + dec_rep(n as nat),
    decreases n,
{
    if n >= 10 {
        push_decimal(out, n / 10);
    }
    out.push((n % 10) as u8 + 48);
    proof {
        assert(final(out)@ =~= old(out)@ + dec_rep(n as nat));
    }
}

fn push_be16(out: &mut Vec<u8>, samples: &Vec<u16>)
    ensures
        final(out)@ == old(out)@ + be16_bytes(samples@),
{
    proof {
        assert(samples@.take(0) =~= Seq::<u16>::empty());
        assert(be16_bytes(Seq::<u16>::empty()) == Seq::<u8>::empty());
    }
    let mut i: usize = 0;
    while i < samples.len()
        invariant
            i <= samples.len(),
            out@ == old(out)@ + be16_bytes(samples@.take(i as int)),
        decreases samples.len() - i,
    {
        let px = samples[i];
        out.push((px / 256) as u8);
        out.push((px % 256) as u8);
        proof {
            lemma_be16_push(samples@.take(i as int), px);
            assert(samples@.take(i as int + 1) =~= samples@.take(i as int).push(px));
            assert(out@ =~= old(out)@ + be16_bytes(samples@.take(i as int + 1)));
        }
        i = i + 1;
    }
    proof {
        assert(samples@.take(samples.len() as int) =~= samples@);
    }
}

fn push_header(out: &mut Vec<u8>, magic: u8, width: usize, height: usize, maxval: usize)
    ensures
        final(out)@ == old(out)@ + raster_header(
            magic,
            width as nat,
            height as nat,
            maxval as nat,
        ),
{
    out.push(80);
    out.push(magic);
    out.push(32);
    push_decimal(out, width);
    out.push(32);
    push_decimal(out, height);
    out.push(32);
    push_decimal(out, maxval);
    out.push(10);
    proof {
        assert(final(out)@ =~= old(out)@ + raster_header(
            magic,
            width as nat,
            height as nat,
            maxval as nat,
        ));
    }
}

/// Encode a one-channel 16-bit integer buffer as a binary `P5` raster.
/// The sample count must be exactly `width * height`; any other count is
/// rejected without emitting output.
pub fn encode_pgm16(width: usize, height: usize, samples: &Vec<u16>) -> (r: Result<
    Vec<u8>,
    AnalyzeError,
>)
    ensures
        samples@.len() == width as nat * height as nat ==> (r matches Ok(b) && b@ == pgm16_bytes(
            width as nat,
            height as nat,
            samples@,
        )),
        samples@.len() != width as nat * height as nat ==> (r matches Err(e) && e matches
            AnalyzeError::InvariantViolation(_)),
{
    let n = samples.len();
    match width.checked_mul(height) {
        Some(total) if total == n => {
            let mut out: Vec<u8> = Vec::new();
            push_header(&mut out, 53, width, height, 65535);
            push_be16(&mut out, samples);
            proof {
                assert(out@ =~= pgm16_bytes(width as nat, height as nat, samples@));
            }
            Ok(out)
        },
        _ => Err(
            AnalyzeError::InvariantViolation(
                String::from_str("sample count does not match width * height"),
            ),
        ),
    }
}

/// Encode a three-channel 16-bit integer buffer as a binary `P6` raster.
/// The sample count must be exactly `width * height * 3`; any other count is
/// rejected without emitting output.
pub fn encode_ppm16(width: usize, height: usize, samples: &Vec<u16>) -> (r: Result<
    Vec<u8>,
    AnalyzeError,
>)
    ensures
        samples@.len() == width as nat * height as nat * 3 ==> (r matches Ok(b) && b@
            == ppm16_bytes(width as nat, height as nat, samples@)),
        samples@.len() != width as nat * height as nat * 3 ==> (r matches Err(e) && e matches
            AnalyzeError::InvariantViolation(_)),
{
    let n = samples.len();
    match width.checked_mul(height) {
        Some(total) => match total.checked_mul(3) {
            Some(total3) if total3 == n => {
                let mut out: Vec<u8> = Vec::new();
                push_header(&mut out, 54, width, height, 65535);
                push_be16(&mut out, samples);
                proof {
                    assert(out@ =~= ppm16_bytes(width as nat, height as nat, samples@));
                }
                Ok(out)
            },
            _ => Err(
                AnalyzeError::InvariantViolation(
                    String::from_str("sample count does not match width * height * 3"),
                ),
            ),
        },
        None => Err(
            AnalyzeError::InvariantViolation(
                String::from_str("sample count does not match width * height * 3"),
            ),
        ),
    }
}

/// Encode a three-channel 8-bit integer buffer as a binary `P6` raster.
/// The sample count must be exactly `width * height * 3`; any other count is
/// rejected without emitting output.
pub fn encode_ppm8(width: usize, height: usize, samples: &Vec<u8>) -> (r: Result<
    Vec<u8>,
    AnalyzeError,
>)
    ensures
        samples@.len() == width as nat * height as nat * 3 ==> (r matches Ok(b) && b@ == ppm8_bytes(
            width as nat,
            height as nat,
            samples@,
        )),
        samples@.len() != width as nat * height as nat * 3 ==> (r matches Err(e) && e matches
            AnalyzeError::InvariantViolation(_)),
{
    let n = samples.len();
    match width.checked_mul(height) {
        Some(total) => match total.checked_mul(3) {
            Some(total3) if total3 == n => {
                let mut out: Vec<u8> = Vec::new();
                push_header(&mut out, 54, width, height, 255);
                let mut i: usize = 0;
                proof {
                    assert(samples@.take(0) =~= Seq::<u8>::empty());
                }
                while i < samples.len()
                    invariant
                        i <= samples.len(),
                        out@ == raster_header(54, width as nat, height as nat, 255)
                            + samples@.take(i as int),
                    decreases samples.len() - i,
                {
                    out.push(samples[i]);
                    proof {
                        assert(samples@.take(i as int + 1) =~= samples@.take(i as int).push(
                            samples@[i as int],
                        ));
                        assert(out@ =~= raster_header(54, width as nat, height as nat, 255)
                            + samples@.take(i as int + 1));
                    }
                    i = i + 1;
                }
                proof {
                    assert(samples@.take(samples.len() as int) =~= samples@);
                }
                Ok(out)
            },
            _ => Err(
                AnalyzeError::InvariantViolation(
                    String::from_str("sample count does not match width * height * 3"),
                ),
            ),
        },
        None => Err(
            AnalyzeError::InvariantViolation(
                String::from_str("sample count does not match width * height * 3"),
            ),
        ),
    }
}

} // verus!
