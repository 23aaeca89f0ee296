//! Images for a terminal that takes them between escape sequences, encoded
//! and cut into chunks.

use vstd::prelude::*;

verus! {

/// Number of encoded bytes that one escape sequence carries at most.
pub const CHUNK_SIZE: usize = 4096;

/// The bytes of the standard base64 encoding, with padding, of a sequence
/// of bytes.
pub uninterp spec fn base64_standard(bytes: Seq<u8>) -> Seq<u8>;

/// `base64::Engine::encode` of the engine
/// `base64::engine::general_purpose::STANDARD`: the encoding as bytes.  The
/// crate panics where the length of the encoding exceeds `usize::MAX`, so
/// those inputs are left out.
#[verifier::external_body]
fn base64_encode(bytes: &[u8]) -> (r: Vec<u8>)
    requires
        (bytes@.len() / 3) * 4 + 4 <= usize::MAX,
    ensures
        r@ == base64_standard(bytes@),
{
    base64::Engine::encode(&base64::engine::general_purpose::STANDARD, bytes).into_bytes()
}

/// What opens the first escape sequence: the escape character, then
/// `_Gf=100,a=T,m=`, which announces a picture to be shown.
pub open spec fn spec_first_header() -> Seq<u8> {
    seq![
        0x1Bu8, 0x5F, 0x47, 0x66, 0x3D, 0x31, 0x30, 0x30, 0x2C, 0x61, 0x3D, 0x54, 0x2C, 0x6D, 0x3D,
    ]
}

/// What opens every further escape sequence: the escape character, then
/// `_Gm=`.
pub open spec fn spec_next_header() -> Seq<u8> {
    seq![0x1Bu8, 0x5F, 0x47, 0x6D, 0x3D]
}

/// The escape sequences that carry encoded bytes from `encoded` on, of
/// which the first one is the first of all if `first` holds.  Each carries
/// at most `CHUNK_SIZE` bytes: after its header comes the digit 1 where
/// more follow and the digit 0 in the last, a semicolon, the bytes, and the
/// escape character with a backslash.
pub open spec fn spec_frames(encoded: Seq<u8>, first: bool) -> Seq<u8>
    decreases encoded.len(),
{
    if encoded.len() == 0 {
        Seq::empty()
    } else {
        let size = if encoded.len() < CHUNK_SIZE {
            encoded.len() as int
        } else {
            CHUNK_SIZE as int
        };
        let rest = encoded.skip(size);
        let header = if first {
            spec_first_header()
        } else {
            spec_next_header()
        };
        let more = if rest.len() == 0 {
            0x30u8
        } else {
            0x31u8
        };
        header + seq![more, 0x3Bu8] + encoded.take(size) + seq![0x1Bu8, 0x5C] + spec_frames(
            rest,
            false,
        )
    }
}

/// What is sent to the terminal for encoded bytes: the escape sequences,
/// then a line feed.
pub open spec fn spec_transmission(encoded: Seq<u8>) -> Seq<u8> {
    spec_frames(encoded, true) + seq![0x0Au8]
}

fn push_all(out: &mut Vec<u8>, bytes: &[u8], from: usize, to: usize)
    requires
        from <= to <= bytes@.len(),
    ensures
        final(out)@ == old(out)@ + bytes@.subrange(from as int, to as int),
{
    let mut i = from;
    while i < to
        invariant
            from <= i <= to <= bytes@.len(),
            out@ == old(out)@ + bytes@.subrange(from as int, i as int),
        decreases to - i,
    {
        out.push(bytes[i]);
        i += 1;
        assert(out@ =~= old(out)@ + bytes@.subrange(from as int, i as int));
    }
    assert(out@ =~= old(out)@ + bytes@.subrange(from as int, to as int));
}

/// Puts encoded bytes between escape sequences.
pub fn frame_for_terminal(encoded: &[u8]) -> (r: Vec<u8>)
    ensures
        r@ == spec_transmission(encoded@),
{
    let mut out: Vec<u8> = Vec::new();
    let n = encoded.len();
    let mut pos: usize = 0;
    proof {
        assert(encoded@.skip(0) =~= encoded@);
        assert(out@ + spec_frames(encoded@, true) =~= spec_frames(encoded@, true));
    }
    while pos < n
        invariant
            pos <= n,
            n == encoded@.len(),
            out@ + spec_frames(encoded@.skip(pos as int), pos == 0) == spec_frames(
                encoded@,
                true,
            ),
        decreases n - pos,
    {
        let size = if n - pos < CHUNK_SIZE {
            n - pos
        } else {
            CHUNK_SIZE
        };
        let ghost before = out@;
        let ghost tail = encoded@.skip(pos as int);
        if pos == 0 {
            out.push(0x1B);
            out.push(0x5F);
            out.push(0x47);
            out.push(0x66);
            out.push(0x3D);
            out.push(0x31);
            out.push(0x30);
            out.push(0x30);
            out.push(0x2C);
            out.push(0x61);
            out.push(0x3D);
            out.push(0x54);
            out.push(0x2C);
            out.push(0x6D);
            out.push(0x3D);
            assert(out@ =~= before + spec_first_header());
        } else {
            out.push(0x1B);
            out.push(0x5F);
            out.push(0x47);
            out.push(0x6D);
            out.push(0x3D);
            assert(out@ =~= before + spec_next_header());
        }
        let ghost header = if pos == 0 {
            spec_first_header()
        } else {
            spec_next_header()
        };
        let more: u8 = if pos + size == n {
            0x30
        } else {
            0x31
        };
        out.push(more);
        out.push(0x3B);
        push_all(&mut out, encoded, pos, pos + size);
        out.push(0x1B);
        out.push(0x5C);
        proof {
            assert(tail.take(size as int) =~= encoded@.subrange(pos as int, pos + size));
            assert(tail.skip(size as int) =~= encoded@.skip(pos + size));
            assert(out@ =~= before + (header + seq![more, 0x3Bu8] + tail.take(size as int) + seq![
                0x1Bu8,
                0x5C,
            ]));
            assert(spec_frames(tail, pos == 0) == header + seq![more, 0x3Bu8] + tail.take(
                size as int,
            ) + seq![0x1Bu8, 0x5C] + spec_frames(tail.skip(size as int), false));
            assert(out@ + spec_frames(encoded@.skip(pos + size), false) =~= before + spec_frames(
                tail,
                pos == 0,
            ));
        }
        pos = pos + size;
    }
    proof {
        assert(encoded@.skip(n as int).len() == 0);
        assert(out@ =~= spec_frames(encoded@, true));
    }
    out.push(0x0A);
    assert(out@ =~= spec_transmission(encoded@));
    out
}

/// Encodes the bytes of a picture and puts them between escape sequences.
pub fn encode_for_terminal(picture: &[u8]) -> (r: Vec<u8>)
    requires
        (picture@.len() / 3) * 4 + 4 <= usize::MAX,
    ensures
        r@ == spec_transmission(base64_standard(picture@)),
{
    let encoded = base64_encode(picture);
    frame_for_terminal(encoded.as_slice())
}

} // verus!
