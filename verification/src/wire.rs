//! The byte frames exchanged between the validator plugin and its services:
//! a transaction signature and its receipt travel as a borsh-encoded pair of
//! strings, read from a socket in chunks of at most `READ_BUFFER_LEN` bytes.

use vstd::prelude::*;
use vstd::utf8::encode_utf8;

verus! {

/// The size of the buffer that the services read a connection into.
pub const READ_BUFFER_LEN: usize = 4096;

/// The four little-endian bytes of a `u32`.
pub open spec fn le_u32(n: nat) -> Seq<u8> {
    seq![
        (n % 256) as u8,
        ((n / 256) % 256) as u8,
        ((n / 65536) % 256) as u8,
        ((n / 16777216) % 256) as u8,
    ]
}

/// Whether the UTF-8 form of `s` is short enough for a borsh length prefix.
pub open spec fn borsh_str_fits(s: Seq<char>) -> bool {
    encode_utf8(s).len() <= u32::MAX
}

/// The borsh form of a string: its UTF-8 byte length as a little-endian `u32`,
/// then its UTF-8 bytes.
pub open spec fn borsh_str(s: Seq<char>) -> Seq<u8> {
    le_u32(encode_utf8(s).len()) + encode_utf8(s)
}

/// The borsh form of a pair of strings: the two strings one after the other.
pub open spec fn borsh_pair(first: Seq<char>, second: Seq<char>) -> Seq<u8> {
    borsh_str(first) + borsh_str(second)
}

/// Whether `bytes` is the borsh form of some pair of strings.
pub open spec fn is_borsh_pair(bytes: Seq<u8>) -> bool {
    exists|a: Seq<char>, b: Seq<char>|
        borsh_str_fits(a) && borsh_str_fits(b) && bytes == #[trigger] borsh_pair(a, b)
}

/// `BorshSerialize::try_to_vec` on a pair of strings. borsh writes each string
/// as its UTF-8 byte length (a little-endian `u32`) followed by its bytes, into
/// a `Vec` that cannot fail to grow; it refuses a string whose byte length does
/// not fit in a `u32`.
#[verifier::external_body]
fn borsh_encode_pair(first: &str, second: &str) -> (bytes: Option<Vec<u8>>)
    ensures
        bytes is Some <==> (borsh_str_fits(first@) && borsh_str_fits(second@)),
        bytes matches Some(b) ==> b@ == borsh_pair(first@, second@),
{
    borsh::BorshSerialize::try_to_vec(&(first, second)).ok()
}

/// `BorshDeserialize::try_from_slice` for a pair of `String`s. borsh reads a
/// `u32` length and that many bytes for each string, refuses bytes that are not
/// UTF-8, and refuses input left over after the second string, so it succeeds
/// exactly on the borsh form of a pair of strings, and gives back that pair.
#[verifier::external_body]
fn borsh_decode_pair(bytes: &[u8]) -> (pair: Option<(String, String)>)
    ensures
        pair is Some <==> is_borsh_pair(bytes@),
        pair matches Some(p) ==> bytes@ == borsh_pair(p.0@, p.1@) && borsh_str_fits(p.0@)
            && borsh_str_fits(p.1@),
{
    <(String, String) as borsh::BorshDeserialize>::try_from_slice(bytes).ok()
}

/// The frame that carries a transaction signature and its HTML receipt to the
/// CDN service. `None` when one of them is too long for a borsh length prefix.
pub fn encode_tx_html(tx: &str, html: &str) -> (frame: Option<Vec<u8>>)
    ensures
        frame is Some <==> (borsh_str_fits(tx@) && borsh_str_fits(html@)),
        frame matches Some(f) ==> f@ == borsh_pair(tx@, html@),
{
    borsh_encode_pair(tx, html)
}

/// Reads a frame written by `encode_tx_html` back into the signature and the
/// HTML receipt. `None` exactly when the bytes are not such a frame.
pub fn decode_tx_html(frame: &[u8]) -> (pair: Option<(String, String)>)
    ensures
        pair is Some <==> is_borsh_pair(frame@),
        pair matches Some(p) ==> frame@ == borsh_pair(p.0@, p.1@) && borsh_str_fits(p.0@)
            && borsh_str_fits(p.1@),
{
    borsh_decode_pair(frame)
}

proof fn lemma_le_u32_value(n: nat)
    requires
        n <= u32::MAX,
    ensures
        n == le_u32(n)[0] as int + 256 * (le_u32(n)[1] as int) + 65536 * (le_u32(n)[2] as int)
            + 16777216 * (le_u32(n)[3] as int),
{
    let b0 = n % 256;
    let b1 = (n / 256) % 256;
    let b2 = (n / 65536) % 256;
    let b3 = (n / 16777216) % 256;
    assert(n == b0 + 256 * b1 + 65536 * b2 + 16777216 * b3) by (nonlinear_arith)
        requires
            n <= 0xffff_ffff,
            b0 == n % 256,
            b1 == (n / 256) % 256,
            b2 == (n / 65536) % 256,
            b3 == (n / 16777216) % 256,
    ;
}

/// The length prefix determines the length: different `u32` values have
/// different little-endian bytes.
pub proof fn lemma_le_u32_injective(m: nat, n: nat)
    requires
        m <= u32::MAX,
        n <= u32::MAX,
        le_u32(m) == le_u32(n),
    ensures
        m == n,
{
    lemma_le_u32_value(m);
    lemma_le_u32_value(n);
}

/// A frame is read back as the pair that was written: if two pairs of strings
/// have the same borsh form, they are the same pair.
pub proof fn lemma_borsh_pair_unique(a: Seq<char>, b: Seq<char>, x: Seq<char>, y: Seq<char>)
    requires
        borsh_str_fits(a),
        borsh_str_fits(b),
        borsh_str_fits(x),
        borsh_str_fits(y),
        borsh_pair(x, y) == borsh_pair(a, b),
    ensures
        x == a,
        y == b,
{
    let ea = encode_utf8(a);
    let ex = encode_utf8(x);
    let whole = borsh_pair(a, b);
    assert(whole.subrange(0, 4) =~= le_u32(ea.len()));
    assert(borsh_pair(x, y).subrange(0, 4) =~= le_u32(ex.len()));
    lemma_le_u32_injective(ea.len(), ex.len());
    assert(whole.subrange(4, 4 + ea.len() as int) =~= ea);
    assert(borsh_pair(x, y).subrange(4, 4 + ex.len() as int) =~= ex);
    vstd::utf8::encode_utf8_decode_utf8(a);
    vstd::utf8::encode_utf8_decode_utf8(x);
    assert(x == a);
    let rest = 4 + ea.len();
    assert(whole.subrange(rest as int, whole.len() as int) =~= borsh_str(b));
    assert(borsh_pair(x, y).subrange(rest as int, whole.len() as int) =~= borsh_str(y));
    let eb = encode_utf8(b);
    let ey = encode_utf8(y);
    assert(borsh_str(b).subrange(0, 4) =~= le_u32(eb.len()));
    assert(borsh_str(y).subrange(0, 4) =~= le_u32(ey.len()));
    lemma_le_u32_injective(eb.len(), ey.len());
    assert(borsh_str(b).subrange(4, 4 + eb.len() as int) =~= eb);
    assert(borsh_str(y).subrange(4, 4 + ey.len() as int) =~= ey);
    vstd::utf8::encode_utf8_decode_utf8(b);
    vstd::utf8::encode_utf8_decode_utf8(y);
}

/// What the CDN reads back from a frame is what the plugin wrote into it: the
/// frame of `(tx, html)` is a borsh pair, and any pair it decodes to is
/// `(tx, html)` itself.
pub proof fn lemma_tx_html_roundtrip(tx: Seq<char>, html: Seq<char>, x: Seq<char>, y: Seq<char>)
    requires
        borsh_str_fits(tx),
        borsh_str_fits(html),
    ensures
        is_borsh_pair(borsh_pair(tx, html)),
        (borsh_pair(x, y) == borsh_pair(tx, html) && borsh_str_fits(x) && borsh_str_fits(y))
            ==> (x == tx && y == html),
{
    assert(borsh_str_fits(tx) && borsh_str_fits(html) && borsh_pair(tx, html) == borsh_pair(
        tx,
        html,
    ));
    if borsh_pair(x, y) == borsh_pair(tx, html) && borsh_str_fits(x) && borsh_str_fits(y) {
        lemma_borsh_pair_unique(tx, html, x, y);
    }
}

/// What a connection handler does after one read from the socket.
#[derive(Debug, PartialEq, Eq, Structural, Clone, Copy)]
pub enum ReadStep {
    /// The peer closed the connection; nothing is to be processed.
    Disconnected,
    /// A short read: the message is complete and can be decoded.
    Complete,
    /// A full buffer was read: more of the message may follow.
    NeedMore,
}

/// Takes one read of at most `READ_BUFFER_LEN` bytes into the message gathered
/// so far. An empty read means the peer left; a read shorter than the buffer
/// ends the message; a full buffer asks for another read.
pub fn handle_chunk(stream_data: &mut Vec<u8>, chunk: &[u8]) -> (step: ReadStep)
    requires
        chunk@.len() <= READ_BUFFER_LEN,
    ensures
        chunk@.len() == 0 ==> step == ReadStep::Disconnected && final(stream_data)@ == old(
            stream_data,
        )@,
        0 < chunk@.len() < READ_BUFFER_LEN ==> step == ReadStep::Complete && final(stream_data)@
            == old(stream_data)@ + chunk@,
        chunk@.len() == READ_BUFFER_LEN ==> step == ReadStep::NeedMore && final(stream_data)@
            == old(stream_data)@ + chunk@,
{
    if chunk.len() == 0 {
        return ReadStep::Disconnected;
    }
    let mut i: usize = 0;
    while i < chunk.len()
        invariant
            i <= chunk@.len(),
            stream_data@ == old(stream_data)@ + chunk@.subrange(0, i as int),
        decreases chunk@.len() - i,
    {
        stream_data.push(chunk[i]);
        i = i + 1;
        assert(chunk@.subrange(0, i as int) =~= chunk@.subrange(0, (i - 1) as int).push(
            chunk@[i - 1],
        ));
    }
    assert(chunk@.subrange(0, chunk@.len() as int) =~= chunk@);
    if chunk.len() < READ_BUFFER_LEN {
        ReadStep::Complete
    } else {
        ReadStep::NeedMore
    }
}

} // verus!
