//! The resumable-token codec: a fixed-layout binary encoding of the
//! credential bundle that a successful login produces.
//!
//! The layout is the account id as a fixed 8-byte big-endian integer,
//! followed by the nine variable-length byte fields in a fixed order,
//! each prefixed by a 16-bit big-endian length.  Decoding accepts
//! trailing bytes after the last field and rejects any truncated or
//! malformed buffer with `CodecError::CorruptToken`.

use vstd::assert_seqs_equal;
use vstd::prelude::*;

verus! {

/// A resumable credential bundle: the signed 64-bit account id plus the
/// nine opaque byte fields the remote service hands out at login.  It is
/// produced by a successful login and consumed by token-login attempts.
#[derive(Clone, Debug, PartialEq, Eq)]
pub struct Token {
    pub uin: i64,
    pub d2: Vec<u8>,
    pub d2key: Vec<u8>,
    pub tgt: Vec<u8>,
    pub srm_token: Vec<u8>,
    pub t133: Vec<u8>,
    pub encrypted_a1: Vec<u8>,
    pub wt_session_ticket_key: Vec<u8>,
    pub out_packet_session_id: Vec<u8>,
    pub tgtgt_key: Vec<u8>,
}

/// The mathematical image of a `Token`: the same fields with each byte
/// vector abstracted to a sequence.
pub struct TokenModel {
    pub uin: i64,
    pub d2: Seq<u8>,
    pub d2key: Seq<u8>,
    pub tgt: Seq<u8>,
    pub srm_token: Seq<u8>,
    pub t133: Seq<u8>,
    pub encrypted_a1: Seq<u8>,
    pub wt_session_ticket_key: Seq<u8>,
    pub out_packet_session_id: Seq<u8>,
    pub tgtgt_key: Seq<u8>,
}

impl TokenModel {
    /// A token is encodable exactly when every variable-length field fits
    /// its 16-bit length prefix.
    pub open spec fn wf(self) -> bool {
        &&& self.d2.len() <= 0xFFFF
        &&& self.d2key.len() <= 0xFFFF
        &&& self.tgt.len() <= 0xFFFF
        &&& self.srm_token.len() <= 0xFFFF
        &&& self.t133.len() <= 0xFFFF
        &&& self.encrypted_a1.len() <= 0xFFFF
        &&& self.wt_session_ticket_key.len() <= 0xFFFF
        &&& self.out_packet_session_id.len() <= 0xFFFF
        &&& self.tgtgt_key.len() <= 0xFFFF
    }
}

impl View for Token {
    type V = TokenModel;

    open spec fn view(&self) -> TokenModel {
        TokenModel {
            uin: self.uin,
            d2: self.d2@,
            d2key: self.d2key@,
            tgt: self.tgt@,
            srm_token: self.srm_token@,
            t133: self.t133@,
            encrypted_a1: self.encrypted_a1@,
            wt_session_ticket_key: self.wt_session_ticket_key@,
            out_packet_session_id: self.out_packet_session_id@,
            tgtgt_key: self.tgtgt_key@,
        }
    }
}

/// The single decoding failure: the buffer does not hold a whole token.
/// It signals a storage-layer problem and is never retried.
#[derive(Clone, Copy, PartialEq, Eq, Structural, Debug)]
pub enum CodecError {
    CorruptToken,
}

/// The shortest buffer any token can encode to: 8 bytes of account id
/// plus nine empty fields of 2 length bytes each.
pub const MIN_TOKEN_LEN: usize = 26;

// ---------- big-endian byte specs ----------

pub open spec fn spec_u16_be(x: u16) -> Seq<u8> {
    seq![((x >> 8) & 0xff) as u8, (x & 0xff) as u8]
}

pub open spec fn spec_u16_from_be(hi: u8, lo: u8) -> u16 {
    ((hi as u16) << 8) | (lo as u16)
}

pub open spec fn spec_u64_be(x: u64) -> Seq<u8> {
    seq![
        ((x >> 56) & 0xff) as u8,
        ((x >> 48) & 0xff) as u8,
        ((x >> 40) & 0xff) as u8,
        ((x >> 32) & 0xff) as u8,
        ((x >> 24) & 0xff) as u8,
        ((x >> 16) & 0xff) as u8,
        ((x >> 8) & 0xff) as u8,
        (x & 0xff) as u8,
    ]
}

pub open spec fn spec_u64_from_be(s: Seq<u8>) -> u64
    recommends
        s.len() == 8,
{
    ((s[0] as u64) << 56) | ((s[1] as u64) << 48) | ((s[2] as u64) << 40) | ((s[3] as u64) << 32)
        | ((s[4] as u64) << 24) | ((s[5] as u64) << 16) | ((s[6] as u64) << 8) | (s[7] as u64)
}

pub proof fn lemma_u16_be_round_trip(x: u16)
    ensures
        spec_u16_from_be(spec_u16_be(x)[0], spec_u16_be(x)[1]) == x,
{
    assert((((((x >> 8) & 0xff) as u8) as u16) << 8) | (((x & 0xff) as u8) as u16) == x)
        by (bit_vector);
}

pub proof fn lemma_u64_be_round_trip(x: u64)
    ensures
        spec_u64_from_be(spec_u64_be(x)) == x,
{
    let s = spec_u64_be(x);
    assert(((((x >> 56) & 0xff) as u8 as u64) << 56) | ((((x >> 48) & 0xff) as u8 as u64) << 48)
        | ((((x >> 40) & 0xff) as u8 as u64) << 40) | ((((x >> 32) & 0xff) as u8 as u64) << 32)
        | ((((x >> 24) & 0xff) as u8 as u64) << 24) | ((((x >> 16) & 0xff) as u8 as u64) << 16)
        | ((((x >> 8) & 0xff) as u8 as u64) << 8) | ((x & 0xff) as u8 as u64) == x)
        by (bit_vector);
}

// ---------- the token layout ----------

/// One variable-length field: 16-bit big-endian length, then the bytes.
pub open spec fn spec_field(f: Seq<u8>) -> Seq<u8> {
    spec_u16_be(f.len() as u16) + f
}

/// The whole encoded token.
pub open spec fn spec_encode_token(t: TokenModel) -> Seq<u8> {
    spec_u64_be(t.uin as u64) + spec_field(t.d2) + spec_field(t.d2key) + spec_field(t.tgt)
        + spec_field(t.srm_token) + spec_field(t.t133) + spec_field(t.encrypted_a1)
        + spec_field(t.wt_session_ticket_key) + spec_field(t.out_packet_session_id)
        + spec_field(t.tgtgt_key)
}

/// Reading one length-prefixed field at `pos`: the bytes and the position
/// after them, or nothing if the buffer is too short.
pub open spec fn spec_parse_field(b: Seq<u8>, pos: int) -> Option<(Seq<u8>, int)> {
    if 0 <= pos && pos + 2 <= b.len() {
        let l = spec_u16_from_be(b[pos], b[pos + 1]) as int;
        if pos + 2 + l <= b.len() {
            Some((b.subrange(pos + 2, pos + 2 + l), pos + 2 + l))
        } else {
            None
        }
    } else {
        None
    }
}

/// Decoding: the account id, then the nine fields in order.  Trailing
/// bytes after the last field are ignored.
pub open spec fn spec_decode_token(b: Seq<u8>) -> Option<TokenModel> {
    if b.len() < 8 {
        None
    } else {
        let uin = spec_u64_from_be(b.subrange(0, 8)) as i64;
        match spec_parse_field(b, 8) {
            None => None,
            Some((d2, p1)) => match spec_parse_field(b, p1) {
                None => None,
                Some((d2key, p2)) => match spec_parse_field(b, p2) {
                    None => None,
                    Some((tgt, p3)) => match spec_parse_field(b, p3) {
                        None => None,
                        Some((srm_token, p4)) => match spec_parse_field(b, p4) {
                            None => None,
                            Some((t133, p5)) => match spec_parse_field(b, p5) {
                                None => None,
                                Some((encrypted_a1, p6)) => match spec_parse_field(b, p6) {
                                    None => None,
                                    Some((wt_session_ticket_key, p7)) => match spec_parse_field(
                                        b,
                                        p7,
                                    ) {
                                        None => None,
                                        Some((out_packet_session_id, p8)) => match spec_parse_field(
                                            b,
                                            p8,
                                        ) {
                                            None => None,
                                            Some((tgtgt_key, p9)) => Some(
                                                TokenModel {
                                                    uin,
                                                    d2,
                                                    d2key,
                                                    tgt,
                                                    srm_token,
                                                    t133,
                                                    encrypted_a1,
                                                    wt_session_ticket_key,
                                                    out_packet_session_id,
                                                    tgtgt_key,
                                                },
                                            ),
                                        },
                                    },
                                },
                            },
                        },
                    },
                },
            },
        }
    }
}

// ---------- executable codec ----------

/// Whether every field of `t` fits its 16-bit length prefix.
pub fn token_is_wf(t: &Token) -> (b: bool)
    ensures
        b == t@.wf(),
{
    t.d2.len() <= 0xFFFF && t.d2key.len() <= 0xFFFF && t.tgt.len() <= 0xFFFF
        && t.srm_token.len() <= 0xFFFF && t.t133.len() <= 0xFFFF && t.encrypted_a1.len() <= 0xFFFF
        && t.wt_session_ticket_key.len() <= 0xFFFF && t.out_packet_session_id.len() <= 0xFFFF
        && t.tgtgt_key.len() <= 0xFFFF
}

fn push_u16_be(out: &mut Vec<u8>, x: u16)
    ensures
        final(out)@ == old(out)@ + spec_u16_be(x),
{
    proof {
        assert(((x >> 8) & 0xff) < 256 && (x & 0xff) < 256) by (bit_vector);
    }
    out.push(((x >> 8) & 0xff) as u8);
    out.push((x & 0xff) as u8);
    proof {
        assert_seqs_equal!(out@ == old(out)@ + spec_u16_be(x));
    }
}

fn push_u64_be(out: &mut Vec<u8>, x: u64)
    ensures
        final(out)@ == old(out)@ + spec_u64_be(x),
{
    proof {
        assert(((x >> 56) & 0xff) < 256 && ((x >> 48) & 0xff) < 256 && ((x >> 40) & 0xff) < 256
            && ((x >> 32) & 0xff) < 256 && ((x >> 24) & 0xff) < 256 && ((x >> 16) & 0xff) < 256
            && ((x >> 8) & 0xff) < 256 && (x & 0xff) < 256) by (bit_vector);
    }
    out.push(((x >> 56) & 0xff) as u8);
    out.push(((x >> 48) & 0xff) as u8);
    out.push(((x >> 40) & 0xff) as u8);
    out.push(((x >> 32) & 0xff) as u8);
    out.push(((x >> 24) & 0xff) as u8);
    out.push(((x >> 16) & 0xff) as u8);
    out.push(((x >> 8) & 0xff) as u8);
    out.push((x & 0xff) as u8);
    proof {
        assert_seqs_equal!(out@ == old(out)@ + spec_u64_be(x));
    }
}

fn push_field(out: &mut Vec<u8>, f: &Vec<u8>)
    requires
        f@.len() <= 0xFFFF,
    ensures
        final(out)@ == old(out)@ + spec_field(f@),
{
    push_u16_be(out, f.len() as u16);
    let ghost mid = out@;
    let mut i: usize = 0;
    while i < f.len()
        invariant
            i <= f.len(),
            out@ == mid + f@.subrange(0, i as int),
        decreases f.len() - i,
    {
        out.push(f[i]);
        i = i + 1;
        proof {
            assert_seqs_equal!(out@ == mid + f@.subrange(0, i as int));
        }
    }
    proof {
        assert(f@.subrange(0, f@.len() as int) == f@);
    }
}

/// Encodes a well-formed token into its fixed binary layout.
pub fn token_to_bytes(t: &Token) -> (r: Vec<u8>)
    requires
        t@.wf(),
    ensures
        r@ == spec_encode_token(t@),
{
    let mut out: Vec<u8> = Vec::new();
    push_u64_be(&mut out, t.uin as u64);
    push_field(&mut out, &t.d2);
    push_field(&mut out, &t.d2key);
    push_field(&mut out, &t.tgt);
    push_field(&mut out, &t.srm_token);
    push_field(&mut out, &t.t133);
    push_field(&mut out, &t.encrypted_a1);
    push_field(&mut out, &t.wt_session_ticket_key);
    push_field(&mut out, &t.out_packet_session_id);
    push_field(&mut out, &t.tgtgt_key);
    proof {
        assert(out@ =~= spec_encode_token(t@));
    }
    out
}

/// Encodes any token, or reports that a field is too long for its
/// 16-bit length prefix.
pub fn encode_token(t: &Token) -> (r: Option<Vec<u8>>)
    ensures
        t@.wf() <==> r is Some,
        r matches Some(v) ==> v@ == spec_encode_token(t@),
{
    if token_is_wf(t) {
        Some(token_to_bytes(t))
    } else {
        None
    }
}

fn read_u16_be(data: &Vec<u8>, pos: usize) -> (x: u16)
    requires
        pos + 2 <= data@.len(),
    ensures
        x == spec_u16_from_be(data@[pos as int], data@[pos as int + 1]),
{
    let _n = data.len();
    ((data[pos] as u16) << 8) | (data[pos + 1] as u16)
}

/// Reads one length-prefixed field at `pos`.
fn read_field(data: &Vec<u8>, pos: usize) -> (r: Option<(Vec<u8>, usize)>)
    requires
        pos <= data@.len(),
    ensures
        match r {
            Some((f, p)) => {
                &&& spec_parse_field(data@, pos as int) == Some((f@, p as int))
                &&& p <= data@.len()
            },
            None => spec_parse_field(data@, pos as int) is None,
        },
{
    let n = data.len();
    if n - pos < 2 {
        return None;
    }
    let l = read_u16_be(data, pos) as usize;
    if l > n - (pos + 2) {
        return None;
    }
    let mut f: Vec<u8> = Vec::new();
    let mut i: usize = 0;
    while i < l
        invariant
            i <= l,
            pos + 2 + l <= data@.len(),
            data@.len() <= usize::MAX,
            f@ == data@.subrange(pos + 2, pos + 2 + i),
        decreases l - i,
    {
        f.push(data[pos + 2 + i]);
        i = i + 1;
        proof {
            assert_seqs_equal!(f@ == data@.subrange(pos + 2, pos + 2 + i));
        }
    }
    Some((f, pos + 2 + l))
}

/// Decodes a token from its fixed binary layout, rejecting any buffer
/// that does not hold a whole token.
pub fn bytes_to_token(data: &Vec<u8>) -> (r: Result<Token, CodecError>)
    ensures
        r matches Ok(t) ==> spec_decode_token(data@) == Some(t@),
        r is Err ==> spec_decode_token(data@) is None,
{
    if data.len() < 8 {
        return Err(CodecError::CorruptToken);
    }
    let hi = ((data[0] as u64) << 56) | ((data[1] as u64) << 48) | ((data[2] as u64) << 40)
        | ((data[3] as u64) << 32) | ((data[4] as u64) << 24) | ((data[5] as u64) << 16)
        | ((data[6] as u64) << 8) | (data[7] as u64);
    let uin = hi as i64;
    proof {
        assert(data@.subrange(0, 8)[0] == data@[0]);
        assert(hi == spec_u64_from_be(data@.subrange(0, 8)));
    }
    let r1 = match read_field(data, 8) {
        None => {
            return Err(CodecError::CorruptToken);
        },
        Some(x) => x,
    };
    let r2 = match read_field(data, r1.1) {
        None => {
            return Err(CodecError::CorruptToken);
        },
        Some(x) => x,
    };
    let r3 = match read_field(data, r2.1) {
        None => {
            return Err(CodecError::CorruptToken);
        },
        Some(x) => x,
    };
    let r4 = match read_field(data, r3.1) {
        None => {
            return Err(CodecError::CorruptToken);
        },
        Some(x) => x,
    };
    let r5 = match read_field(data, r4.1) {
        None => {
            return Err(CodecError::CorruptToken);
        },
        Some(x) => x,
    };
    let r6 = match read_field(data, r5.1) {
        None => {
            return Err(CodecError::CorruptToken);
        },
        Some(x) => x,
    };
    let r7 = match read_field(data, r6.1) {
        None => {
            return Err(CodecError::CorruptToken);
        },
        Some(x) => x,
    };
    let r8 = match read_field(data, r7.1) {
        None => {
            return Err(CodecError::CorruptToken);
        },
        Some(x) => x,
    };
    let r9 = match read_field(data, r8.1) {
        None => {
            return Err(CodecError::CorruptToken);
        },
        Some(x) => x,
    };
    let t = Token {
        uin,
        d2: r1.0,
        d2key: r2.0,
        tgt: r3.0,
        srm_token: r4.0,
        t133: r5.0,
        encrypted_a1: r6.0,
        wt_session_ticket_key: r7.0,
        out_packet_session_id: r8.0,
        tgtgt_key: r9.0,
    };
    Ok(t)
}

// ---------- laws ----------

proof fn lemma_parse_field_at(b: Seq<u8>, pos: int, f: Seq<u8>)
    requires
        0 <= pos,
        f.len() <= 0xFFFF,
        pos + 2 + f.len() <= b.len(),
        b.subrange(pos, pos + 2 + f.len()) == spec_field(f),
    ensures
        spec_parse_field(b, pos) == Some((f, pos + 2 + f.len())),
{
    let l16 = f.len() as u16;
    lemma_u16_be_round_trip(l16);
    let seg = b.subrange(pos, pos + 2 + f.len());
    assert(b[pos] == seg[0]);
    assert(b[pos + 1] == seg[1]);
    assert(spec_u16_from_be(b[pos], b[pos + 1]) == l16);
    assert(l16 as int == f.len());
    assert(b.subrange(pos + 2, pos + 2 + f.len()) =~= f) by {
        assert(forall|j: int|
            0 <= j < f.len() ==> #[trigger] b.subrange(pos + 2, pos + 2 + f.len())[j] == seg[j
                + 2]);
    }
}

/// Round-trip law: every well-formed token decodes from its own encoding
/// to exactly itself.
#[verifier::spinoff_prover]
#[verifier::rlimit(100)]
pub proof fn lemma_token_round_trip(t: TokenModel)
    requires
        t.wf(),
    ensures
        spec_decode_token(spec_encode_token(t)) == Some(t),
{
    let b = spec_encode_token(t);
    let uin64 = t.uin as u64;
    lemma_u64_be_round_trip(uin64);
    assert(b.subrange(0, 8) =~= spec_u64_be(uin64));
    let x = t.uin;
    assert(((x as u64) as i64) == x) by (bit_vector);
    let p1 = 8 + 2 + t.d2.len() as int;
    let p2 = p1 + 2 + t.d2key.len();
    let p3 = p2 + 2 + t.tgt.len();
    let p4 = p3 + 2 + t.srm_token.len();
    let p5 = p4 + 2 + t.t133.len();
    let p6 = p5 + 2 + t.encrypted_a1.len();
    let p7 = p6 + 2 + t.wt_session_ticket_key.len();
    let p8 = p7 + 2 + t.out_packet_session_id.len();
    let p9 = p8 + 2 + t.tgtgt_key.len();
    assert(b.len() == p9);
    assert(b.subrange(8, p1) =~= spec_field(t.d2));
    lemma_parse_field_at(b, 8, t.d2);
    assert(b.subrange(p1, p2) =~= spec_field(t.d2key));
    lemma_parse_field_at(b, p1, t.d2key);
    assert(b.subrange(p2, p3) =~= spec_field(t.tgt));
    lemma_parse_field_at(b, p2, t.tgt);
    assert(b.subrange(p3, p4) =~= spec_field(t.srm_token));
    lemma_parse_field_at(b, p3, t.srm_token);
    assert(b.subrange(p4, p5) =~= spec_field(t.t133));
    lemma_parse_field_at(b, p4, t.t133);
    assert(b.subrange(p5, p6) =~= spec_field(t.encrypted_a1));
    lemma_parse_field_at(b, p5, t.encrypted_a1);
    assert(b.subrange(p6, p7) =~= spec_field(t.wt_session_ticket_key));
    lemma_parse_field_at(b, p6, t.wt_session_ticket_key);
    assert(b.subrange(p7, p8) =~= spec_field(t.out_packet_session_id));
    lemma_parse_field_at(b, p7, t.out_packet_session_id);
    assert(b.subrange(p8, p9) =~= spec_field(t.tgtgt_key));
    lemma_parse_field_at(b, p8, t.tgtgt_key);
}

/// Rejection law: no buffer shorter than the minimum token length
/// decodes to a token.
pub proof fn lemma_short_buffer_fails(b: Seq<u8>)
    requires
        b.len() < MIN_TOKEN_LEN,
    ensures
        spec_decode_token(b) is None,
{
}

} // verus!
