//! Typed tabular results and their byte encoding.
//!
//! A select-shaped wire result carries its table as raw bytes. The format is
//! length-prefixed and canonical: a 4-byte big-endian row count, a 4-byte
//! big-endian column count, then each column as a 4-byte big-endian length
//! followed by that many bytes, with nothing trailing. Decoding accepts a
//! byte string exactly when it is the encoding of some well-formed result,
//! and encoding then decoding returns the original result.

use vstd::prelude::*;

verus! {

/// Decoded tabular result of one select-shaped operation.
#[derive(Clone, Debug, PartialEq, Eq)]
pub struct SelectResult {
    pub row_count: u32,
    pub columns: Vec<Vec<u8>>,
}

/// Mathematical model of a `SelectResult`.
pub struct SelectResultView {
    pub row_count: u32,
    pub columns: Seq<Seq<u8>>,
}

impl SelectResultView {
    /// Every length of the result fits the 4-byte prefixes of the format.
    pub open spec fn wf(self) -> bool {
        &&& self.columns.len() <= u32::MAX
        &&& forall|i: int| 0 <= i < self.columns.len() ==> (#[trigger] self.columns[i]).len() <= u32::MAX
    }
}

impl View for SelectResult {
    type V = SelectResultView;

    open spec fn view(&self) -> SelectResultView {
        SelectResultView { row_count: self.row_count, columns: self.columns.deep_view() }
    }
}

/// The unsigned value that four big-endian bytes spell.
pub open spec fn be32(b0: u8, b1: u8, b2: u8, b3: u8) -> u32 {
    ((b0 as u32) << 24) | ((b1 as u32) << 16) | ((b2 as u32) << 8) | (b3 as u32)
}

/// The four big-endian bytes of an unsigned 32-bit value.
pub open spec fn u32_be(n: u32) -> Seq<u8> {
    seq![
        ((n >> 24) & 0xff) as u8,
        ((n >> 16) & 0xff) as u8,
        ((n >> 8) & 0xff) as u8,
        (n & 0xff) as u8,
    ]
}

/// Reading back the four bytes of a value yields the value.
pub proof fn lemma_be32_of_u32_be(n: u32)
    ensures
        be32(u32_be(n)[0], u32_be(n)[1], u32_be(n)[2], u32_be(n)[3]) == n,
{
    assert((((((n >> 24) & 0xff) as u8) as u32) << 24) | (((((n >> 16) & 0xff) as u8) as u32)
        << 16) | (((((n >> 8) & 0xff) as u8) as u32) << 8) | (((n & 0xff) as u8) as u32) == n)
        by (bit_vector);
}

/// Spelling out the value of four bytes yields those bytes.
pub proof fn lemma_u32_be_of_be32(b0: u8, b1: u8, b2: u8, b3: u8)
    ensures
        u32_be(be32(b0, b1, b2, b3)) =~= seq![b0, b1, b2, b3],
{
    assert((((((b0 as u32) << 24) | ((b1 as u32) << 16) | ((b2 as u32) << 8) | (b3 as u32)) >> 24)
        & 0xff) as u8 == b0) by (bit_vector);
    assert((((((b0 as u32) << 24) | ((b1 as u32) << 16) | ((b2 as u32) << 8) | (b3 as u32)) >> 16)
        & 0xff) as u8 == b1) by (bit_vector);
    assert((((((b0 as u32) << 24) | ((b1 as u32) << 16) | ((b2 as u32) << 8) | (b3 as u32)) >> 8)
        & 0xff) as u8 == b2) by (bit_vector);
    assert(((((b0 as u32) << 24) | ((b1 as u32) << 16) | ((b2 as u32) << 8) | (b3 as u32)) & 0xff)
        as u8 == b3) by (bit_vector);
}

/// Bytes of a column sequence: each column length-prefixed, in order.
pub open spec fn cols_bytes(cs: Seq<Seq<u8>>) -> Seq<u8>
    decreases cs.len(),
{
    if cs.len() == 0 {
        Seq::empty()
    } else {
        u32_be(cs[0].len() as u32) + cs[0] + cols_bytes(cs.skip(1))
    }
}

/// The canonical encoding of a tabular result.
pub open spec fn encode_bytes(v: SelectResultView) -> Seq<u8> {
    u32_be(v.row_count) + u32_be(v.columns.len() as u32) + cols_bytes(v.columns)
}

/// Parses exactly `k` length-prefixed columns off the front of `b`,
/// returning them with the unconsumed rest, or nothing where `b` is too
/// short for the lengths it spells.
pub open spec fn parse_cols(b: Seq<u8>, k: nat) -> Option<(Seq<Seq<u8>>, Seq<u8>)>
    decreases k,
{
    if k == 0 {
        Some((Seq::empty(), b))
    } else if b.len() < 4 {
        None
    } else {
        let n = be32(b[0], b[1], b[2], b[3]) as int;
        if b.len() < 4 + n {
            None
        } else {
            let col = b.subrange(4, 4 + n);
            match parse_cols(b.skip(4 + n), (k - 1) as nat) {
                Some(t) => Some((seq![col] + t.0, t.1)),
                None => None,
            }
        }
    }
}

/// The result a byte string decodes to, or nothing where the bytes are not
/// a canonical encoding.
pub open spec fn decode_bytes(b: Seq<u8>) -> Option<SelectResultView> {
    if b.len() < 8 {
        None
    } else {
        let rc = be32(b[0], b[1], b[2], b[3]);
        let k = be32(b[4], b[5], b[6], b[7]);
        match parse_cols(b.skip(8), k as nat) {
            Some(t) => if t.1.len() == 0 {
                Some(SelectResultView { row_count: rc, columns: t.0 })
            } else {
                None
            },
            None => None,
        }
    }
}

/// Well-formed columns parse back out of their own bytes, whatever follows.
pub proof fn lemma_parse_cols_of_bytes(cs: Seq<Seq<u8>>, rest: Seq<u8>)
    requires
        forall|i: int| 0 <= i < cs.len() ==> (#[trigger] cs[i]).len() <= u32::MAX,
    ensures
        parse_cols(cols_bytes(cs) + rest, cs.len()) == Some((cs, rest)),
    decreases cs.len(),
{
    if cs.len() == 0 {
        assert(cols_bytes(cs) + rest =~= rest);
        assert(cs =~= Seq::<Seq<u8>>::empty());
    } else {
        let c0 = cs[0];
        let tail = cs.skip(1);
        let b = cols_bytes(cs) + rest;
        let prefix = u32_be(c0.len() as u32);
        assert(b =~= prefix + c0 + (cols_bytes(tail) + rest));
        lemma_be32_of_u32_be(c0.len() as u32);
        assert(b[0] == prefix[0] && b[1] == prefix[1] && b[2] == prefix[2] && b[3] == prefix[3]);
        let n = be32(b[0], b[1], b[2], b[3]) as int;
        assert(n == c0.len());
        assert(b.len() >= 4 + n);
        assert(b.subrange(4, 4 + n) =~= c0);
        assert(b.skip(4 + n) =~= cols_bytes(tail) + rest);
        lemma_parse_cols_of_bytes(tail, rest);
        assert(parse_cols(b.skip(4 + n), (cs.len() - 1) as nat) == Some((tail, rest)));
        assert(seq![c0] + tail =~= cs);
    }
}

/// Whatever parses as `k` columns was exactly their bytes followed by the
/// unconsumed rest, and each parsed column fits its length prefix.
#[verifier::rlimit(50)]
pub proof fn lemma_bytes_of_parse_cols(b: Seq<u8>, k: nat)
    ensures
        parse_cols(b, k) matches Some(t) ==> {
            &&& t.0.len() == k
            &&& forall|i: int| 0 <= i < t.0.len() ==> (#[trigger] t.0[i]).len() <= u32::MAX
            &&& cols_bytes(t.0) + t.1 == b
        },
    decreases k,
{
    if k == 0 {
        match parse_cols(b, k) {
            Some(t) => {
                assert(cols_bytes(t.0) + t.1 =~= b);
            },
            None => {},
        }
    } else if b.len() >= 4 {
        let n = be32(b[0], b[1], b[2], b[3]) as int;
        if b.len() >= 4 + n {
            let col = b.subrange(4, 4 + n);
            lemma_bytes_of_parse_cols(b.skip(4 + n), (k - 1) as nat);
            match parse_cols(b.skip(4 + n), (k - 1) as nat) {
                Some(t) => {
                    let cs = seq![col] + t.0;
                    assert(cs.skip(1) =~= t.0);
                    lemma_u32_be_of_be32(b[0], b[1], b[2], b[3]);
                    assert(u32_be(col.len() as u32) =~= seq![b[0], b[1], b[2], b[3]]);
                    assert(cols_bytes(cs) == u32_be(col.len() as u32) + col + cols_bytes(t.0));
                    assert(cols_bytes(t.0) + t.1 == b.skip(4 + n));
                    vstd::seq_lib::lemma_concat_associative(
                        seq![b[0], b[1], b[2], b[3]] + col,
                        cols_bytes(t.0),
                        t.1,
                    );
                    assert((seq![b[0], b[1], b[2], b[3]] + col) + b.skip(4 + n) =~= b);
                    assert(cols_bytes(cs) + t.1 =~= b);
                    assert(forall|i: int| 0 <= i < cs.len() ==> (#[trigger] cs[i]).len()
                        <= u32::MAX);
                },
                None => {},
            }
        }
    }
}

/// Round trip: a well-formed result decodes back out of its own encoding.
pub proof fn lemma_decode_of_encode(v: SelectResultView)
    requires
        v.wf(),
    ensures
        decode_bytes(encode_bytes(v)) == Some(v),
{
    let b = encode_bytes(v);
    let rcb = u32_be(v.row_count);
    let kb = u32_be(v.columns.len() as u32);
    assert(b =~= rcb + kb + cols_bytes(v.columns));
    lemma_be32_of_u32_be(v.row_count);
    lemma_be32_of_u32_be(v.columns.len() as u32);
    assert(b[0] == rcb[0] && b[1] == rcb[1] && b[2] == rcb[2] && b[3] == rcb[3]);
    assert(b[4] == kb[0] && b[5] == kb[1] && b[6] == kb[2] && b[7] == kb[3]);
    assert(be32(b[0], b[1], b[2], b[3]) == v.row_count);
    assert(be32(b[4], b[5], b[6], b[7]) as nat == v.columns.len());
    lemma_parse_cols_of_bytes(v.columns, Seq::empty());
    assert(b.skip(8) =~= cols_bytes(v.columns) + Seq::<u8>::empty());
    let k = be32(b[4], b[5], b[6], b[7]);
    assert(k as nat == v.columns.len());
    assert(parse_cols(b.skip(8), k as nat) == Some((v.columns, Seq::<u8>::empty())));
    assert(decode_bytes(b) == Some(SelectResultView { row_count: v.row_count, columns: v.columns }));
    assert(SelectResultView { row_count: v.row_count, columns: v.columns } == v);
}

/// The first eight bytes of a byte string, followed by the rest, are the
/// whole string.
proof fn lemma_head_bytes(b: Seq<u8>)
    requires
        b.len() >= 8,
    ensures
        seq![b[0], b[1], b[2], b[3]] + seq![b[4], b[5], b[6], b[7]] + b.skip(8) == b,
{
    assert(seq![b[0], b[1], b[2], b[3]] + seq![b[4], b[5], b[6], b[7]] + b.skip(8) =~= b);
}

/// Canonicity: whatever decodes was well formed and encodes back to the
/// very bytes it was decoded from.
#[verifier::rlimit(100)]
pub proof fn lemma_encode_of_decode(b: Seq<u8>)
    ensures
        decode_bytes(b) matches Some(v) ==> v.wf() && encode_bytes(v) == b,
{
    if b.len() >= 8 {
        let k = be32(b[4], b[5], b[6], b[7]);
        lemma_bytes_of_parse_cols(b.skip(8), k as nat);
        match parse_cols(b.skip(8), k as nat) {
            Some(t) => {
                if t.1.len() == 0 {
                    let v = SelectResultView {
                        row_count: be32(b[0], b[1], b[2], b[3]),
                        columns: t.0,
                    };
                    lemma_u32_be_of_be32(b[0], b[1], b[2], b[3]);
                    lemma_u32_be_of_be32(b[4], b[5], b[6], b[7]);
                    assert(v.wf());
                    assert(t.0.len() as u32 == k);
                    assert(cols_bytes(t.0) == b.skip(8)) by {
                        assert(cols_bytes(t.0) =~= cols_bytes(t.0) + t.1);
                    }
                    assert(u32_be(v.row_count) == seq![b[0], b[1], b[2], b[3]]);
                    assert(u32_be(v.columns.len() as u32) == seq![b[4], b[5], b[6], b[7]]);
                    lemma_head_bytes(b);
                }
            },
            None => {},
        }
    }
}

/// Appending one column to a sequence appends its length prefix and bytes.
proof fn lemma_cols_bytes_push(cs: Seq<Seq<u8>>, c: Seq<u8>)
    ensures
        cols_bytes(cs.push(c)) == cols_bytes(cs) + u32_be(c.len() as u32) + c,
    decreases cs.len(),
{
    let whole = cs.push(c);
    if cs.len() == 0 {
        assert(whole[0] == c);
        assert(whole.skip(1) =~= Seq::<Seq<u8>>::empty());
        assert(cols_bytes(whole.skip(1)) == Seq::<u8>::empty());
        assert(cols_bytes(whole) == u32_be(c.len() as u32) + c + Seq::<u8>::empty());
        assert(cols_bytes(whole) =~= cols_bytes(cs) + u32_be(c.len() as u32) + c);
    } else {
        assert(whole[0] == cs[0]);
        assert(whole.skip(1) =~= cs.skip(1).push(c));
        lemma_cols_bytes_push(cs.skip(1), c);
        assert(cols_bytes(whole) == u32_be(cs[0].len() as u32) + cs[0] + (cols_bytes(cs.skip(1))
            + u32_be(c.len() as u32) + c));
        assert(u32_be(cs[0].len() as u32) + cs[0] + (cols_bytes(cs.skip(1)) + u32_be(c.len()
            as u32) + c) =~= (u32_be(cs[0].len() as u32) + cs[0] + cols_bytes(cs.skip(1)))
            + u32_be(c.len() as u32) + c);
        assert(cols_bytes(whole) =~= cols_bytes(cs) + u32_be(c.len() as u32) + c);
    }
}

/// Appends the four big-endian bytes of `n`.
fn push_u32(out: &mut Vec<u8>, n: u32)
    ensures
        final(out)@ == old(out)@ + u32_be(n),
{
    out.push(((n >> 24) & 0xff) as u8);
    out.push(((n >> 16) & 0xff) as u8);
    out.push(((n >> 8) & 0xff) as u8);
    out.push((n & 0xff) as u8);
    assert(out@ =~= old(out)@ + u32_be(n));
}

/// Appends every byte of `b`.
fn push_bytes(out: &mut Vec<u8>, b: &Vec<u8>)
    ensures
        final(out)@ == old(out)@ + b@,
{
    let mut j: usize = 0;
    while j < b.len()
        invariant
            j <= b@.len(),
            out@ == old(out)@ + b@.take(j as int),
        decreases b@.len() - j,
    {
        out.push(b[j]);
        assert(b@.take(j + 1 as int) =~= b@.take(j as int).push(b@[j as int]));
        j = j + 1;
    }
    assert(b@.take(b@.len() as int) =~= b@);
}

/// Reads the unsigned value of the four big-endian bytes at `pos`.
fn read_u32(b: &Vec<u8>, pos: usize) -> (r: u32)
    requires
        pos + 4 <= b@.len(),
    ensures
        r == be32(b@[pos as int], b@[pos + 1], b@[pos + 2], b@[pos + 3]),
{
    let n = b.len();
    assert(pos + 4 <= n);
    ((b[pos] as u32) << 24) | ((b[pos + 1] as u32) << 16) | ((b[pos + 2] as u32) << 8) | (b[pos
        + 3] as u32)
}

/// Copies `len` bytes starting at `start`.
fn copy_range(b: &Vec<u8>, start: usize, len: usize) -> (r: Vec<u8>)
    requires
        start + len <= b@.len(),
    ensures
        r@ == b@.subrange(start as int, start + len),
{
    let n = b.len();
    let mut r: Vec<u8> = Vec::new();
    let mut j: usize = 0;
    while j < len
        invariant
            j <= len,
            start + len <= n,
            n == b@.len(),
            r@ == b@.subrange(start as int, start + j),
        decreases len - j,
    {
        r.push(b[start + j]);
        assert(b@.subrange(start as int, start + j + 1) =~= b@.subrange(start as int, start
            + j).push(b@[start + j]));
        j = j + 1;
    }
    r
}

/// Encodes a tabular result into its canonical bytes.
pub fn encode(s: &SelectResult) -> (r: Vec<u8>)
    requires
        s@.wf(),
    ensures
        r@ == encode_bytes(s@),
{
    let mut out: Vec<u8> = Vec::new();
    push_u32(&mut out, s.row_count);
    push_u32(&mut out, s.columns.len() as u32);
    let ghost head = u32_be(s@.row_count) + u32_be(s@.columns.len() as u32);
    assert(out@ =~= head + cols_bytes(s@.columns.take(0)));
    let mut i: usize = 0;
    while i < s.columns.len()
        invariant
            i <= s.columns@.len(),
            s@.wf(),
            s@.columns.len() == s.columns@.len(),
            forall|j: int| 0 <= j < s.columns@.len() ==> s@.columns[j] == (#[trigger] s.columns@[j])@,
            out@ == head + cols_bytes(s@.columns.take(i as int)),
        decreases s.columns@.len() - i,
    {
        let col = &s.columns[i];
        assert(col@ == s@.columns[i as int]);
        assert(col@.len() <= u32::MAX);
        push_u32(&mut out, col.len() as u32);
        push_bytes(&mut out, col);
        proof {
            lemma_cols_bytes_push(s@.columns.take(i as int), col@);
            assert(s@.columns.take(i + 1 as int) =~= s@.columns.take(i as int).push(col@));
            vstd::seq_lib::lemma_concat_associative(
                head + cols_bytes(s@.columns.take(i as int)),
                u32_be(col@.len() as u32),
                col@,
            );
            assert(head + cols_bytes(s@.columns.take(i + 1 as int)) =~= (head + cols_bytes(
                s@.columns.take(i as int)) + u32_be(col@.len() as u32)) + col@);
        }
        i = i + 1;
    }
    assert(s@.columns.take(s.columns@.len() as int) =~= s@.columns);
    out
}

/// Decides whether a result is well formed, that is, whether every length
/// of it fits the 4-byte prefixes of the format.
pub fn check_wf(s: &SelectResult) -> (r: bool)
    ensures
        r == s@.wf(),
{
    if s.columns.len() > u32::MAX as usize {
        return false;
    }
    let mut i: usize = 0;
    while i < s.columns.len()
        invariant
            i <= s.columns@.len(),
            forall|j: int| 0 <= j < i ==> (#[trigger] s@.columns[j]).len() <= u32::MAX,
            forall|j: int|
                0 <= j < s.columns@.len() ==> s@.columns[j] == (#[trigger] s.columns@[j])@,
            s.columns@.len() <= u32::MAX,
        decreases s.columns@.len() - i,
    {
        if s.columns[i].len() > u32::MAX as usize {
            return false;
        }
        i = i + 1;
    }
    true
}

/// Parses `k` length-prefixed columns starting at `pos`, returning them with
/// the position of the first unconsumed byte.
fn decode_cols(b: &Vec<u8>, pos: usize, k: u32) -> (r: Option<(Vec<Vec<u8>>, usize)>)
    requires
        pos <= b@.len(),
    ensures
        r matches Some(t) ==> pos <= t.1 <= b@.len() && parse_cols(b@.skip(pos as int), k as nat)
            == Some((t.0.deep_view(), b@.skip(t.1 as int))),
        r is None ==> parse_cols(b@.skip(pos as int), k as nat) is None,
    decreases k,
{
    let ghost suffix = b@.skip(pos as int);
    if k == 0 {
        let cols: Vec<Vec<u8>> = Vec::new();
        assert(cols.deep_view() =~= Seq::<Seq<u8>>::empty());
        return Some((cols, pos));
    }
    let total = b.len();
    if total - pos < 4 {
        assert(suffix.len() < 4);
        return None;
    }
    let n32 = read_u32(b, pos);
    proof {
        assert(suffix[0] == b@[pos as int] && suffix[1] == b@[pos + 1] && suffix[2] == b@[pos + 2]
            && suffix[3] == b@[pos + 3]);
    }
    let ghost n = be32(suffix[0], suffix[1], suffix[2], suffix[3]) as int;
    assert(n == n32 as int);
    let nlen = n32 as usize;
    if (total - pos) - 4 < nlen {
        assert(suffix.len() < 4 + n);
        return None;
    }
    let col = copy_range(b, pos + 4, nlen);
    assert(col@ =~= suffix.subrange(4, 4 + n));
    let next = pos + 4 + nlen;
    match decode_cols(b, next, k - 1) {
        Some((tail, end)) => {
            let ghost tail_deep = tail.deep_view();
            let mut cols = tail;
            cols.insert(0, col);
            proof {
                assert(b@.skip(next as int) =~= suffix.skip(4 + n));
                assert(cols.deep_view() =~~= seq![col@] + tail_deep);
            }
            Some((cols, end))
        },
        None => {
            assert(b@.skip(next as int) =~= suffix.skip(4 + n));
            None
        },
    }
}

/// Decodes a canonical byte string into a tabular result; answers nothing
/// exactly where the bytes are not the encoding of any well-formed result.
pub fn decode(b: &Vec<u8>) -> (r: Option<SelectResult>)
    ensures
        r matches Some(s) ==> decode_bytes(b@) == Some(s@),
        r is None ==> decode_bytes(b@) is None,
{
    if b.len() < 8 {
        return None;
    }
    let rc = read_u32(b, 0);
    let k = read_u32(b, 4);
    match decode_cols(b, 8, k) {
        Some((cols, end)) => {
            if end == b.len() {
                assert(b@.skip(end as int).len() == 0);
                Some(SelectResult { row_count: rc, columns: cols })
            } else {
                assert(b@.skip(end as int).len() > 0);
                None
            }
        },
        None => None,
    }
}

} // verus!
