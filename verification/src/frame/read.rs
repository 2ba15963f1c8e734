//! Typed API for reading frames from the bytes of QUIC streams and datagrams.
use super::common::{
    ascii_to_str, all_ascii, tag_from_byte, ChanId, FrameTag, VERSION, VERSION_FRAME_HUMAN_TEXT,
    VERSION_FRAME_MAGIC_BYTES,
};
use super::varint::{
    all_continued, group_value, lemma_pow128_8, lemma_pow128_facts, lemma_varint_dec_past_run,
    lemma_varint_dec_run, lemma_varint_dec_short, lemma_varint_parse_bounds, pow128,
    varint_parse,
};
use std::collections::VecDeque;
use vstd::prelude::*;

verus! {

// ==== error handling ====

/// Error reading frames.
#[derive(Debug, Clone, Copy, PartialEq, Eq, Structural)]
pub enum Error {
    /// A reset was received on the underlying QUIC stream.
    Reset,
    /// The bytes ended, or a length prefix ran out, before the expected item.
    TooFewBytes,
    /// The frame tag byte is not a known tag.
    UnknownFrameTag(u8),
    /// A Version frame had the wrong magic byte sequence.
    WrongVersionMagic,
    /// A Version frame had the wrong human-readable text.
    WrongVersionText,
    /// A Version frame's version number was unreasonably long.
    VersionTooLong,
    /// A Version frame's version number was not ASCII.
    VersionNotAscii,
    /// A Version frame's version number is not the one this implementation speaks.
    UnknownVersion,
    /// A varint that should have been a length did not fit in a `usize`.
    VarintOverflowsUsize(u64),
}

// ==== spec of the primitives ====

/// Read a varint, under an optional budget of bytes: the value and the bytes taken.
pub open spec fn varint_lim(r: Seq<u8>, lim: Option<usize>) -> Result<(u64, nat), Error> {
    match varint_parse(r) {
        Some((v, n)) => if lim is None || n <= lim.unwrap() {
            Ok((v as u64, n))
        } else {
            Err(Error::TooFewBytes)
        },
        None => Err(Error::TooFewBytes),
    }
}

/// A budget after spending `n` bytes of it.
pub open spec fn lim_after(lim: Option<usize>, n: nat) -> Option<usize> {
    match lim {
        Some(l) => Some((l - n) as usize),
        None => None,
    }
}

/// Read a varint that must fit in a `usize`.
pub open spec fn varint_usize_lim(r: Seq<u8>, lim: Option<usize>) -> Result<(usize, nat), Error> {
    match varint_lim(r, lim) {
        Ok((v, n)) => if v <= usize::MAX {
            Ok((v as usize, n))
        } else {
            Err(Error::VarintOverflowsUsize(v))
        },
        Err(e) => Err(e),
    }
}

/// Read a length-prefixed byte string under an optional budget: the bytes and the bytes taken.
pub open spec fn varbytes_lim(r: Seq<u8>, lim: Option<usize>) -> Result<(Seq<u8>, nat), Error> {
    match varint_usize_lim(r, lim) {
        Ok((len, n)) => {
            let lim2 = lim_after(lim, n);
            if (lim2 is Some && lim2.unwrap() < len) || r.len() < n + len {
                Err(Error::TooFewBytes)
            } else {
                Ok((r.subrange(n as int, n + len), n + len as nat))
            }
        },
        Err(e) => Err(e),
    }
}

/// Read a key/value header under a budget: key, value and the bytes taken.
pub open spec fn header_lim(r: Seq<u8>, lim: Option<usize>) -> Result<
    (Seq<u8>, Seq<u8>, nat),
    Error,
> {
    match varbytes_lim(r, lim) {
        Ok((k, n1)) => match varbytes_lim(r.skip(n1 as int), lim_after(lim, n1)) {
            Ok((v, n2)) => Ok((k, v, n1 + n2)),
            Err(e) => Err(e),
        },
        Err(e) => Err(e),
    }
}

/// Match the front of `r` against `expected` byte by byte.
pub open spec fn expect_bytes(r: Seq<u8>, expected: Seq<u8>, err: Error) -> Result<(), Error>
    decreases expected.len(),
{
    if expected.len() == 0 {
        Ok(())
    } else if r.len() == 0 {
        Err(Error::TooFewBytes)
    } else if r[0] != expected[0] {
        Err(err)
    } else {
        expect_bytes(r.drop_first(), expected.drop_first(), err)
    }
}

/// Parse the body of a Version frame (after its tag): the bytes it takes.
pub open spec fn parse_version_body(r: Seq<u8>) -> Result<nat, Error> {
    match expect_bytes(r, VERSION_FRAME_MAGIC_BYTES@, Error::WrongVersionMagic) {
        Err(e) => Err(e),
        Ok(()) => {
            let r1 = r.skip(7);
            match expect_bytes(r1, VERSION_FRAME_HUMAN_TEXT@, Error::WrongVersionText) {
                Err(e) => Err(e),
                Ok(()) => {
                    let r2 = r1.skip(8);
                    match varint_usize_lim(r2, None) {
                        Err(e) => Err(e),
                        Ok((len, n)) => if len > 0xff {
                            Err(Error::VersionTooLong)
                        } else if r2.len() < n + len {
                            Err(Error::TooFewBytes)
                        } else if !all_ascii(r2.subrange(n as int, n + len)) {
                            Err(Error::VersionNotAscii)
                        } else if r2.subrange(n as int, n + len) != VERSION@ {
                            Err(Error::UnknownVersion)
                        } else {
                            Ok(15 + n + len as nat)
                        },
                    }
                },
            }
        },
    }
}

/// What the first bytes of a frame say, as read before its inner parts.
pub enum FrameHead {
    Version,
    AckVersion,
    ConnectionHeaders { headers_bytes: usize },
    RouteTo { chan_id: u64 },
    Message { message_num: u64, message_headers_bytes: usize },
    SentUnreliable { count: u64 },
    FinishSender { sent_reliable: u64 },
    CancelSender,
    AckReliable { bytes: usize },
    AckNackUnreliable { bytes: usize },
    CloseReceiver,
    ForgetChannel { chan_id: u64 },
}

/// Parse the head of the next frame: `Ok(None)` at the end of the bytes, otherwise the head and
/// the bytes it takes.
pub open spec fn parse_frame(r: Seq<u8>) -> Result<Option<(FrameHead, nat)>, Error> {
    if r.len() == 0 {
        Ok(None)
    } else {
        let b = r.drop_first();
        match tag_from_byte(r[0]) {
            None => Err(Error::UnknownFrameTag(r[0])),
            Some(FrameTag::Version) => match parse_version_body(b) {
                Ok(n) => Ok(Some((FrameHead::Version, 1 + n))),
                Err(e) => Err(e),
            },
            Some(FrameTag::AckVersion) => Ok(Some((FrameHead::AckVersion, 1))),
            Some(FrameTag::ConnectionHeaders) => match varint_usize_lim(b, None) {
                Ok((len, n)) => Ok(Some((FrameHead::ConnectionHeaders { headers_bytes: len }, 1 + n))),
                Err(e) => Err(e),
            },
            Some(FrameTag::RouteTo) => match varint_lim(b, None) {
                Ok((v, n)) => Ok(Some((FrameHead::RouteTo { chan_id: v }, 1 + n))),
                Err(e) => Err(e),
            },
            Some(FrameTag::Message) => match varint_lim(b, None) {
                Ok((num, n1)) => match varint_usize_lim(b.skip(n1 as int), None) {
                    Ok((len, n2)) => Ok(
                        Some(
                            (
                                FrameHead::Message { message_num: num, message_headers_bytes: len },
                                1 + n1 + n2,
                            ),
                        ),
                    ),
                    Err(e) => Err(e),
                },
                Err(e) => Err(e),
            },
            Some(FrameTag::SentUnreliable) => match varint_lim(b, None) {
                Ok((v, n)) => Ok(Some((FrameHead::SentUnreliable { count: v }, 1 + n))),
                Err(e) => Err(e),
            },
            Some(FrameTag::FinishSender) => match varint_lim(b, None) {
                Ok((v, n)) => Ok(Some((FrameHead::FinishSender { sent_reliable: v }, 1 + n))),
                Err(e) => Err(e),
            },
            Some(FrameTag::CancelSender) => Ok(Some((FrameHead::CancelSender, 1))),
            Some(FrameTag::AckReliable) => match varint_usize_lim(b, None) {
                Ok((len, n)) => Ok(Some((FrameHead::AckReliable { bytes: len }, 1 + n))),
                Err(e) => Err(e),
            },
            Some(FrameTag::AckNackUnreliable) => match varint_usize_lim(b, None) {
                Ok((len, n)) => Ok(Some((FrameHead::AckNackUnreliable { bytes: len }, 1 + n))),
                Err(e) => Err(e),
            },
            Some(FrameTag::CloseReceiver) => Ok(Some((FrameHead::CloseReceiver, 1))),
            Some(FrameTag::ForgetChannel) => match varint_lim(b, None) {
                Ok((v, n)) => Ok(Some((FrameHead::ForgetChannel { chan_id: v }, 1 + n))),
                Err(e) => Err(e),
            },
        }
    }
}

// ==== byte source ====

/// The remaining bytes of a datagram, or of a stream read so far, with helpers for reading the
/// wire primitives.
pub struct Reader(VecDeque<u8>);

impl Reader {
    /// The bytes not yet read.
    pub closed spec fn rest(&self) -> Seq<u8> {
        self.0@
    }

    /// Wrap around bytes.
    pub fn new(bytes: Vec<u8>) -> (r: Reader)
        ensures
            r.rest() == bytes@,
    {
        let mut q: VecDeque<u8> = VecDeque::new();
        let mut i: usize = 0;
        while i < bytes.len()
            invariant
                i <= bytes.len(),
                q@ == bytes@.subrange(0, i as int),
            decreases bytes.len() - i,
        {
            q.push_back(bytes[i]);
            assert(bytes@.subrange(0, i + 1) =~= bytes@.subrange(0, i as int).push(bytes@[i as int]));
            i = i + 1;
        }
        assert(bytes@.subrange(0, i as int) =~= bytes@);
        Reader(q)
    }

    /// Whether the data source ends immediately after the bytes read so far.
    pub fn is_done(&self) -> (r: bool)
        ensures
            r == (self.rest().len() == 0),
    {
        self.0.len() == 0
    }

    /// Read a single byte.
    pub fn read_byte(&mut self) -> (r: Result<u8, Error>)
        ensures
            old(self).rest().len() == 0 ==> r == Err::<u8, Error>(Error::TooFewBytes)
                && final(self).rest() == old(self).rest(),
            old(self).rest().len() > 0 ==> r == Ok::<u8, Error>(old(self).rest()[0])
                && final(self).rest() == old(self).rest().drop_first(),
    {
        match self.0.pop_front() {
            Some(b) => Ok(b),
            None => Err(Error::TooFewBytes),
        }
    }

    /// Read the next `n` bytes.
    pub fn read_zc(&mut self, n: usize) -> (r: Result<Vec<u8>, Error>)
        ensures
            n > old(self).rest().len() ==> r == Err::<Vec<u8>, Error>(Error::TooFewBytes)
                && final(self).rest() == old(self).rest(),
            n <= old(self).rest().len() ==> (r matches Ok(v) && v@ == old(self).rest().take(
                n as int,
            ) && final(self).rest() == old(self).rest().skip(n as int)),
    {
        if n > self.0.len() {
            return Err(Error::TooFewBytes);
        }
        let ghost orig = self.rest();
        let mut out: Vec<u8> = Vec::new();
        let mut i: usize = 0;
        while i < n
            invariant
                n <= orig.len(),
                i <= n,
                out@ == orig.take(i as int),
                self.rest() == orig.skip(i as int),
            decreases n - i,
        {
            let b = self.0.pop_front().unwrap();
            out.push(b);
            assert(orig.take(i + 1) =~= orig.take(i as int).push(orig[i as int]));
            assert(orig.skip(i + 1) =~= orig.skip(i as int).drop_first());
            i = i + 1;
        }
        Ok(out)
    }

    /// Read a var len int. If `limit` is `Some`, it is decremented by the number of bytes read,
    /// or reading errors if doing so would underflow.
    pub fn read_varint_with_limit(&mut self, limit: &mut Option<usize>) -> (r: Result<u64, Error>)
        ensures
            match varint_lim(old(self).rest(), *old(limit)) {
                Ok((v, n)) => r == Ok::<u64, Error>(v) && final(self).rest() == old(self).rest().skip(n as int) && *final(limit) == lim_after(*old(limit), n),
                Err(e) => r == Err::<u64, Error>(e),
            },
    {
        let ghost start = self.rest();
        let ghost lim0 = *limit;
        let ghost mut consumed: Seq<u8> = Seq::empty();
        let mut value: u64 = 0;
        let mut mult: u64 = 1;
        let mut x: u64 = 0;
        proof {
            lemma_pow128_8();
            lemma_varint_parse_bounds(start);
        }
        while x < 8
            invariant
                x <= 8,
                consumed.len() == x,
                all_continued(consumed),
                start == consumed + self.rest(),
                value == group_value(consumed),
                mult == pow128(x as nat),
                pow128(8) == 0x100_0000_0000_0000,
                lim0 == *old(limit),
                start == old(self).rest(),
                varint_parse(start) matches Some((v, n)) ==> v <= u64::MAX && n <= start.len(),
                match lim0 {
                    Some(l0) => *limit == Some((l0 - x) as usize) && x <= l0,
                    None => *limit is None,
                },
            decreases 8 - x,
        {
            proof {
                lemma_pow128_facts(x as nat);
                lemma_varint_dec_past_run(consumed, self.rest(), 8);
                lemma_group_value_bound(consumed);
            }
            let cur = *limit;
            match cur {
                Some(l) => {
                    if l == 0 {
                        return Err(Error::TooFewBytes);
                    }
                    *limit = Some(l - 1);
                },
                None => {},
            }
            let ghost before = self.rest();
            let b = match self.read_byte() {
                Ok(b) => b,
                Err(e) => {
                    proof {
                        assert(start =~= consumed);
                        lemma_varint_dec_short(consumed, 8);
                    }
                    return Err(e);
                },
            };
            proof {
                assert(before == seq![b] + self.rest());
                assert(start =~= consumed.push(b) + self.rest());
            }
            if b < 128 {
                proof {
                    lemma_varint_dec_run(consumed, b, self.rest(), 8);
                    assert(value + (b as nat) * mult < 128 * mult) by (nonlinear_arith)
                        requires
                            value < mult,
                            b < 128,
                    ;
                    assert(consumed.len() + 1 + self.rest().len() == start.len());
                    assert(start.skip((x + 1) as int) =~= self.rest());
                    assert((b as nat) * mult == pow128(consumed.len()) * (b as nat)) by (nonlinear_arith)
                        requires
                            mult == pow128(consumed.len()),
                    ;
                    assert(varint_parse(start) == Some(
                        ((value + (b as nat) * mult) as nat, (x + 1) as nat),
                    ));
                }
                return Ok(value + (b as u64) * mult);
            }
            proof {
                assert(value + ((b - 128) as nat) * mult < 128 * mult) by (nonlinear_arith)
                    requires
                        value < mult,
                        b < 256,
                        b >= 128,
                ;
                lemma_group_value_push_alias(consumed, b);
                assert(((b - 128) as nat) * mult == pow128(consumed.len()) * ((b - 128) as nat))
                    by (nonlinear_arith)
                    requires
                        mult == pow128(consumed.len()),
                ;
            }
            value = value + ((b - 128) as u64) * mult;
            mult = mult * 128;
            proof {
                consumed = consumed.push(b);
            }
            x = x + 1;
        }
        proof {
            lemma_varint_dec_past_run(consumed, self.rest(), 8);
            lemma_group_value_bound(consumed);
        }
        let cur = *limit;
        match cur {
            Some(l) => {
                if l == 0 {
                    return Err(Error::TooFewBytes);
                }
                *limit = Some(l - 1);
            },
            None => {},
        }
        let ghost before = self.rest();
        let b = match self.read_byte() {
            Ok(b) => b,
            Err(e) => {
                proof {
                    assert(start =~= consumed);
                    lemma_varint_dec_short(consumed, 8);
                }
                return Err(e);
            },
        };
        proof {
            assert(before == seq![b] + self.rest());
            assert(start =~= consumed.push(b) + self.rest());
            lemma_varint_dec_run(consumed, b, self.rest(), 8);
            assert(value + (b as nat) * mult <= u64::MAX) by (nonlinear_arith)
                requires
                    value < mult,
                    b < 256,
                    mult == 0x100_0000_0000_0000,
            ;
            assert(start.skip(9) =~= self.rest());
            assert((b as nat) * mult == pow128(consumed.len()) * (b as nat)) by (nonlinear_arith)
                requires
                    mult == pow128(consumed.len()),
            ;
        }
        Ok(value + (b as u64) * mult)
    }

    /// Read a var len int.
    pub fn read_varint(&mut self) -> (r: Result<u64, Error>)
        ensures
            match varint_lim(old(self).rest(), None) {
                Ok((v, n)) => r == Ok::<u64, Error>(v) && final(self).rest() == old(self).rest().skip(n as int),
                Err(e) => r == Err::<u64, Error>(e),
            },
    {
        let mut limit: Option<usize> = None;
        self.read_varint_with_limit(&mut limit)
    }

    /// Read a var len int, then cast to usize or error if unable.
    pub fn read_varint_usize_with_limit(&mut self, limit: &mut Option<usize>) -> (r: Result<
        usize,
        Error,
    >)
        ensures
            match varint_usize_lim(old(self).rest(), *old(limit)) {
                Ok((v, n)) => r == Ok::<usize, Error>(v) && final(self).rest() == old(self).rest().skip(n as int) && *final(limit) == lim_after(*old(limit), n),
                Err(e) => r == Err::<usize, Error>(e),
            },
    {
        let n = self.read_varint_with_limit(limit)?;
        if n > usize::MAX as u64 {
            return Err(Error::VarintOverflowsUsize(n));
        }
        Ok(n as usize)
    }

    /// Read a var len int as a usize.
    pub fn read_varint_usize(&mut self) -> (r: Result<usize, Error>)
        ensures
            match varint_usize_lim(old(self).rest(), None) {
                Ok((v, n)) => r == Ok::<usize, Error>(v) && final(self).rest() == old(self).rest().skip(n as int),
                Err(e) => r == Err::<usize, Error>(e),
            },
    {
        let mut limit: Option<usize> = None;
        self.read_varint_usize_with_limit(&mut limit)
    }

    /// Read a varbytes (varint encoding length, followed by bytes). If `limit` is `Some`, it is
    /// decremented by the number of bytes read, or reading errors if doing so would underflow.
    pub fn read_varbytes_with_limit(&mut self, limit: &mut Option<usize>) -> (r: Result<
        Vec<u8>,
        Error,
    >)
        ensures
            match varbytes_lim(old(self).rest(), *old(limit)) {
                Ok((b, n)) => (r matches Ok(v) && v@ == b && final(self).rest() == old(self).rest().skip(n as int) && *final(limit) == lim_after(*old(limit), n)),
                Err(e) => (r matches Err(e2) && e2 == e),
            },
    {
        let ghost start = self.rest();
        let ghost lim0 = *limit;
        let len = self.read_varint_usize_with_limit(limit)?;
        let ghost n = (start.len() - self.rest().len()) as nat;
        proof {
            lemma_varint_parse_bounds(start);
        }
        let cur = *limit;
        match cur {
            Some(l) => {
                if l < len {
                    return Err(Error::TooFewBytes);
                }
                *limit = Some(l - len);
            },
            None => {},
        }
        let ghost mid = self.rest();
        let out = self.read_zc(len)?;
        proof {
            assert(mid =~= start.skip(n as int));
            assert(out@ =~= start.subrange(n as int, n + len));
            assert(self.rest() =~= start.skip(n + len));
        }
        Ok(out)
    }
}

// ==== helpers for the version frame ====

/// Read bytes one at a time, checking that they match `expected`.
fn expect(r: &mut Reader, expected: &[u8], err: Error) -> (res: Result<(), Error>)
    ensures
        res == expect_bytes(old(r).rest(), expected@, err),
        res is Ok ==> final(r).rest() == old(r).rest().skip(expected@.len() as int) && old(
            r,
        ).rest().len() >= expected@.len(),
{
    let ghost start = r.rest();
    let mut i: usize = 0;
    assert(expected@.skip(0) =~= expected@);
    assert(start.skip(0) =~= start);
    while i < expected.len()
        invariant
            i <= expected.len(),
            start == old(r).rest(),
            i <= start.len(),
            r.rest() == start.skip(i as int),
            expect_bytes(start, expected@, err) == expect_bytes(
                r.rest(),
                expected@.skip(i as int),
                err,
            ),
        decreases expected.len() - i,
    {
        let ghost before = r.rest();
        let ghost e = expected@.skip(i as int);
        assert(e.drop_first() =~= expected@.skip(i + 1));
        let b = r.read_byte()?;
        if b != expected[i] {
            return Err(err);
        }
        assert(r.rest() =~= start.skip(i + 1));
        i = i + 1;
    }
    assert(expected@.skip(i as int) =~= Seq::<u8>::empty());
    Ok(())
}

/// Whether two byte strings are equal.
fn bytes_eq(a: &[u8], b: &[u8]) -> (r: bool)
    ensures
        r == (a@ == b@),
{
    if a.len() != b.len() {
        return false;
    }
    let mut i: usize = 0;
    while i < a.len()
        invariant
            a.len() == b.len(),
            i <= a.len(),
            forall|j: int| 0 <= j < i ==> a@[j] == b@[j],
        decreases a.len() - i,
    {
        if a[i] != b[i] {
            return false;
        }
        i = i + 1;
    }
    assert(a@ =~= b@);
    true
}

// ==== the actual API for reading frames ====

/// Typed API for reading a sequence of Aqueduct frames from the bytes of a QUIC stream or
/// datagram.
pub struct Frames(Reader);

impl Frames {
    /// The bytes not yet read.
    pub closed spec fn rest(&self) -> Seq<u8> {
        self.0.rest()
    }

    /// Read frames from a datagram.
    pub fn from_datagram(datagram: Vec<u8>) -> (f: Frames)
        ensures
            f.rest() == datagram@,
    {
        Frames(Reader::new(datagram))
    }

    /// Begin reading a frame: `None` if the bytes are done.
    pub fn frame(self) -> (r: Result<Option<Frame>, Error>)
        ensures
            match parse_frame(self.rest()) {
                Ok(None) => r matches Ok(None),
                Ok(Some((h, n))) => (r matches Ok(Some(f)) && f.head() == h && f.rest()
                    == self.rest().skip(n as int)),
                Err(e) => (r matches Err(e2) && e2 == e),
            },
    {
        let mut me = self;
        if me.0.is_done() {
            return Ok(None);
        }
        let ghost start = me.rest();
        let tag_byte = me.0.read_byte()?;
        assert(me.rest() == start.drop_first());
        let tag = match FrameTag::from_byte(tag_byte) {
            Some(t) => t,
            None => {
                return Err(Error::UnknownFrameTag(tag_byte));
            },
        };
        let ghost b = me.rest();
        proof {
            lemma_skip_skip(start, 1);
            assert(b =~= start.skip(1));
            lemma_varint_parse_bounds(b);
            if let Some((_, n1)) = varint_parse(b) {
                lemma_varint_parse_bounds(b.skip(n1 as int));
            }
        }
        match tag {
            FrameTag::Version => {
                let f = me.version()?;
                proof {
                    let n = parse_version_body(b).unwrap();
                    lemma_skip_skip_n(start, 1, n);
                }
                Ok(Some(Frame::Version(f)))
            },
            FrameTag::AckVersion => Ok(Some(Frame::AckVersion(me))),
            FrameTag::ConnectionHeaders => {
                let len = me.0.read_varint_usize()?;
                proof {
                    let n = varint_usize_lim(b, None).unwrap().1;
                    lemma_skip_skip_n(start, 1, n);
                }
                Ok(Some(Frame::ConnectionHeaders(ConnectionHeaders(me.0, len))))
            },
            FrameTag::RouteTo => {
                let chan_id = ChanId(me.0.read_varint()?);
                proof {
                    let n = varint_lim(b, None).unwrap().1;
                    lemma_skip_skip_n(start, 1, n);
                }
                Ok(Some(Frame::RouteTo(RouteTo { chan_id, next: me })))
            },
            FrameTag::Message => {
                let message_num = me.0.read_varint()?;
                let ghost n1 = varint_lim(b, None).unwrap().1;
                let message_headers_bytes = me.0.read_varint_usize()?;
                proof {
                    let n2 = varint_usize_lim(b.skip(n1 as int), None).unwrap().1;
                    lemma_skip_skip_n(b, n1, n2);
                    lemma_skip_skip_n(start, 1, n1 + n2);
                }
                Ok(
                    Some(
                        Frame::Message(
                            Message {
                                message_num,
                                message_headers: MessageHeaders(me.0, message_headers_bytes),
                            },
                        ),
                    ),
                )
            },
            FrameTag::SentUnreliable => {
                let count = me.0.read_varint()?;
                proof {
                    let n = varint_lim(b, None).unwrap().1;
                    lemma_skip_skip_n(start, 1, n);
                }
                Ok(Some(Frame::SentUnreliable(SentUnreliable { count, next: me })))
            },
            FrameTag::FinishSender => {
                let sent_reliable = me.0.read_varint()?;
                proof {
                    let n = varint_lim(b, None).unwrap().1;
                    lemma_skip_skip_n(start, 1, n);
                }
                Ok(Some(Frame::FinishSender(FinishSender { sent_reliable, next: me })))
            },
            FrameTag::CancelSender => Ok(Some(Frame::CancelSender(me))),
            FrameTag::AckReliable => {
                let bytes = me.0.read_varint_usize()?;
                proof {
                    let n = varint_usize_lim(b, None).unwrap().1;
                    lemma_skip_skip_n(start, 1, n);
                }
                Ok(Some(Frame::AckReliable(AckNackRanges(me.0, bytes))))
            },
            FrameTag::AckNackUnreliable => {
                let bytes = me.0.read_varint_usize()?;
                proof {
                    let n = varint_usize_lim(b, None).unwrap().1;
                    lemma_skip_skip_n(start, 1, n);
                }
                Ok(Some(Frame::AckNackUnreliable(AckNackRanges(me.0, bytes))))
            },
            FrameTag::CloseReceiver => Ok(Some(Frame::CloseReceiver(me))),
            FrameTag::ForgetChannel => {
                let chan_id = ChanId(me.0.read_varint()?);
                proof {
                    let n = varint_lim(b, None).unwrap().1;
                    lemma_skip_skip_n(start, 1, n);
                }
                Ok(Some(Frame::ForgetChannel(ForgetChannel { chan_id, next: me })))
            },
        }
    }

    /// Read the body of a Version frame, after its tag.
    fn version(self) -> (r: Result<Frames, Error>)
        ensures
            match parse_version_body(self.rest()) {
                Ok(n) => (r matches Ok(f) && f.rest() == self.rest().skip(n as int) && n
                    <= self.rest().len()),
                Err(e) => (r matches Err(e2) && e2 == e),
            },
    {
        let mut rd = self.0;
        let ghost r0 = rd.rest();
        expect(&mut rd, &VERSION_FRAME_MAGIC_BYTES, Error::WrongVersionMagic)?;
        let ghost r1 = rd.rest();
        expect(&mut rd, &VERSION_FRAME_HUMAN_TEXT, Error::WrongVersionText)?;
        let ghost r2 = rd.rest();
        proof {
            assert(VERSION_FRAME_MAGIC_BYTES@.len() == 7);
            assert(VERSION_FRAME_HUMAN_TEXT@.len() == 8);
        }
        let version_number_length = rd.read_varint_usize()?;
        if version_number_length > 0xff {
            return Err(Error::VersionTooLong);
        }
        let ghost n = varint_usize_lim(r2, None).unwrap().1;
        let buf = rd.read_zc(version_number_length)?;
        proof {
            lemma_varint_parse_bounds(r2);
            assert(buf@ =~= r2.subrange(n as int, n + version_number_length));
        }
        if ascii_to_str(buf.as_slice()).is_none() {
            return Err(Error::VersionNotAscii);
        }
        if !bytes_eq(buf.as_slice(), &VERSION) {
            return Err(Error::UnknownVersion);
        }
        proof {
            lemma_skip_skip_n(r0, 7, 8);
            lemma_skip_skip_n(r0, 15, n);
            lemma_skip_skip_n(r0, 15 + n, version_number_length as nat);
        }
        Ok(Frames(rd))
    }
}

proof fn lemma_skip_skip(s: Seq<u8>, a: nat)
    requires
        a <= s.len(),
    ensures
        s.skip(a as int).len() == s.len() - a,
{
}

proof fn lemma_skip_skip_n(s: Seq<u8>, a: nat, b: nat)
    ensures
        a + b <= s.len() ==> s.skip(a as int).skip(b as int) == s.skip((a + b) as int),
{
    if a + b <= s.len() {
        assert(s.skip(a as int).skip(b as int) =~= s.skip((a + b) as int));
    }
}

/// A frame whose head has been read.
pub enum Frame {
    Version(Frames),
    AckVersion(Frames),
    ConnectionHeaders(ConnectionHeaders),
    RouteTo(RouteTo),
    Message(Message),
    SentUnreliable(SentUnreliable),
    FinishSender(FinishSender),
    CancelSender(Frames),
    AckReliable(AckNackRanges),
    AckNackUnreliable(AckNackRanges),
    CloseReceiver(Frames),
    ForgetChannel(ForgetChannel),
}

impl Frame {
    /// What this frame's head said.
    pub open spec fn head(&self) -> FrameHead {
        match self {
            Frame::Version(_) => FrameHead::Version,
            Frame::AckVersion(_) => FrameHead::AckVersion,
            Frame::ConnectionHeaders(h) => FrameHead::ConnectionHeaders {
                headers_bytes: h.remaining(),
            },
            Frame::RouteTo(f) => FrameHead::RouteTo { chan_id: f.chan_id.0 },
            Frame::Message(m) => FrameHead::Message {
                message_num: m.message_num,
                message_headers_bytes: m.message_headers.remaining(),
            },
            Frame::SentUnreliable(f) => FrameHead::SentUnreliable { count: f.count },
            Frame::FinishSender(f) => FrameHead::FinishSender { sent_reliable: f.sent_reliable },
            Frame::CancelSender(_) => FrameHead::CancelSender,
            Frame::AckReliable(a) => FrameHead::AckReliable { bytes: a.remaining() },
            Frame::AckNackUnreliable(a) => FrameHead::AckNackUnreliable { bytes: a.remaining() },
            Frame::CloseReceiver(_) => FrameHead::CloseReceiver,
            Frame::ForgetChannel(f) => FrameHead::ForgetChannel { chan_id: f.chan_id.0 },
        }
    }

    /// The bytes after this frame's head.
    pub open spec fn rest(&self) -> Seq<u8> {
        match self {
            Frame::Version(f) => f.rest(),
            Frame::AckVersion(f) => f.rest(),
            Frame::ConnectionHeaders(h) => h.rest(),
            Frame::RouteTo(f) => f.next.rest(),
            Frame::Message(m) => m.message_headers.rest(),
            Frame::SentUnreliable(f) => f.next.rest(),
            Frame::FinishSender(f) => f.next.rest(),
            Frame::CancelSender(f) => f.rest(),
            Frame::AckReliable(a) => a.rest(),
            Frame::AckNackUnreliable(a) => a.rest(),
            Frame::CloseReceiver(f) => f.rest(),
            Frame::ForgetChannel(f) => f.next.rest(),
        }
    }
}

/// Connection headers, of which a number of bytes remain.
pub struct ConnectionHeaders(Reader, usize);

impl ConnectionHeaders {
    /// The bytes not yet read.
    pub closed spec fn rest(&self) -> Seq<u8> {
        self.0.rest()
    }

    /// The bytes of headers remaining.
    pub closed spec fn remaining(&self) -> usize {
        self.1
    }

    /// The bytes of headers remaining.
    pub fn remaining_bytes(&self) -> (r: usize)
        ensures
            r == self.remaining(),
    {
        self.1
    }

    /// Read a header.
    pub fn header(&mut self) -> (r: Result<(Vec<u8>, Vec<u8>), Error>)
        ensures
            match header_lim(old(self).rest(), Some(old(self).remaining())) {
                Ok((k, v, n)) => (r matches Ok((k2, v2)) && k2@ == k && v2@ == v && final(self).rest() == old(self).rest().skip(n as int) && final(self).remaining() == old(self).remaining() - n),
                Err(e) => (r matches Err(e2) && e2 == e),
            },
    {
        let (k, v, rem) = read_header(&mut self.0, self.1)?;
        self.1 = rem;
        Ok((k, v))
    }

    /// Finish reading headers. The headers must all have been read.
    pub fn done(self) -> (f: Frames)
        requires
            self.remaining() == 0,
        ensures
            f.rest() == self.rest(),
    {
        Frames(self.0)
    }
}

/// Read a key/value header under a budget, giving key, value and the budget left.
fn read_header(rd: &mut Reader, budget: usize) -> (r: Result<(Vec<u8>, Vec<u8>, usize), Error>)
    ensures
        match header_lim(old(rd).rest(), Some(budget)) {
            Ok((k, v, n)) => (r matches Ok((k2, v2, rem)) && k2@ == k && v2@ == v && final(rd).rest() == old(rd).rest().skip(n as int) && rem == budget - n && n <= budget),
            Err(e) => (r matches Err(e2) && e2 == e),
        },
{
    let ghost start = rd.rest();
    let mut lim: Option<usize> = Some(budget);
    let k = rd.read_varbytes_with_limit(&mut lim)?;
    let ghost n1 = varbytes_lim(start, Some(budget)).unwrap().1;
    let v = rd.read_varbytes_with_limit(&mut lim)?;
    proof {
        let n2 = varbytes_lim(start.skip(n1 as int), lim_after(Some(budget), n1)).unwrap().1;
        lemma_skip_skip_n(start, n1, n2);
    }
    Ok((k, v, lim.unwrap()))
}

/// A RouteTo frame.
pub struct RouteTo {
    pub chan_id: ChanId,
    pub next: Frames,
}

/// The head of a Message frame.
pub struct Message {
    pub message_num: u64,
    pub message_headers: MessageHeaders,
}

/// Message headers, of which a number of bytes remain.
pub struct MessageHeaders(Reader, usize);

impl MessageHeaders {
    /// The bytes not yet read.
    pub closed spec fn rest(&self) -> Seq<u8> {
        self.0.rest()
    }

    /// The bytes of headers remaining.
    pub closed spec fn remaining(&self) -> usize {
        self.1
    }

    /// The bytes of headers remaining.
    pub fn remaining_bytes(&self) -> (r: usize)
        ensures
            r == self.remaining(),
    {
        self.1
    }

    /// Read a header.
    pub fn header(&mut self) -> (r: Result<(Vec<u8>, Vec<u8>), Error>)
        ensures
            match header_lim(old(self).rest(), Some(old(self).remaining())) {
                Ok((k, v, n)) => (r matches Ok((k2, v2)) && k2@ == k && v2@ == v && final(self).rest() == old(self).rest().skip(n as int) && final(self).remaining() == old(self).remaining() - n),
                Err(e) => (r matches Err(e2) && e2 == e),
            },
    {
        let (k, v, rem) = read_header(&mut self.0, self.1)?;
        self.1 = rem;
        Ok((k, v))
    }

    /// Finish reading headers and begin reading attachments. The headers must all have been
    /// read.
    pub fn done(self) -> (r: Result<MessageAttachments, Error>)
        requires
            self.remaining() == 0,
        ensures
            match varint_usize_lim(self.rest(), None) {
                Ok((len, n)) => (r matches Ok(a) && a.remaining() == len && a.rest()
                    == self.rest().skip(n as int)),
                Err(e) => (r matches Err(e2) && e2 == e),
            },
    {
        let mut rd = self.0;
        let attachments_bytes = rd.read_varint_usize()?;
        Ok(MessageAttachments(rd, attachments_bytes))
    }
}

/// Message attachments, of which a number of bytes remain.
pub struct MessageAttachments(Reader, usize);

impl MessageAttachments {
    /// The bytes not yet read.
    pub closed spec fn rest(&self) -> Seq<u8> {
        self.0.rest()
    }

    /// The bytes of attachments remaining.
    pub closed spec fn remaining(&self) -> usize {
        self.1
    }

    /// The bytes of attachments remaining.
    pub fn remaining_bytes(&self) -> (r: usize)
        ensures
            r == self.remaining(),
    {
        self.1
    }

    /// Begin reading an attachment: its channel, then its headers.
    pub fn attachment(self) -> (r: Result<MessageAttachment, Error>)
        ensures
            match varint_lim(self.rest(), Some(self.remaining())) {
                Err(e) => (r matches Err(e2) && e2 == e),
                Ok((c, n1)) => match varint_usize_lim(
                    self.rest().skip(n1 as int),
                    Some((self.remaining() - n1) as usize),
                ) {
                    Err(e) => (r matches Err(e2) && e2 == e),
                    Ok((hb, n2)) => if self.remaining() - n1 - n2 < hb {
                        r matches Err(e2) && e2 == Error::TooFewBytes
                    } else {
                        r matches Ok(a) && a.channel.0 == c && a.channel_headers.rest()
                            == self.rest().skip((n1 + n2) as int) && a.channel_headers.remaining() == hb
                            && a.channel_headers.attachments_remaining() == self.remaining() - n1
                            - n2 - hb
                    },
                },
            },
    {
        let mut rd = self.0;
        let ghost start = rd.rest();
        proof {
            lemma_varint_parse_bounds(start);
            if let Some((_, n1)) = varint_parse(start) {
                lemma_varint_parse_bounds(start.skip(n1 as int));
            }
        }
        let mut lim: Option<usize> = Some(self.1);
        let channel = ChanId(rd.read_varint_with_limit(&mut lim)?);
        let ghost n1 = varint_lim(start, Some(self.1)).unwrap().1;
        let headers_bytes = rd.read_varint_usize_with_limit(&mut lim)?;
        proof {
            let n2 = varint_usize_lim(start.skip(n1 as int), Some((self.1 - n1) as usize)).unwrap().1;
            lemma_skip_skip_n(start, n1, n2);
        }
        let left = lim.unwrap();
        if left < headers_bytes {
            return Err(Error::TooFewBytes);
        }
        Ok(
            MessageAttachment {
                channel,
                channel_headers: ChannelHeaders {
                    reader: rd,
                    headers_remaining_bytes: headers_bytes,
                    attachments_remaining_bytes: left - headers_bytes,
                },
            },
        )
    }

    /// Finish reading attachments and begin reading the payload. The attachments must all have
    /// been read.
    pub fn done(self) -> (r: Result<MessagePayload, Error>)
        requires
            self.remaining() == 0,
        ensures
            match varint_usize_lim(self.rest(), None) {
                Ok((len, n)) => (r matches Ok(p) && p.len() == len && p.rest() == self.rest().skip(
                    n as int,
                )),
                Err(e) => (r matches Err(e2) && e2 == e),
            },
    {
        let mut rd = self.0;
        let payload_bytes = rd.read_varint_usize()?;
        Ok(MessagePayload(rd, payload_bytes))
    }
}

/// An attachment of a message: the attached channel and its headers.
pub struct MessageAttachment {
    pub channel: ChanId,
    pub channel_headers: ChannelHeaders,
}

/// Headers of an attached channel, of which a number of bytes remain.
pub struct ChannelHeaders {
    reader: Reader,
    headers_remaining_bytes: usize,
    attachments_remaining_bytes: usize,
}

impl ChannelHeaders {
    /// The bytes not yet read.
    pub closed spec fn rest(&self) -> Seq<u8> {
        self.reader.rest()
    }

    /// The bytes of these headers remaining.
    pub closed spec fn remaining(&self) -> usize {
        self.headers_remaining_bytes
    }

    /// The bytes of the message's attachments remaining after these headers.
    pub closed spec fn attachments_remaining(&self) -> usize {
        self.attachments_remaining_bytes
    }

    /// The bytes of these headers remaining.
    pub fn remaining_bytes(&self) -> (r: usize)
        ensures
            r == self.remaining(),
    {
        self.headers_remaining_bytes
    }

    /// Read a header.
    pub fn header(&mut self) -> (r: Result<(Vec<u8>, Vec<u8>), Error>)
        ensures
            final(self).attachments_remaining() == old(self).attachments_remaining(),
            match header_lim(old(self).rest(), Some(old(self).remaining())) {
                Ok((k, v, n)) => (r matches Ok((k2, v2)) && k2@ == k && v2@ == v && final(self).rest() == old(self).rest().skip(n as int) && final(self).remaining() == old(self).remaining() - n),
                Err(e) => (r matches Err(e2) && e2 == e),
            },
    {
        let (k, v, rem) = read_header(&mut self.reader, self.headers_remaining_bytes)?;
        self.headers_remaining_bytes = rem;
        Ok((k, v))
    }

    /// Finish reading these headers, going back to the message's attachments. The headers must
    /// all have been read.
    pub fn done(self) -> (a: MessageAttachments)
        requires
            self.remaining() == 0,
        ensures
            a.rest() == self.rest(),
            a.remaining() == self.attachments_remaining(),
    {
        MessageAttachments(self.reader, self.attachments_remaining_bytes)
    }
}

/// The payload of a message, of a known length.
pub struct MessagePayload(Reader, usize);

impl MessagePayload {
    /// The bytes not yet read.
    pub closed spec fn rest(&self) -> Seq<u8> {
        self.0.rest()
    }

    /// The payload length.
    pub closed spec fn len(&self) -> usize {
        self.1
    }

    /// The payload length.
    pub fn bytes(&self) -> (r: usize)
        ensures
            r == self.len(),
    {
        self.1
    }

    /// Read the payload, and go on to the next frames.
    pub fn read(self) -> (r: Result<(Vec<u8>, Frames), Error>)
        ensures
            self.len() > self.rest().len() ==> (r matches Err(e) && e == Error::TooFewBytes),
            self.len() <= self.rest().len() ==> (r matches Ok((p, f)) && p@ == self.rest().take(
                self.len() as int,
            ) && f.rest() == self.rest().skip(self.len() as int)),
    {
        let mut rd = self.0;
        let payload = rd.read_zc(self.1)?;
        Ok((payload, Frames(rd)))
    }
}

/// A SentUnreliable frame.
pub struct SentUnreliable {
    pub count: u64,
    pub next: Frames,
}

/// A FinishSender frame.
pub struct FinishSender {
    pub sent_reliable: u64,
    pub next: Frames,
}

/// Ack/nack ranges as deltas, of which a number of bytes remain.
pub struct AckNackRanges(Reader, usize);

impl AckNackRanges {
    /// The bytes not yet read.
    pub closed spec fn rest(&self) -> Seq<u8> {
        self.0.rest()
    }

    /// The bytes of deltas remaining.
    pub closed spec fn remaining(&self) -> usize {
        self.1
    }

    /// The bytes of deltas remaining.
    pub fn remaining_bytes(&self) -> (r: usize)
        ensures
            r == self.remaining(),
    {
        self.1
    }

    /// Read a delta.
    pub fn delta(&mut self) -> (r: Result<u64, Error>)
        ensures
            match varint_lim(old(self).rest(), Some(old(self).remaining())) {
                Ok((v, n)) => r == Ok::<u64, Error>(v) && final(self).rest() == old(self).rest().skip(n as int) && final(self).remaining() == old(self).remaining() - n,
                Err(e) => r == Err::<u64, Error>(e),
            },
    {
        let mut lim: Option<usize> = Some(self.1);
        let v = self.0.read_varint_with_limit(&mut lim)?;
        self.1 = lim.unwrap();
        Ok(v)
    }

    /// Finish reading deltas. They must all have been read.
    pub fn done(self) -> (f: Frames)
        requires
            self.remaining() == 0,
        ensures
            f.rest() == self.rest(),
    {
        Frames(self.0)
    }
}

/// A ForgetChannel frame.
pub struct ForgetChannel {
    pub chan_id: ChanId,
    pub next: Frames,
}

/// The value of a run of groups stays below the next power.
pub proof fn lemma_group_value_bound(s: Seq<u8>)
    ensures
        group_value(s) < pow128(s.len()),
{
    super::varint::lemma_group_value_push(s, 0);
}

proof fn lemma_group_value_push_alias(s: Seq<u8>, b: u8)
    requires
        b >= 128,
    ensures
        group_value(s.push(b)) == group_value(s) + pow128(s.len()) * (b - 128) as nat,
{
    super::varint::lemma_group_value_push(s, b);
    assert(b % 128 == b - 128);
}

} // verus!
