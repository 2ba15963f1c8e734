//! What reading gives back of what writing wrote.
use super::common::{
    lemma_frame_tag_byte_injective, FrameTag, VERSION, VERSION_FRAME_HUMAN_TEXT,
    VERSION_FRAME_MAGIC_BYTES,
};
use super::read::{
    expect_bytes, header_lim, lim_after, parse_frame, parse_version_body, varbytes_lim,
    varint_lim, varint_usize_lim, Error, FrameHead,
};
use super::varint::{lemma_varint_roundtrip, varbytes, varint_bytes, varint_parse};
use super::write::version_frame_bytes;
use vstd::prelude::*;

verus! {

/// Matching bytes against a prefix of them succeeds.
pub proof fn lemma_expect_prefix(e: Seq<u8>, rest: Seq<u8>, err: Error)
    ensures
        expect_bytes(e + rest, e, err) == Ok::<(), Error>(()),
    decreases e.len(),
{
    if e.len() > 0 {
        assert((e + rest)[0] == e[0]);
        assert((e + rest).drop_first() =~= e.drop_first() + rest);
        lemma_expect_prefix(e.drop_first(), rest, err);
    }
}

/// Reading a varint gives back the written value, within any budget that covers it.
pub proof fn lemma_varint_lim_roundtrip(i: u64, rest: Seq<u8>, lim: Option<usize>)
    requires
        lim matches Some(l) ==> varint_bytes(i).len() <= l,
    ensures
        varint_lim(varint_bytes(i) + rest, lim) == Ok::<(u64, nat), Error>(
            (i, varint_bytes(i).len()),
        ),
{
    lemma_varint_roundtrip(i, rest);
}

/// Reading a length-prefixed byte string gives back the written bytes, within any budget that
/// covers them.
pub proof fn lemma_varbytes_roundtrip(b: Seq<u8>, rest: Seq<u8>, lim: Option<usize>)
    requires
        b.len() <= usize::MAX,
        lim matches Some(l) ==> varbytes(b).len() <= l,
    ensures
        varbytes_lim(varbytes(b) + rest, lim) == Ok::<(Seq<u8>, nat), Error>(
            (b, varbytes(b).len()),
        ),
{
    let len = b.len() as u64;
    let n = varint_bytes(len).len();
    let s = varbytes(b) + rest;
    assert(s =~= varint_bytes(len) + (b + rest));
    lemma_varint_lim_roundtrip(len, b + rest, lim);
    assert(varint_usize_lim(s, lim) == Ok::<(usize, nat), Error>((b.len() as usize, n)));
    assert(s.subrange(n as int, (n + b.len()) as int) =~= b);
}

/// Reading a header gives back the written key and value, within any budget that covers them.
pub proof fn lemma_header_roundtrip(k: Seq<u8>, v: Seq<u8>, rest: Seq<u8>, lim: usize)
    requires
        k.len() <= usize::MAX,
        v.len() <= usize::MAX,
        varbytes(k).len() + varbytes(v).len() <= lim,
    ensures
        header_lim(varbytes(k) + varbytes(v) + rest, Some(lim)) == Ok::<
            (Seq<u8>, Seq<u8>, nat),
            Error,
        >((k, v, varbytes(k).len() + varbytes(v).len())),
{
    let s = varbytes(k) + varbytes(v) + rest;
    assert(s =~= varbytes(k) + (varbytes(v) + rest));
    lemma_varbytes_roundtrip(k, varbytes(v) + rest, Some(lim));
    let n1 = varbytes(k).len();
    assert(s.skip(n1 as int) =~= varbytes(v) + rest);
    lemma_varbytes_roundtrip(v, rest, lim_after(Some(lim), n1));
}

/// A written Version frame reads back as a Version frame taking all its bytes.
pub proof fn lemma_version_frame_roundtrip(rest: Seq<u8>)
    ensures
        parse_frame(version_frame_bytes() + rest) == Ok::<Option<(FrameHead, nat)>, Error>(
            Some((FrameHead::Version, version_frame_bytes().len())),
        ),
{
    let v = VERSION@;
    assert(v =~= seq![48u8, 46, 48, 46, 48, 45, 65, 70, 84, 69, 82]);
    let body = VERSION_FRAME_MAGIC_BYTES@ + VERSION_FRAME_HUMAN_TEXT@ + varbytes(v) + rest;
    let s = version_frame_bytes() + rest;
    assert(s[0] == FrameTag::Version.tag_byte());
    assert(s.drop_first() =~= body);
    assert(body =~= VERSION_FRAME_MAGIC_BYTES@ + (VERSION_FRAME_HUMAN_TEXT@ + varbytes(v) + rest));
    lemma_expect_prefix(
        VERSION_FRAME_MAGIC_BYTES@,
        VERSION_FRAME_HUMAN_TEXT@ + varbytes(v) + rest,
        Error::WrongVersionMagic,
    );
    let r1 = body.skip(7);
    assert(r1 =~= VERSION_FRAME_HUMAN_TEXT@ + (varbytes(v) + rest));
    lemma_expect_prefix(VERSION_FRAME_HUMAN_TEXT@, varbytes(v) + rest, Error::WrongVersionText);
    let r2 = r1.skip(8);
    assert(r2 =~= varbytes(v) + rest);
    assert(r2 =~= varint_bytes(11) + (v + rest));
    lemma_varint_lim_roundtrip(11, v + rest, None);
    let n = varint_bytes(11).len();
    assert(r2.subrange(n as int, (n + 11) as int) =~= v);
    assert(parse_version_body(body) == Ok::<nat, Error>(15 + n + 11));
}

/// Whether a tag's frame has no bytes after its tag, as far as reading goes.
pub open spec fn tag_only_head(tag: FrameTag) -> Option<FrameHead> {
    match tag {
        FrameTag::AckVersion => Some(FrameHead::AckVersion),
        FrameTag::CancelSender => Some(FrameHead::CancelSender),
        FrameTag::CloseReceiver => Some(FrameHead::CloseReceiver),
        _ => None,
    }
}

/// A written AckVersion, CancelSender or CloseReceiver frame reads back as itself, taking its
/// one byte.
pub proof fn lemma_tag_only_frame_roundtrip(tag: FrameTag, rest: Seq<u8>)
    requires
        tag_only_head(tag) is Some,
    ensures
        parse_frame(seq![tag.tag_byte()] + rest) == Ok::<Option<(FrameHead, nat)>, Error>(
            Some((tag_only_head(tag).unwrap(), 1)),
        ),
{
    lemma_frame_tag_byte_injective(tag, tag);
    assert((seq![tag.tag_byte()] + rest)[0] == tag.tag_byte());
}

/// The head that a frame with a single varint after its tag reads as.
pub open spec fn varint_head(tag: FrameTag, v: u64) -> Option<FrameHead> {
    match tag {
        FrameTag::RouteTo => Some(FrameHead::RouteTo { chan_id: v }),
        FrameTag::SentUnreliable => Some(FrameHead::SentUnreliable { count: v }),
        FrameTag::FinishSender => Some(FrameHead::FinishSender { sent_reliable: v }),
        FrameTag::ForgetChannel => Some(FrameHead::ForgetChannel { chan_id: v }),
        _ => None,
    }
}

/// A written RouteTo, SentUnreliable, FinishSender or ForgetChannel frame reads back with the
/// written value, taking all its bytes.
pub proof fn lemma_varint_frame_roundtrip(tag: FrameTag, v: u64, rest: Seq<u8>)
    requires
        varint_head(tag, v) is Some,
    ensures
        parse_frame(seq![tag.tag_byte()] + varint_bytes(v) + rest) == Ok::<
            Option<(FrameHead, nat)>,
            Error,
        >(Some((varint_head(tag, v).unwrap(), 1 + varint_bytes(v).len()))),
{
    lemma_frame_tag_byte_injective(tag, tag);
    let s = seq![tag.tag_byte()] + varint_bytes(v) + rest;
    assert(s[0] == tag.tag_byte());
    assert(s.drop_first() =~= varint_bytes(v) + rest);
    lemma_varint_lim_roundtrip(v, rest, None);
}

/// The head that a frame with a length-prefixed byte string after its tag reads as.
pub open spec fn varbytes_head(tag: FrameTag, len: usize) -> Option<FrameHead> {
    match tag {
        FrameTag::ConnectionHeaders => Some(FrameHead::ConnectionHeaders { headers_bytes: len }),
        FrameTag::AckNackUnreliable => Some(FrameHead::AckNackUnreliable { bytes: len }),
        _ => None,
    }
}

/// A written ConnectionHeaders or AckNackUnreliable frame reads back with the length of its byte
/// string, and what follows the head is that byte string.
pub proof fn lemma_varbytes_frame_roundtrip(tag: FrameTag, b: Seq<u8>, rest: Seq<u8>)
    requires
        b.len() <= usize::MAX,
        varbytes_head(tag, b.len() as usize) is Some,
    ensures
        parse_frame(seq![tag.tag_byte()] + varbytes(b) + rest) == Ok::<
            Option<(FrameHead, nat)>,
            Error,
        >(
            Some(
                (
                    varbytes_head(tag, b.len() as usize).unwrap(),
                    1 + varint_bytes(b.len() as u64).len(),
                ),
            ),
        ),
        (seq![tag.tag_byte()] + varbytes(b) + rest).skip((1 + varint_bytes(b.len() as u64).len()) as int)
            == b + rest,
{
    lemma_frame_tag_byte_injective(tag, tag);
    let s = seq![tag.tag_byte()] + varbytes(b) + rest;
    assert(s[0] == tag.tag_byte());
    assert(s.drop_first() =~= varint_bytes(b.len() as u64) + (b + rest));
    lemma_varint_lim_roundtrip(b.len() as u64, b + rest, None);
    assert(s.skip((1 + varint_bytes(b.len() as u64).len()) as int) =~= b + rest);
}

/// A written Message frame reads back with its message number and the length of its headers,
/// and what follows the head is the headers.
pub proof fn lemma_message_frame_roundtrip(num: u64, headers: Seq<u8>, rest: Seq<u8>)
    requires
        headers.len() <= usize::MAX,
    ensures
        parse_frame(seq![FrameTag::Message.tag_byte()] + varint_bytes(num) + varbytes(headers)
            + rest) == Ok::<Option<(FrameHead, nat)>, Error>(
            Some(
                (
                    FrameHead::Message {
                        message_num: num,
                        message_headers_bytes: headers.len() as usize,
                    },
                    1 + varint_bytes(num).len() + varint_bytes(headers.len() as u64).len(),
                ),
            ),
        ),
        (seq![FrameTag::Message.tag_byte()] + varint_bytes(num) + varbytes(headers) + rest).skip(
            (1 + varint_bytes(num).len() + varint_bytes(headers.len() as u64).len()) as int,
        ) == headers + rest,
{
    lemma_frame_tag_byte_injective(FrameTag::Message, FrameTag::Message);
    let s = seq![FrameTag::Message.tag_byte()] + varint_bytes(num) + varbytes(headers) + rest;
    let b = s.drop_first();
    assert(s[0] == FrameTag::Message.tag_byte());
    assert(b =~= varint_bytes(num) + (varbytes(headers) + rest));
    lemma_varint_lim_roundtrip(num, varbytes(headers) + rest, None);
    let n1 = varint_bytes(num).len();
    assert(b.skip(n1 as int) =~= varint_bytes(headers.len() as u64) + (headers + rest));
    lemma_varint_lim_roundtrip(headers.len() as u64, headers + rest, None);
    assert(s.skip((1 + n1 + varint_bytes(headers.len() as u64).len()) as int) =~= headers + rest);
}

/// Reading stops at the end of the bytes.
pub proof fn lemma_end_of_frames()
    ensures
        parse_frame(Seq::<u8>::empty()) == Ok::<Option<(FrameHead, nat)>, Error>(None),
{
}

} // verus!
