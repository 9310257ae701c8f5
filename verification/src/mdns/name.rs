//! Domain names on the wire: a sequence of counted labels ended by an empty
//! one, where the rest of a name may instead be a pointer to an earlier place
//! in the message that holds the same suffix.
use vstd::prelude::*;
use vstd::string::StringSliceAdditionalSpecFns;
use vstd::utf8::{decode_utf8, encode_utf8, is_ascii_chars, valid_utf8};

use crate::mdns::compression::CompressionMap;
use crate::mdns::packer::pack_bytes;
use crate::mdns::Error;

verus! {

broadcast use vstd::utf8::valid_utf8_concat;

/// The longest name, in bytes.
pub const NAME_LEN: usize = 255;

/// The byte of the dot that ends every label of a name in text form.
pub const DOT: u8 = 0x2E;

/// The most pointers that reading one name follows.
pub const MAX_POINTERS: usize = 10;

/// A domain name in text form, such as `"example.com."`.
#[derive(Debug, Clone, Default, PartialEq, Eq)]
pub struct Name {
    pub data: String,
}

/// `std::str::from_utf8(..).is_ok()`: whether the bytes are UTF-8.
#[verifier::external_body]
fn utf8_is_valid(b: &[u8]) -> (r: bool)
    ensures
        r == valid_utf8(b@),
{
    std::str::from_utf8(b).is_ok()
}

/// `String::from_utf8`, on bytes known to be UTF-8 (it fails on no other):
/// the string those bytes encode.
#[verifier::external_body]
fn string_from_utf8(v: Vec<u8>) -> (r: String)
    requires
        valid_utf8(v@),
    ensures
        r@ == decode_utf8(v@),
{
    String::from_utf8(v).unwrap()
}

/// The offsets that a compression table holds, if there is one.
pub open spec fn compression_view(c: Option<CompressionMap>) -> Option<Map<Seq<u8>, usize>> {
    match c {
        Some(m) => Some(m.view()),
        None => None,
    }
}

/// The bytes of a packed message, or why packing failed.
pub open spec fn packed_view(r: Result<Vec<u8>, Error>) -> Result<Seq<u8>, Error> {
    match r {
        Ok(v) => Ok(v@),
        Err(e) => Err(e),
    }
}

/// What writing the name `d` (bytes of its text form) from position `i` on
/// appends to `msg`, where the label being read started at `begin`, and what
/// the compression table `comp` becomes. Each dot closes a label, written as
/// its length and its bytes; a label must be 1 to 63 bytes long. At the start
/// of each label the rest of the name is looked up in the table: when found,
/// a pointer to it ends the name; when not, it is recorded at the current
/// offset (counted from `off`) if that offset fits in 14 bits.
pub open spec fn spec_pack_name_from(
    d: Seq<u8>,
    i: int,
    begin: int,
    msg: Seq<u8>,
    comp: Option<Map<Seq<u8>, usize>>,
    off: int,
) -> (Result<Seq<u8>, Error>, Option<Map<Seq<u8>, usize>>)
    decreases d.len() - i,
{
    if i >= d.len() {
        (Ok(msg.push(0)), comp)
    } else if d[i] == DOT {
        if i - begin >= 64 {
            (Err(Error::ErrSegTooLong), comp)
        } else if i - begin == 0 {
            (Err(Error::ErrZeroSegLen), comp)
        } else {
            spec_pack_name_from(
                d,
                i + 1,
                i + 1,
                msg.push((i - begin) as u8) + d.subrange(begin, i),
                comp,
                off,
            )
        }
    } else if (i == 0 || d[i - 1] == DOT) && comp is Some {
        let m = comp->Some_0;
        let key = d.subrange(i, d.len() as int);
        if m.contains_key(key) {
            let ptr = m[key];
            (Ok(msg.push(((ptr >> 8usize) | 0xC0usize) as u8).push((ptr & 0xFFusize) as u8)), comp)
        } else if msg.len() <= 0x3FFF {
            spec_pack_name_from(
                d,
                i + 1,
                begin,
                msg,
                Some(m.insert(key, (msg.len() - off) as usize)),
                off,
            )
        } else {
            spec_pack_name_from(d, i + 1, begin, msg, comp, off)
        }
    } else {
        spec_pack_name_from(d, i + 1, begin, msg, comp, off)
    }
}

/// What writing the name `d` appends to `msg`, or why it is refused, and
/// what the compression table becomes. The name must end with a dot; the root
/// name `"."` is a single zero byte.
pub open spec fn spec_pack_name(
    d: Seq<u8>,
    msg: Seq<u8>,
    comp: Option<Map<Seq<u8>, usize>>,
    off: int,
) -> (Result<Seq<u8>, Error>, Option<Map<Seq<u8>, usize>>) {
    if d.len() == 0 || d.last() != DOT {
        (Err(Error::ErrNonCanonicalName), comp)
    } else if d.len() == 1 && d[0] == DOT {
        (Ok(msg.push(0)), comp)
    } else {
        spec_pack_name_from(d, 0, 0, msg, comp, off)
    }
}

/// Whether writing the name `d` from position `i` on, in the state that
/// `spec_pack_name_from` describes, comes to record a suffix at an offset
/// that `off` lies beyond: the offset is counted from `off`, and the
/// subtraction has no value there.
pub open spec fn spec_pack_name_from_underflows(
    d: Seq<u8>,
    i: int,
    begin: int,
    msg: Seq<u8>,
    comp: Option<Map<Seq<u8>, usize>>,
    off: int,
) -> bool
    decreases d.len() - i,
{
    if i >= d.len() {
        false
    } else if d[i] == DOT {
        if i - begin >= 64 || i - begin == 0 {
            false
        } else {
            spec_pack_name_from_underflows(
                d,
                i + 1,
                i + 1,
                msg.push((i - begin) as u8) + d.subrange(begin, i),
                comp,
                off,
            )
        }
    } else if (i == 0 || d[i - 1] == DOT) && comp is Some {
        let m = comp->Some_0;
        let key = d.subrange(i, d.len() as int);
        if m.contains_key(key) {
            false
        } else if msg.len() <= 0x3FFF {
            msg.len() < off || spec_pack_name_from_underflows(
                d,
                i + 1,
                begin,
                msg,
                Some(m.insert(key, (msg.len() - off) as usize)),
                off,
            )
        } else {
            spec_pack_name_from_underflows(d, i + 1, begin, msg, comp, off)
        }
    } else {
        spec_pack_name_from_underflows(d, i + 1, begin, msg, comp, off)
    }
}

/// Without a table nothing is recorded, so nothing underflows.
pub proof fn lemma_no_underflow_without_table(d: Seq<u8>, i: int, begin: int, msg: Seq<u8>, off: int)
    ensures
        !spec_pack_name_from_underflows(d, i, begin, msg, None, off),
    decreases d.len() - i,
{
    if i < d.len() {
        if d[i] == DOT {
            if !(i - begin >= 64 || i - begin == 0) {
                lemma_no_underflow_without_table(
                    d,
                    i + 1,
                    i + 1,
                    msg.push((i - begin) as u8) + d.subrange(begin, i),
                    off,
                );
            }
        } else {
            lemma_no_underflow_without_table(d, i + 1, begin, msg, off);
        }
    }
}

/// Whether writing the name `d` after `msg` comes to record a suffix at an
/// offset before `off`.
pub open spec fn spec_pack_name_underflows(
    d: Seq<u8>,
    msg: Seq<u8>,
    comp: Option<Map<Seq<u8>, usize>>,
    off: int,
) -> bool {
    if d.len() == 0 || d.last() != DOT {
        false
    } else if d.len() == 1 && d[0] == DOT {
        false
    } else {
        spec_pack_name_from_underflows(d, 0, 0, msg, comp, off)
    }
}

/// The end of reading a name: the root name when no label was read, and a
/// name longer than 255 bytes refused.
pub open spec fn spec_finish_name(name: Seq<u8>, next: int) -> Result<(Seq<u8>, int), Error> {
    let n = if name.len() == 0 {
        seq![DOT]
    } else {
        name
    };
    if n.len() > NAME_LEN {
        Err(Error::ErrCalcLen)
    } else {
        Ok((n, next))
    }
}

/// The place in the message that a pointer made of bytes `c` and `c1` points to.
pub open spec fn spec_pointer_target(c: u8, c1: u8) -> int {
    ((((c ^ 0xC0u8) as usize) << 8usize) | (c1 as usize)) as int
}

/// What reading a name from `msg` at `curr` gives, when `ptr` pointers have
/// been followed, `new_off` is where the message goes on after the first of
/// them, and `name` holds the labels read so far: the name in text form and
/// where the message goes on after it, or why it is refused. A label is a
/// length byte under 64 and that many UTF-8 bytes; a zero byte ends the name;
/// a byte with both high bits set starts a two-byte pointer, followed unless
/// compression is not allowed or ten pointers have already been followed;
/// other bytes are reserved.
pub open spec fn spec_unpack_name_from(
    msg: Seq<u8>,
    curr: int,
    ptr: int,
    new_off: int,
    name: Seq<u8>,
    allow: bool,
) -> Result<(Seq<u8>, int), Error>
    decreases MAX_POINTERS + 1 - ptr, msg.len() - curr,
{
    if !(0 <= ptr <= MAX_POINTERS) || curr < 0 {
        Err(Error::ErrTooManyPtr)
    } else if curr >= msg.len() {
        Err(Error::ErrBaseLen)
    } else {
        let c = msg[curr];
        let curr1 = curr + 1;
        if c & 0xC0u8 == 0x00u8 {
            if c == 0 {
                spec_finish_name(
                    name,
                    if ptr == 0 {
                        curr1
                    } else {
                        new_off
                    },
                )
            } else {
                let end = curr1 + c;
                if end > msg.len() {
                    Err(Error::ErrCalcLen)
                } else if !valid_utf8(msg.subrange(curr1, end)) {
                    Err(Error::ErrUtf8)
                } else {
                    spec_unpack_name_from(
                        msg,
                        end,
                        ptr,
                        new_off,
                        name + msg.subrange(curr1, end).push(DOT),
                        allow,
                    )
                }
            }
        } else if c & 0xC0u8 == 0xC0u8 {
            if !allow {
                Err(Error::ErrCompressedSrv)
            } else if curr1 >= msg.len() {
                Err(Error::ErrInvalidPtr)
            } else {
                let c1 = msg[curr1];
                let new_off2 = if ptr == 0 {
                    curr1 + 1
                } else {
                    new_off
                };
                if ptr + 1 > MAX_POINTERS {
                    Err(Error::ErrTooManyPtr)
                } else {
                    spec_unpack_name_from(
                        msg,
                        spec_pointer_target(c, c1),
                        ptr + 1,
                        new_off2,
                        name,
                        allow,
                    )
                }
            }
        } else {
            Err(Error::ErrReserved)
        }
    }
}

/// What reading a name from `msg` at `off` gives.
pub open spec fn spec_unpack_name(msg: Seq<u8>, off: int, allow: bool) -> Result<
    (Seq<u8>, int),
    Error,
> {
    spec_unpack_name_from(msg, off, 0, off, Seq::empty(), allow)
}

/// Where the message goes on after the name written at `curr`, found from
/// the bytes at `curr` alone, without following any pointer: after the zero
/// byte that ends the labels, or after the two bytes of the first pointer
/// that stands in their place (`0` where neither is met).
pub open spec fn spec_name_end(msg: Seq<u8>, curr: int) -> int
    decreases msg.len() - curr,
{
    if curr < 0 || curr >= msg.len() {
        0
    } else {
        let c = msg[curr];
        if c == 0 {
            curr + 1
        } else if c & 0xC0u8 == 0x00u8 {
            if curr + 1 + c >= msg.len() {
                0
            } else {
                spec_name_end(msg, curr + 1 + c)
            }
        } else if c & 0xC0u8 == 0xC0u8 {
            curr + 2
        } else {
            0
        }
    }
}

/// Reading from `curr`, where the message goes on: after the name's own
/// bytes when no pointer has been followed yet, and where it was set when
/// the first pointer was.
proof fn lemma_unpack_from_next(
    msg: Seq<u8>,
    curr: int,
    ptr: int,
    new_off: int,
    name: Seq<u8>,
    allow: bool,
)
    requires
        spec_unpack_name_from(msg, curr, ptr, new_off, name, allow) is Ok,
    ensures
        spec_unpack_name_from(msg, curr, ptr, new_off, name, allow)->Ok_0.1 == if ptr == 0 {
            spec_name_end(msg, curr)
        } else {
            new_off
        },
    decreases MAX_POINTERS + 1 - ptr, msg.len() - curr,
{
    let c = msg[curr];
    let curr1 = curr + 1;
    if c & 0xC0u8 == 0x00u8 {
        if c != 0 {
            let end = curr1 + c;
            let name2 = name + msg.subrange(curr1, end).push(DOT);
            assert(spec_unpack_name_from(msg, curr, ptr, new_off, name, allow)
                == spec_unpack_name_from(msg, end, ptr, new_off, name2, allow));
            if end >= msg.len() {
                assert(spec_unpack_name_from(msg, end, ptr, new_off, name2, allow) is Err);
            }
            lemma_unpack_from_next(msg, end, ptr, new_off, name2, allow);
        }
    } else if c & 0xC0u8 == 0xC0u8 {
        let c1 = msg[curr1];
        let new_off2 = if ptr == 0 {
            curr1 + 1
        } else {
            new_off
        };
        lemma_unpack_from_next(msg, spec_pointer_target(c, c1), ptr + 1, new_off2, name, allow);
        assert(c & 0xC0u8 == 0xC0u8 ==> c != 0u8 && c & 0xC0u8 != 0x00u8) by (bit_vector);
        assert(ptr == 0 ==> spec_name_end(msg, curr) == curr + 2);
    }
}

/// Reading a name at `off` ends where its own bytes end: the message goes
/// on after the zero byte that ends its labels, or after the first pointer
/// met among them; pointers followed after that one never move it.
pub proof fn lemma_unpack_name_next(msg: Seq<u8>, off: int, allow: bool)
    ensures
        spec_unpack_name(msg, off, allow) matches Ok((_, next)) ==> next == spec_name_end(
            msg,
            off,
        ),
{
    if spec_unpack_name(msg, off, allow) is Ok {
        lemma_unpack_from_next(msg, off, 0, off, Seq::empty(), allow);
    }
}

/// A lone dot is UTF-8.
proof fn lemma_dot_is_utf8()
    ensures
        valid_utf8(seq![DOT]),
{
    let chars = seq!['.'];
    assert(is_ascii_chars(chars));
    vstd::utf8::is_ascii_chars_encode_utf8(chars);
    vstd::utf8::encode_utf8_valid_utf8(chars);
    assert(encode_utf8(chars) =~= seq![DOT]);
}

/// What follows a leading dot of UTF-8 text is UTF-8 too.
proof fn lemma_utf8_after_dot(x: Seq<u8>)
    requires
        valid_utf8(x),
        x.len() > 0,
        x[0] == DOT,
    ensures
        valid_utf8(x.subrange(1, x.len() as int)),
{
}

/// A label byte under 64 has neither of the two high bits set.
proof fn lemma_label_length_tag(c: u8)
    requires
        c < 64,
    ensures
        c & 0xC0u8 == 0x00u8,
{
    assert(c < 64 ==> c & 0xC0u8 == 0x00u8) by (bit_vector);
}

/// Reading back, from where it starts, what writing the labels of `d` from
/// position `i` on appended (no compression) gives the labels from `begin`
/// on, after the labels before `begin` already read.
proof fn lemma_unpack_packed_labels(
    d: Seq<u8>,
    i: int,
    begin: int,
    msg: Seq<u8>,
    off: int,
    allow: bool,
)
    requires
        d.len() > 0,
        d.last() == DOT,
        d.len() <= NAME_LEN,
        0 <= begin <= i <= d.len(),
        forall|k: int| begin <= k < i ==> d[k] != DOT,
        valid_utf8(d.subrange(begin, d.len() as int)),
        spec_pack_name_from(d, i, begin, msg, None, off).0 is Ok,
    ensures
        ({
            let out = spec_pack_name_from(d, i, begin, msg, None, off).0->Ok_0;
            &&& msg.len() < out.len()
            &&& out.subrange(0, msg.len() as int) == msg
            &&& forall|x: int|
                spec_unpack_name_from(out, msg.len() as int, 0, x, d.subrange(0, begin), allow)
                    == Ok::<(Seq<u8>, int), Error>((d, out.len() as int))
        }),
    decreases d.len() - i,
{
    let out = spec_pack_name_from(d, i, begin, msg, None, off).0->Ok_0;
    if i >= d.len() {
        if begin < d.len() {
            assert(d[d.len() - 1] != DOT);
        }
        assert(out == msg.push(0));
        assert(out.subrange(0, msg.len() as int) =~= msg);
        lemma_label_length_tag(0);
        assert(d.subrange(0, begin) =~= d);
        assert forall|x: int|
            spec_unpack_name_from(out, msg.len() as int, 0, x, d.subrange(0, begin), allow)
                == Ok::<(Seq<u8>, int), Error>((d, out.len() as int)) by {
            assert(out[msg.len() as int] == 0);
        }
    } else if d[i] == DOT {
        let len = (i - begin) as u8;
        let next = msg.push(len) + d.subrange(begin, i);
        let s = d.subrange(begin, d.len() as int);
        let j = i - begin;
        assert(s[j] == DOT);
        vstd::utf8::is_char_boundary_iff_not_is_continuation_byte(s, j);
        vstd::utf8::valid_utf8_split(s, j);
        assert(s.subrange(0, j) =~= d.subrange(begin, i));
        assert(s.subrange(j, s.len() as int) =~= d.subrange(i, d.len() as int));
        lemma_utf8_after_dot(d.subrange(i, d.len() as int));
        assert(d.subrange(i, d.len() as int).subrange(1, d.len() - i) =~= d.subrange(
            i + 1,
            d.len() as int,
        ));
        lemma_unpack_packed_labels(d, i + 1, i + 1, next, off, allow);
        assert(out == spec_pack_name_from(d, i + 1, i + 1, next, None, off).0->Ok_0);
        assert(out.subrange(0, next.len() as int) =~= next);
        assert(out.subrange(0, msg.len() as int) =~= out.subrange(0, next.len() as int).subrange(
            0,
            msg.len() as int,
        ));
        assert(next.subrange(0, msg.len() as int) =~= msg);
        lemma_label_length_tag(len);
        let p = msg.len() as int;
        assert(out[p] == next[p]);
        assert(out[p] == len);
        assert(out.subrange(p + 1, p + 1 + len) =~= d.subrange(begin, i)) by {
            assert forall|k: int| 0 <= k < len implies out.subrange(p + 1, p + 1 + len)[k]
                == d.subrange(begin, i)[k] by {
                assert(out[p + 1 + k] == next[p + 1 + k]);
            }
        }
        assert(d.subrange(0, begin) + d.subrange(begin, i).push(DOT) =~= d.subrange(0, i + 1));
        assert forall|x: int|
            spec_unpack_name_from(out, p, 0, x, d.subrange(0, begin), allow) == Ok::<
                (Seq<u8>, int),
                Error,
            >((d, out.len() as int)) by {
            assert(spec_unpack_name_from(out, p + 1 + len, 0, x, d.subrange(0, i + 1), allow)
                == Ok::<(Seq<u8>, int), Error>((d, out.len() as int)));
        }
    } else {
        lemma_unpack_packed_labels(d, i + 1, begin, msg, off, allow);
    }
}

/// Reading a name that stays within `msg` reads the same when more bytes
/// follow `msg`.
proof fn lemma_unpack_from_extend(
    msg: Seq<u8>,
    ext: Seq<u8>,
    curr: int,
    ptr: int,
    new_off: int,
    name: Seq<u8>,
    allow: bool,
)
    requires
        spec_unpack_name_from(msg, curr, ptr, new_off, name, allow) is Ok,
    ensures
        spec_unpack_name_from(msg + ext, curr, ptr, new_off, name, allow) == spec_unpack_name_from(
            msg,
            curr,
            ptr,
            new_off,
            name,
            allow,
        ),
    decreases MAX_POINTERS + 1 - ptr, msg.len() - curr,
{
    let big = msg + ext;
    let c = msg[curr];
    let curr1 = curr + 1;
    assert(big[curr] == c);
    if c & 0xC0u8 == 0x00u8 {
        if c != 0 {
            let end = curr1 + c;
            assert(big.subrange(curr1, end) =~= msg.subrange(curr1, end));
            lemma_unpack_from_extend(
                msg,
                ext,
                end,
                ptr,
                new_off,
                name + msg.subrange(curr1, end).push(DOT),
                allow,
            );
        }
    } else if c & 0xC0u8 == 0xC0u8 {
        let c1 = msg[curr1];
        assert(big[curr1] == c1);
        let new_off2 = if ptr == 0 {
            curr1 + 1
        } else {
            new_off
        };
        lemma_unpack_from_extend(msg, ext, spec_pointer_target(c, c1), ptr + 1, new_off2, name, allow);
    }
}

/// Reading a name after labels `pre` already read gives `pre` before what
/// reading it alone gives, where that is more than the root name and the
/// whole fits in 255 bytes.
proof fn lemma_unpack_from_prefix(
    msg: Seq<u8>,
    curr: int,
    ptr: int,
    new_off: int,
    pre: Seq<u8>,
    name: Seq<u8>,
    allow: bool,
)
    requires
        spec_unpack_name_from(msg, curr, ptr, new_off, name, allow) is Ok,
        spec_unpack_name_from(msg, curr, ptr, new_off, name, allow)->Ok_0.0.len() >= 2,
        pre.len() + spec_unpack_name_from(msg, curr, ptr, new_off, name, allow)->Ok_0.0.len()
            <= NAME_LEN,
    ensures
        ({
            let (r, q) = spec_unpack_name_from(msg, curr, ptr, new_off, name, allow)->Ok_0;
            spec_unpack_name_from(msg, curr, ptr, new_off, pre + name, allow) == Ok::<
                (Seq<u8>, int),
                Error,
            >((pre + r, q))
        }),
    decreases MAX_POINTERS + 1 - ptr, msg.len() - curr,
{
    let c = msg[curr];
    let curr1 = curr + 1;
    if c & 0xC0u8 == 0x00u8 {
        if c != 0 {
            let end = curr1 + c;
            let label = msg.subrange(curr1, end).push(DOT);
            assert((pre + name) + label =~= pre + (name + label));
            lemma_unpack_from_prefix(msg, end, ptr, new_off, pre, name + label, allow);
        }
    } else if c & 0xC0u8 == 0xC0u8 {
        let c1 = msg[curr1];
        let new_off2 = if ptr == 0 {
            curr1 + 1
        } else {
            new_off
        };
        lemma_unpack_from_prefix(
            msg,
            spec_pointer_target(c, c1),
            ptr + 1,
            new_off2,
            pre,
            name,
            allow,
        );
    }
}

/// The two bytes of a pointer to `ptr` (below `0x4000`) start with both
/// high bits set and point back to `ptr`.
proof fn lemma_pointer_bytes(ptr: usize)
    requires
        ptr < 0x4000,
    ensures
        (((ptr >> 8usize) | 0xC0usize) as u8) & 0xC0u8 == 0xC0u8,
        spec_pointer_target(((ptr >> 8usize) | 0xC0usize) as u8, (ptr & 0xFFusize) as u8) == ptr,
{
    let b0 = ((ptr >> 8usize) | 0xC0usize) as u8;
    let b1 = (ptr & 0xFFusize) as u8;
    assert(b0 & 0xC0u8 == 0xC0u8) by (bit_vector)
        requires
            b0 == ((ptr >> 8usize) | 0xC0usize) as u8,
    ;
    assert((((b0 ^ 0xC0u8) as usize) << 8usize) | (b1 as usize) == ptr) by (bit_vector)
        requires
            ptr < 0x4000usize,
            b0 == ((ptr >> 8usize) | 0xC0usize) as u8,
            b1 == (ptr & 0xFFusize) as u8,
    ;
}

/// A name written without compression reads back as itself, and the
/// message goes on right after it: writing the text `d` (UTF-8, at most 255
/// bytes) after `msg`, then reading a name where it starts, gives `d` and the
/// end of what was written.
pub proof fn lemma_name_pack_unpack(d: Seq<u8>, msg: Seq<u8>, off: int, allow: bool)
    requires
        valid_utf8(d),
        d.len() <= NAME_LEN,
        spec_pack_name(d, msg, None, off).0 is Ok,
    ensures
        ({
            let out = spec_pack_name(d, msg, None, off).0->Ok_0;
            &&& out.subrange(0, msg.len() as int) == msg
            &&& spec_unpack_name(out, msg.len() as int, allow) == Ok::<(Seq<u8>, int), Error>(
                (d, out.len() as int),
            )
        }),
{
    let out = spec_pack_name(d, msg, None, off).0->Ok_0;
    if d.len() == 1 && d[0] == DOT {
        assert(out == msg.push(0));
        assert(out.subrange(0, msg.len() as int) =~= msg);
        lemma_label_length_tag(0);
        assert(out[msg.len() as int] == 0);
        assert(seq![DOT] =~= d);
    } else {
        assert(d.subrange(0, d.len() as int) =~= d);
        assert(d.subrange(0, 0) =~= Seq::<u8>::empty());
        lemma_unpack_packed_labels(d, 0, 0, msg, off, allow);
    }
}

/// Whether reading a name at `pos` of `base`, with one pointer already
/// followed to get there, gives back `k`, wherever the message was said to
/// go on.
pub open spec fn spec_reads_back_at(base: Seq<u8>, pos: int, k: Seq<u8>) -> bool {
    forall|x: int|
        #[trigger] spec_unpack_name_from(base, pos, 1, x, Seq::empty(), true) == Ok::<
            (Seq<u8>, int),
            Error,
        >((k, x))
}

/// Whether a compression table fits the message `base` that its offsets
/// count into: each offset fits in a pointer, and the name read there is the
/// suffix it was recorded for.
pub open spec fn spec_table_matches(base: Seq<u8>, m: Map<Seq<u8>, usize>) -> bool {
    forall|k: Seq<u8>|
        #[trigger] m.contains_key(k) ==> m[k] < 0x4000 && spec_reads_back_at(base, m[k] as int, k)
}

/// Reading back, from where it starts, what writing the name `d` from
/// position `i` on appended to `mc` with the table `mm` gives the labels from
/// `begin` on, after labels `pre` already read. The table is only looked up
/// for suffixes no longer than what is left of the name, and those it holds
/// read back from the message as it stood before (`msg`, counted from
/// `off`). What the table ends up holding keeps what it held, and each suffix
/// added reads back, from the start, at the offset recorded for it.
proof fn lemma_unpack_packed_compressed(
    d: Seq<u8>,
    i: int,
    begin: int,
    pre: Seq<u8>,
    mc: Seq<u8>,
    mm: Map<Seq<u8>, usize>,
    msg: Seq<u8>,
    off: int,
)
    requires
        d.len() > 0,
        d.last() == DOT,
        0 <= begin <= i <= d.len(),
        0 < pre.len() + d.len() - begin <= NAME_LEN,
        forall|k: int| begin <= k < i ==> d[k] != DOT,
        valid_utf8(d.subrange(begin, d.len() as int)),
        0 <= off <= msg.len() <= mc.len(),
        mc.subrange(0, msg.len() as int) == msg,
        forall|k: Seq<u8>|
            #[trigger] mm.contains_key(k) && k.len() <= d.len() - i ==> mm[k] < 0x4000
                && spec_reads_back_at(msg.subrange(off, msg.len() as int), mm[k] as int, k),
        spec_pack_name_from(d, i, begin, mc, Some(mm), off).0 is Ok,
    ensures
        ({
            let (r, c) = spec_pack_name_from(d, i, begin, mc, Some(mm), off);
            let out = r->Ok_0;
            let bo = out.subrange(off, out.len() as int);
            &&& mc.len() < out.len()
            &&& out.subrange(0, mc.len() as int) == mc
            &&& forall|x: int|
                #[trigger] spec_unpack_name_from(bo, mc.len() - off, 0, x, pre, true) == Ok::<
                    (Seq<u8>, int),
                    Error,
                >((pre + d.subrange(begin, d.len() as int), out.len() - off))
            &&& c is Some
            &&& forall|k: Seq<u8>|
                #[trigger] mm.contains_key(k) ==> c->Some_0.contains_key(k) && c->Some_0[k]
                    == mm[k]
            &&& forall|k: Seq<u8>|
                #[trigger] c->Some_0.contains_key(k) && !mm.contains_key(k) ==> (spec_unpack_name(
                    bo,
                    c->Some_0[k] as int,
                    true,
                ) matches Ok((n, _)) && n == k)
        }),
    decreases d.len() - i,
{
    let (r, c) = spec_pack_name_from(d, i, begin, mc, Some(mm), off);
    let out = r->Ok_0;
    let bo = out.subrange(off, out.len() as int);
    let p = mc.len() - off;
    let whole = pre + d.subrange(begin, d.len() as int);
    if i >= d.len() {
        if begin < d.len() {
            assert(d[d.len() - 1] != DOT);
        }
        assert(out == mc.push(0));
        assert(out.subrange(0, mc.len() as int) =~= mc);
        lemma_label_length_tag(0);
        assert(whole =~= pre);
        assert(bo[p] == out[mc.len() as int]);
        assert forall|x: int|
            #[trigger] spec_unpack_name_from(bo, p, 0, x, pre, true) == Ok::<
                (Seq<u8>, int),
                Error,
            >((whole, out.len() - off)) by {
            assert(bo[p] == 0);
        }
    } else if d[i] == DOT {
        let len = (i - begin) as u8;
        let next = mc.push(len) + d.subrange(begin, i);
        let s = d.subrange(begin, d.len() as int);
        let j = i - begin;
        assert(s[j] == DOT);
        vstd::utf8::is_char_boundary_iff_not_is_continuation_byte(s, j);
        vstd::utf8::valid_utf8_split(s, j);
        assert(s.subrange(0, j) =~= d.subrange(begin, i));
        assert(s.subrange(j, s.len() as int) =~= d.subrange(i, d.len() as int));
        lemma_utf8_after_dot(d.subrange(i, d.len() as int));
        assert(d.subrange(i, d.len() as int).subrange(1, d.len() - i) =~= d.subrange(
            i + 1,
            d.len() as int,
        ));
        assert(next.subrange(0, msg.len() as int) =~= mc.subrange(0, msg.len() as int));
        let pre2 = pre + d.subrange(begin, i).push(DOT);
        assert(pre2 + d.subrange(i + 1, d.len() as int) =~= whole);
        lemma_unpack_packed_compressed(d, i + 1, i + 1, pre2, next, mm, msg, off);
        assert(out == spec_pack_name_from(d, i + 1, i + 1, next, Some(mm), off).0->Ok_0);
        assert(out.subrange(0, next.len() as int) =~= next);
        assert(out.subrange(0, mc.len() as int) =~= out.subrange(0, next.len() as int).subrange(
            0,
            mc.len() as int,
        ));
        assert(next.subrange(0, mc.len() as int) =~= mc);
        lemma_label_length_tag(len);
        let q = mc.len() as int;
        assert(out[q] == next[q]);
        assert(bo[p] == len);
        assert(bo.subrange(p + 1, p + 1 + len) =~= d.subrange(begin, i)) by {
            assert forall|k: int| 0 <= k < len implies bo.subrange(p + 1, p + 1 + len)[k]
                == d.subrange(begin, i)[k] by {
                assert(out[q + 1 + k] == next[q + 1 + k]);
            }
        }
        assert forall|x: int|
            #[trigger] spec_unpack_name_from(bo, p, 0, x, pre, true) == Ok::<
                (Seq<u8>, int),
                Error,
            >((whole, out.len() - off)) by {
            assert(spec_unpack_name_from(bo, p + 1 + len, 0, x, pre2, true) == Ok::<
                (Seq<u8>, int),
                Error,
            >((whole, out.len() - off)));
        }
    } else if i == 0 || d[i - 1] == DOT {
        assert(begin == i);
        let key = d.subrange(i, d.len() as int);
        if mm.contains_key(key) {
            let ptr = mm[key];
            let b0 = ((ptr >> 8usize) | 0xC0usize) as u8;
            let b1 = (ptr & 0xFFusize) as u8;
            assert(out == mc.push(b0).push(b1));
            assert(out.subrange(0, mc.len() as int) =~= mc);
            lemma_pointer_bytes(ptr);
            let base = msg.subrange(off, msg.len() as int);
            let ext = out.subrange(msg.len() as int, out.len() as int);
            assert(bo =~= base + ext) by {
                assert(out.subrange(0, msg.len() as int) =~= msg);
            }
            assert(bo[p] == b0);
            assert(bo[p + 1] == b1);
            let q = out.len() - off;
            assert(spec_reads_back_at(base, ptr as int, key));
            assert(spec_unpack_name_from(base, ptr as int, 1, q, Seq::empty(), true) == Ok::<
                (Seq<u8>, int),
                Error,
            >((key, q)));
            lemma_unpack_from_extend(base, ext, ptr as int, 1, q, Seq::empty(), true);
            assert(key.len() >= 2) by {
                assert(key[0] != DOT);
                assert(key[key.len() - 1] == DOT);
            }
            lemma_unpack_from_prefix(bo, ptr as int, 1, q, pre, Seq::empty(), true);
            assert(pre + Seq::<u8>::empty() =~= pre);
            assert forall|x: int|
                #[trigger] spec_unpack_name_from(bo, p, 0, x, pre, true) == Ok::<
                    (Seq<u8>, int),
                    Error,
                >((whole, out.len() - off)) by {
                assert(spec_unpack_name_from(bo, ptr as int, 1, q, pre, true) == Ok::<
                    (Seq<u8>, int),
                    Error,
                >((whole, q)));
            }
        } else if mc.len() <= 0x3FFF {
            let mm2 = mm.insert(key, (mc.len() - off) as usize);
            assert forall|k: Seq<u8>|
                #[trigger] mm2.contains_key(k) && k.len() <= d.len() - (i + 1) implies mm2[k]
                < 0x4000 && spec_reads_back_at(
                msg.subrange(off, msg.len() as int),
                mm2[k] as int,
                k,
            ) by {
                assert(k != key);
                assert(mm.contains_key(k));
            }
            lemma_unpack_packed_compressed(d, i + 1, begin, pre, mc, mm2, msg, off);
            lemma_unpack_packed_compressed(d, i + 1, begin, Seq::empty(), mc, mm2, msg, off);
            assert(Seq::<u8>::empty() + key =~= key);
            assert(mm2.contains_key(key));
            assert(spec_unpack_name_from(bo, p, 0, p, Seq::empty(), true) == Ok::<
                (Seq<u8>, int),
                Error,
            >((key, out.len() - off)));
            let fin = c->Some_0;
            assert(c == spec_pack_name_from(d, i + 1, begin, mc, Some(mm2), off).1);
            assert forall|k: Seq<u8>| #[trigger] mm.contains_key(k) implies fin.contains_key(k) && fin[k] == mm[k] by {
                assert(mm2.contains_key(k));
            }
            assert forall|k: Seq<u8>| #[trigger] fin.contains_key(k) && !mm.contains_key(k) implies (spec_unpack_name(bo, fin[k] as int, true) matches Ok((n, _)) && n == k) by {
                if k == key {
                    assert(fin[k] == mm2[k]);
                } else {
                    assert(!mm2.contains_key(k));
                }
            }
        } else {
            lemma_unpack_packed_compressed(d, i + 1, begin, pre, mc, mm, msg, off);
        }
    } else {
        lemma_unpack_packed_compressed(d, i + 1, begin, pre, mc, mm, msg, off);
    }
}

/// A name written with compression reads back as itself, and the message
/// goes on right after what was written: where each offset in the table fits
/// in a pointer and reads back, in the message counted from `off`, as the
/// suffix it was recorded for, writing the text `d` (UTF-8, at most 255
/// bytes) after `msg`, then reading a name where it starts, gives `d`. In
/// particular a pointer written for a suffix points at the offset the table
/// gives for it.
pub proof fn lemma_name_pack_unpack_compressed(
    d: Seq<u8>,
    msg: Seq<u8>,
    m: Map<Seq<u8>, usize>,
    off: int,
)
    requires
        valid_utf8(d),
        d.len() <= NAME_LEN,
        0 <= off <= msg.len(),
        spec_table_matches(msg.subrange(off, msg.len() as int), m),
        spec_pack_name(d, msg, Some(m), off).0 is Ok,
    ensures
        ({
            let out = spec_pack_name(d, msg, Some(m), off).0->Ok_0;
            &&& out.subrange(0, msg.len() as int) == msg
            &&& spec_unpack_name(out.subrange(off, out.len() as int), msg.len() - off, true)
                == Ok::<(Seq<u8>, int), Error>((d, out.len() - off))
        }),
{
    let out = spec_pack_name(d, msg, Some(m), off).0->Ok_0;
    let bo = out.subrange(off, out.len() as int);
    if d.len() == 1 && d[0] == DOT {
        assert(out == msg.push(0));
        assert(out.subrange(0, msg.len() as int) =~= msg);
        lemma_label_length_tag(0);
        assert(bo[msg.len() - off] == out[msg.len() as int]);
        assert(seq![DOT] =~= d);
    } else {
        assert(d.subrange(0, d.len() as int) =~= d);
        assert(d.subrange(0, 0) =~= Seq::<u8>::empty());
        assert(msg.subrange(0, msg.len() as int) =~= msg);
        lemma_unpack_packed_compressed(d, 0, 0, Seq::empty(), msg, m, msg, off);
        assert(Seq::<u8>::empty() + d =~= d);
    }
}

/// What writing a name with compression adds to the table reads back: the
/// table keeps every offset it held, and each suffix added is read back, in
/// the message counted from `off`, at the offset recorded for it (where the
/// table fitted the message before, as in the law above).
pub proof fn lemma_name_pack_records(d: Seq<u8>, msg: Seq<u8>, m: Map<Seq<u8>, usize>, off: int)
    requires
        valid_utf8(d),
        d.len() <= NAME_LEN,
        0 <= off <= msg.len(),
        spec_table_matches(msg.subrange(off, msg.len() as int), m),
        spec_pack_name(d, msg, Some(m), off).0 is Ok,
    ensures
        ({
            let (r, c) = spec_pack_name(d, msg, Some(m), off);
            let out = r->Ok_0;
            &&& c is Some
            &&& forall|k: Seq<u8>|
                #[trigger] m.contains_key(k) ==> c->Some_0.contains_key(k) && c->Some_0[k] == m[k]
            &&& forall|k: Seq<u8>|
                #[trigger] c->Some_0.contains_key(k) && !m.contains_key(k) ==> (spec_unpack_name(
                    out.subrange(off, out.len() as int),
                    c->Some_0[k] as int,
                    true,
                ) matches Ok((n, _)) && n == k)
        }),
{
    if !(d.len() == 1 && d[0] == DOT) {
        assert(d.subrange(0, d.len() as int) =~= d);
        assert(msg.subrange(0, msg.len() as int) =~= msg);
        lemma_unpack_packed_compressed(d, 0, 0, Seq::empty(), msg, m, msg, off);
    }
}

impl Name {
    /// The bytes of the name's text form.
    pub open spec fn name_bytes(&self) -> Seq<u8> {
        encode_utf8(self.data@)
    }

    /// The name's text form.
    pub fn to_string(&self) -> (r: String)
        ensures
            r@ == self.data@,
    {
        self.data.clone()
    }

    /// A name with the text `data`, which can be at most 255 bytes long.
    pub fn new(data: &str) -> (res: Result<Name, Error>)
        ensures
            data.spec_bytes().len() > NAME_LEN ==> res == Err::<Name, Error>(Error::ErrCalcLen),
            data.spec_bytes().len() <= NAME_LEN ==> (res matches Ok(n) && n.data@ == data@),
    {
        if data.as_bytes().len() > NAME_LEN {
            Err(Error::ErrCalcLen)
        } else {
            Ok(Name { data: data.to_owned() })
        }
    }

    /// Appends the wire form of the name to `msg`, compressing it against the
    /// suffixes in `compression` when there is a table, and recording there
    /// the suffixes it writes.
    pub fn pack(
        &self,
        msg: Vec<u8>,
        compression: &mut Option<CompressionMap>,
        compression_off: usize,
    ) -> (res: Result<Vec<u8>, Error>)
        requires
            !spec_pack_name_underflows(
                self.name_bytes(),
                msg@,
                compression_view(*old(compression)),
                compression_off as int,
            ),
        ensures
            ({
                let (r, c) = spec_pack_name(
                    self.name_bytes(),
                    msg@,
                    compression_view(*old(compression)),
                    compression_off as int,
                );
                &&& packed_view(res) == r
                &&& compression_view(*final(compression)) == c
            }),
    {
        let data = self.data.as_str().as_bytes();
        let ghost d = data@;
        let mut msg = msg;
        if data.len() == 0 || data[data.len() - 1] != DOT {
            return Err(Error::ErrNonCanonicalName);
        }
        if data.len() == 1 && data[0] == DOT {
            msg.push(0);
            return Ok(msg);
        }
        let ghost msg0 = msg@;
        let ghost target = spec_pack_name(
            d,
            msg@,
            compression_view(*compression),
            compression_off as int,
        );
        let mut comp = compression.take();
        let mut begin: usize = 0;
        let mut i: usize = 0;
        #[verifier::loop_isolation(false)]
        while i < data.len()
            invariant
                d == data@,
                target == spec_pack_name_from(
                    d,
                    0,
                    0,
                    msg0,
                    compression_view(*old(compression)),
                    compression_off as int,
                ),
                begin <= i <= d.len(),
                spec_pack_name_from(
                    d,
                    i as int,
                    begin as int,
                    msg@,
                    compression_view(comp),
                    compression_off as int,
                ) == target,
                !spec_pack_name_from_underflows(
                    d,
                    i as int,
                    begin as int,
                    msg@,
                    compression_view(comp),
                    compression_off as int,
                ),
            decreases d.len() - i,
        {
            if data[i] == DOT {
                if i - begin >= 64 {
                    *compression = comp;
                    return Err(Error::ErrSegTooLong);
                }
                if i - begin == 0 {
                    *compression = comp;
                    return Err(Error::ErrZeroSegLen);
                }
                msg.push((i - begin) as u8);
                msg = pack_bytes(msg, vstd::slice::slice_subrange(data, begin, i));
                begin = i + 1;
                i = i + 1;
            } else {
                if i == 0 || data[i - 1] == DOT {
                    match &mut comp {
                        Some(m) => {
                            let key = vstd::slice::slice_to_vec(
                                vstd::slice::slice_subrange(data, i, data.len()),
                            );
                            match m.get(key.as_slice()) {
                                Some(ptr) => {
                                    msg.push(((ptr >> 8) | 0xC0) as u8);
                                    msg.push((ptr & 0xFF) as u8);
                                    *compression = comp;
                                    return Ok(msg);
                                },
                                None => {},
                            }
                            if msg.len() <= 0x3FFF {
                                m.insert(key, msg.len() - compression_off);
                            }
                        },
                        None => {},
                    }
                }
                i = i + 1;
            }
        }
        *compression = comp;
        msg.push(0);
        Ok(msg)
    }

    /// Reads a name from `msg` at `off`, following compression pointers, and
    /// returns where the message goes on after it; the name is kept only
    /// when it is read in full.
    pub fn unpack(&mut self, msg: &[u8], off: usize) -> (res: Result<usize, Error>)
        ensures
            match spec_unpack_name(msg@, off as int, true) {
                Ok((bytes, next)) => {
                    &&& res == Ok::<usize, Error>(next as usize)
                    &&& final(self).name_bytes() == bytes
                },
                Err(e) => {
                    &&& res == Err::<usize, Error>(e)
                    &&& *final(self) == *old(self)
                },
            },
    {
        self.unpack_compressed(msg, off, true)
    }

    /// Reads a name from `msg` at `off` as `unpack` does, refusing
    /// compression pointers unless `allow_compression`.
    pub fn unpack_compressed(&mut self, msg: &[u8], off: usize, allow_compression: bool) -> (res:
        Result<usize, Error>)
        ensures
            match spec_unpack_name(msg@, off as int, allow_compression) {
                Ok((bytes, next)) => {
                    &&& res == Ok::<usize, Error>(next as usize)
                    &&& final(self).name_bytes() == bytes
                },
                Err(e) => {
                    &&& res == Err::<usize, Error>(e)
                    &&& *final(self) == *old(self)
                },
            },
    {
        let ghost target = spec_unpack_name(msg@, off as int, allow_compression);
        let mut curr_off: usize = off;
        let mut new_off: usize = off;
        let mut ptr: usize = 0;
        let mut name: Vec<u8> = Vec::new();
        assert(valid_utf8(name@)) by {
            assert(name@ =~= Seq::<u8>::empty());
        }
        loop
            invariant
                ptr <= MAX_POINTERS,
                valid_utf8(name@),
                target == spec_unpack_name(msg@, off as int, allow_compression),
                spec_unpack_name_from(
                    msg@,
                    curr_off as int,
                    ptr as int,
                    new_off as int,
                    name@,
                    allow_compression,
                ) == target,
                *self == *old(self),
            decreases MAX_POINTERS + 1 - ptr, msg@.len() - curr_off,
        {
            if curr_off >= msg.len() {
                return Err(Error::ErrBaseLen);
            }
            let c = msg[curr_off];
            curr_off = curr_off + 1;
            let tag = c & 0xC0;
            if tag == 0x00 {
                if c == 0 {
                    if name.len() == 0 {
                        name.push(DOT);
                        assert(name@ =~= seq![DOT]);
                        proof {
                            lemma_dot_is_utf8();
                        }
                    }
                    if name.len() > NAME_LEN {
                        return Err(Error::ErrCalcLen);
                    }
                    let ghost bytes = name@;
                    self.data = string_from_utf8(name);
                    proof {
                        vstd::utf8::decode_utf8_encode_utf8(bytes);
                    }
                    if ptr == 0 {
                        new_off = curr_off;
                    }
                    return Ok(new_off);
                }
                if (c as usize) > msg.len() - curr_off {
                    return Err(Error::ErrCalcLen);
                }
                let end_off = curr_off + c as usize;
                let label = vstd::slice::slice_subrange(msg, curr_off, end_off);
                if !utf8_is_valid(label) {
                    return Err(Error::ErrUtf8);
                }
                let ghost before = name@;
                name = pack_bytes(name, label);
                name.push(DOT);
                proof {
                    lemma_dot_is_utf8();
                    vstd::utf8::valid_utf8_concat(before, label@);
                    vstd::utf8::valid_utf8_concat(before + label@, seq![DOT]);
                    assert(name@ =~= (before + label@) + seq![DOT]);
                    assert(before + msg@.subrange(curr_off as int, end_off as int).push(DOT)
                        =~= name@);
                }
                curr_off = end_off;
            } else if tag == 0xC0 {
                if !allow_compression {
                    return Err(Error::ErrCompressedSrv);
                }
                if curr_off >= msg.len() {
                    return Err(Error::ErrInvalidPtr);
                }
                let c1 = msg[curr_off];
                curr_off = curr_off + 1;
                if ptr == 0 {
                    new_off = curr_off;
                }
                ptr = ptr + 1;
                if ptr > MAX_POINTERS {
                    return Err(Error::ErrTooManyPtr);
                }
                curr_off = (((c ^ 0xC0) as usize) << 8) | (c1 as usize);
            } else {
                return Err(Error::ErrReserved);
            }
        }
    }
}

} // verus!
