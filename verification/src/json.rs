//! Rendering a decoded event as one JSON object, exactly as a subscriber on
//! a text transport sees it: key bytes as an array of numbers or null,
//! payload and topic as escaped strings, partition and offset as numbers,
//! timestamp as a number or null.

use vstd::prelude::*;
use crate::record::RecordEvent;
use crate::record::RecordEventView;
use crate::text::chars_to_string;
use crate::text::dec_chars;
use crate::text::dec_chars_i64;
use crate::text::dec_i64;
use crate::text::dec_u64;
use crate::text::str_chars;

verus! {

/// The character for one hexadecimal digit value.
pub open spec fn hex_digit(d: nat) -> char {
    let m = d % 16;
    if m < 10 {
        crate::text::digit_char(m)
    } else if m == 10 {
        'a'
    } else if m == 11 {
        'b'
    } else if m == 12 {
        'c'
    } else if m == 13 {
        'd'
    } else if m == 14 {
        'e'
    } else {
        'f'
    }
}

/// The JSON escaping of one string character: quote and backslash get a
/// backslash, control characters become `\u00..`, everything else stands as
/// itself.
pub open spec fn esc_char(c: char) -> Seq<char> {
    if c == '"' {
        seq!['\\', '"']
    } else if c == '\\' {
        seq!['\\', '\\']
    } else if (c as u32) < 32 {
        seq!['\\', 'u', '0', '0', hex_digit((c as u32 / 16) as nat), hex_digit(
            (c as u32 % 16) as nat,
        )]
    } else {
        seq![c]
    }
}

/// The JSON escaping of a whole string body.
pub open spec fn escaped(s: Seq<char>) -> Seq<char>
    decreases s.len(),
{
    if s.len() == 0 {
        Seq::empty()
    } else {
        esc_char(s[0]) + escaped(s.drop_first())
    }
}

/// Escaping one more character appends its escaping.
pub proof fn lemma_escaped_snoc(s: Seq<char>, c: char)
    ensures
        escaped(s.push(c)) == escaped(s) + esc_char(c),
    decreases s.len(),
{
    if s.len() == 0 {
        assert(s.push(c)[0] == c);
        assert(s.push(c).drop_first() =~= Seq::<char>::empty());
        assert(escaped(s.push(c)) == esc_char(c) + escaped(Seq::<char>::empty()));
        assert(esc_char(c) + Seq::<char>::empty() =~= esc_char(c));
        assert(Seq::<char>::empty() + esc_char(c) =~= esc_char(c));
    } else {
        assert(s.push(c)[0] == s[0]);
        assert(s.push(c).drop_first() =~= s.drop_first().push(c));
        assert(escaped(s.push(c)) == esc_char(s[0]) + escaped(s.drop_first().push(c)));
        lemma_escaped_snoc(s.drop_first(), c);
        assert(esc_char(s[0]) + (escaped(s.drop_first()) + esc_char(c)) =~= (esc_char(s[0])
            + escaped(s.drop_first())) + esc_char(c));
    }
}

/// The bytes of a key as a comma-separated list of decimal numbers.
pub open spec fn byte_list(bs: Seq<u8>) -> Seq<char>
    decreases bs.len(),
{
    if bs.len() == 0 {
        Seq::empty()
    } else if bs.len() == 1 {
        dec_chars(bs[0] as nat)
    } else {
        byte_list(bs.drop_last()) + seq![','] + dec_chars(bs.last() as nat)
    }
}

/// A key as JSON: an array of its byte values, or null when absent.
pub open spec fn key_json(k: Option<Seq<u8>>) -> Seq<char> {
    match k {
        Some(bs) => seq!['['] + byte_list(bs) + seq![']'],
        None => seq!['n', 'u', 'l', 'l'],
    }
}

/// A timestamp as JSON: its milliseconds, or null when absent.
pub open spec fn timestamp_json(t: Option<int>) -> Seq<char> {
    match t {
        Some(ms) => dec_chars_i64(ms),
        None => seq!['n', 'u', 'l', 'l'],
    }
}

/// The whole event as one JSON object, fields in a fixed order.
pub open spec fn event_json_chars(e: RecordEventView) -> Seq<char> {
    seq!['{', '"', 'k', 'e', 'y', '"', ':'] + key_json(e.key) + seq![',', '"', 'p', 'a', 'y', 'l', 'o', 'a', 'd', '"', ':', '"']
        + escaped(e.payload) + seq!['"', ',', '"', 't', 'o', 'p', 'i', 'c', '"', ':', '"']
        + escaped(e.topic) + seq!['"', ',', '"', 'p', 'a', 'r', 't', 'i', 't', 'i', 'o', 'n', '"', ':']
        + dec_chars_i64(e.partition) + seq![',', '"', 'o', 'f', 'f', 's', 'e', 't', '"', ':']
        + dec_chars_i64(e.offset) + seq![',', '"', 't', 'i', 'm', 'e', 's', 't', 'a', 'm', 'p', '"', ':']
        + timestamp_json(e.timestamp) + seq!['}']
}

/// One hexadecimal digit character, matching `hex_digit`.
fn hex_digit_of(d: u32) -> (c: char)
    ensures
        c == hex_digit(d as nat),
{
    let m: u32 = d % 16;
    if m < 10 {
        crate::text::digit_of_u32(m)
    } else if m == 10 {
        'a'
    } else if m == 11 {
        'b'
    } else if m == 12 {
        'c'
    } else if m == 13 {
        'd'
    } else if m == 14 {
        'e'
    } else {
        'f'
    }
}

/// Pushes the escaping of one character.
fn push_esc_char(dst: &mut Vec<char>, c: char)
    ensures
        final(dst)@ == old(dst)@ + esc_char(c),
{
    if c == '"' {
        dst.push('\\');
        dst.push('"');
    } else if c == '\\' {
        dst.push('\\');
        dst.push('\\');
    } else {
        let u: u32 = c as u32;
        if u < 32 {
            dst.push('\\');
            dst.push('u');
            dst.push('0');
            dst.push('0');
            dst.push(hex_digit_of(u / 16));
            dst.push(hex_digit_of(u % 16));
        } else {
            dst.push(c);
        }
    }
    proof {
        assert(dst@ =~= old(dst)@ + esc_char(c));
    }
}

/// Pushes the escaping of a whole string.
fn push_escaped(dst: &mut Vec<char>, s: &str)
    ensures
        final(dst)@ == old(dst)@ + escaped(s@),
{
    let cs = str_chars(s);
    let mut i: usize = 0;
    proof {
        assert(cs@.take(0) =~= Seq::<char>::empty());
    }
    while i < cs.len()
        invariant
            i <= cs@.len(),
            cs@ == s@,
            dst@ == old(dst)@ + escaped(cs@.take(i as int)),
        decreases cs@.len() - i,
    {
        push_esc_char(dst, cs[i]);
        proof {
            assert(cs@.take(i + 1) =~= cs@.take(i as int).push(cs@[i as int]));
            lemma_escaped_snoc(cs@.take(i as int), cs@[i as int]);
            assert(old(dst)@ + escaped(cs@.take(i as int)) + esc_char(cs@[i as int]) =~= old(
                dst,
            )@ + escaped(cs@.take(i + 1)));
        }
        i = i + 1;
    }
    proof {
        assert(cs@.take(cs@.len() as int) =~= cs@);
    }
}

/// Pushes a key's byte values, comma-separated.
fn push_byte_list(dst: &mut Vec<char>, bytes: &Vec<u8>)
    ensures
        final(dst)@ == old(dst)@ + byte_list(bytes@),
{
    let mut i: usize = 0;
    proof {
        assert(byte_list(bytes@.take(0)) =~= Seq::<char>::empty());
        assert(dst@ =~= old(dst)@ + byte_list(bytes@.take(0)));
    }
    while i < bytes.len()
        invariant
            i <= bytes@.len(),
            dst@ == old(dst)@ + byte_list(bytes@.take(i as int)),
        decreases bytes@.len() - i,
    {
        if i > 0 {
            dst.push(',');
        }
        let mut digits = dec_u64(bytes[i] as u64);
        dst.append(&mut digits);
        proof {
            assert(bytes@.take(i + 1).drop_last() =~= bytes@.take(i as int));
            assert(bytes@.take(i + 1).last() == bytes@[i as int]);
            if i == 0 {
                assert(dst@ =~= old(dst)@ + byte_list(bytes@.take(i + 1)));
            } else {
                assert(dst@ =~= old(dst)@ + (byte_list(bytes@.take(i as int)) + seq![',']
                    + dec_chars(bytes@[i as int] as nat)));
            }
        }
        i = i + 1;
    }
    proof {
        assert(bytes@.take(bytes@.len() as int) =~= bytes@);
    }
}

/// Pushes the key field, label included.
fn push_key_field(out: &mut Vec<char>, key: &Option<Vec<u8>>)
    ensures
        final(out)@ == old(out)@ + seq!['"', 'k', 'e', 'y', '"', ':'] + key_json(
            match *key {
                Some(bs) => Some(bs@),
                None => None,
            },
        ),
{
    out.push('"');
    out.push('k');
    out.push('e');
    out.push('y');
    out.push('"');
    out.push(':');
    match key {
        Some(bytes) => {
            out.push('[');
            push_byte_list(out, bytes);
            out.push(']');
        },
        None => {
            out.push('n');
            out.push('u');
            out.push('l');
            out.push('l');
        },
    }
    proof {
        assert(out@ =~= old(out)@ + seq!['"', 'k', 'e', 'y', '"', ':'] + key_json(
            match *key {
                Some(bs) => Some(bs@),
                None => None,
            },
        ));
    }
}

/// Pushes the payload field, label and quotes included.
fn push_payload_field(out: &mut Vec<char>, payload: &str)
    ensures
        final(out)@ == old(out)@ + seq![',', '"', 'p', 'a', 'y', 'l', 'o', 'a', 'd', '"', ':', '"']
            + escaped(payload@) + seq!['"'],
{
    out.push(',');
    out.push('"');
    out.push('p');
    out.push('a');
    out.push('y');
    out.push('l');
    out.push('o');
    out.push('a');
    out.push('d');
    out.push('"');
    out.push(':');
    out.push('"');
    push_escaped(out, payload);
    out.push('"');
    proof {
        assert(out@ =~= old(out)@ + seq![',', '"', 'p', 'a', 'y', 'l', 'o', 'a', 'd', '"', ':', '"']
            + escaped(payload@) + seq!['"']);
    }
}

/// Pushes the topic field, label and quotes included.
fn push_topic_field(out: &mut Vec<char>, topic: &str)
    ensures
        final(out)@ == old(out)@ + seq![',', '"', 't', 'o', 'p', 'i', 'c', '"', ':', '"'] + escaped(
            topic@,
        ) + seq!['"'],
{
    out.push(',');
    out.push('"');
    out.push('t');
    out.push('o');
    out.push('p');
    out.push('i');
    out.push('c');
    out.push('"');
    out.push(':');
    out.push('"');
    push_escaped(out, topic);
    out.push('"');
    proof {
        assert(out@ =~= old(out)@ + seq![',', '"', 't', 'o', 'p', 'i', 'c', '"', ':', '"']
            + escaped(topic@) + seq!['"']);
    }
}

/// Pushes the partition field, label included.
fn push_partition_field(out: &mut Vec<char>, partition: i32)
    ensures
        final(out)@ == old(out)@ + seq![',', '"', 'p', 'a', 'r', 't', 'i', 't', 'i', 'o', 'n', '"', ':']
            + dec_chars_i64(partition as int),
{
    out.push(',');
    out.push('"');
    out.push('p');
    out.push('a');
    out.push('r');
    out.push('t');
    out.push('i');
    out.push('t');
    out.push('i');
    out.push('o');
    out.push('n');
    out.push('"');
    out.push(':');
    let mut digits = dec_i64(partition as i64);
    out.append(&mut digits);
    proof {
        assert(out@ =~= old(out)@ + seq![',', '"', 'p', 'a', 'r', 't', 'i', 't', 'i', 'o', 'n', '"', ':']
            + dec_chars_i64(partition as int));
    }
}

/// Pushes the offset field, label included.
fn push_offset_field(out: &mut Vec<char>, offset: i64)
    ensures
        final(out)@ == old(out)@ + seq![',', '"', 'o', 'f', 'f', 's', 'e', 't', '"', ':']
            + dec_chars_i64(offset as int),
{
    out.push(',');
    out.push('"');
    out.push('o');
    out.push('f');
    out.push('f');
    out.push('s');
    out.push('e');
    out.push('t');
    out.push('"');
    out.push(':');
    let mut digits = dec_i64(offset);
    out.append(&mut digits);
    proof {
        assert(out@ =~= old(out)@ + seq![',', '"', 'o', 'f', 'f', 's', 'e', 't', '"', ':']
            + dec_chars_i64(offset as int));
    }
}

/// Pushes the timestamp field, label included.
fn push_timestamp_field(out: &mut Vec<char>, timestamp: &Option<i64>)
    ensures
        final(out)@ == old(out)@ + seq![',', '"', 't', 'i', 'm', 'e', 's', 't', 'a', 'm', 'p', '"', ':']
            + timestamp_json(
            match *timestamp {
                Some(ms) => Some(ms as int),
                None => None,
            },
        ),
{
    out.push(',');
    out.push('"');
    out.push('t');
    out.push('i');
    out.push('m');
    out.push('e');
    out.push('s');
    out.push('t');
    out.push('a');
    out.push('m');
    out.push('p');
    out.push('"');
    out.push(':');
    match timestamp {
        Some(ms) => {
            let mut digits = dec_i64(*ms);
            out.append(&mut digits);
        },
        None => {
            out.push('n');
            out.push('u');
            out.push('l');
            out.push('l');
        },
    }
    proof {
        assert(out@ =~= old(out)@ + seq![',', '"', 't', 'i', 'm', 'e', 's', 't', 'a', 'm', 'p', '"', ':']
            + timestamp_json(
            match *timestamp {
                Some(ms) => Some(ms as int),
                None => None,
            },
        ));
    }
}

/// Renders the event as one JSON object.
#[verifier::rlimit(100)]
pub fn event_json(e: &RecordEvent) -> (s: String)
    ensures
        s@ == event_json_chars(e@),
{
    let mut out: Vec<char> = Vec::new();
    out.push('{');
    push_key_field(&mut out, &e.key);
    push_payload_field(&mut out, e.payload.as_str());
    push_topic_field(&mut out, e.topic.as_str());
    push_partition_field(&mut out, e.partition);
    push_offset_field(&mut out, e.offset);
    push_timestamp_field(&mut out, &e.timestamp);
    out.push('}');
    proof {
        assert(out@ =~= event_json_chars(e@));
    }
    chars_to_string(&out)
}

} // verus!
