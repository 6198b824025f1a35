//! Turning connection-owned buffers into caller-owned text.
//!
//! A buffer reference is either null (`None`) or points at bytes that run up
//! to a zero terminator. An array reference is either null or points at
//! buffer references that run up to a null entry.

use vstd::prelude::*;
use vstd::slice::slice_subrange;
use vstd::utf8::{
    decode_utf8, encode_utf8, encode_utf8_decode_utf8, encode_utf8_valid_utf8, is_ascii_chars,
    is_ascii_chars_encode_utf8, valid_utf8,
};

verus! {

/// What `String::from_utf8_lossy` makes of bytes that are not valid UTF-8.
pub uninterp spec fn lossy_text(bytes: Seq<u8>) -> Seq<char>;

/// The characters that a run of bytes stands for: its UTF-8 decoding where
/// it has one, and the lossy reading otherwise.
pub open spec fn decoded(bytes: Seq<u8>) -> Seq<char> {
    if valid_utf8(bytes) {
        decode_utf8(bytes)
    } else {
        lossy_text(bytes)
    }
}

/// Index of the first zero byte at or after `start`; the length of the
/// buffer when there is none.
pub open spec fn terminator_from(buffer: Seq<u8>, start: int) -> int
    decreases buffer.len() - start,
{
    if start < 0 || start >= buffer.len() {
        buffer.len() as int
    } else if buffer[start] == 0 {
        start
    } else {
        terminator_from(buffer, start + 1)
    }
}

/// The bytes of a buffer that come before its terminator.
pub open spec fn text_bytes(buffer: Seq<u8>) -> Seq<u8> {
    buffer.subrange(0, terminator_from(buffer, 0))
}

/// The text that a buffer holds.
pub open spec fn text_of(buffer: Seq<u8>) -> Seq<char> {
    decoded(text_bytes(buffer))
}

/// The text behind a buffer reference that may be null.
pub open spec fn optional_text(buffer: Option<Seq<u8>>) -> Option<Seq<char>> {
    match buffer {
        Some(bytes) => Some(text_of(bytes)),
        None => None,
    }
}

/// Index of the first null entry at or after `start`; the length of the
/// array when there is none.
pub open spec fn null_entry_from(entries: Seq<Option<Seq<u8>>>, start: int) -> int
    decreases entries.len() - start,
{
    if start < 0 || start >= entries.len() {
        entries.len() as int
    } else if entries[start] is None {
        start
    } else {
        null_entry_from(entries, start + 1)
    }
}

/// The texts behind an array reference, in the array's order.
pub open spec fn array_texts(array: Option<Seq<Option<Seq<u8>>>>) -> Seq<Seq<char>> {
    match array {
        Some(entries) => Seq::new(
            null_entry_from(entries, 0) as nat,
            |i: int| text_of(entries[i]->0),
        ),
        None => Seq::empty(),
    }
}

/// `terminator_from` finds the first zero byte: no byte between `start` and
/// the result is zero, and the result is either a zero byte or the end.
pub proof fn lemma_terminator_is_first(buffer: Seq<u8>, start: int)
    requires
        0 <= start <= buffer.len(),
    ensures
        start <= terminator_from(buffer, start) <= buffer.len(),
        forall|i: int| start <= i < terminator_from(buffer, start) ==> buffer[i] != 0,
        terminator_from(buffer, start) < buffer.len() ==> buffer[terminator_from(buffer, start)]
            == 0,
    decreases buffer.len() - start,
{
    if start < buffer.len() && buffer[start] != 0 {
        lemma_terminator_is_first(buffer, start + 1);
    }
}

/// The first zero byte is the only place where a text can end: an index
/// with no zero byte before it, which is a zero byte or the end of the
/// buffer, is the terminator.
pub proof fn lemma_terminator_is_unique(buffer: Seq<u8>, start: int, end: int)
    requires
        0 <= start <= end <= buffer.len(),
        forall|i: int| start <= i < end ==> buffer[i] != 0,
        end < buffer.len() ==> buffer[end] == 0,
    ensures
        terminator_from(buffer, start) == end,
    decreases end - start,
{
    if start < end {
        lemma_terminator_is_unique(buffer, start + 1, end);
    }
}

/// `null_entry_from` finds the first null entry: every entry between `start`
/// and the result is a buffer, and the result is either a null entry or the
/// end.
pub proof fn lemma_null_entry_is_first(entries: Seq<Option<Seq<u8>>>, start: int)
    requires
        0 <= start <= entries.len(),
    ensures
        start <= null_entry_from(entries, start) <= entries.len(),
        forall|i: int| start <= i < null_entry_from(entries, start) ==> entries[i] is Some,
        null_entry_from(entries, start) < entries.len() ==> entries[null_entry_from(
            entries,
            start,
        )] is None,
    decreases entries.len() - start,
{
    if start < entries.len() && entries[start] is Some {
        lemma_null_entry_is_first(entries, start + 1);
    }
}

/// The first null entry is the only place where an array can end.
pub proof fn lemma_null_entry_is_unique(entries: Seq<Option<Seq<u8>>>, start: int, end: int)
    requires
        0 <= start <= end <= entries.len(),
        forall|i: int| start <= i < end ==> entries[i] is Some,
        end < entries.len() ==> entries[end] is None,
    ensures
        null_entry_from(entries, start) == end,
    decreases end - start,
{
    if start < end {
        lemma_null_entry_is_unique(entries, start + 1, end);
    }
}

/// A null reference and a buffer are never read alike: the first is
/// absence, the second a text. A buffer whose first byte is the terminator,
/// or that has no bytes at all, is the empty text.
pub proof fn lemma_absent_differs_from_empty(buffer: Seq<u8>)
    ensures
        optional_text(None) is None,
        optional_text(Some(buffer)) is Some,
        optional_text(None) != optional_text(Some(buffer)),
        terminator_from(buffer, 0) == 0 ==> optional_text(Some(buffer)) == Some(
            Seq::<char>::empty(),
        ),
{
    if terminator_from(buffer, 0) == 0 {
        assert(text_bytes(buffer) =~= Seq::<u8>::empty());
        assert(valid_utf8(Seq::<u8>::empty()));
        assert(decode_utf8(Seq::<u8>::empty()) =~= Seq::<char>::empty());
    }
}

/// Bytes below 128 are read as the characters with the same numbers.
pub proof fn lemma_ascii_is_read_as_written(bytes: Seq<u8>)
    requires
        forall|i: int| 0 <= i < bytes.len() ==> bytes[i] < 128,
    ensures
        valid_utf8(bytes),
        decoded(bytes) == Seq::new(bytes.len(), |i: int| bytes[i] as char),
{
    let chars = Seq::new(bytes.len(), |i: int| bytes[i] as char);
    assert(is_ascii_chars(chars));
    is_ascii_chars_encode_utf8(chars);
    assert(encode_utf8(chars) =~= bytes) by {
        assert forall|i: int| 0 <= i < bytes.len() implies encode_utf8(chars)[i] == bytes[i] by {
            assert(chars[i] as u8 == encode_utf8(chars)[i]);
        }
    }
    encode_utf8_valid_utf8(chars);
    encode_utf8_decode_utf8(chars);
}

/// Calls `String::from_utf8_lossy` and takes ownership of what it returns.
/// Valid UTF-8 comes back as the string it encodes; of any other input the
/// contract only names the result.
#[verifier::external_body]
fn decode_lossy(bytes: &[u8]) -> (text: String)
    ensures
        valid_utf8(bytes@) ==> text@ == decode_utf8(bytes@),
        !valid_utf8(bytes@) ==> text@ == lossy_text(bytes@),
{
    String::from_utf8_lossy(bytes).into_owned()
}

/// Number of bytes in `buffer` before its terminator.
fn text_length(buffer: &[u8]) -> (length: usize)
    ensures
        length == terminator_from(buffer@, 0),
{
    let mut index: usize = 0;
    while index < buffer.len() && buffer[index] != 0
        invariant
            index <= buffer@.len(),
            terminator_from(buffer@, 0) == terminator_from(buffer@, index as int),
        decreases buffer@.len() - index,
    {
        index += 1;
    }
    index
}

/// Copies the text out of a buffer.
pub fn read_text(buffer: &[u8]) -> (text: String)
    ensures
        text@ == text_of(buffer@),
{
    let length = text_length(buffer);
    proof {
        lemma_terminator_is_first(buffer@, 0);
    }
    decode_lossy(slice_subrange(buffer, 0, length))
}

/// Copies the text out of a buffer that the connection guarantees to exist.
pub fn read_required(buffer: &Option<Vec<u8>>) -> (text: String)
    requires
        buffer is Some,
    ensures
        text@ == text_of(buffer->0@),
{
    let bytes = buffer.as_ref().unwrap();
    read_text(bytes.as_slice())
}

/// Copies the text out of a buffer that may be absent. A null reference is
/// absence; any buffer, an empty one too, is a text.
pub fn read_optional(buffer: &Option<Vec<u8>>) -> (text: Option<String>)
    ensures
        text.deep_view() == optional_text(buffer.deep_view()),
        text is None <==> buffer is None,
{
    match buffer {
        Some(bytes) => {
            assert(bytes.deep_view() =~= bytes@);
            Some(read_text(bytes.as_slice()))
        },
        None => None,
    }
}

/// Copies the texts out of an array of buffers, in order, up to the array's
/// first null entry. A null array reference gives no texts.
pub fn read_array(array: &Option<Vec<Option<Vec<u8>>>>) -> (texts: Vec<String>)
    ensures
        texts.deep_view() == array_texts(array.deep_view()),
        array is None ==> texts@.len() == 0,
{
    let mut texts: Vec<String> = Vec::new();
    match array {
        Some(entries) => {
            let ghost model = entries.deep_view();
            let mut index: usize = 0;
            while index < entries.len() && entries[index].is_some()
                invariant
                    model == entries.deep_view(),
                    index <= entries@.len(),
                    null_entry_from(model, 0) == null_entry_from(model, index as int),
                    texts@.len() == index,
                    forall|i: int| 0 <= i < index ==> texts@[i]@ == text_of(model[i]->0),
                decreases entries@.len() - index,
            {
                let bytes = entries[index].as_ref().unwrap();
                assert(bytes.deep_view() =~= bytes@);
                let text = read_text(bytes.as_slice());
                texts.push(text);
                index += 1;
            }
            assert(texts.deep_view() =~= array_texts(array.deep_view()));
        },
        None => {
            assert(texts.deep_view() =~= array_texts(array.deep_view()));
        },
    }
    texts
}

/// Whether two byte slices hold the same bytes.
fn same_bytes(left: &[u8], right: &[u8]) -> (same: bool)
    ensures
        same == (left@ == right@),
{
    if left.len() != right.len() {
        return false;
    }
    let mut index: usize = 0;
    while index < left.len()
        invariant
            left@.len() == right@.len(),
            index <= left@.len(),
            forall|i: int| 0 <= i < index ==> left@[i] == right@[i],
        decreases left@.len() - index,
    {
        if left[index] != right[index] {
            return false;
        }
        index += 1;
    }
    assert(left@ =~= right@);
    true
}

/// Whether two texts hold the same characters.
pub fn same_text(left: &str, right: &str) -> (same: bool)
    ensures
        same == (left@ == right@),
{
    let same = same_bytes(left.as_bytes(), right.as_bytes());
    proof {
        encode_utf8_decode_utf8(left@);
        encode_utf8_decode_utf8(right@);
    }
    same
}

} // verus!
