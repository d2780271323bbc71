//! Addresses given as text: the prefix that selects the local transport.

use vstd::prelude::*;
use vstd::slice::slice_subrange;
use vstd::utf8::*;
use crate::target::{Target, TargetView};

verus! {

/// A text that begins with this prefix names a local endpoint; what follows
/// the prefix is the path.
pub const LOCAL_PREFIX: &'static str = "unix:";

/// Whether `text` begins with [`LOCAL_PREFIX`]. The prefix is matched
/// exactly, at the start of the text only.
pub open spec fn names_local(text: Seq<char>) -> bool {
    LOCAL_PREFIX@.is_prefix_of(text)
}

/// The path that `text` names: the UTF-8 bytes of what follows the prefix,
/// with nothing added, removed or changed.
pub open spec fn local_path(text: Seq<char>) -> Seq<u8>
    recommends
        names_local(text),
{
    encode_utf8(text.skip(LOCAL_PREFIX@.len() as int))
}

/// The endpoint that `text` names. Where the local transport is available
/// (`local`) and the text begins with the prefix, it is the path after the
/// prefix; in every other case the whole text goes to host name resolution.
pub open spec fn text_target(text: Seq<char>, local: bool) -> TargetView {
    if local && names_local(text) {
        TargetView::Path(local_path(text))
    } else {
        TargetView::Host(text)
    }
}

/// The prefix is the five characters `u`, `n`, `i`, `x`, `:`, all of them
/// ASCII.
pub proof fn lemma_local_prefix()
    ensures
        LOCAL_PREFIX@ == seq!['u', 'n', 'i', 'x', ':'],
        LOCAL_PREFIX@.len() == 5,
        is_ascii_chars(LOCAL_PREFIX@),
{
    reveal_strlit("unix:");
    assert(LOCAL_PREFIX@ =~= seq!['u', 'n', 'i', 'x', ':']);
}

/// An ASCII character and its byte are the same number.
proof fn lemma_ascii_byte(ch: char)
    ensures
        ch as u32 <= 0x7f <==> ch <= '\u{7f}',
        ch as u32 <= 0x7f ==> ch as u8 == ch as u32,
{
}

/// How the UTF-8 encoding of a non-empty text begins: with the character
/// itself where the first character is ASCII, and with a byte outside the
/// ASCII range where it is not.
pub proof fn lemma_encode_first(chars: Seq<char>)
    requires
        chars.len() > 0,
    ensures
        encode_utf8(chars).len() > 0,
        chars[0] as u32 <= 0x7f ==> encode_utf8(chars) == seq![chars[0] as u8] + encode_utf8(
            chars.drop_first(),
        ),
        chars[0] as u32 > 0x7f ==> encode_utf8(chars)[0] >= 0x80,
{
    let c = chars[0] as u32;
    char_is_scalar(chars[0]);
    let head = encode_scalar(c);
    let tail = encode_utf8(chars.drop_first());
    assert(encode_utf8(chars) == head + tail);
    if has_width_1_encoding(c) {
        assert((c & 0x7f) as u8 == c as u8) by (bit_vector)
            requires
                c <= 0x7f,
        ;
        lemma_ascii_byte(chars[0]);
        assert(head =~= seq![chars[0] as u8]);
    } else if has_width_2_encoding(c) {
        let low = ((c >> 6) & 0x1f) as u8;
        assert(0xc0u8 | low >= 0x80) by (bit_vector);
        assert((head + tail)[0] == head[0]);
    } else if has_width_3_encoding(c) {
        let low = ((c >> 12) & 0x0f) as u8;
        assert(0xe0u8 | low >= 0x80) by (bit_vector);
        assert((head + tail)[0] == head[0]);
    } else {
        let low = ((c >> 18) & 0x7) as u8;
        assert(0xf0u8 | low >= 0x80) by (bit_vector);
        assert((head + tail)[0] == head[0]);
    }
}

/// A sequence that begins with a non-empty other begins with its first item.
proof fn lemma_prefix_first<T>(a: Seq<T>, b: Seq<T>)
    requires
        a.len() > 0,
        a.is_prefix_of(b),
    ensures
        b.len() > 0,
        a[0] == b[0],
{
    assert(a[0] == b.subrange(0, a.len() as int)[0]);
}

/// Putting the same item in front of two sequences does not change whether
/// the one begins with the other.
proof fn lemma_prefix_push_front<T>(first: T, a: Seq<T>, b: Seq<T>)
    ensures
        (seq![first] + a).is_prefix_of(seq![first] + b) <==> a.is_prefix_of(b),
{
    let fa = seq![first] + a;
    let fb = seq![first] + b;
    if fa.is_prefix_of(fb) {
        assert forall|i: int| 0 <= i < a.len() implies a[i] == b[i] by {
            assert(fa[i + 1] == fb.subrange(0, fa.len() as int)[i + 1]);
        }
        assert(a =~= b.subrange(0, a.len() as int));
    }
    if a.is_prefix_of(b) {
        assert forall|i: int| 0 <= i < fa.len() implies fa[i] == fb[i] by {
            if i > 0 {
                assert(a[i - 1] == b.subrange(0, a.len() as int)[i - 1]);
            }
        }
        assert(fa =~= fb.subrange(0, fa.len() as int));
    }
}

/// A text begins with an ASCII prefix exactly when its UTF-8 encoding begins
/// with the bytes of that prefix, one byte for each character; and what
/// follows the prefix in the encoding is the encoding of what follows it in
/// the text.
pub proof fn lemma_ascii_prefix(prefix: Seq<char>, chars: Seq<char>)
    requires
        is_ascii_chars(prefix),
    ensures
        encode_utf8(prefix).len() == prefix.len(),
        prefix.is_prefix_of(chars) <==> encode_utf8(prefix).is_prefix_of(encode_utf8(chars)),
        prefix.is_prefix_of(chars) ==> encode_utf8(chars).skip(prefix.len() as int)
            == encode_utf8(chars.skip(prefix.len() as int)),
    decreases prefix.len(),
{
    let prefix_bytes = encode_utf8(prefix);
    let bytes = encode_utf8(chars);
    is_ascii_chars_encode_utf8(prefix);
    if prefix.len() == 0 {
        assert(prefix =~= chars.subrange(0, 0));
        assert(prefix_bytes =~= bytes.subrange(0, 0));
        assert(chars.skip(0) =~= chars);
        assert(bytes.skip(0) =~= bytes);
    } else if chars.len() == 0 {
        assert(bytes.len() == 0);
    } else {
        let first = prefix[0];
        let prefix_rest = prefix.drop_first();
        let rest = chars.drop_first();
        assert(is_ascii_chars(prefix_rest)) by {
            assert forall|i: int| 0 <= i < prefix_rest.len() implies '\0' <= #[trigger] prefix_rest[i]
                <= '\u{7f}' by {
                assert(prefix_rest[i] == prefix[i + 1]);
            }
        }
        lemma_ascii_byte(first);
        lemma_ascii_byte(chars[0]);
        lemma_encode_first(prefix);
        lemma_encode_first(chars);
        if chars[0] == first {
            lemma_ascii_prefix(prefix_rest, rest);
            assert(prefix =~= seq![first] + prefix_rest);
            assert(chars =~= seq![first] + rest);
            lemma_prefix_push_front(first, prefix_rest, rest);
            lemma_prefix_push_front(first as u8, encode_utf8(prefix_rest), encode_utf8(rest));
            if prefix.is_prefix_of(chars) {
                assert(chars.skip(prefix.len() as int) =~= rest.skip(prefix_rest.len() as int));
                assert(bytes.skip(prefix.len() as int) =~= encode_utf8(rest).skip(
                    prefix_rest.len() as int,
                ));
            }
        } else {
            assert(prefix_bytes[0] != bytes[0]) by {
                char_u32_cast(first, first as u32);
                char_u32_cast(chars[0], chars[0] as u32);
            }
            if prefix.is_prefix_of(chars) {
                lemma_prefix_first(prefix, chars);
            }
            if prefix_bytes.is_prefix_of(bytes) {
                lemma_prefix_first(prefix_bytes, bytes);
            }
        }
    }
}

/// The path of a local address is its encoding with exactly the five bytes of
/// the prefix taken off the front.
pub proof fn lemma_local_path_bytes(text: Seq<char>)
    requires
        names_local(text),
    ensures
        encode_utf8(LOCAL_PREFIX@).is_prefix_of(encode_utf8(text)),
        encode_utf8(LOCAL_PREFIX@).len() == 5,
        local_path(text) == encode_utf8(text).skip(5),
{
    lemma_local_prefix();
    lemma_ascii_prefix(LOCAL_PREFIX@, text);
}

/// Any text whatever can follow the prefix, and is then the path that the
/// whole names, unchanged: white space, further colons and a second `unix:`
/// are part of the path like any other character.
pub proof fn lemma_prefixed_path(path: Seq<char>)
    ensures
        names_local(LOCAL_PREFIX@ + path),
        local_path(LOCAL_PREFIX@ + path) == encode_utf8(path),
        text_target(LOCAL_PREFIX@ + path, true) == TargetView::Path(encode_utf8(path)),
{
    let text = LOCAL_PREFIX@ + path;
    assert(text.subrange(0, LOCAL_PREFIX@.len() as int) =~= LOCAL_PREFIX@);
    assert(text.skip(LOCAL_PREFIX@.len() as int) =~= path);
}

/// A text that does not begin with the prefix, be it by a single character
/// or only by the case of a letter, goes to host name resolution whole; and
/// so does every text where the local transport is not available.
pub proof fn lemma_network_text(text: Seq<char>, local: bool)
    requires
        !local || !names_local(text),
    ensures
        text_target(text, local) == TargetView::Host(text),
{
}

/// Two texts name the same endpoint only if they are the same text: nothing
/// is normalised on the way.
pub proof fn lemma_text_target_injective(a: Seq<char>, b: Seq<char>, local: bool)
    requires
        text_target(a, local) == text_target(b, local),
    ensures
        a == b,
{
    if local && names_local(a) {
        let n = LOCAL_PREFIX@.len() as int;
        assert(names_local(b));
        encode_utf8_decode_utf8(a.skip(n));
        encode_utf8_decode_utf8(b.skip(n));
        assert(a.skip(n) == b.skip(n));
        assert(a =~= a.subrange(0, n) + a.skip(n));
        assert(b =~= b.subrange(0, n) + b.skip(n));
    }
}

/// Whether `bytes` begins with `prefix`.
fn starts_with(bytes: &[u8], prefix: &[u8]) -> (found: bool)
    ensures
        found == prefix@.is_prefix_of(bytes@),
{
    if prefix.len() > bytes.len() {
        return false;
    }
    let mut i: usize = 0;
    while i < prefix.len()
        invariant
            i <= prefix.len() <= bytes.len(),
            forall|j: int| 0 <= j < i ==> prefix@[j] == bytes@[j],
        decreases prefix.len() - i,
    {
        if prefix[i] != bytes[i] {
            assert(prefix@[i as int] != bytes@.subrange(0, prefix@.len() as int)[i as int]);
            return false;
        }
        i += 1;
    }
    assert(prefix@ =~= bytes@.subrange(0, prefix@.len() as int));
    true
}

/// Decides which endpoint a textual address names. `local` says whether the
/// local transport is available; without it every text is a network address.
pub fn resolve_text(text: &str, local: bool) -> (target: Target<'_>)
    ensures
        target@ == text_target(text@, local),
{
    if local {
        let bytes = text.as_bytes();
        let prefix = LOCAL_PREFIX.as_bytes();
        proof {
            lemma_local_prefix();
            lemma_ascii_prefix(LOCAL_PREFIX@, text@);
        }
        if starts_with(bytes, prefix) {
            let path = slice_subrange(bytes, prefix.len(), bytes.len());
            assert(path@ =~= bytes@.skip(LOCAL_PREFIX@.len() as int));
            return Target::Path(path);
        }
    }
    Target::Host(text)
}

} // verus!
