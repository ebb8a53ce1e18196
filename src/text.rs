//! Text read from fixed-size native buffers: cutting a string at its first
//! NUL, trimming NUL padding, and decoding UTF-16 code units.
use vstd::prelude::*;
use vstd::std_specs::iter::IteratorSpec;

verus! {

broadcast use vstd::string::next_postcondition, vstd::string::axiom_spec_iter;

/// The prefix of `s` that stands before its first NUL character (all of `s`
/// when it holds none).
pub open spec fn before_first_null(s: Seq<char>) -> Seq<char>
    decreases s.len(),
{
    if s.len() == 0 {
        s
    } else if s[0] == '\0' {
        Seq::<char>::empty()
    } else {
        seq![s[0]].add(before_first_null(s.drop_first()))
    }
}

/// `s` without the NUL characters at its start.
pub open spec fn trim_leading_nulls(s: Seq<char>) -> Seq<char>
    decreases s.len(),
{
    if s.len() > 0 && s[0] == '\0' {
        trim_leading_nulls(s.drop_first())
    } else {
        s
    }
}

/// `s` without the NUL characters at its end.
pub open spec fn trim_trailing_nulls(s: Seq<char>) -> Seq<char>
    decreases s.len(),
{
    if s.len() > 0 && s.last() == '\0' {
        trim_trailing_nulls(s.drop_last())
    } else {
        s
    }
}

/// `s` without NUL padding on either side.
pub open spec fn trim_nulls(s: Seq<char>) -> Seq<char> {
    trim_trailing_nulls(trim_leading_nulls(s))
}

/// Whether a UTF-16 code unit is half of a surrogate pair.
pub open spec fn is_surrogate(u: u16) -> bool {
    0xD800 <= u <= 0xDFFF
}

/// Whether none of the code units `u[0..=j]` is a surrogate.
pub open spec fn no_surrogate_through(u: Seq<u16>, j: int) -> bool {
    forall|m: int| 0 <= m <= j ==> !is_surrogate(#[trigger] u[m])
}

/// The text that lossy UTF-16 decoding makes of a sequence of code units.
pub uninterp spec fn utf16_lossy(units: Seq<u16>) -> Seq<char>;

/// Relies on `String::from_utf16_lossy`, which decodes UTF-16 and puts U+FFFD
/// in place of unpaired surrogates. Up to the first surrogate, every code unit
/// is one character of its own value, so a zero unit there is a NUL character
/// at the same index and no other unit is.
#[verifier::external_body]
pub(crate) fn decode_utf16_lossy(units: &Vec<u16>) -> (r: String)
    ensures
        r@ == utf16_lossy(units@),
        forall|j: int|
            0 <= j < units@.len() && no_surrogate_through(units@, j) ==> j < r@.len() && (
            #[trigger] r@[j] == '\0' <==> units@[j] == 0u16),
{
    String::from_utf16_lossy(units.as_slice())
}

/// Relies on `String`'s `FromIterator<&char>`: the characters, in order.
#[verifier::external_body]
fn string_from_chars(chars: &Vec<char>) -> (r: String)
    ensures
        r@ == chars@,
{
    chars.iter().collect()
}

/// The characters of `s`, in order.
fn chars_of(s: &str) -> (r: Vec<char>)
    ensures
        r@ == s@,
{
    let mut out: Vec<char> = Vec::new();
    let mut it = s.chars();
    loop
        invariant
            it.obeys_prophetic_iter_laws(),
            it.decrease() is Some,
            out@ + it.remaining() == s@,
        ensures
            out@ == s@,
        decreases it.decrease()->0,
    {
        match it.next() {
            Some(c) => {
                out.push(c);
            },
            None => {
                assert(out@ + it.remaining() =~= out@);
                break;
            },
        }
    }
    out
}

/// A string whose first NUL stands at index `k` is cut to exactly its first
/// `k` characters.
pub proof fn lemma_before_first_null_at(s: Seq<char>, k: int)
    requires
        0 <= k <= s.len(),
        k == s.len() || s[k] == '\0',
        forall|j: int| 0 <= j < k ==> s[j] != '\0',
    ensures
        before_first_null(s) == s.take(k),
    decreases k,
{
    if k == 0 {
        if s.len() > 0 {
            assert(s.take(0) =~= Seq::<char>::empty());
        } else {
            assert(s.take(0) =~= s);
        }
    } else {
        let t = s.drop_first();
        assert forall|j: int| 0 <= j < k - 1 implies t[j] != '\0' by {
            assert(t[j] == s[j + 1]);
        }
        lemma_before_first_null_at(t, k - 1);
        assert(seq![s[0]].add(t.take(k - 1)) =~= s.take(k));
    }
}

/// Cuts `input` at its first NUL character, dropping the NUL and all that
/// follows it; a string without NUL is left as it is.
pub fn truncate_to_first_null_char(input: &mut String)
    ensures
        final(input)@ == before_first_null(old(input)@),
{
    let chars = chars_of(input.as_str());
    let mut kept: Vec<char> = Vec::new();
    let mut i: usize = 0;
    while i < chars.len() && chars[i] != '\0'
        invariant
            chars@ == old(input)@,
            i <= chars.len(),
            kept@ == chars@.take(i as int),
            forall|j: int| 0 <= j < i ==> chars@[j] != '\0',
        decreases chars.len() - i,
    {
        kept.push(chars[i]);
        i = i + 1;
        assert(kept@ =~= chars@.take(i as int));
    }
    proof {
        lemma_before_first_null_at(chars@, i as int);
    }
    *input = string_from_chars(&kept);
}

/// The text held in a NUL-terminated UTF-16 buffer: the buffer decoded, then
/// cut at its first NUL. A buffer without NUL gives all of its text; one
/// whose first zero unit stands at index `k`, with no surrogate before it,
/// gives exactly `k` characters.
pub fn text_from_buffer(buffer: &Vec<u16>) -> (r: String)
    ensures
        r@ == before_first_null(utf16_lossy(buffer@)),
        forall|k: int|
            0 <= k < buffer@.len() && #[trigger] buffer@[k] == 0u16 && no_surrogate_through(
                buffer@,
                k,
            ) && (forall|j: int| 0 <= j < k ==> buffer@[j] != 0u16) ==> r@.len() == k,
{
    let mut s = decode_utf16_lossy(buffer);
    let ghost decoded = s@;
    assert forall|k: int|
        0 <= k < buffer@.len() && #[trigger] buffer@[k] == 0u16 && no_surrogate_through(
            buffer@,
            k,
        ) && (forall|j: int| 0 <= j < k ==> buffer@[j] != 0u16) implies before_first_null(
        decoded,
    ).len() == k by {
        assert forall|j: int| 0 <= j < k implies decoded[j] != '\0' by {
            assert(no_surrogate_through(buffer@, j));
        }
        assert(decoded[k] == '\0');
        lemma_before_first_null_at(decoded, k);
    }
    truncate_to_first_null_char(&mut s);
    s
}

/// Removes the NUL characters at both ends of `s`.
pub fn trim_null_chars(s: &str) -> (r: String)
    ensures
        r@ == trim_nulls(s@),
{
    let chars = chars_of(s);
    let n = chars.len();
    let mut start: usize = 0;
    assert(chars@.skip(0) =~= chars@);
    while start < n && chars[start] == '\0'
        invariant
            chars@ == s@,
            n == chars.len(),
            start <= n,
            trim_leading_nulls(s@) == trim_leading_nulls(chars@.skip(start as int)),
        decreases n - start,
    {
        assert(chars@.skip(start as int).drop_first() =~= chars@.skip(start + 1));
        start = start + 1;
    }
    assert(trim_leading_nulls(chars@.skip(start as int)) == chars@.skip(start as int));
    let mut end: usize = n;
    while end > start && chars[end - 1] == '\0'
        invariant
            chars@ == s@,
            n == chars.len(),
            start <= end <= n,
            trim_nulls(s@) == trim_trailing_nulls(chars@.subrange(start as int, end as int)),
        decreases end,
    {
        assert(chars@.subrange(start as int, end as int).drop_last() =~= chars@.subrange(
            start as int,
            end - 1,
        ));
        end = end - 1;
    }
    let mut kept: Vec<char> = Vec::new();
    let mut i: usize = start;
    while i < end
        invariant
            start <= i <= end <= n,
            n == chars.len(),
            kept@ == chars@.subrange(start as int, i as int),
        decreases end - i,
    {
        kept.push(chars[i]);
        i = i + 1;
        assert(kept@ =~= chars@.subrange(start as int, i as int));
    }
    string_from_chars(&kept)
}

} // verus!
