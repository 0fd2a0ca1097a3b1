//! String helpers of the recognizers: trimming, cutting a prefix at a byte
//! length, appending a literal, and looking for the lowest year of the
//! calendar.

use vstd::prelude::*;
use vstd::string::*;
use vstd::utf8::*;

verus! {

/// Whether `c` has the Unicode property `White_Space`.
pub open spec fn is_white_space(c: char) -> bool {
    let u = c as u32;
    ||| 0x09 <= u <= 0x0D
    ||| u == 0x20
    ||| u == 0x85
    ||| u == 0xA0
    ||| u == 0x1680
    ||| 0x2000 <= u <= 0x200A
    ||| u == 0x2028
    ||| u == 0x2029
    ||| u == 0x202F
    ||| u == 0x205F
    ||| u == 0x3000
}

/// `s` without its leading white space.
pub open spec fn trimmed_start(s: Seq<char>) -> Seq<char>
    decreases s.len(),
{
    if s.len() > 0 && is_white_space(s.first()) {
        trimmed_start(s.drop_first())
    } else {
        s
    }
}

/// `s` without its trailing white space.
pub open spec fn trimmed_end(s: Seq<char>) -> Seq<char>
    decreases s.len(),
{
    if s.len() > 0 && is_white_space(s.last()) {
        trimmed_end(s.drop_last())
    } else {
        s
    }
}

/// `s` without its leading and trailing white space.
pub open spec fn trimmed(s: Seq<char>) -> Seq<char> {
    trimmed_end(trimmed_start(s))
}

/// `str::trim` removes leading and trailing white space, where white space
/// is what the Unicode property `White_Space` says it is.
pub assume_specification[ str::trim ](s: &str) -> (r: &str)
    ensures
        r@ == trimmed(s@),
;

/// The number of bytes that `s` takes in UTF-8.
pub open spec fn byte_len(s: Seq<char>) -> nat {
    encode_utf8(s).len()
}

/// The prefix of `s` that takes exactly `len` bytes in UTF-8, if the byte
/// position `len` lies inside `s` and does not split a character.
pub open spec fn cut_spec(s: Seq<char>, len: nat) -> Option<Seq<char>> {
    if len <= byte_len(s) && is_char_boundary(encode_utf8(s), len as int) {
        Some(decode_utf8(encode_utf8(s).subrange(0, len as int)))
    } else {
        None
    }
}

/// The first `len` bytes of `string`, or `None` where `string` is shorter or
/// byte `len` falls inside a multi-byte character.
pub fn cut(string: &str, len: usize) -> (r: Option<&str>)
    ensures
        match r {
            Some(head) => cut_spec(string@, len as nat) == Some(head@),
            None => cut_spec(string@, len as nat).is_none(),
        },
        r matches Some(head) ==> head@ == string@.take(head@.len() as int) && byte_len(head@)
            == len,
{
    if string.as_bytes().len() >= len && string.is_char_boundary(len) {
        let (head, _) = string.split_at(len);
        proof {
            encode_utf8_decode_utf8(head@);
            cut_is_prefix(string@, len as nat);
        }
        Some(head)
    } else {
        None
    }
}

/// `string` followed by `tail`.
pub fn suffix(string: &str, tail: &'static str) -> (r: String)
    ensures
        r@ == string@ + tail@,
{
    string.to_owned().concat(tail)
}

/// Whether the bytes from `at` on are zeros, as many as there may be, and
/// then the digits `262144`. The bytes are ASCII: `0x30` is `0`.
pub open spec fn lowest_year_digits_at(bytes: Seq<u8>, at: int) -> bool
    decreases bytes.len() - at,
{
    if at < 0 || at >= bytes.len() {
        false
    } else if bytes[at] == 0x30 {
        lowest_year_digits_at(bytes, at + 1)
    } else {
        &&& at + 6 <= bytes.len()
        &&& bytes[at] == 0x32
        &&& bytes[at + 1] == 0x36
        &&& bytes[at + 2] == 0x32
        &&& bytes[at + 3] == 0x31
        &&& bytes[at + 4] == 0x34
        &&& bytes[at + 5] == 0x34
    }
}

/// Whether byte `at` is a hyphen, `0x2d`, with the digits of the lowest
/// year behind it.
pub open spec fn lowest_year_at(bytes: Seq<u8>, at: int) -> bool {
    0 <= at < bytes.len() && bytes[at] == 0x2d && lowest_year_digits_at(bytes, at + 1)
}

/// Whether `s` holds the year -262144 written out: a hyphen, zeros or
/// none, and the digits `262144`. That is the lowest year of the calendar:
/// a time in it, moved to UTC, may lie before the calendar begins.
pub open spec fn names_lowest_year_spec(s: Seq<char>) -> bool {
    exists|at: int| lowest_year_at(encode_utf8(s), at)
}

/// Whether zeros and then the digits `262144` stand in `bytes` from `from`
/// on.
fn lowest_year_digits_follow(bytes: &[u8], from: usize) -> (found: bool)
    requires
        from <= bytes@.len(),
    ensures
        found == lowest_year_digits_at(bytes@, from as int),
{
    let n = bytes.len();
    let mut at = from;
    while at < n && bytes[at] == 0x30
        invariant
            from <= at <= n,
            n == bytes@.len(),
            lowest_year_digits_at(bytes@, from as int) == lowest_year_digits_at(bytes@, at as int),
        decreases n - at,
    {
        at += 1;
    }
    n - at >= 6
        && bytes[at] == 0x32
        && bytes[at + 1] == 0x36
        && bytes[at + 2] == 0x32
        && bytes[at + 3] == 0x31
        && bytes[at + 4] == 0x34
        && bytes[at + 5] == 0x34
}

/// Whether `string` holds the year -262144 written out.
pub fn names_lowest_year(string: &str) -> (found: bool)
    ensures
        found == names_lowest_year_spec(string@),
{
    let bytes = string.as_bytes();
    let n = bytes.len();
    let mut at: usize = 0;
    while at < n
        invariant
            at <= n,
            n == bytes@.len(),
            bytes@ == encode_utf8(string@),
            forall|earlier: int| 0 <= earlier < at ==> !lowest_year_at(bytes@, earlier),
        decreases n - at,
    {
        if bytes[at] == 0x2d && lowest_year_digits_follow(bytes, at + 1) {
            assert(lowest_year_at(bytes@, at as int));
            return true;
        }
        at += 1;
    }
    false
}

/// Whether every character of `s` is white space.
pub open spec fn all_white_space(s: Seq<char>) -> bool {
    forall|i: int| 0 <= i < s.len() ==> is_white_space(#[trigger] s[i])
}

/// White space in front of a text does not change what is left of it once
/// the front is trimmed.
pub proof fn trimmed_start_drops_lead(lead: Seq<char>, s: Seq<char>)
    requires
        all_white_space(lead),
    ensures
        trimmed_start(lead + s) == trimmed_start(s),
    decreases lead.len(),
{
    if lead.len() > 0 {
        assert((lead + s).drop_first() =~= lead.drop_first() + s);
        trimmed_start_drops_lead(lead.drop_first(), s);
    }
}

/// White space behind a text does not change what is left of it once the
/// end is trimmed.
pub proof fn trimmed_end_drops_trail(s: Seq<char>, trail: Seq<char>)
    requires
        all_white_space(trail),
    ensures
        trimmed_end(s + trail) == trimmed_end(s),
    decreases trail.len(),
{
    if trail.len() > 0 {
        assert((s + trail).drop_last() =~= s + trail.drop_last());
        trimmed_end_drops_trail(s, trail.drop_last());
    }
}

/// Trimming the front of `a` followed by `b` stops inside `a` where `a`
/// holds anything but white space, and goes on into `b` where it does not.
pub proof fn trimmed_start_of_concat(a: Seq<char>, b: Seq<char>)
    ensures
        trimmed_start(a).len() > 0 ==> trimmed_start(a + b) == trimmed_start(a) + b,
        trimmed_start(a).len() == 0 ==> trimmed_start(a + b) == trimmed_start(b),
    decreases a.len(),
{
    if a.len() > 0 && is_white_space(a[0]) {
        assert((a + b).drop_first() =~= a.drop_first() + b);
        trimmed_start_of_concat(a.drop_first(), b);
    }
}

/// Trimming takes no notice of white space around a text.
pub proof fn trimmed_ignores_padding(lead: Seq<char>, s: Seq<char>, trail: Seq<char>)
    requires
        all_white_space(lead),
        all_white_space(trail),
    ensures
        trimmed(lead + s + trail) == trimmed(s),
{
    assert(lead + s + trail =~= lead + (s + trail));
    trimmed_start_drops_lead(lead, s + trail);
    trimmed_start_of_concat(s, trail);
    if trimmed_start(s).len() > 0 {
        trimmed_end_drops_trail(trimmed_start(s), trail);
    } else {
        trimmed_start_drops_lead(trail, Seq::<char>::empty());
    }
}

/// Encoding a text in UTF-8 encodes its parts one after the other.
pub proof fn encode_of_concat(a: Seq<char>, b: Seq<char>)
    ensures
        encode_utf8(a + b) == encode_utf8(a) + encode_utf8(b),
    decreases a.len(),
{
    if a.len() > 0 {
        assert((a + b).drop_first() =~= a.drop_first() + b);
        encode_of_concat(a.drop_first(), b);
    }
}

/// The end of a prefix of whole characters is a character boundary of the
/// encoded text.
pub proof fn boundary_after_prefix(a: Seq<char>, b: Seq<char>)
    ensures
        is_char_boundary(encode_utf8(a + b), byte_len(a) as int),
    decreases a.len(),
{
    let bytes = encode_utf8(a + b);
    encode_utf8_valid_utf8(a + b);
    if a.len() > 0 {
        encode_utf8_first_scalar(a + b);
        assert((a + b).drop_first() =~= a.drop_first() + b);
        assert(pop_first_scalar(bytes) =~= encode_utf8(a.drop_first() + b));
        boundary_after_prefix(a.drop_first(), b);
    }
}

/// What `cut_spec` returns is a prefix of the text, made of whole
/// characters, that takes exactly `len` bytes.
pub proof fn cut_is_prefix(s: Seq<char>, len: nat)
    requires
        cut_spec(s, len).is_some(),
    ensures
        cut_spec(s, len).unwrap().len() <= s.len(),
        cut_spec(s, len).unwrap() == s.take(cut_spec(s, len).unwrap().len() as int),
        byte_len(cut_spec(s, len).unwrap()) == len,
{
    let bytes = encode_utf8(s);
    encode_utf8_valid_utf8(s);
    encode_utf8_decode_utf8(s);
    valid_utf8_split(bytes, len as int);
    decode_utf8_split(bytes, len as int);
    decode_utf8_encode_utf8(bytes.subrange(0, len as int));
}

/// Every prefix of a text can be cut off at its own length in bytes.
pub proof fn prefix_is_cut(head: Seq<char>, rest: Seq<char>)
    ensures
        cut_spec(head + rest, byte_len(head)) == Some(head),
{
    encode_of_concat(head, rest);
    boundary_after_prefix(head, rest);
    encode_utf8_decode_utf8(head);
    assert(encode_utf8(head + rest).subrange(0, byte_len(head) as int) =~= encode_utf8(head));
}

/// A text can be cut at `len` bytes exactly where one of its prefixes takes
/// `len` bytes: where it is too short, or `len` falls inside a character,
/// no prefix does.
pub proof fn cut_iff_prefix(s: Seq<char>, len: nat)
    ensures
        cut_spec(s, len).is_some() <==> exists|k: int|
            0 <= k <= s.len() && byte_len(#[trigger] s.take(k)) == len,
{
    if cut_spec(s, len).is_some() {
        cut_is_prefix(s, len);
    }
    if exists|k: int| 0 <= k <= s.len() && byte_len(#[trigger] s.take(k)) == len {
        let k = choose|k: int| 0 <= k <= s.len() && byte_len(#[trigger] s.take(k)) == len;
        assert(s =~= s.take(k) + s.skip(k));
        prefix_is_cut(s.take(k), s.skip(k));
    }
}

/// In a text of ASCII characters every position is a boundary: the cut
/// succeeds wherever the text is long enough, and takes that many
/// characters.
pub proof fn cut_of_ascii(s: Seq<char>, len: nat)
    requires
        is_ascii_chars(s),
    ensures
        cut_spec(s, len) == if len <= s.len() {
            Some(s.take(len as int))
        } else {
            None
        },
{
    is_ascii_chars_encode_utf8(s);
    if len <= s.len() {
        let head = s.take(len as int);
        let rest = s.skip(len as int);
        assert(s =~= head + rest);
        is_ascii_chars_encode_utf8(head);
        prefix_is_cut(head, rest);
    }
}

} // verus!
