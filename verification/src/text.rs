//! Text helpers: UTF-8 byte positions, whitespace, joining and decimal numbers.
//!
//! The form edits strings at byte positions (like `String::insert` does), so the
//! model of a string here is its `char` sequence together with its UTF-8 encoding.
use vstd::prelude::*;
use vstd::string::*;
use vstd::utf8::*;

verus! {

/// The UTF-8 bytes of a char sequence.
pub open spec fn bytes_of(s: Seq<char>) -> Seq<u8> {
    encode_utf8(s)
}

/// Byte length of the UTF-8 encoding of `s`.
pub open spec fn byte_len(s: Seq<char>) -> int {
    encode_utf8(s).len() as int
}

/// `i` is a position between two encoded chars (or one of the two ends).
pub open spec fn boundary(s: Seq<char>, i: int) -> bool {
    is_char_boundary(encode_utf8(s), i)
}

/// The last char boundary strictly before `pos` (or 0).
pub open spec fn prev_boundary(s: Seq<char>, pos: int) -> int
    decreases pos,
{
    if pos <= 0 {
        0
    } else if boundary(s, pos - 1) {
        pos - 1
    } else {
        prev_boundary(s, pos - 1)
    }
}

/// The first char boundary strictly after `pos`, or the byte length when there is none.
pub open spec fn next_boundary(s: Seq<char>, pos: int) -> int
    decreases byte_len(s) - pos,
{
    if pos >= byte_len(s) {
        byte_len(s)
    } else if boundary(s, pos + 1) {
        pos + 1
    } else {
        next_boundary(s, pos + 1)
    }
}

/// The chars whose encoding is `s`'s encoding with `c` encoded at byte `pos`.
pub open spec fn insert_at_byte(s: Seq<char>, pos: int, c: char) -> Seq<char> {
    decode_utf8(
        encode_utf8(s).subrange(0, pos) + encode_utf8(seq![c]) + encode_utf8(s).subrange(
            pos,
            byte_len(s),
        ),
    )
}

/// The chars whose encoding is `s`'s encoding without the bytes `start..end`.
pub open spec fn remove_bytes(s: Seq<char>, start: int, end: int) -> Seq<char> {
    decode_utf8(encode_utf8(s).subrange(0, start) + encode_utf8(s).subrange(end, byte_len(s)))
}

/// The encoding of one char is that char's scalar encoding.
pub proof fn lemma_encode_one(c: char)
    ensures
        encode_utf8(seq![c]) == encode_scalar(c as u32),
{
    let one = seq![c];
    assert(one.drop_first() =~= Seq::<char>::empty());
    assert(encode_utf8(one.drop_first()) =~= Seq::<u8>::empty());
    assert(encode_utf8(one) == encode_scalar(one[0] as u32) + encode_utf8(one.drop_first()));
    assert(encode_utf8(one) =~= encode_scalar(c as u32));
}

/// In the encoding of one char the first byte is a leading byte and every
/// later byte a continuation byte.
pub proof fn lemma_scalar_bytes(c: char)
    ensures
        1 <= encode_scalar(c as u32).len() <= 4,
        !is_continuation_byte(encode_scalar(c as u32)[0]),
        forall|j: int|
            1 <= j < encode_scalar(c as u32).len() ==> is_continuation_byte(
                #[trigger] encode_scalar(c as u32)[j],
            ),
{
    let v = c as u32;
    char_is_scalar(c);
    let e = encode_scalar(v);
    if has_width_1_encoding(v) {
        assert(!is_continuation_byte((v & 0x7F) as u8)) by (bit_vector)
            requires
                0 <= v <= 0x7F,
        ;
    } else if has_width_2_encoding(v) {
        assert(!is_continuation_byte(0xC0 | ((v >> 6) & 0x1F) as u8)) by (bit_vector);
        assert(is_continuation_byte(0x80 | (v & 0x3F) as u8)) by (bit_vector);
    } else if has_width_3_encoding(v) {
        assert(!is_continuation_byte(0xE0 | ((v >> 12) & 0x0F) as u8)) by (bit_vector);
        assert(is_continuation_byte(0x80 | ((v >> 6) & 0x3F) as u8)) by (bit_vector);
        assert(is_continuation_byte(0x80 | (v & 0x3F) as u8)) by (bit_vector);
    } else {
        assert(!is_continuation_byte(0xF0 | ((v >> 18) & 0x7) as u8)) by (bit_vector);
        assert(is_continuation_byte(0x80 | ((v >> 12) & 0x3F) as u8)) by (bit_vector);
        assert(is_continuation_byte(0x80 | ((v >> 6) & 0x3F) as u8)) by (bit_vector);
        assert(is_continuation_byte(0x80 | (v & 0x3F) as u8)) by (bit_vector);
    }
}

/// `p` is the last boundary before `q` when it is a boundary and nothing
/// strictly between them is.
pub proof fn lemma_prev_boundary_is(s: Seq<char>, p: int, q: int)
    requires
        0 <= p < q,
        boundary(s, p),
        forall|k: int| p < k < q ==> !#[trigger] boundary(s, k),
    ensures
        prev_boundary(s, q) == p,
    decreases q - p,
{
    if q - 1 > p {
        lemma_prev_boundary_is(s, p, q - 1);
    }
}

/// `q` is the first boundary after `p` when it is a boundary and nothing
/// strictly between them is.
pub proof fn lemma_next_boundary_is(s: Seq<char>, p: int, q: int)
    requires
        p < q <= byte_len(s),
        boundary(s, q),
        forall|k: int| p < k < q ==> !#[trigger] boundary(s, k),
    ensures
        next_boundary(s, p) == q,
    decreases q - p,
{
    if p + 1 < q {
        lemma_next_boundary_is(s, p + 1, q);
    }
}

/// Typing `c` at a boundary `pos` and then deleting the char at `pos` gives
/// back the text from before; that char ends where the typing left the cursor.
pub proof fn lemma_insert_then_delete(s: Seq<char>, pos: int, c: char)
    requires
        0 <= pos <= byte_len(s),
        boundary(s, pos),
    ensures
        boundary(insert_at_byte(s, pos, c), pos),
        boundary(insert_at_byte(s, pos, c), pos + encode_utf8(seq![c]).len()),
        next_boundary(insert_at_byte(s, pos, c), pos) == pos + encode_utf8(seq![c]).len(),
        prev_boundary(insert_at_byte(s, pos, c), pos + encode_utf8(seq![c]).len()) == pos,
        remove_bytes(insert_at_byte(s, pos, c), pos, pos + encode_utf8(seq![c]).len()) == s,
{
    broadcast use encode_utf8_valid_utf8, encode_utf8_decode_utf8, decode_utf8_encode_utf8;

    lemma_insert_then_remove(s, pos, c);
    let b = encode_utf8(s);
    let e = encode_utf8(seq![c]);
    lemma_encode_one(c);
    lemma_scalar_bytes(c);
    let w = e.len() as int;
    let b1 = b.subrange(0, pos);
    let b2 = b.subrange(pos, b.len() as int);
    valid_utf8_split(b, pos);
    valid_utf8_concat(b1, e);
    valid_utf8_concat(b1 + e, b2);
    let big = b1 + e + b2;
    let s2 = insert_at_byte(s, pos, c);
    assert(encode_utf8(s2) == big);
    assert(boundary(s2, pos + w)) by {
        if pos + w < big.len() {
            is_char_boundary_iff_not_is_continuation_byte(big, pos + w);
            is_char_boundary_iff_not_is_continuation_byte(b, pos);
            assert(big[pos + w] == b[pos]);
        } else {
            is_char_boundary_start_end_of_seq(big);
        }
    }
    assert forall|k: int| pos < k < pos + w implies !#[trigger] boundary(s2, k) by {
        is_char_boundary_iff_not_is_continuation_byte(big, k);
        assert(big[k] == e[k - pos]);
    }
    lemma_next_boundary_is(s2, pos, pos + w);
}

/// Typing `c` at a boundary `pos` and then removing the char before the new
/// cursor gives back the text from before; that char starts at `pos`.
pub proof fn lemma_insert_then_remove(s: Seq<char>, pos: int, c: char)
    requires
        0 <= pos <= byte_len(s),
        boundary(s, pos),
    ensures
        byte_len(insert_at_byte(s, pos, c)) == byte_len(s) + encode_utf8(seq![c]).len(),
        bytes_of(insert_at_byte(s, pos, c)) == bytes_of(s).subrange(0, pos) + bytes_of(seq![c]) + bytes_of(s).subrange(
            pos,
            byte_len(s),
        ),
        boundary(insert_at_byte(s, pos, c), pos),
        prev_boundary(insert_at_byte(s, pos, c), pos + encode_utf8(seq![c]).len()) == pos,
        remove_bytes(insert_at_byte(s, pos, c), pos, pos + encode_utf8(seq![c]).len()) == s,
{
    broadcast use encode_utf8_valid_utf8, encode_utf8_decode_utf8, decode_utf8_encode_utf8;

    let b = encode_utf8(s);
    let e = encode_utf8(seq![c]);
    lemma_encode_one(c);
    lemma_scalar_bytes(c);
    let w = e.len() as int;
    let b1 = b.subrange(0, pos);
    let b2 = b.subrange(pos, b.len() as int);
    valid_utf8_split(b, pos);
    valid_utf8_concat(b1, e);
    valid_utf8_concat(b1 + e, b2);
    let big = b1 + e + b2;
    let s2 = insert_at_byte(s, pos, c);
    assert(encode_utf8(s2) == big);
    assert(big.subrange(0, pos) =~= b1);
    assert(big.subrange(pos + w, big.len() as int) =~= b2);
    assert(b1 + b2 =~= b);
    assert(remove_bytes(s2, pos, pos + w) == decode_utf8(b)) by {
        assert(encode_utf8(s2).subrange(0, pos) + encode_utf8(s2).subrange(pos + w, byte_len(s2)) =~= b);
    }
    assert(boundary(s2, pos)) by {
        is_char_boundary_iff_not_is_continuation_byte(big, pos);
        assert(big[pos] == e[0]);
    }
    assert forall|k: int| pos < k < pos + w implies !#[trigger] boundary(s2, k) by {
        is_char_boundary_iff_not_is_continuation_byte(big, k);
        assert(big[k] == e[k - pos]);
    }
    lemma_prev_boundary_is(s2, pos, pos + w);
}

/// Whether `c` has the Unicode `White_Space` property, which is what std's
/// `char::is_whitespace` tests: tab to carriage return, space, next line,
/// no-break space, the Ogham space mark, the en quad to the hair space, the
/// line and paragraph separators, the narrow no-break space, the medium
/// mathematical space and the ideographic space.
pub open spec fn unicode_white_space(c: char) -> bool {
    let u = c as u32;
    ||| 0x09 <= u <= 0x0D
    ||| u == 0x20
    ||| u == 0x85
    ||| u == 0xA0
    ||| u == 0x1680
    ||| 0x2000 <= u <= 0x200A
    ||| u == 0x2028
    ||| u == 0x2029
    ||| u == 0x202F
    ||| u == 0x205F
    ||| u == 0x3000
}

/// What std's `str::to_lowercase` returns for `s` (Unicode lowercase mapping).
pub uninterp spec fn lowercase(s: Seq<char>) -> Seq<char>;

/// Whether `c` is whitespace, as `char::is_whitespace` tells it.
pub(crate) fn is_whitespace_char(c: char) -> (r: bool)
    ensures
        r == unicode_white_space(c),
{
    let u = c as u32;
    (0x09 <= u && u <= 0x0D) || u == 0x20 || u == 0x85 || u == 0xA0 || u == 0x1680 || (0x2000 <= u && u
        <= 0x200A) || u == 0x2028 || u == 0x2029 || u == 0x202F || u == 0x205F || u == 0x3000
}

/// `str::to_lowercase`: the Unicode lowercase of `s`, a function of `s` alone.
/// The mapping itself is not stated; its result is named by `lowercase`.
#[verifier::external_body]
pub(crate) fn to_lowercase(s: &str) -> (r: String)
    ensures
        r@ == lowercase(s@),
{
    s.to_lowercase()
}

/// `String::push`: appends `c` at the end.
#[verifier::external_body]
pub(crate) fn push_char(s: &mut String, c: char)
    ensures
        final(s)@ == old(s)@.push(c),
{
    s.push(c);
}

/// `String::insert`: encodes `c` at byte position `idx`; std panics unless `idx`
/// lies on a char boundary of the string, which `requires` rules out.
#[verifier::external_body]
pub(crate) fn insert_char_at(s: &mut String, idx: usize, c: char)
    requires
        boundary(old(s)@, idx as int),
    ensures
        bytes_of(final(s)@) == bytes_of(old(s)@).subrange(0, idx as int) + bytes_of(seq![c])
            + bytes_of(old(s)@).subrange(idx as int, byte_len(old(s)@)),
{
    s.insert(idx, c);
}

/// `String::drain` on the byte range `start..end` (the drained chars are dropped);
/// std panics unless both ends are char boundaries in order, which `requires` rules out.
#[verifier::external_body]
pub(crate) fn drain_bytes(s: &mut String, start: usize, end: usize)
    requires
        start <= end,
        boundary(old(s)@, start as int),
        boundary(old(s)@, end as int),
    ensures
        bytes_of(final(s)@) == bytes_of(old(s)@).subrange(0, start as int) + bytes_of(
            old(s)@,
        ).subrange(end as int, byte_len(old(s)@)),
{
    s.drain(start..end);
}

/// A copy of `s`.
pub fn owned(s: &str) -> (r: String)
    ensures
        r@ == s@,
{
    String::from_str(s)
}

/// `a` followed by `b`.
pub fn concat(a: &str, b: &str) -> (r: String)
    ensures
        r@ == a@ + b@,
{
    let mut r = String::from_str(a);
    r.append(b);
    r
}

/// `a`, `b` and `c` one after the other.
pub fn concat3(a: &str, b: &str, c: &str) -> (r: String)
    ensures
        r@ == a@ + b@ + c@,
{
    let mut r = String::from_str(a);
    r.append(b);
    r.append(c);
    r
}

/// `str::len`: the byte length of `s` in UTF-8. A `str` lives in memory, so
/// its length fits in `usize` (std's own specification of `len` truncates).
#[verifier::external_body]
pub(crate) fn utf8_len(s: &str) -> (r: usize)
    ensures
        r as int == byte_len(s@),
        r <= isize::MAX,
{
    s.len()
}

/// How many bytes `c` takes in UTF-8 (what `char::len_utf8` returns).
pub fn char_utf8_len(c: char) -> (r: usize)
    ensures
        r as int == encode_utf8(seq![c]).len(),
        1 <= r <= 4,
{
    proof {
        let one = seq![c];
        assert(one.drop_first() =~= Seq::<char>::empty());
        assert(encode_utf8(one.drop_first()) =~= Seq::<u8>::empty());
        assert(encode_utf8(one) == encode_scalar(one[0] as u32) + encode_utf8(one.drop_first()));
        assert(encode_utf8(one) =~= encode_scalar(c as u32));
    }
    let u = c as u32;
    if u <= 0x7f {
        1
    } else if u <= 0x7ff {
        2
    } else if u <= 0xffff {
        3
    } else {
        4
    }
}

/// The last char boundary of `s` before byte `pos`, or 0 when there is none.
pub fn prev_char_boundary(s: &str, pos: usize) -> (r: usize)
    ensures
        r as int == prev_boundary(s@, pos as int),
{
    let mut p = pos;
    while p > 0
        invariant
            p <= pos,
            prev_boundary(s@, pos as int) == prev_boundary(s@, p as int),
        decreases p,
    {
        p = p - 1;
        if s.is_char_boundary(p) {
            return p;
        }
    }
    0
}

/// The first char boundary of `s` after byte `pos`, or its byte length.
pub fn next_char_boundary(s: &str, pos: usize) -> (r: usize)
    ensures
        r as int == next_boundary(s@, pos as int),
{
    let n = utf8_len(s);
    let mut p = pos;
    while p < n
        invariant
            n as int == byte_len(s@),
            p >= pos,
            next_boundary(s@, pos as int) == next_boundary(s@, p as int),
        decreases n - p,
    {
        p = p + 1;
        if s.is_char_boundary(p) {
            return p;
        }
    }
    n
}

/// Every char of `s` is whitespace (so `s.trim()` is empty).
pub open spec fn blank(s: Seq<char>) -> bool {
    forall|i: int| 0 <= i < s.len() ==> unicode_white_space(#[trigger] s[i])
}

/// Whether `s` holds only whitespace.
pub fn is_blank(s: &str) -> (r: bool)
    ensures
        r == blank(s@),
{
    let n = s.unicode_len();
    let mut i: usize = 0;
    while i < n
        invariant
            n == s@.len(),
            i <= n,
            forall|j: int| 0 <= j < i ==> unicode_white_space(#[trigger] s@[j]),
        decreases n - i,
    {
        if !is_whitespace_char(s.get_char(i)) {
            return false;
        }
        i = i + 1;
    }
    true
}

/// `s` without its leading whitespace.
pub open spec fn trim_start(s: Seq<char>) -> Seq<char>
    decreases s.len(),
{
    if s.len() > 0 && unicode_white_space(s[0]) {
        trim_start(s.drop_first())
    } else {
        s
    }
}

/// `s` without its trailing whitespace.
pub open spec fn trim_end(s: Seq<char>) -> Seq<char>
    decreases s.len(),
{
    if s.len() > 0 && unicode_white_space(s.last()) {
        trim_end(s.drop_last())
    } else {
        s
    }
}

/// `s` without leading and trailing whitespace (what `str::trim` returns).
pub open spec fn trim(s: Seq<char>) -> Seq<char> {
    trim_end(trim_start(s))
}

proof fn lemma_trim_start_step(s: Seq<char>, i: int)
    requires
        0 <= i < s.len(),
        unicode_white_space(s[i]),
    ensures
        trim_start(s.subrange(i, s.len() as int)) == trim_start(s.subrange(i + 1, s.len() as int)),
{
    assert(s.subrange(i, s.len() as int).drop_first() =~= s.subrange(i + 1, s.len() as int));
}

proof fn lemma_trim_end_step(s: Seq<char>, a: int, j: int)
    requires
        0 <= a < j <= s.len(),
        unicode_white_space(s[j - 1]),
    ensures
        trim_end(s.subrange(a, j)) == trim_end(s.subrange(a, j - 1)),
{
    assert(s.subrange(a, j).drop_last() =~= s.subrange(a, j - 1));
}

/// A copy of `s` without leading and trailing whitespace.
pub fn trimmed(s: &str) -> (r: String)
    ensures
        r@ == trim(s@),
{
    let n = s.unicode_len();
    let mut a: usize = 0;
    proof {
        assert(s@.subrange(0, s@.len() as int) =~= s@);
    }
    while a < n && is_whitespace_char(s.get_char(a))
        invariant
            n == s@.len(),
            a <= n,
            trim_start(s@) == trim_start(s@.subrange(a as int, n as int)),
        decreases n - a,
    {
        proof {
            lemma_trim_start_step(s@, a as int);
        }
        a = a + 1;
    }
    let ghost start = s@.subrange(a as int, n as int);
    assert(trim_start(start) == start);
    let mut b: usize = n;
    assert(start =~= s@.subrange(a as int, b as int));
    while b > a && is_whitespace_char(s.get_char(b - 1))
        invariant
            n == s@.len(),
            a <= b <= n,
            trim_end(start) == trim_end(s@.subrange(a as int, b as int)),
        decreases b,
    {
        proof {
            lemma_trim_end_step(s@, a as int, b as int);
        }
        b = b - 1;
    }
    let piece = s.substring_char(a, b);
    String::from_str(piece)
}

/// `s` with every space replaced by an underscore.
pub open spec fn spaces_to_underscores(s: Seq<char>) -> Seq<char> {
    s.map_values(|c: char| if c == ' ' { '_' } else { c })
}

/// A copy of `s` with every `' '` replaced by `'_'` (`s.replace(' ', "_")`).
pub fn replace_spaces(s: &str) -> (r: String)
    ensures
        r@ == spaces_to_underscores(s@),
{
    let n = s.unicode_len();
    let mut r = String::new();
    let mut i: usize = 0;
    while i < n
        invariant
            n == s@.len(),
            i <= n,
            r@ =~= spaces_to_underscores(s@.subrange(0, i as int)),
        decreases n - i,
    {
        let c = s.get_char(i);
        if c == ' ' {
            push_char(&mut r, '_');
        } else {
            push_char(&mut r, c);
        }
        assert(s@.subrange(0, i + 1) =~= s@.subrange(0, i as int).push(c));
        i = i + 1;
    }
    assert(s@.subrange(0, n as int) =~= s@);
    r
}

/// `items` separated by `sep` (what `[String]::join` returns).
pub open spec fn join(items: Seq<Seq<char>>, sep: Seq<char>) -> Seq<char>
    decreases items.len(),
{
    if items.len() == 0 {
        Seq::empty()
    } else if items.len() == 1 {
        items[0]
    } else {
        join(items.drop_last(), sep) + sep + items.last()
    }
}

/// The views of a list of strings.
pub open spec fn views(v: Seq<String>) -> Seq<Seq<char>> {
    v.map_values(|s: String| s@)
}

/// `items.join(sep)`.
pub fn join_strings(items: &Vec<String>, sep: &str) -> (r: String)
    ensures
        r@ == join(views(items@), sep@),
{
    let mut r = String::new();
    let mut i: usize = 0;
    while i < items.len()
        invariant
            i <= items.len(),
            r@ == join(views(items@.subrange(0, i as int)), sep@),
        decreases items.len() - i,
    {
        let ghost before = views(items@.subrange(0, i as int));
        let ghost after = views(items@.subrange(0, i + 1));
        assert(after.drop_last() =~= before);
        assert(after.last() == items@[i as int]@);
        if i > 0 {
            r.append(sep);
        } else {
            assert(before.len() == 0);
        }
        r.append(items[i].as_str());
        i = i + 1;
    }
    assert(items@.subrange(0, items.len() as int) =~= items@);
    r
}

/// The decimal digit for `d < 10`.
pub open spec fn digit(d: nat) -> char {
    ((48 + d) as u8) as char
}

/// The decimal representation of `n`, without sign or leading zeros.
pub open spec fn decimal(n: nat) -> Seq<char>
    decreases n,
{
    if n < 10 {
        seq![digit(n)]
    } else {
        decimal(n / 10).push(digit(n % 10))
    }
}

/// `n` written in decimal (what `n.to_string()` gives for an unsigned integer).
pub fn decimal_string(n: usize) -> (r: String)
    ensures
        r@ == decimal(n as nat),
    decreases n,
{
    let d = (n % 10) as u8;
    let c = (48u8 + d) as char;
    if n < 10 {
        let mut r = String::new();
        push_char(&mut r, c);
        assert(r@ =~= seq![digit(n as nat)]);
        r
    } else {
        let mut r = decimal_string(n / 10);
        push_char(&mut r, c);
        r
    }
}

} // verus!
