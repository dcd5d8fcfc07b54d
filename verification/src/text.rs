//! Text helpers shared by the parsers of this crate.
//!
//! Every contract here is stated over `Seq<char>`, the view of `str` and
//! `String`. Scanning is done on a `Vec<char>` taken once from the text, so
//! that positions are character positions throughout.

use vstd::prelude::*;
use vstd::string::*;

verus! {

/// Whether `c` is white space: the code points of Unicode's `White_Space`
/// property.
pub open spec fn is_whitespace(c: char) -> bool {
    let n = c as u32;
    ||| 0x09 <= n <= 0x0D
    ||| n == 0x20
    ||| n == 0x85
    ||| n == 0xA0
    ||| n == 0x1680
    ||| 0x2000 <= n <= 0x200A
    ||| n == 0x2028
    ||| n == 0x2029
    ||| n == 0x202F
    ||| n == 0x205F
    ||| n == 0x3000
}

/// The view of a text that may be there.
pub open spec fn text_view(text: Option<String>) -> Option<Seq<char>> {
    match text {
        Some(t) => Some(t@),
        None => None,
    }
}

/// Whether `s` is empty or holds white space only.
pub open spec fn blank(s: Seq<char>) -> bool {
    forall|i: int| 0 <= i < s.len() ==> is_whitespace(#[trigger] s[i])
}

/// The position of the first `d` in `s`, or `s.len()` where there is none.
pub open spec fn first_index(s: Seq<char>, d: char) -> nat
    decreases s.len(),
{
    if s.len() == 0 || s[0] == d {
        0
    } else {
        1 + first_index(s.drop_first(), d)
    }
}

/// The pieces of `s` between the occurrences of `d`. There is always at least
/// one piece; an empty `s` has the one empty piece.
pub open spec fn split(s: Seq<char>, d: char) -> Seq<Seq<char>>
    decreases s.len(),
{
    let i = first_index(s, d) as int;
    if i < s.len() {
        seq![s.take(i)] + split(s.skip(i + 1), d)
    } else {
        seq![s]
    }
}

/// The pieces of `pieces` put together again with `d` between them.
pub open spec fn join(pieces: Seq<Seq<char>>, d: char) -> Seq<char>
    decreases pieces.len(),
{
    if pieces.len() == 0 {
        Seq::empty()
    } else if pieces.len() == 1 {
        pieces[0]
    } else {
        pieces[0] + seq![d] + join(pieces.drop_first(), d)
    }
}

/// `first_index` is the least position that holds `d`.
pub proof fn lemma_first_index(s: Seq<char>, d: char)
    ensures
        first_index(s, d) <= s.len(),
        first_index(s, d) < s.len() ==> s[first_index(s, d) as int] == d,
        forall|j: int| 0 <= j < first_index(s, d) ==> s[j] != d,
        first_index(s, d) < s.len() <==> s.contains(d),
    decreases s.len(),
{
    if s.len() == 0 || s[0] == d {
        if s.len() > 0 {
            assert(s.contains(d));
        }
    } else {
        let rest = s.drop_first();
        lemma_first_index(rest, d);
        let k = first_index(rest, d) as int;
        assert forall|j: int| 0 <= j < k + 1 implies s[j] != d by {
            if j > 0 {
                assert(s[j] == rest[j - 1]);
            }
        }
        if k < rest.len() {
            assert(s[k + 1] == rest[k]);
            assert(s.contains(d));
        }
        if s.contains(d) {
            let j = choose|j: int| 0 <= j < s.len() && s[j] == d;
            assert(rest[j - 1] == s[j]);
            assert(rest.contains(d));
        }
    }
}

/// A position that holds `d` and has no `d` before it is the first one.
pub proof fn lemma_first_index_is(s: Seq<char>, d: char, i: int)
    requires
        0 <= i <= s.len(),
        i < s.len() ==> s[i] == d,
        forall|j: int| 0 <= j < i ==> s[j] != d,
    ensures
        first_index(s, d) == i,
{
    lemma_first_index(s, d);
}

/// In the first `k` characters of a text the first `d` stands where it
/// stands in the whole text, if it stands among them at all.
pub proof fn lemma_first_index_take(s: Seq<char>, d: char, k: int)
    requires
        0 <= k <= s.len(),
    ensures
        first_index(s.take(k), d) == if first_index(s, d) < k {
            first_index(s, d)
        } else {
            k as nat
        },
{
    lemma_first_index(s, d);
    let i = first_index(s, d) as int;
    let head = s.take(k);
    if i < k {
        assert(head[i] == s[i]);
        assert forall|j: int| 0 <= j < i implies head[j] != d by {
            assert(head[j] == s[j]);
        }
        lemma_first_index_is(head, d, i);
    } else {
        assert forall|j: int| 0 <= j < k implies head[j] != d by {
            assert(head[j] == s[j]);
        }
        lemma_first_index_is(head, d, k);
    }
}

/// A text splits into one piece exactly when it does not hold the delimiter.
pub proof fn lemma_split_len(s: Seq<char>, d: char)
    ensures
        split(s, d).len() >= 1,
        split(s, d).len() == 1 <==> !s.contains(d),
    decreases s.len(),
{
    lemma_first_index(s, d);
    let i = first_index(s, d) as int;
    if i < s.len() {
        lemma_split_len(s.skip(i + 1), d);
    }
}

/// A text splits into two pieces exactly when it holds the delimiter once;
/// the pieces are what stands before it and what stands after it.
pub proof fn lemma_split_pair(s: Seq<char>, d: char)
    ensures
        split(s, d).len() == 2 <==> (s.contains(d) && !s.skip(first_index(s, d) as int + 1).contains(d)),
        split(s, d).len() == 2 ==> split(s, d) == seq![
            s.take(first_index(s, d) as int),
            s.skip(first_index(s, d) as int + 1),
        ],
{
    lemma_first_index(s, d);
    let i = first_index(s, d) as int;
    if i < s.len() {
        let rest = s.skip(i + 1);
        lemma_split_len(rest, d);
        lemma_first_index(rest, d);
        if !rest.contains(d) {
            assert(split(rest, d) == seq![rest]);
            assert(split(s, d) == seq![s.take(i), rest]);
        }
    }
}

/// Splitting what `join` made out of pieces without the delimiter gives the
/// pieces back.
pub proof fn lemma_split_join(pieces: Seq<Seq<char>>, d: char)
    requires
        pieces.len() >= 1,
        forall|k: int| 0 <= k < pieces.len() ==> !(#[trigger] pieces[k]).contains(d),
    ensures
        split(join(pieces, d), d) == pieces,
    decreases pieces.len(),
{
    let text = join(pieces, d);
    if pieces.len() == 1 {
        lemma_first_index(text, d);
        assert(split(text, d) == seq![text]);
        assert(seq![pieces[0]] == pieces);
    } else {
        let head = pieces[0];
        let tail = pieces.drop_first();
        assert forall|k: int| 0 <= k < tail.len() implies !(#[trigger] tail[k]).contains(d) by {
            assert(tail[k] == pieces[k + 1]);
        }
        lemma_split_join(tail, d);
        let rest = join(tail, d);
        assert(text == head + seq![d] + rest);
        assert forall|j: int| 0 <= j < head.len() implies text[j] != d by {
            assert(text[j] == head[j]);
            if head[j] == d {
                assert(head.contains(d));
            }
        }
        assert(text[head.len() as int] == d);
        lemma_first_index_is(text, d, head.len() as int);
        assert(text.take(head.len() as int) == head);
        assert(text.skip(head.len() as int + 1) == rest);
        assert(seq![head] + tail == pieces);
    }
}

/// What `join` makes begins with the first piece.
pub proof fn lemma_join_first(pieces: Seq<Seq<char>>, d: char)
    requires
        pieces.len() >= 1,
    ensures
        pieces[0].is_prefix_of(join(pieces, d)),
{
}

/// Whether `c` is white space.
pub fn is_whitespace_char(c: char) -> (b: bool)
    ensures
        b == is_whitespace(c),
{
    let n: u32 = c as u32;
    (0x09 <= n && n <= 0x0D) || n == 0x20 || n == 0x85 || n == 0xA0 || n == 0x1680 || (0x2000 <= n
        && n <= 0x200A) || n == 0x2028 || n == 0x2029 || n == 0x202F || n == 0x205F || n == 0x3000
}

/// The characters of `s`, in order.
pub fn chars_of(s: &str) -> (chars: Vec<char>)
    ensures
        chars@ == s@,
{
    let mut chars: Vec<char> = Vec::new();
    for c in it: s.chars()
        invariant
            chars@ == it.seq().take(it.index() as int),
    {
        chars.push(c);
    }
    chars
}

/// Whether `s` is empty or holds white space only.
pub fn is_blank(s: &str) -> (b: bool)
    ensures
        b == blank(s@),
{
    let chars = chars_of(s);
    let mut i: usize = 0;
    while i < chars.len()
        invariant
            i <= chars.len(),
            chars@ == s@,
            forall|j: int| 0 <= j < i ==> is_whitespace(#[trigger] chars@[j]),
        decreases chars.len() - i,
    {
        if !is_whitespace_char(chars[i]) {
            assert(!is_whitespace(s@[i as int]));
            return false;
        }
        i += 1;
    }
    true
}

/// The position of the first `d` at or after `from`, or the length of
/// `chars` where there is none.
pub(crate) fn index_from(chars: &Vec<char>, from: usize, d: char) -> (at: usize)
    requires
        from <= chars.len(),
    ensures
        from <= at <= chars.len(),
        at == from + first_index(chars@.skip(from as int), d),
{
    let mut i: usize = from;
    while i < chars.len() && chars[i] != d
        invariant
            from <= i <= chars.len(),
            forall|j: int| from <= j < i ==> chars@[j] != d,
        decreases chars.len() - i,
    {
        i += 1;
    }
    proof {
        lemma_first_index_is(chars@.skip(from as int), d, i - from);
    }
    i
}

/// Where the piece from `start` to the next `d` ends: at that `d`, or at the
/// end of `chars`. What `split` makes of the text from `start` on begins
/// with that piece.
pub(crate) fn piece_end(chars: &Vec<char>, start: usize, d: char) -> (end: usize)
    requires
        start <= chars.len(),
    ensures
        start <= end <= chars.len(),
        end < chars.len() ==> split(chars@.skip(start as int), d) == seq![
            chars@.subrange(start as int, end as int),
        ] + split(chars@.skip(end + 1), d),
        end == chars.len() ==> split(chars@.skip(start as int), d) == seq![
            chars@.subrange(start as int, end as int),
        ],
{
    let end = index_from(chars, start, d);
    proof {
        let rest = chars@.skip(start as int);
        assert(rest.take(end - start) == chars@.subrange(start as int, end as int));
        if end < chars.len() {
            assert(rest.skip(end - start + 1) == chars@.skip(end + 1));
        } else {
            assert(rest == chars@.subrange(start as int, end as int));
        }
    }
    end
}

/// Where the one `d` of the piece from `start` to `end` stands, if the piece
/// holds `d` exactly once: `split` then makes two pieces of it, what stands
/// before that `d` and what stands after it.
pub(crate) fn single_delimiter(chars: &Vec<char>, start: usize, end: usize, d: char) -> (at: Option<usize>)
    requires
        start <= end <= chars.len(),
    ensures
        match at {
            Some(i) => start <= i < end && split(chars@.subrange(start as int, end as int), d)
                == seq![
                chars@.subrange(start as int, i as int),
                chars@.subrange(i + 1, end as int),
            ],
            None => split(chars@.subrange(start as int, end as int), d).len() != 2,
        },
{
    let ghost piece = chars@.subrange(start as int, end as int);
    let first = index_from(chars, start, d);
    proof {
        assert(chars@.skip(start as int).take(end - start) == piece);
        lemma_first_index_take(chars@.skip(start as int), d, end - start);
        lemma_split_pair(piece, d);
        lemma_first_index(piece, d);
    }
    if first >= end {
        return None;
    }
    let second = index_from(chars, first + 1, d);
    proof {
        let after = piece.skip(first - start + 1);
        assert(chars@.skip(first + 1).take(end - first - 1) == after);
        lemma_first_index_take(chars@.skip(first + 1), d, end - first - 1);
        lemma_first_index(after, d);
        assert(piece.take(first - start) == chars@.subrange(start as int, first as int));
        assert(after == chars@.subrange(first + 1, end as int));
    }
    if second < end {
        None
    } else {
        Some(first)
    }
}

/// The character that stands for a digit.
pub open spec fn digit(d: int) -> char {
    if d == 0 {
        '0'
    } else if d == 1 {
        '1'
    } else if d == 2 {
        '2'
    } else if d == 3 {
        '3'
    } else if d == 4 {
        '4'
    } else if d == 5 {
        '5'
    } else if d == 6 {
        '6'
    } else if d == 7 {
        '7'
    } else if d == 8 {
        '8'
    } else {
        '9'
    }
}

/// A natural number written in decimal digits, without leading zeros.
pub open spec fn natural_text(n: nat) -> Seq<char>
    decreases n,
{
    if n < 10 {
        seq![digit(n as int)]
    } else {
        natural_text(n / 10).push(digit((n % 10) as int))
    }
}

/// An integer written in decimal digits, with `-` in front if it is negative.
pub open spec fn integer_text(n: int) -> Seq<char> {
    if n < 0 {
        seq!['-'] + natural_text((-n) as nat)
    } else {
        natural_text(n as nat)
    }
}

/// The text of one digit.
fn digit_text(d: u64) -> (text: &'static str)
    requires
        d < 10,
    ensures
        text@ == seq![digit(d as int)],
{
    proof {
        reveal_strlit("0");
        reveal_strlit("1");
        reveal_strlit("2");
        reveal_strlit("3");
        reveal_strlit("4");
        reveal_strlit("5");
        reveal_strlit("6");
        reveal_strlit("7");
        reveal_strlit("8");
        reveal_strlit("9");
    }
    let text = if d == 0 {
        "0"
    } else if d == 1 {
        "1"
    } else if d == 2 {
        "2"
    } else if d == 3 {
        "3"
    } else if d == 4 {
        "4"
    } else if d == 5 {
        "5"
    } else if d == 6 {
        "6"
    } else if d == 7 {
        "7"
    } else if d == 8 {
        "8"
    } else {
        "9"
    };
    assert(text@ =~= seq![digit(d as int)]);
    text
}

/// A natural number written in decimal digits.
pub fn natural_to_text(n: u64) -> (text: String)
    ensures
        text@ == natural_text(n as nat),
    decreases n,
{
    if n < 10 {
        String::from_str(digit_text(n))
    } else {
        let mut text = natural_to_text(n / 10);
        text.append(digit_text(n % 10));
        text
    }
}

/// An integer written in decimal digits, as `i32` is displayed.
pub fn integer_to_text(n: i32) -> (text: String)
    ensures
        text@ == integer_text(n as int),
{
    if n < 0 {
        let magnitude: u64 = (-(n as i64)) as u64;
        proof {
            reveal_strlit("-");
            assert("-"@ =~= seq!['-']);
        }
        String::from_str("-").concat(natural_to_text(magnitude).as_str())
    } else {
        natural_to_text(n as u64)
    }
}

/// Whether two texts hold the same characters.
pub fn same_text(a: &str, b: &str) -> (same: bool)
    ensures
        same == (a@ == b@),
{
    let x = chars_of(a);
    let y = chars_of(b);
    if x.len() != y.len() {
        return false;
    }
    let mut i: usize = 0;
    while i < x.len()
        invariant
            i <= x.len(),
            x.len() == y.len(),
            x@ == a@,
            y@ == b@,
            forall|j: int| 0 <= j < i ==> x@[j] == y@[j],
        decreases x.len() - i,
    {
        if x[i] != y[i] {
            assert(a@[i as int] != b@[i as int]);
            return false;
        }
        i += 1;
    }
    assert(x@ =~= y@);
    true
}

} // verus!
