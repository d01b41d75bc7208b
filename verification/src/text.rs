use vstd::prelude::*;

verus! {

/// ASCII whitespace, as stripped from around header tokens.
pub open spec fn is_space(c: char) -> bool {
    c == ' ' || c == '\t' || c == '\r' || c == '\n'
}

/// `s` with leading whitespace removed.
pub open spec fn trim_front(s: Seq<char>) -> Seq<char>
    decreases s.len(),
{
    if s.len() > 0 && is_space(s.first()) {
        trim_front(s.drop_first())
    } else {
        s
    }
}

/// `s` with trailing whitespace removed.
pub open spec fn trim_back(s: Seq<char>) -> Seq<char>
    decreases s.len(),
{
    if s.len() > 0 && is_space(s.last()) {
        trim_back(s.drop_last())
    } else {
        s
    }
}

/// `s` with surrounding whitespace removed.
pub open spec fn trimmed(s: Seq<char>) -> Seq<char> {
    trim_back(trim_front(s))
}

/// The pieces of `s` between occurrences of `sep`, in order. There is always
/// at least one piece; a separator at either end contributes an empty piece.
pub open spec fn split_on(s: Seq<char>, sep: char) -> Seq<Seq<char>>
    decreases s.len(),
{
    if s.len() == 0 {
        seq![Seq::<char>::empty()]
    } else if s.first() == sep {
        seq![Seq::<char>::empty()] + split_on(s.drop_first(), sep)
    } else {
        let rest = split_on(s.drop_first(), sep);
        seq![seq![s.first()] + rest.first()] + rest.drop_first()
    }
}

pub proof fn lemma_split_on_len(s: Seq<char>, sep: char)
    ensures
        split_on(s, sep).len() >= 1,
    decreases s.len(),
{
    if s.len() > 0 {
        lemma_split_on_len(s.drop_first(), sep);
    }
}

/// Appending one character to the text appends to the last piece, or, if the
/// character is the separator, starts a fresh empty piece.
pub proof fn lemma_split_on_push(s: Seq<char>, c: char, sep: char)
    ensures
        c == sep ==> split_on(s.push(c), sep) =~~= split_on(s, sep).push(Seq::<char>::empty()),
        c != sep ==> split_on(s.push(c), sep) =~~= split_on(s, sep).drop_last().push(
            split_on(s, sep).last().push(c),
        ),
    decreases s.len(),
{
    lemma_split_on_len(s, sep);
    if s.len() == 0 {
        assert(s.push(c).drop_first() =~= Seq::<char>::empty());
        assert(s.push(c).first() == c);
    } else {
        let t = s.drop_first();
        assert(s.push(c).drop_first() =~= t.push(c));
        assert(s.push(c).first() == s.first());
        lemma_split_on_len(t, sep);
        lemma_split_on_push(t, c, sep);
        lemma_split_on_len(t.push(c), sep);
    }
}

/// Whether `c` is ASCII whitespace.
pub fn is_space_char(c: char) -> (r: bool)
    ensures
        r == is_space(c),
{
    c == ' ' || c == '\t' || c == '\r' || c == '\n'
}

/// Whether two string slices hold the same characters.
pub fn str_eq(a: &str, b: &str) -> (r: bool)
    ensures
        r == (a@ == b@),
{
    let an: usize = a.unicode_len();
    let bn: usize = b.unicode_len();
    if an != bn {
        return false;
    }
    let mut i: usize = 0;
    while i < an
        invariant
            i <= an,
            an == a@.len(),
            an == b@.len(),
            forall|j: int| 0 <= j < i ==> a@[j] == b@[j],
        decreases an - i,
    {
        if a.get_char(i) != b.get_char(i) {
            return false;
        }
        i += 1;
    }
    proof {
        assert(a@ =~= b@);
    }
    true
}

/// `s` with surrounding ASCII whitespace removed.
pub fn trim_str(s: &str) -> (r: String)
    ensures
        r@ == trimmed(s@),
{
    let n: usize = s.unicode_len();
    let mut a: usize = 0;
    proof {
        assert(s@.skip(0) =~= s@);
    }
    while a < n && is_space_char(s.get_char(a))
        invariant
            a <= n,
            n == s@.len(),
            trim_front(s@) == trim_front(s@.skip(a as int)),
        decreases n - a,
    {
        proof {
            assert(s@.skip(a as int).first() == s@[a as int]);
            assert(s@.skip(a as int).drop_first() =~= s@.skip(a as int + 1));
        }
        a += 1;
    }
    proof {
        if a == n {
            assert(s@.skip(a as int) =~= Seq::<char>::empty());
        }
        assert(trim_front(s@) == s@.skip(a as int));
        assert(s@.skip(a as int) =~= s@.subrange(a as int, n as int));
    }
    let mut b: usize = n;
    while b > a && is_space_char(s.get_char(b - 1))
        invariant
            a <= b <= n,
            n == s@.len(),
            trim_front(s@) == s@.subrange(a as int, n as int),
            trim_back(s@.subrange(a as int, n as int)) == trim_back(
                s@.subrange(a as int, b as int),
            ),
        decreases b,
    {
        proof {
            let t = s@.subrange(a as int, b as int);
            assert(t.last() == s@[b as int - 1]);
            assert(t.drop_last() =~= s@.subrange(a as int, b as int - 1));
        }
        b -= 1;
    }
    proof {
        assert(trim_back(s@.subrange(a as int, b as int)) == s@.subrange(a as int, b as int));
    }
    let piece = s.substring_char(a, b);
    String::from_str(piece)
}

/// The pieces of `s` between occurrences of `sep`, in order.
pub fn split_str(s: &str, sep: char) -> (r: Vec<String>)
    ensures
        r.deep_view() == split_on(s@, sep),
{
    let n: usize = s.unicode_len();
    let mut pieces: Vec<String> = Vec::new();
    let mut start: usize = 0;
    let mut i: usize = 0;
    proof {
        assert(s@.take(0) =~= Seq::<char>::empty());
        assert(split_on(s@.take(0), sep) =~~= pieces.deep_view().push(s@.subrange(0, 0)));
    }
    while i < n
        invariant
            start <= i <= n,
            n == s@.len(),
            split_on(s@.take(i as int), sep) == pieces.deep_view().push(
                s@.subrange(start as int, i as int),
            ),
        decreases n - i,
    {
        let c = s.get_char(i);
        proof {
            assert(s@.take(i as int + 1) =~= s@.take(i as int).push(s@[i as int]));
            lemma_split_on_push(s@.take(i as int), s@[i as int], sep);
        }
        if c == sep {
            let ghost old_pieces = pieces.deep_view();
            let ghost cur = s@.subrange(start as int, i as int);
            let piece = s.substring_char(start, i);
            pieces.push(String::from_str(piece));
            proof {
                assert(pieces.deep_view() =~~= old_pieces.push(cur));
                assert(split_on(s@.take(i as int + 1), sep) =~~= pieces.deep_view().push(
                    s@.subrange(i as int + 1, i as int + 1),
                ));
            }
            start = i + 1;
        } else {
            proof {
                let ghost whole = pieces.deep_view().push(s@.subrange(start as int, i as int));
                assert(whole.drop_last() =~~= pieces.deep_view());
                assert(whole.last() == s@.subrange(start as int, i as int));
                assert(s@.subrange(start as int, i as int).push(s@[i as int]) =~= s@.subrange(
                    start as int,
                    i as int + 1,
                ));
                assert(split_on(s@.take(i as int + 1), sep) =~~= pieces.deep_view().push(
                    s@.subrange(start as int, i as int + 1),
                ));
            }
        }
        i += 1;
    }
    let ghost old_pieces = pieces.deep_view();
    let ghost cur = s@.subrange(start as int, n as int);
    let piece = s.substring_char(start, n);
    pieces.push(String::from_str(piece));
    proof {
        assert(s@.take(n as int) =~= s@);
        assert(pieces.deep_view() =~~= old_pieces.push(cur));
    }
    pieces
}

} // verus!
