//! Reading the list of OAuth scopes the client asks for.
use vstd::prelude::*;
use vstd::string::*;

verus! {

/// The OAuth scopes the client asks for, comma-separated.
pub const ACCESS_SCOPES: &'static str = "streaming, user-read-private, user-library-read, playlist-read-private";

/// Whether a character has Unicode's `White_Space` property, as
/// `char::is_whitespace` decides it.
pub open spec fn is_whitespace(c: char) -> bool {
    let u = c as u32;
    (0x9 <= u && u <= 0xd) || u == 0x20 || u == 0x85 || u == 0xa0 || u == 0x1680
        || (0x2000 <= u && u <= 0x200a) || u == 0x2028 || u == 0x2029 || u == 0x202f
        || u == 0x205f || u == 0x3000
}

pub fn is_whitespace_char(c: char) -> (r: bool)
    ensures
        r == is_whitespace(c),
{
    let u = c as u32;
    (0x9 <= u && u <= 0xd) || u == 0x20 || u == 0x85 || u == 0xa0 || u == 0x1680
        || (0x2000 <= u && u <= 0x200a) || u == 0x2028 || u == 0x2029 || u == 0x202f
        || u == 0x205f || u == 0x3000
}

/// A text without its leading whitespace.
pub open spec fn trim_start(s: Seq<char>) -> Seq<char>
    decreases s.len(),
{
    if s.len() > 0 && is_whitespace(s[0]) {
        trim_start(s.drop_first())
    } else {
        s
    }
}

/// A text without its trailing whitespace.
pub open spec fn trim_end(s: Seq<char>) -> Seq<char>
    decreases s.len(),
{
    if s.len() > 0 && is_whitespace(s.last()) {
        trim_end(s.drop_last())
    } else {
        s
    }
}

/// A text without leading and trailing whitespace, as `str::trim` gives it.
pub open spec fn trim(s: Seq<char>) -> Seq<char> {
    trim_end(trim_start(s))
}

/// The parts of a text between the occurrences of a separator, as
/// `str::split` gives them: one more part than separators, empty ones
/// included.
pub open spec fn split_on(s: Seq<char>, sep: char) -> Seq<Seq<char>>
    decreases s.len(),
{
    if s.len() == 0 {
        seq![Seq::<char>::empty()]
    } else {
        let init = split_on(s.drop_last(), sep);
        if s.last() == sep {
            init.push(Seq::<char>::empty())
        } else {
            init.update(init.len() - 1, init.last().push(s.last()))
        }
    }
}

/// Each of the texts trimmed.
pub open spec fn trims(parts: Seq<Seq<char>>) -> Seq<Seq<char>> {
    parts.map_values(|part: Seq<char>| trim(part))
}

/// The texts of strings.
pub open spec fn views(parts: Seq<String>) -> Seq<Seq<char>> {
    parts.map_values(|part: String| part@)
}

/// The scopes named in a comma-separated list, each without surrounding
/// whitespace.
pub open spec fn scope_list(s: Seq<char>) -> Seq<Seq<char>> {
    trims(split_on(s, ','))
}

proof fn lemma_split_on_nonempty(s: Seq<char>, sep: char)
    ensures
        split_on(s, sep).len() >= 1,
    decreases s.len(),
{
    if s.len() > 0 {
        lemma_split_on_nonempty(s.drop_last(), sep);
    }
}

/// Splitting a longer prefix: a separator closes the last part and opens an
/// empty one; another character extends the last part.
proof fn lemma_split_on_step(s: Seq<char>, i: int, start: int, done: Seq<Seq<char>>, sep: char)
    requires
        0 <= start <= i < s.len(),
        split_on(s.take(i), sep) == done.push(s.subrange(start, i)),
    ensures
        s[i] == sep ==> split_on(s.take(i + 1), sep) == done.push(s.subrange(start, i)).push(s.subrange(i + 1, i + 1)),
        s[i] != sep ==> split_on(s.take(i + 1), sep) == done.push(s.subrange(start, i + 1)),
{
    let t = s.take(i + 1);
    assert(t.drop_last() =~= s.take(i));
    assert(t.last() == s[i]);
    lemma_split_on_nonempty(s.take(i), sep);
    if s[i] == sep {
        assert(s.subrange(i + 1, i + 1) =~= Seq::<char>::empty());
    } else {
        assert(s.subrange(start, i).push(s[i]) =~= s.subrange(start, i + 1));
        assert(done.push(s.subrange(start, i)).update(done.len() as int, s.subrange(start, i + 1))
            =~= done.push(s.subrange(start, i + 1)));
    }
}

/// Adding a trimmed part to the parts found so far keeps them the trimmed
/// raw parts.
proof fn lemma_push_trimmed(parts: Seq<String>, raw: Seq<Seq<char>>, part: String, raw_part: Seq<char>)
    requires
        views(parts) == trims(raw),
        part@ == trim(raw_part),
    ensures
        views(parts.push(part)) == trims(raw.push(raw_part)),
{
    let l = views(parts.push(part));
    let r = trims(raw.push(raw_part));
    assert(views(parts).len() == parts.len());
    assert(trims(raw).len() == raw.len());
    assert(parts.len() == raw.len());
    assert(l.len() == r.len());
    assert forall|j: int| 0 <= j < l.len() implies l[j] == r[j] by {
        if j < parts.len() {
            assert(views(parts)[j] == trims(raw)[j]);
            assert(parts.push(part)[j] == parts[j]);
            assert(raw.push(raw_part)[j] == raw[j]);
        } else {
            assert(parts.push(part)[j] == part);
            assert(raw.push(raw_part)[j] == raw_part);
        }
    }
    assert(l =~= r);
}

/// The part of `s` between the character positions `from` and `to`, without
/// surrounding whitespace.
fn trimmed_part(s: &str, from: usize, to: usize) -> (r: String)
    requires
        from <= to <= s@.len(),
    ensures
        r@ == trim(s@.subrange(from as int, to as int)),
{
    let mut a = from;
    while a < to && is_whitespace_char(s.get_char(a))
        invariant
            from <= a <= to <= s@.len(),
            trim_start(s@.subrange(from as int, to as int)) == trim_start(s@.subrange(a as int, to as int)),
        decreases to - a,
    {
        assert(s@.subrange(a as int, to as int).drop_first() =~= s@.subrange(a + 1, to as int));
        a = a + 1;
    }
    assert(trim_start(s@.subrange(a as int, to as int)) == s@.subrange(a as int, to as int));
    let mut b = to;
    while b > a && is_whitespace_char(s.get_char(b - 1))
        invariant
            from <= a <= b <= to <= s@.len(),
            trim(s@.subrange(from as int, to as int)) == trim_end(s@.subrange(a as int, b as int)),
        decreases b - a,
    {
        assert(s@.subrange(a as int, b as int).drop_last() =~= s@.subrange(a as int, b - 1));
        b = b - 1;
    }
    String::from_str(s.substring_char(a, b))
}

/// Whether `scopes` are the client's scopes: `ACCESS_SCOPES` split at its
/// commas and trimmed.
pub open spec fn are_access_scopes(scopes: Vec<String>) -> bool {
    views(scopes@) == scope_list(ACCESS_SCOPES@)
}

/// The scopes in a comma-separated list, each trimmed of whitespace.
pub fn parse_access_scopes(scopes: &str) -> (r: Vec<String>)
    ensures
        views(r@) == scope_list(scopes@),
{
    let n = scopes.unicode_len();
    let mut parts: Vec<String> = Vec::new();
    let ghost mut done: Seq<Seq<char>> = Seq::empty();
    let mut start: usize = 0;
    let mut i: usize = 0;
    proof {
        assert(scopes@.take(0) =~= Seq::<char>::empty());
        assert(split_on(scopes@.take(0), ',') =~= done.push(scopes@.subrange(0, 0)));
    }
    while i < n
        invariant
            n == scopes@.len(),
            start <= i <= n,
            split_on(scopes@.take(i as int), ',') == done.push(scopes@.subrange(start as int, i as int)),
            views(parts@) == trims(done),
        decreases n - i,
    {
        let c = scopes.get_char(i);
        proof {
            lemma_split_on_step(scopes@, i as int, start as int, done, ',');
        }
        if c == ',' {
            let part = trimmed_part(scopes, start, i);
            let ghost old_parts = parts@;
            parts.push(part);
            proof {
                let old_done = done;
                done = done.push(scopes@.subrange(start as int, i as int));
                lemma_push_trimmed(old_parts, old_done, part, scopes@.subrange(start as int, i as int));
            }
            start = i + 1;
        }
        i = i + 1;
    }
    let last = trimmed_part(scopes, start, n);
    let ghost old_parts = parts@;
    parts.push(last);
    proof {
        assert(scopes@.take(n as int) =~= scopes@);
        lemma_push_trimmed(old_parts, done, last, scopes@.subrange(start as int, n as int));
    }
    parts
}

} // verus!
