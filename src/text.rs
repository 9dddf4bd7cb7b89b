use vstd::prelude::*;

verus! {

/// Relies on `FromIterator<char>` for `String`: the string holds the chars in order.
#[verifier::external_body]
pub(crate) fn string_from_chars(cs: &Vec<char>) -> (r: String)
    ensures
        r@ == cs@,
{
    cs.iter().collect()
}

/// Relies on `str::chars`: the chars of a string, in order.
#[verifier::external_body]
pub(crate) fn chars_of(s: &str) -> (r: Vec<char>)
    ensures
        r@ == s@,
{
    s.chars().collect()
}

/// What a single character becomes on screen: a tab is four spaces.
pub open spec fn tab_piece(c: char) -> Seq<char> {
    if c == '\t' { seq![' ', ' ', ' ', ' '] } else { seq![c] }
}

/// `s` with every tab replaced by four spaces.
pub open spec fn expanded(s: Seq<char>) -> Seq<char>
    decreases s.len(),
{
    if s.len() == 0 {
        Seq::empty()
    } else {
        expanded(s.drop_last()) + tab_piece(s.last())
    }
}

/// Replaces every tab of `s` by four spaces.
pub fn expand_tabs(s: &str) -> (r: String)
    ensures
        r@ == expanded(s@),
{
    let cs = chars_of(s);
    let mut out: Vec<char> = Vec::new();
    let mut i: usize = 0;
    while i < cs.len()
        invariant
            i <= cs@.len(),
            cs@ == s@,
            out@ == expanded(cs@.subrange(0, i as int)),
        decreases cs.len() - i,
    {
        let c = cs[i];
        if c == '\t' {
            out.push(' ');
            out.push(' ');
            out.push(' ');
            out.push(' ');
        } else {
            out.push(c);
        }
        proof {
            let p = cs@.subrange(0, i + 1);
            assert(p.drop_last() =~= cs@.subrange(0, i as int));
            assert(out@ =~= expanded(p));
        }
        i = i + 1;
    }
    proof {
        assert(cs@.subrange(0, cs@.len() as int) =~= cs@);
    }
    string_from_chars(&out)
}

} // verus!
