use vstd::prelude::*;

verus! {

/// `a` followed by `b`.
pub fn join(a: &str, b: &str) -> (r: String)
    ensures
        r@ == a@ + b@,
{
    let mut s = String::from_str(a);
    s.append(b);
    s
}

/// `a`, then `b`, then `c`.
pub fn join3(a: &str, b: &str, c: &str) -> (r: String)
    ensures
        r@ == a@ + b@ + c@,
{
    let mut s = String::from_str(a);
    s.append(b);
    s.append(c);
    s
}

/// The first `n` characters of `s`, or all of `s` when it is shorter.
pub fn prefix(s: &str, n: usize) -> (r: String)
    ensures
        s@.len() <= n ==> r@ == s@,
        s@.len() > n ==> r@ == s@.subrange(0, n as int),
{
    let len = s.unicode_len();
    if len <= n {
        let r = String::from_str(s);
        r
    } else {
        let p = s.substring_char(0, n);
        String::from_str(p)
    }
}

/// The present parts, joined in order; absent parts add nothing.
pub open spec fn joined_present(parts: Seq<Option<String>>) -> Seq<char>
    decreases parts.len(),
{
    if parts.len() == 0 {
        Seq::empty()
    } else {
        joined_present(parts.drop_last()) + match parts.last() {
            Some(p) => p@,
            None => Seq::empty(),
        }
    }
}

/// Appends each present part to `acc`, in order. Streamed answers arrive as
/// such parts, one per fragment.
pub fn append_present(acc: &mut String, parts: &Vec<Option<String>>)
    ensures
        final(acc)@ == old(acc)@ + joined_present(parts@),
{
    let mut i: usize = 0;
    while i < parts.len()
        invariant
            i <= parts@.len(),
            acc@ == old(acc)@ + joined_present(parts@.subrange(0, i as int)),
        decreases parts@.len() - i,
    {
        assert(parts@.subrange(0, i as int + 1).drop_last() =~= parts@.subrange(0, i as int));
        match &parts[i] {
            Some(p) => {
                acc.append(p.as_str());
            },
            None => {},
        }
        i = i + 1;
    }
    assert(parts@.subrange(0, parts@.len() as int) =~= parts@);
}

} // verus!
