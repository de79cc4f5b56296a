//! Structural matching of single-argument generic wrappers such as
//! `Result<T>` or `StreamSink<T>`.
use vstd::prelude::*;
use vstd::string::*;

verus! {

/// No opening angle bracket occurs in `s`.
pub open spec fn no_open(s: Seq<char>) -> bool {
    forall|i: int| 0 <= i < s.len() ==> s[i] != '<'
}

/// `s` is `head<inner>` where `head` holds no `<`: `head` is the outer
/// name and `inner` its single bracketed argument.
pub open spec fn splits(s: Seq<char>, head: Seq<char>, inner: Seq<char>) -> bool {
    &&& s == head + seq!['<'] + inner + seq!['>']
    &&& no_open(head)
}

/// Angle-bracket depth after the first `n` characters of `s`.
pub open spec fn depth(s: Seq<char>, n: int) -> int
    decreases n,
{
    if n <= 0 {
        0
    } else if s[n - 1] == '<' {
        depth(s, n - 1) + 1
    } else if s[n - 1] == '>' {
        depth(s, n - 1) - 1
    } else {
        depth(s, n - 1)
    }
}

/// Every bracket of `s` is matched within `s`.
pub open spec fn balanced(s: Seq<char>) -> bool {
    &&& forall|n: int| 0 <= n <= s.len() ==> depth(s, n) >= 0
    &&& depth(s, s.len() as int) == 0
}

/// Characters that may appear in the single argument of a wrapper: no `,`,
/// so a list of several arguments never matches.
pub open spec fn arg_char(c: char) -> bool {
    ('a' <= c && c <= 'z') || ('A' <= c && c <= 'Z') || ('0' <= c && c <= '9') || c == '_'
        || c == '<' || c == '>' || c == '(' || c == ')' || c == '[' || c == ']' || c == ';'
        || c == ':'
}

/// A well-formed generic argument: non-empty, of argument characters,
/// with balanced brackets.
pub open spec fn arg_ok(x: Seq<char>) -> bool {
    &&& x.len() > 0
    &&& forall|i: int| 0 <= i < x.len() ==> arg_char(#[trigger] x[i])
    &&& balanced(x)
}

/// Characters of an identifier.
pub open spec fn ident_char(c: char) -> bool {
    ('a' <= c && c <= 'z') || ('A' <= c && c <= 'Z') || ('0' <= c && c <= '9') || c == '_'
}

pub open spec fn is_ident(s: Seq<char>) -> bool {
    &&& s.len() > 0
    &&& forall|i: int| 0 <= i < s.len() ==> ident_char(#[trigger] s[i])
    &&& !('0' <= s[0] && s[0] <= '9')
}

/// `s` is `prefix name<x>` with a prefix free of `<` and a well-formed `x`.
pub open spec fn captured(name: Seq<char>, s: Seq<char>, x: Seq<char>) -> bool {
    exists|p: Seq<char>| #[trigger] splits(s, p + name, x) && arg_ok(x)
}

/// The split of a string into outer head and argument is unique.
pub proof fn lemma_split_unique(s: Seq<char>, h1: Seq<char>, i1: Seq<char>, h2: Seq<char>, i2: Seq<char>)
    requires
        splits(s, h1, i1),
        splits(s, h2, i2),
    ensures
        h1 == h2,
        i1 == i2,
{
    if h1.len() < h2.len() {
        assert(s[h1.len() as int] == '<');
        assert(h2[h1.len() as int] == s[h1.len() as int]);
    } else if h2.len() < h1.len() {
        assert(s[h2.len() as int] == '<');
        assert(h1[h2.len() as int] == s[h2.len() as int]);
    }
    assert(h1 =~= s.subrange(0, h1.len() as int));
    assert(h2 =~= s.subrange(0, h2.len() as int));
    assert(i1 =~= s.subrange(h1.len() as int + 1, s.len() - 1));
    assert(i2 =~= s.subrange(h2.len() as int + 1, s.len() - 1));
}

/// Splits `s` into its outer name and its single bracketed argument.
pub fn split_generic(s: &str) -> (r: Option<(String, String)>)
    ensures
        r matches Some((h, x)) ==> splits(s@, h@, x@),
        r is None ==> forall|h: Seq<char>, x: Seq<char>| !splits(s@, h, x),
{
    let n = s.unicode_len();
    let mut k: usize = 0;
    while k < n && s.get_char(k) != '<'
        invariant
            n == s@.len(),
            k <= n,
            forall|j: int| 0 <= j < k ==> s@[j] != '<',
        decreases n - k,
    {
        k = k + 1;
    }
    if k == n || n - k < 2 || s.get_char(n - 1) != '>' {
        proof {
            assert forall|h: Seq<char>, x: Seq<char>| !splits(s@, h, x) by {
                if splits(s@, h, x) {
                    assert(s@[h.len() as int] == '<');
                    assert(s@[s@.len() - 1] == '>');
                    if h.len() < k {
                    } else if h.len() > k {
                        assert(h[k as int] == s@[k as int]);
                    }
                }
            }
        }
        return None;
    }
    let head = s.substring_char(0, k);
    let inner = s.substring_char(k + 1, n - 1);
    proof {
        assert(s@ =~= head@ + seq!['<'] + inner@ + seq!['>']);
    }
    Some((String::from_str(head), String::from_str(inner)))
}

/// Whether `x` is a well-formed generic argument.
pub fn check_arg(x: &str) -> (r: bool)
    ensures
        r == arg_ok(x@),
{
    let n = x.unicode_len();
    if n == 0 {
        return false;
    }
    let mut i: usize = 0;
    let mut d: usize = 0;
    while i < n
        invariant
            n == x@.len(),
            i <= n,
            d == depth(x@, i as int),
            0 <= d <= i,
            forall|j: int| 0 <= j < i ==> arg_char(#[trigger] x@[j]),
            forall|m: int| 0 <= m <= i ==> depth(x@, m) >= 0,
        decreases n - i,
    {
        let c = x.get_char(i);
        let ok = ('a' <= c && c <= 'z') || ('A' <= c && c <= 'Z') || ('0' <= c && c <= '9')
            || c == '_' || c == '<' || c == '>' || c == '(' || c == ')' || c == '[' || c == ']'
            || c == ';' || c == ':';
        if !ok {
            return false;
        }
        if c == '<' {
            d = d + 1;
        } else if c == '>' {
            if d == 0 {
                assert(depth(x@, i + 1) < 0);
                return false;
            }
            d = d - 1;
        }
        i = i + 1;
    }
    d == 0
}

/// Whether `s` ends with `suffix`.
fn strip_suffix(s: &str, suffix: &str) -> (r: bool)
    ensures
        r == (suffix@.len() <= s@.len() && s@.subrange(s@.len() - suffix@.len(), s@.len() as int)
            == suffix@),
{
    let n = s.unicode_len();
    let m = suffix.unicode_len();
    if m > n {
        return false;
    }
    let mut i: usize = 0;
    while i < m
        invariant
            n == s@.len(),
            m == suffix@.len(),
            m <= n,
            i <= m,
            forall|j: int| 0 <= j < i ==> s@[n - m + j] == suffix@[j],
        decreases m - i,
    {
        if s.get_char(n - m + i) != suffix.get_char(i) {
            assert(s@.subrange(n - m, n as int)[i as int] != suffix@[i as int]);
            return false;
        }
        i = i + 1;
    }
    assert(s@.subrange(n - m, n as int) =~= suffix@);
    true
}

/// Matcher for one generic wrapper name, e.g. `Result`: `Result<Tom>` gives `Tom`.
pub struct GenericCapture {
    cls_name: String,
}

impl GenericCapture {
    pub closed spec fn name(&self) -> Seq<char> {
        self.cls_name@
    }

    pub fn new(cls_name: &str) -> (r: Self)
        requires
            is_ident(cls_name@),
        ensures
            r.name() == cls_name@,
            r.wf(),
    {
        GenericCapture { cls_name: String::from_str(cls_name) }
    }

    pub closed spec fn wf(&self) -> bool {
        is_ident(self.cls_name@)
    }

    /// The argument of `s` when `s` is `prefix name<x>`, `None` otherwise.
    pub fn captures(&self, s: &str) -> (r: Option<String>)
        requires
            self.wf(),
        ensures
            r matches Some(x) ==> captured(self.name(), s@, x@),
            r is None ==> forall|x: Seq<char>| !captured(self.name(), s@, x),
    {
        match split_generic(s) {
            None => {
                proof {
                    assert forall|x: Seq<char>| !captured(self.name(), s@, x) by {
                        if captured(self.name(), s@, x) {
                            let p = choose|p: Seq<char>| #[trigger] splits(s@, p + self.name(), x) && arg_ok(x);
                        }
                    }
                }
                None
            },
            Some((head, inner)) => {
                let hit = strip_suffix(head.as_str(), self.cls_name.as_str()) && check_arg(inner.as_str());
                proof {
                    let nm = self.name();
                    if hit {
                        let p = head@.subrange(0, head@.len() - nm.len());
                        assert(head@ =~= p + nm);
                        assert(splits(s@, p + nm, inner@));
                    } else {
                        assert forall|x: Seq<char>| !captured(nm, s@, x) by {
                            if captured(nm, s@, x) {
                                let p = choose|p: Seq<char>| #[trigger] splits(s@, p + nm, x) && arg_ok(x);
                                lemma_split_unique(s@, p + nm, x, head@, inner@);
                                assert(head@.subrange(head@.len() - nm.len(), head@.len() as int) =~= nm);
                            }
                        }
                    }
                }
                if hit {
                    Some(inner)
                } else {
                    None
                }
            },
        }
    }
}

} // verus!
