//! Package identifiers of the form `author-name-version`.
use vstd::prelude::*;

verus! {

/// A parsed `author-name-version` identifier; every field is non-empty.
pub struct PackageIdentifier {
    pub author: String,
    pub name: String,
    pub version: String,
}

/// Why an identifier could not be parsed; carries the rejected input.
pub enum ParseError {
    Malformed(String),
}

pub open spec fn hyphen_free(s: Seq<char>) -> bool {
    forall|k: int| 0 <= k < s.len() ==> s[k] != '-'
}

/// `s` reads as `a-n-v`, where the author `a` and the version `v` hold no hyphen
/// and the name `n` may hold any; all three are non-empty.
pub open spec fn splits_as(s: Seq<char>, a: Seq<char>, n: Seq<char>, v: Seq<char>) -> bool {
    &&& a.len() > 0
    &&& n.len() > 0
    &&& v.len() > 0
    &&& hyphen_free(a)
    &&& hyphen_free(v)
    &&& s == a + seq!['-'] + n + seq!['-'] + v
}

/// `s` is a well-formed identifier.
pub open spec fn is_identifier(s: Seq<char>) -> bool {
    exists|a: Seq<char>, n: Seq<char>, v: Seq<char>| splits_as(s, a, n, v)
}

/// The folder name `author-name-version` of an identifier with these fields.
pub open spec fn joined(a: Seq<char>, n: Seq<char>, v: Seq<char>) -> Seq<char> {
    a + seq!['-'] + n + seq!['-'] + v
}

proof fn lemma_split_positions(s: Seq<char>, a: Seq<char>, n: Seq<char>, v: Seq<char>)
    requires
        splits_as(s, a, n, v),
    ensures
        s.len() == a.len() + n.len() + v.len() + 2,
        s[a.len() as int] == '-',
        forall|k: int| 0 <= k < a.len() ==> s[k] == a[k],
        s[s.len() - v.len() - 1] == '-',
        forall|k: int| s.len() - v.len() <= k < s.len() ==> s[k] == v[k - (s.len() - v.len())],
{
    let p = a + seq!['-'];
    let q = p + n;
    let r = q + seq!['-'];
    assert(s == r + v);
    assert(s[a.len() as int] == p[a.len() as int]);
    assert forall|k: int| 0 <= k < a.len() implies s[k] == a[k] by {
        assert(s[k] == r[k]);
        assert(r[k] == q[k]);
        assert(q[k] == p[k]);
    }
    assert(s[s.len() - v.len() - 1] == r[r.len() - 1]);
}

/// Two readings of one identifier agree.
pub proof fn lemma_split_unique(
    s: Seq<char>,
    a1: Seq<char>,
    n1: Seq<char>,
    v1: Seq<char>,
    a2: Seq<char>,
    n2: Seq<char>,
    v2: Seq<char>,
)
    requires
        splits_as(s, a1, n1, v1),
        splits_as(s, a2, n2, v2),
    ensures
        a1 == a2,
        n1 == n2,
        v1 == v2,
{
    lemma_split_positions(s, a1, n1, v1);
    lemma_split_positions(s, a2, n2, v2);
    if a1.len() < a2.len() {
        assert(s[a1.len() as int] == a2[a1.len() as int]);
    }
    if a2.len() < a1.len() {
        assert(s[a2.len() as int] == a1[a2.len() as int]);
    }
    if v1.len() < v2.len() {
        let k = s.len() - v1.len() - 1;
        assert(s[k] == v2[k - (s.len() - v2.len())]);
    }
    if v2.len() < v1.len() {
        let k = s.len() - v2.len() - 1;
        assert(s[k] == v1[k - (s.len() - v1.len())]);
    }
    assert(a1 =~= s.subrange(0, a1.len() as int));
    assert(a2 =~= s.subrange(0, a2.len() as int));
    assert(v1 =~= s.subrange(s.len() - v1.len(), s.len() as int));
    assert(v2 =~= s.subrange(s.len() - v2.len(), s.len() as int));
    assert(n1 =~= s.subrange(a1.len() + 1 as int, s.len() - v1.len() - 1));
    assert(n2 =~= s.subrange(a2.len() + 1 as int, s.len() - v2.len() - 1));
}

/// Index of the first hyphen of `s`, or its length when it has none.
fn first_hyphen(s: &str) -> (i: usize)
    ensures
        i <= s@.len(),
        i < s@.len() ==> s@[i as int] == '-',
        forall|k: int| 0 <= k < i ==> s@[k] != '-',
{
    let len = s.unicode_len();
    let mut i: usize = 0;
    while i < len
        invariant_except_break
            i <= len,
        invariant
            len == s@.len(),
            forall|k: int| 0 <= k < i ==> s@[k] != '-',
        ensures
            i <= len,
            i < len ==> s@[i as int] == '-',
        decreases len - i,
    {
        if s.get_char(i) == '-' {
            break;
        }
        i = i + 1;
    }
    i
}

/// One past the index of the last hyphen of `s`, or 0 when it has none.
fn last_hyphen_end(s: &str) -> (j: usize)
    ensures
        j <= s@.len(),
        j > 0 ==> s@[j - 1] == '-',
        forall|k: int| j <= k < s@.len() ==> s@[k] != '-',
{
    let len = s.unicode_len();
    let mut j: usize = len;
    while j > 0
        invariant
            j <= len,
            len == s@.len(),
            forall|k: int| j <= k < len ==> s@[k] != '-',
        ensures
            j > 0 ==> s@[j - 1] == '-',
        decreases j,
    {
        if s.get_char(j - 1) == '-' {
            break;
        }
        j = j - 1;
    }
    j
}

impl PackageIdentifier {
    /// Parses `author-name-version`: the author is the text before the first
    /// hyphen, the version the text after the last, the name all in between.
    pub fn parse(s: &str) -> (r: Result<PackageIdentifier, ParseError>)
        ensures
            match r {
                Ok(id) => splits_as(s@, id.author@, id.name@, id.version@),
                Err(ParseError::Malformed(m)) => m@ == s@ && !is_identifier(s@),
            },
            r is Ok <==> is_identifier(s@),
    {
        let len = s.unicode_len();
        let i = first_hyphen(s);
        let j = last_hyphen_end(s);
        if i == len || i == 0 || j == len || j <= i + 2 {
            proof {
                assert forall|a: Seq<char>, n: Seq<char>, v: Seq<char>| !splits_as(s@, a, n, v) by {
                    if splits_as(s@, a, n, v) {
                        lemma_split_positions(s@, a, n, v);
                        assert(i == a.len());
                        assert(j == s@.len() - v.len());
                    }
                }
            }
            return Err(ParseError::Malformed(String::from_str(s)));
        }
        let author = String::from_str(s.substring_char(0, i));
        let name = String::from_str(s.substring_char(i + 1, j - 1));
        let version = String::from_str(s.substring_char(j, len));
        proof {
            assert(s@ =~= joined(author@, name@, version@));
        }
        Ok(PackageIdentifier { author, name, version })
    }

    /// The install folder name `author-name-version`.
    pub fn folder_name(&self) -> (r: String)
        ensures
            r@ == joined(self.author@, self.name@, self.version@),
    {
        let mut r = String::from_str(self.author.as_str());
        r.append("-");
        r.append(self.name.as_str());
        r.append("-");
        r.append(self.version.as_str());
        proof {
            reveal_strlit("-");
        }
        r
    }
}

} // verus!
