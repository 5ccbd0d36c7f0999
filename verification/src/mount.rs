//! Parsing of `host:container` mount and port descriptors.

use vstd::prelude::*;

use crate::error::Error;

verus! {

/// A validated host/container pair, as given on the command line.
/// Both sides are non-empty and the text is kept verbatim: no
/// whitespace trimming and no shell-variable expansion.
#[derive(Debug, Clone)]
pub struct Mount {
    pub host: String,
    pub container: String,
}

impl View for Mount {
    type V = (Seq<char>, Seq<char>);

    open spec fn view(&self) -> (Seq<char>, Seq<char>) {
        (self.host@, self.container@)
    }
}

impl DeepView for Mount {
    type V = (Seq<char>, Seq<char>);

    open spec fn deep_view(&self) -> (Seq<char>, Seq<char>) {
        self.view()
    }
}

impl PartialEq for Mount {
    fn eq(&self, other: &Mount) -> bool {
        self.host == other.host && self.container == other.container
    }
}

impl vstd::std_specs::cmp::PartialEqSpecImpl for Mount {
    open spec fn obeys_eq_spec() -> bool {
        true
    }

    open spec fn eq_spec(&self, other: &Mount) -> bool {
        self.host@ == other.host@ && self.container@ == other.container@
    }
}

/// The text holds no colon at all.
pub open spec fn colon_free(s: Seq<char>) -> bool {
    forall|i: int| 0 <= i < s.len() ==> s[i] != ':'
}

/// Position `i` holds the first colon of `s`.
pub open spec fn is_first_colon(s: Seq<char>, i: int) -> bool {
    &&& 0 <= i < s.len()
    &&& s[i] == ':'
    &&& colon_free(s.subrange(0, i))
}

/// The mathematical reading of a mount descriptor: split at the first
/// colon; the parse is accepted exactly when a colon exists and both
/// halves are non-empty.
pub open spec fn mount_of(s: Seq<char>) -> Option<(Seq<char>, Seq<char>)> {
    if exists|i: int| is_first_colon(s, i) {
        let i = choose|i: int| is_first_colon(s, i);
        if 0 < i && i + 1 < s.len() {
            Some((s.subrange(0, i), s.subrange(i + 1, s.len() as int)))
        } else {
            None
        }
    } else {
        None
    }
}

/// A sequence has at most one first colon.
pub proof fn lemma_first_colon_unique(s: Seq<char>, i: int, j: int)
    requires
        is_first_colon(s, i),
        is_first_colon(s, j),
    ensures
        i == j,
{
    if i < j {
        assert(s.subrange(0, j)[i] == s[i]);
    }
    if j < i {
        assert(s.subrange(0, i)[j] == s[j]);
    }
}

/// A descriptor without a colon never parses.
pub proof fn lemma_no_colon_rejected(s: Seq<char>)
    requires
        colon_free(s),
    ensures
        mount_of(s) is None,
{
    if exists|i: int| is_first_colon(s, i) {
        let i = choose|i: int| is_first_colon(s, i);
        assert(s[i] != ':');
    }
}

/// Joining a non-empty, colon-free host with a non-empty container text
/// parses back to exactly that pair. (A host that itself holds a colon
/// is split earlier, so it is excluded here.)
pub proof fn lemma_join_parses(h: Seq<char>, c: Seq<char>)
    requires
        h.len() > 0,
        c.len() > 0,
        colon_free(h),
    ensures
        mount_of(h + seq![':'] + c) == Some((h, c)),
{
    let s = h + seq![':'] + c;
    let i = h.len() as int;
    assert(s.subrange(0, i) =~= h);
    assert(is_first_colon(s, i));
    let k = choose|k: int| is_first_colon(s, k);
    lemma_first_colon_unique(s, k, i);
    assert(s.subrange(i + 1, s.len() as int) =~= c);
}

impl Mount {
    /// Parses one `-v`/`-p` value: the text up to the first colon is the
    /// host side, the rest the container side, and either side being
    /// empty — or the colon missing — is a malformed mount.
    pub fn parse(s: &str) -> (r: Result<Mount, Error>)
        ensures
            match r {
                Ok(m) => mount_of(s@) == Some(m@),
                Err(e) => {
                    &&& mount_of(s@) is None
                    &&& e == Error::MalformedMount
                },
            },
    {
        let n = s.unicode_len();
        let mut i: usize = 0;
        loop
            invariant
                i <= n,
                n == s@.len(),
                colon_free(s@.subrange(0, i as int)),
            ensures
                i <= n,
                colon_free(s@.subrange(0, i as int)),
                i < n ==> s@[i as int] == ':',
                i == n ==> colon_free(s@),
            decreases n - i,
        {
            if i == n {
                proof {
                    assert(s@.subrange(0, i as int) =~= s@);
                }
                break;
            }
            if s.get_char(i) == ':' {
                break;
            }
            proof {
                let pre = s@.subrange(0, i as int);
                let ext = s@.subrange(0, i as int + 1);
                assert forall|j: int| 0 <= j < ext.len() implies ext[j] != ':' by {
                    if j < i {
                        assert(pre[j] == s@[j]);
                    }
                    assert(ext[j] == s@[j]);
                }
            }
            i = i + 1;
        }
        if i == n {
            proof {
                lemma_no_colon_rejected(s@);
            }
            return Err(Error::MalformedMount);
        }
        proof {
            assert(is_first_colon(s@, i as int));
            let k = choose|k: int| is_first_colon(s@, k);
            lemma_first_colon_unique(s@, k, i as int);
        }
        if i == 0 {
            return Err(Error::MalformedMount);
        }
        if i + 1 == n {
            return Err(Error::MalformedMount);
        }
        let host = s.substring_char(0, i).to_owned();
        let container = s.substring_char(i + 1, n).to_owned();
        Ok(Mount { host, container })
    }
}

impl core::str::FromStr for Mount {
    type Err = Error;

    fn from_str(s: &str) -> Result<Mount, Error> {
        Mount::parse(s)
    }
}

} // verus!
