use vstd::prelude::*;
use crate::error::LnError;

verus! {

/// A parsed Lightning Address.
#[derive(Debug, Clone)]
pub struct Address {
    pub username: String,
    pub domain: String,
}

/// `s` holds no `@`.
pub open spec fn no_separator(s: Seq<char>) -> bool {
    forall|j: int| 0 <= j < s.len() ==> s[j] != '@'
}

/// Position `i` holds the one and only `@` of `s`.
pub open spec fn sole_separator(s: Seq<char>, i: int) -> bool {
    &&& 0 <= i < s.len()
    &&& s[i] == '@'
    &&& forall|j: int| 0 <= j < s.len() && j != i ==> s[j] != '@'
}

/// `s` holds exactly one `@`, with something on each side of it.
pub open spec fn is_well_formed_address(s: Seq<char>) -> bool {
    exists|i: int| 0 < i < s.len() - 1 && sole_separator(s, i)
}

/// The pair `(user, domain)` is a valid split of an address.
pub open spec fn valid_parts(user: Seq<char>, domain: Seq<char>) -> bool {
    &&& user.len() > 0
    &&& domain.len() > 0
    &&& no_separator(user)
    &&& no_separator(domain)
}

/// The discovery endpoint of an address.
pub open spec fn well_known_url_of(user: Seq<char>, domain: Seq<char>) -> Seq<char> {
    "https://"@ + domain + "/.well-known/lnurlp/"@ + user
}

/// Splits `user@domain` into its two parts. Fails with `MalformedAddress`
/// when the separator is missing or repeated, or when either part is empty.
pub fn parse_lnaddress(lnaddress: &str) -> (r: Result<Address, LnError>)
    ensures
        r is Ok <==> is_well_formed_address(lnaddress@),
        r is Ok ==> {
            let a = r->Ok_0;
            &&& valid_parts(a.username@, a.domain@)
            &&& lnaddress@ == a.username@ + seq!['@'] + a.domain@
        },
        r is Err ==> r->Err_0 is MalformedAddress,
{
    let n = lnaddress.unicode_len();
    let mut first: Option<usize> = None;
    let mut i: usize = 0;
    while i < n
        invariant
            n == lnaddress@.len(),
            i <= n,
            first is None ==> forall|j: int| 0 <= j < i ==> lnaddress@[j] != '@',
            first is Some ==> {
                let f = first->Some_0 as int;
                &&& f < i
                &&& lnaddress@[f] == '@'
                &&& forall|j: int| 0 <= j < i && j != f ==> lnaddress@[j] != '@'
            },
        decreases n - i,
    {
        if lnaddress.get_char(i) == '@' {
            match first {
                Some(f) => {
                    proof {
                        assert forall|k: int| !(0 < k < lnaddress@.len() - 1 && sole_separator(lnaddress@, k)) by {
                            if k == f as int {
                                assert(lnaddress@[i as int] == '@');
                            } else {
                                assert(lnaddress@[f as int] == '@');
                            }
                        }
                    }
                    return Err(LnError::MalformedAddress);
                },
                None => {
                    first = Some(i);
                },
            }
        }
        i = i + 1;
    }
    match first {
        None => {
            proof {
                assert forall|k: int| !(0 < k < lnaddress@.len() - 1 && sole_separator(lnaddress@, k)) by {
                    if 0 <= k < lnaddress@.len() {
                        assert(lnaddress@[k] != '@');
                    }
                }
            }
            Err(LnError::MalformedAddress)
        },
        Some(f) => {
            if f == 0 || f + 1 >= n {
                proof {
                    assert forall|k: int| !(0 < k < lnaddress@.len() - 1 && sole_separator(lnaddress@, k)) by {
                        if 0 < k < lnaddress@.len() - 1 && k != f as int {
                            assert(lnaddress@[f as int] == '@');
                        }
                    }
                }
                Err(LnError::MalformedAddress)
            } else {
                let user = String::from_str(lnaddress.substring_char(0, f));
                let domain = String::from_str(lnaddress.substring_char(f + 1, n));
                proof {
                    assert(sole_separator(lnaddress@, f as int));
                    assert(lnaddress@ =~= user@ + seq!['@'] + domain@);
                    assert forall|j: int| 0 <= j < user@.len() implies user@[j] != '@' by {
                        assert(user@[j] == lnaddress@[j]);
                    }
                    assert forall|j: int| 0 <= j < domain@.len() implies domain@[j] != '@' by {
                        assert(domain@[j] == lnaddress@[j + f + 1]);
                    }
                }
                Ok(Address { username: user, domain: domain })
            }
        },
    }
}

impl Address {
    /// The URL of the well-known discovery endpoint for this address.
    pub fn well_known_url(&self) -> (r: String)
        ensures
            r@ == well_known_url_of(self.username@, self.domain@),
    {
        let mut url = String::from_str("https://");
        url.append(self.domain.as_str());
        url.append("/.well-known/lnurlp/");
        url.append(self.username.as_str());
        url
    }
}

/// Joining two valid parts with `@` gives a well-formed address, and the
/// parts are the only valid split of it: parsing recovers them.
pub proof fn lemma_join_parses_back(user: Seq<char>, domain: Seq<char>)
    requires
        valid_parts(user, domain),
    ensures
        is_well_formed_address(user + seq!['@'] + domain),
        forall|u: Seq<char>, d: Seq<char>|
            valid_parts(u, d) && u + seq!['@'] + d == user + seq!['@'] + domain
                ==> u == user && d == domain,
{
    let s = user + seq!['@'] + domain;
    let k = user.len() as int;
    assert(s[k] == '@');
    assert forall|j: int| 0 <= j < s.len() && j != k implies s[j] != '@' by {
        if j < k {
            assert(s[j] == user[j]);
        } else {
            assert(s[j] == domain[j - k - 1]);
        }
    }
    assert(sole_separator(s, k));
    assert forall|u: Seq<char>, d: Seq<char>|
        valid_parts(u, d) && u + seq!['@'] + d == s implies u == user && d == domain by {
        let t = u + seq!['@'] + d;
        assert(t[u.len() as int] == '@');
        if u.len() < user.len() {
            assert(s[u.len() as int] == user[u.len() as int]);
        } else if u.len() > user.len() {
            assert(t[k] == u[k]);
        }
        assert(u =~= s.subrange(0, k));
        assert(d =~= s.subrange(k + 1, s.len() as int));
        assert(user =~= s.subrange(0, k));
        assert(domain =~= s.subrange(k + 1, s.len() as int));
    }
}

/// A string without any `@` is not a well-formed address.
pub proof fn lemma_no_separator_rejected(s: Seq<char>)
    requires
        no_separator(s),
    ensures
        !is_well_formed_address(s),
{
    assert forall|k: int| !(0 < k < s.len() - 1 && sole_separator(s, k)) by {
        if 0 <= k < s.len() {
            assert(s[k] != '@');
        }
    }
}

/// A string with two or more `@` is not a well-formed address.
pub proof fn lemma_repeated_separator_rejected(s: Seq<char>, i: int, j: int)
    requires
        0 <= i < j < s.len(),
        s[i] == '@',
        s[j] == '@',
    ensures
        !is_well_formed_address(s),
{
    assert forall|k: int| !(0 < k < s.len() - 1 && sole_separator(s, k)) by {
        if k == i {
            assert(s[j] == '@');
        } else {
            assert(s[i] == '@');
        }
    }
}

} // verus!
