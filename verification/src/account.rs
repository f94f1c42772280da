//! A benchmarking account description: signing account, buddy account and
//! network, written `signer:buddy:network`.
use vstd::prelude::*;

use crate::error::AppError;

verus! {

/// An account description: who signs, who receives, and on which network.
#[derive(Clone, Debug, Default)]
pub struct Account {
    pub signer_id: String,
    pub buddy_id: String,
    pub network: String,
}

/// `i` and `j` are the positions of the only two colons in `s` — the shape
/// a parsable account description has.
pub open spec fn spec_account_split(s: Seq<char>, i: int, j: int) -> bool {
    &&& 0 <= i < j < s.len()
    &&& s[i] == ':'
    &&& s[j] == ':'
    &&& forall|t: int| 0 <= t < s.len() && s[t] == ':' ==> t == i || t == j
}

impl Account {
    /// Builds an account description from its three components.
    pub fn new(signer_id: String, buddy_id: String, network: String) -> (r: Account)
        ensures
            r.signer_id@ == signer_id@,
            r.buddy_id@ == buddy_id@,
            r.network@ == network@,
    {
        Account { signer_id, buddy_id, network }
    }

    /// Parses `signer:buddy:network`: the description must hold exactly two
    /// colons, which cut it into the three components; anything else is an
    /// `AccountParseError` carrying the input.
    pub fn from_str(s: &str) -> (r: Result<Account, AppError>)
        ensures
            match r {
                Ok(a) => exists|i: int, j: int|
                    #[trigger] spec_account_split(s@, i, j) && a.signer_id@ == s@.subrange(0, i)
                        && a.buddy_id@ == s@.subrange(i + 1, j) && a.network@ == s@.subrange(
                        j + 1,
                        s@.len() as int,
                    ),
                Err(e) => (forall|i: int, j: int| !spec_account_split(s@, i, j)) && (match e {
                    AppError::AccountParseError(input) => input@ == s@,
                    _ => false,
                }),
            },
    {
        let len = s.unicode_len();
        let mut colons: usize = 0;
        let mut p1: usize = 0;
        let mut p2: usize = 0;
        let mut t: usize = 0;
        while t < len
            invariant
                t <= len,
                len == s@.len(),
                colons <= 2,
                colons >= 1 ==> p1 < t && s@[p1 as int] == ':',
                colons >= 2 ==> p1 < p2 < t && s@[p2 as int] == ':',
                forall|u: int|
                    0 <= u < t && s@[u] == ':' ==> (colons >= 1 && u == p1) || (colons >= 2 && u
                        == p2),
            decreases len - t,
        {
            if s.get_char(t) == ':' {
                if colons == 0 {
                    p1 = t;
                    colons = 1;
                } else if colons == 1 {
                    p2 = t;
                    colons = 2;
                } else {
                    proof {
                        assert forall|i: int, j: int| !spec_account_split(s@, i, j) by {
                            if spec_account_split(s@, i, j) {
                                assert(p1 as int == i || p1 as int == j);
                                assert(p2 as int == i || p2 as int == j);
                                assert(t as int == i || t as int == j);
                            }
                        }
                    }
                    return Err(AppError::AccountParseError(s.to_owned()));
                }
            }
            t += 1;
        }
        if colons == 2 {
            let signer_id = s.substring_char(0, p1).to_owned();
            let buddy_id = s.substring_char(p1 + 1, p2).to_owned();
            let network = s.substring_char(p2 + 1, len).to_owned();
            proof {
                assert(spec_account_split(s@, p1 as int, p2 as int));
            }
            Ok(Account { signer_id, buddy_id, network })
        } else {
            proof {
                assert forall|i: int, j: int| !spec_account_split(s@, i, j) by {
                    if spec_account_split(s@, i, j) {
                        assert(s@[i] == ':' && s@[j] == ':');
                        assert(colons >= 2);
                    }
                }
            }
            Err(AppError::AccountParseError(s.to_owned()))
        }
    }

    /// Renders the description back as `signer:buddy:network`.
    pub fn display_string(&self) -> (r: String)
        ensures
            r@ == self.signer_id@ + ":"@ + self.buddy_id@ + ":"@ + self.network@,
    {
        let mut out = self.signer_id.clone();
        out.append(":");
        out.append(self.buddy_id.as_str());
        out.append(":");
        out.append(self.network.as_str());
        out
    }
}

} // verus!
