//! The identifier resolver: derives and validates the filesystem-safe
//! container id of a pull request. The id becomes a directory name and a
//! subprocess argument, so anything outside `[A-Za-z0-9._-]`, the empty
//! string, `.` and `..` are rejected.

use vstd::prelude::*;
use vstd::string::StrSliceExecFns;
use vstd::string::StringExecFns;

use crate::errors::PullError;
use crate::strutil::last_segment;
use crate::strutil::last_segment_of;
use crate::strutil::replace_colons;
use crate::strutil::replace_colons_in;

verus! {

/// One pull request, as handed in by the transport layer: an image
/// reference, an optional explicit container id (empty when absent), and
/// optional source credentials (empty when absent).
pub struct PullRequest {
    pub image: String,
    pub container_id: String,
    pub source_creds: String,
}

/// Letters, digits, `.`, `_` and `-`: the characters a container id may hold.
pub open spec fn is_safe_cid_char(c: char) -> bool {
    ||| 'a' as u32 <= c as u32 && c as u32 <= 'z' as u32
    ||| 'A' as u32 <= c as u32 && c as u32 <= 'Z' as u32
    ||| '0' as u32 <= c as u32 && c as u32 <= '9' as u32
    ||| c == '.'
    ||| c == '_'
    ||| c == '-'
}

/// The container-id invariant: non-empty, only safe characters, and neither
/// `.` nor `..` (the id names a directory).
pub open spec fn valid_cid(s: Seq<char>) -> bool {
    &&& s.len() > 0
    &&& s != seq!['.']
    &&& s != seq!['.', '.']
    &&& forall|i: int| 0 <= i < s.len() ==> is_safe_cid_char(s[i])
}

/// The id a request asks for before validation: the explicit id verbatim
/// when one is given, otherwise the image reference's final path segment
/// with every `:` replaced by `_`.
pub open spec fn candidate_cid(image: Seq<char>, explicit: Seq<char>) -> Seq<char> {
    if explicit.len() > 0 {
        explicit
    } else {
        replace_colons(last_segment(image))
    }
}

/// Checks the container-id invariant.
pub fn verify_cid(s: &str) -> (r: bool)
    ensures
        r == valid_cid(s@),
{
    let n: usize = s.unicode_len();
    if n == 0 {
        return false;
    }
    if n == 1 && s.get_char(0) == '.' {
        proof {
            assert(s@ =~= seq!['.']);
        }
        return false;
    }
    if n == 2 && s.get_char(0) == '.' && s.get_char(1) == '.' {
        proof {
            assert(s@ =~= seq!['.', '.']);
        }
        return false;
    }
    let mut i: usize = 0;
    while i < n
        invariant
            n == s@.len(),
            i <= n,
            forall|j: int| 0 <= j < i ==> is_safe_cid_char(s@[j]),
        decreases n - i,
    {
        let c = s.get_char(i);
        let u = c as u32;
        let safe = ('a' as u32 <= u && u <= 'z' as u32) || ('A' as u32 <= u && u <= 'Z' as u32)
            || ('0' as u32 <= u && u <= '9' as u32) || c == '.' || c == '_' || c == '-';
        if !safe {
            return false;
        }
        i = i + 1;
    }
    proof {
        if s@ == seq!['.'] {
            assert(s@.len() == 1);
        }
        if s@ == seq!['.', '.'] {
            assert(s@.len() == 2);
        }
    }
    true
}

/// Determines the container id to use for a request: the candidate id
/// (explicit, or derived from the image reference), accepted exactly when it
/// meets the container-id invariant. Pure: no I/O, no shared state.
pub fn cid_from_request(req: &PullRequest) -> (r: Result<String, PullError>)
    ensures
        match r {
            Ok(cid) => valid_cid(cid@) && cid@ == candidate_cid(req.image@, req.container_id@),
            Err(e) => {
                &&& e == PullError::InvalidContainerId
                &&& !valid_cid(candidate_cid(req.image@, req.container_id@))
            },
        },
{
    let explicit: &str = req.container_id.as_str();
    let cid: String = if !explicit.is_empty() {
        String::from_str(explicit)
    } else {
        let seg = last_segment_of(req.image.as_str());
        replace_colons_in(seg)
    };
    if verify_cid(cid.as_str()) {
        Ok(cid)
    } else {
        Err(PullError::InvalidContainerId)
    }
}

} // verus!
