//! URL normalization and the plausible-domain heuristic.

use vstd::prelude::*;
use vstd::string::*;
use crate::options::QrForgeError;

verus! {

/// The characters of the scheme prefix `http://`.
pub open spec fn http_prefix() -> Seq<char> {
    seq!['h', 't', 't', 'p', ':', '/', '/']
}

/// The characters of the scheme prefix `https://`.
pub open spec fn https_prefix() -> Seq<char> {
    seq!['h', 't', 't', 'p', 's', ':', '/', '/']
}

/// Whether the input already spells out one of the two accepted schemes.
pub open spec fn has_scheme(s: Seq<char>) -> bool {
    ||| (s.len() >= 7 && s.subrange(0, 7) == http_prefix())
    ||| (s.len() >= 8 && s.subrange(0, 8) == https_prefix())
}

/// The input with a scheme made explicit: inputs without one get `https://`
/// prepended, inputs with one pass through unchanged.
pub open spec fn normalized_url(s: Seq<char>) -> Seq<char> {
    if has_scheme(s) {
        s
    } else {
        https_prefix() + s
    }
}

/// The plausible-domain heuristic: the string contains at least one dot.
/// This does not validate real URL syntax.
pub open spec fn contains_dot(s: Seq<char>) -> bool {
    exists|i: int| 0 <= i < s.len() && s[i] == '.'
}

/// Whether `s` starts with `http://` or `https://`.
fn has_url_scheme(s: &str) -> (r: bool)
    ensures
        r == has_scheme(s@),
{
    let n = s.unicode_len();
    if n >= 7 && s.get_char(0) == 'h' && s.get_char(1) == 't' && s.get_char(2) == 't'
        && s.get_char(3) == 'p' {
        if s.get_char(4) == ':' && s.get_char(5) == '/' && s.get_char(6) == '/' {
            proof {
                assert(s@.subrange(0, 7) =~= http_prefix());
            }
            true
        } else if n >= 8 && s.get_char(4) == 's' && s.get_char(5) == ':' && s.get_char(6) == '/'
            && s.get_char(7) == '/' {
            proof {
                assert(s@.subrange(0, 8) =~= https_prefix());
            }
            true
        } else {
            proof {
                if s@.len() >= 7 && s@.subrange(0, 7) == http_prefix() {
                    assert(s@[4] == http_prefix()[4] && s@[5] == http_prefix()[5] && s@[6]
                        == http_prefix()[6]);
                }
                if s@.len() >= 8 && s@.subrange(0, 8) == https_prefix() {
                    assert(s@[4] == https_prefix()[4] && s@[5] == https_prefix()[5] && s@[6]
                        == https_prefix()[6] && s@[7] == https_prefix()[7]);
                }
            }
            false
        }
    } else {
        proof {
            if s@.len() >= 7 && s@.subrange(0, 7) == http_prefix() {
                assert(s@[0] == http_prefix()[0] && s@[1] == http_prefix()[1] && s@[2]
                    == http_prefix()[2] && s@[3] == http_prefix()[3]);
            }
            if s@.len() >= 8 && s@.subrange(0, 8) == https_prefix() {
                assert(s@[0] == https_prefix()[0] && s@[1] == https_prefix()[1] && s@[2]
                    == https_prefix()[2] && s@[3] == https_prefix()[3]);
            }
        }
        false
    }
}

/// Whether the string contains a dot.
fn has_dot(s: &str) -> (r: bool)
    ensures
        r == contains_dot(s@),
{
    let n = s.unicode_len();
    let mut i: usize = 0;
    while i < n
        invariant
            i <= n,
            n == s@.len(),
            forall|j: int| 0 <= j < i ==> s@[j] != '.',
        decreases n - i,
    {
        if s.get_char(i) == '.' {
            return true;
        }
        i = i + 1;
    }
    false
}

/// Normalizes a URL-like input and applies the plausible-domain check.
///
/// An input without an explicit `http://` or `https://` scheme has
/// `https://` prepended. The result is accepted exactly when it contains a
/// dot; otherwise the input is rejected as invalid.
pub fn validate_url(input: &str) -> (r: Result<String, QrForgeError>)
    ensures
        r is Ok <==> contains_dot(normalized_url(input@)),
        r matches Ok(u) ==> u@ == normalized_url(input@),
        r matches Err(e) ==> e == QrForgeError::InvalidInput,
{
    let url: String = if has_url_scheme(input) {
        input.to_owned()
    } else {
        proof {
            reveal_strlit("https://");
            assert("https://"@ =~= https_prefix());
        }
        let prefixed = String::from_str("https://");
        prefixed.concat(input)
    };
    if has_dot(url.as_str()) {
        Ok(url)
    } else {
        Err(QrForgeError::InvalidInput)
    }
}

} // verus!
