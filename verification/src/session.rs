//! Session token resolution.
//!
//! Every score-affecting operation starts here: the bearer token is
//! extracted from the request's cookie headers, and the identity stored
//! for it decides whose day-status may be touched.  A request without the
//! named cookie fails `Unauthenticated`; a presented token that the token
//! store does not know fails `InvalidToken`.  Both failures come before
//! any write.  Tokens never expire; only removal from the store ends a
//! session.

use vstd::prelude::*;

use crate::errors::ApiError;

verus! {

/// The name/value pairs the cookie-header grammar yields for one header,
/// in header order.  Left abstract: the parse is delegated to the cookie
/// crate, whose result depends on the header text alone.
pub uninterp spec fn cookies_of(header: Seq<char>) -> Seq<(Seq<char>, Seq<char>)>;

/// Relies on `cookie::Cookie::split_parse`: splits one `Cookie` header
/// into name/value pairs, dropping the malformed entries.
#[verifier::external_body]
fn split_cookie_header(header: &String) -> (r: Vec<(String, String)>)
    ensures
        r@.map_values(|p: (String, String)| (p.0@, p.1@)) == cookies_of(header@),
{
    let mut out: Vec<(String, String)> = Vec::new();
    for parsed in cookie::Cookie::split_parse(header.as_str()) {
        match parsed {
            Ok(c) => out.push((c.name().to_owned(), c.value().to_owned())),
            Err(_) => {},
        }
    }
    out
}

/// Value of the first cookie with the given name among parsed pairs.
pub open spec fn find_cookie(
    cookies: Seq<(Seq<char>, Seq<char>)>,
    name: Seq<char>,
) -> Option<Seq<char>>
    decreases cookies.len(),
{
    if cookies.len() == 0 {
        None
    } else if cookies.first().0 == name {
        Some(cookies.first().1)
    } else {
        find_cookie(cookies.drop_first(), name)
    }
}

/// Value of the first cookie with the given name across the request's
/// `Cookie` headers, scanned in header order.
pub open spec fn find_cookie_in_headers(
    headers: Seq<Seq<char>>,
    name: Seq<char>,
) -> Option<Seq<char>>
    decreases headers.len(),
{
    if headers.len() == 0 {
        None
    } else {
        match find_cookie(cookies_of(headers.first()), name) {
            Some(v) => Some(v),
            None => find_cookie_in_headers(headers.drop_first(), name),
        }
    }
}

/// Views of the raw header values.
pub open spec fn header_views(headers: Seq<String>) -> Seq<Seq<char>> {
    headers.map_values(|h: String| h@)
}

/// Extracts the value of the named cookie from the request's `Cookie`
/// headers: the first pair with that name wins, malformed entries are
/// skipped.
pub fn get_cookie(headers: &Vec<String>, key: &String) -> (r: Option<String>)
    ensures
        match r {
            Some(v) => find_cookie_in_headers(header_views(headers@), key@) == Some(v@),
            None => find_cookie_in_headers(header_views(headers@), key@) is None,
        },
{
    let ghost hs = header_views(headers@);
    let mut i: usize = 0;
    proof {
        assert(hs.subrange(0, hs.len() as int) =~= hs);
    }
    while i < headers.len()
        invariant
            0 <= i <= headers@.len(),
            hs == header_views(headers@),
            find_cookie_in_headers(hs, key@) == find_cookie_in_headers(
                hs.subrange(i as int, hs.len() as int),
                key@,
            ),
        decreases headers@.len() - i,
    {
        let pairs = split_cookie_header(&headers[i]);
        let ghost cs = cookies_of(hs[i as int]);
        let mut j: usize = 0;
        proof {
            assert(cs.subrange(0, cs.len() as int) =~= cs);
        }
        while j < pairs.len()
            invariant
                0 <= j <= pairs@.len(),
                0 <= i < headers@.len(),
                hs == header_views(headers@),
                cs == cookies_of(hs[i as int]),
                cs == pairs@.map_values(|p: (String, String)| (p.0@, p.1@)),
                find_cookie_in_headers(hs, key@) == find_cookie_in_headers(
                    hs.subrange(i as int, hs.len() as int),
                    key@,
                ),
                find_cookie(cs, key@) == find_cookie(
                    cs.subrange(j as int, cs.len() as int),
                    key@,
                ),
            decreases pairs@.len() - j,
        {
            let ghost rest = cs.subrange(j as int, cs.len() as int);
            if pairs[j].0 == *key {
                proof {
                    assert(rest.first() == cs[j as int]);
                    assert(cs[j as int].0 == key@);
                    assert(find_cookie(cs, key@) == Some(cs[j as int].1));
                    let tail = hs.subrange(i as int, hs.len() as int);
                    assert(tail.first() == hs[i as int]);
                    assert(find_cookie_in_headers(hs, key@) == Some(cs[j as int].1));
                }
                return Some(pairs[j].1.clone());
            }
            proof {
                assert(rest.first() == cs[j as int]);
                assert(rest.drop_first() =~= cs.subrange(j as int + 1, cs.len() as int));
            }
            j += 1;
        }
        proof {
            assert(cs.subrange(cs.len() as int, cs.len() as int) =~= Seq::<(
                Seq<char>,
                Seq<char>,
            )>::empty());
            let tail = hs.subrange(i as int, hs.len() as int);
            assert(tail.first() == hs[i as int]);
            assert(tail.drop_first() =~= hs.subrange(i as int + 1, hs.len() as int));
        }
        i += 1;
    }
    proof {
        assert(hs.subrange(hs.len() as int, hs.len() as int) =~= Seq::<Seq<char>>::empty());
    }
    None
}

/// Demands a session token: a request without one fails `Unauthenticated`
/// before anything else happens.
pub fn require_token(token: Option<String>) -> (r: Result<String, ApiError>)
    ensures
        match token {
            Some(t) => r == Ok::<String, ApiError>(t),
            None => r == Err::<String, ApiError>(ApiError::Unauthenticated),
        },
{
    match token {
        Some(t) => Ok(t),
        None => Err(ApiError::Unauthenticated),
    }
}

/// Judges the token store's answer for a classroom token: a token the
/// store does not know fails `InvalidToken`, a known one resolves to the
/// stored classroom.
pub fn resolve_class_row(found: Option<String>) -> (r: Result<String, ApiError>)
    ensures
        match found {
            Some(class_id) => r == Ok::<String, ApiError>(class_id),
            None => r == Err::<String, ApiError>(ApiError::InvalidToken),
        },
{
    match found {
        Some(class_id) => Ok(class_id),
        None => Err(ApiError::InvalidToken),
    }
}

/// Identity a student token resolves to: the classroom and the student
/// within it.
#[derive(Clone, Debug)]
pub struct StudentInfo {
    /// Classroom the student belongs to.
    pub class_id: String,
    /// Student within the classroom.
    pub student_id: i64,
}

/// Judges the token store's answer for a student token, mirror of
/// [`resolve_class_row`].
pub fn resolve_student_row(found: Option<StudentInfo>) -> (r: Result<StudentInfo, ApiError>)
    ensures
        match found {
            Some(info) => r == Ok::<StudentInfo, ApiError>(info),
            None => r == Err::<StudentInfo, ApiError>(ApiError::InvalidToken),
        },
{
    match found {
        Some(info) => Ok(info),
        None => Err(ApiError::InvalidToken),
    }
}

} // verus!
