//! Responses as plain values: a status code, an ordered list of headers with one
//! value per name, and a body.

use vstd::prelude::*;
use crate::header::{Header, is_valid_value, to_lower, trim, trim_str};
use vstd::slice::slice_to_vec;
use vstd::string::StringSliceAdditionalSpecFns;

verus! {

/// What a response holds, for contracts.
pub struct ResponseView {
    pub status: u16,
    pub headers: Seq<(Seq<char>, Seq<char>)>,
    pub body: Seq<u8>,
}

/// The status kept for a requested code: the code itself when the protocol crate
/// accepts it, else 200.
pub open spec fn status_or_ok(code: u16) -> u16 {
    if 100 <= code <= 999 {
        code
    } else {
        200
    }
}

/// Some header in `hs` has the name `name`.
pub open spec fn has_name(hs: Seq<(Seq<char>, Seq<char>)>, name: Seq<char>) -> bool {
    exists|i: int| 0 <= i < hs.len() && #[trigger] hs[i].0 == name
}

/// The position of the first header in `hs` named `name`, when there is one.
pub open spec fn first_with_name(hs: Seq<(Seq<char>, Seq<char>)>, name: Seq<char>) -> int {
    choose|i: int|
        0 <= i < hs.len() && hs[i].0 == name && forall|j: int| 0 <= j < i ==> #[trigger] hs[j].0 != name
}

/// Holds of the headers whose name is not `name`.
pub open spec fn named_otherwise(name: Seq<char>) -> spec_fn((Seq<char>, Seq<char>)) -> bool {
    |e: (Seq<char>, Seq<char>)| e.0 != name
}

/// The header list after setting `h`: the headers before the first one of the same
/// name, then `h` in its place, then the later headers of other names; a new name
/// goes last.
pub open spec fn set_header(
    hs: Seq<(Seq<char>, Seq<char>)>,
    h: (Seq<char>, Seq<char>),
) -> Seq<(Seq<char>, Seq<char>)> {
    if has_name(hs, h.0) {
        let i = first_with_name(hs, h.0);
        hs.subrange(0, i).push(h) + hs.subrange(i + 1, hs.len() as int).filter(named_otherwise(h.0))
    } else {
        hs.push(h)
    }
}

pub open spec fn header_views(hs: Seq<Header>) -> Seq<(Seq<char>, Seq<char>)> {
    hs.map_values(|h: Header| h@)
}

#[verifier::external_type_specification]
#[verifier::external_body]
pub struct ExInvalidStatusCode(http::status::InvalidStatusCode);

/// Relies on `http::StatusCode::from_u16` and `StatusCode::as_u16`: codes 100 to 999
/// are accepted and kept as they are.
#[verifier::external_body]
fn status_from_u16(code: u16) -> (r: Result<u16, http::status::InvalidStatusCode>)
    ensures
        r.is_ok() <==> 100 <= code <= 999,
        r matches Ok(c) ==> c == code,
{
    match http::StatusCode::from_u16(code) {
        Ok(s) => Ok(s.as_u16()),
        Err(e) => Err(e),
    }
}

/// The status for a requested code, falling back to 200.
fn status_code(code: u16) -> (r: u16)
    ensures
        r == status_or_ok(code),
{
    match status_from_u16(code) {
        Ok(c) => c,
        Err(_) => 200,
    }
}

/// A response: status, headers and body.
pub struct Response {
    status: u16,
    headers: Vec<Header>,
    body: Vec<u8>,
}

impl View for Response {
    type V = ResponseView;

    closed spec fn view(&self) -> ResponseView {
        ResponseView { status: self.status, headers: header_views(self.headers@), body: self.body@ }
    }
}

impl Clone for Response {
    fn clone(&self) -> (r: Self)
        ensures
            r@ == self@,
    {
        proof {
            use_type_invariant(self);
        }
        let mut headers: Vec<Header> = Vec::new();
        let mut i: usize = 0;
        while i < self.headers.len()
            invariant
                i <= self.headers@.len(),
                header_views(headers@) == header_views(self.headers@.subrange(0, i as int)),
            decreases self.headers@.len() - i,
        {
            let ghost prev = headers@;
            let c = self.headers[i].clone();
            headers.push(c);
            assert(header_views(headers@) =~= header_views(prev).push(c@));
            assert(header_views(self.headers@.subrange(0, i as int + 1)) =~= header_views(
                self.headers@.subrange(0, i as int),
            ).push(self.headers@[i as int]@));
            i = i + 1;
        }
        assert(self.headers@.subrange(0, i as int) =~= self.headers@);
        Response { status: self.status, headers, body: slice_to_vec(self.body.as_slice()) }
    }
}

impl Response {
    #[verifier::type_invariant]
    spec fn inv(&self) -> bool {
        100 <= self.status <= 999
    }

    /// A 200 response with the given body and no headers.
    pub fn from_data(data: Vec<u8>) -> (r: Response)
        ensures
            r@.status == 200,
            r@.headers == Seq::<(Seq<char>, Seq<char>)>::empty(),
            r@.body == data@,
    {
        let r = Response { status: 200, headers: Vec::new(), body: data };
        assert(header_views(r.headers@) =~= Seq::<(Seq<char>, Seq<char>)>::empty());
        r
    }

    /// A 200 response whose body is the UTF-8 encoding of `s`, with no headers.
    pub fn from_string(s: &str) -> (r: Response)
        ensures
            r@.status == 200,
            r@.headers == Seq::<(Seq<char>, Seq<char>)>::empty(),
            r@.body == s.spec_bytes(),
    {
        Response::from_data(slice_to_vec(s.as_bytes()))
    }

    /// A response with the status for `code` (200 if the code is not accepted) and
    /// the UTF-8 encoding of `s` as body.
    pub fn from_status_and_string(code: u16, s: &str) -> (r: Response)
        ensures
            r@.status == status_or_ok(code),
            r@.headers == Seq::<(Seq<char>, Seq<char>)>::empty(),
            r@.body == s.spec_bytes(),
    {
        let status = status_code(code);
        let r = Response { status, headers: Vec::new(), body: slice_to_vec(s.as_bytes()) };
        assert(header_views(r.headers@) =~= Seq::<(Seq<char>, Seq<char>)>::empty());
        r
    }

    /// A response with the status for `status` (200 if not accepted) and no body.
    pub fn empty(status: u16) -> (r: Response)
        ensures
            r@.status == status_or_ok(status),
            r@.headers == Seq::<(Seq<char>, Seq<char>)>::empty(),
            r@.body == Seq::<u8>::empty(),
    {
        let status = status_code(status);
        let r = Response { status, headers: Vec::new(), body: Vec::new() };
        assert(header_views(r.headers@) =~= Seq::<(Seq<char>, Seq<char>)>::empty());
        r
    }

    /// The same response with the status for `code` (200 if not accepted).
    pub fn with_status_code(self, code: u16) -> (r: Response)
        ensures
            r@ == (ResponseView { status: status_or_ok(code), ..self@ }),
    {
        let status = status_code(code);
        Response { status, headers: self.headers, body: self.body }
    }

    /// The same response with `header` set: values of the same name are replaced.
    pub fn with_header(self, header: Header) -> (r: Response)
        ensures
            r@ == (ResponseView { headers: set_header(self@.headers, header@), ..self@ }),
    {
        proof {
            use_type_invariant(&self);
        }
        let ghost hs = header_views(self.headers@);
        let ghost name = header@.0;
        let ghost p = named_otherwise(name);
        let mut kept: Vec<Header> = Vec::new();
        let mut found = false;
        let ghost mut at: int = 0;
        let mut i: usize = 0;
        while i < self.headers.len()
            invariant
                i <= self.headers@.len(),
                hs == header_views(self.headers@),
                p == named_otherwise(name),
                name == header@.0,
                !found ==> header_views(kept@) == hs.subrange(0, i as int),
                !found ==> forall|j: int| 0 <= j < i ==> #[trigger] hs[j].0 != name,
                found ==> 0 <= at < i && hs[at].0 == name,
                found ==> forall|j: int| 0 <= j < at ==> #[trigger] hs[j].0 != name,
                found ==> header_views(kept@) == hs.subrange(0, at).push(header@) + hs.subrange(
                    at + 1,
                    i as int,
                ).filter(p),
            decreases self.headers@.len() - i,
        {
            let h = &self.headers[i];
            assert(hs[i as int] == h@);
            let ghost prev = kept@;
            if !h.same_name(&header) {
                let c = h.clone();
                kept.push(c);
                assert(header_views(kept@) =~= header_views(prev).push(h@));
                proof {
                    if found {
                        let tail = hs.subrange(at + 1, i as int);
                        assert(hs.subrange(at + 1, i as int + 1) =~= tail.push(h@));
                        tail.lemma_filter_push(h@, p);
                        assert(header_views(kept@) =~= hs.subrange(0, at).push(header@)
                            + hs.subrange(at + 1, i as int + 1).filter(p));
                    } else {
                        assert(hs.subrange(0, i as int + 1) =~= hs.subrange(0, i as int).push(h@));
                    }
                }
            } else if !found {
                let c = header.clone();
                kept.push(c);
                proof {
                    at = i as int;
                    assert(hs.subrange(at + 1, i as int + 1) =~= Seq::<(Seq<char>, Seq<char>)>::empty());
                    assert(header_views(kept@) =~= hs.subrange(0, at).push(header@) + hs.subrange(
                        at + 1,
                        i as int + 1,
                    ).filter(p));
                }
                found = true;
            } else {
                proof {
                    let tail = hs.subrange(at + 1, i as int);
                    assert(hs.subrange(at + 1, i as int + 1) =~= tail.push(h@));
                    tail.lemma_filter_push(h@, p);
                    assert(!p(h@));
                }
            }
            i = i + 1;
        }
        assert(self.headers@.subrange(0, i as int) =~= self.headers@);
        assert(hs.len() == i);
        if !found {
            assert(!has_name(hs, name));
            let ghost before = header_views(kept@);
            kept.push(header);
            assert(header_views(kept@) =~= before.push(header@));
            assert(header_views(kept@) == set_header(hs, header@));
        } else {
            assert(has_name(hs, name));
            assert(0 <= at < hs.len() && hs[at].0 == name && forall|j: int|
                0 <= j < at ==> #[trigger] hs[j].0 != name);
            let ghost c = first_with_name(hs, name);
            assert(c == at) by {
                if c < at {
                    assert(hs[c].0 != name);
                }
                if at < c {
                    assert(hs[at].0 != name);
                }
            }
            assert(header_views(kept@) == set_header(hs, header@));
        }
        Response { status: self.status, headers: kept, body: self.body }
    }

    /// The same response with a Content-Type header holding `value` without
    /// surrounding white space.
    pub fn with_content_type(self, value: &str) -> (r: Response)
        requires
            is_valid_value(trim(value@)),
        ensures
            r@ == (ResponseView {
                headers: set_header(self@.headers, (to_lower("Content-Type"@), trim(value@))),
                ..self@
            }),
    {
        let h = Header::new("Content-Type", trim_str(value));
        proof {
            reveal_strlit("Content-Type");
        }
        match h {
            Ok(h) => self.with_header(h),
            Err(_) => self,
        }
    }

    /// The status code, always in 100..=999.
    pub fn status(&self) -> (r: u16)
        ensures
            r == self@.status,
            100 <= r <= 999,
    {
        proof {
            use_type_invariant(self);
        }
        self.status
    }

    /// The headers, in order.
    pub fn headers(&self) -> (r: &[Header])
        ensures
            header_views(r@) == self@.headers,
    {
        self.headers.as_slice()
    }

    /// The body.
    pub fn body(&self) -> (r: &[u8])
        ensures
            r@ == self@.body,
    {
        self.body.as_slice()
    }
}

} // verus!
