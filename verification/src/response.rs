//! The data side of the native HTTP glue layer.
//!
//! The glue hands back opaque response handles; everything read out of one
//! is a plain value (bytes, byte-string pairs, a status code).  This module
//! holds such a snapshot and computes the derived views the glue exposes:
//! canonical header-name casing, the empty-file convention, and the
//! status-code fallback.  The handle plumbing itself stays outside the
//! library.

use vstd::prelude::*;

verus! {

/// The ASCII code of `-`, the separator after which header casing restarts.
pub const DASH: u8 = 45;

/// ASCII upper-casing of one byte; every non-lowercase byte is unchanged.
pub open spec fn ascii_upper(c: u8) -> u8 {
    if 97 <= c <= 122 {
        (c - 32) as u8
    } else {
        c
    }
}

/// Canonical header casing: the first byte, and every byte following a
/// dash, is upper-cased; all other bytes are kept.
pub open spec fn header_cased(s: Seq<u8>) -> Seq<u8> {
    Seq::new(s.len(), |i: int| if i == 0 || s[i - 1] == DASH {
        ascii_upper(s[i])
    } else {
        s[i]
    })
}

/// Rewrites a raw header name into canonical casing: upper-cases the first
/// byte and each byte that follows a `-`, leaving every other byte alone.
pub fn transform_header_name(v: &[u8]) -> (r: Vec<u8>)
    ensures
        r@ == header_cased(v@),
{
    let mut ret: Vec<u8> = Vec::new();
    let mut upper_case = true;
    let n = v.len();
    let mut i: usize = 0;
    while i < n
        invariant
            n == v@.len(),
            i <= n,
            ret@.len() == i,
            upper_case == (i == 0 || v@[i as int - 1] == DASH),
            forall|j: int| 0 <= j < i ==> ret@[j] == header_cased(v@)[j],
        decreases n - i,
    {
        let ch = v[i];
        if upper_case {
            if 97 <= ch && ch <= 122 {
                ret.push(ch - 32);
            } else {
                ret.push(ch);
            }
            upper_case = false;
        } else {
            ret.push(ch);
        }
        if ch == DASH {
            upper_case = true;
        }
        i = i + 1;
    }
    proof {
        assert(ret@ =~= header_cased(v@));
    }
    ret
}

/// The status code reported when the raw status is not a valid HTTP
/// status code.
pub const FALLBACK_STATUS: u16 = 500;

/// Whether a raw status code is in the valid HTTP range.
pub open spec fn status_valid(raw: u16) -> bool {
    100 <= raw < 600
}

/// One response, snapshot as plain values: body bytes, the raw file-path
/// bytes (empty meaning none), raw header and cookie pairs, and the raw
/// status code.
pub struct Response {
    body: Vec<u8>,
    file: Vec<u8>,
    headers: Vec<(Vec<u8>, Vec<u8>)>,
    cookies: Vec<(Vec<u8>, Vec<u8>)>,
    status: u16,
}

impl Response {
    /// The body bytes of the snapshot.
    pub closed spec fn spec_body(self) -> Seq<u8> {
        self.body@
    }

    /// The raw file-path bytes of the snapshot.
    pub closed spec fn spec_file(self) -> Seq<u8> {
        self.file@
    }

    /// The raw header pairs of the snapshot.
    pub closed spec fn spec_headers(self) -> Seq<(Vec<u8>, Vec<u8>)> {
        self.headers@
    }

    /// The cookie pairs of the snapshot.
    pub closed spec fn spec_cookies(self) -> Seq<(Vec<u8>, Vec<u8>)> {
        self.cookies@
    }

    /// The raw status code of the snapshot.
    pub closed spec fn spec_status(self) -> u16 {
        self.status
    }

    /// Builds a response from the plain values read out of one raw
    /// response handle.
    pub fn from_raw(
        body: Vec<u8>,
        file: Vec<u8>,
        headers: Vec<(Vec<u8>, Vec<u8>)>,
        cookies: Vec<(Vec<u8>, Vec<u8>)>,
        status: u16,
    ) -> (r: Response)
        ensures
            r.spec_body() == body@,
            r.spec_file() == file@,
            r.spec_headers() == headers@,
            r.spec_cookies() == cookies@,
            r.spec_status() == status,
    {
        Response { body, file, headers, cookies, status }
    }

    /// The response body, as bytes.
    pub fn get_body(&self) -> (r: Vec<u8>)
        ensures
            r@ == self.spec_body(),
    {
        copy_bytes(&self.body)
    }

    /// The file this response serves, if any: an empty raw path means
    /// there is none.
    pub fn get_file(&self) -> (r: Option<Vec<u8>>)
        ensures
            self.spec_file().len() == 0 ==> r is None,
            self.spec_file().len() > 0 ==> (r matches Some(f) && f@ == self.spec_file()),
    {
        if self.file.len() == 0 {
            None
        } else {
            Some(copy_bytes(&self.file))
        }
    }

    /// The response headers: every name in canonical casing, every value
    /// kept as received, in order.
    pub fn get_headers(&self) -> (r: Vec<(Vec<u8>, Vec<u8>)>)
        ensures
            r@.len() == self.spec_headers().len(),
            forall|i: int|
                0 <= i < r@.len() ==> #[trigger] r@[i].0@ == header_cased(
                    self.spec_headers()[i].0@,
                ),
            forall|i: int| 0 <= i < r@.len() ==> #[trigger] r@[i].1@ == self.spec_headers()[i].1@,
    {
        let mut out: Vec<(Vec<u8>, Vec<u8>)> = Vec::new();
        let n = self.headers.len();
        let mut i: usize = 0;
        while i < n
            invariant
                n == self.headers@.len(),
                i <= n,
                out@.len() == i,
                forall|j: int|
                    0 <= j < i ==> #[trigger] out@[j].0@ == header_cased(self.headers@[j].0@),
                forall|j: int| 0 <= j < i ==> #[trigger] out@[j].1@ == self.headers@[j].1@,
            decreases n - i,
        {
            let key = transform_header_name(self.headers[i].0.as_slice());
            let value = copy_bytes(&self.headers[i].1);
            out.push((key, value));
            i = i + 1;
        }
        out
    }

    /// The cookie pairs, as received, in order.
    pub fn get_cookies(&self) -> (r: Vec<(Vec<u8>, Vec<u8>)>)
        ensures
            r@.len() == self.spec_cookies().len(),
            forall|i: int| 0 <= i < r@.len() ==> #[trigger] r@[i].0@ == self.spec_cookies()[i].0@,
            forall|i: int| 0 <= i < r@.len() ==> #[trigger] r@[i].1@ == self.spec_cookies()[i].1@,
    {
        let mut out: Vec<(Vec<u8>, Vec<u8>)> = Vec::new();
        let n = self.cookies.len();
        let mut i: usize = 0;
        while i < n
            invariant
                n == self.cookies@.len(),
                i <= n,
                out@.len() == i,
                forall|j: int| 0 <= j < i ==> #[trigger] out@[j].0@ == self.cookies@[j].0@,
                forall|j: int| 0 <= j < i ==> #[trigger] out@[j].1@ == self.cookies@[j].1@,
            decreases n - i,
        {
            let key = copy_bytes(&self.cookies[i].0);
            let value = copy_bytes(&self.cookies[i].1);
            out.push((key, value));
            i = i + 1;
        }
        out
    }

    /// The response status: the raw code when it is a valid HTTP status
    /// code, and the internal-server-error fallback otherwise.
    pub fn get_status(&self) -> (r: u16)
        ensures
            status_valid(self.spec_status()) ==> r == self.spec_status(),
            !status_valid(self.spec_status()) ==> r == FALLBACK_STATUS,
    {
        if 100 <= self.status && self.status < 600 {
            self.status
        } else {
            FALLBACK_STATUS
        }
    }
}

/// An owned copy of a byte vector.
fn copy_bytes(v: &Vec<u8>) -> (r: Vec<u8>)
    ensures
        r@ == v@,
{
    let mut out: Vec<u8> = Vec::new();
    let n = v.len();
    let mut i: usize = 0;
    while i < n
        invariant
            n == v@.len(),
            i <= n,
            out@.len() == i,
            forall|j: int| 0 <= j < i ==> out@[j] == v@[j],
        decreases n - i,
    {
        out.push(v[i]);
        i = i + 1;
    }
    proof {
        assert(out@ =~= v@);
    }
    out
}

} // verus!
