//! The request as the application sees it: its method, path, headers and
//! body, with a cursor into the body for sequential reads, and the
//! environment that is built around it.

use vstd::prelude::*;
use vstd::string::*;
use crate::header::HeaderField;

verus! {

/// The byte that ends a line of the body.
pub const NEWLINE: u8 = 10;

/// What a request is, as mathematical data.
pub struct RequestView {
    pub path: Seq<char>,
    pub headers: Seq<HeaderField>,
    pub method: Seq<char>,
    pub body: Seq<u8>,
    /// How many bytes of the body have been read so far.
    pub cursor: nat,
}

/// One request, owned by whoever serves it. Reading moves the cursor forward
/// over the body and changes nothing else.
#[derive(Debug)]
pub struct BussardRequest {
    path: String,
    header_map: Vec<HeaderField>,
    method: String,
    body: Vec<u8>,
    _index: usize,
}

impl View for BussardRequest {
    type V = RequestView;

    closed spec fn view(&self) -> RequestView {
        RequestView {
            path: self.path@,
            headers: self.header_map@,
            method: self.method@,
            body: self.body@,
            cursor: self._index as nat,
        }
    }
}

/// How many bytes a read hands out: all that remain where no size is given,
/// else the smaller of the size and what remains.
pub open spec fn read_len(remaining: int, size: Option<usize>) -> int {
    match size {
        Some(n) => if n < remaining {
            n as int
        } else {
            remaining
        },
        None => remaining,
    }
}

/// The length of the line that starts at `start`: up to and including the
/// first newline, or up to the end of the body where none follows.
pub open spec fn line_len_from(body: Seq<u8>, start: int) -> int
    decreases body.len() - start,
{
    if start < 0 || start >= body.len() {
        0
    } else if body[start] == NEWLINE {
        1
    } else {
        1 + line_len_from(body, start + 1)
    }
}

/// The request after `k` more bytes have been read.
pub open spec fn advanced(req: RequestView, k: int) -> RequestView {
    RequestView { cursor: (req.cursor + k) as nat, ..req }
}

/// The next `k` bytes of the body.
pub open spec fn next_bytes(req: RequestView, k: int) -> Seq<u8> {
    req.body.subrange(req.cursor as int, req.cursor + k)
}

impl BussardRequest {
    #[verifier::type_invariant]
    spec fn cursor_in_body(&self) -> bool {
        self._index <= self.body.len()
    }

    /// A request whose body has not been read yet.
    pub fn new(path: String, header_map: Vec<HeaderField>, method: String, body: Vec<u8>) -> (r:
        BussardRequest)
        ensures
            r@ == (RequestView {
                path: path@,
                headers: header_map@,
                method: method@,
                body: body@,
                cursor: 0,
            }),
    {
        BussardRequest { path, header_map, method, body, _index: 0 }
    }

    /// Hands out the bytes from `start` to `end` of the body.
    fn copy_range(&self, start: usize, end: usize) -> (r: Vec<u8>)
        requires
            start <= end <= self@.body.len(),
        ensures
            r@ == self@.body.subrange(start as int, end as int),
    {
        let mut r: Vec<u8> = Vec::new();
        let mut i: usize = start;
        while i < end
            invariant
                start <= i <= end <= self.body.len(),
                r@ == self.body@.subrange(start as int, i as int),
            decreases end - i,
        {
            r.push(self.body[i]);
            assert(self.body@.subrange(start as int, i as int).push(self.body@[i as int])
                =~= self.body@.subrange(start as int, i + 1));
            i += 1;
        }
        r
    }

    /// Reads from the body: the next `size` bytes, or all that remain where
    /// fewer remain or no size is given. At the end of the body the result is
    /// empty.
    pub fn read(&mut self, size: Option<usize>) -> (r: Vec<u8>)
        ensures
            old(self)@.cursor <= old(self)@.body.len(),
            r@ == next_bytes(
                old(self)@,
                read_len(old(self)@.body.len() - old(self)@.cursor, size),
            ),
            final(self)@ == advanced(
                old(self)@,
                read_len(old(self)@.body.len() - old(self)@.cursor, size),
            ),
    {
        proof {
            use_type_invariant(&*self);
        }
        let start: usize = self._index;
        let remaining: usize = self.body.len() - start;
        let to_get: usize = match size {
            Some(n) => if n < remaining {
                n
            } else {
                remaining
            },
            None => remaining,
        };
        let result = self.copy_range(start, start + to_get);
        self._index = start + to_get;
        result
    }

    /// Reads one line from the body: up to and including the next newline,
    /// or to the end of the body where none follows, but never more than
    /// `size` bytes where a size is given.
    pub fn readline(&mut self, size: Option<usize>) -> (r: Vec<u8>)
        ensures
            old(self)@.cursor <= old(self)@.body.len(),
            r@ == next_bytes(
                old(self)@,
                read_len(line_len_from(old(self)@.body, old(self)@.cursor as int), size),
            ),
            final(self)@ == advanced(
                old(self)@,
                read_len(line_len_from(old(self)@.body, old(self)@.cursor as int), size),
            ),
    {
        proof {
            use_type_invariant(&*self);
        }
        let start: usize = self._index;
        let n: usize = self.body.len();
        let mut end: usize = start;
        while end < n && self.body[end] != NEWLINE
            invariant
                start <= end <= n,
                n == self.body.len(),
                line_len_from(self.body@, start as int) == (end - start) + line_len_from(
                    self.body@,
                    end as int,
                ),
            decreases n - end,
        {
            end += 1;
        }
        if end < n {
            end += 1;
        }
        let line: usize = end - start;
        let to_get: usize = match size {
            Some(limit) => if limit < line {
                limit
            } else {
                line
            },
            None => line,
        };
        let result = self.copy_range(start, start + to_get);
        self._index = start + to_get;
        result
    }

    pub fn path(&self) -> (r: &str)
        ensures
            r@ == self@.path,
    {
        self.path.as_str()
    }

    pub fn method(&self) -> (r: &str)
        ensures
            r@ == self@.method,
    {
        self.method.as_str()
    }

    pub fn header_map(&self) -> (r: &Vec<HeaderField>)
        ensures
            r@ == self@.headers,
    {
        &self.header_map
    }

    pub fn body(&self) -> (r: &Vec<u8>)
        ensures
            r@ == self@.body,
    {
        &self.body
    }

    /// How many bytes of the body have been read.
    pub fn position(&self) -> (r: usize)
        ensures
            r == self@.cursor,
            r <= self@.body.len(),
    {
        proof {
            use_type_invariant(self);
        }
        self._index
    }
}

} // verus!
