//! The classified HTTP response record: a status line, a body, the serialized
//! byte buffer, and a classification used for logging. The serialized form is
//! always `<status line>\r\nContent-Length: <n>\r\n\r\n<body>`, with `<n>` the
//! body's byte length.

use crate::tools::text::{dec_chars, usize_to_string};
use vstd::prelude::*;
use vstd::utf8::encode_utf8;

verus! {

/// Classification of a finished response: success, client error (missing
/// document or malformed request), denied (failed login), or not yet decided.
#[derive(Debug, Clone, Copy, PartialEq, Eq, Structural)]
pub enum ResponseStatus {
    Success,  // 200
    Failed,  // 404
    Denied,  // 403
    Unknown,
}

/// One response under construction.
#[derive(Debug)]
pub struct Response {
    pub status_line: String,
    pub contents: String,
    pub response_data: String,
    pub response_status: ResponseStatus,
}

/// The byte length of `s` encoded as UTF-8, as `str::len` reports it (every
/// real string's length fits the machine word, so the clip is the identity).
pub open spec fn byte_len_of(s: Seq<char>) -> nat {
    (encode_utf8(s).len() as usize) as nat
}

/// The serialized response for a given status line and body: the status line,
/// a `Content-Length` header carrying the body's byte length, a blank line,
/// and the body.
pub open spec fn http_rendered(status_line: Seq<char>, contents: Seq<char>) -> Seq<char> {
    status_line + "\r\nContent-Length: "@ + dec_chars(byte_len_of(contents)) + "\r\n\r\n"@
        + contents
}

/// The status line for an error response, e.g. `HTTP/1.1 404 NOT FOUND`.
pub open spec fn error_status_line(code: nat, msg: Seq<char>) -> Seq<char> {
    "HTTP/1.1 "@ + dec_chars(code) + " "@ + msg
}

impl Response {
    /// A fresh, undecided response with every buffer empty.
    pub fn new() -> (r: Response)
        ensures
            r.status_line@ == Seq::<char>::empty(),
            r.contents@ == Seq::<char>::empty(),
            r.response_data@ == Seq::<char>::empty(),
            r.response_status == ResponseStatus::Unknown,
    {
        Response {
            status_line: String::new(),
            contents: String::new(),
            response_data: String::new(),
            response_status: ResponseStatus::Unknown,
        }
    }

    /// Serializes the current status line and body.
    pub fn format_response(&self) -> (r: String)
        ensures
            r@ == http_rendered(self.status_line@, self.contents@),
    {
        let mut out = self.status_line.clone();
        out.append("\r\nContent-Length: ");
        let len_str = usize_to_string(self.contents.as_str().len());
        out.append(len_str.as_str());
        out.append("\r\n\r\n");
        out.append(self.contents.as_str());
        proof {
            assert(out@ =~= http_rendered(self.status_line@, self.contents@));
        }
        out
    }

    /// Records a document that was found: a `200 OK` response holding the
    /// document's contents. A missing document (`None`) becomes the `404`
    /// error response instead.
    pub fn format_file(&mut self, contents: Option<String>)
        ensures
            match contents {
                Some(c) => {
                    &&& final(self).status_line@ == "HTTP/1.1 200 OK"@
                    &&& final(self).contents@ == c@
                    &&& final(self).response_data@ == http_rendered("HTTP/1.1 200 OK"@, c@)
                    &&& final(self).response_status == ResponseStatus::Success
                },
                None => {
                    &&& final(self).status_line@ == error_status_line(404, "NOT FOUND"@)
                    &&& final(self).contents@ == "NOT FOUND"@
                    &&& final(self).response_data@ == http_rendered(
                        error_status_line(404, "NOT FOUND"@),
                        "NOT FOUND"@,
                    )
                    &&& final(self).response_status == ResponseStatus::Failed
                },
            },
    {
        match contents {
            Some(c) => {
                self.status_line = "HTTP/1.1 200 OK".to_owned();
                self.contents = c;
                let data = self.format_response();
                self.response_data = data;
                self.response_status = ResponseStatus::Success;
            },
            None => {
                let data = self.error(404, "NOT FOUND");
                self.response_data = data;
                self.response_status = ResponseStatus::Failed;
            },
        }
    }

    /// Records a bare success acknowledgment: status line `HTTP/1.1 200` with
    /// the given message as the body.
    pub fn format_status(&mut self, message: &str)
        ensures
            final(self).status_line@ == "HTTP/1.1 200"@,
            final(self).contents@ == message@,
            final(self).response_data@ == http_rendered("HTTP/1.1 200"@, message@),
            final(self).response_status == ResponseStatus::Success,
    {
        self.status_line = "HTTP/1.1 200".to_owned();
        self.contents = message.to_owned();
        let data = self.format_response();
        self.response_data = data;
        self.response_status = ResponseStatus::Success;
    }

    /// Records the `404 NOT FOUND` response for a missing document or a
    /// malformed request.
    pub fn format_404(&mut self)
        ensures
            final(self).status_line@ == error_status_line(404, "NOT FOUND"@),
            final(self).contents@ == "NOT FOUND"@,
            final(self).response_data@ == http_rendered(
                error_status_line(404, "NOT FOUND"@),
                "NOT FOUND"@,
            ),
            final(self).response_status == ResponseStatus::Failed,
    {
        let data = self.error(404, "NOT FOUND");
        self.response_data = data;
        self.response_status = ResponseStatus::Failed;
    }

    /// Records an error response with the given code and reason; `403` is
    /// classified as denied, everything else as failed.
    pub fn format_error(&mut self, error_type: usize, error_msg: &str)
        ensures
            final(self).status_line@ == error_status_line(error_type as nat, error_msg@),
            final(self).contents@ == error_msg@,
            final(self).response_data@ == http_rendered(
                error_status_line(error_type as nat, error_msg@),
                error_msg@,
            ),
            final(self).response_status == (if error_type == 403 {
                ResponseStatus::Denied
            } else {
                ResponseStatus::Failed
            }),
    {
        self.response_status = if error_type == 403 {
            ResponseStatus::Denied
        } else {
            ResponseStatus::Failed
        };
        let data = self.error(error_type, error_msg);
        self.response_data = data;
    }

    /// Sets the status line and body for an error and returns the serialized
    /// response, leaving the classification and the stored buffer untouched.
    pub fn error(&mut self, error_type: usize, error_msg: &str) -> (r: String)
        ensures
            final(self).status_line@ == error_status_line(error_type as nat, error_msg@),
            final(self).contents@ == error_msg@,
            final(self).response_data == old(self).response_data,
            final(self).response_status == old(self).response_status,
            r@ == http_rendered(error_status_line(error_type as nat, error_msg@), error_msg@),
    {
        let mut line = "HTTP/1.1 ".to_owned();
        let code = usize_to_string(error_type);
        line.append(code.as_str());
        line.append(" ");
        line.append(error_msg);
        proof {
            assert(line@ =~= error_status_line(error_type as nat, error_msg@));
        }
        self.status_line = line;
        self.contents = error_msg.to_owned();
        self.format_response()
    }
}

} // verus!
