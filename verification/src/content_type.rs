//! The content type of an upload request, and what it must hold.

use vstd::prelude::*;
use vstd::string::*;
use crate::error::UploadError;

verus! {

/// One `key=value` parameter of a media type.
#[derive(Debug, Clone, PartialEq, Eq)]
pub struct MediaParam {
    pub key: String,
    pub value: String,
}

/// A parsed `Content-Type` header: `top/sub` followed by its parameters in
/// the order in which the header lists them.
#[derive(Debug, Clone, PartialEq, Eq)]
pub struct ContentType {
    pub top: String,
    pub sub: String,
    pub params: Vec<MediaParam>,
}

/// The code point of `c`, with ASCII upper-case letters mapped to lower case.
pub open spec fn fold_ascii(c: char) -> u32 {
    if 'A' <= c && c <= 'Z' {
        (c as u32 + 32) as u32
    } else {
        c as u32
    }
}

/// `a` and `b` are equal up to the case of their ASCII letters.
pub open spec fn eq_ignore_ascii_case(a: Seq<char>, b: Seq<char>) -> bool {
    &&& a.len() == b.len()
    &&& forall|i: int| 0 <= i < a.len() ==> fold_ascii(#[trigger] a[i]) == fold_ascii(b[i])
}

/// `i` is the first parameter whose key is exactly `key`.
pub open spec fn is_first_param(params: Seq<MediaParam>, key: Seq<char>, i: int) -> bool {
    &&& 0 <= i < params.len()
    &&& params[i].key@ == key
    &&& forall|j: int| 0 <= j < i ==> (#[trigger] params[j]).key@ != key
}

/// No parameter has the key `key`.
pub open spec fn lacks_param(params: Seq<MediaParam>, key: Seq<char>) -> bool {
    forall|j: int| 0 <= j < params.len() ==> (#[trigger] params[j]).key@ != key
}

impl ContentType {
    /// The media type is `multipart/form-data`, in any letter case and
    /// whatever its parameters.
    pub open spec fn spec_is_form_data(&self) -> bool {
        &&& eq_ignore_ascii_case(self.top@, "multipart"@)
        &&& eq_ignore_ascii_case(self.sub@, "form-data"@)
    }

    /// `b` is the value of the first parameter named `boundary`.
    pub open spec fn has_boundary(&self, b: Seq<char>) -> bool {
        exists|i: int|
            is_first_param(self.params@, "boundary"@, i) && (#[trigger] self.params@[i]).value@
                == b
    }

    /// `r` is the verdict on this content type: the boundary when the
    /// media type is `multipart/form-data` and names one, `NotMultipart`
    /// for any other media type, `MissingBoundary` otherwise.
    pub open spec fn is_boundary_result(&self, r: Result<String, UploadError>) -> bool {
        match r {
            Ok(b) => self.spec_is_form_data() && self.has_boundary(b@),
            Err(e) => if self.spec_is_form_data() {
                e is MissingBoundary && lacks_param(self.params@, "boundary"@)
            } else {
                e is NotMultipart
            },
        }
    }

    /// Decides whether the media type is `multipart/form-data`.
    pub fn is_form_data(&self) -> (b: bool)
        ensures
            b == self.spec_is_form_data(),
    {
        text_eq_ignore_ascii_case(self.top.as_str(), "multipart") && text_eq_ignore_ascii_case(
            self.sub.as_str(),
            "form-data",
        )
    }

    /// The value of the first parameter whose key is exactly `key`.
    pub fn param(&self, key: &str) -> (value: Option<String>)
        ensures
            match value {
                Some(v) => exists|i: int|
                    is_first_param(self.params@, key@, i) && (#[trigger] self.params@[i]).value@
                        == v@,
                None => lacks_param(self.params@, key@),
            },
    {
        let wanted = String::from_str(key);
        let mut i: usize = 0;
        while i < self.params.len()
            invariant
                i <= self.params@.len(),
                wanted@ == key@,
                forall|j: int| 0 <= j < i ==> (#[trigger] self.params@[j]).key@ != key@,
            decreases self.params@.len() - i,
        {
            if self.params[i].key == wanted {
                let v = self.params[i].value.clone();
                return Some(v);
            }
            i += 1;
        }
        None
    }

    /// Checks that the request can carry an upload and hands out the
    /// boundary that delimits the parts of its body.
    ///
    /// Fails with `NotMultipart` exactly when the media type is not
    /// `multipart/form-data`, and with `MissingBoundary` exactly when it is
    /// but has no `boundary` parameter.
    pub fn boundary(&self) -> (r: Result<String, UploadError>)
        ensures
            self.is_boundary_result(r),
            r is Err ==> r->Err_0.spec_status() == 400,
    {
        if !self.is_form_data() {
            return Err(UploadError::NotMultipart);
        }
        match self.param("boundary") {
            Some(b) => Ok(b),
            None => Err(UploadError::MissingBoundary),
        }
    }
}

/// The code point of `c`, with ASCII upper-case letters mapped to lower case.
pub fn fold_ascii_char(c: char) -> (code: u32)
    ensures
        code == fold_ascii(c),
{
    if c >= 'A' && c <= 'Z' {
        c as u32 + 32
    } else {
        c as u32
    }
}

/// Compares two texts up to the case of their ASCII letters.
pub fn text_eq_ignore_ascii_case(a: &str, b: &str) -> (same: bool)
    ensures
        same == eq_ignore_ascii_case(a@, b@),
{
    let n: usize = a.unicode_len();
    if n != b.unicode_len() {
        return false;
    }
    let mut i: usize = 0;
    while i < n
        invariant
            n == a@.len(),
            n == b@.len(),
            i <= n,
            forall|j: int| 0 <= j < i ==> fold_ascii(#[trigger] a@[j]) == fold_ascii(b@[j]),
        decreases n - i,
    {
        if fold_ascii_char(a.get_char(i)) != fold_ascii_char(b.get_char(i)) {
            return false;
        }
        i += 1;
    }
    true
}

} // verus!
