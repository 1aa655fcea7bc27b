//! The test-function adapter: a closed set of call shapes a registered
//! function may take — bare path, path with the file's text, path with the
//! file's bytes — unified behind one tagged value, so the rest of the
//! harness need not know which shape was registered.
//!
//! The functions themselves live with the caller that drives the run; a
//! shape value carries the registration index of its function. Preparing a
//! call decides, from the shape alone, whether the file's contents are
//! needed and how they are handed over: text shapes get the contents
//! decoded as UTF-8, and a decode failure is a harness-level failure that
//! never reaches the registered function.

use vstd::prelude::*;

verus! {

use crate::strutil::to_owned_string;
use vstd::string::StringExecFns;
use vstd::utf8::decode_utf8;
use vstd::utf8::valid_utf8;

/// A registered function that takes only a path. The variants record
/// whether it was declared over a platform path or a UTF-8 path; each holds
/// the registration index of the function.
#[derive(Clone, Copy, Debug, PartialEq, Eq, Structural)]
pub enum TestFnBase {
    /// Shape `fn(&Path) -> Result`.
    Path(usize),
    /// Shape `fn(&Utf8Path) -> Result`.
    Utf8Path(usize),
}

/// A registered function that takes a path and the file's contents as text.
#[derive(Clone, Copy, Debug, PartialEq, Eq, Structural)]
pub enum TestFnLoadString {
    /// Shape `fn(&Path, String) -> Result`.
    Path(usize),
    /// Shape `fn(&Utf8Path, String) -> Result`.
    Utf8Path(usize),
}

/// A registered function that takes a path and the file's raw bytes.
#[derive(Clone, Copy, Debug, PartialEq, Eq, Structural)]
pub enum TestFnLoadBinary {
    /// Shape `fn(&Path, Vec<u8>) -> Result`.
    Path(usize),
    /// Shape `fn(&Utf8Path, Vec<u8>) -> Result`.
    Utf8Path(usize),
}

/// The shape under which a test function was registered: one variant is
/// active per registration, chosen at registration time and never inferred
/// from file contents.
#[derive(Clone, Copy, Debug, PartialEq, Eq, Structural)]
pub enum TestFn {
    /// The function works on the path alone.
    Base(TestFnBase),
    /// The function also takes the file's contents as UTF-8 text.
    LoadString(TestFnLoadString),
    /// The function also takes the file's contents as raw bytes.
    LoadBinary(TestFnLoadBinary),
}

/// What a prepared call hands to the registered function besides the path.
pub enum PreparedInput {
    /// The function is called with the path alone.
    PathOnly,
    /// The function is called with the file's contents, decoded as text.
    Text(String),
    /// The function is called with the file's raw bytes.
    Binary(Vec<u8>),
}

/// The failure message for a file whose contents are not valid UTF-8.
pub open spec fn utf8_failure_message(path: Seq<char>) -> Seq<char> {
    "error reading file '"@ + path + "' as UTF-8"@
}

/// Relies on `String::from_utf8`: it succeeds exactly on valid UTF-8 input
/// and yields that input's decoding.
#[verifier::external_body]
fn string_from_utf8(bytes: Vec<u8>) -> (r: Option<String>)
    ensures
        r is Some <==> valid_utf8(bytes@),
        r matches Some(s) ==> s@ == decode_utf8(bytes@),
{
    match String::from_utf8(bytes) {
        Ok(s) => Some(s),
        Err(_) => None,
    }
}

impl TestFnBase {
    /// The registration index of the function.
    pub open spec fn spec_fn_id(&self) -> usize {
        match self {
            TestFnBase::Path(f) => *f,
            TestFnBase::Utf8Path(f) => *f,
        }
    }
}

impl TestFnLoadString {
    /// The registration index of the function.
    pub open spec fn spec_fn_id(&self) -> usize {
        match self {
            TestFnLoadString::Path(f) => *f,
            TestFnLoadString::Utf8Path(f) => *f,
        }
    }

    /// Decodes the file's contents as text for the function, or builds the
    /// harness-level failure for contents that are not UTF-8.
    pub fn prepare(&self, path: &str, contents: Vec<u8>) -> (r: Result<String, String>)
        ensures
            r is Ok <==> valid_utf8(contents@),
            r matches Ok(t) ==> t@ == decode_utf8(contents@),
            r matches Err(m) ==> m@ == utf8_failure_message(path@),
    {
        match string_from_utf8(contents) {
            Some(t) => Ok(t),
            None => {
                let mut m = to_owned_string("error reading file '");
                m.append(path);
                m.append("' as UTF-8");
                proof {
                    assert(m@ =~= utf8_failure_message(path@));
                }
                Err(m)
            },
        }
    }
}

impl TestFnLoadBinary {
    /// The registration index of the function.
    pub open spec fn spec_fn_id(&self) -> usize {
        match self {
            TestFnLoadBinary::Path(f) => *f,
            TestFnLoadBinary::Utf8Path(f) => *f,
        }
    }
}

impl TestFn {
    /// The registration index of the bound function.
    pub open spec fn spec_fn_id(&self) -> usize {
        match self {
            TestFn::Base(f) => f.spec_fn_id(),
            TestFn::LoadString(f) => f.spec_fn_id(),
            TestFn::LoadBinary(f) => f.spec_fn_id(),
        }
    }

    /// Returns the registration index of the bound function.
    pub fn fn_id(&self) -> (r: usize)
        ensures
            r == self.spec_fn_id(),
    {
        match self {
            TestFn::Base(TestFnBase::Path(f)) => *f,
            TestFn::Base(TestFnBase::Utf8Path(f)) => *f,
            TestFn::LoadString(TestFnLoadString::Path(f)) => *f,
            TestFn::LoadString(TestFnLoadString::Utf8Path(f)) => *f,
            TestFn::LoadBinary(TestFnLoadBinary::Path(f)) => *f,
            TestFn::LoadBinary(TestFnLoadBinary::Utf8Path(f)) => *f,
        }
    }

    /// Only the path-only shape can run without the file's contents.
    pub open spec fn spec_needs_contents(&self) -> bool {
        !(self is Base)
    }

    /// Says whether the file's contents must be loaded before the call.
    pub fn needs_contents(&self) -> (r: bool)
        ensures
            r == self.spec_needs_contents(),
    {
        match self {
            TestFn::Base(_) => false,
            TestFn::LoadString(_) => true,
            TestFn::LoadBinary(_) => true,
        }
    }

    /// Turns the file's contents into the argument the registered function
    /// receives: nothing for a path-only shape, the decoded text for a text
    /// shape, the bytes unchanged for a binary shape. Contents that are not
    /// UTF-8, handed to a text shape, become a harness-level failure and the
    /// function is never invoked.
    pub fn prepare(&self, path: &str, contents: Vec<u8>) -> (r: Result<PreparedInput, String>)
        ensures
            self is Base ==> (r matches Ok(p) && p is PathOnly),
            self is LoadBinary ==> (r matches Ok(p) && p matches PreparedInput::Binary(b) && b@
                == contents@),
            self is LoadString && valid_utf8(contents@) ==> (r matches Ok(p) && p matches
                PreparedInput::Text(t) && t@ == decode_utf8(contents@)),
            self is LoadString && !valid_utf8(contents@) ==> (r matches Err(m) && m@
                == utf8_failure_message(path@)),
    {
        match self {
            TestFn::Base(_) => Ok(PreparedInput::PathOnly),
            TestFn::LoadString(f) => match f.prepare(path, contents) {
                Ok(t) => Ok(PreparedInput::Text(t)),
                Err(m) => Err(m),
            },
            TestFn::LoadBinary(_) => Ok(PreparedInput::Binary(contents)),
        }
    }
}

} // verus!
