//! Registration shape markers. Each supported function shape has a sealing
//! trait, a kind trait whose `kind` method names the shape's tag, and a tag
//! whose `resolve` method binds a registration index into the matching
//! [`TestFn`] variant. The registration layer implements the kind traits
//! over the concrete function types it accepts; the harness core only sees
//! the resolved [`TestFn`] value.

use vstd::prelude::*;

verus! {

use crate::dispatch::TestFn;
use crate::dispatch::TestFnBase;
use crate::dispatch::TestFnLoadBinary;
use crate::dispatch::TestFnLoadString;

/// Seals the path-only, platform-path shape.
pub trait PathSealed {

}

/// Seals the path-only, UTF-8-path shape.
pub trait Utf8PathSealed {

}

/// Seals the path-and-text, platform-path shape.
pub trait PathStringSealed {

}

/// Seals the path-and-text, UTF-8-path shape.
pub trait Utf8PathStringSealed {

}

/// Seals the path-and-bytes, platform-path shape.
pub trait PathBytesSealed {

}

/// Seals the path-and-bytes, UTF-8-path shape.
pub trait Utf8PathBytesSealed {

}

/// Tag of the path-only, platform-path shape.
pub struct PathTag;

impl PathTag {
    /// Binds registration index `f` as a path-only, platform-path function.
    pub fn resolve(self, f: usize) -> (r: TestFn)
        ensures
            r == TestFn::Base(TestFnBase::Path(f)),
    {
        TestFn::Base(TestFnBase::Path(f))
    }
}

/// Names the tag of the path-only, platform-path shape.
pub trait PathKind: PathSealed {
    /// The tag of this shape.
    fn kind(&self) -> PathTag {
        PathTag
    }
}

/// Tag of the path-only, UTF-8-path shape.
pub struct Utf8PathTag;

impl Utf8PathTag {
    /// Binds registration index `f` as a path-only, UTF-8-path function.
    pub fn resolve(&self, f: usize) -> (r: TestFn)
        ensures
            r == TestFn::Base(TestFnBase::Utf8Path(f)),
    {
        TestFn::Base(TestFnBase::Utf8Path(f))
    }
}

/// Names the tag of the path-only, UTF-8-path shape.
pub trait Utf8PathKind: Utf8PathSealed {
    /// The tag of this shape.
    fn kind(&self) -> Utf8PathTag {
        Utf8PathTag
    }
}

/// Tag of the path-and-text, platform-path shape.
pub struct PathStringTag;

impl PathStringTag {
    /// Binds registration index `f` as a text-loading, platform-path
    /// function.
    pub fn resolve(self, f: usize) -> (r: TestFn)
        ensures
            r == TestFn::LoadString(TestFnLoadString::Path(f)),
    {
        TestFn::LoadString(TestFnLoadString::Path(f))
    }
}

/// Names the tag of the path-and-text, platform-path shape.
pub trait PathStringKind: PathStringSealed {
    /// The tag of this shape.
    fn kind(&self) -> PathStringTag {
        PathStringTag
    }
}

/// Tag of the path-and-text, UTF-8-path shape.
pub struct Utf8PathStringTag;

impl Utf8PathStringTag {
    /// Binds registration index `f` as a text-loading, UTF-8-path function.
    pub fn resolve(self, f: usize) -> (r: TestFn)
        ensures
            r == TestFn::LoadString(TestFnLoadString::Utf8Path(f)),
    {
        TestFn::LoadString(TestFnLoadString::Utf8Path(f))
    }
}

/// Names the tag of the path-and-text, UTF-8-path shape.
pub trait Utf8PathStringKind: Utf8PathStringSealed {
    /// The tag of this shape.
    fn kind(&self) -> Utf8PathStringTag {
        Utf8PathStringTag
    }
}

/// Tag of the path-and-bytes, platform-path shape.
pub struct PathBytesTag;

impl PathBytesTag {
    /// Binds registration index `f` as a bytes-loading, platform-path
    /// function.
    pub fn resolve(self, f: usize) -> (r: TestFn)
        ensures
            r == TestFn::LoadBinary(TestFnLoadBinary::Path(f)),
    {
        TestFn::LoadBinary(TestFnLoadBinary::Path(f))
    }
}

/// Names the tag of the path-and-bytes, platform-path shape.
pub trait PathBytesKind: PathBytesSealed {
    /// The tag of this shape.
    fn kind(&self) -> PathBytesTag {
        PathBytesTag
    }
}

/// Tag of the path-and-bytes, UTF-8-path shape.
pub struct Utf8PathBytesTag;

impl Utf8PathBytesTag {
    /// Binds registration index `f` as a bytes-loading, UTF-8-path
    /// function.
    pub fn resolve(self, f: usize) -> (r: TestFn)
        ensures
            r == TestFn::LoadBinary(TestFnLoadBinary::Utf8Path(f)),
    {
        TestFn::LoadBinary(TestFnLoadBinary::Utf8Path(f))
    }
}

/// Names the tag of the path-and-bytes, UTF-8-path shape.
pub trait Utf8PathBytesKind: Utf8PathBytesSealed {
    /// The tag of this shape.
    fn kind(&self) -> Utf8PathBytesTag {
        Utf8PathBytesTag
    }
}

} // verus!
