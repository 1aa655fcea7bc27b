//! Configuration errors: the conditions that abort a whole run before or
//! while the case list is built. They are never reported as a failing test
//! case, and each message names the offending registration.

use vstd::prelude::*;

verus! {

use crate::strutil::append_decimal;
use crate::strutil::decimal_digits;
use crate::strutil::to_owned_string;
use vstd::string::StringExecFns;

/// A fatal configuration error.
#[derive(Debug)]
pub enum ConfigError {
    /// The registered pattern is not a valid regular expression.
    InvalidPattern {
        /// The rejected pattern text.
        pattern: String,
    },
    /// A registration matched no file at all under its source.
    NoTestsFound {
        /// The registration's group name.
        test_name: String,
        /// The root of the scanned source.
        root: String,
        /// The pattern that matched nothing.
        pattern: String,
    },
    /// The engine gave up matching the pattern against one path.
    MatchFault {
        /// The pattern being matched.
        pattern: String,
        /// The path it was matched against.
        path: String,
        /// The engine's description of its failure.
        fault: String,
    },
    /// A full scan was forbidden, but no exact filter was supplied.
    FullScanForbidden,
    /// An exact filter matched no registration's file.
    NoExactMatch {
        /// The filter that matched nothing.
        filter: String,
    },
    /// An exact filter matched more than one file under an orchestrator
    /// that runs exactly one test per process.
    MultipleExactMatches {
        /// The ambiguous filter.
        filter: String,
        /// How many files it matched.
        count: usize,
    },
}

impl ConfigError {
    /// The error's description.
    pub open spec fn spec_message(&self) -> Seq<char> {
        match self {
            ConfigError::InvalidPattern { pattern } => "invalid regular expression: '"@ + pattern@
                + "'"@,
            ConfigError::NoTestsFound { test_name, root, pattern } => "no test cases found for test '"@
                + test_name@ + "'. Scanned directory: '"@ + root@ + "' with pattern '"@ + pattern@
                + "'"@,
            ConfigError::MatchFault { pattern, path, fault } => "error matching pattern '"@
                + pattern@ + "' against path '"@ + path@ + "' : "@ + fault@,
            ConfigError::FullScanForbidden => "Exact filter was expected to be used"@,
            ConfigError::NoExactMatch { filter } => "Failed to find exact match for filter "@
                + filter@,
            ConfigError::MultipleExactMatches { filter, count } => "Only expected one but found "@
                + decimal_digits(*count as int) + " exact matches for filter "@ + filter@,
        }
    }

    /// Renders the error's description.
    pub fn message(&self) -> (r: String)
        ensures
            r@ == self.spec_message(),
    {
        match self {
            ConfigError::InvalidPattern { pattern } => {
                let mut m = to_owned_string("invalid regular expression: '");
                m.append(pattern.as_str());
                m.append("'");
                proof {
                    assert(m@ =~= self.spec_message());
                }
                m
            },
            ConfigError::NoTestsFound { test_name, root, pattern } => {
                let mut m = to_owned_string("no test cases found for test '");
                m.append(test_name.as_str());
                m.append("'. Scanned directory: '");
                m.append(root.as_str());
                m.append("' with pattern '");
                m.append(pattern.as_str());
                m.append("'");
                proof {
                    assert(m@ =~= self.spec_message());
                }
                m
            },
            ConfigError::MatchFault { pattern, path, fault } => {
                let mut m = to_owned_string("error matching pattern '");
                m.append(pattern.as_str());
                m.append("' against path '");
                m.append(path.as_str());
                m.append("' : ");
                m.append(fault.as_str());
                proof {
                    assert(m@ =~= self.spec_message());
                }
                m
            },
            ConfigError::FullScanForbidden => to_owned_string(
                "Exact filter was expected to be used",
            ),
            ConfigError::NoExactMatch { filter } => {
                let mut m = to_owned_string("Failed to find exact match for filter ");
                m.append(filter.as_str());
                proof {
                    assert(m@ =~= self.spec_message());
                }
                m
            },
            ConfigError::MultipleExactMatches { filter, count } => {
                let mut m = to_owned_string("Only expected one but found ");
                append_decimal(&mut m, *count);
                m.append(" exact matches for filter ");
                m.append(filter.as_str());
                proof {
                    assert(m@ =~= self.spec_message());
                }
                m
            },
        }
    }
}

} // verus!
