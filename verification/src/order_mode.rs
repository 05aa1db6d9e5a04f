//! In which order the sources are merged.
use vstd::prelude::*;
use vstd::string::*;
use crate::errors::MergeBuildError;
use crate::text::{lowercase_of, lowercased, trim_of, trimmed};

verus! {

/// The order of the sources in the merged document.
#[derive(Clone, Copy, Debug, PartialEq, Eq, Structural)]
pub enum OrderMode {
    /// By name.
    Alpha,
    /// From the oldest to the newest.
    DateTime,
    /// As given.
    Default,
}

/// The mode that a token in lower case stands for, if any.
pub open spec fn order_of(token: Seq<char>) -> Option<OrderMode> {
    if token == "alpha"@ {
        Some(OrderMode::Alpha)
    } else if token == "datetime"@ {
        Some(OrderMode::DateTime)
    } else if token == "def"@ {
        Some(OrderMode::Default)
    } else {
        None
    }
}

/// What an ordering token is read as: without the white space around it, and
/// in lower case.
pub open spec fn order_token(value: Seq<char>) -> Seq<char> {
    lowercase_of(trim_of(value))
}

impl OrderMode {
    /// Reads an ordering token, whatever its case and the white space around
    /// it. No token gives the default; an unknown one is refused with the
    /// token as it was read.
    pub fn try_from(value: Option<String>) -> (r: Result<OrderMode, MergeBuildError>)
        ensures
            match value {
                None => r == Ok::<OrderMode, MergeBuildError>(OrderMode::Default),
                Some(v) => match order_of(order_token(v@)) {
                    Some(mode) => r == Ok::<OrderMode, MergeBuildError>(mode),
                    None => r matches Err(MergeBuildError::UnparseableOrderMode(token)) && token@
                        == order_token(v@),
                },
            },
    {
        let token = match value {
            Some(v) => lowercased(trimmed(v.as_str()).as_str()),
            None => {
                return Ok(OrderMode::Default);
            },
        };
        if token == String::from_str("alpha") {
            Ok(OrderMode::Alpha)
        } else if token == String::from_str("datetime") {
            Ok(OrderMode::DateTime)
        } else if token == String::from_str("def") {
            Ok(OrderMode::Default)
        } else {
            Err(MergeBuildError::UnparseableOrderMode(token))
        }
    }
}

impl Default for OrderMode {
    /// The order as given.
    fn default() -> (r: Self)
        ensures
            r == OrderMode::Default,
    {
        OrderMode::Default
    }
}

} // verus!
