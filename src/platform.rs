//! The platforms a run can target.

use vstd::prelude::*;

verus! {

#[derive(Debug, Clone, Copy, PartialEq, Eq)]
pub enum Platform {
    Android,
    #[allow(non_camel_case_types)]
    iOS,
}

impl Platform {
    /// The name the service knows this platform by.
    pub fn as_str(&self) -> (r: &'static str)
        ensures
            r@ == (match self {
                Platform::Android => "Android"@,
                Platform::iOS => "iOS"@,
            }),
    {
        match self {
            Platform::Android => "Android",
            Platform::iOS => "iOS",
        }
    }
}

} // verus!
