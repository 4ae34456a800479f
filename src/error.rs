use vstd::prelude::*;


verus! {

/// Why a vault listing did not produce entry names.
#[derive(Clone, Debug)]
pub enum ListError {
    /// The call context cannot name a vault of its own.
    InvalidContext,
    /// The requested path does not resolve inside the caller's vault.
    InvalidPath,
    /// The binary's output is not valid UTF-8.
    NonUtf8Output,
    /// The binary reported a failure; the text describes it.
    CallFailed(String),
}

impl ListError {
    /// The text that describes this error.
    pub open spec fn message_spec(&self) -> Seq<char> {
        match self {
            ListError::InvalidContext => "call parameters name no vault"@,
            ListError::InvalidPath => "path does not resolve inside the vault"@,
            ListError::NonUtf8Output => "non-decodable output"@,
            ListError::CallFailed(m) => m@,
        }
    }

    /// The text that describes this error.
    pub fn message(&self) -> (r: String)
        ensures
            r@ == self.message_spec(),
    {
        let mut r = String::new();
        match self {
            ListError::InvalidContext => r.append("call parameters name no vault"),
            ListError::InvalidPath => r.append("path does not resolve inside the vault"),
            ListError::NonUtf8Output => r.append("non-decodable output"),
            ListError::CallFailed(m) => r.append(m.as_str()),
        }
        proof {
            assert(r@ =~= self.message_spec());
        }
        r
    }
}

} // verus!
