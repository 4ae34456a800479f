use vstd::prelude::*;

use crate::error::ListError;

verus! {

/// The outcome of one listing: a success flag, an error text that is empty on
/// success, and the entry names, which are empty on failure.
#[derive(Clone, Debug)]
pub struct ListResult {
    /// True when the binary executed successfully.
    pub success: bool,
    /// Error message if the binary execution failed.
    pub error: String,
    /// List of files in the provided directory.
    pub result: Vec<String>,
}

/// A [`ListResult`] as mathematical values.
pub struct ListResultView {
    pub success: bool,
    pub error: Seq<char>,
    pub result: Seq<Seq<char>>,
}

impl View for ListResult {
    type V = ListResultView;

    open spec fn view(&self) -> ListResultView {
        ListResultView { success: self.success, error: self.error@, result: self.result.deep_view() }
    }
}

/// A successful listing of `names`.
pub open spec fn succeeded(names: Seq<Seq<char>>) -> ListResultView {
    ListResultView { success: true, error: Seq::empty(), result: names }
}

/// A failed listing that reports `error`.
pub open spec fn failed(error: Seq<char>) -> ListResultView {
    ListResultView { success: false, error, result: Seq::empty() }
}

impl ListResult {
    /// Folds a listing outcome into a result: the names on success, the
    /// error's text on failure.
    pub fn from_result(res: Result<Vec<String>, ListError>) -> (r: ListResult)
        ensures
            r@ == match res {
                Ok(names) => succeeded(names.deep_view()),
                Err(e) => failed(e.message_spec()),
            },
    {
        match res {
            Ok(result) => ListResult { success: true, error: String::new(), result },
            Err(e) => {
                let r = ListResult { success: false, error: e.message(), result: Vec::new() };
                proof {
                    assert(r.result.deep_view() =~= Seq::<Seq<char>>::empty());
                }
                r
            },
        }
    }
}

} // verus!
