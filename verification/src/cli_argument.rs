//! The single datom text a component CLI takes: inline on argv, or the
//! contents of a file named on argv.
use vstd::prelude::*;

verus! {

#[derive(Debug, PartialEq, Eq)]
pub struct DatomCommandText {
    text: String,
}

impl Clone for DatomCommandText {
    fn clone(&self) -> (r: Self)
        ensures
            r == *self,
    {
        DatomCommandText { text: self.text.clone() }
    }
}

impl DatomCommandText {
    pub closed spec fn content(&self) -> Seq<char> {
        self.text@
    }

    pub fn new(text: String) -> (command_text: Self)
        ensures
            command_text.content() == text@,
    {
        Self { text }
    }

    pub fn as_str(&self) -> (text: &str)
        ensures
            text@ == self.content(),
    {
        self.text.as_str()
    }
}

} // verus!
