//! The identifier of a role.

use vstd::prelude::*;
use crate::text::append;

verus! {

/// The identifier of a role: any text.
#[derive(Debug, Clone, PartialEq, Eq, Hash)]
pub struct AiRoleID {
    id: String,
}

/// The older name of [`AiRoleID`].
pub type AiRole = AiRoleID;

impl View for AiRoleID {
    type V = Seq<char>;

    closed spec fn view(&self) -> Seq<char> {
        self.id@
    }
}

impl AiRoleID {
    /// The role with the identifier `id`.
    pub fn new(id: &str) -> (r: Self)
        ensures
            r@ == id@,
    {
        AiRoleID { id: id.to_owned() }
    }

    /// The identifier.
    pub fn id(&self) -> (r: &str)
        ensures
            r@ == self@,
    {
        self.id.as_str()
    }

    /// The identifier behind the words `ai-role: `.
    pub fn description(&self) -> (out: String)
        ensures
            out@ == "ai-role: "@ + self@,
    {
        let mut out = String::new();
        append(&mut out, "ai-role: ");
        append(&mut out, self.id.as_str());
        out
    }

    /// The identifier.
    pub fn as_str(&self) -> (r: &str)
        ensures
            r@ == self@,
    {
        self.id.as_str()
    }
}

} // verus!
