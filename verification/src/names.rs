//! How a set of flags is written out: the names of the flags it holds, in a
//! fixed order, with ` | ` between them, or `(empty)` when it holds none.

use vstd::prelude::*;

verus! {

/// The names with ` | ` between neighbours.
pub open spec fn joined(names: Seq<Seq<char>>) -> Seq<char>
    decreases names.len(),
{
    if names.len() == 0 {
        Seq::empty()
    } else if names.len() == 1 {
        names[0]
    } else {
        joined(names.drop_last()) + " | "@ + names.last()
    }
}

/// The text for a list of flag names.
pub open spec fn listed(names: Seq<Seq<char>>) -> Seq<char> {
    if names.len() == 0 {
        "(empty)"@
    } else {
        joined(names)
    }
}

/// A list of one name when the flag is present, of none when it is not.
pub open spec fn named_if(present: bool, name: Seq<char>) -> Seq<Seq<char>> {
    if present {
        seq![name]
    } else {
        Seq::empty()
    }
}

/// Builds the text for a list of flag names one name at a time.
pub(crate) struct NameList {
    text: String,
    any: bool,
    names: Ghost<Seq<Seq<char>>>,
}

impl NameList {
    /// The names pushed so far.
    pub(crate) closed spec fn names(&self) -> Seq<Seq<char>> {
        self.names@
    }

    pub(crate) closed spec fn wf(&self) -> bool {
        &&& self.text@ == joined(self.names@)
        &&& self.any == (self.names@.len() > 0)
    }

    pub(crate) fn new() -> (list: NameList)
        ensures
            list.wf(),
            list.names() == Seq::<Seq<char>>::empty(),
    {
        NameList { text: String::new(), any: false, names: Ghost(Seq::empty()) }
    }

    /// Adds `name` to the list when `present` holds.
    pub(crate) fn push_if(&mut self, present: bool, name: &str)
        requires
            old(self).wf(),
        ensures
            final(self).wf(),
            final(self).names() == old(self).names() + named_if(present, name@),
    {
        if present {
            if self.any {
                self.text.append(" | ");
            }
            self.text.append(name);
            self.any = true;
            proof {
                let before = self.names@;
                let after = before.push(name@);
                assert(after.drop_last() == before);
                self.names@ = after;
            }
        }
    }

    /// The finished text.
    pub(crate) fn finish(self) -> (text: String)
        requires
            self.wf(),
        ensures
            text@ == listed(self.names()),
    {
        let mut text = self.text;
        if !self.any {
            text.append("(empty)");
        }
        text
    }
}

} // verus!
