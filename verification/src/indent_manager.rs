use vstd::prelude::*;
use vstd::string::StringExecFns;

verus! {

/// The text `unit` repeated `n` times; the indentation prefix of a line at
/// nesting depth `n`.
pub open spec fn repeat_text(unit: Seq<char>, n: nat) -> Seq<char>
    decreases n,
{
    if n == 0 {
        Seq::empty()
    } else {
        repeat_text(unit, (n - 1) as nat) + unit
    }
}

/// Maintains the current nesting depth and renders the indentation prefix of a
/// line. `increase` and `decrease` adjust the depth by one (`decrease`
/// saturates at zero), and `get_indent` renders the configured indentation
/// unit repeated depth times.
pub struct IndentManager {
    pub level: usize,
    pub indent_str: String,
}

impl IndentManager {
    pub fn new(indent_str: &str) -> (r: Self)
        ensures
            r.level == 0,
            r.indent_str@ == indent_str@,
    {
        Self { level: 0, indent_str: indent_str.to_owned() }
    }

    pub fn increase(&mut self)
        requires
            old(self).level < usize::MAX,
        ensures
            final(self).level == old(self).level + 1,
            final(self).indent_str == old(self).indent_str,
    {
        self.level = self.level + 1;
    }

    pub fn decrease(&mut self)
        ensures
            final(self).level == if old(self).level > 0 { (old(self).level - 1) as usize } else { 0usize },
            final(self).indent_str == old(self).indent_str,
    {
        if self.level > 0 {
            self.level = self.level - 1;
        }
    }

    pub fn get_indent(&self) -> (r: String)
        ensures
            r@ == repeat_text(self.indent_str@, self.level as nat),
    {
        let mut r = String::new();
        let mut i: usize = 0;
        while i < self.level
            invariant
                i <= self.level,
                r@ == repeat_text(self.indent_str@, i as nat),
            decreases self.level - i,
        {
            r.append(self.indent_str.as_str());
            i = i + 1;
        }
        r
    }
}

} // verus!
