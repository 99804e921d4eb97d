use vstd::prelude::*;
use vstd::string::StringExecFns;

use crate::directive::{legacy_search_prefix, Directive};

verus! {

/// The text of the output stream that holds `lines`, each one followed by a
/// line terminator.
pub open spec fn stream_text(lines: Seq<Seq<char>>) -> Seq<char>
    decreases lines.len(),
{
    if lines.len() == 0 {
        Seq::empty()
    } else {
        stream_text(lines.drop_last()) + lines.last() + "\n"@
    }
}

/// An ordered, append-only log of directive lines, standing for the output
/// stream that the orchestrator reads. Lines stay in the order of the calls.
pub struct DirectiveLog {
    lines: Vec<String>,
    search_prefix: String,
}

impl View for DirectiveLog {
    type V = Seq<Seq<char>>;

    closed spec fn view(&self) -> Seq<Seq<char>> {
        self.lines@.map_values(|l: String| l@)
    }
}

impl DirectiveLog {
    /// The prefix written before a link-search line without a kind.
    pub closed spec fn search_prefix(&self) -> Seq<char> {
        self.search_prefix@
    }

    /// An empty log that writes the legacy `carg::` prefix before a
    /// link-search line without a kind.
    pub fn new() -> (r: DirectiveLog)
        ensures
            r@ == Seq::<Seq<char>>::empty(),
            r.search_prefix() == legacy_search_prefix(),
    {
        let r = DirectiveLog { lines: Vec::new(), search_prefix: String::from_str("carg::") };
        assert(r@ =~= Seq::<Seq<char>>::empty());
        r
    }

    /// An empty log that writes `prefix` before a link-search line without a
    /// kind.
    pub fn with_search_prefix(prefix: &str) -> (r: DirectiveLog)
        ensures
            r@ == Seq::<Seq<char>>::empty(),
            r.search_prefix() == prefix@,
    {
        let r = DirectiveLog { lines: Vec::new(), search_prefix: String::from_str(prefix) };
        assert(r@ =~= Seq::<Seq<char>>::empty());
        r
    }

    /// Appends a line as it is.
    pub fn push_line(&mut self, line: String)
        ensures
            final(self)@ == old(self)@.push(line@),
            final(self).search_prefix() == old(self).search_prefix(),
    {
        self.lines.push(line);
        assert(final(self)@ =~= old(self)@.push(line@));
    }

    /// Appends the line that encodes `d`.
    pub fn emit(&mut self, d: &Directive)
        ensures
            final(self)@ == old(self)@.push(d.spec_line_with(old(self).search_prefix())),
            final(self).search_prefix() == old(self).search_prefix(),
    {
        let line = d.line_with(self.search_prefix.as_str());
        self.push_line(line);
    }

    /// The lines emitted so far, in order.
    pub fn lines(&self) -> (r: &Vec<String>)
        ensures
            r@.map_values(|l: String| l@) == self@,
    {
        &self.lines
    }

    /// The output stream: every line, in order, each followed by `\n`.
    pub fn text(&self) -> (r: String)
        ensures
            r@ == stream_text(self@),
    {
        let mut r = String::new();
        let mut i: usize = 0;
        while i < self.lines.len()
            invariant
                i <= self.lines@.len(),
                r@ == stream_text(self@.take(i as int)),
            decreases self.lines@.len() - i,
        {
            r.append(self.lines[i].as_str());
            r.append("\n");
            assert(self@.take(i + 1).drop_last() =~= self@.take(i as int));
            i = i + 1;
        }
        assert(self@.take(i as int) =~= self@);
        r
    }
}

} // verus!
