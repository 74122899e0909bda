//! A buffer of generated Rust source, bound to the file it is meant for.

use vstd::prelude::*;
use crate::text::push_char;

verus! {

/// Rust source text being generated for the file at `path`.
pub struct Generator {
    output: String,
    path: String,
}

/// The doc comment for `doc`: each of its lines, as separated by `\n`, written
/// after `/// ` and ended by a newline. An empty `doc` gives nothing, and a
/// final `\n` does not start another line.
pub open spec fn doc_comment(doc: Seq<char>) -> Seq<char>
    decreases doc.len(),
{
    if doc.len() == 0 {
        seq![]
    } else if doc.last() == '\n' {
        doc_lines_open(doc.drop_last()) + seq!['\n']
    } else {
        doc_lines_open(doc) + seq!['\n']
    }
}

/// The doc comment for `doc`, with its last line not yet ended.
pub open spec fn doc_lines_open(doc: Seq<char>) -> Seq<char>
    decreases doc.len(),
{
    if doc.len() == 0 {
        "/// "@
    } else if doc.last() == '\n' {
        doc_lines_open(doc.drop_last()) + seq!['\n'] + "/// "@
    } else {
        doc_lines_open(doc.drop_last()) + seq![doc.last()]
    }
}

impl Generator {
    /// The text generated so far.
    pub closed spec fn text(&self) -> Seq<char> {
        self.output@
    }

    /// The path of the file the text is meant for.
    pub closed spec fn file(&self) -> Seq<char> {
        self.path@
    }

    /// An empty generator for the file at `path`.
    pub fn new(path: &str) -> (g: Generator)
        ensures
            g.text() == Seq::<char>::empty(),
            g.file() == path@,
    {
        Generator { output: String::new(), path: String::from_str(path) }
    }

    /// The text generated so far.
    pub fn output(&self) -> (r: &str)
        ensures
            r@ == self.text(),
    {
        self.output.as_str()
    }

    /// The path of the file the text is meant for.
    pub fn path(&self) -> (r: &str)
        ensures
            r@ == self.file(),
    {
        self.path.as_str()
    }

    /// Appends `line` and a newline.
    pub fn write(&mut self, line: &str)
        ensures
            final(self).text() == old(self).text() + line@ + seq!['\n'],
            final(self).file() == old(self).file(),
    {
        self.output.append(line);
        push_char(&mut self.output, '\n');
    }

    /// Appends `comment` as a line comment: `// `, the comment, a newline.
    pub fn write_comment(&mut self, comment: &str)
        ensures
            final(self).text() == old(self).text() + "// "@ + comment@ + seq!['\n'],
            final(self).file() == old(self).file(),
    {
        self.output.append("// ");
        self.output.append(comment);
        push_char(&mut self.output, '\n');
    }

    /// Appends `doc` as a doc comment, one `/// ` line per line of `doc`.
    pub fn write_doc(&mut self, doc: &str)
        ensures
            final(self).text() == old(self).text() + doc_comment(doc@),
            final(self).file() == old(self).file(),
    {
        broadcast use vstd::string::group_string_axioms;

        let ghost start = self.output@;
        let ghost d = doc@;
        let mut chars = doc.chars();
        let mut line_start = true;
        let ghost mut k: int = 0;
        loop
            invariant
                0 <= k <= d.len(),
                vstd::std_specs::iter::IteratorSpec::remaining(&chars) == d.skip(k),
                line_start == (k == 0 || d[k - 1] == '\n'),
                k == 0 ==> self.output@ == start,
                (k > 0 && line_start) ==> self.output@ == start + doc_lines_open(d.take(k - 1))
                    + seq!['\n'],
                (k > 0 && !line_start) ==> self.output@ == start + doc_lines_open(d.take(k)),
                self.path == old(self).path,
            ensures
                k == d.len(),
                line_start == (k == 0 || d[k - 1] == '\n'),
                k == 0 ==> self.output@ == start,
                (k > 0 && line_start) ==> self.output@ == start + doc_lines_open(d.take(k - 1))
                    + seq!['\n'],
                (k > 0 && !line_start) ==> self.output@ == start + doc_lines_open(d.take(k)),
                self.path == old(self).path,
            decreases d.len() - k,
        {
            match chars.next() {
                None => {
                    break ;
                },
                Some(c) => {
                    let ghost before = self.output@;
                    assert(c == d[k]);
                    assert(d.take(k + 1).drop_last() =~= d.take(k));
                    if line_start {
                        self.output.append("/// ");
                        proof {
                            if k > 0 {
                                assert(d.take(k).drop_last() =~= d.take(k - 1));
                            } else {
                                assert(d.take(0) =~= Seq::<char>::empty());
                            }
                        }
                    }
                    if c == '\n' {
                        push_char(&mut self.output, '\n');
                        line_start = true;
                    } else {
                        push_char(&mut self.output, c);
                        line_start = false;
                    }
                    proof {
                        k = k + 1;
                    }
                    assert(line_start ==> self.output@ =~= start + doc_lines_open(d.take(k - 1))
                        + seq!['\n']);
                    assert(!line_start ==> self.output@ =~= start + doc_lines_open(d.take(k)));
                },
            }
        }
        assert(k == d.len());
        assert(d.take(k) =~= d);
        if !line_start {
            push_char(&mut self.output, '\n');
        }
        proof {
            if k > 0 && line_start {
                assert(d.drop_last() =~= d.take(k - 1));
            }
        }
        assert(self.output@ =~= start + doc_comment(d));
    }
}

} // verus!
