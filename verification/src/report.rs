//! What is shown, and what is persisted, for a difference.

use vstd::prelude::*;
use vstd::string::StringExecFns;
use crate::property::{pairs, ConsulProperties, Pair};

verus! {

/// What a run reports: the lines for the console, in order, and the text for
/// the output file where one is to be written.
#[derive(Debug, Clone, PartialEq, Eq)]
pub struct Report {
    pub console: Vec<String>,
    pub file: Option<String>,
}

/// The mathematical value of a [`Report`].
pub struct ReportView {
    pub console: Seq<Seq<char>>,
    pub file: Option<Seq<char>>,
}

/// The texts of a list of lines, in the list's order.
pub open spec fn texts(lines: Seq<String>) -> Seq<Seq<char>> {
    lines.map_values(|line: String| line@)
}

impl View for Report {
    type V = ReportView;

    open spec fn view(&self) -> ReportView {
        ReportView {
            console: texts(self.console@),
            file: match self.file {
                Some(text) => Some(text@),
                None => None,
            },
        }
    }
}

/// The line that shows a pair: key, equals sign, value. Nothing is escaped.
pub open spec fn line_of(pair: Pair) -> Seq<char> {
    pair.0 + seq!['='] + pair.1
}

/// The lines of a list of pairs, in the list's order.
pub open spec fn lines_of(difference: Seq<Pair>) -> Seq<Seq<char>> {
    difference.map_values(|pair: Pair| line_of(pair))
}

/// The text of the output file: the line of each pair, in order, each ended
/// by a newline.
pub open spec fn file_of(difference: Seq<Pair>) -> Seq<char>
    decreases difference.len(),
{
    if difference.len() == 0 {
        Seq::empty()
    } else {
        file_of(difference.drop_last()) + line_of(difference.last()) + seq!['\n']
    }
}

/// The report that a difference calls for.
///
/// An empty difference is reported by one message, and no file is written,
/// whether or not one was asked for. Otherwise each pair is shown on a line
/// of its own, in the order given; the same lines make up the file where one
/// was asked for, and a note follows them on the console where none was.
pub open spec fn report_of(difference: Seq<Pair>, output_requested: bool) -> ReportView {
    if difference.len() == 0 {
        ReportView { console: seq!["No differences found."@], file: None }
    } else if output_requested {
        ReportView { console: lines_of(difference), file: Some(file_of(difference)) }
    } else {
        ReportView {
            console: lines_of(difference).push("No output file provided."@),
            file: None,
        }
    }
}

/// Renders one property as its `key=value` line, without a newline.
pub fn render_line(property: &ConsulProperties) -> (line: String)
    ensures
        line@ == line_of(property@),
{
    let mut line = property.key.clone();
    line.append("=");
    line.append(property.value.as_str());
    proof {
        reveal_strlit("=");
        assert(line@ =~= line_of(property@));
    }
    line
}

/// Decides what to report for `difference`, given whether an output file was
/// asked for.
pub fn report(difference: &Vec<ConsulProperties>, output_requested: bool) -> (decided: Report)
    ensures
        decided@ == report_of(pairs(difference@), output_requested),
{
    if difference.len() == 0 {
        let mut console: Vec<String> = Vec::new();
        console.push(String::from_str("No differences found."));
        assert(texts(console@) =~= seq!["No differences found."@]);
        return Report { console, file: None };
    }
    let mut console: Vec<String> = Vec::new();
    let mut file = String::new();
    let mut i: usize = 0;
    assert(pairs(difference@).take(0) =~= Seq::empty());
    assert(texts(console@) =~= lines_of(pairs(difference@).take(0)));
    while i < difference.len()
        invariant
            i <= difference.len(),
            texts(console@) == lines_of(pairs(difference@).take(i as int)),
            file@ == file_of(pairs(difference@).take(i as int)),
        decreases difference.len() - i,
    {
        let line = render_line(&difference[i]);
        proof {
            let shown = pairs(difference@).take(i as int);
            let grown = pairs(difference@).take(i as int + 1);
            assert(grown.drop_last() =~= shown);
            assert(grown.last() == difference@[i as int]@);
            assert(lines_of(grown) =~= lines_of(shown).push(line@));
            reveal_strlit("\n");
            assert("\n"@ =~= seq!['\n']);
        }
        let ghost shown_lines = texts(console@);
        file.append(line.as_str());
        file.append("\n");
        console.push(line);
        assert(texts(console@) =~= shown_lines.push(line@));
        i += 1;
    }
    assert(pairs(difference@).take(i as int) =~= pairs(difference@));
    if output_requested {
        Report { console, file: Some(file) }
    } else {
        let ghost shown_lines = texts(console@);
        console.push(String::from_str("No output file provided."));
        assert(texts(console@) =~= shown_lines.push("No output file provided."@));
        Report { console, file: None }
    }
}

/// An empty difference takes the path of no differences: one message on the
/// console and no file, also where an output file was asked for.
pub proof fn lemma_empty_difference_writes_nothing(difference: Seq<Pair>, output_requested: bool)
    requires
        difference.len() == 0,
    ensures
        report_of(difference, output_requested).file is None,
        report_of(difference, output_requested).console == seq!["No differences found."@],
{
}

/// A file is written exactly where there is a difference and an output file
/// was asked for.
pub proof fn lemma_file_only_for_differences(difference: Seq<Pair>, output_requested: bool)
    ensures
        report_of(difference, output_requested).file is Some <==> (difference.len() > 0
            && output_requested),
{
}

} // verus!
