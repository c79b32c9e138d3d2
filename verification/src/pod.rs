//! One row of the pod table, and how a line of text becomes one.

use crate::errors::Error;
use crate::text::{
    chars_of, is_u16_literal, is_whitespace, lemma_words_are_solid, lines, parses_as_u16,
    split_lines, split_whitespace, words,
};
use std::str::FromStr;
use vstd::prelude::*;

verus! {

/// A workload instance as the cluster lists it. Every field keeps the text of
/// its column.
#[derive(Clone, Debug, PartialEq)]
pub struct Pod {
    pub name: String,
    pub ready: String,
    pub status: String,
    pub restarts: String,
    pub age: String,
}

/// The columns of a [`Pod`] as sequences of characters.
pub struct PodView {
    pub name: Seq<char>,
    pub ready: Seq<char>,
    pub status: Seq<char>,
    pub restarts: Seq<char>,
    pub age: Seq<char>,
}

impl View for Pod {
    type V = PodView;

    open spec fn view(&self) -> PodView {
        PodView {
            name: self.name@,
            ready: self.ready@,
            status: self.status@,
            restarts: self.restarts@,
            age: self.age@,
        }
    }
}

impl DeepView for Pod {
    type V = PodView;

    open spec fn deep_view(&self) -> PodView {
        self@
    }
}

/// The row that `line` holds, if it holds one.
///
/// A row has five words, or seven when the restart count is followed by the
/// time of the last restart in parentheses, as in `1 (8d ago)`. The fourth
/// word must write a number that fits in sixteen bits. In a row of seven
/// words, the fourth to the sixth, joined by single spaces, are the restarts
/// column.
pub open spec fn parse_row(line: Seq<char>) -> Option<PodView> {
    let parts = words(line);
    if (parts.len() == 5 || parts.len() == 7) && is_u16_literal(parts[3]) {
        Some(
            PodView {
                name: parts[0],
                ready: parts[1],
                status: parts[2],
                restarts: if parts.len() == 7 {
                    parts[3] + seq![' '] + parts[4] + seq![' '] + parts[5]
                } else {
                    parts[3]
                },
                age: if parts.len() == 7 {
                    parts[6]
                } else {
                    parts[4]
                },
            },
        )
    } else {
        None
    }
}

/// Whether `column` is non-empty and holds no whitespace.
pub open spec fn is_solid(column: Seq<char>) -> bool {
    &&& column.len() > 0
    &&& forall|i: int| 0 <= i < column.len() ==> !is_whitespace(#[trigger] column[i])
}

/// The name of a row is never empty, and its name, ready, status and age
/// columns hold no whitespace.
pub proof fn law_columns_are_solid(line: Seq<char>)
    requires
        parse_row(line) is Some,
    ensures
        is_solid(parse_row(line)->0.name),
        is_solid(parse_row(line)->0.ready),
        is_solid(parse_row(line)->0.status),
        is_solid(parse_row(line)->0.age),
{
    lemma_words_are_solid(line, 0);
    lemma_words_are_solid(line, 1);
    lemma_words_are_solid(line, 2);
    lemma_words_are_solid(line, 4);
    if words(line).len() == 7 {
        lemma_words_are_solid(line, 6);
    }
}

/// The rows among `lines`, in their order. A line that holds no row is left
/// out.
pub open spec fn rows(lines: Seq<Seq<char>>) -> Seq<PodView>
    decreases lines.len(),
{
    if lines.len() == 0 {
        Seq::empty()
    } else {
        match parse_row(lines.last()) {
            Some(row) => rows(lines.drop_last()).push(row),
            None => rows(lines.drop_last()),
        }
    }
}

/// The listing that the text `output` of the cluster's command line tool
/// holds: the rows among its lines.
pub open spec fn listing(output: Seq<char>) -> Seq<PodView> {
    rows(lines(output))
}

/// Reads the pod table that the cluster's command line tool wrote. The
/// header line, and every other line that is no row, is passed over.
pub fn parse_listing(output: &str) -> (pods: Vec<Pod>)
    ensures
        pods.deep_view() == listing(output@),
{
    let all = split_lines(output);
    let ghost texts = all.deep_view();
    let mut pods: Vec<Pod> = Vec::new();
    assert(texts.take(0) =~= Seq::<Seq<char>>::empty());
    assert(pods.deep_view() =~= Seq::<PodView>::empty());
    for line in it: all
        invariant
            it.seq() == all@,
            texts == all.deep_view(),
            pods.deep_view() == rows(texts.take(it.index() as int)),
    {
        let ghost done = pods.deep_view();
        let ghost upto = texts.take(it.index() + 1);
        assert(upto.drop_last() =~= texts.take(it.index() as int));
        assert(upto.last() == line@);
        match Pod::parse(line.as_str()) {
            Ok(pod) => {
                pods.push(pod);
                assert(pods.deep_view() =~= done.push(pod@));
            },
            Err(_) => {},
        }
    }
    assert(texts.take(all.len() as int) =~= texts);
    pods
}

impl Pod {
    /// Reads one line of the pod table. Header and summary lines, and any
    /// other line that is no row, give `ParseOutputError`.
    pub fn parse(line: &str) -> (row: Result<Pod, Error>)
        ensures
            match row {
                Ok(pod) => parse_row(line@) == Some(pod@),
                Err(e) => parse_row(line@) is None && e is ParseOutputError,
            },
    {
        let parts = split_whitespace(line);
        let ghost ws = words(line@);
        assert(parts.deep_view().len() == parts.len());
        if parts.len() != 5 && parts.len() != 7 {
            return Err(Error::ParseOutputError);
        }
        assert(forall|i: int| 0 <= i < parts.len() ==> parts@[i]@ == #[trigger] ws[i]);
        let count = chars_of(parts[3].as_str());
        if !parses_as_u16(&count) {
            return Err(Error::ParseOutputError);
        }
        let restarts;
        let age;
        if parts.len() == 7 {
            let mut joined = parts[3].clone();
            joined.push(' ');
            joined.append(parts[4].as_str());
            joined.push(' ');
            joined.append(parts[5].as_str());
            assert(joined@ =~= ws[3] + seq![' '] + ws[4] + seq![' '] + ws[5]);
            restarts = joined;
            age = parts[6].clone();
        } else {
            restarts = parts[3].clone();
            age = parts[4].clone();
        }
        let name = parts[0].clone();
        let ready = parts[1].clone();
        let status = parts[2].clone();
        Ok(Pod { name, ready, status, restarts, age })
    }

    /// A copy of this row.
    pub fn duplicate(&self) -> (copy: Pod)
        ensures
            copy@ == self@,
    {
        Pod {
            name: self.name.clone(),
            ready: self.ready.clone(),
            status: self.status.clone(),
            restarts: self.restarts.clone(),
            age: self.age.clone(),
        }
    }
}

impl FromStr for Pod {
    type Err = Error;

    /// Reads one line of the pod table, as [`Pod::parse`] does.
    fn from_str(s: &str) -> (row: Result<Self, Self::Err>)
        ensures
            match row {
                Ok(pod) => parse_row(s@) == Some(pod@),
                Err(e) => parse_row(s@) is None && e is ParseOutputError,
            },
    {
        Pod::parse(s)
    }
}

} // verus!
