//! The cells of a conjugated verb in the order in which they are put out.

use crate::conjugate::{Paradigm, Verb};
use crate::text::text_view;
use crate::types::{forms_view, Conjugated};
use vstd::prelude::*;
use vstd::string::*;

verus! {

/// `parts` in a row, with `separator` between each two of them.
pub open spec fn join(parts: Seq<Seq<char>>, separator: Seq<char>) -> Seq<char>
    decreases parts.len(),
{
    if parts.len() == 0 {
        Seq::empty()
    } else if parts.len() == 1 {
        parts[0]
    } else {
        join(parts.drop_last(), separator) + separator + parts.last()
    }
}

/// The sixteen cells of a paradigm in their fixed order: present, imperfect,
/// future, aorist; within the future and the aorist active, middle, passive;
/// each alternate behind its primary cell.
pub open spec fn cells_in_order(verb: Paradigm) -> Seq<Option<Seq<Seq<char>>>> {
    seq![
        verb.pai,
        verb.ppi,
        verb.iai,
        verb.ipi,
        verb.fai,
        verb.fai2,
        verb.fmi,
        verb.fmi2,
        verb.fpi,
        verb.fpi2,
        verb.aai,
        verb.aai2,
        verb.ami,
        verb.ami2,
        verb.api,
        verb.api2,
    ]
}

/// The cells of `cells` that are there, in their order.
pub open spec fn filled_rows(cells: Seq<Option<Seq<Seq<char>>>>) -> Seq<Seq<Seq<char>>>
    decreases cells.len(),
{
    if cells.len() == 0 {
        Seq::empty()
    } else {
        match cells.last() {
            Some(forms) => filled_rows(cells.drop_last()).push(forms),
            None => filled_rows(cells.drop_last()),
        }
    }
}

/// Each of `rows` as one line, its forms joined by a comma and a space.
pub open spec fn joined_lines(rows: Seq<Seq<Seq<char>>>) -> Seq<Seq<char>> {
    Seq::new(rows.len(), |i: int| join(rows[i], ", "@))
}

/// What a vector of borrowed cells holds: the forms of each.
pub open spec fn rows_view(rows: Seq<&Vec<String>>) -> Seq<Seq<Seq<char>>> {
    Seq::new(rows.len(), |i: int| forms_view(rows[i]@))
}

/// What a vector of borrowed cells is, each as a value of the model.
pub open spec fn cells_view(cells: Seq<&Conjugated>) -> Seq<Option<Seq<Seq<char>>>> {
    Seq::new(cells.len(), |i: int| cells[i]@)
}

/// `forms` in a row, with `separator` between each two of them.
pub fn join_forms(forms: &Vec<String>, separator: &str) -> (joined: String)
    ensures
        joined@ == join(forms_view(forms@), separator@),
{
    let mut joined = String::new();
    let mut i: usize = 0;
    let ghost all = forms_view(forms@);
    while i < forms.len()
        invariant
            i <= forms@.len(),
            all == forms_view(forms@),
            joined@ == join(all.take(i as int), separator@),
        decreases forms@.len() - i,
    {
        proof {
            let next = all.take(i + 1);
            assert(next.drop_last() =~= all.take(i as int));
            assert(next.last() == forms@[i as int]@);
            if i == 0 {
                assert(joined@ =~= Seq::<char>::empty());
                assert(Seq::<char>::empty() + forms@[0]@ =~= forms@[0]@);
            }
        }
        if i > 0 {
            joined.append(separator);
        }
        joined.append(forms[i].as_str());
        i += 1;
    }
    assert(all.take(forms@.len() as int) =~= all);
    joined
}

impl Conjugated {
    /// The forms of this cell on one line, a comma and a space between each
    /// two of them; nothing for an absent cell.
    pub fn line(&self) -> (line: Option<String>)
        ensures
            text_view(line) == match self@ {
                Some(forms) => Some(join(forms, ", "@)),
                None => None,
            },
    {
        match self {
            Conjugated::Forms(forms) => Some(join_forms(forms, ", ")),
            Conjugated::Absent => None,
        }
    }
}

impl Verb {
    /// The sixteen cells of this verb in their fixed order.
    pub fn cells(&self) -> (cells: Vec<&Conjugated>)
        ensures
            cells_view(cells@) == cells_in_order(self@),
    {
        let cells = vec![
            &self.pai,
            &self.ppi,
            &self.iai,
            &self.ipi,
            &self.fai,
            &self.fai2,
            &self.fmi,
            &self.fmi2,
            &self.fpi,
            &self.fpi2,
            &self.aai,
            &self.aai2,
            &self.ami,
            &self.ami2,
            &self.api,
            &self.api2,
        ];
        assert(cells_view(cells@) =~= cells_in_order(self@));
        cells
    }

    /// The cells of this verb that are there, in the fixed order of the
    /// cells, each with its forms.
    pub fn rows(&self) -> (rows: Vec<&Vec<String>>)
        ensures
            rows_view(rows@) == filled_rows(cells_in_order(self@)),
    {
        let cells = self.cells();
        let ghost all = cells_view(cells@);
        let mut rows: Vec<&Vec<String>> = Vec::new();
        let mut i: usize = 0;
        assert(rows_view(rows@) =~= filled_rows(all.take(0)));
        while i < cells.len()
            invariant
                i <= cells@.len(),
                all == cells_view(cells@),
                rows_view(rows@) == filled_rows(all.take(i as int)),
            decreases cells@.len() - i,
        {
            proof {
                let next = all.take(i + 1);
                assert(next.drop_last() =~= all.take(i as int));
                assert(next.last() == cells@[i as int]@);
            }
            let ghost before = rows_view(rows@);
            match cells[i].to_vec() {
                Some(forms) => {
                    rows.push(forms);
                    assert(rows_view(rows@) =~= before.push(forms_view(forms@)));
                },
                None => {},
            }
            i += 1;
        }
        assert(all.take(cells@.len() as int) =~= all);
        rows
    }

    /// The cells of this verb that are there, in the fixed order of the
    /// cells, each on one line.
    pub fn lines(&self) -> (lines: Vec<String>)
        ensures
            forms_view(lines@) == joined_lines(filled_rows(cells_in_order(self@))),
    {
        let rows = self.rows();
        let mut lines: Vec<String> = Vec::new();
        let mut i: usize = 0;
        while i < rows.len()
            invariant
                i <= rows@.len(),
                lines@.len() == i,
                forall|k: int|
                    0 <= k < i ==> (#[trigger] lines@[k])@ == join(forms_view(rows@[k]@), ", "@),
            decreases rows@.len() - i,
        {
            lines.push(join_forms(rows[i], ", "));
            i += 1;
        }
        assert(forms_view(lines@) =~= joined_lines(rows_view(rows@)));
        lines
    }
}

} // verus!
