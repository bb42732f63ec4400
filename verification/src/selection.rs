//! Selections: the text by which a caller says what to read, and the plan of
//! reads that it stands for.

use vstd::prelude::*;
use vstd::string::{StrSliceExecFns, StringExecFns};
use crate::catalog::{full_query, full_selection, Quantity};

verus! {

/// The pieces of `text` between its commas. A text without a comma is one
/// piece; two commas in a row, or one at either end, give an empty piece.
pub open spec fn split_commas(text: Seq<char>) -> Seq<Seq<char>>
    decreases text.len(),
{
    if text.len() == 0 {
        seq![Seq::<char>::empty()]
    } else {
        let before = split_commas(text.drop_last());
        if text.last() == ',' {
            before.push(Seq::<char>::empty())
        } else {
            before.drop_last().push(before.last().push(text.last()))
        }
    }
}

/// The pieces joined again, a comma between neighbours.
pub open spec fn join_commas(pieces: Seq<Seq<char>>) -> Seq<char>
    decreases pieces.len(),
{
    if pieces.len() == 0 {
        Seq::<char>::empty()
    } else if pieces.len() == 1 {
        pieces[0]
    } else {
        join_commas(pieces.drop_last()).push(',') + pieces.last()
    }
}

/// What a list of strings holds.
pub open spec fn texts(list: Seq<String>) -> Seq<Seq<char>> {
    Seq::new(list.len(), |i: int| list[i]@)
}

/// One step of a plan: a quantity to read, or a token that names none.
#[derive(Clone, Debug, PartialEq, Eq)]
pub enum Step {
    Read(Quantity),
    Unknown(String),
}

/// What a `Step` means.
pub enum StepView {
    Read(Quantity),
    Unknown(Seq<char>),
}

impl View for Step {
    type V = StepView;

    open spec fn view(&self) -> StepView {
        match *self {
            Step::Read(q) => StepView::Read(q),
            Step::Unknown(token) => StepView::Unknown(token@),
        }
    }
}

/// What a list of steps means.
pub open spec fn step_views(steps: Seq<Step>) -> Seq<StepView> {
    Seq::new(steps.len(), |i: int| steps[i]@)
}

/// The step that a token asks for. The time zone cannot be asked for: it is
/// read on behalf of a timestamp only.
pub open spec fn step_for(token: Seq<char>) -> StepView {
    match Quantity::named(token) {
        Some(q) => if q == Quantity::TimeZone {
            StepView::Unknown(token)
        } else {
            StepView::Read(q)
        },
        None => StepView::Unknown(token),
    }
}

/// The plan of a selection. Where one of its tokens is `all`, the whole
/// catalog is read, in catalog order; otherwise each token gives one step, in
/// the order of the tokens.
pub open spec fn planned(selection: Seq<char>) -> Seq<StepView> {
    let tokens = split_commas(selection);
    if tokens.contains("all"@) {
        Seq::new(full_selection().len(), |i: int| StepView::Read(full_selection()[i]))
    } else {
        Seq::new(tokens.len(), |i: int| step_for(tokens[i]))
    }
}

/// Splits a selection at its commas.
pub fn tokens(selection: &str) -> (list: Vec<String>)
    ensures
        texts(list@) == split_commas(selection@),
{
    let n = selection.unicode_len();
    let mut list: Vec<String> = Vec::new();
    let mut start: usize = 0;
    let mut i: usize = 0;
    proof {
        assert(selection@.subrange(0, 0) =~= Seq::<char>::empty());
        assert(selection@.take(0).len() == 0);
    }
    while i < n
        invariant
            start <= i <= n,
            n == selection@.len(),
            texts(list@).push(selection@.subrange(start as int, i as int)) =~= split_commas(
                selection@.take(i as int),
            ),
        decreases n - i,
    {
        let c = selection.get_char(i);
        let ghost before = split_commas(selection@.take(i as int));
        let ghost current = selection@.subrange(start as int, i as int);
        let ghost done = texts(list@);
        proof {
            let head = selection@.take(i + 1);
            assert(head.drop_last() =~= selection@.take(i as int));
            assert(head.last() == c);
            assert(current.push(c) =~= selection@.subrange(start as int, i + 1));
            assert(before.last() == current);
            assert(before.drop_last() =~= done);
            assert(selection@.subrange(i + 1, i + 1) =~= Seq::<char>::empty());
        }
        if c == ',' {
            let piece = String::from_str(selection.substring_char(start, i));
            list.push(piece);
            start = i + 1;
            assert(texts(list@) =~= done.push(current));
        }
        i += 1;
    }
    let piece = String::from_str(selection.substring_char(start, n));
    list.push(piece);
    proof {
        assert(selection@.take(n as int) =~= selection@);
        assert(texts(list@) =~= split_commas(selection@));
    }
    list
}

/// Whether one of the pieces is the word `all`.
fn asks_for_all(pieces: &Vec<String>) -> (found: bool)
    ensures
        found == texts(pieces@).contains("all"@),
{
    let all = String::from_str("all");
    let mut i: usize = 0;
    while i < pieces.len()
        invariant
            i <= pieces.len(),
            all@ == "all"@,
            forall|j: int| 0 <= j < i ==> texts(pieces@)[j] != "all"@,
        decreases pieces.len() - i,
    {
        if pieces[i] == all {
            assert(texts(pieces@)[i as int] == "all"@);
            return true;
        }
        i += 1;
    }
    false
}

/// The step that a token asks for.
pub fn step_of(token: &String) -> (step: Step)
    ensures
        step@ == step_for(token@),
{
    match Quantity::from_name(token.as_str()) {
        Some(q) => if q == Quantity::TimeZone {
            Step::Unknown(token.clone())
        } else {
            Step::Read(q)
        },
        None => Step::Unknown(token.clone()),
    }
}

/// Resolves a selection into its plan of reads.
pub fn plan(selection: &str) -> (steps: Vec<Step>)
    ensures
        step_views(steps@) == planned(selection@),
{
    let pieces = tokens(selection);
    let mut steps: Vec<Step> = Vec::new();
    if asks_for_all(&pieces) {
        let order = full_query();
        let mut i: usize = 0;
        while i < order.len()
            invariant
                i <= order.len(),
                order@ == full_selection(),
                steps@.len() == i,
                forall|j: int| 0 <= j < i ==> steps@[j]@ == StepView::Read(order@[j]),
            decreases order.len() - i,
        {
            steps.push(Step::Read(order[i]));
            i += 1;
        }
    } else {
        let mut i: usize = 0;
        while i < pieces.len()
            invariant
                i <= pieces.len(),
                steps@.len() == i,
                forall|j: int| 0 <= j < i ==> steps@[j]@ == step_for(pieces@[j]@),
            decreases pieces.len() - i,
        {
            steps.push(step_of(&pieces[i]));
            i += 1;
        }
    }
    assert(step_views(steps@) =~= planned(selection@));
    steps
}

/// A text without a comma is its own single piece.
pub proof fn split_without_comma(text: Seq<char>)
    requires
        forall|i: int| 0 <= i < text.len() ==> text[i] != ',',
    ensures
        split_commas(text) == seq![text],
    decreases text.len(),
{
    if text.len() == 0 {
        assert(text =~= Seq::<char>::empty());
    } else {
        split_without_comma(text.drop_last());
        let before = split_commas(text.drop_last());
        assert(before.drop_last() =~= Seq::<Seq<char>>::empty());
        assert(text.drop_last().push(text.last()) =~= text);
        assert(split_commas(text) =~= seq![text]);
    }
}

/// Splitting gives at least one piece, no piece holds a comma, and the
/// pieces joined with commas are the text again.
pub proof fn split_is_exact(text: Seq<char>)
    ensures
        split_commas(text).len() >= 1,
        forall|k: int, i: int|
            0 <= k < split_commas(text).len() && 0 <= i < split_commas(text)[k].len()
                ==> split_commas(text)[k][i] != ',',
        join_commas(split_commas(text)) == text,
    decreases text.len(),
{
    let pieces = split_commas(text);
    if text.len() == 0 {
        assert(join_commas(pieces) =~= text);
    } else {
        let head = text.drop_last();
        let before = split_commas(head);
        split_is_exact(head);
        assert(head.push(text.last()) =~= text);
        if text.last() == ',' {
            assert(pieces.drop_last() =~= before);
            assert(join_commas(pieces) =~= text);
        } else {
            let grown = before.last().push(text.last());
            assert(pieces.last() == grown);
            assert(pieces.drop_last() =~= before.drop_last());
            if before.len() == 1 {
                assert(join_commas(before) == before[0]);
                assert(join_commas(pieces) =~= text);
            } else {
                assert(join_commas(before) == join_commas(before.drop_last()).push(',')
                    + before.last());
                assert(join_commas(pieces) =~= text);
            }
        }
    }
}

/// The selection `all` reads the whole catalog but the time zone, in catalog
/// order.
pub proof fn all_reads_the_full_catalog()
    ensures
        planned("all"@) == Seq::new(
            full_selection().len(),
            |i: int| StepView::Read(full_selection()[i]),
        ),
        planned("all"@).len() == 27,
{
    reveal_strlit("all");
    split_without_comma("all"@);
    assert(seq!["all"@][0] == "all"@);
}

/// Among other tokens too, `all` reads the whole catalog.
pub proof fn all_among_tokens_reads_the_full_catalog(selection: Seq<char>, k: int)
    requires
        0 <= k < split_commas(selection).len(),
        split_commas(selection)[k] == "all"@,
    ensures
        planned(selection) == planned("all"@),
{
    all_reads_the_full_catalog();
}

/// Without the token `all`, the plan has one step for each token, in their
/// order: a read for the name of a quantity other than the time zone, and a
/// report of the token otherwise.
pub proof fn tokens_are_planned_in_order(selection: Seq<char>, k: int)
    requires
        !split_commas(selection).contains("all"@),
        0 <= k < split_commas(selection).len(),
    ensures
        planned(selection).len() == split_commas(selection).len(),
        planned(selection)[k] == step_for(split_commas(selection)[k]),
        planned(selection)[k] matches StepView::Read(q) ==> q != Quantity::TimeZone && q.name_text()
            == split_commas(selection)[k],
{
    crate::catalog::named_is_exact(split_commas(selection)[k]);
}

} // verus!
