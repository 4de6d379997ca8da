//! The processor chain and the selection of matched files.
use vstd::prelude::*;
use crate::model::Processor;

verus! {

/// What `str::replace` returns: every occurrence of `from` in `s` replaced by `to`.
pub uninterp spec fn replaced(s: Seq<char>, from: Seq<char>, to: Seq<char>) -> Seq<char>;

/// Relies on `str::replace`: the result depends on the three strings alone.
#[verifier::external_body]
fn replace_all(s: &str, from: &str, to: &str) -> (r: String)
    ensures
        r@ == replaced(s@, from@, to@),
{
    s.replace(from, to)
}

impl Processor {
    /// The text this processor makes of `s`.
    pub open spec fn transform(&self, s: Seq<char>) -> Seq<char> {
        match self {
            Processor::Replace { from, to } => replaced(s, from@, to@),
        }
    }

    pub fn process(&self, text: &str) -> (r: String)
        ensures
            r@ == self.transform(text@),
    {
        match self {
            Processor::Replace { from, to } => replace_all(text, from.as_str(), to.as_str()),
        }
    }
}

/// The text that the first `n` processors make of `s`, each consuming the
/// output of the one before it.
pub open spec fn chain(ps: Seq<Processor>, n: nat, s: Seq<char>) -> Seq<char>
    decreases n,
{
    if n == 0 {
        s
    } else {
        ps[n - 1].transform(chain(ps, (n - 1) as nat, s))
    }
}

/// The text the whole list of processors makes of `s`.
pub open spec fn apply_all(ps: Seq<Processor>, s: Seq<char>) -> Seq<char> {
    chain(ps, ps.len(), s)
}

/// Runs every processor over `text` in list order.
pub fn apply_processors(processors: &Vec<Processor>, text: &str) -> (r: String)
    ensures
        r@ == apply_all(processors@, text@),
{
    let mut current = text.to_owned();
    let mut i: usize = 0;
    while i < processors.len()
        invariant
            i <= processors@.len(),
            current@ == chain(processors@, i as nat, text@),
        decreases processors@.len() - i,
    {
        current = processors[i].process(current.as_str());
        i = i + 1;
    }
    current
}

/// The new content of a file whose content is `old_text`: `Some` with the
/// processed text when it differs from the original, `None` when the file is
/// to be left untouched.
pub fn process_file(processors: &Vec<Processor>, old_text: &str) -> (r: Option<String>)
    ensures
        apply_all(processors@, old_text@) == old_text@ ==> r is None,
        apply_all(processors@, old_text@) != old_text@ ==> r is Some && r->0@ == apply_all(
            processors@,
            old_text@,
        ),
{
    let new_text = apply_processors(processors, old_text);
    let old = old_text.to_owned();
    if new_text == old {
        None
    } else {
        Some(new_text)
    }
}

/// Processors run in list order: with `[a, b]` the text is `b(a(x))`.
pub proof fn lemma_processor_order(a: Processor, b: Processor, x: Seq<char>)
    ensures
        apply_all(seq![a, b], x) == b.transform(a.transform(x)),
{
    let ps = seq![a, b];
    assert(chain(ps, 0, x) == x);
    assert(chain(ps, 1, x) == a.transform(x));
}

/// The paths of the entries that are regular files, in the order given.
pub open spec fn file_paths(entries: Seq<(String, bool)>) -> Seq<Seq<char>>
    decreases entries.len(),
{
    if entries.len() == 0 {
        seq![]
    } else {
        let rest = file_paths(entries.drop_last());
        if entries.last().1 {
            rest.push(entries.last().0@)
        } else {
            rest
        }
    }
}

/// Whether `p` is the path of an entry marked as a regular file.
pub open spec fn is_file_entry(entries: Seq<(String, bool)>, p: Seq<char>) -> bool {
    exists|j: int| 0 <= j < entries.len() && entries[j].1 && entries[j].0@ == p
}

/// Keeps the glob matches that are regular files: each entry is a path and
/// whether it is a regular file.
pub fn select_files(entries: &Vec<(String, bool)>) -> (r: Vec<String>)
    ensures
        r@.map_values(|p: String| p@) == file_paths(entries@),
        forall|k: int| 0 <= k < r@.len() ==> is_file_entry(entries@, #[trigger] r@[k]@),
{
    let mut out: Vec<String> = Vec::new();
    let mut i: usize = 0;
    while i < entries.len()
        invariant
            i <= entries@.len(),
            out@.map_values(|p: String| p@) == file_paths(entries@.subrange(0, i as int)),
            forall|k: int|
                0 <= k < out@.len() ==> is_file_entry(entries@.subrange(0, i as int), #[trigger] out@[k]@),
        decreases entries@.len() - i,
    {
        assert(entries@.subrange(0, i + 1).drop_last() == entries@.subrange(0, i as int));
        if entries[i].1 {
            let p = entries[i].0.clone();
            let ghost before = out@;
            out.push(p);
            let ghost next = entries@.subrange(0, i + 1);
            assert forall|k: int| 0 <= k < out@.len() implies is_file_entry(
                next,
                #[trigger] out@[k]@,
            ) by {
                if k < before.len() {
                    let j = choose|j: int|
                        0 <= j < i && entries@[j].1 && entries@[j].0@ == before[k]@;
                    assert(next[j] == entries@[j]);
                } else {
                    assert(next[i as int] == entries@[i as int]);
                }
            }
            assert(out@.map_values(|p: String| p@) =~= file_paths(entries@.subrange(0, i as int)).push(
                entries@[i as int].0@,
            ));
        }
        i = i + 1;
    }
    assert(entries@.subrange(0, entries@.len() as int) == entries@);
    out
}

} // verus!
