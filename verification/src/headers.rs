//! A case-insensitive header multimap. Keys compare ASCII-case-insensitively,
//! one key may carry several values, and insertion order is preserved.

use vstd::prelude::*;
use vstd::string::StringExecFns;
use crate::chars::{ci_eq, opt_seq, str_eq_ci};

verus! {

/// The mathematical value of one header line.
pub ghost struct HeaderModel {
    pub name: Seq<char>,
    pub value: Seq<char>,
}

/// One header line: a name and a value, both kept as given.
#[derive(Debug)]
pub struct HeaderEntry {
    pub name: String,
    pub value: String,
}

impl View for HeaderEntry {
    type V = HeaderModel;

    open spec fn view(&self) -> HeaderModel {
        HeaderModel { name: self.name@, value: self.value@ }
    }
}

impl Clone for HeaderEntry {
    fn clone(&self) -> (r: Self)
        ensures
            r@ == self@,
    {
        HeaderEntry { name: self.name.clone(), value: self.value.clone() }
    }
}

/// The view of a sequence of header lines.
pub open spec fn entries_view(s: Seq<HeaderEntry>) -> Seq<HeaderModel> {
    s.map_values(|e: HeaderEntry| e@)
}

/// Whether some line carries `name`, compared case-insensitively.
pub open spec fn has_name(hs: Seq<HeaderModel>, name: Seq<char>) -> bool {
    exists|i: int| 0 <= i < hs.len() && ci_eq(hs[i].name, name)
}

/// The value of the first line carrying `name`, if any.
pub open spec fn first_value(hs: Seq<HeaderModel>, name: Seq<char>) -> Option<Seq<char>>
    decreases hs.len(),
{
    if hs.len() == 0 {
        None
    } else if ci_eq(hs[0].name, name) {
        Some(hs[0].value)
    } else {
        first_value(hs.drop_first(), name)
    }
}

/// The lines left after removing every line carrying `name`.
pub open spec fn remove_name(hs: Seq<HeaderModel>, name: Seq<char>) -> Seq<HeaderModel> {
    hs.filter(|h: HeaderModel| !ci_eq(h.name, name))
}

/// The lines after a set: every line carrying `name` removed, then one new
/// line appended.
pub open spec fn set_value(hs: Seq<HeaderModel>, name: Seq<char>, value: Seq<char>) -> Seq<
    HeaderModel,
> {
    remove_name(hs, name).push(HeaderModel { name, value })
}

/// A header multimap, viewed as the sequence of its lines.
#[derive(Debug)]
pub struct HeaderMap {
    entries: Vec<HeaderEntry>,
}

impl View for HeaderMap {
    type V = Seq<HeaderModel>;

    closed spec fn view(&self) -> Seq<HeaderModel> {
        entries_view(self.entries@)
    }
}

impl Clone for HeaderMap {
    fn clone(&self) -> (r: Self)
        ensures
            r@ == self@,
    {
        let mut out: Vec<HeaderEntry> = Vec::new();
        let mut i: usize = 0;
        while i < self.entries.len()
            invariant
                i <= self.entries.len(),
                out@.len() == i,
                forall|j: int| 0 <= j < i ==> out@[j]@ == self.entries@[j]@,
            decreases self.entries.len() - i,
        {
            out.push(self.entries[i].clone());
            i += 1;
        }
        proof {
            assert(entries_view(out@) =~= entries_view(self.entries@));
        }
        HeaderMap { entries: out }
    }
}

impl HeaderMap {
    /// An empty map.
    pub fn new() -> (r: HeaderMap)
        ensures
            r@ == Seq::<HeaderModel>::empty(),
    {
        proof {
            assert(entries_view(Seq::<HeaderEntry>::empty()) =~= Seq::<HeaderModel>::empty());
        }
        HeaderMap { entries: Vec::new() }
    }

    /// How many lines the map holds.
    pub fn len(&self) -> (n: usize)
        ensures
            n == self@.len(),
    {
        self.entries.len()
    }

    /// Appends one line, leaving every existing line in place.
    pub fn add(&mut self, name: &str, value: &str)
        ensures
            final(self)@ == old(self)@.push(HeaderModel { name: name@, value: value@ }),
    {
        let entry = HeaderEntry { name: String::from_str(name), value: String::from_str(value) };
        self.entries.push(entry);
        proof {
            assert(final(self)@ =~= old(self)@.push(
                HeaderModel { name: name@, value: value@ },
            ));
        }
    }

    /// Whether any line carries `name`, compared case-insensitively.
    pub fn has(&self, name: &str) -> (r: bool)
        ensures
            r == has_name(self@, name@),
    {
        let mut i: usize = 0;
        while i < self.entries.len()
            invariant
                i <= self.entries.len(),
                forall|j: int| 0 <= j < i ==> !ci_eq(self@[j].name, name@),
            decreases self.entries.len() - i,
        {
            proof {
                assert(self@[i as int] == self.entries@[i as int]@);
            }
            if str_eq_ci(self.entries[i].name.as_str(), name) {
                return true;
            }
            i += 1;
        }
        false
    }

    /// The value of the first line carrying `name`, if any.
    pub fn get_first(&self, name: &str) -> (r: Option<String>)
        ensures
            opt_seq(r) == first_value(self@, name@),
    {
        proof {
            assert(self@.skip(0) =~= self@);
        }
        let mut i: usize = 0;
        while i < self.entries.len()
            invariant
                i <= self.entries.len(),
                first_value(self@, name@) == first_value(self@.skip(i as int), name@),
            decreases self.entries.len() - i,
        {
            proof {
                assert(self@[i as int] == self.entries@[i as int]@);
                assert(self@.skip(i as int)[0] == self@[i as int]);
                assert(self@.skip(i as int).drop_first() =~= self@.skip(i + 1));
            }
            if str_eq_ci(self.entries[i].name.as_str(), name) {
                return Some(self.entries[i].value.clone());
            }
            i += 1;
        }
        proof {
            assert(self@.skip(self@.len() as int).len() == 0);
        }
        None
    }

    /// The name of the line at `i`, in insertion order.
    pub fn name_at(&self, i: usize) -> (r: &String)
        requires
            i < self@.len(),
        ensures
            r@ == self@[i as int].name,
    {
        &self.entries[i].name
    }

    /// The value of the line at `i`, in insertion order.
    pub fn value_at(&self, i: usize) -> (r: &String)
        requires
            i < self@.len(),
        ensures
            r@ == self@[i as int].value,
    {
        &self.entries[i].value
    }

    /// Removes every line carrying `name`, keeping the rest in order.
    pub fn remove(&mut self, name: &str)
        ensures
            final(self)@ == remove_name(old(self)@, name@),
    {
        let ghost pred = |h: HeaderModel| !ci_eq(h.name, name@);
        let mut out: Vec<HeaderEntry> = Vec::new();
        let mut i: usize = 0;
        while i < self.entries.len()
            invariant
                i <= self.entries.len(),
                entries_view(out@) =~= old(self)@.take(i as int).filter(pred),
                self == old(self),
                pred == (|h: HeaderModel| !ci_eq(h.name, name@)),
            decreases self.entries.len() - i,
        {
            proof {
                reveal(Seq::filter);
                assert(old(self)@.take(i + 1).drop_last() =~= old(self)@.take(i as int));
                assert(old(self)@.take(i + 1).last() == old(self)@[i as int]);
            }
            if !str_eq_ci(self.entries[i].name.as_str(), name) {
                out.push(self.entries[i].clone());
                proof {
                    assert(entries_view(out@) =~= old(self)@.take(i + 1).filter(pred));
                }
            }
            i += 1;
        }
        proof {
            assert(old(self)@.take(self.entries@.len() as int) =~= old(self)@);
        }
        self.entries = out;
    }

    /// Replaces every line carrying `name` with the single line
    /// `name: value`, appended at the end.
    pub fn set(&mut self, name: &str, value: &str)
        ensures
            final(self)@ == set_value(old(self)@, name@, value@),
    {
        self.remove(name);
        self.add(name, value);
    }
}

/// Anything a filter keeps was already present, and satisfies the filter.
pub proof fn lemma_filter_sub<A>(s: Seq<A>, pred: spec_fn(A) -> bool)
    ensures
        forall|i: int|
            0 <= i < s.filter(pred).len() ==> pred(#[trigger] s.filter(pred)[i]) && s.contains(
                s.filter(pred)[i],
            ),
    decreases s.len(),
{
    reveal(Seq::filter);
    if s.len() != 0 {
        lemma_filter_sub(s.drop_last(), pred);
        assert forall|i: int| 0 <= i < s.filter(pred).len() implies pred(
            #[trigger] s.filter(pred)[i],
        ) && s.contains(s.filter(pred)[i]) by {
            let f = s.filter(pred);
            let fd = s.drop_last().filter(pred);
            if i < fd.len() {
                assert(fd[i] == f[i]);
                assert(s.drop_last().contains(fd[i]));
                let j = choose|j: int| 0 <= j < s.drop_last().len() && s.drop_last()[j] == fd[i];
                assert(s[j] == fd[i]);
            } else {
                assert(f[i] == s.last());
                assert(s[s.len() - 1] == s.last());
            }
        }
    }
}

/// After removing a name, no line carries it, and lines carrying other
/// names are untouched in order.
pub proof fn lemma_remove_name_absent(hs: Seq<HeaderModel>, name: Seq<char>, probe: Seq<char>)
    requires
        ci_eq(name, probe),
    ensures
        !has_name(remove_name(hs, name), probe),
{
    let pred = |h: HeaderModel| !ci_eq(h.name, name);
    lemma_filter_sub(hs, pred);
    let out = remove_name(hs, name);
    assert forall|i: int| 0 <= i < out.len() implies !ci_eq(out[i].name, probe) by {
        assert(pred(out[i]));
        lemma_ci_eq_trans(out[i].name, probe, name);
    }
}

/// Case-insensitive equality carries across a chain of equal names.
pub proof fn lemma_ci_eq_trans(a: Seq<char>, b: Seq<char>, c: Seq<char>)
    ensures
        ci_eq(a, b) && ci_eq(b, c) ==> ci_eq(a, c),
        ci_eq(a, b) ==> ci_eq(b, a),
{
}

} // verus!
