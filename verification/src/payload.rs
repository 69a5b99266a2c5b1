//! The argument payload: a map from field names to self-describing values.

use vstd::prelude::*;
use vstd::string::*;
use crate::text::str_equal;

verus! {

/// One value of a payload.
#[derive(Clone, Debug, PartialEq, Eq)]
pub enum ArgValue {
    Null,
    Bool(bool),
    Number(i64),
    Text(String),
    Bytes(Vec<u8>),
}

/// The mathematical value of an [`ArgValue`].
pub enum ArgView {
    Null,
    Bool(bool),
    Number(i64),
    Text(Seq<char>),
    Bytes(Seq<u8>),
}

impl View for ArgValue {
    type V = ArgView;

    open spec fn view(&self) -> ArgView {
        match self {
            ArgValue::Null => ArgView::Null,
            ArgValue::Bool(b) => ArgView::Bool(*b),
            ArgValue::Number(n) => ArgView::Number(*n),
            ArgValue::Text(s) => ArgView::Text(s@),
            ArgValue::Bytes(b) => ArgView::Bytes(b@),
        }
    }
}

/// The map that a list of entries stands for: a later entry replaces an
/// earlier one of the same name.
pub open spec fn entries_map(entries: Seq<(String, ArgValue)>) -> Map<Seq<char>, ArgView>
    decreases entries.len(),
{
    if entries.len() == 0 {
        Map::empty()
    } else {
        entries_map(entries.drop_last()).insert(entries.last().0@, entries.last().1@)
    }
}

/// A map of named fields, as a caller hands it over.
#[derive(Clone, Debug, PartialEq, Eq)]
pub struct Payload {
    entries: Vec<(String, ArgValue)>,
}

impl View for Payload {
    type V = Map<Seq<char>, ArgView>;

    closed spec fn view(&self) -> Map<Seq<char>, ArgView> {
        entries_map(self.entries@)
    }
}

impl Payload {
    /// A payload without fields.
    pub fn new() -> (payload: Payload)
        ensures
            payload@ == Map::<Seq<char>, ArgView>::empty(),
    {
        Payload { entries: Vec::new() }
    }

    /// Sets the field `name` to `value`, replacing what it held.
    pub fn insert(&mut self, name: &str, value: ArgValue)
        ensures
            final(self)@ == old(self)@.insert(name@, value@),
    {
        let ghost before = self.entries@;
        let entry = (String::from_str(name), value);
        self.entries.push(entry);
        assert(self.entries@.drop_last() =~= before);
    }

    /// The value of the field `name`, if the payload has that field.
    pub fn get(&self, name: &str) -> (found: Option<&ArgValue>)
        ensures
            match found {
                Some(value) => self@.contains_key(name@) && self@[name@] == value@,
                None => !self@.contains_key(name@),
            },
    {
        let mut i: usize = self.entries.len();
        assert(self.entries@.take(i as int) =~= self.entries@);
        while i > 0
            invariant
                i <= self.entries@.len(),
                entries_map(self.entries@).contains_key(name@) == entries_map(
                    self.entries@.take(i as int),
                ).contains_key(name@),
                entries_map(self.entries@).contains_key(name@) ==> entries_map(
                    self.entries@,
                )[name@] == entries_map(self.entries@.take(i as int))[name@],
            decreases i,
        {
            assert(self.entries@.take(i as int).drop_last() =~= self.entries@.take(i - 1));
            i -= 1;
            let entry = &self.entries[i];
            if str_equal(entry.0.as_str(), name) {
                return Some(&entry.1);
            }
        }
        assert(self.entries@.take(0).len() == 0);
        None
    }
}

} // verus!
