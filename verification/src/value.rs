use crate::text_map::{keys_of, TextMap};
use vstd::prelude::*;

verus! {

/// One value of an event's payload: text, a whole number, or a nested object.
#[derive(Debug)]
pub enum Value {
    Text(String),
    Number(u64),
    Object(Content),
}

/// A payload: values under text keys.
#[derive(Debug)]
pub struct Content {
    pub(crate) fields: TextMap<Value>,
}

/// What a `Value` stands for.
pub enum ValueView {
    Text(Seq<char>),
    Number(u64),
    Object(Map<Seq<char>, ValueView>),
}

impl Content {
    /// What the payload stands for: each of its keys with what the value
    /// under it stands for.
    pub open(crate) spec fn view(&self) -> Map<Seq<char>, ValueView>
        decreases self,
    {
        Map::new(
            |k: Seq<char>| self.fields.keys().contains(k),
            |k: Seq<char>|
                {
                    let i = self.fields.slot(k);
                    if 0 <= i < self.fields.entries.len() {
                        self.fields.entries[i].1.view()
                    } else {
                        ValueView::Number(0)
                    }
                },
        )
    }

    /// The view has the keys of the stored map, and under each what the
    /// stored value stands for.
    pub(crate) proof fn lemma_view(&self)
        ensures
            self@.dom() == self.fields@.dom(),
            forall|k: Seq<char>| #[trigger]
                self.fields@.contains_key(k) ==> self@[k] == self.fields@[k]@,
    {
        assert(self@.dom() =~= self.fields@.dom());
        assert forall|k: Seq<char>| #[trigger] self.fields@.contains_key(k) implies self@[k]
            == self.fields@[k]@ by {
            let i = self.fields.slot(k);
            assert(self.fields.keys().contains(k));
            assert(0 <= i < self.fields.keys().len());
        }
    }

    /// Makes the empty payload.
    pub fn new() -> (c: Self)
        ensures
            c@ == Map::<Seq<char>, ValueView>::empty(),
    {
        let c = Content { fields: TextMap::new() };
        assert(c@ =~= Map::<Seq<char>, ValueView>::empty());
        c
    }

    /// The value under `key`, if there is one.
    pub fn get(&self, key: &String) -> (r: Option<&Value>)
        ensures
            match r {
                Some(v) => self@.contains_key(key@) && v@ == self@[key@],
                None => !self@.contains_key(key@),
            },
    {
        proof {
            self.lemma_view();
        }
        self.fields.get(key)
    }

    /// Puts `value` under `key`, in place of what was there.
    pub fn insert(&mut self, key: String, value: Value)
        ensures
            final(self)@ == old(self)@.insert(key@, value@),
    {
        proof {
            self.lemma_view();
        }
        self.fields.insert(key, value);
        proof {
            self.lemma_view();
            assert(self@ =~= old(self)@.insert(key@, value@));
        }
    }

}

impl Clone for Content {
    /// Copies a payload, nested objects included.
    fn clone(&self) -> (r: Self)
        ensures
            r@ == self@,
        decreases self,
    {
        let mut entries: Vec<(String, Value)> = Vec::new();
        let mut i: usize = 0;
        while i < self.fields.entries.len()
            invariant
                i <= self.fields.entries.len(),
                entries.len() == i,
                forall|j: int|
                    0 <= j < i ==> (#[trigger] entries[j]).0@ == self.fields.entries[j].0@
                        && entries[j].1@ == self.fields.entries[j].1@,
            decreases self.fields.entries.len() - i,
        {
            let key = self.fields.entries[i].0.clone();
            let value = self.fields.entries[i].1.clone();
            entries.push((key, value));
            i += 1;
        }
        proof {
            use_type_invariant(&self.fields);
            assert(keys_of(entries@) =~= keys_of(self.fields.entries@));
        }
        let r = Content { fields: TextMap { entries } };
        proof {
            assert(r@ =~= self@);
        }
        r
    }
}

impl Value {
    pub open(crate) spec fn view(&self) -> ValueView
        decreases self,
    {
        match self {
            Value::Text(s) => ValueView::Text(s@),
            Value::Number(n) => ValueView::Number(*n),
            Value::Object(fields) => ValueView::Object(fields@),
        }
    }

    /// The text of a text value.
    pub fn as_text(&self) -> (r: Option<&String>)
        ensures
            match r {
                Some(s) => self@ == ValueView::Text(s@),
                None => !(self@ is Text),
            },
    {
        match self {
            Value::Text(s) => Some(s),
            _ => None,
        }
    }

    /// The number of a number value.
    pub fn as_number(&self) -> (r: Option<u64>)
        ensures
            match r {
                Some(n) => self@ == ValueView::Number(n),
                None => !(self@ is Number),
            },
    {
        match self {
            Value::Number(n) => Some(*n),
            _ => None,
        }
    }

    /// The fields of an object value.
    pub fn as_object(&self) -> (r: Option<&Content>)
        ensures
            match r {
                Some(fields) => self@ == ValueView::Object(fields@),
                None => !(self@ is Object),
            },
    {
        match self {
            Value::Object(fields) => Some(fields),
            _ => None,
        }
    }
}

impl Clone for Value {
    /// Copies a value, nested objects included.
    fn clone(&self) -> (r: Self)
        ensures
            r@ == self@,
        decreases self,
    {
        match self {
            Value::Text(s) => Value::Text(s.clone()),
            Value::Number(n) => Value::Number(*n),
            Value::Object(fields) => Value::Object(fields.clone()),
        }
    }
}

} // verus!
