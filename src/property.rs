use vstd::prelude::*;
use crate::geometry::{Constraint, ContentId, Point, Rectangle, Thickness, Visibility};

verus! {

/// A property value, tagged with its type.
#[derive(Clone, Copy, Debug, PartialEq, Eq, Structural)]
pub enum Value {
    Rectangle(Rectangle),
    Point(Point),
    Thickness(Thickness),
    Constraint(Constraint),
    Visibility(Visibility),
    ContentId(ContentId),
}

/// Why an access to the widget tree failed.
#[derive(Clone, Copy, Debug, PartialEq, Eq, Structural)]
pub enum TreeError {
    /// The property or the entity is absent.
    NotFound,
    /// The property holds a value of another type.
    TypeMismatch,
    /// A stored entity id no longer denotes a live entity.
    DanglingReference,
}

/// Whether two values are of the same type.
pub open spec fn same_type(a: Value, b: Value) -> bool {
    match (a, b) {
        (Value::Rectangle(_), Value::Rectangle(_)) => true,
        (Value::Point(_), Value::Point(_)) => true,
        (Value::Thickness(_), Value::Thickness(_)) => true,
        (Value::Constraint(_), Value::Constraint(_)) => true,
        (Value::Visibility(_), Value::Visibility(_)) => true,
        (Value::ContentId(_), Value::ContentId(_)) => true,
        _ => false,
    }
}

impl Value {
    pub fn is_same_type(&self, other: &Value) -> (r: bool)
        ensures
            r == same_type(*self, *other),
    {
        match (self, other) {
            (Value::Rectangle(_), Value::Rectangle(_)) => true,
            (Value::Point(_), Value::Point(_)) => true,
            (Value::Thickness(_), Value::Thickness(_)) => true,
            (Value::Constraint(_), Value::Constraint(_)) => true,
            (Value::Visibility(_), Value::Visibility(_)) => true,
            (Value::ContentId(_), Value::ContentId(_)) => true,
            _ => false,
        }
    }
}

/// The contents of a property store: a value for each (entity, name) slot.
pub type PropMap = Map<(u32, Seq<char>), Value>;

/// What `set` makes of a store: the slot is created or overwritten, unless it
/// already holds a value of another type.
pub open spec fn set_spec(m: PropMap, e: u32, name: Seq<char>, v: Value) -> Result<PropMap, TreeError> {
    if m.contains_key((e, name)) && !same_type(m[(e, name)], v) {
        Err(TreeError::TypeMismatch)
    } else {
        Ok(m.insert((e, name), v))
    }
}

/// What `get` returns.
pub open spec fn get_spec(m: PropMap, e: u32, name: Seq<char>) -> Result<Value, TreeError> {
    if m.contains_key((e, name)) {
        Ok(m[(e, name)])
    } else {
        Err(TreeError::NotFound)
    }
}

/// Whether two strings hold the same characters.
pub fn str_eq(a: &str, b: &str) -> (r: bool)
    ensures
        r == (a@ == b@),
{
    let n = a.unicode_len();
    if n != b.unicode_len() {
        return false;
    }
    let mut i: usize = 0;
    while i < n
        invariant
            n == a@.len(),
            n == b@.len(),
            i <= n,
            forall|j: int| 0 <= j < i ==> a@[j] == b@[j],
        decreases n - i,
    {
        if a.get_char(i) != b.get_char(i) {
            return false;
        }
        i += 1;
    }
    assert(a@ =~= b@);
    true
}

/// Per-entity typed properties, addressed by entity and name.
pub struct PropertyStore {
    owners: Vec<u32>,
    names: Vec<String>,
    values: Vec<Value>,
    contents: Ghost<PropMap>,
}

impl View for PropertyStore {
    type V = PropMap;

    closed spec fn view(&self) -> PropMap {
        self.contents@
    }
}

impl PropertyStore {
    /// The slots are stored once each, and the contents are exactly the stored slots.
    pub closed spec fn wf(&self) -> bool {
        &&& self.owners@.len() == self.names@.len()
        &&& self.owners@.len() == self.values@.len()
        &&& forall|i: int, j: int|
            0 <= i < j < self.owners@.len() ==> (self.owners@[i], self.names@[i]@) != (
            self.owners@[j],
            self.names@[j]@,
        )
        &&& forall|i: int|
            0 <= i < self.owners@.len() ==> #[trigger] self.contents@.contains_key(
                (self.owners@[i], self.names@[i]@),
            ) && self.contents@[(self.owners@[i], self.names@[i]@)] == self.values@[i]
        &&& forall|k: (u32, Seq<char>)|
            #[trigger] self.contents@.contains_key(k) ==> exists|i: int|
                0 <= i < self.owners@.len() && self.owners@[i] == k.0 && self.names@[i]@ == k.1
    }

    pub fn new() -> (r: PropertyStore)
        ensures
            r.wf(),
            r@ == PropMap::empty(),
    {
        PropertyStore {
            owners: Vec::new(),
            names: Vec::new(),
            values: Vec::new(),
            contents: Ghost(PropMap::empty()),
        }
    }

    fn find(&self, e: u32, name: &str) -> (r: Option<usize>)
        requires
            self.wf(),
        ensures
            match r {
                Some(i) => i < self.owners@.len() && self.owners@[i as int] == e
                    && self.names@[i as int]@ == name@,
                None => !self@.contains_key((e, name@)),
            },
    {
        let mut i: usize = 0;
        while i < self.owners.len()
            invariant
                self.wf(),
                i <= self.owners@.len(),
                forall|j: int|
                    0 <= j < i ==> !(self.owners@[j] == e && self.names@[j]@ == name@),
            decreases self.owners@.len() - i,
        {
            if self.owners[i] == e && str_eq(self.names[i].as_str(), name) {
                return Some(i);
            }
            i += 1;
        }
        None
    }

    /// The value in slot (`e`, `name`).
    pub fn get(&self, e: u32, name: &str) -> (r: Result<Value, TreeError>)
        requires
            self.wf(),
        ensures
            r == get_spec(self@, e, name@),
    {
        match self.find(e, name) {
            Some(i) => Ok(self.values[i]),
            None => Err(TreeError::NotFound),
        }
    }

    /// Writes `v` into slot (`e`, `name`), creating the slot if it is absent.
    pub fn set(&mut self, e: u32, name: &str, v: Value) -> (r: Result<(), TreeError>)
        requires
            old(self).wf(),
        ensures
            final(self).wf(),
            match set_spec(old(self)@, e, name@, v) {
                Ok(m) => r is Ok && final(self)@ == m,
                Err(err) => r == Err::<(), TreeError>(err) && final(self)@ == old(self)@,
            },
    {
        match self.find(e, name) {
            Some(i) => {
                assert(self.contents@.contains_key((self.owners@[i as int], self.names@[i as int]@)));
                if !self.values[i].is_same_type(&v) {
                    return Err(TreeError::TypeMismatch);
                }
                self.values.set(i, v);
                self.contents = Ghost(self.contents@.insert((e, name@), v));
                assert forall|j: int|
                    0 <= j < self.owners@.len() implies #[trigger] self.contents@.contains_key(
                    (self.owners@[j], self.names@[j]@),
                ) && self.contents@[(self.owners@[j], self.names@[j]@)] == self.values@[j] by {
                    if j != i {
                        assert(old(self).contents@.contains_key((old(self).owners@[j], old(self).names@[j]@)));
                    }
                }
                assert forall|k: (u32, Seq<char>)| #[trigger] self.contents@.contains_key(k)
                    implies exists|j: int|
                    0 <= j < self.owners@.len() && self.owners@[j] == k.0 && self.names@[j]@
                        == k.1 by {
                    if k != (e, name@) {
                        assert(old(self).contents@.contains_key(k));
                    } else {
                        assert(self.owners@[i as int] == k.0 && self.names@[i as int]@ == k.1);
                    }
                }
                Ok(())
            },
            None => {
                let ghost old_len = self.owners@.len();
                self.owners.push(e);
                self.names.push(name.to_string());
                self.values.push(v);
                self.contents = Ghost(self.contents@.insert((e, name@), v));
                assert(self.contents@.contains_key((self.owners@[old_len as int], self.names@[old_len as int]@)));
                assert forall|i: int|
                    0 <= i < self.owners@.len() implies #[trigger] self.contents@.contains_key(
                    (self.owners@[i], self.names@[i]@),
                ) && self.contents@[(self.owners@[i], self.names@[i]@)] == self.values@[i] by {
                    if i < old_len {
                        assert(old(self).contents@.contains_key((old(self).owners@[i], old(self).names@[i]@)));
                    }
                }
                assert forall|k: (u32, Seq<char>)| #[trigger] self.contents@.contains_key(k)
                    implies exists|j: int|
                    0 <= j < self.owners@.len() && self.owners@[j] == k.0 && self.names@[j]@
                        == k.1 by {
                    if k != (e, name@) {
                        assert(old(self).contents@.contains_key(k));
                        let j = choose|j: int|
                            0 <= j < old(self).owners@.len() && old(self).owners@[j] == k.0
                                && old(self).names@[j]@ == k.1;
                        assert(self.owners@[j] == k.0 && self.names@[j]@ == k.1);
                    } else {
                        assert(self.owners@[old_len as int] == k.0);
                    }
                }
                Ok(())
            },
        }
    }
}

} // verus!
