use vstd::prelude::*;
use crate::geometry::{Constraint, ContentId, Point, Rectangle, Thickness, Visibility};
use crate::property::{get_spec, set_spec, str_eq, PropMap, PropertyStore, TreeError, Value};

verus! {

/// A stable identifier of a node in the widget tree. Ids are never reused.
#[derive(Clone, Copy, Debug, PartialEq, Eq, Structural)]
pub struct Entity(pub u32);

/// The abstract state of a tree: for each id ever created, whether it is live,
/// its parent and its lookup key; and the property slots.
pub struct TreeView {
    pub alive: Seq<bool>,
    pub parents: Seq<Option<u32>>,
    pub keys: Seq<Option<Seq<char>>>,
    pub props: PropMap,
}

impl TreeView {
    pub open spec fn live(self, e: u32) -> bool {
        e < self.alive.len() && self.alive[e as int]
    }

    /// Whether `c` is a live direct child of `p` registered under `key`.
    pub open spec fn is_keyed_child(self, c: int, p: u32, key: Seq<char>) -> bool {
        0 <= c < self.alive.len() && self.alive[c] && self.parents[c] == Some(p)
            && self.keys[c] == Some(key)
    }

    /// The first child of `p` from id `i` on that is registered under `key`.
    pub open spec fn keyed_child_from(self, p: u32, key: Seq<char>, i: int) -> Option<u32>
        decreases self.alive.len() - i,
    {
        if i < 0 || i >= self.alive.len() {
            None
        } else if self.is_keyed_child(i, p, key) {
            Some(i as u32)
        } else {
            self.keyed_child_from(p, key, i + 1)
        }
    }

    /// The direct child of `p` registered under `key`, earliest built first.
    pub open spec fn keyed_child(self, p: u32, key: Seq<char>) -> Option<u32> {
        self.keyed_child_from(p, key, 0)
    }

    /// The live direct children of `p` among the first `n` ids, in build order.
    pub open spec fn children_upto(self, p: u32, n: int) -> Seq<u32>
        decreases n,
    {
        if n <= 0 {
            Seq::empty()
        } else if self.live((n - 1) as u32) && self.parents[n - 1] == Some(p) {
            self.children_upto(p, n - 1).push((n - 1) as u32)
        } else {
            self.children_upto(p, n - 1)
        }
    }

    pub open spec fn children(self, p: u32) -> Seq<u32> {
        self.children_upto(p, self.alive.len() as int)
    }

    /// What a read of property `name` of `e` gives.
    pub open spec fn prop(self, e: u32, name: Seq<char>) -> Result<Value, TreeError> {
        if !self.live(e) {
            Err(TreeError::NotFound)
        } else {
            get_spec(self.props, e, name)
        }
    }

    /// The property slots after a write of `v` into property `name` of `e`.
    pub open spec fn set_prop(self, e: u32, name: Seq<char>, v: Value) -> Result<PropMap, TreeError> {
        if !self.live(e) {
            Err(TreeError::NotFound)
        } else {
            set_spec(self.props, e, name, v)
        }
    }

    pub open spec fn with_props(self, props: PropMap) -> TreeView {
        TreeView { props, ..self }
    }

    /// One parent and one key for each id, ids that fit in `u32`, and every
    /// parent with a smaller id than its child.
    pub open spec fn consistent(self) -> bool {
        &&& self.parents.len() == self.alive.len()
        &&& self.keys.len() == self.alive.len()
        &&& self.alive.len() <= u32::MAX
        &&& forall|i: int|
            0 <= i < self.parents.len() && (#[trigger] self.parents[i]) is Some ==> (
            self.parents[i]->0 as int) < i
    }

    /// A keyed lookup finds a live child of `p` registered under `key`.
    pub proof fn lemma_keyed_child_is_child(self, p: u32, key: Seq<char>, i: int)
        requires
            self.alive.len() <= u32::MAX,
        ensures
            self.keyed_child_from(p, key, i) matches Some(c) ==> self.is_keyed_child(c as int, p, key),
        decreases self.alive.len() - i,
    {
        if 0 <= i < self.alive.len() && !self.is_keyed_child(i, p, key) {
            self.lemma_keyed_child_is_child(p, key, i + 1);
        }
    }

    pub open spec fn same_shape(self, other: TreeView) -> bool {
        self.alive == other.alive && self.parents == other.parents && self.keys == other.keys
    }

    /// Keyed lookup reads the shape of the tree only, not its properties.
    pub proof fn lemma_keyed_child_shape(self, other: TreeView, p: u32, key: Seq<char>, i: int)
        requires
            self.same_shape(other),
        ensures
            self.keyed_child_from(p, key, i) == other.keyed_child_from(p, key, i),
        decreases self.alive.len() - i,
    {
        if 0 <= i < self.alive.len() {
            self.lemma_keyed_child_shape(other, p, key, i + 1);
        }
    }
}

pub open spec fn as_rectangle(r: Result<Value, TreeError>) -> Result<Rectangle, TreeError> {
    match r {
        Ok(Value::Rectangle(x)) => Ok(x),
        Ok(_) => Err(TreeError::TypeMismatch),
        Err(e) => Err(e),
    }
}

pub open spec fn as_point(r: Result<Value, TreeError>) -> Result<Point, TreeError> {
    match r {
        Ok(Value::Point(x)) => Ok(x),
        Ok(_) => Err(TreeError::TypeMismatch),
        Err(e) => Err(e),
    }
}

pub open spec fn as_thickness(r: Result<Value, TreeError>) -> Result<Thickness, TreeError> {
    match r {
        Ok(Value::Thickness(x)) => Ok(x),
        Ok(_) => Err(TreeError::TypeMismatch),
        Err(e) => Err(e),
    }
}

pub open spec fn as_constraint(r: Result<Value, TreeError>) -> Result<Constraint, TreeError> {
    match r {
        Ok(Value::Constraint(x)) => Ok(x),
        Ok(_) => Err(TreeError::TypeMismatch),
        Err(e) => Err(e),
    }
}

pub open spec fn as_visibility(r: Result<Value, TreeError>) -> Result<Visibility, TreeError> {
    match r {
        Ok(Value::Visibility(x)) => Ok(x),
        Ok(_) => Err(TreeError::TypeMismatch),
        Err(e) => Err(e),
    }
}

pub open spec fn as_content_id(r: Result<Value, TreeError>) -> Result<ContentId, TreeError> {
    match r {
        Ok(Value::ContentId(x)) => Ok(x),
        Ok(_) => Err(TreeError::TypeMismatch),
        Err(e) => Err(e),
    }
}

/// The widget tree: parent links, lookup keys and properties of every entity.
pub struct EntityTree {
    alive: Vec<bool>,
    parents: Vec<Option<u32>>,
    keys: Vec<Option<String>>,
    props: PropertyStore,
}

pub open spec fn key_view(k: Option<String>) -> Option<Seq<char>> {
    match k {
        Some(s) => Some(s@),
        None => None,
    }
}

impl View for EntityTree {
    type V = TreeView;

    closed spec fn view(&self) -> TreeView {
        TreeView {
            alive: self.alive@,
            parents: self.parents@,
            keys: self.keys@.map_values(|k: Option<String>| key_view(k)),
            props: self.props@,
        }
    }
}

impl EntityTree {
    /// Every parent was built before its child, and the ids fit in `u32`.
    pub closed spec fn wf(&self) -> bool {
        &&& self.alive@.len() == self.parents@.len()
        &&& self.alive@.len() == self.keys@.len()
        &&& self.alive@.len() <= u32::MAX
        &&& self.props.wf()
        &&& forall|k: (u32, Seq<char>)|
            #[trigger] self.props@.contains_key(k) ==> (k.0 as int) < self.alive@.len()
        &&& forall|i: int|
            0 <= i < self.parents@.len() && (#[trigger] self.parents@[i]) is Some ==> (
            self.parents@[i]->0 as int) < i
    }

    pub proof fn lemma_wf(&self)
        requires
            self.wf(),
        ensures
            self@.consistent(),
            forall|k: (u32, Seq<char>)|
                #[trigger] self@.props.contains_key(k) ==> (k.0 as int) < self@.alive.len(),
    {
    }

    pub fn new() -> (r: EntityTree)
        ensures
            r.wf(),
            r@.alive.len() == 0,
            r@.props == PropMap::empty(),
    {
        let r = EntityTree {
            alive: Vec::new(),
            parents: Vec::new(),
            keys: Vec::new(),
            props: PropertyStore::new(),
        };
        assert(r@.keys =~= Seq::<Option<Seq<char>>>::empty());
        r
    }

    /// The number of ids created so far.
    pub fn len(&self) -> (r: usize)
        requires
            self.wf(),
        ensures
            r == self@.alive.len(),
    {
        self.alive.len()
    }

    pub fn is_alive(&self, e: Entity) -> (r: bool)
        requires
            self.wf(),
        ensures
            r == self@.live(e.0),
    {
        (e.0 as usize) < self.alive.len() && self.alive[e.0 as usize]
    }

    /// Creates an entity under `parent` (a root where it is `None`), registered
    /// under `key` if one is given.
    pub fn create_entity(&mut self, parent: Option<Entity>, key: Option<&str>) -> (r: Result<Entity, TreeError>)
        requires
            old(self).wf(),
            old(self)@.alive.len() < u32::MAX,
        ensures
            final(self).wf(),
            match parent {
                Some(p) if !old(self)@.live(p.0) => r == Err::<Entity, TreeError>(TreeError::NotFound)
                    && final(self)@ == old(self)@,
                _ => r == Ok::<Entity, TreeError>(Entity(old(self)@.alive.len() as u32))
                    && final(self)@ == (TreeView {
                        alive: old(self)@.alive.push(true),
                        parents: old(self)@.parents.push(
                            match parent {
                                Some(p) => Some(p.0),
                                None => None,
                            },
                        ),
                        keys: old(self)@.keys.push(
                            match key {
                                Some(k) => Some(k@),
                                None => None,
                            },
                        ),
                        props: old(self)@.props,
                    }),
            },
    {
        let p: Option<u32> = match parent {
            Some(p) => {
                if !self.is_alive(p) {
                    return Err(TreeError::NotFound);
                }
                Some(p.0)
            },
            None => None,
        };
        let k: Option<String> = match key {
            Some(k) => Some(k.to_string()),
            None => None,
        };
        let id = self.alive.len() as u32;
        self.alive.push(true);
        self.parents.push(p);
        self.keys.push(k);
        assert(self@.keys =~= old(self)@.keys.push(
            match key {
                Some(k) => Some(k@),
                None => None,
            },
        ));
        Ok(Entity(id))
    }

    /// Marks `e` as removed. Its id is never given out again.
    pub fn remove_entity(&mut self, e: Entity) -> (r: Result<(), TreeError>)
        requires
            old(self).wf(),
        ensures
            final(self).wf(),
            old(self)@.live(e.0) ==> r is Ok && final(self)@ == (TreeView {
                alive: old(self)@.alive.update(e.0 as int, false),
                ..old(self)@
            }),
            !old(self)@.live(e.0) ==> r == Err::<(), TreeError>(TreeError::NotFound)
                && final(self)@ == old(self)@,
    {
        if !self.is_alive(e) {
            return Err(TreeError::NotFound);
        }
        self.alive.set(e.0 as usize, false);
        Ok(())
    }

    /// Turns a stored id back into an entity, if it still denotes a live one.
    pub fn resolve(&self, id: u32) -> (r: Result<Entity, TreeError>)
        requires
            self.wf(),
        ensures
            self@.live(id) ==> r == Ok::<Entity, TreeError>(Entity(id)),
            !self@.live(id) ==> r == Err::<Entity, TreeError>(TreeError::DanglingReference),
    {
        if self.is_alive(Entity(id)) {
            Ok(Entity(id))
        } else {
            Err(TreeError::DanglingReference)
        }
    }

    /// The live direct children of `e`, in build order.
    pub fn children_of(&self, e: Entity) -> (r: Vec<Entity>)
        requires
            self.wf(),
        ensures
            r@.map_values(|c: Entity| c.0) == self@.children(e.0),
    {
        let mut r: Vec<Entity> = Vec::new();
        let mut i: usize = 0;
        while i < self.alive.len()
            invariant
                self.wf(),
                i <= self@.alive.len(),
                r@.map_values(|c: Entity| c.0) == self@.children_upto(e.0, i as int),
            decreases self@.alive.len() - i,
        {
            if self.alive[i] && self.parents[i] == Some(e.0) {
                r.push(Entity(i as u32));
            }
            proof {
                assert(r@.map_values(|c: Entity| c.0) =~= self@.children_upto(e.0, i + 1));
            }
            i += 1;
        }
        r
    }

    /// The direct child of `e` registered under `key`, if there is one.
    pub fn child_by_key(&self, e: Entity, key: &str) -> (r: Option<Entity>)
        requires
            self.wf(),
        ensures
            match self@.keyed_child(e.0, key@) {
                Some(c) => r == Some(Entity(c)),
                None => r is None,
            },
    {
        let mut i: usize = 0;
        while i < self.alive.len()
            invariant
                self.wf(),
                i <= self@.alive.len(),
                self@.keyed_child(e.0, key@) == self@.keyed_child_from(e.0, key@, i as int),
            decreases self@.alive.len() - i,
        {
            let found = match &self.keys[i] {
                Some(k) => self.alive[i] && self.parents[i] == Some(e.0) && str_eq(k.as_str(), key),
                None => false,
            };
            if found {
                return Some(Entity(i as u32));
            }
            i += 1;
        }
        None
    }

    /// Reads property `name` of `e`.
    pub fn get(&self, e: Entity, name: &str) -> (r: Result<Value, TreeError>)
        requires
            self.wf(),
        ensures
            r == self@.prop(e.0, name@),
    {
        if !self.is_alive(e) {
            return Err(TreeError::NotFound);
        }
        self.props.get(e.0, name)
    }

    /// Writes property `name` of `e`; the slot is created if absent and must
    /// otherwise hold a value of the same type.
    pub fn set(&mut self, e: Entity, name: &str, v: Value) -> (r: Result<(), TreeError>)
        requires
            old(self).wf(),
        ensures
            final(self).wf(),
            match old(self)@.set_prop(e.0, name@, v) {
                Ok(m) => r is Ok && final(self)@ == old(self)@.with_props(m),
                Err(err) => r == Err::<(), TreeError>(err) && final(self)@ == old(self)@,
            },
    {
        if !self.is_alive(e) {
            return Err(TreeError::NotFound);
        }
        self.props.set(e.0, name, v)
    }

    pub fn get_rectangle(&self, e: Entity, name: &str) -> (r: Result<Rectangle, TreeError>)
        requires
            self.wf(),
        ensures
            r == as_rectangle(self@.prop(e.0, name@)),
    {
        match self.get(e, name) {
            Ok(Value::Rectangle(x)) => Ok(x),
            Ok(_) => Err(TreeError::TypeMismatch),
            Err(err) => Err(err),
        }
    }

    pub fn get_point(&self, e: Entity, name: &str) -> (r: Result<Point, TreeError>)
        requires
            self.wf(),
        ensures
            r == as_point(self@.prop(e.0, name@)),
    {
        match self.get(e, name) {
            Ok(Value::Point(x)) => Ok(x),
            Ok(_) => Err(TreeError::TypeMismatch),
            Err(err) => Err(err),
        }
    }

    pub fn get_thickness(&self, e: Entity, name: &str) -> (r: Result<Thickness, TreeError>)
        requires
            self.wf(),
        ensures
            r == as_thickness(self@.prop(e.0, name@)),
    {
        match self.get(e, name) {
            Ok(Value::Thickness(x)) => Ok(x),
            Ok(_) => Err(TreeError::TypeMismatch),
            Err(err) => Err(err),
        }
    }

    pub fn get_constraint(&self, e: Entity, name: &str) -> (r: Result<Constraint, TreeError>)
        requires
            self.wf(),
        ensures
            r == as_constraint(self@.prop(e.0, name@)),
    {
        match self.get(e, name) {
            Ok(Value::Constraint(x)) => Ok(x),
            Ok(_) => Err(TreeError::TypeMismatch),
            Err(err) => Err(err),
        }
    }

    pub fn get_visibility(&self, e: Entity, name: &str) -> (r: Result<Visibility, TreeError>)
        requires
            self.wf(),
        ensures
            r == as_visibility(self@.prop(e.0, name@)),
    {
        match self.get(e, name) {
            Ok(Value::Visibility(x)) => Ok(x),
            Ok(_) => Err(TreeError::TypeMismatch),
            Err(err) => Err(err),
        }
    }

    pub fn get_content_id(&self, e: Entity, name: &str) -> (r: Result<ContentId, TreeError>)
        requires
            self.wf(),
        ensures
            r == as_content_id(self@.prop(e.0, name@)),
    {
        match self.get(e, name) {
            Ok(Value::ContentId(x)) => Ok(x),
            Ok(_) => Err(TreeError::TypeMismatch),
            Err(err) => Err(err),
        }
    }
}

} // verus!
