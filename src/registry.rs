use vstd::prelude::*;
use crate::info::{LocatedField, MaybeAnimatedPropertyInfoWrapper};
use crate::value::ValueType;

verus! {

/// How a named member of an item is reached.
#[derive(PartialEq, Eq, Structural, Clone, Copy, Debug)]
pub enum Accessor {
    /// A reactive cell whose type cannot be animated.
    Property(LocatedField),
    /// A reactive cell whose type can be animated.
    AnimatedProperty(MaybeAnimatedPropertyInfoWrapper),
    /// A plain field.
    Field(LocatedField),
    /// A signal, by its byte offset in the item.
    Signal(usize),
}

/// The accessor for a reactive cell of type `T` at `f`: the animating one
/// exactly when `T` can be animated.
pub open spec fn property_accessor_spec<T: ValueType>(f: LocatedField) -> Accessor {
    if T::interpolatable() {
        Accessor::AnimatedProperty(MaybeAnimatedPropertyInfoWrapper(f))
    } else {
        Accessor::Property(f)
    }
}

/// Picks the accessor for a reactive cell of type `T` at `f`.
pub fn property_accessor<T: ValueType>(f: LocatedField) -> (r: Accessor)
    ensures
        r == property_accessor_spec::<T>(f),
{
    if T::is_interpolatable() {
        Accessor::AnimatedProperty(MaybeAnimatedPropertyInfoWrapper(f))
    } else {
        Accessor::Property(f)
    }
}

/// Why a member could not be registered.
#[derive(PartialEq, Eq, Structural, Clone, Copy, Debug)]
pub enum RegistryError {
    /// The item already has a member of that name.
    DuplicateName,
}

pub struct Member {
    pub name: String,
    pub accessor: Accessor,
}

/// The members of one kind of item, by name. Names are unique across
/// properties, fields and signals.
pub struct ItemDescriptor {
    name: String,
    members: Vec<Member>,
}

impl ItemDescriptor {
    /// No two members share a name.
    pub closed spec fn wf(&self) -> bool {
        forall|i: int, j: int|
            0 <= i < j < self.members@.len() ==> #[trigger] self.members@[i].name@ != #[trigger] self.members@[j].name@
    }

    pub closed spec fn kind_name(&self) -> Seq<char> {
        self.name@
    }

    /// The number of members.
    pub closed spec fn len(&self) -> nat {
        self.members@.len()
    }

    pub closed spec fn member_name(&self, i: int) -> Seq<char> {
        self.members@[i].name@
    }

    pub closed spec fn member_accessor(&self, i: int) -> Accessor {
        self.members@[i].accessor
    }

    pub open spec fn has(&self, name: Seq<char>) -> bool {
        exists|i: int| 0 <= i < self.len() && #[trigger] self.member_name(i) == name
    }

    /// An item kind called `name`, with no members yet.
    pub fn new(name: String) -> (r: ItemDescriptor)
        ensures
            r.wf(),
            r.kind_name() == name@,
            r.len() == 0,
    {
        ItemDescriptor { name, members: Vec::new() }
    }

    /// The name of the item kind.
    pub fn name(&self) -> (r: &String)
        ensures
            r@ == self.kind_name(),
    {
        &self.name
    }

    /// The position of the member called `name`, if there is one.
    fn position(&self, name: &String) -> (r: Option<usize>)
        ensures
            r matches Some(i) ==> i < self.len() && self.member_name(i as int) == name@,
            r is None ==> !self.has(name@),
    {
        let mut i: usize = 0;
        while i < self.members.len()
            invariant
                i <= self.members@.len(),
                forall|j: int| 0 <= j < i ==> self.members@[j].name@ != name@,
            decreases self.members@.len() - i,
        {
            if self.members[i].name == *name {
                return Some(i);
            }
            i += 1;
        }
        None
    }

    /// Registers `accessor` under `name`, unless the name is taken.
    pub fn add(&mut self, name: String, accessor: Accessor) -> (r: Result<(), RegistryError>)
        requires
            old(self).wf(),
        ensures
            final(self).wf(),
            final(self).kind_name() == old(self).kind_name(),
            r is Err <==> old(self).has(name@),
            r is Err ==> r == Err::<(), RegistryError>(RegistryError::DuplicateName) && final(self).len() == old(self).len(),
            r is Ok ==> final(self).len() == old(self).len() + 1 && final(self).member_name(old(self).len() as int)
                == name@ && final(self).member_accessor(old(self).len() as int) == accessor,
            forall|i: int|
                0 <= i < old(self).len() ==> #[trigger] final(self).member_name(i) == old(self).member_name(i)
                    && final(self).member_accessor(i) == old(self).member_accessor(i),
    {
        match self.position(&name) {
            Some(_) => Err(RegistryError::DuplicateName),
            None => {
                self.members.push(Member { name, accessor });
                proof {
                    assert forall|i: int, j: int| 0 <= i < j < self.members@.len() implies
                        #[trigger] self.members@[i].name@ != #[trigger] self.members@[j].name@ by {
                        if j == self.members@.len() - 1 {
                            assert(old(self).member_name(i) == self.members@[i].name@);
                        }
                    }
                }
                Ok(())
            },
        }
    }

    /// The accessor registered under `name`.
    pub fn lookup(&self, name: &String) -> (r: Option<Accessor>)
        ensures
            r is None <==> !self.has(name@),
            r matches Some(acc) ==> exists|i: int|
                0 <= i < self.len() && #[trigger] self.member_name(i) == name@ && self.member_accessor(i) == acc,
            self.wf() ==> forall|i: int|
                0 <= i < self.len() && #[trigger] self.member_name(i) == name@ ==> r == Some(self.member_accessor(i)),
    {
        match self.position(name) {
            Some(i) => {
                assert forall|j: int| self.wf() && 0 <= j < self.len() && #[trigger] self.member_name(j) == name@ implies j == i by {
                    if j < i {
                        assert(self.members@[j].name@ != self.members@[i as int].name@);
                    } else if i < j {
                        assert(self.members@[i as int].name@ != self.members@[j].name@);
                    }
                }
                Some(self.members[i].accessor)
            },
            None => None,
        }
    }
}

/// An item kind that exposes its members to dynamically typed callers.
pub trait BuiltinItem {
    /// The name of the item kind.
    fn name() -> String;

    /// The members of the item kind, by name.
    fn descriptor() -> ItemDescriptor;
}

} // verus!
