//! Records with hand-written patch types: each record patch holds one patch per
//! field and applies each to its field, by that field's own shape.
use vstd::prelude::*;

use crate::patch::Patchable;

verus! {

/// A record with a single integer field.
#[derive(Clone, Debug, PartialEq, Eq)]
pub struct Bar {
    pub foobar: i32,
}

/// Patch for [`Bar`]: the field is replaced when present.
#[derive(Clone, Debug, PartialEq, Eq)]
pub struct BarPatch {
    pub foobar: Option<i32>,
}

impl Patchable<BarPatch> for Bar {
    open spec fn patched(self, patch: BarPatch) -> Bar {
        Bar { foobar: i32::patched(self.foobar, patch.foobar) }
    }

    fn apply_patch(&mut self, patch: BarPatch)
        ensures
            final(self).foobar == i32::patched(old(self).foobar, patch.foobar),
    {
        self.foobar.apply_patch(patch.foobar);
    }
}

/// A record that holds a string and a nested [`Bar`].
#[derive(Clone, Debug, PartialEq, Eq)]
pub struct MyStruct {
    pub foo: String,
    pub bar: Bar,
}

/// Patch for [`MyStruct`]: `foo` is replaced when present, while `bar` is
/// merged into field by field.
#[derive(Clone, Debug, PartialEq, Eq)]
pub struct MyPatch {
    pub foo: Option<String>,
    pub bar: BarPatch,
}

impl Patchable<MyPatch> for MyStruct {
    open spec fn patched(self, patch: MyPatch) -> MyStruct {
        MyStruct {
            foo: String::patched(self.foo, patch.foo),
            bar: Bar::patched(self.bar, patch.bar),
        }
    }

    fn apply_patch(&mut self, patch: MyPatch)
        ensures
            final(self).foo == String::patched(old(self).foo, patch.foo),
            final(self).bar == Bar::patched(old(self).bar, patch.bar),
    {
        self.foo.apply_patch(patch.foo);
        self.bar.apply_patch(patch.bar);
    }
}

/// A person's name and age.
#[derive(Clone, Debug, PartialEq, Eq)]
pub struct Person {
    pub name: String,
    pub age: u32,
}

/// Patch for [`Person`]: each field is replaced when present.
#[derive(Clone, Debug, PartialEq, Eq)]
pub struct PersonPatch {
    pub name: Option<String>,
    pub age: Option<u32>,
}

impl Patchable<PersonPatch> for Person {
    open spec fn patched(self, patch: PersonPatch) -> Person {
        Person {
            name: String::patched(self.name, patch.name),
            age: u32::patched(self.age, patch.age),
        }
    }

    fn apply_patch(&mut self, patch: PersonPatch)
        ensures
            final(self).name == String::patched(old(self).name, patch.name),
            final(self).age == u32::patched(old(self).age, patch.age),
    {
        self.name.apply_patch(patch.name);
        self.age.apply_patch(patch.age);
    }
}

} // verus!
