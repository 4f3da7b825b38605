//! Static identity facts of a type: its name, its nesting and the names it
//! stands for.

use vstd::prelude::*;

verus! {

/// Encoding of list and nullable wrapping around a base type.
pub type WrappedValue = u128;

/// The nesting of a plain, unwrapped type.
pub const SINGULAR: WrappedValue = 1;

/// What schema introspection learns of a type, without an instance of it.
pub struct TypeDescriptor {
    pub name: String,
    pub nesting: WrappedValue,
    pub subtypes: Vec<String>,
}

/// Model of a [`TypeDescriptor`].
pub struct DescriptorModel {
    pub name: Seq<char>,
    pub nesting: int,
    pub subtypes: Seq<Seq<char>>,
}

impl View for TypeDescriptor {
    type V = DescriptorModel;

    open spec fn view(&self) -> DescriptorModel {
        DescriptorModel {
            name: self.name@,
            nesting: self.nesting as int,
            subtypes: self.subtypes@.map_values(|s: String| s@),
        }
    }
}

impl DescriptorModel {
    /// A plain scalar is unwrapped and stands for itself alone.
    pub open spec fn is_plain_scalar(self) -> bool {
        &&& self.nesting == SINGULAR as int
        &&& self.subtypes == seq![self.name]
    }
}

impl TypeDescriptor {
    /// The descriptor of a plain scalar named `name`.
    pub fn plain_scalar(name: &str) -> (r: TypeDescriptor)
        ensures
            r@.name == name@,
            r@.is_plain_scalar(),
    {
        let mut subtypes: Vec<String> = Vec::new();
        subtypes.push(name.to_owned());
        let r = TypeDescriptor { name: name.to_owned(), nesting: SINGULAR, subtypes };
        assert(r@.subtypes =~= seq![r@.name]);
        r
    }
}

} // verus!
