//! Module injection: the successful end of the pipeline wraps the items
//! reparsed from the generated code into a single named module unit, with no
//! extra attributes or visibility implied. The host parses the generated code
//! into its own item representation, which the library carries opaquely.

use vstd::prelude::*;

verus! {

/// A named, scoped container of generated items: the unit spliced into the
/// host program at the invocation's location. `I` is the host's item type.
pub struct ModuleUnit<I> {
    /// The identifier the invocation gave the generated module.
    pub name: String,
    /// The items of the module body, in order.
    pub items: Vec<I>,
}

/// Wrap the reparsed items into a module named `name`: the body is exactly
/// the given item sequence, in the given order, nothing added or dropped.
pub fn inject_module<I>(name: String, items: Vec<I>) -> (m: ModuleUnit<I>)
    ensures
        m.name@ == name@,
        m.items@ == items@,
{
    ModuleUnit { name, items }
}

} // verus!
