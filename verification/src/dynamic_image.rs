//! Resolution of a module image in memory.
//!
//! The module is looked up in the module table of the process. Where it is
//! not there and the caller allows it, the module is loaded, once; loading
//! runs the module's code. The loader is then asked for the base address
//! and the size of the module, and these are the result. Any failure on
//! the way ends the resolution with nothing.
//!
//! The resolution is a conversation. [`get_dynamic`] gives the first
//! [`DynamicStep`]; the caller does what the step asks of the loader and
//! hands the answer to the step's `answer`, which gives the next step,
//! until the step is [`DynamicStep::Done`].
//!
//! A module handle is an address-sized number, and zero is the null
//! handle, which the loader gives where it has no module to give.

use vstd::prelude::*;
use crate::name::contains_nul;

verus! {

/// What the loader reports of a module: where its image begins and how
/// many bytes it spans.
#[derive(Clone, Copy, Debug)]
pub struct ModuleInfo {
    pub base_of_dll: usize,
    pub size_of_image: u32,
}

/// A pending lookup of `name` in the module table.
pub struct FindView {
    pub name: Seq<char>,
    pub load_if_necessary: bool,
}

/// A pending load of `name` into the process.
pub struct LoadView {
    pub name: Seq<char>,
}

/// A pending query for the base and size of `module`.
pub struct QueryView {
    pub module: usize,
}

/// Where a resolution stands.
pub enum DynamicStepView {
    Find(FindView),
    Load(LoadView),
    Query(QueryView),
    Done(Option<(usize, usize)>),
}

impl FindView {
    /// The step that follows the lookup: a module that was found is
    /// queried; one that was not is loaded where that is allowed, and
    /// otherwise the resolution ends with nothing.
    pub open spec fn answer(self, module: usize) -> DynamicStepView {
        if module != 0 {
            DynamicStepView::Query(QueryView { module })
        } else if self.load_if_necessary {
            DynamicStepView::Load(LoadView { name: self.name })
        } else {
            DynamicStepView::Done(None)
        }
    }
}

impl LoadView {
    /// The step that follows the load: a module that was loaded is
    /// queried; otherwise the resolution ends with nothing.
    pub open spec fn answer(self, module: usize) -> DynamicStepView {
        if module != 0 {
            DynamicStepView::Query(QueryView { module })
        } else {
            DynamicStepView::Done(None)
        }
    }
}

impl QueryView {
    /// The step that follows the query: the resolution ends, with the
    /// base and size that were reported where `success` is not zero, and
    /// with nothing where it is.
    pub open spec fn answer(self, success: i32, info: ModuleInfo) -> DynamicStepView {
        DynamicStepView::Done(region(success, info))
    }
}

/// The region that a query's answer describes: base address and size in
/// bytes, or nothing where the query failed.
pub open spec fn region(success: i32, info: ModuleInfo) -> Option<(usize, usize)> {
    if success != 0 {
        Some((info.base_of_dll, info.size_of_image as usize))
    } else {
        None
    }
}

/// The first step of a resolution of `image`: a lookup in the module
/// table.
pub open spec fn first_step(image: Seq<char>, load_if_necessary: bool) -> DynamicStepView {
    DynamicStepView::Find(FindView { name: image, load_if_necessary })
}

/// A pending lookup in the module table.
pub struct ModuleFind {
    name: String,
    load_if_necessary: bool,
}

/// A pending load.
pub struct ModuleLoad {
    name: String,
}

/// A pending query for a module's base and size.
pub struct ModuleQuery {
    module: usize,
}

/// What the caller has to do next.
pub enum DynamicStep {
    /// Ask the module table of the process for the module's handle, and
    /// answer with [`ModuleFind::answer`].
    Find(ModuleFind),
    /// Load the module into the process, and answer with
    /// [`ModuleLoad::answer`].
    Load(ModuleLoad),
    /// Ask the loader for the module's information, and answer with
    /// [`ModuleQuery::answer`].
    Query(ModuleQuery),
    /// Nothing: the resolution has ended, with the base address and the
    /// size in bytes of the module's image, or with nothing.
    Done(Option<(usize, usize)>),
}

impl View for ModuleFind {
    type V = FindView;

    closed spec fn view(&self) -> FindView {
        FindView { name: self.name@, load_if_necessary: self.load_if_necessary }
    }
}

impl View for ModuleLoad {
    type V = LoadView;

    closed spec fn view(&self) -> LoadView {
        LoadView { name: self.name@ }
    }
}

impl View for ModuleQuery {
    type V = QueryView;

    closed spec fn view(&self) -> QueryView {
        QueryView { module: self.module }
    }
}

impl View for DynamicStep {
    type V = DynamicStepView;

    open spec fn view(&self) -> DynamicStepView {
        match self {
            DynamicStep::Find(find) => DynamicStepView::Find(find@),
            DynamicStep::Load(load) => DynamicStepView::Load(load@),
            DynamicStep::Query(query) => DynamicStepView::Query(query@),
            DynamicStep::Done(found) => DynamicStepView::Done(*found),
        }
    }
}

impl ModuleFind {
    #[verifier::type_invariant]
    spec fn name_is_terminable(self) -> bool {
        !contains_nul(self.name@)
    }

    /// The name of the module to look up. It holds no null character.
    pub fn name(&self) -> (name: &str)
        ensures
            name@ == self@.name,
            !contains_nul(name@),
    {
        proof {
            use_type_invariant(self);
        }
        self.name.as_str()
    }

    /// Takes the module table's answer and gives the next step.
    ///
    /// `module` is the handle of the module named [`Self::name`], or zero
    /// where the process has not loaded it.
    pub fn answer(self, module: usize) -> (next: DynamicStep)
        ensures
            next@ == self@.answer(module),
    {
        proof {
            use_type_invariant(&self);
        }
        if module != 0 {
            DynamicStep::Query(ModuleQuery { module })
        } else if self.load_if_necessary {
            DynamicStep::Load(ModuleLoad { name: self.name })
        } else {
            DynamicStep::Done(None)
        }
    }
}

impl ModuleLoad {
    #[verifier::type_invariant]
    spec fn name_is_terminable(self) -> bool {
        !contains_nul(self.name@)
    }

    /// The name of the module to load. It holds no null character.
    pub fn name(&self) -> (name: &str)
        ensures
            name@ == self@.name,
            !contains_nul(name@),
    {
        proof {
            use_type_invariant(self);
        }
        self.name.as_str()
    }

    /// Takes the loader's answer and gives the next step.
    ///
    /// `module` is the handle of the module that was loaded, or zero
    /// where loading failed.
    pub fn answer(self, module: usize) -> (next: DynamicStep)
        ensures
            next@ == self@.answer(module),
    {
        if module != 0 {
            DynamicStep::Query(ModuleQuery { module })
        } else {
            DynamicStep::Done(None)
        }
    }
}

impl ModuleQuery {
    #[verifier::type_invariant]
    spec fn module_is_not_null(self) -> bool {
        self.module != 0
    }

    /// The handle of the module to ask about. It is not null.
    pub fn module(&self) -> (module: usize)
        ensures
            module == self@.module,
            module != 0,
    {
        proof {
            use_type_invariant(self);
        }
        self.module
    }

    /// Takes the loader's answer and ends the resolution.
    ///
    /// `success` is what the loader returned, zero for failure; `info` is
    /// what it reported, and counts only where `success` is not zero.
    pub fn answer(self, success: i32, info: ModuleInfo) -> (next: DynamicStep)
        ensures
            next@ == self@.answer(success, info),
    {
        if success != 0 {
            DynamicStep::Done(Some((info.base_of_dll, info.size_of_image as usize)))
        } else {
            DynamicStep::Done(None)
        }
    }
}

/// Begins the resolution of the module named `image`.
///
/// With `load_if_necessary`, a module that the process has not loaded is
/// loaded, which runs its code.
///
/// The name must hold no null character: the loader takes
/// null-terminated text. [`crate::name::has_nul`] tells.
pub fn get_dynamic(image: String, load_if_necessary: bool) -> (step: DynamicStep)
    requires
        !contains_nul(image@),
    ensures
        step@ == first_step(image@, load_if_necessary),
{
    DynamicStep::Find(ModuleFind { name: image, load_if_necessary })
}

} // verus!
