//! What a resolution in memory comes to, against a model of the loader.
//!
//! [`Loader`] says what the host answers to each question.
//! [`outcome`] and [`requests`] follow a resolution step by step, giving
//! each step the answer that the loader gives; the laws below say what
//! they come to for a resolution begun by
//! [`crate::dynamic_image::get_dynamic`].

use vstd::prelude::*;
use crate::dynamic_image::{
    first_step, region, DynamicStepView, FindView, LoadView, ModuleInfo, QueryView,
};

verus! {

/// The host's loader, as a resolution sees it: its answer to each
/// question. How it matches names is its own affair.
pub struct Loader {
    /// The handle that the module table holds for a name, zero where the
    /// module is not loaded.
    pub find: spec_fn(Seq<char>) -> usize,
    /// The handle that loading a name gives, zero where loading fails.
    pub load: spec_fn(Seq<char>) -> usize,
    /// What a query for a module's information returns, zero for
    /// failure, and what it reports.
    pub query: spec_fn(usize) -> (i32, ModuleInfo),
}

impl Loader {
    /// Whether the process has the module loaded.
    pub open spec fn is_loaded(self, name: Seq<char>) -> bool {
        (self.find)(name) != 0
    }

    /// The region that the loader reports for `module`: base address and
    /// size in bytes, or nothing where the query fails.
    pub open spec fn image(self, module: usize) -> Option<(usize, usize)> {
        region((self.query)(module).0, (self.query)(module).1)
    }
}

/// A question put to the loader.
pub enum LoaderRequest {
    /// Which handle does the module table hold for `name`?
    Find { name: Seq<char> },
    /// Load `name` into the process.
    Load { name: Seq<char> },
    /// What are the base and size of `module`?
    Query { module: usize },
}

/// How many questions a resolution may still put, at most.
pub open spec fn steps_left(step: DynamicStepView) -> nat {
    match step {
        DynamicStepView::Find(_) => 3,
        DynamicStepView::Load(_) => 2,
        DynamicStepView::Query(_) => 1,
        DynamicStepView::Done(_) => 0,
    }
}

/// The step that follows `step` once the loader has answered it. A
/// resolution that has ended stays where it is.
pub open spec fn next_step(step: DynamicStepView, loader: Loader) -> DynamicStepView {
    match step {
        DynamicStepView::Find(find) => find.answer((loader.find)(find.name)),
        DynamicStepView::Load(load) => load.answer((loader.load)(load.name)),
        DynamicStepView::Query(query) => query.answer(
            (loader.query)(query.module).0,
            (loader.query)(query.module).1,
        ),
        DynamicStepView::Done(_) => step,
    }
}

/// The question that `step` puts, if it puts one.
pub open spec fn request_of(step: DynamicStepView) -> Option<LoaderRequest> {
    match step {
        DynamicStepView::Find(find) => Some(LoaderRequest::Find { name: find.name }),
        DynamicStepView::Load(load) => Some(LoaderRequest::Load { name: load.name }),
        DynamicStepView::Query(query) => Some(LoaderRequest::Query { module: query.module }),
        DynamicStepView::Done(_) => None,
    }
}

/// What a resolution that stands at `step` ends with on `loader`.
pub open spec fn outcome(step: DynamicStepView, loader: Loader) -> Option<(usize, usize)>
    decreases steps_left(step),
{
    match step {
        DynamicStepView::Done(found) => found,
        _ => outcome(next_step(step, loader), loader),
    }
}

/// The questions that a resolution that stands at `step` puts to
/// `loader`, in order.
pub open spec fn requests(step: DynamicStepView, loader: Loader) -> Seq<LoaderRequest>
    decreases steps_left(step),
{
    match request_of(step) {
        Some(request) => seq![request] + requests(next_step(step, loader), loader),
        None => Seq::empty(),
    }
}

/// A resolution that has ended asks nothing more.
proof fn lemma_done_ends(found: Option<(usize, usize)>, loader: Loader)
    ensures
        outcome(DynamicStepView::Done(found), loader) == found,
        requests(DynamicStepView::Done(found), loader) == Seq::<LoaderRequest>::empty(),
{
}

/// A pending query asks once, and the resolution ends with the region
/// that the loader reports.
proof fn lemma_query_ends(query: QueryView, loader: Loader)
    ensures
        outcome(DynamicStepView::Query(query), loader) == loader.image(query.module),
        requests(DynamicStepView::Query(query), loader) == seq![
            LoaderRequest::Query { module: query.module },
        ],
{
    let step = DynamicStepView::Query(query);
    lemma_done_ends(loader.image(query.module), loader);
    assert(outcome(step, loader) == outcome(next_step(step, loader), loader));
    assert(requests(step, loader) == seq![LoaderRequest::Query { module: query.module }]
        + requests(next_step(step, loader), loader));
}

/// A pending load asks once; the module that it gives is queried, and a
/// failed load ends the resolution with nothing.
proof fn lemma_load_ends(load: LoadView, loader: Loader)
    ensures
        (loader.load)(load.name) != 0 ==> {
            &&& outcome(DynamicStepView::Load(load), loader) == loader.image(
                (loader.load)(load.name),
            )
            &&& requests(DynamicStepView::Load(load), loader) == seq![
                LoaderRequest::Load { name: load.name },
                LoaderRequest::Query { module: (loader.load)(load.name) },
            ]
        },
        (loader.load)(load.name) == 0 ==> {
            &&& outcome(DynamicStepView::Load(load), loader) == None::<(usize, usize)>
            &&& requests(DynamicStepView::Load(load), loader) == seq![
                LoaderRequest::Load { name: load.name },
            ]
        },
{
    let step = DynamicStepView::Load(load);
    let module = (loader.load)(load.name);
    if module != 0 {
        lemma_query_ends(QueryView { module }, loader);
    } else {
        lemma_done_ends(None, loader);
    }
    assert(outcome(step, loader) == outcome(next_step(step, loader), loader));
    assert(requests(step, loader) == seq![LoaderRequest::Load { name: load.name }] + requests(
        next_step(step, loader),
        loader,
    ));
}

/// A module that is loaded is found and queried, and never loaded again.
///
/// Where the module table holds the module, the resolution ends with the
/// region that the loader reports for the handle that the table gave, or
/// with nothing where that query fails. It asks the table, then the
/// loader for that handle, and asks for no load, whether or not the
/// caller allowed one.
pub proof fn law_loaded_module_is_not_loaded_again(
    image: Seq<char>,
    load_if_necessary: bool,
    loader: Loader,
)
    requires
        loader.is_loaded(image),
    ensures
        outcome(first_step(image, load_if_necessary), loader) == loader.image(
            (loader.find)(image),
        ),
        requests(first_step(image, load_if_necessary), loader) == seq![
            LoaderRequest::Find { name: image },
            LoaderRequest::Query { module: (loader.find)(image) },
        ],
{
    let step = first_step(image, load_if_necessary);
    lemma_query_ends(QueryView { module: (loader.find)(image) }, loader);
    assert(outcome(step, loader) == outcome(next_step(step, loader), loader));
    assert(requests(step, loader) == seq![LoaderRequest::Find { name: image }] + requests(
        next_step(step, loader),
        loader,
    ));
}

/// A module that is not loaded is not found where loading is not allowed.
///
/// The resolution asks the module table, and nothing else, and ends with
/// nothing.
pub proof fn law_absent_module_stays_absent(image: Seq<char>, loader: Loader)
    requires
        !loader.is_loaded(image),
    ensures
        outcome(first_step(image, false), loader) == None::<(usize, usize)>,
        requests(first_step(image, false), loader) == seq![LoaderRequest::Find { name: image }],
{
    let step = first_step(image, false);
    lemma_done_ends(None, loader);
    assert(outcome(step, loader) == outcome(next_step(step, loader), loader));
    assert(requests(step, loader) == seq![LoaderRequest::Find { name: image }] + requests(
        next_step(step, loader),
        loader,
    ));
}

/// A module that is not loaded is loaded, once, where loading is allowed.
///
/// The resolution asks the module table, then asks for the load of the
/// same name. Where the load gives a module, the resolution ends with the
/// region that the loader reports for it, or with nothing where that
/// query fails. Where the load fails, the resolution ends with nothing
/// and asks nothing more.
pub proof fn law_absent_module_is_loaded_once(image: Seq<char>, loader: Loader)
    requires
        !loader.is_loaded(image),
    ensures
        (loader.load)(image) != 0 ==> {
            &&& outcome(first_step(image, true), loader) == loader.image((loader.load)(image))
            &&& requests(first_step(image, true), loader) == seq![
                LoaderRequest::Find { name: image },
                LoaderRequest::Load { name: image },
                LoaderRequest::Query { module: (loader.load)(image) },
            ]
        },
        (loader.load)(image) == 0 ==> {
            &&& outcome(first_step(image, true), loader) == None::<(usize, usize)>
            &&& requests(first_step(image, true), loader) == seq![
                LoaderRequest::Find { name: image },
                LoaderRequest::Load { name: image },
            ]
        },
{
    let step = first_step(image, true);
    lemma_load_ends(LoadView { name: image }, loader);
    assert(outcome(step, loader) == outcome(next_step(step, loader), loader));
    assert(requests(step, loader) == seq![LoaderRequest::Find { name: image }] + requests(
        next_step(step, loader),
        loader,
    ));
}

/// A resolution gives a region only where a query succeeded, and then the
/// region is the one that the query reported.
pub proof fn law_region_comes_from_a_query(
    image: Seq<char>,
    load_if_necessary: bool,
    loader: Loader,
)
    ensures
        outcome(first_step(image, load_if_necessary), loader) matches Some(found) ==> exists|
            module: usize,
        |
            module != 0 && #[trigger] loader.image(module) == Some(found) && requests(
                first_step(image, load_if_necessary),
                loader,
            ).last() == (LoaderRequest::Query { module }),
{
    if loader.is_loaded(image) {
        law_loaded_module_is_not_loaded_again(image, load_if_necessary, loader);
        let module = (loader.find)(image);
        if loader.image(module) is Some {
            assert(loader.image(module) == Some(loader.image(module)->0));
        }
    } else if load_if_necessary {
        law_absent_module_is_loaded_once(image, loader);
        let module = (loader.load)(image);
        if module != 0 && loader.image(module) is Some {
            assert(loader.image(module) == Some(loader.image(module)->0));
        }
    } else {
        law_absent_module_stays_absent(image, loader);
    }
}

} // verus!
