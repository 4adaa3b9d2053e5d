use vstd::prelude::*;
use crate::text::same_text;

verus! {

/// A native object reference, kept as the plain number that identifies it.
pub type Handle = usize;

/// One top-level object instantiated from a compiled interface resource.
///
/// `content_view` and `style_mask` describe windows; for any other object
/// they are `None` and zero.
pub struct Instance {
    pub handle: Handle,
    pub class: String,
    pub content_view: Option<Handle>,
    pub style_mask: u64,
}

/// Plain-value picture of an [`Instance`].
pub struct InstanceView {
    pub handle: Handle,
    pub class: Seq<char>,
    pub content_view: Option<Handle>,
    pub style_mask: u64,
}

impl View for Instance {
    type V = InstanceView;

    open spec fn view(&self) -> InstanceView {
        InstanceView {
            handle: self.handle,
            class: self.class@,
            content_view: self.content_view,
            style_mask: self.style_mask,
        }
    }
}

impl Instance {
    /// An object of the given class that is not a window.
    pub fn new(handle: Handle, class: &str) -> (r: Instance)
        ensures
            r@ == (InstanceView {
                handle,
                class: class@,
                content_view: None,
                style_mask: 0,
            }),
    {
        Instance { handle, class: String::from_str(class), content_view: None, style_mask: 0 }
    }

    /// A window of the given class with its content view and style mask.
    pub fn window(handle: Handle, class: &str, content_view: Option<Handle>, style_mask: u64) -> (r:
        Instance)
        ensures
            r@ == (InstanceView { handle, class: class@, content_view, style_mask }),
    {
        Instance { handle, class: String::from_str(class), content_view, style_mask }
    }
}

/// Name of the resource that holds the application object.
pub fn application_nib() -> (r: &'static str)
    ensures
        r@ == "App.nib"@,
{
    "App.nib"
}

/// Name of the resource that holds the window.
pub fn window_nib() -> (r: &'static str)
    ensures
        r@ == "Window.nib"@,
{
    "Window.nib"
}

/// The instances of a bundle as a sequence of plain values.
pub open spec fn bundle_view(instances: Seq<Instance>) -> Seq<InstanceView> {
    instances.map_values(|i: Instance| i@)
}

/// No instance before position `at` has the class `class`.
pub open spec fn no_match_before(bundle: Seq<InstanceView>, class: Seq<char>, at: int) -> bool {
    forall|j: int| 0 <= j < at && j < bundle.len() ==> (#[trigger] bundle[j]).class != class
}

/// Position `at` holds the first instance of class `class`.
pub open spec fn is_first_match(bundle: Seq<InstanceView>, class: Seq<char>, at: int) -> bool {
    &&& 0 <= at < bundle.len()
    &&& bundle[at].class == class
    &&& no_match_before(bundle, class, at)
}

/// Position of the first instance of class `class`, if the bundle has one.
pub open spec fn first_match(bundle: Seq<InstanceView>, class: Seq<char>) -> Option<int> {
    if exists|at: int| is_first_match(bundle, class, at) {
        Some(choose|at: int| is_first_match(bundle, class, at))
    } else {
        None
    }
}

/// An instance of the class at position `k` means that some position holds
/// the first one.
proof fn lemma_some_match_has_first(bundle: Seq<InstanceView>, class: Seq<char>, k: int)
    requires
        0 <= k < bundle.len(),
        bundle[k].class == class,
    ensures
        exists|at: int| is_first_match(bundle, class, at),
    decreases k,
{
    if no_match_before(bundle, class, k) {
        assert(is_first_match(bundle, class, k));
    } else {
        let j = choose|j: int| 0 <= j < k && j < bundle.len() && (#[trigger] bundle[j]).class == class;
        lemma_some_match_has_first(bundle, class, j);
    }
}

/// The first match is the only position that [`is_first_match`] accepts, and
/// there is none exactly when no instance has the class.
pub proof fn lemma_first_match(bundle: Seq<InstanceView>, class: Seq<char>)
    ensures
        forall|at: int|
            first_match(bundle, class) == Some(at) <==> is_first_match(bundle, class, at),
        first_match(bundle, class).is_none() <==> no_match_before(
            bundle,
            class,
            bundle.len() as int,
        ),
{
    assert forall|a: int, b: int|
        is_first_match(bundle, class, a) && is_first_match(bundle, class, b) implies a == b by {
        if a < b {
            assert(bundle[a].class != class);
        }
        if b < a {
            assert(bundle[b].class != class);
        }
    }
    if no_match_before(bundle, class, bundle.len() as int) {
        assert forall|at: int| !is_first_match(bundle, class, at) by {
            if 0 <= at < bundle.len() {
                assert(bundle[at].class != class);
            }
        }
    } else {
        let k = choose|k: int|
            0 <= k < bundle.len() && (#[trigger] bundle[k]).class == class;
        lemma_some_match_has_first(bundle, class, k);
    }
}

/// Where exactly one instance of a bundle carries a class, looking that class
/// up finds this instance.
pub proof fn lemma_single_match_is_found(bundle: Seq<InstanceView>, class: Seq<char>, at: int)
    requires
        0 <= at < bundle.len(),
        bundle[at].class == class,
        forall|j: int| 0 <= j < bundle.len() && j != at ==> (#[trigger] bundle[j]).class != class,
    ensures
        first_match(bundle, class) == Some(at),
{
    lemma_first_match(bundle, class);
    assert(is_first_match(bundle, class, at));
}

/// Where no instance of a bundle carries a class, looking that class up finds
/// nothing.
pub proof fn lemma_no_match_is_not_found(bundle: Seq<InstanceView>, class: Seq<char>)
    requires
        forall|j: int| 0 <= j < bundle.len() ==> (#[trigger] bundle[j]).class != class,
    ensures
        first_match(bundle, class).is_none(),
{
    lemma_first_match(bundle, class);
}

/// Scans the bundle in order and returns the position of the first instance
/// whose class identity equals `class`, or `None` when no instance has it.
/// Where several instances carry the class, the earliest one is taken.
pub fn find_instance(instances: &Vec<Instance>, class: &str) -> (r: Option<usize>)
    ensures
        match r {
            Some(at) => first_match(bundle_view(instances@), class@) == Some(at as int),
            None => first_match(bundle_view(instances@), class@).is_none(),
        },
{
    let ghost bundle = bundle_view(instances@);
    proof {
        lemma_first_match(bundle, class@);
    }
    let mut i: usize = 0;
    while i < instances.len()
        invariant
            i <= instances@.len(),
            bundle == bundle_view(instances@),
            no_match_before(bundle, class@, i as int),
        decreases instances@.len() - i,
    {
        if same_text(instances[i].class.as_str(), class) {
            assert(is_first_match(bundle, class@, i as int));
            return Some(i);
        }
        i += 1;
    }
    None
}

} // verus!
