//! Structural classification of filesystem paths.

use vstd::prelude::*;

verus! {

/// The class of one structural component of a filesystem path.
#[derive(Clone, Copy, Debug, PartialEq, Eq, Structural)]
pub enum ComponentKind {
    /// A platform prefix, such as a drive letter.
    Prefix,
    /// The root marker.
    RootDir,
    /// The current-directory marker `.`.
    CurDir,
    /// The parent-directory marker `..`.
    ParentDir,
    /// A normal named segment.
    Normal,
}

impl ComponentKind {
    /// A component may occur in a path to be served exactly when it is the
    /// current-directory marker or a normal named segment.
    pub open spec fn allowed(self) -> bool {
        self == ComponentKind::CurDir || self == ComponentKind::Normal
    }

    /// Tests whether this component may occur in a path to be served.
    pub fn is_allowed(&self) -> (ok: bool)
        ensures
            ok == self.allowed(),
    {
        match self {
            ComponentKind::CurDir | ComponentKind::Normal => true,
            _ => false,
        }
    }
}

/// The classes of the components into which the host platform's path rules
/// split `path`, in order.
pub uninterp spec fn path_component_kinds(path: Seq<char>) -> Seq<ComponentKind>;

/// Calls `std::path::Path::components` on `path` and records the class of each
/// component it yields. Trusted: the result is taken to be what the name
/// `path_component_kinds` stands for; nothing is claimed about how the
/// platform splits a given string.
#[verifier::external_body]
fn component_kinds(path: &str) -> (kinds: Vec<ComponentKind>)
    ensures
        kinds@ == path_component_kinds(path@),
{
    let mut kinds = Vec::new();
    for c in std::path::Path::new(path).components() {
        kinds.push(match c {
            std::path::Component::Prefix(_) => ComponentKind::Prefix,
            std::path::Component::RootDir => ComponentKind::RootDir,
            std::path::Component::CurDir => ComponentKind::CurDir,
            std::path::Component::ParentDir => ComponentKind::ParentDir,
            std::path::Component::Normal(_) => ComponentKind::Normal,
        });
    }
    kinds
}

/// A sequence of components is safe when every one of them is allowed.
pub open spec fn all_allowed(kinds: Seq<ComponentKind>) -> bool {
    forall|i: int| 0 <= i < kinds.len() ==> (#[trigger] kinds[i]).allowed()
}

/// A path is safe when all of its components are allowed.
pub open spec fn is_safe_path(path: Seq<char>) -> bool {
    all_allowed(path_component_kinds(path))
}

/// Decides whether every component of an already classified path is allowed.
pub fn components_safe(kinds: &Vec<ComponentKind>) -> (safe: bool)
    ensures
        safe == all_allowed(kinds@),
{
    let mut i: usize = 0;
    while i < kinds.len()
        invariant
            i <= kinds.len(),
            forall|j: int| 0 <= j < i ==> (#[trigger] kinds@[j]).allowed(),
        decreases kinds.len() - i,
    {
        if !kinds[i].is_allowed() {
            return false;
        }
        i += 1;
    }
    true
}

/// Decides whether `path` may be resolved beneath a root directory: it must
/// not climb to a parent directory, nor start afresh from a root or a prefix.
pub fn safe_path(path: &str) -> (safe: bool)
    ensures
        safe == is_safe_path(path@),
{
    let kinds = component_kinds(path);
    components_safe(&kinds)
}

/// A parent-directory marker anywhere among the components makes them unsafe.
pub proof fn lemma_parent_dir_unsafe(kinds: Seq<ComponentKind>)
    ensures
        kinds.contains(ComponentKind::ParentDir) ==> !all_allowed(kinds),
{
    if kinds.contains(ComponentKind::ParentDir) {
        let i = choose|i: int| 0 <= i < kinds.len() && kinds[i] == ComponentKind::ParentDir;
        assert(!kinds[i].allowed());
    }
}

/// A root marker or a platform prefix anywhere among the components makes
/// them unsafe.
pub proof fn lemma_root_or_prefix_unsafe(kinds: Seq<ComponentKind>)
    ensures
        kinds.contains(ComponentKind::RootDir) ==> !all_allowed(kinds),
        kinds.contains(ComponentKind::Prefix) ==> !all_allowed(kinds),
{
    if kinds.contains(ComponentKind::RootDir) {
        let i = choose|i: int| 0 <= i < kinds.len() && kinds[i] == ComponentKind::RootDir;
        assert(!kinds[i].allowed());
    }
    if kinds.contains(ComponentKind::Prefix) {
        let i = choose|i: int| 0 <= i < kinds.len() && kinds[i] == ComponentKind::Prefix;
        assert(!kinds[i].allowed());
    }
}

/// Components that are all current-directory markers or normal segments are
/// safe.
pub proof fn lemma_cur_dir_and_normal_safe(kinds: Seq<ComponentKind>)
    ensures
        (forall|i: int|
            0 <= i < kinds.len() ==> #[trigger] kinds[i] == ComponentKind::CurDir || kinds[i]
                == ComponentKind::Normal) ==> all_allowed(kinds),
{
}

/// A path is unsafe if the platform finds a parent-directory marker among
/// its components, and safe if it finds nothing but current-directory
/// markers and normal segments.
pub proof fn lemma_path_safety(path: Seq<char>)
    ensures
        path_component_kinds(path).contains(ComponentKind::ParentDir) ==> !is_safe_path(path),
        (forall|i: int|
            0 <= i < path_component_kinds(path).len() ==> #[trigger] path_component_kinds(path)[i]
                == ComponentKind::CurDir || path_component_kinds(path)[i] == ComponentKind::Normal)
            ==> is_safe_path(path),
{
    lemma_parent_dir_unsafe(path_component_kinds(path));
    lemma_cur_dir_and_normal_safe(path_component_kinds(path));
}

/// Components are safe exactly when none of them is a parent-directory
/// marker, a root marker or a platform prefix.
pub proof fn lemma_safe_iff_nothing_forbidden(kinds: Seq<ComponentKind>)
    ensures
        all_allowed(kinds) <==> !kinds.contains(ComponentKind::ParentDir) && !kinds.contains(
            ComponentKind::RootDir,
        ) && !kinds.contains(ComponentKind::Prefix),
{
    lemma_parent_dir_unsafe(kinds);
    lemma_root_or_prefix_unsafe(kinds);
    if !all_allowed(kinds) {
        let i = choose|i: int| 0 <= i < kinds.len() && !(#[trigger] kinds[i]).allowed();
        assert(kinds.contains(kinds[i]));
    }
}

/// Safety does not depend on where a component stands: a sequence is safe
/// exactly when each of the two parts it is cut into is safe.
pub proof fn lemma_safe_concat(front: Seq<ComponentKind>, back: Seq<ComponentKind>)
    ensures
        all_allowed(front + back) <==> all_allowed(front) && all_allowed(back),
{
    let both = front + back;
    if all_allowed(both) {
        assert forall|i: int| 0 <= i < front.len() implies (#[trigger] front[i]).allowed() by {
            assert(both[i] == front[i]);
        }
        assert forall|i: int| 0 <= i < back.len() implies (#[trigger] back[i]).allowed() by {
            assert(both[i + front.len()] == back[i]);
        }
    }
    if all_allowed(front) && all_allowed(back) {
        assert forall|i: int| 0 <= i < both.len() implies (#[trigger] both[i]).allowed() by {
            if i < front.len() {
                assert(both[i] == front[i]);
            } else {
                assert(both[i] == back[i - front.len()]);
            }
        }
    }
}

/// The path that the host platform's rules give when `relative` is joined
/// onto `root`.
pub uninterp spec fn joined_path(root: Seq<char>, relative: Seq<char>) -> Seq<char>;

/// Calls `std::path::Path::join` to append `relative` to `root`. Trusted: the
/// result is taken to be what the name `joined_path` stands for.
#[verifier::external_body]
pub(crate) fn join_path(root: &str, relative: &str) -> (joined: String)
    ensures
        joined@ == joined_path(root@, relative@),
{
    std::path::Path::new(root).join(relative).to_string_lossy().into_owned()
}

} // verus!
