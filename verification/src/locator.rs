//! Lookup of a module by name: the first module in source order whose name
//! equals the given one, exactly and with regard to case.

use crate::metadata::{
    MetadataVersion, MetadataView, ModuleDescriptor, ModuleView, VersionView, VersionedMetadata, module_views,
};
use crate::text::str_eq;
use vstd::prelude::*;

verus! {

/// Why a lookup could not be made.
#[derive(Clone, Copy, Debug, PartialEq, Eq, Structural)]
pub enum QueryError {
    /// The metadata is of a version whose module list is not known.
    UnsupportedVersion,
}

/// The outcome of a lookup that could be made.
#[derive(Clone, Copy, Debug, PartialEq, Eq)]
pub enum LookupResult<'a> {
    Found(&'a ModuleDescriptor),
    NotFound,
}

/// The mathematical value of a [`LookupResult`].
pub enum LookupView {
    Found(ModuleView),
    NotFound,
}

impl<'a> View for LookupResult<'a> {
    type V = LookupView;

    open spec fn view(&self) -> LookupView {
        match self {
            LookupResult::Found(module) => LookupView::Found(module@),
            LookupResult::NotFound => LookupView::NotFound,
        }
    }
}

/// Whether `i` is the position of the first module with the given name.
pub open spec fn is_first_match(modules: Seq<ModuleView>, name: Seq<char>, i: int) -> bool {
    &&& 0 <= i < modules.len()
    &&& modules[i].name == name
    &&& forall|j: int| 0 <= j < i ==> (#[trigger] modules[j]).name != name
}

/// The position of the first module with the given name, if there is one.
pub open spec fn first_match(modules: Seq<ModuleView>, name: Seq<char>) -> Option<int> {
    if exists|i: int| is_first_match(modules, name, i) {
        Some(choose|i: int| is_first_match(modules, name, i))
    } else {
        None
    }
}

/// What a lookup in decoded metadata gives.
pub open spec fn locate_spec(metadata: MetadataView, name: Seq<char>) -> Result<
    LookupView,
    QueryError,
> {
    match metadata.version {
        VersionView::Unsupported(_) => Err(QueryError::UnsupportedVersion),
        _ => match first_match(metadata.version.modules(), name) {
            Some(i) => Ok(LookupView::Found(metadata.version.modules()[i])),
            None => Ok(LookupView::NotFound),
        },
    }
}

/// The value of a lookup's result.
pub open spec fn lookup_view(result: Result<LookupResult<'_>, QueryError>) -> Result<
    LookupView,
    QueryError,
> {
    match result {
        Ok(found) => Ok(found@),
        Err(error) => Err(error),
    }
}

/// At most one position is that of the first match.
pub proof fn lemma_first_match_unique(modules: Seq<ModuleView>, name: Seq<char>, i: int, j: int)
    requires
        is_first_match(modules, name, i),
        is_first_match(modules, name, j),
    ensures
        i == j,
{
    if i < j {
        assert(modules[i].name != name);
    } else if j < i {
        assert(modules[j].name != name);
    }
}

/// The position of the first module with the given name.
pub fn find_first(modules: &[ModuleDescriptor], name: &str) -> (position: Option<usize>)
    ensures
        match position {
            Some(i) => first_match(module_views(modules@), name@) == Some(i as int),
            None => first_match(module_views(modules@), name@) is None,
        },
        position matches Some(i) ==> i < modules@.len() && modules@[i as int].name@ == name@,
        position is None ==> forall|k: int|
            0 <= k < modules@.len() ==> (#[trigger] modules@[k]).name@ != name@,
{
    let ghost views = module_views(modules@);
    let mut i: usize = 0;
    while i < modules.len()
        invariant
            i <= modules@.len(),
            views == module_views(modules@),
            forall|k: int| 0 <= k < i ==> (#[trigger] views[k]).name != name@,
        decreases modules@.len() - i,
    {
        if str_eq(modules[i].name.as_str(), name) {
            proof {
                assert(views[i as int] == modules@[i as int]@);
                assert(is_first_match(views, name@, i as int));
                let j = choose|j: int| is_first_match(views, name@, j);
                lemma_first_match_unique(views, name@, i as int, j);
            }
            return Some(i);
        }
        assert(views[i as int] == modules@[i as int]@);
        i = i + 1;
    }
    proof {
        assert forall|k: int| 0 <= k < modules@.len() implies (#[trigger] modules@[k]).name@
            != name@ by {
            assert(views[k] == modules@[k]@);
        }
        assert forall|j: int| !is_first_match(views, name@, j) by {
            if 0 <= j < views.len() {
                assert(views[j].name != name@);
            }
        }
    }
    None
}

/// Looks a module up by name.
///
/// Metadata of an unsupported version has no module list to search.  In any
/// other, the first module of that name is found, or none is: a missing
/// module is an outcome, not an error.
pub fn locate<'a>(metadata: &'a VersionedMetadata, name: &str) -> (result: Result<
    LookupResult<'a>,
    QueryError,
>)
    ensures
        lookup_view(result) == locate_spec(metadata@, name@),
        result matches Ok(LookupResult::Found(module)) ==> module@.name == name@ && Some(
            module@.layout,
        ) == metadata@.version.layout(),
{
    let modules = match metadata.version() {
        MetadataVersion::V12(modules) => modules,
        MetadataVersion::V13(modules) => modules,
        MetadataVersion::V14(modules) => modules,
        MetadataVersion::Unsupported(_) => {
            return Err(QueryError::UnsupportedVersion);
        },
    };
    match find_first(modules.as_slice(), name) {
        Some(i) => {
            assert(metadata@.version.modules()[i as int] == modules@[i as int]@);
            Ok(LookupResult::Found(&modules[i]))
        },
        None => Ok(LookupResult::NotFound),
    }
}

/// A module that stands first among those of its name is the one found.
/// Where two modules share a name, this is the earlier one.
pub proof fn lemma_first_match_found(metadata: MetadataView, name: Seq<char>, i: int)
    requires
        metadata.version !is Unsupported,
        is_first_match(metadata.version.modules(), name, i),
    ensures
        locate_spec(metadata, name) == Ok::<LookupView, QueryError>(
            LookupView::Found(metadata.version.modules()[i]),
        ),
{
    let modules = metadata.version.modules();
    let j = choose|j: int| is_first_match(modules, name, j);
    lemma_first_match_unique(modules, name, i, j);
}

/// A lookup in metadata of a known layout finds a module exactly if one of
/// that name is there, and what it finds bears the name asked for.
pub proof fn lemma_found_iff_present(metadata: MetadataView, name: Seq<char>)
    requires
        metadata.version !is Unsupported,
    ensures
        locate_spec(metadata, name) is Ok,
        locate_spec(metadata, name) matches Ok(LookupView::Found(module)) ==> module.name == name,
        (locate_spec(metadata, name) matches Ok(LookupView::Found(_))) <==> exists|i: int|
            0 <= i < metadata.version.modules().len() && (
            #[trigger] metadata.version.modules()[i]).name == name,
{
    let modules = metadata.version.modules();
    if exists|i: int| 0 <= i < modules.len() && (#[trigger] modules[i]).name == name {
        let i = choose|i: int| 0 <= i < modules.len() && (#[trigger] modules[i]).name == name;
        let first = lemma_least_match(modules, name, i);
        lemma_first_match_found(metadata, name, first);
    }
}

/// Below any module of a given name lies the first one of that name.
pub proof fn lemma_least_match(modules: Seq<ModuleView>, name: Seq<char>, i: int) -> (first: int)
    requires
        0 <= i < modules.len(),
        modules[i].name == name,
    ensures
        first <= i,
        is_first_match(modules, name, first),
    decreases i,
{
    if exists|j: int| 0 <= j < i && (#[trigger] modules[j]).name == name {
        let j = choose|j: int| 0 <= j < i && (#[trigger] modules[j]).name == name;
        lemma_least_match(modules, name, j)
    } else {
        i
    }
}

/// Metadata of an unsupported version cannot be queried, whatever the name.
pub proof fn lemma_unsupported_not_queried(metadata: MetadataView, name: Seq<char>)
    requires
        metadata.version is Unsupported,
    ensures
        locate_spec(metadata, name) == Err::<LookupView, QueryError>(
            QueryError::UnsupportedVersion,
        ),
{
}

} // verus!
