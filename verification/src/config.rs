//! What a run is asked to do: which files, which tags, and whether to show
//! the tree of each file instead of searching.
use crate::enums::DataTagKind;
use crate::tag::{def_views, TagDef, TagDefView, TagDict};
use std::path::PathBuf;
use vstd::prelude::*;

verus! {

/// A name that was asked for and is not in the tag dictionary.
#[derive(Debug, PartialEq, Eq, Clone)]
pub struct UnrecognizedTag {
    pub name: String,
}

/// What a run is asked to do.
#[derive(Debug)]
pub struct Config {
    pub files: Vec<PathBuf>,
    pub query_codes: Vec<DataTagKind>,
    pub show_tree: bool,
    pub describe_tags: Vec<TagDef>,
}

/// Whether `at` is the place of the first name that the dictionary lacks.
pub open spec fn first_unknown(
    names: Seq<String>,
    dict: Map<Seq<char>, TagDefView>,
    at: int,
) -> bool {
    &&& 0 <= at < names.len()
    &&& !dict.contains_key(names[at]@)
    &&& forall|j: int| 0 <= j < at ==> dict.contains_key(#[trigger] names[j]@)
}

/// The entries that the dictionary holds under the names, in their order.
pub open spec fn defs_of(names: Seq<String>, dict: Map<Seq<char>, TagDefView>) -> Seq<TagDefView> {
    Seq::new(names.len(), |i: int| dict[names[i]@])
}

impl Config {
    /// Makes the configuration of a run that asks for the tags named
    /// `query_tags`, looked up in `dict`.
    ///
    /// Every name must be in the dictionary: the first that is not is the
    /// error. The kinds asked for are those of the names, in their order.
    /// With `describe` the configuration also holds the entry of each name,
    /// in the same order, and without it none.
    pub fn new(
        files: Vec<PathBuf>,
        show_tree: bool,
        query_tags: Vec<String>,
        describe: bool,
        dict: &TagDict,
    ) -> (r: Result<Config, UnrecognizedTag>)
        requires
            dict.wf(),
        ensures
            match r {
                Ok(config) => {
                    &&& forall|i: int|
                        0 <= i < query_tags@.len() ==> dict@.contains_key(
                            #[trigger] query_tags@[i]@,
                        )
                    &&& config.files@ == files@
                    &&& config.show_tree == show_tree
                    &&& config.query_codes@.len() == query_tags@.len()
                    &&& forall|i: int|
                        0 <= i < query_tags@.len() ==> (#[trigger] config.query_codes@[i])
                            == DataTagKind::of_code(dict@[query_tags@[i]@].code)->0
                    &&& forall|i: int|
                        0 <= i < query_tags@.len() ==> (
                        #[trigger] config.query_codes@[i]).spec_code()
                            == dict@[query_tags@[i]@].code
                    &&& def_views(config.describe_tags@) == (if describe {
                        defs_of(query_tags@, dict@)
                    } else {
                        Seq::empty()
                    })
                },
                Err(e) => exists|at: int|
                    first_unknown(query_tags@, dict@, at) && e.name@ == query_tags@[at]@,
            },
    {
        let mut query_codes: Vec<DataTagKind> = Vec::new();
        let mut describe_tags: Vec<TagDef> = Vec::new();
        let mut i: usize = 0;
        proof {
            assert(def_views(describe_tags@) =~= Seq::<TagDefView>::empty());
        }
        while i < query_tags.len()
            invariant
                dict.wf(),
                i <= query_tags@.len(),
                query_codes@.len() == i,
                forall|j: int| 0 <= j < i ==> dict@.contains_key(#[trigger] query_tags@[j]@),
                forall|j: int|
                    0 <= j < i ==> (#[trigger] query_codes@[j]) == DataTagKind::of_code(
                        dict@[query_tags@[j]@].code,
                    )->0,
                forall|j: int|
                    0 <= j < i ==> (#[trigger] query_codes@[j]).spec_code()
                        == dict@[query_tags@[j]@].code,
                def_views(describe_tags@) == (if describe {
                    defs_of(query_tags@.take(i as int), dict@)
                } else {
                    Seq::empty()
                }),
            decreases query_tags@.len() - i,
        {
            let ghost shown = def_views(describe_tags@);
            let def = match dict.get(&query_tags[i]) {
                Some(def) => def,
                None => {
                    proof {
                        assert(first_unknown(query_tags@, dict@, i as int));
                    }
                    return Err(UnrecognizedTag { name: query_tags[i].clone() });
                },
            };
            let kind = match DataTagKind::from_code(def.code) {
                Ok(kind) => kind,
                Err(_) => {
                    proof {
                        assert(false);
                    }
                    DataTagKind::Nop
                },
            };
            query_codes.push(kind);
            if describe {
                describe_tags.push(def.duplicate());
                proof {
                    assert(def_views(describe_tags@) =~= shown.push(def@));
                    assert(shown.push(def@) =~= defs_of(query_tags@.take(i + 1), dict@));
                }
            }
            i = i + 1;
        }
        proof {
            assert(query_tags@.take(query_tags@.len() as int) =~= query_tags@);
        }
        Ok(Config { files, query_codes, show_tree, describe_tags })
    }
}

} // verus!
