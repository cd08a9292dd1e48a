//! The notebook metadata model: what the device's `.metadata` and
//! `.content` files describe, and how a raw content record resolves to its
//! page list.  Reading and decoding those files happens outside the
//! library; the resolution rule lives here.

use vstd::prelude::*;

verus! {

/// What a `.metadata` entry describes: a notebook document or a folder.
#[derive(Clone, Copy, Debug, PartialEq, Eq, Structural)]
pub enum ElementType {
    DocumentType,
    CollectionType,
}

/// The fields read from a `.metadata` file.
#[derive(Clone, Debug, PartialEq)]
pub struct NotebookMetadata {
    pub visible_name: String,
    pub element_type: ElementType,
}

/// One page entry of a `.content` file's `cPages` table.
#[derive(Clone, Debug, PartialEq)]
pub struct CPagesPage {
    pub id: String,
}

impl DeepView for CPagesPage {
    type V = Seq<char>;

    open spec fn deep_view(&self) -> Seq<char> {
        self.id@
    }
}

/// The `cPages` table of a `.content` file.
#[derive(Clone, Debug, PartialEq)]
pub struct CPages {
    pub pages: Option<Vec<CPagesPage>>,
}

/// A `.content` file as it stands on disk: either an old-style flat page
/// list, or a `cPages` table, or neither.
#[derive(Clone, Debug, PartialEq)]
pub struct NotebookContentRaw {
    pub c_pages: Option<CPages>,
    pub pages: Option<Vec<String>>,
}

/// A `.content` file resolved to its page id list, if it declares one.
#[derive(Clone, Debug, PartialEq)]
pub struct NotebookContent {
    pub pages: Option<Vec<String>>,
}

impl NotebookContent {
    /// Resolve a raw content record: the flat `pages` list wins; failing
    /// that, the ids of the `cPages` entries; failing that, no list.
    pub fn from_raw(raw: NotebookContentRaw) -> (c: NotebookContent)
        ensures
            raw.pages matches Some(ps) ==> (c.pages matches Some(out) && out.deep_view()
                == ps.deep_view()),
            raw.pages is None ==> (raw.c_pages matches Some(cp) ==> (cp.pages matches Some(cps)
                ==> (c.pages matches Some(out) && out.deep_view() == cps.deep_view()))),
            raw.pages is None && raw.c_pages is None ==> c.pages is None,
            raw.pages is None ==> (raw.c_pages matches Some(cp) ==> (cp.pages is None ==> c.pages
                is None)),
    {
        match raw.pages {
            Some(ps) => NotebookContent { pages: Some(ps) },
            None => match raw.c_pages {
                None => NotebookContent { pages: None },
                Some(cp) => match cp.pages {
                    None => NotebookContent { pages: None },
                    Some(cps) => {
                        let mut ids: Vec<String> = Vec::new();
                        let ghost target = cps.deep_view();
                        let mut k: usize = 0;
                        proof {
                            assert(ids.deep_view() =~= target.take(0));
                        }
                        while k < cps.len()
                            invariant
                                k <= cps.len(),
                                target == cps.deep_view(),
                                ids.deep_view() == target.take(k as int),
                            decreases cps.len() - k,
                        {
                            let ghost prefix = ids.deep_view();
                            ids.push(cps[k].id.clone());
                            proof {
                                assert(ids.deep_view() =~= prefix.push(target[k as int]));
                                assert(target.take(k + 1 as int) =~= target.take(k as int).push(
                                    target[k as int],
                                ));
                            }
                            k = k + 1;
                        }
                        proof {
                            assert(target.take(cps.len() as int) =~= target);
                        }
                        NotebookContent { pages: Some(ids) }
                    },
                },
            },
        }
    }
}

} // verus!
