//! Multi-workspace bookkeeping: named connection profiles and the
//! current selection. Reading and writing the profile file happens
//! outside the library; the library keeps the collection's rules:
//! at most one entry per name, selection only of existing entries.

use vstd::prelude::*;
use vstd::string::*;
use crate::config::Config;
use crate::text::str_eq;

verus! {

/// One named connection profile.
#[derive(Clone, Debug)]
pub struct Workspace {
    pub name: String,
    pub api_key: String,
    pub ingest_url: String,
    pub description: Option<String>,
}

/// The collection of profiles and the current selection.
#[derive(Debug)]
pub struct WorkspaceManager {
    workspaces: Vec<Workspace>,
    current: Option<String>,
}

/// Some entry carries this name.
pub open spec fn has_name(ws: Seq<Workspace>, name: Seq<char>) -> bool {
    exists|i: int| 0 <= i < ws.len() && (#[trigger] ws[i]).name@ == name
}

/// The index of the entry carrying the name; determined when names are
/// unique and the name occurs.
pub open spec fn index_of_name(ws: Seq<Workspace>, name: Seq<char>) -> int {
    choose|i: int| 0 <= i < ws.len() && (#[trigger] ws[i]).name@ == name
}

/// No two entries share a name.
pub open spec fn unique_names(ws: Seq<Workspace>) -> bool {
    forall|i: int, j: int|
        0 <= i < j < ws.len() ==> (#[trigger] ws[i]).name@ != (#[trigger] ws[j]).name@
}

impl WorkspaceManager {
    /// The profiles, in insertion order.
    pub closed spec fn entries(self) -> Seq<Workspace> {
        self.workspaces@
    }

    /// The selected name, if any.
    pub closed spec fn selected(self) -> Option<String> {
        self.current
    }

    /// The collection's rule: names are unique.
    pub open spec fn wf(self) -> bool {
        unique_names(self.entries())
    }

    /// An empty collection with nothing selected.
    pub fn new() -> (r: WorkspaceManager)
        ensures
            r.wf(),
            r.entries().len() == 0,
            r.selected() is None,
    {
        WorkspaceManager { workspaces: Vec::new(), current: None }
    }

    /// Where the entry carrying `name` stands.
    fn find_index(&self, name: &str) -> (r: Option<usize>)
        ensures
            r is Some <==> has_name(self.entries(), name@),
            r matches Some(i) ==> i < self.entries().len() && self.entries()[i as int].name@
                == name@,
    {
        let n = self.workspaces.len();
        let mut i: usize = 0;
        while i < n
            invariant
                n == self.entries().len(),
                i <= n,
                forall|j: int| 0 <= j < i ==> (#[trigger] self.entries()[j]).name@ != name@,
            decreases n - i,
        {
            if str_eq(self.workspaces[i].name.as_str(), name) {
                return Some(i);
            }
            i += 1;
        }
        None
    }

    /// Adds a profile: an entry of the same name is replaced in place,
    /// otherwise the profile comes last. Writing the collection back to
    /// disk is the caller's concern.
    pub fn add_workspace(&mut self, workspace: Workspace)
        requires
            old(self).wf(),
        ensures
            final(self).wf(),
            final(self).selected() == old(self).selected(),
            has_name(old(self).entries(), workspace.name@) ==> final(self).entries()
                == old(self).entries().update(
                index_of_name(old(self).entries(), workspace.name@),
                workspace,
            ),
            !has_name(old(self).entries(), workspace.name@) ==> final(self).entries()
                == old(self).entries().push(workspace),
    {
        let found = self.find_index(workspace.name.as_str());
        match found {
            Some(i) => {
                proof {
                    let ghost k = index_of_name(self.entries(), workspace.name@);
                    assert(0 <= k < self.entries().len() && self.entries()[k].name@
                        == workspace.name@);
                    assert(k == i as int);
                }
                self.workspaces.set(i, workspace);
            },
            None => {
                self.workspaces.push(workspace);
                proof {
                    assert forall|i: int, j: int|
                        0 <= i < j < self.entries().len() implies (#[trigger] self.entries()[i]).name@
                        != (#[trigger] self.entries()[j]).name@ by {
                        if j < self.entries().len() - 1 {
                        } else {
                            assert(!has_name(old(self).entries(), self.entries()[j].name@));
                        }
                    }
                }
            },
        }
    }

    /// The selected profile, when the selection names an existing one.
    pub fn get_current(&self) -> (r: Option<&Workspace>)
        requires
            self.wf(),
        ensures
            self.selected() is None ==> r is None,
            self.selected() matches Some(n) ==> {
                &&& !has_name(self.entries(), n@) ==> r is None
                &&& has_name(self.entries(), n@) ==> (r matches Some(w) && *w == self.entries()[
                    index_of_name(self.entries(), n@)
                ])
            },
    {
        match &self.current {
            None => None,
            Some(n) => {
                match self.find_index(n.as_str()) {
                    Some(i) => {
                        proof {
                            let ghost name = n@;
                            let ghost k = index_of_name(self.entries(), name);
                            assert(0 <= k < self.entries().len() && self.entries()[k].name@
                                == name);
                            assert(self.entries()[i as int].name@ == name);
                            if k != i as int {
                                assert(self.entries()[k].name@ != self.entries()[
                                    i as int
                                ].name@);
                                assert(false);
                            }
                        }
                        Some(&self.workspaces[i])
                    },
                    None => None,
                }
            },
        }
    }

    /// Selects the profile carrying `name`; refused, with the
    /// collection untouched, when no profile does.
    pub fn set_current(&mut self, name: &str) -> (r: Result<(), String>)
        requires
            old(self).wf(),
        ensures
            final(self).wf(),
            final(self).entries() == old(self).entries(),
            r is Ok <==> has_name(old(self).entries(), name@),
            r is Ok ==> (final(self).selected() matches Some(n) && n@ == name@),
            r matches Err(m) ==> m@ == "Workspace '"@ + name@ + "' not found"@
                && final(self).selected() == old(self).selected(),
    {
        match self.find_index(name) {
            Some(_) => {
                self.current = Some(name.to_owned());
                Ok(())
            },
            None => {
                let mut m = "Workspace '".to_owned();
                m.append(name);
                m.append("' not found");
                Err(m)
            },
        }
    }

    /// Every profile, in insertion order.
    pub fn list(&self) -> (r: Vec<&Workspace>)
        ensures
            r@.len() == self.entries().len(),
            forall|i: int| 0 <= i < r@.len() ==> *(#[trigger] r@[i]) == self.entries()[i],
    {
        let n = self.workspaces.len();
        let mut r: Vec<&Workspace> = Vec::new();
        let mut i: usize = 0;
        while i < n
            invariant
                n == self.entries().len(),
                i <= n,
                r@.len() == i,
                forall|j: int| 0 <= j < i ==> *(#[trigger] r@[j]) == self.entries()[j],
            decreases n - i,
        {
            r.push(&self.workspaces[i]);
            i += 1;
        }
        r
    }

    /// The selected profile as a connection configuration: its key and
    /// endpoint, under its name as the workspace.
    pub fn to_config(&self) -> (r: Result<Config, String>)
        requires
            self.wf(),
        ensures
            r is Ok <==> (self.selected() matches Some(n) && has_name(self.entries(), n@)),
            self.selected() matches Some(n) ==> (has_name(self.entries(), n@) ==> (r matches Ok(c)
                && {
                let w = self.entries()[index_of_name(self.entries(), n@)];
                &&& c.api_key == w.api_key
                &&& c.ingest_url == w.ingest_url
                &&& c.workspace == w.name
            })),
            r matches Err(m) ==> m@ == "No workspace selected"@,
    {
        match self.get_current() {
            Some(w) => Ok(
                Config {
                    api_key: w.api_key.clone(),
                    ingest_url: w.ingest_url.clone(),
                    workspace: w.name.clone(),
                },
            ),
            None => Err("No workspace selected".to_owned()),
        }
    }
}

} // verus!
