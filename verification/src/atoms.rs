//! Resolution of well-known protocol names to stable numeric atoms, with
//! create-if-absent semantics, and the spelling of the per-screen manager
//! selection name.

use vstd::prelude::*;

use crate::AtomId;

verus! {

/// The well-known protocol names this core resolves.
#[derive(Clone, Copy, Debug, PartialEq, Eq, Structural)]
pub enum AtomName {
    /// The per-screen manager selection, spelled "WM_S" plus the screen number.
    ManagerSelection,
    /// The property name the announce broadcast is typed with.
    ManagerProperty,
}

/// The atoms resolved so far within one connection. An atom, once resolved,
/// is stable for the connection's lifetime and never destroyed individually.
#[derive(Clone, Copy, Debug)]
pub struct AtomTable {
    pub manager_selection: Option<AtomId>,
    pub manager_property: Option<AtomId>,
}

impl AtomTable {
    /// What `name` currently resolves to.
    pub open spec fn spec_resolve(self, name: AtomName) -> Option<AtomId> {
        match name {
            AtomName::ManagerSelection => self.manager_selection,
            AtomName::ManagerProperty => self.manager_property,
        }
    }

    /// Every recorded atom is a real one: the server never hands out 0.
    pub open spec fn wf(self) -> bool {
        &&& (match self.manager_selection {
            Some(a) => a.0 != 0,
            None => true,
        })
        &&& (match self.manager_property {
            Some(a) => a.0 != 0,
            None => true,
        })
    }

    /// What resolving `name` answers, given what the server would answer for
    /// a fresh intern: an atom already in the table wins; otherwise a
    /// non-zero server answer is adopted when creation is asked for.
    pub open spec fn spec_resolved(
        self,
        name: AtomName,
        create_if_missing: bool,
        server_atom: AtomId,
    ) -> Option<AtomId> {
        if self.spec_resolve(name) is Some {
            self.spec_resolve(name)
        } else if create_if_missing && server_atom.0 != 0 {
            Some(server_atom)
        } else {
            None
        }
    }

    /// An empty table: nothing resolved yet.
    pub fn new() -> (t: AtomTable)
        ensures
            t.wf(),
            t.manager_selection is None,
            t.manager_property is None,
    {
        AtomTable { manager_selection: None, manager_property: None }
    }

    /// Look a name up without touching the server.
    pub fn resolve(&self, name: AtomName) -> (r: Option<AtomId>)
        ensures
            r == self.spec_resolve(name),
    {
        match name {
            AtomName::ManagerSelection => self.manager_selection,
            AtomName::ManagerProperty => self.manager_property,
        }
    }

    /// Resolve `name`, adopting the server's intern answer `server_atom` when
    /// the name is not in the table yet and creation is asked for. Answers
    /// `None` exactly when the name stays unresolved: absent and either not
    /// to be created or rejected by the server (atom 0).
    pub fn resolve_or_intern(
        &mut self,
        name: AtomName,
        create_if_missing: bool,
        server_atom: AtomId,
    ) -> (r: Option<AtomId>)
        requires
            old(self).wf(),
        ensures
            final(self).wf(),
            r == old(self).spec_resolved(name, create_if_missing, server_atom),
            final(self).spec_resolve(name) == r,
            forall|n: AtomName| n != name ==> final(self).spec_resolve(n) == old(
                self,
            ).spec_resolve(n),
    {
        let cached = self.resolve(name);
        match cached {
            Some(a) => Some(a),
            None => {
                if create_if_missing && server_atom.0 != 0 {
                    match name {
                        AtomName::ManagerSelection => {
                            self.manager_selection = Some(server_atom);
                        },
                        AtomName::ManagerProperty => {
                            self.manager_property = Some(server_atom);
                        },
                    }
                    Some(server_atom)
                } else {
                    None
                }
            },
        }
    }
}

/// Law: resolution is deterministic within one connection. Once a name has an
/// atom, resolving it again answers that same atom, whatever the server would
/// now say and whether or not creation is asked for.
pub proof fn lemma_resolution_deterministic(
    t: AtomTable,
    name: AtomName,
    create_if_missing: bool,
    server_atom: AtomId,
)
    requires
        t.spec_resolve(name) is Some,
    ensures
        t.spec_resolved(name, create_if_missing, server_atom) == t.spec_resolve(name),
{
}

/// The decimal digits of `n`, most significant first, as ASCII bytes.
pub open spec fn spec_decimal_digits(n: nat) -> Seq<u8>
    decreases n,
{
    if n < 10 {
        seq![(48 + n) as u8]
    } else {
        spec_decimal_digits(n / 10).push((48 + n % 10) as u8)
    }
}

/// The ICCCM name of the manager selection for `screen`: "WM_S" followed by
/// the decimal screen number.
pub open spec fn spec_selection_atom_name(screen: u32) -> Seq<u8> {
    seq![87u8, 77u8, 95u8, 83u8] + spec_decimal_digits(screen as nat)
}

/// Append the decimal digits of `n`, most significant first.
fn push_decimal_digits(n: u32, out: &mut Vec<u8>)
    ensures
        final(out)@ == old(out)@ + spec_decimal_digits(n as nat),
    decreases n,
{
    if n < 10 {
        out.push((48 + n) as u8);
        proof {
            assert(out@ =~= old(out)@ + spec_decimal_digits(n as nat));
        }
    } else {
        push_decimal_digits(n / 10, out);
        out.push((48 + n % 10) as u8);
        proof {
            assert(out@ =~= old(out)@ + spec_decimal_digits(n as nat));
        }
    }
}

/// Spell the name of the manager selection for `screen`, as the bytes
/// "WM_S" plus the screen number in decimal.
pub fn selection_atom_name(screen: u32) -> (s: Vec<u8>)
    ensures
        s@ == spec_selection_atom_name(screen),
{
    let mut s: Vec<u8> = Vec::new();
    s.push(87);
    s.push(77);
    s.push(95);
    s.push(83);
    push_decimal_digits(screen, &mut s);
    proof {
        assert(s@ =~= spec_selection_atom_name(screen));
    }
    s
}

} // verus!
