//! The mapping from command name to command.
//!
//! The registry is modeled as a `Map` from name to command. Registration is
//! last-write-wins: a later command under a name overwrites an earlier one.
//! Callers that share one registry between threads put it behind a lock; the
//! lock then totally orders the calls, and the laws below describe the state
//! that any such order leaves behind.

use crate::command::Command;
use vstd::prelude::*;

verus! {

/// Lookup failure: no command is registered under the requested name.
#[derive(PartialEq, Eq, Structural, Clone, Copy, Debug)]
pub enum RegistryError {
    NotFound,
}

/// Pairwise-distinct command names.
pub open spec fn unique_names<A>(s: Seq<Command<A>>) -> bool {
    forall|i: int, j: int| 0 <= i < j < s.len() ==> s[i].name_spec() != s[j].name_spec()
}

/// The map that a sequence of registrations leaves behind when applied in
/// order to an initial map: each registration inserts its command under its
/// own name, a later registration overwriting an earlier one with the same
/// name.
pub open spec fn apply_registrations<A>(
    m: Map<Seq<char>, Command<A>>,
    cmds: Seq<Command<A>>,
) -> Map<Seq<char>, Command<A>>
    decreases cmds.len(),
{
    if cmds.len() == 0 {
        m
    } else {
        apply_registrations(m, cmds.drop_last()).insert(cmds.last().name_spec(), cmds.last())
    }
}

/// Law: after a sequence of registrations, a name is present exactly when it
/// was present initially or some registration used it — one entry per
/// distinct name, regardless of how many registrations shared a name.
pub proof fn lemma_registration_names<A>(
    m: Map<Seq<char>, Command<A>>,
    cmds: Seq<Command<A>>,
    name: Seq<char>,
)
    ensures
        apply_registrations(m, cmds).contains_key(name) <==> (m.contains_key(name) || exists|
            i: int,
        |
            0 <= i < cmds.len() && cmds[i].name_spec() == name),
    decreases cmds.len(),
{
    if cmds.len() == 0 {
    } else {
        lemma_registration_names(m, cmds.drop_last(), name);
        if cmds.last().name_spec() == name {
            assert(cmds[cmds.len() - 1].name_spec() == name);
        } else {
            if exists|i: int| 0 <= i < cmds.len() && cmds[i].name_spec() == name {
                let i = choose|i: int| 0 <= i < cmds.len() && cmds[i].name_spec() == name;
                assert(cmds.drop_last()[i].name_spec() == name);
            }
            if exists|i: int|
                0 <= i < cmds.drop_last().len() && cmds.drop_last()[i].name_spec() == name {
                let i = choose|i: int|
                    0 <= i < cmds.drop_last().len() && cmds.drop_last()[i].name_spec() == name;
                assert(cmds[i].name_spec() == name);
            }
        }
    }
}

/// Law: a name that no registration ever used is absent from the map that
/// any sequence of registrations builds on an initial map without it. By
/// `get`'s contract, a lookup of such a name then fails with `NotFound` — and
/// with nothing else: `get` is verified total, so it neither panics nor runs
/// on without returning.
pub proof fn lemma_never_registered_absent<A>(
    m: Map<Seq<char>, Command<A>>,
    cmds: Seq<Command<A>>,
    name: Seq<char>,
)
    requires
        !m.contains_key(name),
        forall|i: int| 0 <= i < cmds.len() ==> cmds[i].name_spec() != name,
    ensures
        !apply_registrations(m, cmds).contains_key(name),
{
    lemma_registration_names(m, cmds, name);
    if exists|i: int| 0 <= i < cmds.len() && cmds[i].name_spec() == name {
        let i = choose|i: int| 0 <= i < cmds.len() && cmds[i].name_spec() == name;
        assert(false);
    }
}

/// Law: last write wins. When no later registration uses the same name, the
/// entry under that name is exactly the command of registration `i`.
pub proof fn lemma_last_write_wins<A>(
    m: Map<Seq<char>, Command<A>>,
    cmds: Seq<Command<A>>,
    i: int,
)
    requires
        0 <= i < cmds.len(),
        forall|j: int| i < j < cmds.len() ==> cmds[j].name_spec() != cmds[i].name_spec(),
    ensures
        apply_registrations(m, cmds).contains_key(cmds[i].name_spec()),
        apply_registrations(m, cmds)[cmds[i].name_spec()] == cmds[i],
    decreases cmds.len(),
{
    if i == cmds.len() - 1 {
    } else {
        assert(cmds.last().name_spec() != cmds[i].name_spec());
        assert forall|j: int|
            i < j < cmds.drop_last().len() implies cmds.drop_last()[j].name_spec()
            != cmds.drop_last()[i].name_spec() by {
            assert(cmds.drop_last()[j] == cmds[j]);
            assert(cmds.drop_last()[i] == cmds[i]);
        }
        lemma_last_write_wins(m, cmds.drop_last(), i);
        assert(cmds.drop_last()[i] == cmds[i]);
    }
}

/// Law: when all registered names are distinct, every registration is still
/// present afterwards under its own name, whatever order the registrations
/// were serialized in.
pub proof fn lemma_unique_registrations_all_present<A>(
    m: Map<Seq<char>, Command<A>>,
    cmds: Seq<Command<A>>,
    i: int,
)
    requires
        unique_names(cmds),
        0 <= i < cmds.len(),
    ensures
        apply_registrations(m, cmds).contains_key(cmds[i].name_spec()),
        apply_registrations(m, cmds)[cmds[i].name_spec()] == cmds[i],
{
    assert forall|j: int| i < j < cmds.len() implies cmds[j].name_spec()
        != cmds[i].name_spec() by {}
    lemma_last_write_wins(m, cmds, i);
}

proof fn lemma_apply_update<A>(
    m: Map<Seq<char>, Command<A>>,
    s: Seq<Command<A>>,
    i: int,
    c: Command<A>,
)
    requires
        unique_names(s),
        0 <= i < s.len(),
        c.name_spec() == s[i].name_spec(),
    ensures
        apply_registrations(m, s.update(i, c)) == apply_registrations(m, s).insert(
            c.name_spec(),
            c,
        ),
    decreases s.len(),
{
    let t = s.update(i, c);
    if i == s.len() - 1 {
        assert(t.drop_last() =~= s.drop_last());
        assert(t.last() == c);
        let base = apply_registrations(m, s.drop_last());
        assert(base.insert(s[i].name_spec(), s[i]).insert(c.name_spec(), c) =~= base.insert(
            c.name_spec(),
            c,
        ));
    } else {
        assert(t.drop_last() =~= s.drop_last().update(i, c));
        assert(t.last() == s.last());
        assert forall|p: int, q: int|
            0 <= p < q < s.drop_last().len() implies s.drop_last()[p].name_spec()
            != s.drop_last()[q].name_spec() by {
            assert(s.drop_last()[p] == s[p]);
            assert(s.drop_last()[q] == s[q]);
        }
        assert(s.drop_last()[i] == s[i]);
        lemma_apply_update(m, s.drop_last(), i, c);
        assert(s[i].name_spec() != s[s.len() - 1].name_spec());
        let base = apply_registrations(m, s.drop_last());
        assert(base.insert(c.name_spec(), c).insert(s.last().name_spec(), s.last()) =~= base.insert(
            s.last().name_spec(),
            s.last(),
        ).insert(c.name_spec(), c));
    }
}

/// The registry: commands held under their names, one entry per name.
pub struct Registry<A> {
    entries: Vec<Command<A>>,
}

impl<A> View for Registry<A> {
    type V = Map<Seq<char>, Command<A>>;

    closed spec fn view(&self) -> Map<Seq<char>, Command<A>> {
        apply_registrations(Map::empty(), self.entries@)
    }
}

impl<A> Registry<A> {
    /// Internally, names are pairwise distinct and every entry is well
    /// formed.
    pub closed spec fn wf(self) -> bool {
        &&& unique_names(self.entries@)
        &&& forall|i: int| 0 <= i < self.entries@.len() ==> self.entries@[i].wf()
    }

    /// Creates the empty registry.
    pub fn new() -> (r: Self)
        ensures
            r.wf(),
            r@ == Map::<Seq<char>, Command<A>>::empty(),
    {
        Registry { entries: Vec::new() }
    }

    /// Inserts the command under its name. A later registration with the
    /// same name overwrites the earlier one: last write wins.
    pub fn register(&mut self, cmd: Command<A>)
        requires
            old(self).wf(),
            cmd.wf(),
        ensures
            final(self).wf(),
            final(self)@ == old(self)@.insert(cmd.name_spec(), cmd),
    {
        let ghost s0 = old(self).entries@;
        let n = self.entries.len();
        let mut i: usize = 0;
        while i < n
            invariant
                self.entries@ == s0,
                s0 == old(self).entries@,
                unique_names(s0),
                forall|k: int| 0 <= k < s0.len() ==> s0[k].wf(),
                cmd.wf(),
                n == s0.len(),
                i <= n,
                forall|j: int| 0 <= j < i ==> s0[j].name_spec() != cmd.name_spec(),
            decreases n - i,
        {
            let same = *self.entries[i].name() == *cmd.name();
            if same {
                proof {
                    lemma_apply_update(Map::empty(), s0, i as int, cmd);
                }
                self.entries[i] = cmd;
                proof {
                    let t = s0.update(i as int, cmd);
                    assert forall|p: int, q: int|
                        0 <= p < q < t.len() implies t[p].name_spec() != t[q].name_spec() by {
                        assert(t[p].name_spec() == s0[p].name_spec());
                        assert(t[q].name_spec() == s0[q].name_spec());
                    }
                    assert forall|k: int| 0 <= k < t.len() implies t[k].wf() by {}
                }
                return ;
            }
            i += 1;
        }
        self.entries.push(cmd);
        proof {
            assert(s0.push(cmd).drop_last() =~= s0);
            assert(s0.push(cmd).last() == cmd);
            let t = s0.push(cmd);
            assert forall|p: int, q: int|
                0 <= p < q < t.len() implies t[p].name_spec() != t[q].name_spec() by {
                if q == t.len() - 1 {
                    assert(t[p] == s0[p]);
                    assert(t[q] == cmd);
                } else {
                    assert(t[p] == s0[p]);
                    assert(t[q] == s0[q]);
                }
            }
            assert forall|k: int| 0 <= k < t.len() implies t[k].wf() by {}
        }
    }

    /// Looks up a command by exact name match. Fails with `NotFound` exactly
    /// when no command is registered under the name; it never fails
    /// otherwise.
    pub fn get(&self, name: &String) -> (r: Result<&Command<A>, RegistryError>)
        requires
            self.wf(),
        ensures
            match r {
                Ok(c) => {
                    &&& self@.contains_key(name@)
                    &&& *c == self@[name@]
                    &&& c.name_spec() == name@
                    &&& c.wf()
                },
                Err(e) => {
                    &&& !self@.contains_key(name@)
                    &&& e == RegistryError::NotFound
                },
            },
    {
        let n = self.entries.len();
        let mut i: usize = 0;
        while i < n
            invariant
                self.wf(),
                n == self.entries@.len(),
                i <= n,
                forall|j: int| 0 <= j < i ==> self.entries@[j].name_spec() != name@,
            decreases n - i,
        {
            let same = *self.entries[i].name() == *name;
            if same {
                proof {
                    assert forall|j: int|
                        (i as int) < j < self.entries@.len() implies self.entries@[j].name_spec()
                        != self.entries@[i as int].name_spec() by {}
                    lemma_last_write_wins(Map::empty(), self.entries@, i as int);
                }
                return Ok(&self.entries[i]);
            }
            i += 1;
        }
        proof {
            lemma_registration_names(Map::empty(), self.entries@, name@);
            assert forall|j: int|
                0 <= j < self.entries@.len() implies self.entries@[j].name_spec() != name@ by {}
        }
        Err(RegistryError::NotFound)
    }

    /// Whether a command is registered under the name.
    pub fn contains(&self, name: &String) -> (r: bool)
        requires
            self.wf(),
        ensures
            r == self@.contains_key(name@),
    {
        match self.get(name) {
            Ok(_) => true,
            Err(_) => false,
        }
    }
}

} // verus!
