//! The process-wide, write-once command registry.
//!
//! Independent command modules each contribute one [`CommandRegistrar`] per
//! command type to a [`RegistryBuilder`] during startup; the composition root
//! then freezes the builder into a [`Registry`]. Freezing validates that all
//! declared names are pairwise distinct — a duplicate is a fatal
//! configuration error — and derives the name-keyed lookup table exactly
//! once. The frozen registry is immutable: it exposes an enumerable schema
//! list for bulk publication and the lookup table for dispatch, and nothing
//! is added, removed or changed for the life of the process.

use vstd::prelude::*;

use crate::commands::Command;
use crate::errors::RegistrationError;
use crate::schema::Schema;

verus! {

/// An immutable command descriptor: a command's declared name, its schema,
/// and the type-erased runner handle, independent of instance data.
pub struct CommandRegistrar<R> {
    pub name: String,
    pub schema: Schema,
    pub runner: R,
}

impl<R> CommandRegistrar<R> {
    /// Builds the one descriptor of command type `T`, carrying `runner` as
    /// the type-erased handle the registry will hand back at dispatch time.
    pub fn new<T: Command>(runner: R) -> (d: CommandRegistrar<R>)
        ensures
            d.name@ == T::spec_name(),
            d.schema@ == T::spec_schema(),
            d.runner == runner,
    {
        CommandRegistrar { name: T::name(), schema: T::create_schema(), runner }
    }
}

/// Resolution of a name against a descriptor list: the runner of the first
/// descriptor bearing that name.
pub open spec fn spec_resolve<R>(entries: Seq<CommandRegistrar<R>>, name: Seq<char>) -> Option<
    R,
>
    decreases entries.len(),
{
    if entries.len() == 0 {
        None
    } else if entries[0].name@ == name {
        Some(entries[0].runner)
    } else {
        spec_resolve(entries.drop_first(), name)
    }
}

/// Pairwise distinctness of the declared names in a descriptor list.
pub open spec fn unique_names<R>(entries: Seq<CommandRegistrar<R>>) -> bool {
    forall|i: int, j: int|
        0 <= i < j < entries.len() ==> entries[i].name@ != entries[j].name@
}

/// One row of the derived lookup table.
struct TableEntry<R> {
    name: String,
    runner: R,
}

/// A name keyed the same way in the table as in the descriptor list.
spec fn spec_table_lookup<R>(table: Seq<TableEntry<R>>, name: Seq<char>) -> Option<R>
    decreases table.len(),
{
    if table.len() == 0 {
        None
    } else if table[0].name@ == name {
        Some(table[0].runner)
    } else {
        spec_table_lookup(table.drop_first(), name)
    }
}

/// A table that mirrors a descriptor list row for row resolves every name as
/// the descriptor list does.
proof fn lemma_table_matches<R>(
    table: Seq<TableEntry<R>>,
    entries: Seq<CommandRegistrar<R>>,
    name: Seq<char>,
)
    requires
        table.len() == entries.len(),
        forall|i: int|
            0 <= i < table.len() ==> table[i].name@ == entries[i].name@ && table[i].runner
                == entries[i].runner,
    ensures
        spec_table_lookup(table, name) == spec_resolve(entries, name),
    decreases table.len(),
{
    if table.len() != 0 && table[0].name@ != name {
        lemma_table_matches(table.drop_first(), entries.drop_first(), name);
    }
}

/// The mutable-during-init-only collection of contributed descriptors.
pub struct RegistryBuilder<R> {
    entries: Vec<CommandRegistrar<R>>,
}

impl<R> RegistryBuilder<R> {
    /// The descriptors contributed so far, in contribution order.
    pub closed spec fn entries(self) -> Seq<CommandRegistrar<R>> {
        self.entries@
    }

    /// An empty builder, before any module has registered.
    pub fn new() -> (b: RegistryBuilder<R>)
        ensures
            b.entries() == Seq::<CommandRegistrar<R>>::empty(),
    {
        RegistryBuilder { entries: Vec::new() }
    }

    /// Contributes one descriptor. Append-only; order-independent for
    /// lookup, since materialization admits no duplicate names at all.
    pub fn submit(&mut self, d: CommandRegistrar<R>)
        ensures
            final(self).entries() == old(self).entries().push(d),
    {
        self.entries.push(d);
    }
}

impl<R: Copy> RegistryBuilder<R> {
    /// Freezes the builder into the process-wide registry. Validates that
    /// all declared names are pairwise distinct and derives the name-keyed
    /// lookup table, exactly once; a duplicate name is reported as the fatal
    /// [`RegistrationError::DuplicateName`], never silently overwritten.
    pub fn materialize(self) -> (r: Result<Registry<R>, RegistrationError>)
        ensures
            match r {
                Ok(reg) => unique_names(self.entries()) && reg.built_from(self.entries()),
                Err(e) => !unique_names(self.entries()) && (e matches
                    RegistrationError::DuplicateName(n) && exists|i: int, j: int|
                    0 <= i < j < self.entries().len() && self.entries()[i].name@
                        == self.entries()[j].name@ && n@ == self.entries()[i].name@),
            },
    {
        let n = self.entries.len();
        for i in 0..n
            invariant
                n == self.entries@.len(),
                forall|a: int, b: int|
                    0 <= a < b < n && a < i ==> self.entries@[a].name@ != self.entries@[b].name@,
        {
            for j in (i + 1)..n
                invariant
                    n == self.entries@.len(),
                    i < n,
                    forall|a: int, b: int|
                        0 <= a < b < n && a < i ==> self.entries@[a].name@
                            != self.entries@[b].name@,
                    forall|b: int|
                        i < b < j ==> self.entries@[i as int].name@ != self.entries@[b].name@,
            {
                if self.entries[i].name == self.entries[j].name {
                    return Err(RegistrationError::DuplicateName(self.entries[i].name.clone()));
                }
            }
        }
        let mut table: Vec<TableEntry<R>> = Vec::new();
        for k in 0..n
            invariant
                n == self.entries@.len(),
                table@.len() == k,
                forall|m: int|
                    0 <= m < k ==> table@[m].name@ == self.entries@[m].name@ && table@[m].runner
                        == self.entries@[m].runner,
        {
            table.push(
                TableEntry { name: self.entries[k].name.clone(), runner: self.entries[k].runner },
            );
        }
        let reg = Registry { entries: self.entries, table };
        proof {
            assert forall|name: Seq<char>| reg.lookup(name) == spec_resolve(
                self.entries@,
                name,
            ) by {
                lemma_table_matches(reg.table@, self.entries@, name);
            }
        }
        Ok(reg)
    }
}

/// The frozen registry: the full descriptor set and its derived name-keyed
/// lookup table, both read-only for the life of the process.
pub struct Registry<R> {
    entries: Vec<CommandRegistrar<R>>,
    table: Vec<TableEntry<R>>,
}

impl<R> Registry<R> {
    /// The descriptors the registry owns, in contribution order.
    pub closed spec fn entries(self) -> Seq<CommandRegistrar<R>> {
        self.entries@
    }

    /// The derived lookup view: what dispatch resolves `name` to.
    pub closed spec fn lookup(self, name: Seq<char>) -> Option<R> {
        spec_table_lookup(self.table@, name)
    }

    /// This registry is the materialization of exactly these descriptors.
    pub open spec fn built_from(self, entries: Seq<CommandRegistrar<R>>) -> bool {
        &&& self.entries() == entries
        &&& forall|name: Seq<char>| self.lookup(name) == spec_resolve(entries, name)
    }

    /// Maps every descriptor through its schema: the list published to the
    /// platform in one bulk call at startup.
    pub fn all_schemas(&self) -> (v: Vec<Schema>)
        ensures
            v@.len() == self.entries().len(),
            forall|i: int| 0 <= i < v@.len() ==> v@[i]@ == self.entries()[i].schema@,
    {
        let n = self.entries.len();
        let mut v: Vec<Schema> = Vec::new();
        for i in 0..n
            invariant
                n == self.entries@.len(),
                v@.len() == i,
                forall|m: int| 0 <= m < i ==> v@[m]@ == self.entries@[m].schema@,
        {
            v.push(self.entries[i].schema.clone());
        }
        v
    }
}

impl<R: Copy> Registry<R> {
    /// Name-keyed lookup in the materialized table. A missing name yields
    /// `None`, not a fault; the dispatcher reports it as an unknown command.
    pub fn resolve(&self, name: &String) -> (r: Option<R>)
        ensures
            r == self.lookup(name@),
    {
        let n = self.table.len();
        assert(self.table@.skip(0) =~= self.table@);
        for i in 0..n
            invariant
                n == self.table@.len(),
                spec_table_lookup(self.table@, name@) == spec_table_lookup(
                    self.table@.skip(i as int),
                    name@,
                ),
        {
            assert(self.table@.skip(i as int).drop_first() =~= self.table@.skip(i + 1));
            let e = &self.table[i];
            if e.name == *name {
                assert(self.table@.skip(i as int)[0] == self.table@[i as int]);
                return Some(e.runner);
            }
        }
        assert(self.table@.skip(n as int) =~= Seq::<TableEntry<R>>::empty());
        None
    }
}

/// Order-independent registration: with pairwise distinct names, resolution
/// is a function of the set of descriptors alone — a name resolves to a
/// runner exactly when some descriptor declares that name with that runner,
/// wherever it stands in contribution order, and misses exactly when no
/// descriptor declares it.
pub proof fn lemma_resolve_order_independent<R>(
    entries: Seq<CommandRegistrar<R>>,
    name: Seq<char>,
)
    requires
        unique_names(entries),
    ensures
        spec_resolve(entries, name) is None <==> (forall|i: int|
            0 <= i < entries.len() ==> entries[i].name@ != name),
        forall|i: int|
            0 <= i < entries.len() && entries[i].name@ == name ==> spec_resolve(entries, name)
                == Some(entries[i].runner),
    decreases entries.len(),
{
    if entries.len() != 0 && entries[0].name@ != name {
        let rest = entries.drop_first();
        assert forall|i: int, j: int| 0 <= i < j < rest.len() implies rest[i].name@
            != rest[j].name@ by {
            assert(rest[i] == entries[i + 1]);
            assert(rest[j] == entries[j + 1]);
        }
        lemma_resolve_order_independent(rest, name);
        assert forall|i: int|
            0 <= i < entries.len() && entries[i].name@ == name implies spec_resolve(entries, name)
            == Some(entries[i].runner) by {
            assert(rest[i - 1] == entries[i]);
        }
        if spec_resolve(entries, name) is None {
            assert forall|i: int| 0 <= i < entries.len() implies entries[i].name@ != name by {
                if i > 0 {
                    assert(rest[i - 1] == entries[i]);
                }
            }
        }
    }
}

/// Idempotent lookup-table build: any two materializations of the same
/// descriptor list resolve every name identically, so however many tasks
/// race to build the table first, all observe one and the same completed
/// table — no partial or duplicate build can be told apart from this one.
pub proof fn lemma_build_idempotent<R>(
    entries: Seq<CommandRegistrar<R>>,
    r1: Registry<R>,
    r2: Registry<R>,
)
    requires
        r1.built_from(entries),
        r2.built_from(entries),
    ensures
        forall|name: Seq<char>| r1.lookup(name) == r2.lookup(name),
{
}

} // verus!
